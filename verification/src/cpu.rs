use vstd::prelude::*;

verus! {

/// The address after `addr`, wrapping at the end of the address space.
pub open spec fn next_addr(addr: u16) -> u16 {
    if addr == 0xFFFF { 0 } else { (addr + 1) as u16 }
}

/// The little-endian word at `addr`.
pub open spec fn word_at(mem: Seq<u8>, addr: u16) -> u16 {
    (mem[addr as int] + 256 * mem[next_addr(addr) as int]) as u16
}

/// Absolute jump: the target follows the opcode.
pub const JMP_ABSOLUTE: u8 = 0x4C;

/// Indirect jump: the address of the target follows the opcode.
pub const JMP_INDIRECT: u8 = 0x6C;

/// Whether the core can decode an opcode.
pub open spec fn supported(opcode: u8) -> bool {
    opcode == JMP_ABSOLUTE || opcode == JMP_INDIRECT
}

/// Where the jump at `pc` leads.
pub open spec fn jump_target(mem: Seq<u8>, pc: u16) -> u16 {
    let operand = word_at(mem, next_addr(pc));
    if mem[pc as int] == JMP_ABSOLUTE {
        operand
    } else {
        word_at(mem, operand)
    }
}

/// The CPU's address space: 64 KiB of flat memory.
#[derive(Debug)]
pub struct CpuMemory {
    cells: Vec<u8>,
}

impl View for CpuMemory {
    type V = Seq<u8>;

    closed spec fn view(&self) -> Seq<u8> {
        self.cells@
    }
}

impl CpuMemory {
    pub open spec fn wf(&self) -> bool {
        self@.len() == 0x10000
    }

    /// Memory that reads 0 everywhere.
    pub fn new() -> (r: CpuMemory)
        ensures
            r.wf(),
            forall|i: int| 0 <= i < 0x10000 ==> r@[i] == 0,
    {
        let mut cells: Vec<u8> = Vec::new();
        let mut i: u32 = 0;
        while i < 0x10000
            invariant
                i <= 0x10000,
                cells@.len() == i,
                forall|k: int| 0 <= k < i ==> cells@[k] == 0,
            decreases 0x10000 - i,
        {
            cells.push(0);
            i = i + 1;
        }
        CpuMemory { cells }
    }

    /// Whether the memory spans the whole address space.
    pub fn valid(&self) -> (r: bool)
        ensures
            r == self.wf(),
    {
        self.cells.len() == 0x10000
    }

    pub fn read(&self, idx: u16) -> (r: u8)
        requires
            self.wf(),
        ensures
            r == self@[idx as int],
    {
        self.cells[idx as usize]
    }

    pub fn read_w(&self, idx: u16) -> (r: u16)
        requires
            self.wf(),
        ensures
            r == word_at(self@, idx),
    {
        let low: u16 = self.read(idx) as u16;
        let high: u16 = self.read(if idx == 0xFFFF { 0 } else { idx + 1 }) as u16;
        high * 256 + low
    }

    pub fn write(&mut self, idx: u16, val: u8)
        requires
            old(self).wf(),
        ensures
            final(self)@ == old(self)@.update(idx as int, val),
            final(self).wf(),
    {
        self.cells.set(idx as usize, val);
    }
}

/// How an instruction finds its operand.
#[derive(Clone, Copy, Debug)]
pub enum AddressingMode {
    /// The operand follows the opcode.
    Immediate,
    /// The operand lies in memory, from this address on.
    Memory(u16),
}

/// The processor: its registers and its memory.
#[derive(Debug)]
pub struct CPU {
    pub a: u8,
    pub x: u8,
    pub y: u8,
    pub p: u8,
    pub s: u8,
    pub pc: u16,
    pub mem: CpuMemory,
}

impl CPU {
    /// Whether `other` has the registers of `self`, the program counter
    /// aside.
    pub open spec fn same_registers(&self, other: &CPU) -> bool {
        &&& self.a == other.a
        &&& self.x == other.x
        &&& self.y == other.y
        &&& self.p == other.p
        &&& self.s == other.s
    }

    pub fn new(mem: CpuMemory) -> (r: CPU)
        ensures
            r.a == 0 && r.x == 0 && r.y == 0,
            r.p == 0x24,
            r.s == 0xFD,
            r.pc == 0,
            r.mem@ == mem@,
    {
        CPU { a: 0, x: 0, y: 0, p: 0x24, s: 0xFD, pc: 0, mem }
    }

    /// Points the program counter at the start of the program.
    pub fn init(&mut self)
        ensures
            final(self).pc == 0xC000,
            final(self).same_registers(old(self)),
            final(self).mem@ == old(self).mem@,
    {
        self.pc = 0xC000;
    }

    pub fn read(&mut self, idx: u16) -> (r: u8)
        requires
            old(self).mem.wf(),
        ensures
            r == old(self).mem@[idx as int],
            final(self).mem@ == old(self).mem@,
            final(self).pc == old(self).pc,
            final(self).same_registers(old(self)),
    {
        self.mem.read(idx)
    }

    pub fn write(&mut self, idx: u16, val: u8)
        requires
            old(self).mem.wf(),
        ensures
            final(self).mem@ == old(self).mem@.update(idx as int, val),
            final(self).mem.wf(),
            final(self).pc == old(self).pc,
            final(self).same_registers(old(self)),
    {
        self.mem.write(idx, val)
    }

    fn load_incr_pc(&mut self) -> (r: u8)
        requires
            old(self).mem.wf(),
        ensures
            r == old(self).mem@[old(self).pc as int],
            final(self).pc == next_addr(old(self).pc),
            final(self).mem@ == old(self).mem@,
            final(self).same_registers(old(self)),
    {
        let res: u8 = self.mem.read(self.pc);
        self.pc = if self.pc == 0xFFFF { 0 } else { self.pc + 1 };
        res
    }

    fn load_w_incr_pc(&mut self) -> (r: u16)
        requires
            old(self).mem.wf(),
        ensures
            r == word_at(old(self).mem@, old(self).pc),
            final(self).pc == next_addr(next_addr(old(self).pc)),
            final(self).mem@ == old(self).mem@,
            final(self).same_registers(old(self)),
    {
        let res: u16 = self.mem.read_w(self.pc);
        self.pc = if self.pc >= 0xFFFE { self.pc - 0xFFFE } else { self.pc + 2 };
        res
    }

    /// One byte of the operand; a memory operand moves on by one address.
    fn operand(&mut self, mode: &mut AddressingMode) -> (r: u8)
        requires
            old(self).mem.wf(),
        ensures
            final(self).mem@ == old(self).mem@,
            final(self).same_registers(old(self)),
            match *old(mode) {
                AddressingMode::Immediate => {
                    &&& r == old(self).mem@[old(self).pc as int]
                    &&& final(self).pc == next_addr(old(self).pc)
                    &&& *final(mode) == *old(mode)
                },
                AddressingMode::Memory(ptr) => {
                    &&& r == old(self).mem@[ptr as int]
                    &&& final(self).pc == old(self).pc
                    &&& *final(mode) == AddressingMode::Memory(next_addr(ptr))
                },
            },
    {
        match *mode {
            AddressingMode::Immediate => self.load_incr_pc(),
            AddressingMode::Memory(ptr) => {
                let val: u8 = self.read(ptr);
                *mode = AddressingMode::Memory(if ptr == 0xFFFF { 0 } else { ptr + 1 });
                val
            },
        }
    }

    /// The operand as a little-endian word.
    fn operand_w(&mut self, mode: &mut AddressingMode) -> (r: u16)
        requires
            old(self).mem.wf(),
        ensures
            final(self).mem@ == old(self).mem@,
            final(self).same_registers(old(self)),
            match *old(mode) {
                AddressingMode::Immediate => {
                    &&& r == word_at(old(self).mem@, old(self).pc)
                    &&& final(self).pc == next_addr(next_addr(old(self).pc))
                },
                AddressingMode::Memory(ptr) => {
                    &&& r == word_at(old(self).mem@, ptr)
                    &&& final(self).pc == old(self).pc
                },
            },
    {
        let low: u16 = self.operand(mode) as u16;
        let high: u16 = self.operand(mode) as u16;
        high * 256 + low
    }

    fn indirect(&mut self) -> (r: AddressingMode)
        requires
            old(self).mem.wf(),
        ensures
            r == AddressingMode::Memory(word_at(old(self).mem@, old(self).pc)),
            final(self).pc == next_addr(next_addr(old(self).pc)),
            final(self).mem@ == old(self).mem@,
            final(self).same_registers(old(self)),
    {
        AddressingMode::Memory(self.load_w_incr_pc())
    }

    fn absolute(&mut self) -> (r: AddressingMode)
        ensures
            r == AddressingMode::Immediate,
            *final(self) == *old(self),
    {
        AddressingMode::Immediate
    }

    fn jmp(&mut self, mode: &mut AddressingMode)
        requires
            old(self).mem.wf(),
        ensures
            final(self).mem@ == old(self).mem@,
            final(self).same_registers(old(self)),
            final(self).pc == match *old(mode) {
                AddressingMode::Immediate => word_at(old(self).mem@, old(self).pc),
                AddressingMode::Memory(ptr) => word_at(old(self).mem@, ptr),
            },
    {
        self.pc = self.operand_w(mode);
    }

    /// Executes the instruction at the program counter, which has to be one
    /// of the two jumps.
    pub fn step(&mut self)
        requires
            old(self).mem.wf(),
            supported(old(self).mem@[old(self).pc as int]),
        ensures
            final(self).pc == jump_target(old(self).mem@, old(self).pc),
            final(self).mem@ == old(self).mem@,
            final(self).same_registers(old(self)),
    {
        let opcode: u8 = self.load_incr_pc();
        if opcode == JMP_ABSOLUTE {
            let mut mode = self.absolute();
            self.jmp(&mut mode);
        } else {
            let mut mode = self.indirect();
            self.jmp(&mut mode);
        }
    }

    /// Whether `step` can run: the opcode at the program counter is one that
    /// the core decodes.
    pub fn can_step(&self) -> (r: bool)
        requires
            self.mem.wf(),
        ensures
            r == supported(self.mem@[self.pc as int]),
    {
        let opcode: u8 = self.mem.read(self.pc);
        opcode == JMP_ABSOLUTE || opcode == JMP_INDIRECT
    }
}

} // verus!
