use vstd::prelude::*;

verus! {

/// Number of bytes in the TIA's register window.
pub const TIA_REG_COUNT: u16 = 64;

/// Video/audio chip as seen from the bus: a byte-addressable window of
/// 64 register bytes.  The bus forwards in-range accesses verbatim; the
/// chip's internal video and audio behaviour is out of scope.
pub struct Tia1A {
    pub registers: Vec<u8>,
}

impl Tia1A {
    /// The register window always holds exactly `TIA_REG_COUNT` bytes.
    pub open spec fn wf(self) -> bool {
        self.registers@.len() == TIA_REG_COUNT
    }

    /// A freshly powered-on TIA: all registers are zero.
    pub fn new() -> (t: Tia1A)
        ensures
            t.wf(),
            forall|i: int| 0 <= i < TIA_REG_COUNT ==> t.registers@[i] == 0u8,
    {
        let mut registers: Vec<u8> = Vec::new();
        while registers.len() < TIA_REG_COUNT as usize
            invariant
                registers@.len() <= TIA_REG_COUNT,
                forall|i: int| 0 <= i < registers@.len() ==> registers@[i] == 0u8,
            decreases TIA_REG_COUNT - registers@.len(),
        {
            registers.push(0u8);
        }
        Tia1A { registers }
    }

    /// Read one byte of the register window.
    pub fn read(&self, offset: u16) -> (b: u8)
        requires
            self.wf(),
            offset < TIA_REG_COUNT,
        ensures
            b == self.registers@[offset as int],
    {
        self.registers[offset as usize]
    }

    /// Write one byte of the register window.
    pub fn write(&mut self, offset: u16, value: u8)
        requires
            old(self).wf(),
            offset < TIA_REG_COUNT,
        ensures
            final(self).wf(),
            final(self).registers@ == old(self).registers@.update(offset as int, value),
    {
        self.registers[offset as usize] = value;
    }
}

} // verus!
