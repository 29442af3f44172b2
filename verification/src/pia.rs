use vstd::prelude::*;

verus! {

/// Number of bytes in the PIA's RAM window.
pub const PIA_RAM_SIZE: u16 = 128;

/// 6532 "RIOT" chip as seen from the bus: a byte-addressable window of
/// 128 RAM bytes.  The bus forwards in-range accesses verbatim; no
/// register has any semantic interpretation here.
pub struct Pia6532 {
    pub ram: Vec<u8>,
}

impl Pia6532 {
    /// The register window always holds exactly `PIA_RAM_SIZE` bytes.
    pub open spec fn wf(self) -> bool {
        self.ram@.len() == PIA_RAM_SIZE
    }

    /// A freshly powered-on PIA: all RAM bytes are zero.
    pub fn new() -> (p: Pia6532)
        ensures
            p.wf(),
            forall|i: int| 0 <= i < PIA_RAM_SIZE ==> p.ram@[i] == 0u8,
    {
        let mut ram: Vec<u8> = Vec::new();
        while ram.len() < PIA_RAM_SIZE as usize
            invariant
                ram@.len() <= PIA_RAM_SIZE,
                forall|i: int| 0 <= i < ram@.len() ==> ram@[i] == 0u8,
            decreases PIA_RAM_SIZE - ram@.len(),
        {
            ram.push(0u8);
        }
        Pia6532 { ram }
    }

    /// Read one byte of the register window.
    pub fn read(&self, offset: u16) -> (b: u8)
        requires
            self.wf(),
            offset < PIA_RAM_SIZE,
        ensures
            b == self.ram@[offset as int],
    {
        self.ram[offset as usize]
    }

    /// Write one byte of the register window.
    pub fn write(&mut self, offset: u16, value: u8)
        requires
            old(self).wf(),
            offset < PIA_RAM_SIZE,
        ensures
            final(self).wf(),
            final(self).ram@ == old(self).ram@.update(offset as int, value),
    {
        self.ram[offset as usize] = value;
    }
}

} // verus!
