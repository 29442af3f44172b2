pub mod bus;
pub mod cpu;
pub mod pia;
pub mod tia;

use vstd::prelude::*;

use crate::bus::Bus;
use crate::cpu::Mos6507;

verus! {

/// A program image: a flat byte array mapped read-only into the
/// cartridge window of the bus.
pub type Cartridge = Vec<u8>;

/// The whole machine: the processor together with the bus that maps
/// its address space over the cartridge and the two peripheral chips.
pub struct Atari2600 {
    pub cpu: Mos6507,
    pub bus: Bus,
}

impl Atari2600 {
    /// A machine fresh from the factory: zeroed processor, zeroed
    /// peripherals, and a one-byte placeholder cartridge.
    pub fn new() -> (machine: Atari2600)
        ensures
            machine.bus.wf(),
            machine.cpu == (Mos6507 { a: 0u8, x: 0u8, y: 0u8, sp: 0u8, pc: 0u16, flags: 0u8 }),
            machine.bus@.cart == seq![0u8],
            forall|i: int| 0 <= i < machine.bus@.ram.len() ==> machine.bus@.ram[i] == 0u8,
            forall|i: int| 0 <= i < machine.bus@.tia.len() ==> machine.bus@.tia[i] == 0u8,
    {
        let mut cartridge: Vec<u8> = Vec::new();
        cartridge.push(0u8);
        proof {
            assert(cartridge@ =~= seq![0u8]);
        }
        Atari2600 { cpu: Mos6507::new(), bus: Bus::new(cartridge) }
    }

    /// Replace the cartridge image; processor and peripherals keep
    /// their state.
    pub fn insert_cartridge(&mut self, cartridge: Cartridge)
        ensures
            final(self).bus@.cart == cartridge@,
            final(self).cpu == old(self).cpu,
            final(self).bus@.ram == old(self).bus@.ram,
            final(self).bus@.tia == old(self).bus@.tia,
            old(self).bus.wf() ==> final(self).bus.wf(),
    {
        self.bus.cartridge = cartridge;
    }

    /// Report readiness to run.  Driving the processor itself is the
    /// caller's business, through `Mos6507::reset`, `step` and `run`
    /// against this machine's bus.
    pub fn power_on(&self) -> (r: Result<i32, ()>)
        ensures
            r == Ok::<i32, ()>(1i32),
    {
        Ok(1)
    }
}

} // verus!

