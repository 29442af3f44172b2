use vstd::prelude::*;

use crate::pia::{Pia6532, PIA_RAM_SIZE};
use crate::tia::{Tia1A, TIA_REG_COUNT};

verus! {

/// First address of the TIA register window.
pub const TIA_BASE: u16 = 0x0000;
/// First address of the PIA RAM window.
pub const PIA_BASE: u16 = 0x0080;
/// First address of the cartridge window.
pub const CART_BASE: u16 = 0xF000;
/// Address of the little-endian reset vector.  It lies inside the
/// cartridge window, in the conventional place near the top of the
/// address space; a cartridge must cover it for `reset` to succeed.
pub const RESET_VECTOR: u16 = 0xFFFC;

/// A memory access the bus cannot honour.
#[derive(Clone, Copy, Debug, PartialEq, Eq)]
pub enum BusFault {
    /// The address falls outside every mapped range.
    Unmapped(u16),
    /// The write targets the read-only cartridge window.
    ReadOnly(u16),
}

/// The processor's view of the address space: the cartridge bytes
/// (read-only), the PIA RAM window and the TIA register window.
#[verifier::ext_equal]
pub ghost struct BusView {
    pub cart: Seq<u8>,
    pub ram: Seq<u8>,
    pub tia: Seq<u8>,
}

impl BusView {
    /// The two peripheral windows have their fixed sizes.
    pub open spec fn wf(self) -> bool {
        self.ram.len() == PIA_RAM_SIZE && self.tia.len() == TIA_REG_COUNT
    }
}

/// Routes each 16-bit address to at most one backing store.  Addresses
/// outside every range fault rather than reading as zero.
pub struct Bus {
    pub cartridge: Vec<u8>,
    pub pia: Pia6532,
    pub tia: Tia1A,
}

/// The address lies in the TIA register window.
pub open spec fn in_tia(addr: u16) -> bool {
    addr < TIA_REG_COUNT
}

/// The address lies in the PIA RAM window.
pub open spec fn in_pia(addr: u16) -> bool {
    PIA_BASE <= addr && addr < PIA_BASE + PIA_RAM_SIZE
}

/// The address lies in the part of the cartridge window that the
/// cartridge actually covers.
pub open spec fn in_cart(b: BusView, addr: u16) -> bool {
    CART_BASE <= addr && addr - CART_BASE < b.cart.len()
}

/// The address accepts writes: both peripheral windows do, the
/// cartridge window does not.
pub open spec fn writable(addr: u16) -> bool {
    in_tia(addr) || in_pia(addr)
}

/// What a read of one byte returns, or the fault it raises.
pub open spec fn spec_read(b: BusView, addr: u16) -> Result<u8, BusFault> {
    if in_tia(addr) {
        Ok(b.tia[addr as int])
    } else if in_pia(addr) {
        Ok(b.ram[addr - PIA_BASE])
    } else if in_cart(b, addr) {
        Ok(b.cart[addr - CART_BASE])
    } else {
        Err(BusFault::Unmapped(addr))
    }
}

/// The state after a write of one byte, or the fault it raises.
pub open spec fn spec_write(b: BusView, addr: u16, value: u8) -> Result<BusView, BusFault> {
    if in_tia(addr) {
        Ok(BusView { tia: b.tia.update(addr as int, value), ..b })
    } else if in_pia(addr) {
        Ok(BusView { ram: b.ram.update(addr - PIA_BASE, value), ..b })
    } else if in_cart(b, addr) {
        Err(BusFault::ReadOnly(addr))
    } else {
        Err(BusFault::Unmapped(addr))
    }
}

/// The next address, wrapping at the top of the 16-bit space.
pub open spec fn wrap_inc(addr: u16) -> u16 {
    if addr == 0xFFFF {
        0u16
    } else {
        (addr + 1) as u16
    }
}

/// 16-bit addition that wraps at the top of the address space.
pub open spec fn wrap_add16(a: u16, b: u16) -> u16 {
    ((a + b) % 0x10000) as u16
}

/// Executable counterpart of `wrap_inc`.
pub(crate) fn wrapping_inc(addr: u16) -> (r: u16)
    ensures
        r == wrap_inc(addr),
{
    if addr == 0xFFFF {
        0u16
    } else {
        addr + 1
    }
}

/// Executable counterpart of `wrap_add16`.
pub(crate) fn wrapping_add16(a: u16, b: u16) -> (r: u16)
    ensures
        r == wrap_add16(a, b),
{
    (((a as u32) + (b as u32)) % 0x10000) as u16
}

/// A 16-bit word assembled little-endian from two bytes.
pub open spec fn word_from(lo: u8, hi: u8) -> u16 {
    (256 * (hi as int) + (lo as int)) as u16
}

/// What a little-endian word read returns: the byte at `addr` is the
/// low half, the byte at the next (wrapping) address the high half.
pub open spec fn spec_read_word(b: BusView, addr: u16) -> Result<u16, BusFault> {
    match spec_read(b, addr) {
        Err(f) => Err(f),
        Ok(lo) => match spec_read(b, wrap_inc(addr)) {
            Err(f) => Err(f),
            Ok(hi) => Ok(word_from(lo, hi)),
        },
    }
}

impl View for Bus {
    type V = BusView;

    open spec fn view(&self) -> BusView {
        BusView { cart: self.cartridge@, ram: self.pia.ram@, tia: self.tia.registers@ }
    }
}

impl Bus {
    /// The peripheral windows have their fixed sizes.
    pub open spec fn wf(self) -> bool {
        self@.wf()
    }

    /// A bus over the given cartridge image and freshly powered-on
    /// peripherals.
    pub fn new(cartridge: Vec<u8>) -> (b: Bus)
        ensures
            b.wf(),
            b@.cart == cartridge@,
            forall|i: int| 0 <= i < PIA_RAM_SIZE ==> b@.ram[i] == 0u8,
            forall|i: int| 0 <= i < TIA_REG_COUNT ==> b@.tia[i] == 0u8,
    {
        Bus { cartridge, pia: Pia6532::new(), tia: Tia1A::new() }
    }

    /// Read the byte at `addr`, routing to the range that maps it.
    pub fn read_byte(&self, addr: u16) -> (r: Result<u8, BusFault>)
        requires
            self.wf(),
        ensures
            r == spec_read(self@, addr),
    {
        if addr < TIA_REG_COUNT {
            Ok(self.tia.read(addr))
        } else if PIA_BASE <= addr && addr < PIA_BASE + PIA_RAM_SIZE {
            Ok(self.pia.read(addr - PIA_BASE))
        } else if CART_BASE <= addr && ((addr - CART_BASE) as usize) < self.cartridge.len() {
            Ok(self.cartridge[(addr - CART_BASE) as usize])
        } else {
            Err(BusFault::Unmapped(addr))
        }
    }

    /// Read a little-endian word at `addr`, wrapping at the top of the
    /// address space.
    pub fn read_word(&self, addr: u16) -> (r: Result<u16, BusFault>)
        requires
            self.wf(),
        ensures
            r == spec_read_word(self@, addr),
    {
        let lo = match self.read_byte(addr) {
            Ok(v) => v,
            Err(f) => {
                return Err(f);
            },
        };
        let next = if addr == 0xFFFF {
            0u16
        } else {
            addr + 1
        };
        let hi = match self.read_byte(next) {
            Ok(v) => v,
            Err(f) => {
                return Err(f);
            },
        };
        Ok((hi as u16) * 256 + (lo as u16))
    }

    /// Write the byte at `addr`.  Writes into the cartridge window
    /// fault and leave every backing store unchanged.
    pub fn write_byte(&mut self, addr: u16, value: u8) -> (r: Result<(), BusFault>)
        requires
            old(self).wf(),
        ensures
            final(self).wf(),
            match spec_write(old(self)@, addr, value) {
                Ok(b2) => r is Ok && final(self)@ == b2,
                Err(f) => r == Err::<(), BusFault>(f) && *final(self) == *old(self),
            },
    {
        if addr < TIA_REG_COUNT {
            self.tia.write(addr, value);
            Ok(())
        } else if PIA_BASE <= addr && addr < PIA_BASE + PIA_RAM_SIZE {
            self.pia.write(addr - PIA_BASE, value);
            Ok(())
        } else if CART_BASE <= addr && ((addr - CART_BASE) as usize) < self.cartridge.len() {
            Err(BusFault::ReadOnly(addr))
        } else {
            Err(BusFault::Unmapped(addr))
        }
    }
}

/// Law: a byte written to any address in a writable window is read
/// back unchanged from that same address.
pub proof fn lemma_write_read_round_trip(b: BusView, addr: u16, value: u8)
    requires
        b.wf(),
        writable(addr),
    ensures
        spec_write(b, addr, value) matches Ok(b2) && spec_read(b2, addr) == Ok::<u8, BusFault>(
            value,
        ),
{
}

/// Law: a write aimed anywhere in the cartridge window faults; the
/// executable `write_byte` additionally leaves the bus unchanged on
/// every fault.
pub proof fn lemma_cartridge_write_faults(b: BusView, addr: u16, value: u8)
    requires
        CART_BASE <= addr,
    ensures
        spec_write(b, addr, value) is Err,
{
}

} // verus!
