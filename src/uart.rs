//! The PL011 serial transmit path.
//!
//! A [`Register`] is one memory-mapped 8-bit register. [`Pl011Uart`] drives
//! the data register of one serial device; its model is the address it was
//! acquired at and every store it has issued to the register, in order.
use vstd::prelude::*;
use vstd::string::StringSliceAdditionalSpecFns;

verus! {

/// Physical base address of UART0 on the default aarch64 QEMU machine.
pub const UART0_ADDR: usize = 0x0900_0000;

/// A single 8-bit memory-mapped register that can be stored to.
pub trait Register: Sized {
    /// Acquires a handle to the register at `base`.
    fn at(base: usize) -> Self;

    /// Issues one store of `value`.
    fn write(&mut self, value: u8);
}

/// A register that keeps its stores in memory instead of reaching a device.
pub struct CaptureRegister {
    base: usize,
    written: Vec<u8>,
}

impl Register for CaptureRegister {
    fn at(base: usize) -> (r: Self)
        ensures
            r.location() == base,
            r.written() == Seq::<u8>::empty(),
    {
        CaptureRegister { base, written: Vec::new() }
    }

    fn write(&mut self, value: u8)
        ensures
            final(self).location() == old(self).location(),
            final(self).written() == old(self).written().push(value),
    {
        self.written.push(value);
    }
}

impl CaptureRegister {
    /// The address this register was acquired at.
    pub closed spec fn location(&self) -> usize {
        self.base
    }

    /// The stores it has received, oldest first.
    pub closed spec fn written(&self) -> Seq<u8> {
        self.written@
    }

    /// The address this register was acquired at.
    pub fn address(&self) -> (r: usize)
        ensures
            r == self.location(),
    {
        self.base
    }

    /// The stores issued so far, oldest first.
    pub fn captured(&self) -> (r: &[u8])
        ensures
            r@ == self.written(),
    {
        self.written.as_slice()
    }
}

/// The data register of a PL011 serial device. Writes go straight to the
/// register, one byte at a time, with no buffering.
pub struct Pl011Uart<R: Register> {
    data: R,
    base: usize,
    issued: Ghost<Seq<u8>>,
}

impl<R: Register> Pl011Uart<R> {
    /// The address of the device.
    pub closed spec fn base(&self) -> usize {
        self.base
    }

    /// The bytes stored into the data register through this handle.
    pub closed spec fn stores(&self) -> Seq<u8> {
        self.issued@
    }

    /// Acquires the device at `base`. During normal execution the caller
    /// holds the only handle to that device.
    pub fn new(base: usize) -> (r: Self)
        ensures
            r.base() == base,
            r.stores() == Seq::<u8>::empty(),
    {
        Pl011Uart { data: R::at(base), base, issued: Ghost(Seq::empty()) }
    }

    /// Acquires the device at `base` a second time, while another handle may
    /// still be held. Only the panic path does this: once a panic is under
    /// way nothing else runs, so the two handles never interleave.
    pub fn emergency(base: usize) -> (r: Self)
        ensures
            r.base() == base,
            r.stores() == Seq::<u8>::empty(),
    {
        Pl011Uart { data: R::at(base), base, issued: Ghost(Seq::empty()) }
    }

    /// The register this handle drives.
    pub closed spec fn device(&self) -> R {
        self.data
    }

    /// The register behind this handle.
    pub fn register(&self) -> (r: &R)
        ensures
            *r == self.device(),
    {
        &self.data
    }

    /// Stores one byte into the data register.
    pub fn write_byte(&mut self, byte: u8)
        ensures
            final(self).base() == old(self).base(),
            final(self).stores() == old(self).stores().push(byte),
    {
        self.data.write(byte);
        self.issued = Ghost(self.issued@.push(byte));
    }

    /// Stores each byte of `bytes` into the data register, in order.
    pub fn write_bytes(&mut self, bytes: &[u8])
        ensures
            final(self).base() == old(self).base(),
            final(self).stores() == old(self).stores() + bytes@,
    {
        let mut i: usize = 0;
        while i < bytes.len()
            invariant
                0 <= i <= bytes@.len(),
                self.base() == old(self).base(),
                self.stores() == old(self).stores() + bytes@.subrange(0, i as int),
            decreases bytes@.len() - i,
        {
            self.write_byte(bytes[i]);
            assert(bytes@.subrange(0, i + 1) == bytes@.subrange(0, i as int).push(bytes@[i as int]));
            i = i + 1;
        }
        assert(bytes@.subrange(0, bytes@.len() as int) == bytes@);
    }

    /// Stores the UTF-8 encoding of `out` into the data register, byte by
    /// byte. A register store cannot fail, so neither can this.
    pub fn write_str(&mut self, out: &str)
        ensures
            final(self).base() == old(self).base(),
            final(self).stores() == old(self).stores() + out.spec_bytes(),
    {
        self.write_bytes(out.as_bytes());
    }
}

} // verus!
