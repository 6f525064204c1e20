use vstd::prelude::*;

verus! {

/// The 16-bit word with low byte `lo` and high byte `hi`.
pub open spec fn word(lo: u8, hi: u8) -> u16 {
    (lo as int + 256 * hi as int) as u16
}

/// Low byte of `val`.
pub open spec fn low_byte(val: u16) -> u8 {
    (val % 256) as u8
}

/// High byte of `val`.
pub open spec fn high_byte(val: u16) -> u8 {
    (val / 256) as u8
}

/// Joins two bytes into a little-endian word.
pub fn make_word(lo: u8, hi: u8) -> (val: u16)
    ensures
        val == word(lo, hi),
        low_byte(val) == lo,
        high_byte(val) == hi,
{
    let l = lo as u16;
    let h = hi as u16;
    assert(l | (h << 8) == l + 256 * h) by (bit_vector)
        requires
            l < 256,
            h < 256,
    ;
    l | (h << 8)
}

/// Splits a word into its low and high byte.
pub fn split_word(val: u16) -> (bytes: (u8, u8))
    ensures
        bytes.0 == low_byte(val),
        bytes.1 == high_byte(val),
        word(bytes.0, bytes.1) == val,
{
    assert(val & 0xff == val % 256 && val >> 8 == val / 256) by (bit_vector);
    ((val & 0xff) as u8, (val >> 8) as u8)
}

/// The address space as a processor sees it: one byte read or written at a
/// 16-bit address. What stands behind an address (memory, a device register)
/// is the implementor's business; its whole state is the view `Self::Model`.
///
/// Both operations may change the state. A write is only legal where the bus
/// accepts it; `writable` tells a caller beforehand.
pub trait Bus {
    /// The whole state of the bus.
    type Model;

    /// The state of this bus.
    spec fn model(&self) -> Self::Model;

    /// The implementor's invariant.
    spec fn valid(&self) -> bool;

    /// The byte that a read at `addr` returns in state `m`.
    spec fn peek(m: Self::Model, addr: u16) -> u8;

    /// The state that a read at `addr` leaves behind.
    spec fn after_read(m: Self::Model, addr: u16) -> Self::Model;

    /// Whether a write at `addr` is legal in state `m`.
    spec fn accepts(m: Self::Model, addr: u16) -> bool;

    /// The state that writing `val` at `addr` leaves behind.
    spec fn after_write(m: Self::Model, addr: u16, val: u8) -> Self::Model;

    fn read(&mut self, addr: u16) -> (val: u8)
        requires
            old(self).valid(),
        ensures
            final(self).valid(),
            val == Self::peek(old(self).model(), addr),
            final(self).model() == Self::after_read(old(self).model(), addr),
    ;

    fn writable(&self, addr: u16) -> (ok: bool)
        requires
            self.valid(),
        ensures
            ok == Self::accepts(self.model(), addr),
    ;

    fn write(&mut self, addr: u16, val: u8)
        requires
            old(self).valid(),
            Self::accepts(old(self).model(), addr),
        ensures
            final(self).valid(),
            final(self).model() == Self::after_write(old(self).model(), addr, val),
    ;

    /// Reads the little-endian word at `addr` and `addr + 1`, the second
    /// address wrapping round the end of the address space.
    fn read_word(&mut self, addr: u16) -> (val: u16)
        requires
            old(self).valid(),
        ensures
            final(self).valid(),
            val == word(
                Self::peek(old(self).model(), addr),
                Self::peek(Self::after_read(old(self).model(), addr), addr.wrapping_add(1)),
            ),
            final(self).model() == Self::after_read(
                Self::after_read(old(self).model(), addr),
                addr.wrapping_add(1),
            ),
    {
        let lo = self.read(addr);
        let hi = self.read(addr.wrapping_add(1));
        make_word(lo, hi)
    }

    /// Writes `val` as a little-endian word at `addr` and `addr + 1`, the
    /// second address wrapping round the end of the address space.
    fn write_word(&mut self, addr: u16, val: u16)
        requires
            old(self).valid(),
            Self::accepts(old(self).model(), addr),
            Self::accepts(
                Self::after_write(old(self).model(), addr, low_byte(val)),
                addr.wrapping_add(1),
            ),
        ensures
            final(self).valid(),
            final(self).model() == Self::after_write(
                Self::after_write(old(self).model(), addr, low_byte(val)),
                addr.wrapping_add(1),
                high_byte(val),
            ),
    {
        let (lo, hi) = split_word(val);
        self.write(addr, lo);
        self.write(addr.wrapping_add(1), hi);
    }
}

/// The word made of the byte read at `lo_addr` and then the byte read at
/// `hi_addr`, with the state after both reads.
pub open spec fn word_read<B: Bus + ?Sized>(m: B::Model, lo_addr: u16, hi_addr: u16) -> (u16, B::Model) {
    let m1 = B::after_read(m, lo_addr);
    (word(B::peek(m, lo_addr), B::peek(m1, hi_addr)), B::after_read(m1, hi_addr))
}

/// Whether both byte writes of a word write at `addr` are legal.
pub open spec fn word_accepted<B: Bus + ?Sized>(m: B::Model, addr: u16, val: u16) -> bool {
    B::accepts(m, addr) && B::accepts(
        B::after_write(m, addr, low_byte(val)),
        addr.wrapping_add(1),
    )
}

/// The state after a word write at `addr`: low byte first.
pub open spec fn word_written<B: Bus + ?Sized>(m: B::Model, addr: u16, val: u16) -> B::Model {
    B::after_write(B::after_write(m, addr, low_byte(val)), addr.wrapping_add(1), high_byte(val))
}

/// `addr` behaves as a memory cell in state `m`: reading it changes nothing,
/// and it takes any byte written to it.
pub open spec fn is_cell<B: Bus + ?Sized>(m: B::Model, addr: u16) -> bool {
    B::after_read(m, addr) == m && B::accepts(m, addr)
}

} // verus!
