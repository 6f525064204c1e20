use crate::bus::{make_word, split_word, word};
use vstd::prelude::*;

verus! {

/// Something that holds bytes at 16-bit addresses: a memory plane, or several
/// behind one decoder. Reading changes nothing. Not every address has to be
/// mapped, and not every mapped address can be set.
pub trait Addressable {
    /// The implementor's invariant.
    spec fn inv(&self) -> bool;

    /// Whether a byte stands at `addr`.
    spec fn mapped(&self, addr: u16) -> bool;

    /// Whether the byte at `addr` may be set.
    spec fn settable(&self, addr: u16) -> bool;

    /// The byte at `addr`.
    spec fn byte_at(&self, addr: u16) -> u8;

    fn get_byte(&self, addr: u16) -> (val: u8)
        requires
            self.inv(),
            self.mapped(addr),
        ensures
            val == self.byte_at(addr),
    ;

    /// Tells whether `set_byte` may be called for `addr`.
    fn can_set(&self, addr: u16) -> (ok: bool)
        requires
            self.inv(),
        ensures
            ok == (self.mapped(addr) && self.settable(addr)),
    ;

    fn set_byte(&mut self, addr: u16, val: u8)
        requires
            old(self).inv(),
            old(self).mapped(addr),
            old(self).settable(addr),
        ensures
            final(self).inv(),
            final(self).byte_at(addr) == val,
            forall|a: u16|
                a != addr && old(self).mapped(a) ==> #[trigger] final(self).byte_at(a) == old(
                    self,
                ).byte_at(a),
            forall|a: u16| #[trigger] final(self).mapped(a) == old(self).mapped(a),
            forall|a: u16| #[trigger] final(self).settable(a) == old(self).settable(a),
    ;

    /// The little-endian word at `addr` and the address after it, which wraps
    /// round the end of the address space.
    fn get_word(&self, addr: u16) -> (val: u16)
        requires
            self.inv(),
            self.mapped(addr),
            self.mapped(addr.wrapping_add(1)),
        ensures
            val == word(self.byte_at(addr), self.byte_at(addr.wrapping_add(1))),
    {
        let lo = self.get_byte(addr);
        let hi = self.get_byte(addr.wrapping_add(1));
        make_word(lo, hi)
    }

    /// Sets the little-endian word at `addr` and the address after it, which
    /// wraps round the end of the address space.
    fn set_word(&mut self, addr: u16, val: u16)
        requires
            old(self).inv(),
            old(self).mapped(addr),
            old(self).settable(addr),
            old(self).mapped(addr.wrapping_add(1)),
            old(self).settable(addr.wrapping_add(1)),
        ensures
            final(self).inv(),
            word(final(self).byte_at(addr), final(self).byte_at(addr.wrapping_add(1))) == val,
            forall|a: u16|
                a != addr && a != addr.wrapping_add(1) && old(self).mapped(a)
                    ==> #[trigger] final(self).byte_at(a) == old(self).byte_at(a),
            forall|a: u16| #[trigger] final(self).mapped(a) == old(self).mapped(a),
            forall|a: u16| #[trigger] final(self).settable(a) == old(self).settable(a),
    {
        let (lo, hi) = split_word(val);
        self.set_byte(addr, lo);
        self.set_byte(addr.wrapping_add(1), hi);
    }

    /// The eight bytes from `addr` on, as one character cell of a font has
    /// them.
    fn get_8_bytes(&self, addr: u16) -> (bytes: [u8; 8])
        requires
            self.inv(),
            forall|i: u16| i < 8 ==> self.mapped(#[trigger] addr.wrapping_add(i)),
        ensures
            forall|i: u16| i < 8 ==> bytes[i as int] == self.byte_at(#[trigger] addr.wrapping_add(i)),
    {
        let mut result: [u8; 8] = [0;8];
        let mut i: u16 = 0;
        while i < 8
            invariant
                i <= 8,
                self.inv(),
                forall|k: u16| k < 8 ==> self.mapped(#[trigger] addr.wrapping_add(k)),
                forall|k: u16|
                    k < i ==> result[k as int] == self.byte_at(#[trigger] addr.wrapping_add(k)),
            decreases 8 - i,
        {
            assert(self.mapped(addr.wrapping_add(i)));
            result[i as usize] = self.get_byte(addr.wrapping_add(i));
            i = i + 1;
        }
        result
    }
}

} // verus!
