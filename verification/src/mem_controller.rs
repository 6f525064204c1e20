use crate::addressable::Addressable;
use std::ops::Range;
use vstd::prelude::*;

verus! {

/// Whether `range` holds `addr`: its start is included, its end is not.
pub open spec fn in_range(range: Range<u16>, addr: u16) -> bool {
    range.start <= addr < range.end
}

/// The index of the first range from index `from` on that holds `addr`, or
/// the number of ranges where none does.
pub open spec fn first_hit<T>(ranges: Seq<(Range<u16>, T)>, addr: u16, from: int) -> int
    decreases ranges.len() - from,
{
    if from < 0 || from >= ranges.len() {
        ranges.len() as int
    } else if in_range(ranges[from].0, addr) {
        from
    } else {
        first_hit(ranges, addr, from + 1)
    }
}

/// The target that `addr` is routed to: that of the first range, in the
/// order of registration, that holds the address, and the default target
/// where none does.
pub open spec fn route<T>(ranges: Seq<(Range<u16>, T)>, default: T, addr: u16) -> T {
    let hit = first_hit(ranges, addr, 0);
    if hit < ranges.len() {
        ranges[hit].1
    } else {
        default
    }
}

/// The first hit is what its name says: no range before it holds the
/// address, and it does unless it is past the last range.
pub proof fn lemma_first_hit<T>(ranges: Seq<(Range<u16>, T)>, addr: u16, from: int)
    requires
        0 <= from <= ranges.len(),
    ensures
        from <= first_hit(ranges, addr, from) <= ranges.len(),
        forall|k: int|
            from <= k < first_hit(ranges, addr, from) ==> !in_range(#[trigger] ranges[k].0, addr),
        first_hit(ranges, addr, from) < ranges.len() ==> in_range(
            ranges[first_hit(ranges, addr, from)].0,
            addr,
        ),
    decreases ranges.len() - from,
{
    if from < ranges.len() && !in_range(ranges[from].0, addr) {
        lemma_first_hit(ranges, addr, from + 1);
    }
}

/// An index that no earlier hit comes before is the first hit if its range
/// holds the address, and the search goes on behind it if not.
pub proof fn lemma_first_hit_from<T>(ranges: Seq<(Range<u16>, T)>, addr: u16, from: int, i: int)
    requires
        0 <= from <= i <= ranges.len(),
        forall|k: int| from <= k < i ==> !in_range(#[trigger] ranges[k].0, addr),
    ensures
        first_hit(ranges, addr, from) == first_hit(ranges, addr, i),
    decreases i - from,
{
    if from < i {
        lemma_first_hit_from(ranges, addr, from + 1, i);
    }
}

/// What decides the first hit are the ranges alone, not their targets.
pub proof fn lemma_first_hit_same_ranges<T>(
    a: Seq<(Range<u16>, T)>,
    b: Seq<(Range<u16>, T)>,
    addr: u16,
    from: int,
)
    requires
        a.len() == b.len(),
        forall|k: int| 0 <= k < a.len() ==> #[trigger] a[k].0 == b[k].0,
    ensures
        first_hit(a, addr, from) == first_hit(b, addr, from),
    decreases a.len() - from,
{
    if 0 <= from < a.len() && !in_range(a[from].0, addr) {
        lemma_first_hit_same_ranges(a, b, addr, from + 1);
    }
}

/// A range registered last is asked last.
pub proof fn lemma_route_push<T>(
    ranges: Seq<(Range<u16>, T)>,
    default: T,
    addr: u16,
    range: Range<u16>,
    target: T,
)
    ensures
        route(ranges.push((range, target)), default, addr) == route(
            ranges,
            if in_range(range, addr) {
                target
            } else {
                default
            },
            addr,
        ),
{
    let longer = ranges.push((range, target));
    lemma_first_hit(ranges, addr, 0);
    lemma_first_hit(longer, addr, 0);
    let hit = first_hit(ranges, addr, 0);
    assert forall|k: int| 0 <= k < hit implies !in_range(#[trigger] longer[k].0, addr) by {
        assert(longer[k] == ranges[k]);
    }
    lemma_first_hit_from(longer, addr, 0, hit);
    if hit < ranges.len() {
        assert(longer[hit] == ranges[hit]);
    }
}

/// An address decoder: ranges of addresses with a target each, and a target
/// for every address that no range holds.
pub struct MemController<T> {
    range_addressables: Vec<(Range<u16>, T)>,
    default_addressable: T,
}

impl<T> MemController<T> {
    /// The ranges in the order of their registration.
    pub closed spec fn ranges(&self) -> Seq<(Range<u16>, T)> {
        self.range_addressables@
    }

    /// The target of addresses that no range holds.
    pub closed spec fn default_target(&self) -> T {
        self.default_addressable
    }

    /// The target that `addr` is routed to.
    pub open spec fn target(&self, addr: u16) -> T {
        route(self.ranges(), self.default_target(), addr)
    }

    /// A decoder that routes every address to `default`.
    pub fn new(default: T) -> (controller: MemController<T>)
        ensures
            controller.ranges() == Seq::<(Range<u16>, T)>::empty(),
            controller.default_target() == default,
    {
        MemController { range_addressables: Vec::new(), default_addressable: default }
    }

    /// Routes the addresses of `range` to `addressable`, unless a range
    /// registered before holds them.
    pub fn register_range(&mut self, range: Range<u16>, addressable: T)
        ensures
            final(self).ranges() == old(self).ranges().push((range, addressable)),
            final(self).default_target() == old(self).default_target(),
    {
        self.range_addressables.push((range, addressable));
    }

    /// Routes the addresses that no range holds to `addressable`.
    pub fn register_default(&mut self, addressable: T)
        ensures
            final(self).ranges() == old(self).ranges(),
            final(self).default_target() == addressable,
    {
        self.default_addressable = addressable;
    }

    /// The index of the first range that holds `addr`, or the number of
    /// ranges where none does.
    pub fn find(&self, addr: u16) -> (index: usize)
        ensures
            index == first_hit(self.ranges(), addr, 0),
            index <= self.ranges().len(),
    {
        let mut i: usize = 0;
        while i < self.range_addressables.len()
            invariant
                i <= self.range_addressables.len(),
                first_hit(self.ranges(), addr, 0) == first_hit(self.ranges(), addr, i as int),
            decreases self.range_addressables.len() - i,
        {
            let entry = &self.range_addressables[i];
            if entry.0.start <= addr && addr < entry.0.end {
                return i;
            }
            i = i + 1;
        }
        i
    }

    /// The target that `addr` is routed to.
    pub fn get_target(&self, addr: u16) -> (target: &T)
        ensures
            *target == self.target(addr),
    {
        let index: usize = self.find(addr);
        if index < self.range_addressables.len() {
            &self.range_addressables[index].1
        } else {
            &self.default_addressable
        }
    }
}

/// A decoder of addressable targets is addressable itself: each address
/// holds what its target holds there.
impl<T: Addressable> Addressable for MemController<T> {
    open spec fn inv(&self) -> bool {
        &&& self.default_target().inv()
        &&& forall|k: int| 0 <= k < self.ranges().len() ==> (#[trigger] self.ranges()[k]).1.inv()
    }

    open spec fn mapped(&self, addr: u16) -> bool {
        self.target(addr).mapped(addr)
    }

    open spec fn settable(&self, addr: u16) -> bool {
        self.target(addr).settable(addr)
    }

    open spec fn byte_at(&self, addr: u16) -> u8 {
        self.target(addr).byte_at(addr)
    }

    fn get_byte(&self, addr: u16) -> (val: u8) {
        proof {
            lemma_first_hit(self.ranges(), addr, 0);
        }
        self.get_target(addr).get_byte(addr)
    }

    fn can_set(&self, addr: u16) -> (ok: bool) {
        proof {
            lemma_first_hit(self.ranges(), addr, 0);
        }
        self.get_target(addr).can_set(addr)
    }

    fn set_byte(&mut self, addr: u16, val: u8) {
        let index: usize = self.find(addr);
        proof {
            lemma_first_hit(self.ranges(), addr, 0);
        }
        if index < self.range_addressables.len() {
            self.range_addressables[index].1.set_byte(addr, val);
        } else {
            self.default_addressable.set_byte(addr, val);
        }
        proof {
            assert forall|a: u16|
                first_hit(self.ranges(), a, 0) == first_hit(old(self).ranges(), a, 0) by {
                lemma_first_hit_same_ranges(self.ranges(), old(self).ranges(), a, 0);
            }
            assert forall|a: u16|
                a != addr && old(self).mapped(a) implies #[trigger] self.byte_at(a) == old(
                self,
            ).byte_at(a) by {
                lemma_first_hit(old(self).ranges(), a, 0);
            }
            assert forall|a: u16| #[trigger] self.mapped(a) == old(self).mapped(a) by {
                lemma_first_hit(old(self).ranges(), a, 0);
            }
            assert forall|a: u16| #[trigger] self.settable(a) == old(self).settable(a) by {
                lemma_first_hit(old(self).ranges(), a, 0);
            }
        }
    }
}

} // verus!
