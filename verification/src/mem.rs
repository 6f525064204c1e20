use crate::addressable::Addressable;
use crate::bus::Bus;
use vstd::prelude::*;

verus! {

/// Size of the address space, and of each memory plane.
pub const PLANE_SIZE: usize = 0x10000;

/// Size of the operating-system ROM image.
pub const OS_ROM_SIZE: usize = 10240;

/// Where the operating-system ROM image starts in the ROM plane.
pub const OS_ROM_START: u16 = 0xD800;

/// Why a memory could not be built.
#[derive(Clone, Copy, Debug, PartialEq, Eq, Structural)]
pub enum MemError {
    /// The image does not have the size that its kind calls for.
    ImageSize,
}

/// A run of bytes that stands at `offset` in the address space.
pub struct MemorySequence {
    data: Vec<u8>,
    offset: u16,
    writable: bool,
}

/// What a memory sequence is: its bytes, where they start, and whether they
/// may be set.
pub struct MemorySequenceView {
    pub data: Seq<u8>,
    pub offset: u16,
    pub writable: bool,
}

impl View for MemorySequence {
    type V = MemorySequenceView;

    closed spec fn view(&self) -> MemorySequenceView {
        MemorySequenceView { data: self.data@, offset: self.offset, writable: self.writable }
    }
}

impl MemorySequence {
    /// `size` zero bytes from `offset` on.
    pub fn new(size: u32, offset: u16, writable: bool) -> (seq: MemorySequence)
        ensures
            seq@.data == Seq::new(size as nat, |i: int| 0u8),
            seq@.offset == offset,
            seq@.writable == writable,
    {
        let data: Vec<u8> = vec![0_u8; size as usize];
        assert(data@ =~= Seq::new(size as nat, |i: int| 0u8));
        MemorySequence { data, offset, writable }
    }

    /// Number of bytes.
    pub fn len(&self) -> (n: usize)
        ensures
            n == self@.data.len(),
    {
        self.data.len()
    }

    /// Fills the sequence from its first byte with `buffer`, which has to
    /// reach exactly to the end of the address space.
    pub fn init(&mut self, buffer: &[u8])
        requires
            buffer@.len() == 0x10000 - old(self)@.offset,
            buffer@.len() <= old(self)@.data.len(),
        ensures
            final(self)@.data == buffer@ + old(self)@.data.subrange(
                buffer@.len() as int,
                old(self)@.data.len() as int,
            ),
            final(self)@.offset == old(self)@.offset,
            final(self)@.writable == old(self)@.writable,
    {
        self.copy_in(0, buffer);
        assert(self@.data =~= buffer@ + old(self)@.data.subrange(
            buffer@.len() as int,
            old(self)@.data.len() as int,
        ));
    }

    /// Copies `buffer` over the bytes from index `start` on.
    pub fn copy_in(&mut self, start: usize, buffer: &[u8])
        requires
            start + buffer@.len() <= old(self)@.data.len(),
        ensures
            final(self)@.data.len() == old(self)@.data.len(),
            forall|i: int|
                0 <= i < final(self)@.data.len() ==> #[trigger] final(self)@.data[i] == if start
                    <= i < start + buffer@.len() {
                    buffer@[i - start]
                } else {
                    old(self)@.data[i]
                },
            final(self)@.offset == old(self)@.offset,
            final(self)@.writable == old(self)@.writable,
    {
        let n: usize = buffer.len();
        let mut i: usize = 0;
        while i < n
            invariant
                i <= n,
                n == buffer@.len(),
                start + n <= self.data.len(),
                self.data@.len() == old(self).data@.len(),
                self.offset == old(self).offset,
                self.writable == old(self).writable,
                forall|k: int|
                    0 <= k < self.data@.len() ==> #[trigger] self.data@[k] == if start <= k < start
                        + i {
                        buffer@[k - start]
                    } else {
                        old(self).data@[k]
                    },
            decreases n - i,
        {
            self.data[start + i] = buffer[i];
            i = i + 1;
        }
    }
}

impl Addressable for MemorySequence {
    closed spec fn inv(&self) -> bool {
        true
    }

    closed spec fn mapped(&self, addr: u16) -> bool {
        self.offset <= addr && addr - self.offset < self.data@.len()
    }

    closed spec fn settable(&self, addr: u16) -> bool {
        self.writable
    }

    closed spec fn byte_at(&self, addr: u16) -> u8 {
        self.data@[addr - self.offset]
    }

    fn get_byte(&self, addr: u16) -> (val: u8) {
        assert(self.mapped(addr));
        assert(self.byte_at(addr) == self.data@[addr - self.offset]);
        self.data[(addr - self.offset) as usize]
    }

    fn can_set(&self, addr: u16) -> (ok: bool) {
        self.writable && self.offset <= addr && ((addr - self.offset) as usize) < self.data.len()
    }

    fn set_byte(&mut self, addr: u16, val: u8)
        ensures
            final(self)@ == (MemorySequenceView {
                data: old(self)@.data.update(addr - old(self)@.offset, val),
                ..old(self)@
            }),
    {
        self.data[(addr - self.offset) as usize] = val;
    }
}

/// A plane of zero bytes.
pub open spec fn zero_plane() -> Seq<u8> {
    Seq::new(PLANE_SIZE as nat, |i: int| 0u8)
}

/// The ROM plane that holds the operating-system image `image`: the image
/// stands at its end, from 0xD800 on, and everything before is zero.
pub open spec fn os_rom_plane(image: Seq<u8>) -> Seq<u8> {
    Seq::new(
        PLANE_SIZE as nat,
        |i: int|
            if i >= OS_ROM_START {
                image[i - OS_ROM_START]
            } else {
                0u8
            },
    )
}

/// What a memory is: its two planes and the address from which on the ROM
/// plane is seen. With a split of zero the RAM plane is seen everywhere.
pub struct MemView {
    pub ram: Seq<u8>,
    pub rom: Seq<u8>,
    pub split: u16,
}

impl MemView {
    /// Both planes span the address space.
    pub open spec fn wf(self) -> bool {
        self.ram.len() == PLANE_SIZE && self.rom.len() == PLANE_SIZE
    }

    /// Whether `addr` shows the RAM plane.
    pub open spec fn is_ram(self, addr: u16) -> bool {
        self.split == 0 || addr < self.split
    }

    /// The byte seen at `addr`.
    pub open spec fn byte(self, addr: u16) -> u8 {
        if self.is_ram(addr) {
            self.ram[addr as int]
        } else {
            self.rom[addr as int]
        }
    }

    /// The memory with `val` in the RAM plane at `addr`.
    pub open spec fn with_byte(self, addr: u16, val: u8) -> MemView {
        MemView { ram: self.ram.update(addr as int, val), ..self }
    }
}

/// The 64 KiB RAM plane and the ROM plane behind it.
pub struct Mem {
    ram: MemorySequence,
    rom: MemorySequence,
    split: u16,
}

impl View for Mem {
    type V = MemView;

    closed spec fn view(&self) -> MemView {
        MemView { ram: self.ram.data@, rom: self.rom.data@, split: self.split }
    }
}

impl Mem {
    /// A memory of zero bytes.
    pub fn blank(split: u16) -> (mem: Mem)
        ensures
            mem.inv(),
            mem@.split == split,
            mem@.ram == zero_plane(),
            mem@.rom == zero_plane(),
    {
        Mem {
            ram: MemorySequence::new(0x10000, 0, true),
            rom: MemorySequence::new(0x10000, 0, false),
            split,
        }
    }

    /// A memory made from an image. With `load_functional_test` the image is
    /// the whole RAM plane and there is no ROM, whatever `split` says.
    /// Without it the image is the operating-system ROM, which stands at the
    /// end of the ROM plane.
    pub fn new(split: u16, load_functional_test: bool, image: &[u8]) -> (made: Result<
        Mem,
        MemError,
    >)
        ensures
            made is Ok <==> image@.len() == if load_functional_test {
                PLANE_SIZE
            } else {
                OS_ROM_SIZE
            },
            made matches Ok(mem) ==> {
                &&& mem.inv()
                &&& load_functional_test ==> mem@.split == 0 && mem@.ram == image@ && mem@.rom
                    == zero_plane()
                &&& !load_functional_test ==> mem@.split == split && mem@.ram == zero_plane()
                    && mem@.rom == os_rom_plane(image@)
            },
            made matches Err(e) ==> e == MemError::ImageSize,
    {
        if load_functional_test {
            if image.len() != PLANE_SIZE {
                return Err(MemError::ImageSize);
            }
            let mut mem = Mem::blank(0);
            mem.ram.init(image);
            assert(mem@.ram =~= image@);
            Ok(mem)
        } else {
            if image.len() != OS_ROM_SIZE {
                return Err(MemError::ImageSize);
            }
            let mut mem = Mem::blank(split);
            mem.rom.copy_in(OS_ROM_START as usize, image);
            assert(mem@.rom =~= os_rom_plane(image@));
            Ok(mem)
        }
    }

    /// The address from which on the ROM plane is seen; zero for none.
    pub fn split(&self) -> (split: u16)
        ensures
            split == self@.split,
    {
        self.split
    }

    /// Copies `bytes` into the RAM plane from `addr` on, whatever the split.
    pub fn load_ram(&mut self, addr: u16, bytes: &[u8])
        requires
            old(self).inv(),
            addr + bytes@.len() <= PLANE_SIZE,
        ensures
            final(self).inv(),
            final(self)@.split == old(self)@.split,
            final(self)@.rom == old(self)@.rom,
            final(self)@.ram.len() == PLANE_SIZE,
            forall|i: int|
                0 <= i < PLANE_SIZE ==> #[trigger] final(self)@.ram[i] == if addr <= i < addr
                    + bytes@.len() {
                    bytes@[i - addr]
                } else {
                    old(self)@.ram[i]
                },
    {
        self.ram.copy_in(addr as usize, bytes);
    }
}

impl Addressable for Mem {
    closed spec fn inv(&self) -> bool {
        &&& self.ram.data@.len() == PLANE_SIZE
        &&& self.rom.data@.len() == PLANE_SIZE
        &&& self.ram.offset == 0
        &&& self.rom.offset == 0
        &&& self.ram.writable
        &&& !self.rom.writable
    }

    open spec fn mapped(&self, addr: u16) -> bool {
        true
    }

    open spec fn settable(&self, addr: u16) -> bool {
        self@.is_ram(addr)
    }

    open spec fn byte_at(&self, addr: u16) -> u8 {
        self@.byte(addr)
    }

    fn get_byte(&self, addr: u16) -> (val: u8) {
        if self.split == 0 || addr < self.split {
            self.ram.get_byte(addr)
        } else {
            self.rom.get_byte(addr)
        }
    }

    fn can_set(&self, addr: u16) -> (ok: bool) {
        self.split == 0 || addr < self.split
    }

    fn set_byte(&mut self, addr: u16, val: u8)
        ensures
            final(self)@ == old(self)@.with_byte(addr, val),
    {
        self.ram.set_byte(addr, val);
        assert(self@.ram =~= old(self)@.ram.update(addr as int, val));
    }
}

/// The memory alone as a bus: every address is memory, reads change nothing,
/// and the ROM window accepts no write.
impl Bus for Mem {
    type Model = MemView;

    open spec fn model(&self) -> MemView {
        self@
    }

    open spec fn valid(&self) -> bool {
        self.inv()
    }

    open spec fn peek(m: MemView, addr: u16) -> u8 {
        m.byte(addr)
    }

    open spec fn after_read(m: MemView, addr: u16) -> MemView {
        m
    }

    open spec fn accepts(m: MemView, addr: u16) -> bool {
        m.is_ram(addr)
    }

    open spec fn after_write(m: MemView, addr: u16, val: u8) -> MemView {
        m.with_byte(addr, val)
    }

    fn read(&mut self, addr: u16) -> (val: u8) {
        self.get_byte(addr)
    }

    fn writable(&self, addr: u16) -> (ok: bool) {
        self.can_set(addr)
    }

    fn write(&mut self, addr: u16, val: u8) {
        self.set_byte(addr, val);
    }
}

impl Mem {
    /// The invariant pins the planes to the whole address space, so that the
    /// view is well formed.
    pub proof fn lemma_inv_wf(&self)
        requires
            self.inv(),
        ensures
            self@.wf(),
    {
    }
}

/// A byte set in the RAM window is the byte then seen there, and every other
/// address shows what it showed before. In the ROM window nothing can be set.
pub proof fn lemma_memory_round_trip(m: MemView, addr: u16, val: u8, other: u16)
    requires
        m.wf(),
    ensures
        m.is_ram(addr) ==> m.with_byte(addr, val).byte(addr) == val,
        m.is_ram(addr) && other != addr ==> m.with_byte(addr, val).byte(other) == m.byte(other),
        m.with_byte(addr, val).wf(),
        m.with_byte(addr, val).is_ram(other) == m.is_ram(other),
{
}

} // verus!
