//! The 16-bit memory bus: 8 KiB of ROM at `0x0000`, up to 16 KiB of RAM at
//! `0x4000`, and open bus everywhere else.

use vstd::prelude::*;

pub mod tape;

verus! {

/// Size of the ROM in bytes.
pub const ROM_SIZE: usize = 0x2000;

/// First address of the RAM window.
pub const RAM_BASE: u16 = 0x4000;

/// Largest RAM that can be installed.
pub const RAM_MAX: usize = 0x4000;

/// ROM offset of the tape LOAD routine.
pub const LOAD_TRAP_OFFSET: usize = 0x0347;

/// ROM offset of the tape SAVE routine.
pub const SAVE_TRAP_OFFSET: usize = 0x02FC;

/// The contents of the bus as two sequences of bytes.
pub struct MemoryView {
    pub rom: Seq<u8>,
    pub ram: Seq<u8>,
}

/// The byte at `a + d`, with the address taken modulo 2^16.
pub open spec fn add16(a: u16, d: int) -> u16 {
    ((a + d) % 0x10000) as u16
}

/// The 16-bit word whose high byte is `hi` and whose low byte is `lo`.
pub open spec fn pair(hi: u8, lo: u8) -> u16 {
    (hi * 256 + lo) as u16
}

/// The high byte of a word.
pub open spec fn hi_byte(v: u16) -> u8 {
    (v / 256) as u8
}

/// The low byte of a word.
pub open spec fn lo_byte(v: u16) -> u8 {
    (v % 256) as u8
}

/// `rom` with `bytes` laid over it from `offset` on; bytes that would fall
/// behind the end of `rom` are dropped.
pub open spec fn patch_spec(rom: Seq<u8>, offset: int, bytes: Seq<u8>) -> Seq<u8> {
    Seq::new(
        rom.len(),
        |j: int|
            if offset <= j < offset + bytes.len() {
                bytes[j - offset]
            } else {
                rom[j]
            },
    )
}

/// The five bytes of the LOAD trap: `ED FC`, then `JP 0x0207`.
pub open spec fn load_trap_bytes() -> Seq<u8> {
    seq![0xEDu8, 0xFCu8, 0xC3u8, 0x07u8, 0x02u8]
}

/// The five bytes of the SAVE trap: `ED FD`, then `JP 0x0207`.
pub open spec fn save_trap_bytes() -> Seq<u8> {
    seq![0xEDu8, 0xFDu8, 0xC3u8, 0x07u8, 0x02u8]
}

/// A ROM image with both tape traps injected.
pub open spec fn with_traps(rom: Seq<u8>) -> Seq<u8> {
    patch_spec(
        patch_spec(rom, LOAD_TRAP_OFFSET as int, load_trap_bytes()),
        SAVE_TRAP_OFFSET as int,
        save_trap_bytes(),
    )
}

/// Where a program image starts in memory.
pub const IMAGE_BASE: u16 = 0x4009;

/// The most bytes of an image that reach memory: up to `0x8000`.
pub const IMAGE_MAX: usize = 0x3FF7;

/// The address behind the region that an image of `data` takes in memory.
pub open spec fn image_end(data: Seq<u8>) -> int {
    if data.len() < IMAGE_MAX {
        IMAGE_BASE + data.len()
    } else {
        0x8000
    }
}

/// The bus with an image laid into RAM from `0x4009` on, but for its first
/// `keep` bytes. What does not fit the installed RAM is dropped.
pub open spec fn load_image(mem: MemoryView, data: Seq<u8>, keep: int) -> MemoryView {
    MemoryView {
        rom: mem.rom,
        ram: Seq::new(
            mem.ram.len(),
            |i: int|
                if 9 + keep <= i < 9 + data.len() {
                    data[i - 9]
                } else {
                    mem.ram[i]
                },
        ),
    }
}

/// A ROM image of full size with the traps injected holds `ED FC C3 07 02`
/// at `0x0347` and `ED FD C3 07 02` at `0x02FC`, and its own bytes everywhere
/// else.
pub proof fn lemma_traps_in_place(rom: Seq<u8>)
    requires
        rom.len() == ROM_SIZE,
    ensures
        with_traps(rom).len() == ROM_SIZE,
        with_traps(rom).subrange(0x0347, 0x034C) == load_trap_bytes(),
        with_traps(rom).subrange(0x02FC, 0x0301) == save_trap_bytes(),
        forall|i: int|
            0 <= i < ROM_SIZE && !(0x0347 <= i < 0x034C) && !(0x02FC <= i < 0x0301)
                ==> #[trigger] with_traps(rom)[i] == rom[i],
{
    assert(with_traps(rom).subrange(0x0347, 0x034C) =~= load_trap_bytes());
    assert(with_traps(rom).subrange(0x02FC, 0x0301) =~= save_trap_bytes());
}

/// Why a program image was not loaded.
#[derive(Clone, Copy, Debug, PartialEq, Eq, Structural)]
pub enum ProgramError {
    /// The image holds no bytes.
    Empty,
}

impl MemoryView {
    /// The ROM is complete and the RAM fits its window.
    pub open spec fn wf(self) -> bool {
        self.rom.len() == ROM_SIZE && self.ram.len() <= RAM_MAX
    }

    /// Whether a write to `a` lands in installed RAM.
    pub open spec fn in_ram(self, a: u16) -> bool {
        RAM_BASE <= a && a - RAM_BASE < self.ram.len()
    }

    /// The byte that a read of `a` returns.
    pub open spec fn read(self, a: u16) -> u8 {
        if a < ROM_SIZE {
            self.rom[a as int]
        } else if self.in_ram(a) {
            self.ram[a - RAM_BASE]
        } else {
            0xFF
        }
    }

    /// The bus after a write of `v` to `a`.
    pub open spec fn write(self, a: u16, v: u8) -> MemoryView {
        if self.in_ram(a) {
            MemoryView { rom: self.rom, ram: self.ram.update(a - RAM_BASE, v) }
        } else {
            self
        }
    }

    /// The little-endian word at `a` and `a + 1`.
    pub open spec fn read_word(self, a: u16) -> u16 {
        pair(self.read(add16(a, 1)), self.read(a))
    }

    /// The bus after a little-endian write of `v` to `a` and `a + 1`.
    pub open spec fn write_word(self, a: u16, v: u16) -> MemoryView {
        self.write(a, lo_byte(v)).write(add16(a, 1), hi_byte(v))
    }
}

/// The memory bus.
pub struct Memory {
    rom: Vec<u8>,
    ram: Vec<u8>,
}

impl View for Memory {
    type V = MemoryView;

    closed spec fn view(&self) -> MemoryView {
        MemoryView { rom: self.rom@, ram: self.ram@ }
    }
}

/// Joins two bytes into a word.
pub fn make_word(hi: u8, lo: u8) -> (w: u16)
    ensures
        w == pair(hi, lo),
{
    (hi as u16) * 256 + (lo as u16)
}

/// The high byte of `v`.
pub fn high_byte(v: u16) -> (b: u8)
    ensures
        b == hi_byte(v),
{
    (v / 256) as u8
}

/// The low byte of `v`.
pub fn low_byte(v: u16) -> (b: u8)
    ensures
        b == lo_byte(v),
{
    (v % 256) as u8
}

impl Memory {
    /// A bus with the given ROM, both tape traps injected, and 16 KiB of
    /// zeroed RAM.
    pub fn new(rom: Vec<u8>) -> (m: Memory)
        requires
            rom.len() == ROM_SIZE,
        ensures
            m@.wf(),
            m@.rom == with_traps(rom@),
            m@.ram == Seq::new(RAM_MAX as nat, |i: int| 0u8),
    {
        Memory::with_ram_size(rom, RAM_MAX)
    }

    /// A bus with the given ROM, both tape traps injected, and `ram_size`
    /// bytes of zeroed RAM.
    pub fn with_ram_size(rom: Vec<u8>, ram_size: usize) -> (m: Memory)
        requires
            rom.len() == ROM_SIZE,
            ram_size <= RAM_MAX,
        ensures
            m@.wf(),
            m@.rom == with_traps(rom@),
            m@.ram == Seq::new(ram_size as nat, |i: int| 0u8),
    {
        let ram: Vec<u8> = vec![0u8; ram_size];
        let mut m = Memory { rom, ram };
        assert(m.ram@ =~= Seq::new(ram_size as nat, |i: int| 0u8));
        let load: Vec<u8> = vec![0xEDu8, 0xFCu8, 0xC3u8, 0x07u8, 0x02u8];
        let save: Vec<u8> = vec![0xEDu8, 0xFDu8, 0xC3u8, 0x07u8, 0x02u8];
        assert(load@ =~= load_trap_bytes());
        assert(save@ =~= save_trap_bytes());
        m.patch_rom(LOAD_TRAP_OFFSET, load.as_slice());
        m.patch_rom(SAVE_TRAP_OFFSET, save.as_slice());
        m
    }

    /// Overwrites ROM bytes from `offset` on with `bytes`. Bytes that would
    /// fall behind the end of the ROM are dropped.
    pub fn patch_rom(&mut self, offset: usize, bytes: &[u8])
        requires
            old(self)@.wf(),
        ensures
            final(self)@.wf(),
            final(self)@.ram == old(self)@.ram,
            final(self)@.rom == patch_spec(old(self)@.rom, offset as int, bytes@),
    {
        let mut i: usize = 0;
        while i < bytes.len() && offset < ROM_SIZE && i < ROM_SIZE - offset
            invariant
                self.rom.len() == ROM_SIZE,
                self.ram@ == old(self).ram@,
                i <= bytes.len(),
                forall|j: int|
                    0 <= j < ROM_SIZE ==> #[trigger] self.rom@[j] == (if offset <= j < offset + i {
                        bytes@[j - offset]
                    } else {
                        old(self).rom@[j]
                    }),
            decreases bytes.len() - i,
        {
            self.rom.set(offset + i, bytes[i]);
            i += 1;
        }
        assert(self.rom@ =~= patch_spec(old(self).rom@, offset as int, bytes@));
    }

    /// The ROM as it stands, traps included.
    pub fn rom(&self) -> (r: &[u8])
        ensures
            r@ == self@.rom,
    {
        self.rom.as_slice()
    }

    /// The installed RAM.
    pub fn ram(&self) -> (r: &[u8])
        ensures
            r@ == self@.ram,
    {
        self.ram.as_slice()
    }

    /// The byte at `addr`.
    pub fn read(&self, addr: u16) -> (v: u8)
        requires
            self@.wf(),
        ensures
            v == self@.read(addr),
    {
        if addr < 0x2000 {
            self.rom[addr as usize]
        } else if addr >= 0x4000 && ((addr - 0x4000) as usize) < self.ram.len() {
            self.ram[(addr - 0x4000) as usize]
        } else {
            0xFF
        }
    }

    /// The little-endian word at `addr` and `addr + 1`, the second address
    /// taken modulo 2^16.
    pub fn read_word(&self, addr: u16) -> (v: u16)
        requires
            self@.wf(),
        ensures
            v == self@.read_word(addr),
    {
        let lo = self.read(addr);
        let hi = self.read(addr.wrapping_add(1));
        make_word(hi, lo)
    }

    /// Stores `val` at `addr` if that is installed RAM; drops it otherwise.
    pub fn write(&mut self, addr: u16, val: u8)
        requires
            old(self)@.wf(),
        ensures
            final(self)@.wf(),
            final(self)@ == old(self)@.write(addr, val),
    {
        if addr >= 0x4000 && ((addr - 0x4000) as usize) < self.ram.len() {
            self.ram.set((addr - 0x4000) as usize, val);
        }
        assert(self.ram@ =~= old(self)@.write(addr, val).ram);
    }

    /// Stores `val` little-endian at `addr` and `addr + 1`, the second
    /// address taken modulo 2^16.
    pub fn write_word(&mut self, addr: u16, val: u16)
        requires
            old(self)@.wf(),
        ensures
            final(self)@.wf(),
            final(self)@ == old(self)@.write_word(addr, val),
    {
        self.write(addr, low_byte(val));
        self.write(addr.wrapping_add(1), high_byte(val));
    }

    /// Copies an image into RAM from `0x4009` on, but for its first `keep`
    /// bytes, and returns the address behind the region of the image.
    pub fn copy_image(&mut self, data: &[u8], keep: usize) -> (end: u16)
        requires
            old(self)@.wf(),
        ensures
            final(self)@.wf(),
            final(self)@ == load_image(old(self)@, data@, keep as int),
            end == image_end(data@),
    {
        let n: usize = if data.len() < IMAGE_MAX {
            data.len()
        } else {
            IMAGE_MAX
        };
        let mut i: usize = if keep < n {
            keep
        } else {
            n
        };
        while i < n
            invariant
                self@.wf(),
                i <= n,
                n <= data.len(),
                n <= IMAGE_MAX,
                n == data.len() || n == IMAGE_MAX,
                keep <= i || i == n,
                self.rom@ == old(self).rom@,
                self.ram@ =~= Seq::new(
                    old(self).ram@.len(),
                    |j: int|
                        if 9 + keep <= j < 9 + i {
                            data@[j - 9]
                        } else {
                            old(self).ram@[j]
                        },
                ),
            decreases n - i,
        {
            self.write(IMAGE_BASE + i as u16, data[i]);
            i += 1;
        }
        assert(self.ram@ =~= load_image(old(self)@, data@, keep as int).ram);
        IMAGE_BASE + n as u16
    }

    /// Loads a program image at `0x4009` and stores the address behind it at
    /// `0x401F`. The system variables at `0x4000..0x4012` keep their values,
    /// so the first nine bytes of the image are not stored. An empty image
    /// is refused and leaves the bus as it was.
    pub fn load_program(&mut self, data: &[u8]) -> (res: Result<(), ProgramError>)
        requires
            old(self)@.wf(),
        ensures
            final(self)@.wf(),
            res.is_err() <==> data@.len() == 0,
            res.is_err() ==> final(self)@ == old(self)@,
            res.is_ok() ==> final(self)@ == load_image(old(self)@, data@, 9).write_word(
                0x401F,
                image_end(data@) as u16,
            ),
    {
        if data.len() == 0 {
            return Err(ProgramError::Empty);
        }
        let end = self.copy_image(data, 9);
        self.write_word(0x401F, end);
        Ok(())
    }
}

} // verus!
