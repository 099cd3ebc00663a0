//! The memory bus: a flat 16-bit address space routed to work RAM, video
//! RAM, OAM, I/O registers, the boot ROM overlay and the cartridge.
use crate::cartridge::{Cartridge, CartridgeView};
use vstd::prelude::*;

verus! {

/// Interrupt request bits, shared by `IF` and `IE`, in priority order.
pub const INT_VBLANK: u8 = 0x01;
pub const INT_LCD_STAT: u8 = 0x02;
pub const INT_TIMER: u8 = 0x04;
pub const INT_SERIAL: u8 = 0x08;
pub const INT_JOYPAD: u8 = 0x10;

/// Memory-mapped registers.
pub const REG_JOYP: u16 = 0xFF00;
pub const REG_DIV: u16 = 0xFF04;
pub const REG_TIMA: u16 = 0xFF05;
pub const REG_TMA: u16 = 0xFF06;
pub const REG_TAC: u16 = 0xFF07;
pub const REG_IF: u16 = 0xFF0F;
pub const REG_LCDC: u16 = 0xFF40;
pub const REG_STAT: u16 = 0xFF41;
pub const REG_SCY: u16 = 0xFF42;
pub const REG_SCX: u16 = 0xFF43;
pub const REG_LY: u16 = 0xFF44;
pub const REG_LYC: u16 = 0xFF45;
pub const REG_DMA: u16 = 0xFF46;
pub const REG_BGP: u16 = 0xFF47;
pub const REG_OBP0: u16 = 0xFF48;
pub const REG_OBP1: u16 = 0xFF49;
pub const REG_WY: u16 = 0xFF4A;
pub const REG_WX: u16 = 0xFF4B;
pub const REG_BOOT_OFF: u16 = 0xFF50;
pub const REG_IE: u16 = 0xFFFF;

pub const OAM_START: u16 = 0xFE00;
pub const OAM_SIZE: u16 = 0xA0;
pub const VRAM_START: u16 = 0x8000;

/// Addresses served by the cartridge when one is mounted.
pub open spec fn in_cartridge(address: u16) -> bool {
    address < 0x8000 || (0xA000 <= address < 0xC000)
}

/// `0xFEA0..=0xFEFF` reads `0xFF` and ignores writes.
pub open spec fn unusable(address: u16) -> bool {
    0xFEA0 <= address < 0xFF00
}

/// Echo RAM at `0xE000..=0xFDFF` shares its bytes with `0xC000..=0xDDFF`.
pub open spec fn cell(address: u16) -> int {
    if 0xE000 <= address < 0xFE00 {
        address - 0x2000
    } else {
        address as int
    }
}

/// The address after `address`, wrapping at the top of the address space.
pub open spec fn next_address(address: u16) -> u16 {
    if address == 0xFFFF {
        0
    } else {
        (address + 1) as u16
    }
}

/// Little-endian word from two bytes.
pub open spec fn word_of(lo: u8, hi: u8) -> u16 {
    (lo as int + hi as int * 256) as u16
}

/// The whole bus as plain values.
pub ghost struct BusView {
    pub memory: Seq<u8>,
    pub boot_rom: Seq<u8>,
    pub boot_rom_enabled: bool,
    pub boot_rom_loaded: bool,
    pub cartridge: Option<CartridgeView>,
    pub div_reset: bool,
}

impl BusView {
    pub open spec fn wf(self) -> bool {
        &&& self.memory.len() == 0x10000
        &&& self.boot_rom.len() == 0x100
        &&& (self.cartridge matches Some(c) ==> c.wf())
    }

    pub open spec fn boot_shadowed(self, address: u16) -> bool {
        self.boot_rom_enabled && address < 0x100
    }

    pub open spec fn cartridge_serves(self, address: u16) -> bool {
        in_cartridge(address) && self.cartridge is Some
    }

    /// What a read of `address` returns.
    pub open spec fn peek(self, address: u16) -> u8 {
        if self.boot_shadowed(address) {
            self.boot_rom[address as int]
        } else if self.cartridge_serves(address) {
            self.cartridge.unwrap().read_spec(address)
        } else if unusable(address) {
            0xFF
        } else {
            self.memory[cell(address)]
        }
    }

    pub open spec fn peek_word(self, address: u16) -> u16 {
        word_of(self.peek(address), self.peek(next_address(address)))
    }

    /// A write routed to its backing store, without the register hooks.
    pub open spec fn store(self, address: u16, byte: u8) -> BusView {
        if self.boot_shadowed(address) {
            self
        } else if self.cartridge_serves(address) {
            BusView { cartridge: Some(self.cartridge.unwrap().after_write(address, byte)), ..self }
        } else if unusable(address) {
            self
        } else {
            BusView { memory: self.memory.update(cell(address), byte), ..self }
        }
    }

    /// OAM after a DMA transfer from page `page`.
    pub open spec fn dma(self, page: u8) -> BusView {
        BusView {
            memory: Seq::new(
                0x10000,
                |j: int|
                    if 0xFE00 <= j < 0xFEA0 {
                        self.peek((page as int * 256 + (j - 0xFE00)) as u16)
                    } else {
                        self.memory[j]
                    },
            ),
            ..self
        }
    }

    /// The effect of a write from a program: DIV reset, DMA, boot ROM
    /// unmapping, then the store itself. `LY` is read-only to programs.
    pub open spec fn write_spec(self, address: u16, byte: u8) -> BusView {
        if address == REG_LY {
            self
        } else if address == REG_DIV {
            BusView { div_reset: true, ..self.store(address, 0) }
        } else if address == REG_DMA {
            self.dma(byte).store(address, byte)
        } else if address == REG_BOOT_OFF && self.boot_rom_enabled && byte != 0 {
            BusView { boot_rom_enabled: false, ..self.store(address, byte) }
        } else {
            self.store(address, byte)
        }
    }

    pub open spec fn write_word_spec(self, address: u16, word: u16) -> BusView {
        self.write_spec(address, (word % 256) as u8).write_spec(
            next_address(address),
            (word / 256) as u8,
        )
    }
}

/// The console's memory system.
pub struct MemorySystem {
    memory: Vec<u8>,
    boot_rom: Vec<u8>,
    boot_rom_enabled: bool,
    boot_rom_loaded: bool,
    cartridge: Option<Cartridge>,
    div_reset: bool,
}

impl View for MemorySystem {
    type V = BusView;

    closed spec fn view(&self) -> BusView {
        BusView {
            memory: self.memory@,
            boot_rom: self.boot_rom@,
            boot_rom_enabled: self.boot_rom_enabled,
            boot_rom_loaded: self.boot_rom_loaded,
            cartridge: match self.cartridge {
                Some(c) => Some(c@),
                None => None,
            },
            div_reset: self.div_reset,
        }
    }
}

impl Default for MemorySystem {
    fn default() -> (r: Self)
        ensures
            r@.wf(),
            r@.memory == Seq::new(0x10000, |i: int| 0u8),
            r@.cartridge is None,
    {
        MemorySystem::new()
    }
}

impl MemorySystem {
    /// A bus with zeroed memory, no boot ROM and no cartridge.
    pub fn new() -> (r: Self)
        ensures
            r@.wf(),
            r@.memory == Seq::new(0x10000, |i: int| 0u8),
            !r@.boot_rom_enabled,
            !r@.boot_rom_loaded,
            r@.cartridge is None,
            !r@.div_reset,
    {
        let r = MemorySystem {
            memory: vec![0u8; 0x10000],
            boot_rom: vec![0u8; 0x100],
            boot_rom_enabled: false,
            boot_rom_loaded: false,
            cartridge: None,
            div_reset: false,
        };
        assert(r@.memory =~= Seq::new(0x10000, |i: int| 0u8));
        r
    }

    /// Clears VRAM, maps the boot ROM back in if one was mounted, and puts
    /// the cartridge's controller back at power-on.
    pub fn reset(&mut self)
        requires
            old(self)@.wf(),
        ensures
            final(self)@ == (BusView {
                cartridge: match old(self)@.cartridge {
                    Some(c) => Some(c.after_reset()),
                    None => None,
                },
                memory: Seq::new(
                    0x10000,
                    |j: int|
                        if 0x8000 <= j < 0xA000 {
                            0u8
                        } else {
                            old(self)@.memory[j]
                        },
                ),
                boot_rom_enabled: old(self)@.boot_rom_loaded,
                ..old(self)@
            }),
            final(self)@.wf(),
    {
        let ghost before = self@;
        let mut i: usize = 0x8000;
        assert(self@.memory =~= Seq::new(
            0x10000,
            |j: int|
                if 0x8000 <= j < i {
                    0u8
                } else {
                    before.memory[j]
                },
        ));
        while i < 0xA000
            invariant
                0x8000 <= i <= 0xA000,
                self@ == (BusView {
                    memory: Seq::new(
                        0x10000,
                        |j: int|
                            if 0x8000 <= j < i {
                                0u8
                            } else {
                                before.memory[j]
                            },
                    ),
                    ..before
                }),
                before.wf(),
            decreases 0xA000 - i,
        {
            self.memory.set(i, 0);
            i = i + 1;
            proof {
                assert(self@.memory =~= Seq::new(
                    0x10000,
                    |j: int|
                        if 0x8000 <= j < i {
                            0u8
                        } else {
                            before.memory[j]
                        },
                ));
            }
        }
        self.boot_rom_enabled = self.boot_rom_loaded;
        if let Some(c) = &mut self.cartridge {
            c.reset_mapper();
        }
    }

    /// Mounts a 256-byte boot image over `0x0000..=0x00FF`. Returns false,
    /// changing nothing, when the image has another length.
    pub fn load_boot_rom(&mut self, image: Vec<u8>) -> (ok: bool)
        requires
            old(self)@.wf(),
        ensures
            ok == (image@.len() == 0x100),
            ok ==> final(self)@ == (BusView {
                boot_rom: image@,
                boot_rom_enabled: true,
                boot_rom_loaded: true,
                ..old(self)@
            }),
            !ok ==> final(self)@ == old(self)@,
            final(self)@.wf(),
    {
        if image.len() != 0x100 {
            return false;
        }
        self.boot_rom = image;
        self.boot_rom_enabled = true;
        self.boot_rom_loaded = true;
        true
    }

    /// Mounts a cartridge in place of the previous one.
    pub fn load_cartridge(&mut self, cartridge: Cartridge)
        requires
            old(self)@.wf(),
            cartridge@.wf(),
        ensures
            final(self)@ == (BusView { cartridge: Some(cartridge@), ..old(self)@ }),
            final(self)@.wf(),
    {
        self.cartridge = Some(cartridge);
    }

    pub fn cartridge(&self) -> (r: &Option<Cartridge>)
        ensures
            r.is_some() == self@.cartridge.is_some(),
            r matches Some(c) ==> self@.cartridge == Some(c@),
    {
        &self.cartridge
    }

    pub fn read_byte(&self, address: u16) -> (r: u8)
        requires
            self@.wf(),
        ensures
            r == self@.peek(address),
    {
        if self.boot_rom_enabled && address < 0x100 {
            self.boot_rom[address as usize]
        } else if address < 0x8000 || (0xA000 <= address && address < 0xC000) {
            match &self.cartridge {
                Some(c) => c.read_byte(address),
                None => self.memory[address as usize],
            }
        } else if 0xFEA0 <= address && address < 0xFF00 {
            0xFF
        } else if 0xE000 <= address && address < 0xFE00 {
            self.memory[address as usize - 0x2000]
        } else {
            self.memory[address as usize]
        }
    }

    /// A write that bypasses the register hooks (DIV reset, DMA, boot ROM
    /// unmapping).
    pub fn write_internal_byte(&mut self, address: u16, byte: u8)
        requires
            old(self)@.wf(),
        ensures
            final(self)@ == old(self)@.store(address, byte),
            final(self)@.wf(),
    {
        if self.boot_rom_enabled && address < 0x100 {
            return;
        }
        if address < 0x8000 || (0xA000 <= address && address < 0xC000) {
            if let Some(c) = &mut self.cartridge {
                c.write_byte(address, byte);
                return;
            }
        }
        if 0xFEA0 <= address && address < 0xFF00 {
            return;
        }
        let index = if 0xE000 <= address && address < 0xFE00 {
            address as usize - 0x2000
        } else {
            address as usize
        };
        self.memory.set(index, byte);
    }

    /// Copies 160 bytes from page `page` into OAM.
    fn dma_transfer(&mut self, page: u8)
        requires
            old(self)@.wf(),
        ensures
            final(self)@ == old(self)@.dma(page),
            final(self)@.wf(),
    {
        let ghost before = self@;
        let src: u16 = page as u16 * 256;
        let mut i: u16 = 0;
        assert(self@.memory =~= Seq::new(
            0x10000,
            |j: int|
                if 0xFE00 <= j < 0xFE00 + i {
                    before.peek((page as int * 256 + (j - 0xFE00)) as u16)
                } else {
                    before.memory[j]
                },
        ));
        while i < OAM_SIZE
            invariant
                i <= OAM_SIZE,
                src == page as int * 256,
                before.wf(),
                self@ == (BusView {
                    memory: Seq::new(
                        0x10000,
                        |j: int|
                            if 0xFE00 <= j < 0xFE00 + i {
                                before.peek((page as int * 256 + (j - 0xFE00)) as u16)
                            } else {
                                before.memory[j]
                            },
                    ),
                    ..before
                }),
            decreases OAM_SIZE - i,
        {
            let data = self.read_byte(src + i);
            assert(data == before.peek((src + i) as u16));
            self.memory.set(OAM_START as usize + i as usize, data);
            i = i + 1;
            proof {
                assert(self@.memory =~= Seq::new(
                    0x10000,
                    |j: int|
                        if 0xFE00 <= j < 0xFE00 + i {
                            before.peek((page as int * 256 + (j - 0xFE00)) as u16)
                        } else {
                            before.memory[j]
                        },
                ));
            }
        }
        assert(self@ =~= before.dma(page));
    }

    /// A write from a program, with its side effects: a write to DIV
    /// clears it and restarts the timer's counters; a write to DMA copies a
    /// page into OAM; a nonzero write to `0xFF50` unmaps the boot ROM;
    /// a write to `LY` is dropped.
    pub fn write_byte(&mut self, address: u16, byte: u8)
        requires
            old(self)@.wf(),
        ensures
            final(self)@ == old(self)@.write_spec(address, byte),
            final(self)@.wf(),
            final(self)@.peek(REG_LY) == old(self)@.peek(REG_LY),
    {
        if address == REG_LY {
        } else if address == REG_DIV {
            self.write_internal_byte(address, 0);
            self.div_reset = true;
        } else if address == REG_DMA {
            self.dma_transfer(byte);
            self.write_internal_byte(address, byte);
        } else if address == REG_BOOT_OFF && self.boot_rom_enabled && byte != 0 {
            self.write_internal_byte(address, byte);
            self.boot_rom_enabled = false;
        } else {
            self.write_internal_byte(address, byte);
        }
    }

    /// Little-endian: low byte at `address`, high byte at the next one.
    pub fn read_word(&self, address: u16) -> (r: u16)
        requires
            self@.wf(),
        ensures
            r == self@.peek_word(address),
    {
        let lo = self.read_byte(address);
        let hi = self.read_byte(following(address));
        lo as u16 + hi as u16 * 256
    }

    pub fn write_word(&mut self, address: u16, word: u16)
        requires
            old(self)@.wf(),
        ensures
            final(self)@ == old(self)@.write_word_spec(address, word),
            final(self)@.wf(),
            final(self)@.peek(REG_LY) == old(self)@.peek(REG_LY),
    {
        self.write_byte(address, (word % 256) as u8);
        self.write_byte(following(address), (word / 256) as u8);
    }

    /// Reports and clears a pending DIV reset.
    pub fn take_div_reset(&mut self) -> (r: bool)
        requires
            old(self)@.wf(),
        ensures
            r == old(self)@.div_reset,
            final(self)@ == (BusView { div_reset: false, ..old(self)@ }),
            final(self)@.wf(),
    {
        let r = self.div_reset;
        self.div_reset = false;
        r
    }

    pub fn read_oam(&self, offset: u16) -> (r: u8)
        requires
            self@.wf(),
            offset < OAM_SIZE,
        ensures
            r == self@.peek((OAM_START + offset) as u16),
    {
        self.read_byte(OAM_START + offset)
    }

    pub fn read_vram(&self, offset: u16) -> (r: u8)
        requires
            self@.wf(),
            offset < 0x2000,
        ensures
            r == self@.peek((VRAM_START + offset) as u16),
    {
        self.read_byte(VRAM_START + offset)
    }
}

fn following(address: u16) -> (r: u16)
    ensures
        r == next_address(address),
{
    if address == 0xFFFF {
        0
    } else {
        address + 1
    }
}

/// A bus of 64 KiB of plain memory, without mapping or side effects.
pub struct TestBus {
    pub memory: Vec<u8>,
}

impl Default for TestBus {
    fn default() -> (r: Self)
        ensures
            r.wf(),
    {
        TestBus::new()
    }
}

impl TestBus {
    pub open spec fn wf(&self) -> bool {
        self.memory@.len() == 0x10000
    }

    pub fn new() -> (r: Self)
        ensures
            r.wf(),
            forall|i: int| 0 <= i < 0x10000 ==> r.memory@[i] == 0,
    {
        TestBus { memory: vec![0u8; 0x10000] }
    }

    pub fn read_byte(&self, address: u16) -> (r: u8)
        requires
            self.wf(),
        ensures
            r == self.memory@[address as int],
    {
        self.memory[address as usize]
    }

    pub fn write_byte(&mut self, address: u16, byte: u8)
        requires
            old(self).wf(),
        ensures
            final(self).memory@ == old(self).memory@.update(address as int, byte),
    {
        self.memory.set(address as usize, byte);
    }

    pub fn read_word(&self, address: u16) -> (r: u16)
        requires
            self.wf(),
        ensures
            r == word_of(self.memory@[address as int], self.memory@[next_address(address) as int]),
    {
        let lo = self.memory[address as usize];
        let hi = self.memory[following(address) as usize];
        lo as u16 + hi as u16 * 256
    }

    pub fn write_word(&mut self, address: u16, word: u16)
        requires
            old(self).wf(),
        ensures
            final(self).memory@ == old(self).memory@.update(address as int, (word % 256) as u8).update(
                next_address(address) as int,
                (word / 256) as u8,
            ),
    {
        self.memory.set(address as usize, (word % 256) as u8);
        self.memory.set(following(address) as usize, (word / 256) as u8);
    }
}

/// Addresses whose bytes read back what was last written to them: video
/// RAM, work RAM and its echo, OAM, and high RAM with `IE`.
pub open spec fn read_back(address: u16) -> bool {
    (0x8000 <= address < 0xA000) || (0xC000 <= address < 0xFEA0) || (0xFF80 <= address)
}

/// A write to the high page (`0xFF00..=0xFFFF`) reaches only the byte
/// written (DIV reads zero after any write); every other high-page byte
/// keeps its value whatever is written elsewhere.
pub proof fn lemma_high_page_write(m: BusView, address: u16, byte: u8, other: u16)
    requires
        m.wf(),
        other >= 0xFF00,
    ensures
        m.write_spec(address, byte).peek(other) == if address == other {
            if address == REG_DIV {
                0
            } else if address == REG_LY {
                m.peek(other)
            } else {
                byte
            }
        } else {
            m.peek(other)
        },
        m.write_spec(address, byte).wf(),
{
}

/// Writes to read-back memory read back, and touch no other byte.
pub proof fn lemma_read_back_write(m: BusView, address: u16, byte: u8, other: u16)
    requires
        m.wf(),
        read_back(address),
    ensures
        m.write_spec(address, byte).peek(address) == byte,
        cell(address) != cell(other) ==> m.write_spec(address, byte).peek(other) == m.peek(other),
        m.write_spec(address, byte).wf(),
{
}

/// Echo RAM aliases work RAM: `0xE000 + i` and `0xC000 + i` read the same
/// byte, and a write through either address is seen at both.
pub proof fn lemma_echo_aliases_work_ram(m: BusView, i: u16, byte: u8)
    requires
        m.wf(),
        i <= 0x1DFF,
    ensures
        m.peek((0xE000 + i) as u16) == m.peek((0xC000 + i) as u16),
        m.write_spec((0xE000 + i) as u16, byte).peek((0xC000 + i) as u16) == byte,
        m.write_spec((0xE000 + i) as u16, byte).peek((0xE000 + i) as u16) == byte,
        m.write_spec((0xC000 + i) as u16, byte).peek((0xE000 + i) as u16) == byte,
        m.write_spec((0xC000 + i) as u16, byte).peek((0xC000 + i) as u16) == byte,
        m.write_spec((0xE000 + i) as u16, byte) == m.write_spec((0xC000 + i) as u16, byte),
{
}

/// Writing back the word just read from read-back memory leaves it there:
/// a pop followed by a push of the same value restores the top of the stack.
pub proof fn lemma_stack_word_round_trip(m: BusView, sp: u16)
    requires
        m.wf(),
        read_back(sp),
        read_back(next_address(sp)),
    ensures
        m.write_word_spec(sp, m.peek_word(sp)).peek_word(sp) == m.peek_word(sp),
{
    let w = m.peek_word(sp);
    let lo = m.peek(sp);
    let hi = m.peek(next_address(sp));
    assert(w % 256 == lo && w / 256 == hi) by (nonlinear_arith)
        requires
            w == (lo as int + hi as int * 256) as u16,
            lo < 256,
            hi < 256,
    ;
    let m1 = m.write_spec(sp, (w % 256) as u8);
    lemma_read_back_write(m, sp, (w % 256) as u8, next_address(sp));
    lemma_read_back_write(m1, next_address(sp), (w / 256) as u8, sp);
}

} // verus!
