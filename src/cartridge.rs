//! Cartridges: the ROM image, its optional RAM, and the mapper that turns
//! bus addresses into offsets within them.
use vstd::arithmetic::div_mod::lemma_fundamental_div_mod;
use vstd::prelude::*;

verus! {

/// Size of one switchable ROM bank.
pub const ROM_BANK_SIZE: usize = 0x4000;

/// Size of one switchable RAM bank.
pub const RAM_BANK_SIZE: usize = 0x2000;

/// Header offsets.
pub const HEADER_TITLE_START: usize = 0x0134;
pub const HEADER_TITLE_END: usize = 0x0144;
pub const HEADER_TYPE: usize = 0x0147;
pub const HEADER_ROM_SIZE: usize = 0x0148;
pub const HEADER_RAM_SIZE: usize = 0x0149;

/// Mapper without banking: the first 32 KiB of ROM are visible as they are.
#[derive(Clone, Copy, Debug, PartialEq, Eq)]
pub struct RomOnly;

impl RomOnly {
    pub open spec fn read_spec(rom: Seq<u8>, address: u16) -> u8 {
        if address < 0x8000 {
            rom[address as int]
        } else {
            0xFF
        }
    }

    /// Reads ROM directly below `0x8000`; everything else reads `0xFF`.
    pub fn read_rom(&self, rom: &Vec<u8>, address: u16) -> (r: u8)
        requires
            rom@.len() >= 0x8000,
        ensures
            r == Self::read_spec(rom@, address),
    {
        if address < 0x8000 {
            rom[address as usize]
        } else {
            0xFF
        }
    }

    /// ROM-only cartridges ignore writes.
    pub fn write_rom(&mut self, address: u16, byte: u8)
        ensures
            *final(self) == *old(self),
    {
    }
}

/// The MBC1 bank controller.
///
/// `rom_bank` holds seven bits: the low five are written through
/// `0x2000..=0x3FFF`, the high two through `0x4000..=0x5FFF`.
#[derive(Clone, Copy, Debug, PartialEq, Eq)]
pub struct Mbc1 {
    pub rom_bank: usize,
    pub mode_ram_banking: bool,
    pub ram_enabled: bool,
    pub ram_bank: usize,
    pub rom_bank_count: usize,
    pub ram_bank_count: usize,
}

impl Mbc1 {
    pub open spec fn wf(self) -> bool {
        &&& self.rom_bank < 128
        &&& self.ram_bank < 4
        &&& 0 < self.rom_bank_count <= 512
        &&& self.ram_bank_count <= 16
    }

    /// The ROM and RAM images this controller can address.
    pub open spec fn fits(self, rom: Seq<u8>, ram: Seq<u8>) -> bool {
        &&& rom.len() >= self.rom_bank_count * ROM_BANK_SIZE
        &&& (ram.len() == 0 || ram.len() >= self.ram_bank_count * RAM_BANK_SIZE)
    }

    pub open spec fn low5(self) -> int {
        self.rom_bank as int % 32
    }

    pub open spec fn high2(self) -> int {
        self.rom_bank as int / 32
    }

    /// Bank visible at `0x0000..=0x3FFF`.
    pub open spec fn bank_0000(self) -> int {
        (if self.mode_ram_banking {
            self.high2() * 32
        } else {
            0
        }) % (self.rom_bank_count as int)
    }

    /// Bank visible at `0x4000..=0x7FFF`: a low part of zero selects one.
    pub open spec fn bank_4000(self) -> int {
        (self.high2() * 32 + (if self.low5() == 0 {
            1
        } else {
            self.low5()
        })) % (self.rom_bank_count as int)
    }

    /// Bank visible at `0xA000..=0xBFFF`.
    pub open spec fn ram_bank_index(self) -> int {
        if self.mode_ram_banking {
            self.ram_bank as int % (self.ram_bank_count as int)
        } else {
            0
        }
    }

    pub open spec fn ram_accessible(self, ram: Seq<u8>) -> bool {
        self.ram_enabled && self.ram_bank_count > 0 && ram.len() > 0
    }

    pub open spec fn read_spec(self, rom: Seq<u8>, ram: Seq<u8>, address: u16) -> u8 {
        if address < 0x4000 {
            rom[self.bank_0000() * ROM_BANK_SIZE + address]
        } else if address < 0x8000 {
            rom[self.bank_4000() * ROM_BANK_SIZE + (address - 0x4000)]
        } else if 0xA000 <= address < 0xC000 {
            if self.ram_accessible(ram) {
                ram[self.ram_bank_index() * RAM_BANK_SIZE + (address - 0xA000)]
            } else {
                0xFF
            }
        } else {
            0xFF
        }
    }

    /// Controller state after a write at `address`.
    pub open spec fn after_write(self, address: u16, byte: u8) -> Mbc1 {
        if address < 0x2000 {
            Mbc1 { ram_enabled: byte % 16 == 0x0A, ..self }
        } else if address < 0x4000 {
            Mbc1 { rom_bank: (self.high2() * 32 + byte % 32) as usize, ..self }
        } else if address < 0x6000 {
            Mbc1 {
                rom_bank: ((byte % 4) * 32 + self.low5()) as usize,
                ram_bank: if self.mode_ram_banking {
                    (byte % 4) as usize
                } else {
                    self.ram_bank
                },
                ..self
            }
        } else if address < 0x8000 {
            Mbc1 { mode_ram_banking: byte % 2 != 0, ..self }
        } else {
            self
        }
    }

    /// RAM contents after a write at `address`.
    pub open spec fn ram_after_write(self, ram: Seq<u8>, address: u16, byte: u8) -> Seq<u8> {
        if 0xA000 <= address < 0xC000 && self.ram_accessible(ram) {
            ram.update(self.ram_bank_index() * RAM_BANK_SIZE + (address - 0xA000), byte)
        } else {
            ram
        }
    }

    /// A controller at power-on: ROM bank 1, RAM bank 0, RAM disabled, mode 0.
    pub fn new(rom_bank_count: usize, ram_bank_count: usize) -> (r: Self)
        requires
            0 < rom_bank_count <= 512,
            ram_bank_count <= 16,
        ensures
            r.wf(),
            r == (Mbc1 {
                rom_bank: 1,
                mode_ram_banking: false,
                ram_enabled: false,
                ram_bank: 0,
                rom_bank_count,
                ram_bank_count,
            }),
    {
        Mbc1 {
            rom_bank: 1,
            mode_ram_banking: false,
            ram_enabled: false,
            ram_bank: 0,
            rom_bank_count,
            ram_bank_count,
        }
    }

    fn current_rom_bank_0000(&self) -> (r: usize)
        requires
            self.wf(),
        ensures
            r == self.bank_0000(),
            r < self.rom_bank_count,
    {
        let bank = if self.mode_ram_banking {
            (self.rom_bank / 32) * 32
        } else {
            0
        };
        bank % self.rom_bank_count
    }

    fn current_rom_bank_4000(&self) -> (r: usize)
        requires
            self.wf(),
        ensures
            r == self.bank_4000(),
            r < self.rom_bank_count,
    {
        let low5 = self.rom_bank % 32;
        let low5_nonzero = if low5 == 0 {
            1
        } else {
            low5
        };
        ((self.rom_bank / 32) * 32 + low5_nonzero) % self.rom_bank_count
    }

    fn current_ram_bank(&self) -> (r: usize)
        requires
            self.wf(),
            self.ram_bank_count > 0,
        ensures
            r == self.ram_bank_index(),
            r < self.ram_bank_count,
    {
        if self.mode_ram_banking {
            self.ram_bank % self.ram_bank_count
        } else {
            0
        }
    }

    /// Reads a byte of the cartridge window through the controller.
    /// An empty `ram` stands for a cartridge without RAM.
    pub fn read(&self, rom: &Vec<u8>, ram: &Vec<u8>, address: u16) -> (r: u8)
        requires
            self.wf(),
            self.fits(rom@, ram@),
        ensures
            r == self.read_spec(rom@, ram@, address),
    {
        if address < 0x4000 {
            let bank = self.current_rom_bank_0000();
            proof {
                lemma_bank_offset(bank as int, address as int, self.rom_bank_count as int, ROM_BANK_SIZE as int);
            }
            rom[bank * ROM_BANK_SIZE + address as usize]
        } else if address < 0x8000 {
            let bank = self.current_rom_bank_4000();
            proof {
                lemma_bank_offset(bank as int, address - 0x4000, self.rom_bank_count as int, ROM_BANK_SIZE as int);
            }
            rom[bank * ROM_BANK_SIZE + (address as usize - 0x4000)]
        } else if 0xA000 <= address && address < 0xC000 {
            if !self.ram_enabled || self.ram_bank_count == 0 || ram.len() == 0 {
                0xFF
            } else {
                let bank = self.current_ram_bank();
                proof {
                    lemma_bank_offset(bank as int, address - 0xA000, self.ram_bank_count as int, RAM_BANK_SIZE as int);
                }
                ram[bank * RAM_BANK_SIZE + (address as usize - 0xA000)]
            }
        } else {
            0xFF
        }
    }

    /// Handles a write into the cartridge window: bank registers below
    /// `0x8000`, RAM at `0xA000..=0xBFFF`.
    pub fn write(&mut self, ram: &mut Vec<u8>, address: u16, byte: u8)
        requires
            old(self).wf(),
            old(ram)@.len() == 0 || old(ram)@.len() >= old(self).ram_bank_count * RAM_BANK_SIZE,
        ensures
            final(self).wf(),
            *final(self) == old(self).after_write(address, byte),
            final(ram)@ == old(self).ram_after_write(old(ram)@, address, byte),
    {
        if address < 0x2000 {
            self.ram_enabled = byte % 16 == 0x0A;
        } else if address < 0x4000 {
            self.rom_bank = (self.rom_bank / 32) * 32 + (byte % 32) as usize;
        } else if address < 0x6000 {
            let bits = (byte % 4) as usize;
            self.rom_bank = bits * 32 + self.rom_bank % 32;
            if self.mode_ram_banking {
                self.ram_bank = bits;
            }
        } else if address < 0x8000 {
            self.mode_ram_banking = byte % 2 != 0;
        } else if 0xA000 <= address && address < 0xC000 {
            if self.ram_enabled && self.ram_bank_count > 0 && ram.len() > 0 {
                let bank = self.current_ram_bank();
                proof {
                    lemma_bank_offset(bank as int, address - 0xA000, self.ram_bank_count as int, RAM_BANK_SIZE as int);
                }
                ram.set(bank * RAM_BANK_SIZE + (address as usize - 0xA000), byte);
            }
        }
    }
}

/// An offset inside bank `bank` of `count` banks lies inside the image.
proof fn lemma_bank_offset(bank: int, offset: int, count: int, size: int)
    requires
        0 <= bank < count,
        0 <= offset < size,
    ensures
        bank * size + offset < count * size,
        0 <= bank * size,
{
    assert(bank * size + offset < count * size) by (nonlinear_arith)
        requires
            0 <= bank < count,
            0 <= offset < size,
    ;
    assert(0 <= bank * size) by (nonlinear_arith)
        requires
            0 <= bank,
            0 <= offset < size,
    ;
}

/// The bank-zero remap only fires on the low five bits: with those at
/// zero, whatever the high two bits hold, a cartridge with an even number
/// of banks never shows bank 0 in the `0x4000..=0x7FFF` window.
pub proof fn lemma_switchable_window_skips_bank_zero(m: Mbc1)
    requires
        m.wf(),
        m.low5() == 0,
        m.rom_bank_count % 2 == 0,
    ensures
        m.bank_4000() != 0,
        forall|address: u16|
            0x4000 <= address < 0x8000 ==> #[trigger] (m.bank_4000() * ROM_BANK_SIZE + (address
                - 0x4000)) >= ROM_BANK_SIZE,
{
    let x = m.high2() * 32 + 1;
    let c = m.rom_bank_count as int;
    lemma_fundamental_div_mod(x, c);
    let q = x / c;
    let k = c / 2;
    if x % c == 0 {
        assert(x == 2 * (k * q)) by (nonlinear_arith)
            requires
                x == c * q + 0,
                c == 2 * k,
        ;
        assert(false);
    }
    assert(m.bank_4000() >= 1);
    assert forall|address: u16| 0x4000 <= address < 0x8000 implies #[trigger] (m.bank_4000()
        * ROM_BANK_SIZE + (address - 0x4000)) >= ROM_BANK_SIZE by {
        assert(m.bank_4000() * ROM_BANK_SIZE >= ROM_BANK_SIZE) by (nonlinear_arith)
            requires
                m.bank_4000() >= 1,
        ;
    }
}

/// The controller a cartridge uses, picked from its header.
#[derive(Clone, Copy, Debug, PartialEq, Eq)]
pub enum Mapper {
    RomOnly(RomOnly),
    Mbc1(Mbc1),
}

impl Mapper {
    pub open spec fn wf(self) -> bool {
        match self {
            Mapper::RomOnly(_) => true,
            Mapper::Mbc1(m) => m.wf(),
        }
    }

    pub open spec fn fits(self, rom: Seq<u8>, ram: Seq<u8>) -> bool {
        match self {
            Mapper::RomOnly(_) => rom.len() >= 0x8000,
            Mapper::Mbc1(m) => m.fits(rom, ram) && rom.len() >= 0x8000,
        }
    }

    pub open spec fn ram_fits(self, ram: Seq<u8>) -> bool {
        match self {
            Mapper::RomOnly(_) => true,
            Mapper::Mbc1(m) => ram.len() == 0 || ram.len() >= m.ram_bank_count * RAM_BANK_SIZE,
        }
    }

    pub open spec fn read_spec(self, rom: Seq<u8>, ram: Seq<u8>, address: u16) -> u8 {
        match self {
            Mapper::RomOnly(_) => RomOnly::read_spec(rom, address),
            Mapper::Mbc1(m) => m.read_spec(rom, ram, address),
        }
    }

    pub open spec fn after_write(self, address: u16, byte: u8) -> Mapper {
        match self {
            Mapper::RomOnly(r) => Mapper::RomOnly(r),
            Mapper::Mbc1(m) => Mapper::Mbc1(m.after_write(address, byte)),
        }
    }

    pub open spec fn ram_after_write(self, ram: Seq<u8>, address: u16, byte: u8) -> Seq<u8> {
        match self {
            Mapper::RomOnly(_) => ram,
            Mapper::Mbc1(m) => m.ram_after_write(ram, address, byte),
        }
    }

    pub fn read_rom(&self, rom: &Vec<u8>, ram: &Vec<u8>, address: u16) -> (r: u8)
        requires
            self.wf(),
            self.fits(rom@, ram@),
        ensures
            r == self.read_spec(rom@, ram@, address),
    {
        match self {
            Mapper::RomOnly(m) => m.read_rom(rom, address),
            Mapper::Mbc1(m) => m.read(rom, ram, address),
        }
    }

    pub fn write_rom(&mut self, ram: &mut Vec<u8>, address: u16, byte: u8)
        requires
            old(self).wf(),
            old(self).ram_fits(old(ram)@),
        ensures
            final(self).wf(),
            *final(self) == old(self).after_write(address, byte),
            final(ram)@ == old(self).ram_after_write(old(ram)@, address, byte),
    {
        match self {
            Mapper::RomOnly(m) => m.write_rom(address, byte),
            Mapper::Mbc1(m) => m.write(ram, address, byte),
        }
    }
}

/// Why a ROM image cannot be mounted.
#[derive(Clone, Copy, Debug, PartialEq, Eq)]
pub enum CartridgeError {
    /// The image ends before the end of its header.
    MissingHeader,
    /// The controller named by the type byte is not emulated.
    UnsupportedType(u8),
    /// The ROM size byte is not a known code.
    UnsupportedRomSize(u8),
    /// The RAM size byte is not a known code.
    UnsupportedRamSize(u8),
    /// The image is shorter than its header declares.
    Truncated,
}

/// Number of 16 KiB ROM banks declared by the ROM size code.
pub open spec fn rom_banks_for(code: u8) -> Option<usize> {
    if code <= 8 {
        Some((2 * pow2(code as nat)) as usize)
    } else {
        None
    }
}

pub open spec fn pow2(n: nat) -> nat
    decreases n,
{
    if n == 0 {
        1
    } else {
        2 * pow2((n - 1) as nat)
    }
}

/// Number of 8 KiB RAM banks declared by the RAM size code.
pub open spec fn ram_banks_for(code: u8) -> Option<usize> {
    match code {
        0 => Some(0usize),
        1 => Some(1usize),
        2 => Some(1usize),
        3 => Some(4usize),
        4 => Some(16usize),
        5 => Some(8usize),
        _ => None,
    }
}

/// The mapper named by a header, before its bank counts are known.
pub open spec fn type_supported(code: u8) -> bool {
    code <= 3
}

/// Decodes the text of the header's title bytes, with each invalid UTF-8
/// sequence replaced.
pub uninterp spec fn lossy_text(bytes: Seq<u8>) -> Seq<char>;

/// Relies on `String::from_utf8_lossy`: the text depends on the bytes alone.
#[verifier::external_body]
fn decode_title(bytes: &Vec<u8>) -> (r: String)
    ensures
        r@ == lossy_text(bytes@),
{
    String::from_utf8_lossy(bytes.as_slice()).into_owned()
}

/// The title bytes of a header, without their trailing NUL padding.
pub open spec fn title_bytes(rom: Seq<u8>) -> Seq<u8> {
    trim_nul(rom.subrange(HEADER_TITLE_START as int, HEADER_TITLE_END as int))
}

pub open spec fn trim_nul(s: Seq<u8>) -> Seq<u8>
    decreases s.len(),
{
    if s.len() > 0 && s.last() == 0 {
        trim_nul(s.drop_last())
    } else {
        s
    }
}

/// Why a ROM image's header is refused, if it is.
pub open spec fn header_error(rom: Seq<u8>) -> Option<CartridgeError> {
    if rom.len() <= HEADER_RAM_SIZE {
        Some(CartridgeError::MissingHeader)
    } else {
        let t = rom[HEADER_TYPE as int];
        let rs = rom[HEADER_ROM_SIZE as int];
        let ms = rom[HEADER_RAM_SIZE as int];
        if !type_supported(t) {
            Some(CartridgeError::UnsupportedType(t))
        } else if rom_banks_for(rs).is_none() {
            Some(CartridgeError::UnsupportedRomSize(rs))
        } else if ram_banks_for(ms).is_none() {
            Some(CartridgeError::UnsupportedRamSize(ms))
        } else if rom.len() < rom_banks_for(rs).unwrap() * ROM_BANK_SIZE {
            Some(CartridgeError::Truncated)
        } else {
            None
        }
    }
}

/// A mounted cartridge: ROM image, RAM buffer (empty when absent), and
/// its controller.
pub struct Cartridge {
    title: String,
    rom: Vec<u8>,
    ram: Vec<u8>,
    mapper: Mapper,
}

/// What a cartridge holds, as plain values.
pub ghost struct CartridgeView {
    pub title: Seq<char>,
    pub rom: Seq<u8>,
    pub ram: Seq<u8>,
    pub mapper: Mapper,
}

impl CartridgeView {
    pub open spec fn wf(self) -> bool {
        self.mapper.wf() && self.mapper.fits(self.rom, self.ram)
    }

    pub open spec fn read_spec(self, address: u16) -> u8 {
        self.mapper.read_spec(self.rom, self.ram, address)
    }

    /// The controller back at power-on; ROM and RAM kept.
    pub open spec fn after_reset(self) -> CartridgeView {
        CartridgeView {
            mapper: match self.mapper {
                Mapper::Mbc1(m) => Mapper::Mbc1(
                    Mbc1 { rom_bank: 1, mode_ram_banking: false, ram_enabled: false, ram_bank: 0, ..m },
                ),
                other => other,
            },
            ..self
        }
    }

    pub open spec fn after_write(self, address: u16, byte: u8) -> CartridgeView {
        CartridgeView {
            mapper: self.mapper.after_write(address, byte),
            ram: self.mapper.ram_after_write(self.ram, address, byte),
            ..self
        }
    }
}

impl View for Cartridge {
    type V = CartridgeView;

    closed spec fn view(&self) -> CartridgeView {
        CartridgeView {
            title: self.title@,
            rom: self.rom@,
            ram: self.ram@,
            mapper: self.mapper,
        }
    }
}

impl Cartridge {
    /// Mounts a ROM image after checking its header: type `0x00` is
    /// ROM-only, `0x01..=0x03` is MBC1; the size codes give the bank counts.
    pub fn from_bytes(rom: Vec<u8>) -> (r: Result<Cartridge, CartridgeError>)
        ensures
            header_error(rom@) matches Some(e) ==> r == Err::<Cartridge, CartridgeError>(e),
            header_error(rom@) is None ==> {
                let t = rom@[HEADER_TYPE as int];
                let rs = rom@[HEADER_ROM_SIZE as int];
                let ms = rom@[HEADER_RAM_SIZE as int];
                &&& r is Ok
                &&& r->Ok_0@.wf()
                &&& r->Ok_0@.rom == rom@
                &&& r->Ok_0@.title == lossy_text(title_bytes(rom@))
                &&& r->Ok_0@.ram.len() == ram_banks_for(ms).unwrap() * RAM_BANK_SIZE
                &&& forall|i: int| 0 <= i < r->Ok_0@.ram.len() ==> r->Ok_0@.ram[i] == 0
                &&& r->Ok_0@.mapper == if t == 0 {
                    Mapper::RomOnly(RomOnly)
                } else {
                    Mapper::Mbc1(
                        Mbc1 {
                            rom_bank: 1,
                            mode_ram_banking: false,
                            ram_enabled: false,
                            ram_bank: 0,
                            rom_bank_count: rom_banks_for(rs).unwrap(),
                            ram_bank_count: ram_banks_for(ms).unwrap(),
                        },
                    )
                }
            },
    {
        if rom.len() <= HEADER_RAM_SIZE {
            return Err(CartridgeError::MissingHeader);
        }
        let t = rom[HEADER_TYPE];
        let rs = rom[HEADER_ROM_SIZE];
        let ms = rom[HEADER_RAM_SIZE];
        if t > 3 {
            return Err(CartridgeError::UnsupportedType(t));
        }
        let rom_banks = match rom_banks_from_code(rs) {
            Some(n) => n,
            None => {
                return Err(CartridgeError::UnsupportedRomSize(rs));
            },
        };
        let ram_banks: usize = match ms {
            0 => 0,
            1 => 1,
            2 => 1,
            3 => 4,
            4 => 16,
            5 => 8,
            _ => {
                return Err(CartridgeError::UnsupportedRamSize(ms));
            },
        };
        if rom.len() < rom_banks * ROM_BANK_SIZE {
            return Err(CartridgeError::Truncated);
        }
        let mut end = HEADER_TITLE_END;
        while end > HEADER_TITLE_START && rom[end - 1] == 0
            invariant
                HEADER_TITLE_START <= end <= HEADER_TITLE_END,
                rom@.len() > HEADER_RAM_SIZE,
                trim_nul(rom@.subrange(HEADER_TITLE_START as int, end as int)) == title_bytes(rom@),
            decreases end,
        {
            let ghost s = rom@.subrange(HEADER_TITLE_START as int, end as int);
            assert(s.drop_last() =~= rom@.subrange(HEADER_TITLE_START as int, end - 1));
            end = end - 1;
        }
        let mut raw: Vec<u8> = Vec::new();
        let mut i = HEADER_TITLE_START;
        while i < end
            invariant
                HEADER_TITLE_START <= i <= end <= HEADER_TITLE_END,
                rom@.len() > HEADER_RAM_SIZE,
                raw@ =~= rom@.subrange(HEADER_TITLE_START as int, i as int),
            decreases end - i,
        {
            raw.push(rom[i]);
            i = i + 1;
        }
        proof {
            let s = rom@.subrange(HEADER_TITLE_START as int, end as int);
            if s.len() > 0 {
                assert(s.last() != 0);
            }
            assert(trim_nul(s) == s);
        }
        let title = decode_title(&raw);
        let ram: Vec<u8> = vec![0u8; ram_banks * RAM_BANK_SIZE];
        let mapper = if t == 0 {
            Mapper::RomOnly(RomOnly)
        } else {
            Mapper::Mbc1(Mbc1::new(rom_banks, ram_banks))
        };
        Ok(Cartridge { title, rom, ram, mapper })
    }

    /// A placeholder cartridge: 32 KiB of `0xFF`, no controller.
    pub fn empty() -> (r: Cartridge)
        ensures
            r@.wf(),
            r@.mapper == Mapper::RomOnly(RomOnly),
            r@.rom.len() == 0x8000,
            forall|i: int| 0 <= i < 0x8000 ==> r@.rom[i] == 0xFF,
            r@.ram.len() == 0,
            r@.title == "EMPTY"@,
    {
        Cartridge {
            title: "EMPTY".to_string(),
            rom: vec![0xFFu8; 0x8000],
            ram: Vec::new(),
            mapper: Mapper::RomOnly(RomOnly),
        }
    }

    pub fn title(&self) -> (r: &str)
        ensures
            r@ == self@.title,
    {
        self.title.as_str()
    }

    pub fn read_byte(&self, address: u16) -> (r: u8)
        requires
            self@.wf(),
        ensures
            r == self@.read_spec(address),
    {
        self.mapper.read_rom(&self.rom, &self.ram, address)
    }

    /// Puts the controller back at power-on: ROM bank 1, RAM bank 0, RAM
    /// disabled, mode 0.
    pub fn reset_mapper(&mut self)
        requires
            old(self)@.wf(),
        ensures
            final(self)@ == old(self)@.after_reset(),
            final(self)@.wf(),
    {
        if let Mapper::Mbc1(m) = self.mapper {
            self.mapper = Mapper::Mbc1(Mbc1::new(m.rom_bank_count, m.ram_bank_count));
        }
    }

    pub fn write_byte(&mut self, address: u16, byte: u8)
        requires
            old(self)@.wf(),
        ensures
            final(self)@ == old(self)@.after_write(address, byte),
            final(self)@.wf(),
    {
        self.mapper.write_rom(&mut self.ram, address, byte);
    }
}

/// Bank count for a ROM size code.
fn rom_banks_from_code(code: u8) -> (r: Option<usize>)
    ensures
        r == rom_banks_for(code),
        r matches Some(n) ==> 2 <= n <= 512,
{
    if code > 8 {
        return None;
    }
    let mut n: usize = 2;
    let mut i: u8 = 0;
    while i < code
        invariant
            i <= code <= 8,
            n == 2 * pow2(i as nat),
            2 <= n <= 2 * pow2(i as nat),
            pow2(i as nat) <= 256,
        decreases code - i,
    {
        proof {
            lemma_pow2_bound(i as nat);
        }
        n = n * 2;
        i = i + 1;
    }
    Some(n)
}

proof fn lemma_pow2_bound(n: nat)
    requires
        n < 8,
    ensures
        pow2(n) <= 128,
        pow2((n + 1) as nat) == 2 * pow2(n),
    decreases n,
{
    reveal_with_fuel(pow2, 9);
}

} // verus!
