use crate::ppu::{PPUModes, VideoMemBlock};
use crate::util::error_type::Errors;
use crate::util::u8_traits::{byte_bit, byte_with_bit, Bit, NibblesU16};
use vstd::prelude::*;
use vstd::slice::slice_subrange;

verus! {

pub const JOYP: u16 = 0xFF00;

pub const DIV: u16 = 0xFF04;

pub const TIMA: u16 = 0xFF05;

pub const TMA: u16 = 0xFF06;

pub const TAC: u16 = 0xFF07;

pub const IF: u16 = 0xFF0F;

pub const LCDC: u16 = 0xFF40;

pub const STAT: u16 = 0xFF41;

pub const SCY: u16 = 0xFF42;

pub const SCX: u16 = 0xFF43;

pub const LY: u16 = 0xFF44;

pub const LYC: u16 = 0xFF45;

pub const DMA: u16 = 0xFF46;

pub const BGP: u16 = 0xFF47;

pub const OBP0: u16 = 0xFF48;

pub const OBP1: u16 = 0xFF49;

pub const WY: u16 = 0xFF4A;

pub const WX: u16 = 0xFF4B;

pub const BOOT_OFF: u16 = 0xFF50;

pub const IE: u16 = 0xFFFF;

pub const OAM_START: u16 = 0xFE00;

/// Number of bytes that a transfer into object memory copies.
pub const OAM_SIZE: u16 = 160;

pub open spec fn in_vram(address: u16) -> bool {
    0x8000 <= address <= 0x9FFF
}

pub open spec fn in_oam(address: u16) -> bool {
    0xFE00 <= address <= 0xFE9F
}

pub open spec fn in_echo(address: u16) -> bool {
    0xE000 <= address <= 0xFDFF
}

pub open spec fn in_unusable(address: u16) -> bool {
    0xFEA0 <= address <= 0xFEFF
}

/// The address after `address`, wrapping at the end of the address space.
pub open spec fn next_address(address: u16) -> u16 {
    ((address + 1) % 0x1_0000) as u16
}

/// The word whose low byte is `low` and whose high byte is `high`.
pub open spec fn word_from(low: u8, high: u8) -> u16 {
    (high * 256 + low) as u16
}

/// Joins two bytes into a word.
pub fn word_from_bytes(low: u8, high: u8) -> (word: u16)
    ensures
        word == word_from(low, high),
{
    assert(((high as u16) << 8u16) | (low as u16) == high * 256 + low) by (bit_vector);
    ((high as u16) << 8) | (low as u16)
}

/// What a read of the joypad register gives: the two select bits as
/// written, the two top bits set, and in the low four bits a zero for each
/// pressed button of a selected row. `pressed` holds the direction keys in
/// its low half and the action keys in its high half.
pub open spec fn joypad_value(select: u8, pressed: u8) -> u8 {
    let directions: u8 = if select & 0x10 == 0 { pressed & 0x0F } else { 0 };
    let actions: u8 = if select & 0x20 == 0 { (pressed >> 4) & 0x0F } else { 0 };
    0xC0 | (select & 0x30) | (!(directions | actions) & 0x0F)
}

/// The bus as a mathematical value: the 64 KiB store behind the address
/// space, the boot program that may overlay its first 256 bytes, the two
/// locks that the pixel unit holds, and the state of the divider.
pub struct BusView {
    pub mem: Seq<u8>,
    pub boot_rom: Seq<u8>,
    pub boot_rom_active: bool,
    pub vram_lock: bool,
    pub oam_lock: bool,
    pub div: u16,
    pub reload_delay: u8,
    pub joypad: u8,
    pub doctor: bool,
}

impl BusView {
    /// The bus of a machine that was just made: all memory zero, no boot
    /// program, nothing locked, the divider at zero, no button held.
    pub open spec fn empty() -> BusView {
        BusView {
            mem: Seq::new(0x1_0000, |i: int| 0u8),
            boot_rom: Seq::new(0x100, |i: int| 0u8),
            boot_rom_active: false,
            vram_lock: false,
            oam_lock: false,
            div: 0,
            reload_delay: 0,
            joypad: 0,
            doctor: false,
        }
    }

    /// The store holds the 64 KiB of the address space and the boot
    /// program 256 bytes.
    pub open spec fn wf(self) -> bool {
        self.mem.len() == 0x1_0000 && self.boot_rom.len() == 0x100
    }

    /// Raw read: the byte in the store.
    pub open spec fn read(self, address: u16) -> u8 {
        self.mem[address as int]
    }

    /// Raw write: the byte goes into the store.
    pub open spec fn write(self, address: u16, value: u8) -> BusView {
        BusView { mem: self.mem.update(address as int, value), ..self }
    }

    /// Raw write of one bit of a byte.
    pub open spec fn write_bit(self, address: u16, bit: u8, value: bool) -> BusView {
        self.write(address, byte_with_bit(self.read(address), bit, value))
    }

    /// Raw write of a block of bytes.
    pub open spec fn write_block(self, address: u16, block: Seq<u8>) -> BusView {
        BusView {
            mem: Seq::new(
                self.mem.len(),
                |i: int|
                    if address <= i < address + block.len() {
                        block[i - address]
                    } else {
                        self.mem[i]
                    },
            ),
            ..self
        }
    }

    /// What the processor reads at `address`.
    pub open spec fn read_cpu(self, address: u16) -> u8 {
        if address < 0x100 && self.boot_rom_active {
            self.boot_rom[address as int]
        } else if in_vram(address) && self.vram_lock {
            0xFF
        } else if in_oam(address) && self.oam_lock {
            0xFF
        } else if in_echo(address) {
            self.mem[address - 0x2000]
        } else if in_unusable(address) {
            0xFF
        } else if address == JOYP {
            joypad_value(self.mem[JOYP as int], self.joypad)
        } else if address == DIV {
            (self.div / 256) as u8
        } else if address == IF {
            self.mem[IF as int] | 0xE0
        } else if address == LY && self.doctor {
            0x90
        } else {
            self.mem[address as int]
        }
    }

    /// The little-endian word that the processor reads at `address` and the
    /// address after it.
    pub open spec fn read16_cpu(self, address: u16) -> u16 {
        word_from(self.read_cpu(address), self.read_cpu(next_address(address)))
    }

    /// The store after a transfer into object memory from page `page`: the
    /// 160 bytes of object memory are what the processor would read at
    /// `page * 256` onward.
    pub open spec fn dma(self, page: u8) -> BusView {
        BusView {
            mem: Seq::new(
                self.mem.len(),
                |i: int|
                    if 0xFE00 <= i < 0xFE00 + 160 {
                        self.read_cpu((page * 256 + (i - 0xFE00)) as u16)
                    } else if i == DMA {
                        page
                    } else {
                        self.mem[i]
                    },
            ),
            ..self
        }
    }

    /// The bus after the processor writes `value` at `address`.
    pub open spec fn write_cpu(self, address: u16, value: u8) -> BusView {
        if in_vram(address) && self.vram_lock {
            self
        } else if in_oam(address) && self.oam_lock {
            self
        } else if in_echo(address) {
            self.write((address - 0x2000) as u16, value)
        } else if in_unusable(address) {
            self
        } else if address == DIV {
            BusView { div: 0, ..self.write(DIV, 0) }
        } else if address == TIMA {
            BusView { reload_delay: 0, ..self.write(TIMA, value) }
        } else if address == IF {
            self.write(IF, value & 0x1F)
        } else if address == STAT {
            self.write(STAT, (value & 0x78) | (self.mem[STAT as int] & 0x07))
        } else if address == LY {
            self
        } else if address == DMA {
            self.dma(value)
        } else if address == BOOT_OFF {
            BusView {
                boot_rom_active: self.boot_rom_active && value != 0x01,
                ..self.write(BOOT_OFF, value)
            }
        } else {
            self.write(address, value)
        }
    }

    /// The bus after the processor writes a little-endian word at `address`
    /// and the address after it.
    pub open spec fn write16_cpu(self, address: u16, value: u16) -> BusView {
        self.write_cpu(address, (value % 256) as u8).write_cpu(
            next_address(address),
            (value / 256) as u8,
        )
    }
}

/// The memory bus: the store behind the 16-bit address space and the state
/// that reads and writes through it depend on.
pub struct Bus {
    /// The store behind the address space, one byte for each address.
    pub data: [u8; 0x1_0000],
    /// The boot program.
    pub boot_rom: [u8; 0x100],
    /// Whether the processor reads the boot program in place of the first
    /// 256 bytes of the store.
    pub boot_rom_active: bool,
    /// Whether the pixel unit keeps tile data and tile maps to itself.
    pub vram_lock: bool,
    /// Whether the pixel unit keeps object memory to itself.
    pub oam_lock: bool,
    /// The internal divider of the timer; its high byte is the DIV register.
    pub timer_div_intern: u16,
    /// Clock cycles until an overflowed timer counter is reloaded; zero when
    /// no reload is due.
    pub timer_reload_delay: u8,
    /// The pressed buttons: direction keys in the low half, action keys in
    /// the high half.
    pub joypad: u8,
    /// Test hook: the processor reads line 0x90 from the line register.
    pub doctor: bool,
}

impl View for Bus {
    type V = BusView;

    open spec fn view(&self) -> BusView {
        BusView {
            mem: self.data@,
            boot_rom: self.boot_rom@,
            boot_rom_active: self.boot_rom_active,
            vram_lock: self.vram_lock,
            oam_lock: self.oam_lock,
            div: self.timer_div_intern,
            reload_delay: self.timer_reload_delay,
            joypad: self.joypad,
            doctor: self.doctor,
        }
    }
}

impl Bus {
    pub fn new() -> (bus: Bus)
        ensures
            bus@ == BusView::empty(),
            bus@.wf(),
    {
        let bus = Bus {
            data: [0x00;0x1_0000],
            boot_rom: [0x00;0x100],
            boot_rom_active: false,
            vram_lock: false,
            oam_lock: false,
            timer_div_intern: 0,
            timer_reload_delay: 0,
            joypad: 0,
            doctor: false,
        };
        assert(bus@.mem =~= BusView::empty().mem);
        assert(bus@.boot_rom =~= BusView::empty().boot_rom);
        bus
    }

    /// Which part of video memory is kept from the processor.
    pub fn video_mem_block(&self) -> (block: VideoMemBlock)
        ensures
            block == if self@.vram_lock {
                VideoMemBlock::All
            } else if self@.oam_lock {
                VideoMemBlock::OAM
            } else {
                VideoMemBlock::Free
            },
    {
        if self.vram_lock {
            VideoMemBlock::All
        } else if self.oam_lock {
            VideoMemBlock::OAM
        } else {
            VideoMemBlock::Free
        }
    }

    /// Installs the boot program: its 256 bytes go into the start of the
    /// store and overlay the start of the address space for the processor
    /// until the overlay is switched off.
    pub fn load_boot_rom(&mut self, rom: &[u8]) -> (r: Result<(), Errors>)
        ensures
            rom@.len() == 0x100 ==> r.is_ok() && final(self)@ == (BusView {
                boot_rom: rom@,
                boot_rom_active: true,
                ..old(self)@.write_block(0, rom@)
            }),
            rom@.len() != 0x100 ==> r == Err::<(), Errors>(Errors::BootRomSize) && *final(self)
                == *old(self),
    {
        if rom.len() != 0x100 {
            return Err(Errors::BootRomSize);
        }
        let mut i: usize = 0;
        while i < 0x100
            invariant
                i <= 0x100,
                rom@.len() == 0x100,
                forall|j: int| 0 <= j < i ==> self.boot_rom@[j] == rom@[j],
                self.data == old(self).data,
                self.boot_rom_active == old(self).boot_rom_active,
                self.vram_lock == old(self).vram_lock,
                self.oam_lock == old(self).oam_lock,
                self.timer_div_intern == old(self).timer_div_intern,
                self.timer_reload_delay == old(self).timer_reload_delay,
                self.joypad == old(self).joypad,
                self.doctor == old(self).doctor,
            decreases 0x100 - i,
        {
            self.boot_rom[i] = rom[i];
            i += 1;
        }
        self.boot_rom_active = true;
        self.write_slice(0x0000, rom);
        assert(self.boot_rom@ =~= rom@);
        Ok(())
    }

    /// Puts a cartridge image at the start of the store.
    pub fn load_cartridge(&mut self, rom: &[u8]) -> (r: Result<(), Errors>)
        ensures
            rom@.len() <= 0x8000 ==> r.is_ok() && final(self)@ == old(self)@.write_block(0, rom@),
            rom@.len() > 0x8000 ==> r == Err::<(), Errors>(Errors::CartridgeTooLarge) && *final(self) == *old(self),
    {
        if rom.len() > 0x8000 {
            return Err(Errors::CartridgeTooLarge);
        }
        self.write_slice(0x0000, rom);
        Ok(())
    }

    pub fn read_a8(&self, offset: u8) -> (value: u8)
        ensures
            value == self@.read_cpu((0xFF00 + offset) as u16),
    {
        return self.read_byte_as_cpu(0xFF00 + offset as u16);
    }

    pub fn read_byte(&self, address: u16) -> (value: u8)
        ensures
            value == self@.read(address),
    {
        let add = address as usize;
        return self.data[add];
    }

    pub fn read_byte_as_cpu(&self, address: u16) -> (value: u8)
        ensures
            value == self@.read_cpu(address),
    {
        if address < 0x100 && self.boot_rom_active {
            return self.boot_rom[address as usize];
        }
        if self.vram_lock && 0x8000 <= address && address <= 0x9FFF {
            return 0xFF;
        }
        if self.oam_lock && 0xFE00 <= address && address <= 0xFE9F {
            return 0xFF;
        }
        if 0xE000 <= address && address <= 0xFDFF {
            return self.read_byte(address - 0x2000);
        }
        if 0xFEA0 <= address && address <= 0xFEFF {
            return 0xFF;
        }
        if address == JOYP {
            let select = self.read_byte(JOYP);
            let directions: u8 = if select & 0x10 == 0 {
                self.joypad & 0x0F
            } else {
                0
            };
            let actions: u8 = if select & 0x20 == 0 {
                (self.joypad >> 4) & 0x0F
            } else {
                0
            };
            return 0xC0 | (select & 0x30) | (!(directions | actions) & 0x0F);
        }
        if address == DIV {
            return self.timer_div_intern.high_8nibble();
        }
        if address == IF {
            return self.read_byte(IF) | 0xE0;
        }
        if address == LY && self.doctor {
            return 0x90;
        }
        return self.read_byte(address);
    }

    /// Reads at the address whose two bytes are those of `address` in
    /// swapped order.
    pub fn read_2_bytes_from_little_endian_address(&self, address: u16) -> (value: u8)
        ensures
            value == self@.read_cpu(word_from((address / 256) as u8, (address % 256) as u8)),
    {
        let high = address.high_8nibble();
        let low = address.low_8nibble();
        let small_endian_address = word_from_bytes(high, low);
        self.read_byte_as_cpu(small_endian_address)
    }

    pub fn read_2_bytes_little_endian(&self, address: u16) -> (value: u16)
        ensures
            value == self@.read16_cpu(address),
    {
        let low = self.read_byte_as_cpu(address);
        let high = self.read_byte_as_cpu(address.wrapping_add(1));
        word_from_bytes(low, high)
    }

    pub fn read_bytes_range(&self, address: u16, length: u16) -> (bytes: &[u8])
        requires
            address + length <= 0x1_0000,
        ensures
            bytes@ == self@.mem.subrange(address as int, address + length),
    {
        let add = address as usize;
        let len = length as usize;
        let add_end = add + len;
        slice_subrange(self.data.as_slice(), add, add_end)
    }

    /// The bytes of a range of the store, or nothing if the range reaches
    /// past the end of the address space.
    pub fn read_bytes_range_checked(&self, address: u16, length: u16) -> (bytes: Option<&[u8]>)
        ensures
            address + length <= 0x1_0000 ==> bytes.is_some() && bytes.unwrap()@
                == self@.mem.subrange(address as int, address + length),
            address + length > 0x1_0000 ==> bytes.is_none(),
    {
        if address as usize + length as usize > 0x1_0000 {
            None
        } else {
            Some(self.read_bytes_range(address, length))
        }
    }

    /// Read the byte at address + 0x0001
    pub fn read_next_byte(&self, address: u16) -> (value: u8)
        ensures
            value == self@.read_cpu(next_address(address)),
    {
        self.read_byte_as_cpu(address.wrapping_add(0x0001))
    }

    /// The word that follows the opcode at `pc`.
    pub fn get_a16_address(&self, pc: u16) -> (address: u16)
        ensures
            address == self@.read16_cpu(next_address(pc)),
    {
        self.read_2_bytes_little_endian(pc.wrapping_add(1))
    }

    /// The byte at the address that follows the opcode at `pc`.
    pub fn get_a16_value(&self, pc: u16) -> (value: u8)
        ensures
            value == self@.read_cpu(self@.read16_cpu(next_address(pc))),
    {
        self.read_byte_as_cpu(self.get_a16_address(pc))
    }

    /// Writes a word at the address that follows the opcode at `pc`.
    pub fn write_a16(&mut self, pc: u16, value: u16)
        ensures
            final(self)@ == old(self)@.write16_cpu(old(self)@.read16_cpu(next_address(pc)), value),
    {
        let address = self.get_a16_address(pc);
        self.write_2_bytes_little_endian(address, value)
    }

    /// write the byte at address + 0x0001
    pub fn write_next_byte(&mut self, address: u16, value: u8)
        ensures
            final(self)@ == old(self)@.write_cpu(next_address(address), value),
    {
        self.write_byte_as_cpu(address.wrapping_add(0x0001), value);
    }

    pub fn write_byte(&mut self, address: u16, value: u8)
        ensures
            final(self)@ == old(self)@.write(address, value),
    {
        self.data[address as usize] = value;
    }

    /// Copies 160 bytes, as the processor reads them from `page * 256`
    /// onward, into object memory.
    fn dma_transfer(&mut self, page: u8)
        ensures
            final(self)@ == old(self)@.dma(page),
    {
        let mut block: [u8; 160] = [0;160];
        let source: u16 = (page as u16) << 8;
        assert(source == page * 256) by (bit_vector)
            requires
                source == (page as u16) << 8,
        ;
        let mut i: usize = 0;
        while i < 160
            invariant
                i <= 160,
                source == page * 256,
                *self == *old(self),
                forall|j: int| 0 <= j < i ==> block@[j] == self@.read_cpu((source + j) as u16),
            decreases 160 - i,
        {
            block[i] = self.read_byte_as_cpu(source + i as u16);
            i += 1;
        }
        self.data[DMA as usize] = page;
        i = 0;
        while i < 160
            invariant
                i <= 160,
                source == page * 256,
                forall|j: int|
                    0 <= j < 160 ==> block@[j] == old(self)@.read_cpu((source + j) as u16),
                forall|k: int|
                    0xFE00 <= k < 0xFE00 + i ==> #[trigger] self.data@[k] == block@[k - 0xFE00],
                forall|k: int|
                    0 <= k < 0x1_0000 && !(0xFE00 <= k < 0xFE00 + i) ==> #[trigger] self.data@[k]
                        == old(self).data@.update(DMA as int, page)[k],
                self.boot_rom == old(self).boot_rom,
                self.boot_rom_active == old(self).boot_rom_active,
                self.vram_lock == old(self).vram_lock,
                self.oam_lock == old(self).oam_lock,
                self.timer_div_intern == old(self).timer_div_intern,
                self.timer_reload_delay == old(self).timer_reload_delay,
                self.joypad == old(self).joypad,
                self.doctor == old(self).doctor,
            decreases 160 - i,
        {
            self.data[0xFE00 + i] = block[i];
            i += 1;
        }
        assert forall|k: int| 0 <= k < 0x1_0000 implies self@.mem[k] == old(self)@.dma(page).mem[k] by {
            if 0xFE00 <= k < 0xFE00 + 160 {
                assert(self.data@[k] == block@[k - 0xFE00]);
            }
        }
        assert(self@.mem =~= old(self)@.dma(page).mem);
    }

    pub fn write_byte_as_cpu(&mut self, address: u16, value: u8)
        ensures
            final(self)@ == old(self)@.write_cpu(address, value),
    {
        if self.vram_lock && 0x8000 <= address && address <= 0x9FFF {
            return ;
        }
        if self.oam_lock && 0xFE00 <= address && address <= 0xFE9F {
            return ;
        }
        if 0xE000 <= address && address <= 0xFDFF {
            self.write_byte(address - 0x2000, value);
        } else if 0xFEA0 <= address && address <= 0xFEFF {
        } else if address == DIV {
            self.write_byte(DIV, 0);
            self.timer_div_intern = 0;
        } else if address == TIMA {
            self.write_byte(TIMA, value);
            self.timer_reload_delay = 0;
        } else if address == IF {
            self.write_byte(IF, value & 0x1F);
        } else if address == STAT {
            let kept = self.read_byte(STAT) & 0x07;
            self.write_byte(STAT, (value & 0x78) | kept);
        } else if address == LY {
        } else if address == DMA {
            self.dma_transfer(value);
        } else if address == BOOT_OFF {
            self.write_byte(BOOT_OFF, value);
            if value == 0x01 {
                self.boot_rom_active = false;
            }
        } else {
            self.write_byte(address, value)
        }
    }

    pub fn write_2_bytes_little_endian(&mut self, address: u16, value: u16)
        ensures
            final(self)@ == old(self)@.write16_cpu(address, value),
    {
        let high = value.high_8nibble();
        let low = value.low_8nibble();
        self.write_byte_as_cpu(address, low);
        self.write_byte_as_cpu(address.wrapping_add(1), high);
    }

    pub fn write_2_bytes_big_endian(&mut self, address: u16, value: u16)
        ensures
            final(self)@ == old(self)@.write_cpu(address, (value / 256) as u8).write_cpu(
                next_address(address),
                (value % 256) as u8,
            ),
    {
        let high = value.high_8nibble();
        let low = value.low_8nibble();
        self.write_byte_as_cpu(address, high);
        self.write_byte_as_cpu(address.wrapping_add(1), low);
    }

    pub fn write_slice(&mut self, address: u16, slice: &[u8])
        requires
            address + slice@.len() <= 0x1_0000,
        ensures
            final(self)@ == old(self)@.write_block(address, slice@),
    {
        let add = address as usize;
        let mut i: usize = 0;
        while i < slice.len()
            invariant
                i <= slice@.len(),
                add == address,
                address + slice@.len() <= 0x1_0000,
                forall|j: int| 0 <= j < i ==> self.data@[address + j] == slice@[j],
                forall|j: int|
                    0 <= j < 0x1_0000 && !(address <= j < address + i) ==> self.data@[j] == old(self).data@[j],
                self.boot_rom == old(self).boot_rom,
                self.boot_rom_active == old(self).boot_rom_active,
                self.vram_lock == old(self).vram_lock,
                self.oam_lock == old(self).oam_lock,
                self.timer_div_intern == old(self).timer_div_intern,
                self.timer_reload_delay == old(self).timer_reload_delay,
                self.joypad == old(self).joypad,
                self.doctor == old(self).doctor,
            decreases slice@.len() - i,
        {
            self.data[add + i] = slice[i];
            i += 1;
        }
        assert(self@.mem =~= old(self)@.write_block(address, slice@).mem);
    }

    /// Writes a block into the store unless it would reach past the end of
    /// the address space.
    pub fn write_slice_checked(&mut self, address: u16, slice: &[u8]) -> (r: Result<(), Errors>)
        ensures
            address + slice@.len() <= 0x1_0000 ==> r.is_ok() && final(self)@ == old(self)@.write_block(address, slice@),
            address + slice@.len() > 0x1_0000 ==> r == Err::<(), Errors>(Errors::OutOfBusMemory)
                && *final(self) == *old(self),
    {
        if slice.len() > 0x1_0000 || address as usize + slice.len() > 0x1_0000 {
            return Err(Errors::OutOfBusMemory);
        }
        self.write_slice(address, slice);
        Ok(())
    }

    pub fn lock_vram(&mut self)
        ensures
            final(self)@ == (BusView { vram_lock: true, ..old(self)@ }),
    {
        self.vram_lock = true;
    }

    pub fn unlock_vram(&mut self)
        ensures
            final(self)@ == (BusView { vram_lock: false, ..old(self)@ }),
    {
        self.vram_lock = false;
    }

    pub fn lock_oam(&mut self)
        ensures
            final(self)@ == (BusView { oam_lock: true, ..old(self)@ }),
    {
        self.oam_lock = true;
    }

    pub fn unlock_oam(&mut self)
        ensures
            final(self)@ == (BusView { oam_lock: false, ..old(self)@ }),
    {
        self.oam_lock = false;
    }

    pub fn write_bit(&mut self, address: u16, bit: u8, value: bool)
        ensures
            final(self)@ == old(self)@.write_bit(address, bit, value),
    {
        let mut mem = self.read_byte(address);
        mem.set_bit(bit, value);
        self.write_byte(address, mem);
    }

    /// Sets which buttons are held down, and asks for the joypad interrupt
    /// when a button is newly pressed.
    pub fn set_joypad(&mut self, pressed: u8)
        ensures
            final(self)@ == if pressed & !old(self)@.joypad != 0 {
                BusView { joypad: pressed, ..old(self)@.write_bit(IF, 4, true) }
            } else {
                BusView { joypad: pressed, ..old(self)@ }
            },
    {
        let newly = pressed & !self.joypad;
        self.joypad = pressed;
        if newly != 0 {
            self.write_bit(IF, 4, true);
        }
    }

    /// Switches the test hook for the line register on or off.
    pub fn set_doctor(&mut self, on: bool)
        ensures
            final(self)@ == (BusView { doctor: on, ..old(self)@ }),
    {
        self.doctor = on;
    }
}

/// Whether an address lies in memory that the processor reads and writes
/// without side effects: cartridge RAM, work RAM or high RAM.
pub open spec fn is_plain_ram(address: u16) -> bool {
    0xA000 <= address <= 0xDFFF || 0xFF80 <= address <= 0xFFFE
}

/// What the processor writes to plain memory, it reads back; other plain
/// memory keeps what it held.
pub proof fn lemma_plain_ram(bus: BusView, address: u16, value: u8)
    requires
        bus.wf(),
        is_plain_ram(address),
    ensures
        bus.write_cpu(address, value).wf(),
        bus.write_cpu(address, value) == bus.write(address, value),
        bus.write_cpu(address, value).read_cpu(address) == value,
        forall|other: u16|
            other != address && is_plain_ram(other) ==> bus.write_cpu(address, value).read_cpu(
                other,
            ) == bus.read_cpu(other),
{
}

/// A word that the processor writes to plain memory, it reads back.
pub proof fn lemma_plain_word(bus: BusView, address: u16, value: u16)
    requires
        bus.wf(),
        is_plain_ram(address),
        is_plain_ram(next_address(address)),
    ensures
        bus.write16_cpu(address, value).wf(),
        bus.write16_cpu(address, value).read16_cpu(address) == value,
{
    let low = (value % 256) as u8;
    let high = (value / 256) as u8;
    lemma_plain_ram(bus, address, low);
    lemma_plain_ram(bus.write_cpu(address, low), next_address(address), high);
}

/// The scroll of the background.
#[derive(Debug, Clone, Copy, PartialEq, Eq, Structural)]
pub struct BackgroundReg {
    pub scy: u8,
    pub scx: u8,
}

/// The place of the window.
#[derive(Debug, Clone, Copy, PartialEq, Eq, Structural)]
pub struct WindowReg {
    pub wy: u8,
    pub wx: u8,
}

/// The five interrupt sources, in falling priority.
#[derive(Debug, Clone, Copy, PartialEq, Eq, Structural)]
pub enum InteruptType {
    VBlank,
    LCD,
    Timer,
    Serial,
    Joypad,
}

impl InteruptType {
    /// The bit of the interrupt registers that belongs to this source.
    pub open spec fn spec_bit(self) -> u8 {
        match self {
            InteruptType::VBlank => 0,
            InteruptType::LCD => 1,
            InteruptType::Timer => 2,
            InteruptType::Serial => 3,
            InteruptType::Joypad => 4,
        }
    }

    /// The address at which the handler of this source starts.
    pub open spec fn spec_vector(self) -> u16 {
        (0x0040 + 8 * self.spec_bit()) as u16
    }

    /// The source that owns bit `value` of the interrupt registers.
    pub open spec fn spec_from(value: u8) -> InteruptType {
        if value == 0 {
            InteruptType::VBlank
        } else if value == 1 {
            InteruptType::LCD
        } else if value == 2 {
            InteruptType::Timer
        } else if value == 3 {
            InteruptType::Serial
        } else {
            InteruptType::Joypad
        }
    }

    pub fn from(value: u8) -> (kind: InteruptType)
        requires
            value <= 4,
        ensures
            kind == InteruptType::spec_from(value),
            kind.spec_bit() == value,
    {
        match value {
            0 => InteruptType::VBlank,
            1 => InteruptType::LCD,
            2 => InteruptType::Timer,
            3 => InteruptType::Serial,
            _ => InteruptType::Joypad,
        }
    }

    pub fn bit(&self) -> (bit: u8)
        ensures
            bit == self.spec_bit(),
    {
        match self {
            InteruptType::VBlank => 0,
            InteruptType::LCD => 1,
            InteruptType::Timer => 2,
            InteruptType::Serial => 3,
            InteruptType::Joypad => 4,
        }
    }

    pub fn vector(&self) -> (address: u16)
        ensures
            address == self.spec_vector(),
    {
        match self {
            InteruptType::VBlank => 0x0040,
            InteruptType::LCD => 0x0048,
            InteruptType::Timer => 0x0050,
            InteruptType::Serial => 0x0058,
            InteruptType::Joypad => 0x0060,
        }
    }
}

/// The source of highest priority whose bit is set in `bits`.
pub open spec fn lowest_interrupt(bits: u8) -> Option<InteruptType> {
    if byte_bit(bits, 0) {
        Some(InteruptType::VBlank)
    } else if byte_bit(bits, 1) {
        Some(InteruptType::LCD)
    } else if byte_bit(bits, 2) {
        Some(InteruptType::Timer)
    } else if byte_bit(bits, 3) {
        Some(InteruptType::Serial)
    } else if byte_bit(bits, 4) {
        Some(InteruptType::Joypad)
    } else {
        None
    }
}

/// The sources that are both asked for and enabled, one bit each.
pub open spec fn pending_interrupts(bus: BusView) -> u8 {
    (bus.read_cpu(IE) & bus.read_cpu(IF)) & 0x1F
}

fn first_interrupt(bits: u8) -> (kind: Option<InteruptType>)
    ensures
        kind == lowest_interrupt(bits),
{
    let mut i: u8 = 0;
    while i <= 4
        invariant
            i <= 5,
            forall|j: u8| j < i ==> !byte_bit(bits, j),
        decreases 5 - i,
    {
        if bits.get_bit(i) {
            return Some(InteruptType::from(i));
        }
        i += 1;
    }
    None
}

/// The sources of the status interrupt; `Off` when none is selected.
pub enum StatInteruptType {
    Mode0,
    Mode1,
    Mode2,
    LYCEqualLY,
    Off,
}

/// A byte with one of its five low bits set has a source of highest
/// priority, and a byte with none of them set has none.
pub proof fn lemma_pending_has_source(bits: u8)
    ensures
        (bits & 0x1F != 0) <==> lowest_interrupt(bits & 0x1F) is Some,
        lowest_interrupt(bits & 0x1F) == lowest_interrupt(bits),
{
    assert((bits & 0x1F != 0) <==> ((bits & 0x1F) % 2 == 1 || ((bits & 0x1F) / 2) % 2 == 1 || ((bits
        & 0x1F) / 4) % 2 == 1 || ((bits & 0x1F) / 8) % 2 == 1 || ((bits & 0x1F) / 16) % 2 == 1))
        by (bit_vector);
    assert((bits & 0x1F) % 2 == bits % 2 && ((bits & 0x1F) / 2) % 2 == (bits / 2) % 2 && ((bits
        & 0x1F) / 4) % 2 == (bits / 4) % 2 && ((bits & 0x1F) / 8) % 2 == (bits / 8) % 2 && ((bits
        & 0x1F) / 16) % 2 == (bits / 16) % 2) by (bit_vector);
}

/// The interrupt controller: the requests in the flag register and the
/// sources that the enable register lets through.
pub struct InteruptReg {}

impl InteruptReg {
    pub fn new() -> InteruptReg {
        InteruptReg {  }
    }

    /// The requested source of highest priority, enabled or not.
    pub fn query_interupts_flag(&self, bus: &Bus) -> (kind: Option<InteruptType>)
        ensures
            kind == lowest_interrupt(bus@.read_cpu(IF)),
    {
        let is_interupts = self.get_interupt_flag(bus);
        first_interrupt(is_interupts)
    }

    /// The source of highest priority that is requested and enabled.
    pub fn query_interupts_flag_enable(&self, bus: &Bus) -> (kind: Option<InteruptType>)
        ensures
            kind == lowest_interrupt(bus@.read_cpu(IF) & bus@.read_cpu(IE)),
    {
        let is_interupts = self.get_interupt_flag(bus) & self.get_interupt_enable(bus);
        first_interrupt(is_interupts)
    }

    /// The sources that are both asked for and enabled.
    pub fn pending(&self, bus: &Bus) -> (bits: u8)
        ensures
            bits == pending_interrupts(bus@),
    {
        (self.get_interupt_enable(bus) & self.get_interupt_flag(bus)) & 0x1F
    }

    /// The pending source of highest priority.
    pub fn highest_pending(&self, bus: &Bus) -> (kind: Option<InteruptType>)
        ensures
            kind == lowest_interrupt(pending_interrupts(bus@)),
    {
        first_interrupt(self.pending(bus))
    }

    /// Asks for an interrupt of the given source.
    pub fn request(&mut self, bus: &mut Bus, kind: &InteruptType)
        ensures
            final(bus)@ == old(bus)@.write_bit(IF, kind.spec_bit(), true),
    {
        bus.write_bit(IF, kind.bit(), true)
    }

    /// Takes the pending source of highest priority: clears its request and
    /// gives the address of its handler. Nothing happens when none is pending.
    pub fn service(&mut self, bus: &mut Bus) -> (vector: Option<u16>)
        ensures
            match lowest_interrupt(pending_interrupts(old(bus)@)) {
                Some(kind) => vector == Some(kind.spec_vector()) && final(bus)@ == old(bus)@.write_bit(IF, kind.spec_bit(), false),
                None => vector.is_none() && final(bus)@ == old(bus)@,
            },
    {
        let pending = self.pending(bus);
        match first_interrupt(pending) {
            Some(kind) => {
                self.reset_flag(bus, &kind);
                Some(kind.vector())
            },
            None => None,
        }
    }

    /// Clears the request of a source.
    pub fn reset_flag(&mut self, bus: &mut Bus, interupt_type: &InteruptType)
        ensures
            final(bus)@ == old(bus)@.write_bit(IF, interupt_type.spec_bit(), false),
    {
        match interupt_type {
            InteruptType::VBlank => self.set_vblank_flag(bus, false),
            InteruptType::LCD => self.set_lcd_flag(bus, false),
            InteruptType::Timer => self.set_timer_flag(bus, false),
            InteruptType::Serial => self.set_serial_flag(bus, false),
            InteruptType::Joypad => self.set_joypad_flag(bus, false),
        }
    }

    pub fn set_joypad_flag(&mut self, bus: &mut Bus, value: bool)
        ensures
            final(bus)@ == old(bus)@.write_bit(IF, 4, value),
    {
        bus.write_bit(0xFF0F, 4, value)
    }

    pub fn set_serial_flag(&mut self, bus: &mut Bus, value: bool)
        ensures
            final(bus)@ == old(bus)@.write_bit(IF, 3, value),
    {
        bus.write_bit(0xFF0F, 3, value)
    }

    pub fn set_timer_flag(&mut self, bus: &mut Bus, value: bool)
        ensures
            final(bus)@ == old(bus)@.write_bit(IF, 2, value),
    {
        bus.write_bit(0xFF0F, 2, value)
    }

    pub fn set_lcd_flag(&mut self, bus: &mut Bus, value: bool)
        ensures
            final(bus)@ == old(bus)@.write_bit(IF, 1, value),
    {
        bus.write_bit(0xFF0F, 1, value)
    }

    pub fn set_vblank_flag(&mut self, bus: &mut Bus, value: bool)
        ensures
            final(bus)@ == old(bus)@.write_bit(IF, 0, value),
    {
        bus.write_bit(0xFF0F, 0, value)
    }

    pub fn get_joypad_flag(&self, bus: &Bus) -> (set: bool)
        ensures
            set == byte_bit(bus@.read_cpu(IF), 4),
    {
        self.get_interupt_flag(bus).get_bit(4)
    }

    pub fn get_serial_flag(&self, bus: &Bus) -> (set: bool)
        ensures
            set == byte_bit(bus@.read_cpu(IF), 3),
    {
        self.get_interupt_flag(bus).get_bit(3)
    }

    pub fn get_timer_flag(&self, bus: &Bus) -> (set: bool)
        ensures
            set == byte_bit(bus@.read_cpu(IF), 2),
    {
        self.get_interupt_flag(bus).get_bit(2)
    }

    pub fn get_lcd_flag(&self, bus: &Bus) -> (set: bool)
        ensures
            set == byte_bit(bus@.read_cpu(IF), 1),
    {
        self.get_interupt_flag(bus).get_bit(1)
    }

    pub fn get_vblank_flag(&self, bus: &Bus) -> (set: bool)
        ensures
            set == byte_bit(bus@.read_cpu(IF), 0),
    {
        self.get_interupt_flag(bus).get_bit(0)
    }

    pub fn get_interupt_enable(&self, bus: &Bus) -> (value: u8)
        ensures
            value == bus@.read_cpu(IE),
    {
        bus.read_byte_as_cpu(0xFFFF)
    }

    pub fn get_interupt_flag(&self, bus: &Bus) -> (value: u8)
        ensures
            value == bus@.read_cpu(IF),
    {
        bus.read_byte_as_cpu(0xFF0F)
    }

    pub fn is_joypad_enable(&self, bus: &Bus) -> (set: bool)
        ensures
            set == byte_bit(bus@.read_cpu(IE), 4),
    {
        self.get_interupt_enable(bus).get_bit(4)
    }

    pub fn is_serial_enable(&self, bus: &Bus) -> (set: bool)
        ensures
            set == byte_bit(bus@.read_cpu(IE), 3),
    {
        self.get_interupt_enable(bus).get_bit(3)
    }

    pub fn is_timer_enable(&self, bus: &Bus) -> (set: bool)
        ensures
            set == byte_bit(bus@.read_cpu(IE), 2),
    {
        self.get_interupt_enable(bus).get_bit(2)
    }

    pub fn is_lcd_enable(&self, bus: &Bus) -> (set: bool)
        ensures
            set == byte_bit(bus@.read_cpu(IE), 1),
    {
        self.get_interupt_enable(bus).get_bit(1)
    }

    pub fn is_vblank_enable(&self, bus: &Bus) -> (set: bool)
        ensures
            set == byte_bit(bus@.read_cpu(IE), 0),
    {
        self.get_interupt_enable(bus).get_bit(0)
    }
}

/// The mode that the two low bits of a status byte name.
pub open spec fn mode_of_status(status: u8) -> PPUModes {
    if byte_bit(status, 1) {
        if byte_bit(status, 0) {
            PPUModes::Mode3
        } else {
            PPUModes::Mode2
        }
    } else {
        if byte_bit(status, 0) {
            PPUModes::Mode1
        } else {
            PPUModes::Mode0
        }
    }
}

/// The first interrupt selector that is switched on in a status byte.
pub open spec fn stat_selector(status: u8) -> StatInteruptType {
    if byte_bit(status, 3) {
        StatInteruptType::Mode0
    } else if byte_bit(status, 4) {
        StatInteruptType::Mode1
    } else if byte_bit(status, 5) {
        StatInteruptType::Mode2
    } else if byte_bit(status, 6) {
        StatInteruptType::LYCEqualLY
    } else {
        StatInteruptType::Off
    }
}

/// The status register of the display and the line compare register.
pub struct LCDStatusReg {}

impl LCDStatusReg {
    pub fn new() -> LCDStatusReg {
        LCDStatusReg {  }
    }

    pub fn get_lyc(&self, bus: &Bus) -> (value: u8)
        ensures
            value == bus@.read(LYC),
    {
        bus.read_byte(LYC)
    }

    pub fn set_ppu_mode(&mut self, bus: &mut Bus, mode: &PPUModes)
        ensures
            final(bus)@ == old(bus)@.write_bit(STAT, 0, mode.spec_number() % 2 == 1).write_bit(
                STAT,
                1,
                mode.spec_number() >= 2,
            ),
    {
        let (bit_1, bit_0) = match mode {
            PPUModes::Mode0 => (false, false),
            PPUModes::Mode1 => (false, true),
            PPUModes::Mode2 => (true, false),
            PPUModes::Mode3 => (true, true),
        };
        bus.write_bit(0xFF41, 0, bit_0);
        bus.write_bit(0xFF41, 1, bit_1);
    }

    pub fn get_ppu_mode(&self, bus: &Bus) -> (mode: PPUModes)
        ensures
            mode == mode_of_status(bus@.read(STAT)),
    {
        let byte = bus.read_byte(0xFF41);
        let (bit_1, bit_0) = (byte.get_bit(1), byte.get_bit(0));
        match (bit_1, bit_0) {
            (true, true) => PPUModes::Mode3,
            (true, false) => PPUModes::Mode2,
            (false, true) => PPUModes::Mode1,
            (false, false) => PPUModes::Mode0,
        }
    }

    pub fn set_lyc_ly(&mut self, bus: &mut Bus, value: bool)
        ensures
            final(bus)@ == old(bus)@.write_bit(STAT, 2, value),
    {
        bus.write_bit(0xFF41, 2, value);
    }

    pub fn get_stat_mode(&self, bus: &Bus) -> (selector: StatInteruptType)
        ensures
            selector == stat_selector(bus@.read(STAT)),
    {
        let byte = bus.read_byte(0xFF41);
        if byte.get_bit(3) {
            StatInteruptType::Mode0
        } else if byte.get_bit(4) {
            StatInteruptType::Mode1
        } else if byte.get_bit(5) {
            StatInteruptType::Mode2
        } else if byte.get_bit(6) {
            StatInteruptType::LYCEqualLY
        } else {
            StatInteruptType::Off
        }
    }
}

/// The registers that place the window and scroll the background.
pub struct WinBackPosReg {}

impl WinBackPosReg {
    pub fn new() -> WinBackPosReg {
        WinBackPosReg {  }
    }

    /// Return (wx, wy)
    pub fn get_window_pos(&self, bus: &Bus) -> (pos: (u8, u8))
        ensures
            pos == (bus@.read(WX), bus@.read(WY)),
    {
        return (bus.read_byte(0xFF4B), bus.read_byte(0xFF4A));
    }

    /// Return (scx, scy)
    pub fn get_background_scroll(&self, bus: &Bus) -> (pos: (u8, u8))
        ensures
            pos == (bus@.read(SCX), bus@.read(SCY)),
    {
        return (bus.read_byte(0xFF43), bus.read_byte(0xFF42));
    }
}

/// The control register of the display, bit by bit.
pub struct LCDControlReg {}

impl LCDControlReg {
    pub fn new() -> LCDControlReg {
        LCDControlReg {  }
    }

    pub fn lcd_ppu_enable(&self, bus: &Bus) -> (set: bool)
        ensures
            set == byte_bit(bus@.read(LCDC), 7),
    {
        bus.read_byte(0xFF40).get_bit(7)
    }

    pub fn win_tile_map(&self, bus: &Bus) -> (set: bool)
        ensures
            set == byte_bit(bus@.read(LCDC), 6),
    {
        bus.read_byte(0xFF40).get_bit(6)
    }

    pub fn win_enable(&self, bus: &Bus) -> (set: bool)
        ensures
            set == byte_bit(bus@.read(LCDC), 5),
    {
        bus.read_byte(0xFF40).get_bit(5)
    }

    pub fn bg_win_tiles(&self, bus: &Bus) -> (set: bool)
        ensures
            set == byte_bit(bus@.read(LCDC), 4),
    {
        bus.read_byte(0xFF40).get_bit(4)
    }

    pub fn bg_tile_map(&self, bus: &Bus) -> (set: bool)
        ensures
            set == byte_bit(bus@.read(LCDC), 3),
    {
        bus.read_byte(0xFF40).get_bit(3)
    }

    /// Whether objects are 16 lines high rather than 8.
    pub fn obj_size(&self, bus: &Bus) -> (set: bool)
        ensures
            set == byte_bit(bus@.read(LCDC), 2),
    {
        bus.read_byte(0xFF40).get_bit(2)
    }

    pub fn obj_enable(&self, bus: &Bus) -> (set: bool)
        ensures
            set == byte_bit(bus@.read(LCDC), 1),
    {
        bus.read_byte(0xFF40).get_bit(1)
    }

    pub fn bg_win_enable_priority(&self, bus: &Bus) -> (set: bool)
        ensures
            set == byte_bit(bus@.read(LCDC), 0),
    {
        bus.read_byte(0xFF40).get_bit(0)
    }
}

/// One of the forty entries of object memory.
#[derive(Debug, Clone, Copy, PartialEq, Eq, Structural)]
pub struct OAMSprite {
    pub y: u8,
    pub x: u8,
    pub tile_number: u8,
    pub flags: u8,
}

impl OAMSprite {
    #[verifier::when_used_as_spec(spec_render_priority)]
    pub fn render_priority(&self) -> (set: bool)
        ensures
            set == self.spec_render_priority(),
    {
        self.flags.get_bit(7)
    }

    #[verifier::when_used_as_spec(spec_y_flip)]
    pub fn y_flip(&self) -> (set: bool)
        ensures
            set == self.spec_y_flip(),
    {
        self.flags.get_bit(6)
    }

    #[verifier::when_used_as_spec(spec_x_flip)]
    pub fn x_flip(&self) -> (set: bool)
        ensures
            set == self.spec_x_flip(),
    {
        self.flags.get_bit(5)
    }

    #[verifier::when_used_as_spec(spec_palette_number)]
    pub fn palette_number(&self) -> (set: bool)
        ensures
            set == self.spec_palette_number(),
    {
        self.flags.get_bit(4)
    }

    pub open spec fn spec_render_priority(&self) -> bool {
        byte_bit(self.flags, 7)
    }

    pub open spec fn spec_y_flip(&self) -> bool {
        byte_bit(self.flags, 6)
    }

    pub open spec fn spec_x_flip(&self) -> bool {
        byte_bit(self.flags, 5)
    }

    pub open spec fn spec_palette_number(&self) -> bool {
        byte_bit(self.flags, 4)
    }
}

} // verus!
