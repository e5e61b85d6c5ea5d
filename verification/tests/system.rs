use nestify::bus::Bus;
use nestify::cartridge::Cartridge;
use nestify::cartridge::CartridgeError;
use nestify::clock::Clock;
use nestify::cpu::AddressingMode;
use nestify::cpu::Cpu;
use nestify::mapper000::Mapper000;
use nestify::memorymap::cpu::CpuMemoryMap;
use nestify::memorymap::ppu::PpuMemoryMap;
use nestify::ppu::Mirroring;
use nestify::ppu::Ppu;
use nestify::ppu::screenbuffer::ScreenBuffer;
use nestify::registers::address::PpuAddressRegister;
use nestify::registers::cpu_status::CpuStatusRegisterFlags;
use nestify::registers::scroll::PpuScrollRegister;
use nestify::registers::vram::PpuVRamRegister;

fn fresh_cpu() -> Cpu {
    let cartridge = Cartridge::empty();
    let bus = Bus::new(&cartridge);
    let clock = Clock::new();
    Cpu::new(bus, clock)
}

/// A minimal iNES image: one 16 KiB PRG bank, one 8 KiB CHR bank.
fn build_rom(flags6: u8, prg: &[(usize, u8)]) -> Vec<u8> {
    let mut rom = vec![0x4E, 0x45, 0x53, 0x1A, 1, 1, flags6, 0, 0, 0, 0, 0, 0, 0, 0, 0];
    let mut prg_bank = vec![0u8; 16 * 1024];
    for &(offset, value) in prg {
        prg_bank[offset] = value;
    }
    rom.extend_from_slice(&prg_bank);
    rom.extend_from_slice(&vec![0u8; 8 * 1024]);
    rom
}

#[test]
fn test_ram_mirroring_reads() {
    let mut cpu = fresh_cpu();
    for k in 0..0x800u16 {
        cpu.write(k, (k & 0xFF) as u8);
    }
    for k in 0..0x1800u16 {
        assert_eq!(cpu.read(k + 0x800), cpu.read(k), "mirrored cell {k:#06X}");
    }
}

#[test]
fn test_palette_backdrop_aliasing() {
    let cartridge = Cartridge::empty();
    let mut bus = Bus::new(&cartridge);
    for (i, alias) in [0x3F10u16, 0x3F14, 0x3F18, 0x3F1C].into_iter().enumerate() {
        let value = 0xA0 + i as u8;
        bus.ppu_write(alias, value);
        assert_eq!(bus.ppu_read(alias - 0x10), value, "alias {alias:#06X}");
    }
}

#[test]
fn test_one_nmi_edge_per_frame() {
    let cartridge = Cartridge::empty();
    let mut bus = Bus::new(&cartridge);
    bus.cpu_write(0x2000, 0x80);
    let mut edges: usize = 0;
    for _ in 0..(341 * 262 * 2) {
        let nmi = bus.ppu.tick(&bus.ppu_memory_map, &bus.mapper, 1);
        if nmi {
            edges += 1;
        }
    }
    assert_eq!(edges, 2, "one NMI edge per frame over two frames");
}

#[test]
fn test_indirect_jmp_page_wrap() {
    let mut cpu = fresh_cpu();
    cpu.write(0x02FF, 0x34);
    cpu.write(0x0200, 0x56);
    cpu.write(0x0300, 0x78);
    cpu.write(0x0000, 0xFF);
    cpu.write(0x0001, 0x02);
    cpu.program_counter = 0x0000;
    cpu.execute_jmp(&AddressingMode::Indirect);
    assert_eq!(cpu.program_counter, 0x5634, "high byte must wrap within the page");
}

#[test]
fn test_adc_overflow_flags() {
    let mut cpu = fresh_cpu();
    cpu.register_a = 0x50;
    cpu.write(0x0000, 0x50);
    cpu.program_counter = 0x0000;
    cpu.status.set_flag(CpuStatusRegisterFlags::Carry, false);
    cpu.execute_adc(&AddressingMode::Immediate);
    assert_eq!(cpu.register_a, 0xA0);
    assert!(cpu.status.get_flag(CpuStatusRegisterFlags::Negative));
    assert!(cpu.status.get_flag(CpuStatusRegisterFlags::Overflow));
    assert!(!cpu.status.get_flag(CpuStatusRegisterFlags::Zero));
    assert!(!cpu.status.get_flag(CpuStatusRegisterFlags::Carry));
}

#[test]
fn test_sbc_borrow_flags() {
    let mut cpu = fresh_cpu();
    cpu.register_a = 0x50;
    cpu.write(0x0000, 0xF0);
    cpu.program_counter = 0x0000;
    cpu.status.set_flag(CpuStatusRegisterFlags::Carry, true);
    cpu.execute_sbc(&AddressingMode::Immediate);
    assert_eq!(cpu.register_a, 0x60);
    assert!(!cpu.status.get_flag(CpuStatusRegisterFlags::Negative));
    assert!(!cpu.status.get_flag(CpuStatusRegisterFlags::Overflow));
    assert!(!cpu.status.get_flag(CpuStatusRegisterFlags::Zero));
    assert!(!cpu.status.get_flag(CpuStatusRegisterFlags::Carry));
}

#[test]
fn test_adc_then_sbc_round_trip() {
    for &(a, m, c) in &[(0x50u8, 0xF0u8, false), (0x01, 0xFF, false), (0x80, 0x20, true)] {
        let mut cpu = fresh_cpu();
        cpu.register_a = a;
        cpu.write(0x0000, m);
        cpu.program_counter = 0x0000;
        cpu.status.set_flag(CpuStatusRegisterFlags::Carry, c);
        cpu.execute_adc(&AddressingMode::Immediate);
        let carry_after = cpu.status.get_flag(CpuStatusRegisterFlags::Carry);
        assert_ne!(carry_after, c, "chosen inputs must flip the carry");
        cpu.program_counter = 0x0000;
        cpu.execute_sbc(&AddressingMode::Immediate);
        assert_eq!(cpu.register_a, a, "ADC then SBC returns the accumulator");
    }
}

#[test]
fn test_php_plp_round_trip_bits() {
    let mut cpu = fresh_cpu();
    cpu.status.set(0b1100_1011);
    cpu.execute_php(&AddressingMode::Implicit);
    let pushed = cpu.read(0x0100 + cpu.stack_pointer.wrapping_add(1) as u16);
    assert_eq!(pushed, 0b1101_1011, "pushed byte carries break set");
    cpu.execute_plp(&AddressingMode::Implicit);
    assert_eq!(cpu.status.get() & 0xCF, 0b1100_1011 & 0xCF, "live bits round-trip");
    assert_eq!(cpu.status.get() & 0x10, 0, "break reads back clear");
    assert_eq!(cpu.status.get() & 0x20, 0x20, "unused reads back set");
}

#[test]
fn test_txs_keeps_flags() {
    let mut cpu = fresh_cpu();
    cpu.status.set(0b1010_1010);
    cpu.register_x = 0x00;
    cpu.execute_txs(&AddressingMode::Implicit);
    assert_eq!(cpu.status.get(), 0b1010_1010, "TXS never mutates flags");
    assert_eq!(cpu.stack_pointer, 0x00);
}

#[test]
fn test_oamdma_upload_and_stall() {
    let mut cpu = fresh_cpu();
    for k in 0..=0xFFu16 {
        cpu.write(0x0200 + k, k as u8);
    }
    let cycles_before = cpu.clock.get_cycles();
    cpu.write(0x4014, 0x02);
    let delta = cpu.clock.get_cycles() - cycles_before;
    assert!(delta == 513 || delta == 514, "DMA stalls 513 or 514 cycles, took {delta}");
    let oam = cpu.bus.ppu_memory_map().get_oam();
    for k in 0..256usize {
        assert_eq!(oam[k], k as u8, "OAM byte {k}");
    }
}

#[test]
fn test_nametable_mirroring_horizontal() {
    let cartridge = Cartridge::new(build_rom(0x00, &[])).expect("well-formed image");
    assert_eq!(cartridge.get_mirroring(), Mirroring::Horizontal);
    let mut bus = Bus::new(&cartridge);
    bus.ppu_write(0x2400, 0xAB);
    assert_eq!(bus.ppu_read(0x2000), 0xAB);
}

#[test]
fn test_nametable_mirroring_vertical() {
    let cartridge = Cartridge::new(build_rom(0x01, &[])).expect("well-formed image");
    assert_eq!(cartridge.get_mirroring(), Mirroring::Vertical);
    let mut bus = Bus::new(&cartridge);
    bus.ppu_write(0x2800, 0xAB);
    assert_eq!(bus.ppu_read(0x2000), 0xAB);
}

#[test]
fn test_trace_first_line() {
    // A program whose first instruction, at the reset vector, jumps.
    let prg = [
        (0x0000, 0x4C),
        (0x0001, 0xF5),
        (0x0002, 0xC5),
        (0x3FFC, 0x00),
        (0x3FFD, 0xC0),
    ];
    let cartridge = Cartridge::new(build_rom(0x00, &prg)).expect("well-formed image");
    let bus = Bus::new(&cartridge);
    let clock = Clock::new();
    let mut cpu = Cpu::new(bus, clock);
    cpu.use_disassembler(true);
    cpu.reset();
    assert_eq!(cpu.program_counter, 0xC000);
    cpu.fetch();
    assert_eq!(cpu.program_counter, 0xC5F5);
    let expected = format!("{:<47} A:00 X:00 Y:00 P:24 SP:FD", "C000  4C F5 C5  JMP $C5F5");
    assert_eq!(cpu.trace[0], expected);
}

#[test]
fn test_reset_state() {
    let prg = [(0x3FFC, 0x34), (0x3FFD, 0x12)];
    let cartridge = Cartridge::new(build_rom(0x00, &prg)).expect("well-formed image");
    let bus = Bus::new(&cartridge);
    let mut cpu = Cpu::new(bus, Clock::new());
    cpu.register_a = 9;
    cpu.reset();
    assert_eq!(cpu.register_a, 0);
    assert_eq!(cpu.register_x, 0);
    assert_eq!(cpu.register_y, 0);
    assert_eq!(cpu.status.get(), 0x24);
    assert_eq!(cpu.stack_pointer, 0xFD);
    assert_eq!(cpu.program_counter, 0x1234);
    assert_eq!(cpu.clock.get_cycles(), 14);
}

#[test]
fn test_fetch_charges_base_cycles() {
    // NOP at the reset vector: two cycles, two bytes of PC movement
    // for the one-byte opcode plus none.
    let prg = [(0x0000, 0xEA), (0x3FFC, 0x00), (0x3FFD, 0xC0)];
    let cartridge = Cartridge::new(build_rom(0x00, &prg)).expect("well-formed image");
    let mut cpu = Cpu::new(Bus::new(&cartridge), Clock::new());
    cpu.reset();
    let before = cpu.clock.get_cycles();
    cpu.fetch();
    assert_eq!(cpu.clock.get_cycles() - before, 2);
    assert_eq!(cpu.program_counter, 0xC001);
}

#[test]
fn test_fetch_services_nmi() {
    let prg = [(0x3FFA, 0x00), (0x3FFB, 0x90), (0x3FFC, 0x00), (0x3FFD, 0xC0)];
    let cartridge = Cartridge::new(build_rom(0x00, &prg)).expect("well-formed image");
    let mut cpu = Cpu::new(Bus::new(&cartridge), Clock::new());
    cpu.reset();
    cpu.bus.set_interrupt(Some(()));
    let before = cpu.clock.get_cycles();
    cpu.fetch();
    assert_eq!(cpu.program_counter, 0x9000, "vectors through 0xFFFA");
    assert_eq!(cpu.clock.get_cycles() - before, 7);
    assert!(cpu.bus.get_interrupt().is_none(), "the edge is consumed");
    let pushed_status = cpu.read(0x0100 + cpu.stack_pointer.wrapping_add(1) as u16);
    assert_eq!(pushed_status & 0x10, 0, "break clear in the pushed byte");
    assert_eq!(pushed_status & 0x20, 0x20, "unused set in the pushed byte");
}

#[test]
fn test_cartridge_rejects_bad_magic() {
    let mut rom = build_rom(0x00, &[]);
    rom[0] = 0x4D;
    assert!(matches!(Cartridge::new(rom), Err(CartridgeError::InvalidMagic)));
}

#[test]
fn test_cartridge_rejects_short_file() {
    assert!(matches!(Cartridge::new(vec![0x4E, 0x45, 0x53]), Err(CartridgeError::Truncated)));
    let mut rom = build_rom(0x00, &[]);
    rom.truncate(1000);
    assert!(matches!(Cartridge::new(rom), Err(CartridgeError::Truncated)));
}

#[test]
fn test_cartridge_rejects_unknown_mapper() {
    let mut rom = build_rom(0x00, &[]);
    rom[7] = 0x10;
    assert!(matches!(Cartridge::new(rom), Err(CartridgeError::UnsupportedMapper)));
}

#[test]
fn test_cartridge_rejects_bad_sizes() {
    let mut rom = build_rom(0x00, &[]);
    rom[4] = 3;
    assert!(matches!(Cartridge::new(rom), Err(CartridgeError::InvalidPrgRomSize)));
    let mut rom = build_rom(0x00, &[]);
    rom[5] = 2;
    assert!(matches!(Cartridge::new(rom), Err(CartridgeError::InvalidChrRomSize)));
}

#[test]
fn test_cartridge_accepts_four_screen() {
    let cartridge = Cartridge::new(build_rom(0x08, &[])).expect("well-formed image");
    assert_eq!(cartridge.get_mirroring(), Mirroring::FourScreen);
}

#[test]
fn test_mapper_prg_mirroring() {
    let cartridge = Cartridge::new(build_rom(0x00, &[(0x0123, 0x7E)])).expect("image");
    let mapper = cartridge.get_mapper();
    assert_eq!(mapper.cpu_read(0x8123), 0x7E, "first bank");
    assert_eq!(mapper.cpu_read(0xC123), 0x7E, "mirrored bank");
    assert_eq!(mapper.cpu_read(0x5000), 0x00, "no PRG RAM on this board");
}

#[test]
fn test_prg_rom_write_records_fault() {
    let mut cpu = fresh_cpu();
    assert!(cpu.bus.fault.is_none());
    cpu.write(0x8000, 0x12);
    assert!(cpu.bus.fault.is_some());
}

#[test]
fn test_vram_register_round_trip() {
    let mut vram = PpuVRamRegister::new();
    vram.set(0x2C1F);
    assert_eq!(vram.get(), 0x2C1F);
    assert_eq!(vram.get_coarse_x(), 0x1F);
    assert_eq!(vram.get_coarse_y(), 0x00);
    assert_eq!(vram.get_nametable_x(), 1);
    assert_eq!(vram.get_nametable_y(), 1);
    assert_eq!(vram.get_fine_y(), 2);
    vram.set_fine_y(5);
    assert_eq!(vram.get_fine_y(), 5);
    assert_eq!(vram.get(), 0x1C1F, "the packed address keeps fourteen bits");
}

#[test]
fn test_address_register_latch() {
    let mut address = PpuAddressRegister::new();
    address.set(0x21);
    address.set(0x08);
    assert_eq!(address.get_address(), 0x2108);
    address.set_address(0x7FFF);
    assert_eq!(address.get_address(), 0x3FFF, "addresses fold into 14 bits");
    address.reset_latch();
    address.set(0x12);
    assert_eq!(address.get_address(), 0x12FF, "the first write replaces the high byte");
}

#[test]
fn test_scroll_register_latch() {
    let mut scroll = PpuScrollRegister::new();
    scroll.set(0x12);
    scroll.set(0x34);
    assert_eq!(scroll.get_scroll(), (0x12, 0x34));
    scroll.reset_latch();
    scroll.set(0x56);
    assert_eq!(scroll.get_scroll(), (0x56, 0x34));
}

#[test]
fn test_ppu_status_read_side_effects() {
    let cartridge = Cartridge::empty();
    let mut bus = Bus::new(&cartridge);
    bus.ppu.status.set(0xE3);
    bus.ppu.address_latch = true;
    let value = bus.cpu_read(0x2002);
    assert_eq!(value, 0xE0, "top bits over the stale buffer bits");
    assert_eq!(bus.ppu.status.get() & 0x80, 0, "vblank cleared by the read");
    assert!(!bus.ppu.address_latch, "write toggle cleared by the read");
}

#[test]
fn test_ppudata_buffered_reads() {
    let cartridge = Cartridge::empty();
    let mut bus = Bus::new(&cartridge);
    bus.ppu_write(0x2005, 0x77);
    bus.cpu_write(0x2006, 0x20);
    bus.cpu_write(0x2006, 0x05);
    let stale = bus.cpu_read(0x2007);
    assert_eq!(stale, 0x00, "first read returns the stale buffer");
    bus.cpu_write(0x2006, 0x20);
    bus.cpu_write(0x2006, 0x05);
    let fresh = bus.cpu_read(0x2007);
    assert_eq!(fresh, 0x77, "second pass returns the buffered byte");
}

#[test]
fn test_ppudata_address_increment() {
    let cartridge = Cartridge::empty();
    let mut bus = Bus::new(&cartridge);
    bus.cpu_write(0x2000, 0x00);
    bus.cpu_write(0x2006, 0x20);
    bus.cpu_write(0x2006, 0x00);
    bus.cpu_write(0x2007, 0x11);
    bus.cpu_write(0x2007, 0x22);
    assert_eq!(bus.ppu_read(0x2000), 0x11);
    assert_eq!(bus.ppu_read(0x2001), 0x22);
    bus.cpu_write(0x2000, 0x04);
    bus.cpu_write(0x2006, 0x21);
    bus.cpu_write(0x2006, 0x00);
    bus.cpu_write(0x2007, 0x33);
    bus.cpu_write(0x2007, 0x44);
    assert_eq!(bus.ppu_read(0x2100), 0x33);
    assert_eq!(bus.ppu_read(0x2120), 0x44, "row stepping adds 32");
}

#[test]
fn test_oamdata_port() {
    let cartridge = Cartridge::empty();
    let mut bus = Bus::new(&cartridge);
    bus.cpu_write(0x2003, 0x10);
    bus.cpu_write(0x2004, 0xAB);
    bus.cpu_write(0x2004, 0xCD);
    bus.cpu_write(0x2003, 0x10);
    assert_eq!(bus.cpu_read(0x2004), 0xAB);
    bus.cpu_write(0x2003, 0x11);
    assert_eq!(bus.cpu_read(0x2004), 0xCD);
}

#[test]
fn test_controller_write_during_vblank_raises_nmi() {
    let cartridge = Cartridge::empty();
    let mut bus = Bus::new(&cartridge);
    bus.ppu.status.set(0x80);
    assert!(bus.get_interrupt().is_none());
    bus.cpu_write(0x2000, 0x80);
    assert!(bus.get_interrupt().is_some(), "enabling NMI inside vblank raises one");
    assert!(bus.poll_interrupt().is_some());
    assert!(bus.get_interrupt().is_none(), "polling consumes the edge");
}

#[test]
fn test_screen_buffer_bounds() {
    let mut buffer = ScreenBuffer::new(256, 240);
    buffer.set_pixel(10, 20, 0x2A);
    assert_eq!(buffer.get_pixel(10, 20), 0x2A);
    buffer.set_pixel(300, 239, 0x11);
    assert_eq!(buffer.get_pixel(10, 20), 0x2A, "out-of-range writes are dropped");
}

#[test]
fn test_clock_counts() {
    let mut clock = Clock::new();
    assert_eq!(clock.get_cycles(), 7);
    clock.tick(3);
    assert_eq!(clock.get_cycles(), 10);
    clock.reset();
    assert_eq!(clock.get_cycles(), 7);
}

#[test]
fn test_flat_memory_map() {
    let mut map: nestify::memorymap::MemoryMap<64> = nestify::memorymap::MemoryMap::new();
    map.write(7, 0x3D);
    assert_eq!(map.read(7), 0x3D);
    assert_eq!(map.read(8), 0x00);
}

#[test]
fn test_memory_map_cells() {
    let mut ram = CpuMemoryMap::new();
    ram.write(0x1801, 0x5C);
    assert_eq!(ram.read(0x0001), 0x5C, "the window folds every 2 KiB");
    let mut map = PpuMemoryMap::new();
    let mut mapper = Mapper000::new(vec![0; 0x4000], vec![0; 0x2000]);
    map.write(&mut mapper, 0x2005, 0x66);
    assert_eq!(map.read(&mapper, 0x3005), 0x66, "0x3000 aliases the nametables");
    map.write(&mut mapper, 0x0105, 0x42);
    assert_eq!(map.read(&mapper, 0x0105), 0x42, "pattern writes land in CHR memory");
    map.set_oam_value(3, 0x99);
    assert_eq!(map.get_oam()[3], 0x99);
}

#[test]
fn test_ppu_frame_counters() {
    let cartridge = Cartridge::empty();
    let mut ppu = Ppu::new(cartridge.get_mirroring());
    let map = PpuMemoryMap::new();
    let mapper = cartridge.get_mapper();
    assert_eq!(ppu.scanline, 0);
    for _ in 0..341 {
        ppu.tick(&map, &mapper, 1);
    }
    assert_eq!(ppu.scanline, 1);
    assert_eq!(ppu.cycles, 0);
}

#[test]
fn test_controller_index_accessors() {
    let cartridge = Cartridge::empty();
    let mut ppu = Ppu::new(cartridge.get_mirroring());
    let raised = ppu.write_controller(0x1B);
    assert!(!raised);
    assert_eq!(ppu.get_nametable_index(), 3);
    assert_eq!(ppu.get_bg_pattern_table_index(), 1);
    assert_eq!(ppu.get_spr_patter_table_index(), 1);
    ppu.write_controller(0x00);
    assert_eq!(ppu.get_nametable_index(), 0);
    assert_eq!(ppu.get_bg_pattern_table_index(), 0);
    assert_eq!(ppu.get_spr_patter_table_index(), 0);
}

#[test]
fn test_second_nametable_index() {
    let horizontal = Ppu::new(Mirroring::Horizontal);
    assert_eq!(horizontal.get_second_nametable_index(0), 2);
    assert_eq!(horizontal.get_second_nametable_index(2), 0);
    let vertical = Ppu::new(Mirroring::Vertical);
    assert_eq!(vertical.get_second_nametable_index(0), 1);
    assert_eq!(vertical.get_second_nametable_index(1), 0);
}

#[test]
fn test_sprite_zero_scan_test() {
    let cartridge = Cartridge::empty();
    let mut ppu = Ppu::new(cartridge.get_mirroring());
    let mut map = PpuMemoryMap::new();
    map.set_oam_value(0, 12);
    map.set_oam_value(3, 40);
    ppu.scanline = 12;
    ppu.write_mask(0x10);
    assert!(ppu.is_sprite_zero_hit(&map, 40));
    assert!(!ppu.is_sprite_zero_hit(&map, 39), "dot before the sprite");
    ppu.scanline = 13;
    assert!(!ppu.is_sprite_zero_hit(&map, 40), "wrong scanline");
    ppu.scanline = 12;
    ppu.write_mask(0x00);
    assert!(!ppu.is_sprite_zero_hit(&map, 40), "sprites disabled");
}

#[test]
fn test_odd_frame_dot_skip() {
    let cartridge = Cartridge::empty();
    let mut ppu = Ppu::new(cartridge.get_mirroring());
    let map = PpuMemoryMap::new();
    let mapper = cartridge.get_mapper();
    ppu.write_mask(0x08);
    ppu.scanline = -1;
    ppu.cycles = 338;
    ppu.odd_frame = true;
    ppu.tick(&map, &mapper, 1);
    assert_eq!(ppu.cycles, 340, "odd pre-render line drops dot 339");
    let mut even = Ppu::new(cartridge.get_mirroring());
    even.write_mask(0x08);
    even.scanline = -1;
    even.cycles = 338;
    even.tick(&map, &mapper, 1);
    assert_eq!(even.cycles, 339, "even frames keep the full line");
    let mut blanked = Ppu::new(cartridge.get_mirroring());
    blanked.scanline = -1;
    blanked.cycles = 338;
    blanked.odd_frame = true;
    blanked.tick(&map, &mapper, 1);
    assert_eq!(blanked.cycles, 339, "no skip while background rendering is off");
}

#[test]
fn test_odd_frame_parity_toggles() {
    let cartridge = Cartridge::empty();
    let mut ppu = Ppu::new(cartridge.get_mirroring());
    let map = PpuMemoryMap::new();
    let mapper = cartridge.get_mapper();
    assert!(!ppu.odd_frame);
    for _ in 0..(341 * 262) {
        ppu.tick(&map, &mapper, 1);
    }
    assert!(ppu.odd_frame, "parity flips at the frame wrap");
}

#[test]
fn test_frame_ready_without_nmi() {
    // The finished-frame flag follows the vertical-blank rise, so a
    // host sees frames even with the NMI disabled in PPUCTRL.
    let prg = [(0x0000, 0xEA), (0x3FFC, 0x00), (0x3FFD, 0xC0)];
    let cartridge = Cartridge::new(build_rom(0x00, &prg)).expect("well-formed image");
    let mut cpu = Cpu::new(Bus::new(&cartridge), Clock::new());
    cpu.reset();
    let mut frames: usize = 0;
    for _ in 0..20000 {
        cpu.fetch();
        if cpu.take_frame_ready() {
            frames += 1;
        }
    }
    assert!(frames >= 1, "a frame completed while the NMI stayed disabled");
    assert!(cpu.bus.get_interrupt().is_none(), "no NMI was ever latched");
}

#[test]
fn test_dot_counter_tracks_cycles() {
    let mut cpu = fresh_cpu();
    let dots_before = cpu.bus.ppu.dot_counter;
    let cycles_before = cpu.clock.get_cycles();
    cpu.write(0x0000, 0xEA);
    cpu.program_counter = 0x0000;
    cpu.fetch();
    let dots = cpu.bus.ppu.dot_counter - dots_before;
    let cycles = cpu.clock.get_cycles() - cycles_before;
    assert_eq!(dots, 3 * cycles, "three PPU dots per CPU cycle");
}

#[test]
fn test_rotate_zero_flag_from_result() {
    let mut cpu = fresh_cpu();
    cpu.status.set_flag(CpuStatusRegisterFlags::Carry, true);
    cpu.write(0x0000, 0x80);
    cpu.program_counter = 0x0010;
    cpu.write(0x0010, 0x00);
    cpu.execute_ror(&AddressingMode::ZeroPage);
    assert_eq!(cpu.read(0x0000), 0xC0);
    assert!(!cpu.status.get_flag(CpuStatusRegisterFlags::Zero), "non-zero result clears zero");
    let mut wraps = fresh_cpu();
    wraps.status.set_flag(CpuStatusRegisterFlags::Carry, false);
    wraps.write(0x0000, 0x01);
    wraps.program_counter = 0x0010;
    wraps.write(0x0010, 0x00);
    wraps.execute_ror(&AddressingMode::ZeroPage);
    assert_eq!(wraps.read(0x0000), 0x00);
    assert!(wraps.status.get_flag(CpuStatusRegisterFlags::Zero), "zero result sets zero");
    assert!(wraps.status.get_flag(CpuStatusRegisterFlags::Carry), "outgoing bit enters carry");
}
