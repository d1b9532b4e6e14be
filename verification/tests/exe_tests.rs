use r_ps1::exe::{ExeHeader, load_exe, load_pre_exe};
use r_ps1::cpu::Cpu;

fn exe_image() -> Vec<u8> {
    let mut exe = vec![0u8; 2048 + 16];
    exe[0x10..0x14].copy_from_slice(&0x8001_0000u32.to_le_bytes());
    exe[0x14..0x18].copy_from_slice(&0x1234u32.to_le_bytes());
    exe[0x18..0x1C].copy_from_slice(&0x8001_0000u32.to_le_bytes());
    exe[0x1C..0x20].copy_from_slice(&16u32.to_le_bytes());
    exe[0x30..0x34].copy_from_slice(&0x801F_FF00u32.to_le_bytes());
    for i in 0..16 {
        exe[2048 + i] = i as u8 + 1;
    }
    exe
}

#[test]
fn exe_header_fields() {
    let h = ExeHeader::parse(&exe_image());
    assert_eq!(h.initial_pc, 0x8001_0000);
    assert_eq!(h.initial_r28, 0x1234);
    assert_eq!(h.ram_address, 0x1_0000);
    assert_eq!(h.size_2kb, 16);
    assert_eq!(h.initial_sp, 0x801F_FF00);
}

#[test]
fn exe_loads_into_ram_and_registers() {
    let exe = exe_image();
    let mut ram = vec![0u8; 0x2_0000];
    let mut cpu = Cpu::new();
    load_exe(&mut ram, &exe, &mut cpu);
    assert_eq!(&ram[0x1_0000..0x1_0010], &exe[2048..2064]);
    assert_eq!(ram[0x1_0010], 0);
    assert_eq!(cpu.get_pc(), 0x8001_0000);
    assert_eq!(cpu.get_registers()[28], 0x1234);
    assert_eq!(cpu.get_registers()[29], 0x801F_FF00);
    assert_eq!(cpu.get_registers()[30], 0x801F_FF00);
}

#[test]
fn pre_exe_copied_at_masked_address() {
    let mut ram = vec![0u8; 0x100];
    load_pre_exe(&mut ram, &vec![9, 8, 7], 0x8000_0010);
    assert_eq!(&ram[0x10..0x13], &[9, 8, 7]);
    assert_eq!(ram[0x13], 0);
}
