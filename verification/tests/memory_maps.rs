use i8080::balloon_memory::BalloonBombersMemory;
use i8080::invaders_memory::SpaceInvadersMemory;
use i8080::memory_bus::MemoryMap;
use i8080::test_memory::TestMemory;

fn image(fill: u8, len: usize) -> Vec<u8> {
    vec![fill; len]
}

#[test]
fn invaders_rom_images_are_laid_out_in_order() {
    let roms = vec![image(0x11, 0x800), image(0x22, 0x800), image(0x33, 0x800), image(0x44, 0x10)];
    let mut m = SpaceInvadersMemory::new(&roms);
    assert_eq!(m.read(0x0000), 0x11);
    assert_eq!(m.read(0x07FF), 0x11);
    assert_eq!(m.read(0x0800), 0x22);
    assert_eq!(m.read(0x1000), 0x33);
    assert_eq!(m.read(0x1800), 0x44);
    assert_eq!(m.read(0x180F), 0x44);
    assert_eq!(m.read(0x1810), 0x00);
    assert_eq!(m.read(0x1FFF), 0x00);
}

#[test]
fn invaders_ram_reads_back_writes_and_rom_ignores_them() {
    let roms = vec![image(0xAA, 0x800), Vec::new(), Vec::new(), Vec::new()];
    let mut m = SpaceInvadersMemory::new(&roms);
    m.write(0x0010, 0x55);
    assert_eq!(m.read(0x0010), 0xAA);
    m.write(0x2005, 0x12);
    assert_eq!(m.read(0x2005), 0x12);
    assert_eq!(m.read(0x4005), 0x12);
    m.write(0x3FFF, 0x34);
    assert_eq!(m.read(0x3FFF), 0x34);
    m.write(0x4006, 0x99);
    assert_eq!(m.read(0x2006), 0x00);
    assert_eq!(m.read(0x43FF), m.read(0x23FF));
}

#[test]
fn invaders_slices_run_to_the_end_of_their_region() {
    let roms = vec![image(1, 0x800), image(2, 0x800), image(3, 0x800), image(4, 0x800)];
    let mut m = SpaceInvadersMemory::new(&roms);
    assert_eq!(m.read_slice(0x0000).len(), 0x1FFF);
    assert_eq!(m.read_slice(0x1FFE), &[4]);
    assert_eq!(m.read_slice(0x2000).len(), 0x400);
    assert_eq!(m.read_slice(0x2400).len(), 0x1C00);
    assert_eq!(m.read_slice(0x43FF).len(), 1);
    assert_eq!(m.read_slice(0x4400).len(), 0);
}

#[test]
fn balloon_rom_images_and_mirror() {
    let roms = vec![
        image(1, 0x800),
        image(2, 0x800),
        image(3, 0x800),
        image(4, 0x800),
        image(5, 0x800),
    ];
    let mut m = BalloonBombersMemory::new(&roms);
    assert_eq!(m.read(0x0000), 1);
    assert_eq!(m.read(0x1800), 4);
    assert_eq!(m.read(0x4000), 5);
    assert_eq!(m.read(0x47FF), 5);
    assert_eq!(m.read(0x2000), 0);
    m.write(0x2001, 0x77);
    assert_eq!(m.read(0x4801), 0x77);
    m.write(0x4802, 0x66);
    assert_eq!(m.read(0x2002), 0);
    m.write(0x2401, 0x88);
    assert_eq!(m.read(0x2401), 0x88);
    assert_eq!(m.read_slice(0x4000).len(), 0x7FF);
    assert_eq!(m.read_slice(0x4BFF).len(), 1);
}

#[test]
fn test_memory_loads_program_at_0x100() {
    let mut m = TestMemory::new(&[0xC3, 0x00, 0x01]);
    assert_eq!(m.read(0xFF), 0);
    assert_eq!(m.read(0x100), 0xC3);
    assert_eq!(m.read(0x102), 0x01);
    m.write(0xFFFF, 9);
    assert_eq!(m.read(0xFFFF), 9);
    assert_eq!(m.read_slice(0xFFFE), &[0, 9]);
    m.load_rom(&[vec![7, 8]]);
    assert_eq!(m.memory[0x100], 7);
    assert_eq!(m.memory[0x101], 8);
    assert_eq!(m.memory[0x102], 0x01);
}

#[test]
fn read_slice_runs_to_the_end_of_its_bank() {
    let roms = vec![image(0x11, 0x800), image(0x22, 0x800), image(0x33, 0x800), image(0x44, 0x800)];
    let mut m = SpaceInvadersMemory::new(&roms);
    assert_eq!(m.read_slice(0x23F0).len(), 0x10);
    assert_eq!(m.read_slice(0x3FFF).len(), 1);
    assert_eq!(m.read_slice(0x1FF0).len(), 0xF);
}
