use i8080::cpu::Cpu;
use i8080::display::{draw_byte, draw_frame, pixel_color, Pixel, PixelColor};
use i8080::instruction::Instruction;
use i8080::invaders_io::{Key, SpaceInvadersIO};
use i8080::machine::MachineIO;

#[test]
fn fixed_input_ports() {
    let mut io = SpaceInvadersIO::new();
    assert_eq!(io.machine_in(0), 0x0F);
    assert_eq!(io.machine_in(1), 0);
    assert_eq!(io.machine_in(2), 0);
    assert_eq!(io.machine_in(3), 0);
}

#[test]
fn shift_register_reads_at_the_offset() {
    let mut io = SpaceInvadersIO::new();
    io.machine_out(4, 0xAA);
    io.machine_out(4, 0xBB);
    io.machine_out(2, 3);
    assert_eq!(io.machine_in(3), 0xDD);
    io.machine_out(2, 0);
    assert_eq!(io.machine_in(3), 0xBB);
    io.machine_out(2, 0xFF);
    assert_eq!(io.machine_in(3), 0xD5);
    io.machine_out(3, 0x12);
    io.machine_out(5, 0x34);
    io.machine_out(6, 0x56);
    assert_eq!(io.machine_in(3), 0xD5);
}

#[test]
fn releasing_a_pressed_key() {
    let mut io = SpaceInvadersIO::new();
    io.press(Key::from_bits(Key::CREDIT | Key::SHOOT1P));
    io.press(Key::from_bits(Key::LEFT2P));
    assert_eq!(io.keyboard().bits, Key::CREDIT | Key::SHOOT1P | Key::LEFT2P);
    io.release(Key::from_bits(Key::SHOOT1P));
    assert_eq!(io.keyboard().bits, Key::CREDIT | Key::LEFT2P);
    io.release(Key::from_bits(Key::CREDIT | Key::LEFT2P));
    assert_eq!(io.keyboard(), Key::empty());
}

#[test]
fn overlay_colours() {
    assert_eq!(pixel_color(100, 200), PixelColor::Green);
    assert_eq!(pixel_color(20, 245), PixelColor::Green);
    assert_eq!(pixel_color(140, 245), PixelColor::White);
    assert_eq!(pixel_color(10, 40), PixelColor::Red);
    assert_eq!(pixel_color(10, 100), PixelColor::White);
}

#[test]
fn video_bytes_light_columns_from_the_bottom() {
    let mut video = vec![0u8; 700];
    video[0] = 0b0000_0001;
    video[33] = 0x80;
    video[640] = 0b0000_0011;
    let pixels = draw_frame(&video);
    assert_eq!(
        pixels,
        vec![
            Pixel { x: 0, y: 255, color: PixelColor::White },
            Pixel { x: 1, y: 240, color: PixelColor::White },
            Pixel { x: 20, y: 255, color: PixelColor::Green },
            Pixel { x: 20, y: 254, color: PixelColor::Green },
        ]
    );
}

#[test]
fn execute_on_routes_in_and_out_to_the_board() {
    let mut cpu = Cpu::new();
    let mut board = SpaceInvadersIO::new();
    cpu.registers.a = 0xAB;
    assert_eq!(cpu.execute_on(&Instruction::OUT(4), &mut board), (2, 10));
    cpu.registers.a = 0xCD;
    cpu.execute_on(&Instruction::OUT(4), &mut board);
    cpu.registers.a = 0;
    cpu.execute_on(&Instruction::OUT(2), &mut board);
    assert_eq!(cpu.execute_on(&Instruction::IN(3), &mut board), (2, 10));
    assert_eq!(cpu.registers.a, 0xCD);
    assert_eq!(cpu.execute_on(&Instruction::IN(0), &mut board), (2, 10));
    assert_eq!(cpu.registers.a, 0x0F);
    assert_eq!(cpu.execute_on(&Instruction::MVI(i8080::instruction::Operand::B, 7), &mut board), (2, 7));
    assert_eq!(cpu.registers.b, 7);
}

#[test]
fn run_frame_stops_once_the_budget_is_spent() {
    let mut cpu = Cpu::new();
    let mut board = SpaceInvadersIO::new();
    // Memory of zeros is a run of NOPs, four cycles each.
    assert_eq!(cpu.run_frame(&mut board, 10), Ok(12));
    assert_eq!(cpu.pc, 3);
    assert_eq!(cpu.run_frame(&mut board, 0), Ok(0));
    assert_eq!(cpu.pc, 3);
}

#[test]
fn run_frame_drives_the_shift_register() {
    let mut cpu = Cpu::new();
    let program = [
        0x3E, 0x12, 0xD3, 0x04, // MVI A,12h; OUT 4
        0x3E, 0x34, 0xD3, 0x04, // MVI A,34h; OUT 4
        0x3E, 0x02, 0xD3, 0x02, // MVI A,2; OUT 2
        0xDB, 0x03, // IN 3
    ];
    cpu.memory[..program.len()].copy_from_slice(&program);
    let mut board = SpaceInvadersIO::new();
    assert_eq!(cpu.run_frame(&mut board, 61), Ok(61));
    assert_eq!(cpu.pc, 14);
    assert_eq!(cpu.registers.a, 0xD0);
}

#[test]
fn run_frame_reports_where_it_cannot_go_on() {
    let mut cpu = Cpu::new();
    let mut board = SpaceInvadersIO::new();
    cpu.memory[4] = 0xD3; // OUT 7: no such output port
    cpu.memory[5] = 0x07;
    assert_eq!(cpu.run_frame(&mut board, 1000), Err(4));
    assert_eq!(cpu.pc, 4);
    cpu.pc = 0xFFFE;
    cpu.memory[0xFFFE] = 0xC3; // JMP with its address cut off
    assert_eq!(cpu.run_frame(&mut board, 1000), Err(0xFFFE));
    cpu.pc = 0x10;
    cpu.memory[0x10] = 0xC5; // PUSH B with SP = 0
    assert_eq!(cpu.run_frame(&mut board, 1000), Err(0x10));
}

#[test]
fn draw_byte_accepts_rows_low_on_a_large_screen() {
    let mut pixels = Vec::new();
    draw_byte(&mut pixels, 0x81, 3, 1000);
    assert_eq!(
        pixels,
        vec![
            Pixel { x: 3, y: 1007, color: PixelColor::White },
            Pixel { x: 3, y: 1000, color: PixelColor::White },
        ]
    );
}
