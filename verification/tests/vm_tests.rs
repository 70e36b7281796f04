use chip8::graphics::DISPLAY_ROWS;
use chip8::input::Input;
use chip8::memory::SPRITE_SIZE;
use chip8::vm::VM;
use rand::rngs::SmallRng;
use rand::SeedableRng;

#[test]
fn test_jp() {
    let mut vm = VM::new();
    let addr = 16u16;

    vm.jp(addr);

    assert_eq!(vm.registers.program_counter, addr);
}

#[test]
fn test_jp_edge_case() {
    let mut vm = VM::new();
    let addr = 0x0FFF;

    vm.jp(addr);

    assert_eq!(vm.registers.program_counter, addr);
}

#[test]
fn test_cls() {
    let mut vm = VM::new();
    vm.graphics.display = [u64::MAX; DISPLAY_ROWS];
    assert_eq!(vm.registers.program_counter, 0);

    vm.cls();

    assert!(vm.graphics.display.iter().all(|&row| row == 0));
    assert_eq!(vm.registers.program_counter, 1);
}

#[test]
fn test_ret() {
    let mut vm = VM::new();
    vm.registers.program_counter = 1;
    vm.stack.push(2);
    vm.stack.push(3);

    vm.ret();

    assert_eq!(vm.registers.program_counter, 3);
    assert_eq!(vm.stack.pointer(), 1);
    assert_eq!(vm.stack.entry(0), 2);
}

#[test]
fn test_call() {
    let mut vm = VM::new();
    vm.registers.program_counter = 1;
    vm.stack.push(2);
    vm.stack.push(3);

    vm.call(4);

    assert_eq!(vm.registers.program_counter, 4);
    assert_eq!(vm.stack.pointer(), 3);
    assert_eq!(vm.stack.entry(0), 2);
    assert_eq!(vm.stack.entry(1), 3);
    assert_eq!(vm.stack.entry(2), 1);
}

#[test]
fn test_se_equal() {
    let mut vm = VM::new();
    vm.registers.v[1] = 1;
    vm.registers.program_counter = 5;

    vm.se(1, 1);

    assert_eq!(vm.registers.v[1], 1);
    assert_eq!(vm.registers.program_counter, 7);
}

#[test]
fn test_se_not_equal() {
    let mut vm = VM::new();
    vm.registers.v[1] = 1;
    vm.registers.program_counter = 5;

    vm.se(1, 2);

    assert_eq!(vm.registers.v[1], 1);
    assert_eq!(vm.registers.program_counter, 6);
}

#[test]
fn test_sne_equal() {
    let mut vm = VM::new();
    vm.registers.v[1] = 1;
    vm.registers.program_counter = 5;

    vm.sne(1, 1);

    assert_eq!(vm.registers.v[1], 1);
    assert_eq!(vm.registers.program_counter, 6);
}

#[test]
fn test_sne_not_equal() {
    let mut vm = VM::new();
    vm.registers.v[1] = 1;
    vm.registers.program_counter = 5;

    vm.sne(1, 2);

    assert_eq!(vm.registers.v[1], 1);
    assert_eq!(vm.registers.program_counter, 7);
}

#[test]
fn test_se_v_equal() {
    let mut vm = VM::new();
    vm.registers.v[1] = 4;
    vm.registers.v[2] = 4;
    vm.registers.program_counter = 5;

    vm.se_v(1, 2);

    assert_eq!(vm.registers.v[1], 4);
    assert_eq!(vm.registers.v[2], 4);
    assert_eq!(vm.registers.program_counter, 7);
}

#[test]
fn test_se_v_not_equal() {
    let mut vm = VM::new();
    vm.registers.v[1] = 4;
    vm.registers.v[2] = 5;
    vm.registers.program_counter = 5;

    vm.se_v(1, 2);

    assert_eq!(vm.registers.v[1], 4);
    assert_eq!(vm.registers.v[2], 5);
    assert_eq!(vm.registers.program_counter, 6);
}

#[test]
fn test_ld_vx() {
    let mut vm = VM::new();
    vm.registers.v[1] = 4;
    vm.registers.program_counter = 5;

    vm.ld_vx(1, 2);

    assert_eq!(vm.registers.v[1], 2);
    assert_eq!(vm.registers.program_counter, 6);
}

#[test]
fn test_add_vx() {
    let mut vm = VM::new();
    vm.registers.v[1] = 200;
    vm.registers.program_counter = 5;

    vm.add_vx(1, 50);

    assert_eq!(vm.registers.v[1], 250);
    assert_eq!(vm.registers.program_counter, 6);
}

#[test]
fn test_add_vx_overflow() {
    let mut vm = VM::new();
    vm.registers.v[1] = 255;
    vm.registers.program_counter = 5;

    vm.add_vx(1, 1);

    assert_eq!(vm.registers.v[1], 0);
    assert_eq!(vm.registers.program_counter, 6);
}

#[test]
fn test_ld_vx_vy() {
    let mut vm = VM::new();
    vm.registers.v[1] = 4;
    vm.registers.v[2] = 7;
    vm.registers.program_counter = 5;

    vm.ld_vx_vy(1, 2);

    assert_eq!(vm.registers.v[1], 7);
    assert_eq!(vm.registers.v[2], 7);
    assert_eq!(vm.registers.program_counter, 6);
}

#[test]
fn test_or() {
    let mut vm = VM::new();
    vm.registers.v[1] = 0xF0;
    vm.registers.v[2] = 0x0F;
    vm.registers.program_counter = 5;

    vm.or(1, 2);

    assert_eq!(vm.registers.v[1], 0xFF);
    assert_eq!(vm.registers.v[2], 0x0F);
    assert_eq!(vm.registers.program_counter, 6);
}

#[test]
fn test_and() {
    let mut vm = VM::new();
    vm.registers.v[1] = 0b0101;
    vm.registers.v[2] = 0b1110;
    vm.registers.program_counter = 5;

    vm.and(1, 2);

    assert_eq!(vm.registers.v[1], 0b0100);
    assert_eq!(vm.registers.v[2], 0b1110);
    assert_eq!(vm.registers.program_counter, 6);
}

#[test]
fn test_xor() {
    let mut vm = VM::new();
    vm.registers.v[1] = 0b0100;
    vm.registers.v[2] = 0b1110;
    vm.registers.program_counter = 5;

    vm.xor(1, 2);

    assert_eq!(vm.registers.v[1], 0b1010);
    assert_eq!(vm.registers.v[2], 0b1110);
    assert_eq!(vm.registers.program_counter, 6);
}

#[test]
fn test_add_vx_vy_with_overflow() {
    let mut vm = VM::new();
    vm.registers.v[1] = 200;
    vm.registers.v[2] = 100;
    vm.registers.v[0xF] = 4;
    vm.registers.program_counter = 5;

    vm.add_vx_vy(1, 2);

    assert_eq!(vm.registers.v[1], 44);
    assert_eq!(vm.registers.v[2], 100);
    assert_eq!(vm.registers.v[0xF], 1);
    assert_eq!(vm.registers.program_counter, 6);
}

#[test]
fn test_add_vx_vy_without_overflow() {
    let mut vm = VM::new();
    vm.registers.v[1] = 50;
    vm.registers.v[2] = 100;
    vm.registers.v[0xF] = 4;
    vm.registers.program_counter = 5;

    vm.add_vx_vy(1, 2);

    assert_eq!(vm.registers.v[1], 150);
    assert_eq!(vm.registers.v[2], 100);
    assert_eq!(vm.registers.v[0xF], 0);
    assert_eq!(vm.registers.program_counter, 6);
}

#[test]
fn test_sub_with_overflow() {
    let mut vm = VM::new();
    vm.registers.v[1] = 100;
    vm.registers.v[2] = 200;
    vm.registers.v[0xF] = 4;
    vm.registers.program_counter = 5;

    vm.sub(1, 2);

    assert_eq!(vm.registers.v[1], 156);
    assert_eq!(vm.registers.v[2], 200);
    assert_eq!(vm.registers.v[0xF], 1);
    assert_eq!(vm.registers.program_counter, 6);
}

#[test]
fn test_sub_without_overflow() {
    let mut vm = VM::new();
    vm.registers.v[1] = 150;
    vm.registers.v[2] = 100;
    vm.registers.v[0xF] = 4;
    vm.registers.program_counter = 5;

    vm.sub(1, 2);

    assert_eq!(vm.registers.v[1], 50);
    assert_eq!(vm.registers.v[2], 100);
    assert_eq!(vm.registers.v[0xF], 0);
    assert_eq!(vm.registers.program_counter, 6);
}

#[test]
fn test_shr_with_overflow() {
    let mut vm = VM::new();
    vm.registers.v[1] = 0b0101;
    vm.registers.v[0xF] = 4;
    vm.registers.program_counter = 5;

    vm.shr(1);

    assert_eq!(vm.registers.v[1], 0b0010);
    assert_eq!(vm.registers.v[0xF], 1);
    assert_eq!(vm.registers.program_counter, 6);
}

#[test]
fn test_shr_without_overflow() {
    let mut vm = VM::new();
    vm.registers.v[1] = 0b1010;
    vm.registers.v[0xF] = 4;
    vm.registers.program_counter = 5;

    vm.shr(1);

    assert_eq!(vm.registers.v[1], 0b0101);
    assert_eq!(vm.registers.v[0xF], 0);
    assert_eq!(vm.registers.program_counter, 6);
}

#[test]
fn test_subn_with_overflow() {
    let mut vm = VM::new();
    vm.registers.v[1] = 200;
    vm.registers.v[2] = 100;
    vm.registers.v[0xF] = 4;
    vm.registers.program_counter = 5;

    vm.subn(1, 2);

    assert_eq!(vm.registers.v[1], 156);
    assert_eq!(vm.registers.v[2], 100);
    assert_eq!(vm.registers.v[0xF], 1);
    assert_eq!(vm.registers.program_counter, 6);
}

#[test]
fn test_subn_without_overflow() {
    let mut vm = VM::new();
    vm.registers.v[1] = 100;
    vm.registers.v[2] = 150;
    vm.registers.v[0xF] = 4;
    vm.registers.program_counter = 5;

    vm.subn(1, 2);

    assert_eq!(vm.registers.v[1], 50);
    assert_eq!(vm.registers.v[2], 150);
    assert_eq!(vm.registers.v[0xF], 0);
    assert_eq!(vm.registers.program_counter, 6);
}

#[test]
fn test_shl_with_overflow() {
    let mut vm = VM::new();
    vm.registers.v[1] = 0b10101010;
    vm.registers.v[0xF] = 4;
    vm.registers.program_counter = 5;

    vm.shl(1);

    assert_eq!(vm.registers.v[1], 0b01010100);
    assert_eq!(vm.registers.v[0xF], 1);
    assert_eq!(vm.registers.program_counter, 6);
}

#[test]
fn test_shl_without_overflow() {
    let mut vm = VM::new();
    vm.registers.v[1] = 0b01101010;
    vm.registers.v[0xF] = 4;
    vm.registers.program_counter = 5;

    vm.shl(1);

    assert_eq!(vm.registers.v[1], 0b11010100);
    assert_eq!(vm.registers.v[0xF], 0);
    assert_eq!(vm.registers.program_counter, 6);
}

#[test]
fn test_ld_i() {
    let mut vm = VM::new();
    vm.registers.i = 5;
    vm.registers.program_counter = 5;

    vm.ld_i(0x0111);

    assert_eq!(vm.registers.i, 0x0111);
    assert_eq!(vm.registers.program_counter, 6);
}

#[test]
fn test_jp_v0() {
    let mut vm = VM::new();
    vm.registers.program_counter = 100;
    vm.registers.v[0] = 5;

    vm.jp_v0(20);

    assert_eq!(vm.registers.program_counter, 25);
}

#[test]
fn test_rnd() {
    let mut vm = VM::new();
    vm.rng = SmallRng::seed_from_u64(0xFF);
    vm.registers.program_counter = 5;
    vm.registers.v[1] = 0xAF;

    vm.rnd(1, 0xFF);

    assert_eq!(vm.registers.v[1], 181);
    assert_eq!(vm.registers.program_counter, 6);

    vm.rnd(1, 0x0F);

    assert_eq!(vm.registers.v[1], 5);
    assert_eq!(vm.registers.program_counter, 7);
}

#[test]
fn test_drw() {
    let mut vm = VM::new();
    vm.registers.program_counter = 5;
    let location = 0x100;
    vm.registers.i = location as u16;
    vm.registers.v[0xF] = 2;
    let sprite = [0x20, 0x60, 0x20, 0x20, 0x70];
    vm.memory.write_slice(location, &sprite);

    vm.drw(4, 4, 5);

    let screen = [0, 0, 0, 0, 0x200, 0x600, 0x200, 0x200, 0x700, 0];
    assert_eq!(&vm.graphics.display[0..10], &screen);
    assert_eq!(vm.registers.v[0xF], 0);
    assert_eq!(vm.registers.program_counter, 6);
}

#[test]
fn test_drw_collision() {
    let mut vm = VM::new();
    vm.registers.program_counter = 5;
    let location = 0x100;
    vm.registers.i = location as u16;
    vm.registers.v[0xF] = 2;
    let sprite = [0xFF];
    vm.memory.write_slice(location, &sprite);
    vm.graphics.display[0] = 0x1;

    vm.drw(0, 0, 1);

    assert_eq!(vm.graphics.display[0], 0xFE);
    assert_eq!(vm.registers.v[0xF], 1);
    assert_eq!(vm.registers.program_counter, 6);
}

#[test]
fn test_skp_key_pressed() {
    let mut vm = VM::new();
    vm.input = Input::new_with_state(0b100);
    vm.registers.program_counter = 5;

    vm.skp(2);

    assert_eq!(vm.registers.program_counter, 7);
}

#[test]
fn test_skp_key_unpressed() {
    let mut vm = VM::new();
    vm.input = Input::new_with_state(0b100);
    vm.registers.program_counter = 5;

    vm.skp(4);

    assert_eq!(vm.registers.program_counter, 6);
}

#[test]
fn test_sknp_key_pressed() {
    let mut vm = VM::new();
    vm.input = Input::new_with_state(0b100);
    vm.registers.program_counter = 5;

    vm.sknp(2);

    assert_eq!(vm.registers.program_counter, 6);
}

#[test]
fn test_sknp_key_unpressed() {
    let mut vm = VM::new();
    vm.input = Input::new_with_state(0b100);
    vm.registers.program_counter = 5;

    vm.sknp(4);

    assert_eq!(vm.registers.program_counter, 7);
}

#[test]
fn test_ld_vx_dt() {
    let mut vm = VM::new();
    vm.registers.program_counter = 5;
    let value = 0xFA;
    vm.registers.delay_timer = value;

    vm.ld_vx_dt(0x2);

    assert_eq!(vm.registers.v[0x2], value);
    assert_eq!(vm.registers.delay_timer, value);
    assert_eq!(vm.registers.program_counter, 6);
}

#[test]
fn test_ld_dt_vx() {
    let mut vm = VM::new();
    vm.registers.program_counter = 5;
    let value = 0xFA;
    vm.registers.v[0x1] = value;

    vm.ld_dt_vx(0x1);

    assert_eq!(vm.registers.delay_timer, value);
    assert_eq!(vm.registers.v[0x1], value);
    assert_eq!(vm.registers.program_counter, 6);
}

#[test]
fn test_ld_st() {
    let mut vm = VM::new();
    vm.registers.program_counter = 5;
    let sound_timer_value = 0xFA;
    vm.registers.v[0x2] = sound_timer_value;

    vm.ld_st(0x2);

    assert_eq!(vm.registers.v[0x2], sound_timer_value);
    assert_eq!(vm.registers.program_counter, 6);
}

#[test]
fn test_add_i() {
    let mut vm = VM::new();
    vm.registers.program_counter = 5;
    vm.registers.i = 10;
    vm.registers.v[0x2] = 5;

    vm.add_i(0x2);

    assert_eq!(vm.registers.i, 15);
    assert_eq!(vm.registers.program_counter, 6);
}

#[test]
fn test_ld_f() {
    let mut vm = VM::new();
    vm.registers.program_counter = 5;
    vm.registers.i = 10;
    vm.registers.v[0x2] = 5;

    vm.ld_f(0x2);

    assert_eq!(vm.registers.i, 25);
    let sprite_five = [0xF0, 0x80, 0xF0, 0x10, 0xF0];
    let sprite = vm.memory.get_slice(vm.registers.i as usize, vm.registers.i as usize + SPRITE_SIZE);
    assert_eq!(sprite, &sprite_five);
    assert_eq!(vm.registers.program_counter, 6);
}

#[test]
fn test_ld_b() {
    let mut vm = VM::new();
    vm.registers.program_counter = 5;
    vm.registers.v[0x5] = 123;
    vm.registers.i = 100;

    vm.ld_b(0x5);

    assert_eq!(vm.memory.get_slice(100, 103), &[1, 2, 3]);
    assert_eq!(vm.registers.i, 100);
    assert_eq!(vm.registers.program_counter, 6);
}

#[test]
fn test_ld_i_vx() {
    let mut vm = VM::new();
    vm.registers.program_counter = 5;
    vm.registers.i = 0x100;
    let registers = (0x0..=0xF).collect::<Vec<u8>>();
    vm.registers.v.copy_from_slice(&registers);

    vm.ld_i_vx(0xF);

    assert_eq!(vm.memory.get_slice(0x100, 0x110), registers.as_slice());
    assert_eq!(vm.registers.program_counter, 6);
}

#[test]
fn test_ld_vx_i() {
    let mut vm = VM::new();
    vm.registers.program_counter = 5;
    vm.registers.i = 0x100;
    let memory = (0x0..=0xF).collect::<Vec<u8>>();
    vm.memory.write_slice(0x100, &memory);

    vm.ld_vx_i(0xF);

    assert_eq!(vm.registers.v, memory.as_slice());
    assert_eq!(vm.registers.program_counter, 6);
}
