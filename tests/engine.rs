use c8common::control::{ControlledInterpreter, ExecutionFault, FrameInfo};
use c8common::key::Keys;
use c8common::memory::{LoadError, Memory, ROM};
use c8common::{Address, Chip8Interpreter, Datum, GeneralRegister as V, Instruction};

fn machine() -> Chip8Interpreter {
    Chip8Interpreter::new_from_memory(Memory::empty())
}

fn no_keys() -> Keys {
    Keys::from_raw([false; 16])
}

fn run(m: &mut Chip8Interpreter, instruction: Instruction) -> (Result<(), ExecutionFault>, FrameInfo) {
    let mut frame = FrameInfo::empty();
    let r = m.execute(instruction, no_keys(), &mut frame, 0);
    (r, frame)
}

fn reg(m: &Chip8Interpreter, r: V) -> u8 {
    m.register(r).inner()
}

#[test]
fn add_with_carry() {
    let mut m = machine();
    m.set_register(V::V1, Datum(0xFF));
    m.set_register(V::V2, Datum(0x01));
    assert_eq!(run(&mut m, Instruction::AddReg { x: V::V1, y: V::V2 }).0, Ok(()));
    assert_eq!(reg(&m, V::V1), 0x00);
    assert_eq!(reg(&m, V::VF), 1);

    m.set_register(V::V1, Datum(0x01));
    m.set_register(V::V2, Datum(0x01));
    run(&mut m, Instruction::AddReg { x: V::V1, y: V::V2 });
    assert_eq!(reg(&m, V::V1), 0x02);
    assert_eq!(reg(&m, V::VF), 0);
}

#[test]
fn subtract_flag_inversion() {
    let mut m = machine();
    m.set_register(V::V1, Datum(0x05));
    m.set_register(V::V2, Datum(0x03));
    run(&mut m, Instruction::Sub { x: V::V1, y: V::V2 });
    assert_eq!(reg(&m, V::VF), 1);
    assert_eq!(reg(&m, V::V1), 0x02);

    m.set_register(V::V1, Datum(0x03));
    m.set_register(V::V2, Datum(0x05));
    run(&mut m, Instruction::Sub { x: V::V1, y: V::V2 });
    assert_eq!(reg(&m, V::VF), 0);
    assert_eq!(reg(&m, V::V1), 0xFE);
}

#[test]
fn reverse_subtract_and_shifts() {
    let mut m = machine();
    m.set_register(V::V1, Datum(0x03));
    m.set_register(V::V2, Datum(0x05));
    run(&mut m, Instruction::SubN { x: V::V1, y: V::V2 });
    assert_eq!((reg(&m, V::V1), reg(&m, V::VF)), (0x02, 1));

    m.set_register(V::V3, Datum(0b1000_0001));
    run(&mut m, Instruction::Shr(V::V3));
    assert_eq!((reg(&m, V::V3), reg(&m, V::VF)), (0b0100_0000, 1));
    run(&mut m, Instruction::Shl(V::V3));
    assert_eq!((reg(&m, V::V3), reg(&m, V::VF)), (0b1000_0000, 0));
    run(&mut m, Instruction::Shl(V::V3));
    assert_eq!((reg(&m, V::V3), reg(&m, V::VF)), (0, 1));
}

#[test]
fn immediate_add_wraps_without_flag() {
    let mut m = machine();
    m.set_register(V::V4, Datum(0xF0));
    run(&mut m, Instruction::Add(V::V4, 0x20));
    assert_eq!((reg(&m, V::V4), reg(&m, V::VF)), (0x10, 0));
}

#[test]
fn block_transfer_inclusive() {
    let mut m = machine();
    m.set_register(V::V0, Datum(1));
    m.set_register(V::V1, Datum(2));
    m.set_register(V::V2, Datum(3));
    m.set_register(V::V3, Datum(9));
    m.set_i(0x300);
    assert_eq!(run(&mut m, Instruction::WriteMultiple(V::V2)).0, Ok(()));
    let mem = m.memory();
    assert_eq!(mem.get(Address::new(0x300)), Datum(1));
    assert_eq!(mem.get(Address::new(0x301)), Datum(2));
    assert_eq!(mem.get(Address::new(0x302)), Datum(3));
    assert_eq!(mem.get(Address::new(0x303)), Datum(0));
    assert_eq!(reg(&m, V::V3), 9);

    let mut frame = FrameInfo::empty();
    let memory_copy = Memory::from_bytes(m.memory().save()).unwrap();
    let mut other = Chip8Interpreter::new_from_memory(memory_copy);
    other.set_i(0x300);
    other.execute(Instruction::ReadMultiple(V::V1), no_keys(), &mut frame, 0).unwrap();
    assert_eq!((reg(&other, V::V0), reg(&other, V::V1), reg(&other, V::V2)), (1, 2, 0));
}

#[test]
fn bcd_digits() {
    let mut m = machine();
    m.set_register(V::V5, Datum(254));
    m.set_i(0x400);
    run(&mut m, Instruction::BCD(V::V5));
    let mem = m.memory();
    assert_eq!(mem.get(Address::new(0x400)), Datum(2));
    assert_eq!(mem.get(Address::new(0x401)), Datum(5));
    assert_eq!(mem.get(Address::new(0x402)), Datum(4));
}

#[test]
fn sprite_collision() {
    let mut m = machine();
    m.set_register(V::V1, Datum(10));
    m.set_register(V::V2, Datum(5));
    m.set_i(0x300);
    let mut write = FrameInfo::empty();
    m.set_register(V::V0, Datum(0b1011_0000));
    m.execute(Instruction::WriteMultiple(V::V0), no_keys(), &mut write, 0).unwrap();
    let draw = Instruction::DisplaySprite { x: V::V1, y: V::V2, number_of_bytes: 1 };

    let (r, frame) = run(&mut m, draw);
    assert_eq!(r, Ok(()));
    assert!(frame.is_modify_screen());
    assert_eq!(reg(&m, V::VF), 0);
    assert!(m.display().pixel_at(10, 5));
    assert!(!m.display().pixel_at(11, 5));
    assert!(m.display().pixel_at(12, 5));

    let (_, frame) = run(&mut m, draw);
    assert!(frame.is_modify_screen());
    assert_eq!(reg(&m, V::VF), 1);
    assert!(m.display().raw().iter().all(|p| !p));
}

#[test]
fn sprite_wraps_at_edges() {
    let mut m = machine();
    m.set_register(V::V1, Datum(62));
    m.set_register(V::V2, Datum(31));
    m.set_register(V::V0, Datum(0xF0));
    m.set_i(0x300);
    run(&mut m, Instruction::WriteMultiple(V::V0));
    run(&mut m, Instruction::DisplaySprite { x: V::V1, y: V::V2, number_of_bytes: 1 });
    let d = m.display();
    assert!(d.pixel_at(62, 31) && d.pixel_at(63, 31) && d.pixel_at(0, 31) && d.pixel_at(1, 31));
    assert!(!d.pixel_at(2, 31));
}

#[test]
fn font_sprite_location() {
    let mut m = machine();
    m.set_register(V::V6, Datum(0xA));
    run(&mut m, Instruction::GetSprite(V::V6));
    assert_eq!(m.get_i(), 0x50 + 0xA * 5);
    m.set_register(V::V6, Datum(16));
    assert_eq!(run(&mut m, Instruction::GetSprite(V::V6)).0, Err(ExecutionFault::InvalidDigit));
}

#[test]
fn self_jump_reports_busy_wait() {
    let mut m = machine();
    m.set_program_counter(Address::new(0x302));
    let (_, frame) = run(&mut m, Instruction::Jump(Address::new(0x300)));
    assert!(frame.is_entered_busywait());
    assert_eq!(m.program_counter().as_u16(), 0x300);
    let (_, frame) = run(&mut m, Instruction::Jump(Address::new(0x400)));
    assert!(!frame.is_entered_busywait());
}

#[test]
fn relative_jump_past_end_faults() {
    let mut m = machine();
    m.set_register(V::V0, Datum(0x10));
    assert_eq!(
        run(&mut m, Instruction::JumpRelative(Address::new(0xFF0))).0,
        Err(ExecutionFault::AddressOverflow)
    );
    run(&mut m, Instruction::JumpRelative(Address::new(0x300)));
    assert_eq!(m.program_counter().as_u16(), 0x310);
}

#[test]
fn call_and_return() {
    let mut m = machine();
    m.set_program_counter(Address::new(0x204));
    run(&mut m, Instruction::Call(Address::new(0x500)));
    assert_eq!(m.program_counter().as_u16(), 0x500);
    assert_eq!(m.stack().len(), 1);
    run(&mut m, Instruction::Return);
    assert_eq!(m.program_counter().as_u16(), 0x204);
    assert_eq!(run(&mut m, Instruction::Return).0, Err(ExecutionFault::StackUnderflow));
}

#[test]
fn stack_overflow_faults() {
    let mut m = machine();
    for _ in 0..16 {
        assert_eq!(run(&mut m, Instruction::Call(Address::new(0x500))).0, Ok(()));
    }
    assert_eq!(run(&mut m, Instruction::Call(Address::new(0x500))).0, Err(ExecutionFault::StackOverflow));
    assert_eq!(m.stack().len(), 16);
}

#[test]
fn skips_and_keys() {
    let mut m = machine();
    m.set_program_counter(Address::new(0x300));
    m.set_register(V::V1, Datum(7));
    run(&mut m, Instruction::SkipIfEqual(V::V1, 7));
    assert_eq!(m.program_counter().as_u16(), 0x302);
    run(&mut m, Instruction::SkipNotEqual(V::V1, 7));
    assert_eq!(m.program_counter().as_u16(), 0x302);

    let mut frame = FrameInfo::empty();
    let mut raw = [false; 16];
    raw[7] = true;
    m.execute(Instruction::SkipPressed(V::V1), Keys::from_raw(raw), &mut frame, 0).unwrap();
    assert_eq!(m.program_counter().as_u16(), 0x304);
    m.execute(Instruction::SkipNotPressed(V::V1), Keys::from_raw(raw), &mut frame, 0).unwrap();
    assert_eq!(m.program_counter().as_u16(), 0x304);

    m.set_program_counter(Address::new(0xFFE));
    assert_eq!(run(&mut m, Instruction::SkipIfEqual(V::V1, 7)).0, Err(ExecutionFault::AddressOverflow));
}

#[test]
fn random_is_masked() {
    let mut m = machine();
    let mut frame = FrameInfo::empty();
    m.execute(Instruction::Random(V::V2, 0x0F), no_keys(), &mut frame, 0xAB).unwrap();
    assert_eq!(reg(&m, V::V2), 0x0B);
}

#[test]
fn timers_and_index() {
    let mut m = machine();
    m.set_register(V::V1, Datum(3));
    run(&mut m, Instruction::SetDelayTimer(V::V1));
    run(&mut m, Instruction::SetSoundTimer(V::V1));
    let tick = m.timer_tick_60hz();
    assert!(tick.buzzer_active());
    assert_eq!(m.delay_timer_register(), Datum(2));
    run(&mut m, Instruction::GetDelayTimer(V::V2));
    assert_eq!(reg(&m, V::V2), 2);
    m.set_i(0xFFFF);
    run(&mut m, Instruction::AddI(V::V1));
    assert_eq!(m.get_i(), 2);
}

#[test]
fn wait_for_key_is_reported() {
    let mut m = machine();
    let (_, frame) = run(&mut m, Instruction::WaitForKey(V::V3));
    assert_eq!(frame.is_wait_for_key(), Some(V::V3));
}

#[test]
fn cycle_fetches_and_advances() {
    let rom = ROM::from_bytes(vec![0x61, 0x2A, 0x00, 0xF0]).unwrap();
    let mut m = Chip8Interpreter::new_from_rom(rom);
    let mut frame = FrameInfo::empty();
    assert_eq!(m.cycle(no_keys(), &mut frame), Ok(()));
    assert_eq!(reg(&m, V::V1), 0x2A);
    assert_eq!(m.program_counter().as_u16(), 0x202);
    let raw = c8common::RawInstruction::from_raw_bytes([0x00, 0xF0]);
    assert_eq!(m.cycle(no_keys(), &mut frame), Err(ExecutionFault::InvalidInstruction(raw)));
    assert_eq!(m.program_counter().as_u16(), 0x202);
}

#[test]
fn cycle_wraps_program_counter() {
    let mut bytes = vec![0u8; 4096];
    bytes[0xFFF] = 0x00;
    bytes[0x000] = 0xE0;
    let mut m = Chip8Interpreter::new_from_memory(Memory::from_bytes(bytes).unwrap());
    m.set_program_counter(Address::new(0xFFF));
    let mut frame = FrameInfo::empty();
    assert_eq!(m.cycle(no_keys(), &mut frame), Ok(()));
    assert!(frame.is_modify_screen());
    assert_eq!(m.program_counter().as_u16(), 0x001);
}

#[test]
fn rom_loading() {
    let rom = ROM::from_bytes(vec![1, 2, 3]).unwrap();
    let bytes = rom.to_bytes();
    assert_eq!(bytes.len(), 3584);
    assert_eq!(&bytes[..4], &[1, 2, 3, 0]);
    assert_eq!(
        ROM::from_bytes(vec![0; 3585]).unwrap_err(),
        LoadError::WrongSize { size: 3585, expected: 3584 }
    );
    let mem = rom.to_memory();
    assert_eq!(mem.get(Address::new(0x200)), Datum(1));
    assert_eq!(mem.get(Address::new(0x50)), Datum(0xF0));
    assert_eq!(mem.get(Address::new(0x9F)), Datum(0x80));
    assert_eq!(mem.get(Address::new(0xA0)), Datum(0));
    assert_eq!(mem.substring(Address::new(0x55), 5), vec![Datum(0x20), Datum(0x60), Datum(0x20), Datum(0x20), Datum(0x70)]);
    assert_eq!(mem.all().len(), 4096);
}

#[test]
fn memory_loading() {
    assert_eq!(
        Memory::from_bytes(vec![0; 10]).unwrap_err(),
        LoadError::WrongSize { size: 10, expected: 4096 }
    );
    let empty = Memory::empty();
    assert_eq!(empty.get(Address::new(0x201)), Datum(0xF0));
    assert_eq!(empty.save().len(), 4096);
    assert_eq!(empty.extract().len(), 4096);
}

#[test]
fn cycle_draws_random_bytes() {
    // C300: V3 = random & 0x00; C40F: V4 = random & 0x0F.
    let rom = ROM::from_bytes(vec![0xC3, 0x00, 0xC4, 0x0F]).unwrap();
    let mut m = Chip8Interpreter::new_from_rom(rom);
    m.set_register(V::V3, Datum(0xAA));
    let mut frame = FrameInfo::empty();
    assert_eq!(m.cycle(no_keys(), &mut frame), Ok(()));
    assert_eq!(reg(&m, V::V3), 0);
    assert_eq!(m.cycle(no_keys(), &mut frame), Ok(()));
    assert!(reg(&m, V::V4) < 16);
    assert_eq!(m.program_counter().as_u16(), 0x204);
}

#[test]
fn stepping_draws_twice() {
    // D011 twice: a one-byte sprite at (V0, V1) from I.
    let rom = ROM::from_bytes(vec![0xD0, 0x11, 0xD0, 0x11]).unwrap();
    let mut m = Chip8Interpreter::new_from_rom(rom);
    m.set_i(0x300);
    m.set_register(V::V0, Datum(0xFF));
    m.execute(Instruction::WriteMultiple(V::V0), no_keys(), &mut FrameInfo::empty(), 0).unwrap();
    m.set_register(V::V0, Datum(0));
    let mut frame = FrameInfo::empty();
    m.step(no_keys(), &mut frame).unwrap();
    assert!(frame.is_modify_screen());
    assert_eq!(reg(&m, V::VF), 0);
    assert!((0..8).all(|x| m.display().pixel_at(x, 0)));
    let mut frame = FrameInfo::empty();
    m.step(no_keys(), &mut frame).unwrap();
    assert!(frame.is_modify_screen());
    assert_eq!(reg(&m, V::VF), 1);
    assert!(m.display().raw().iter().all(|p| !p));
}

#[test]
fn stack_and_counter_through_the_trait() {
    let mut m = machine();
    assert_eq!(m.stack_pop(), Err(ExecutionFault::StackUnderflow));
    assert_eq!(m.stack_push(Address::new(0x222)), Ok(()));
    assert_eq!(m.stack_pop(), Ok(Address::new(0x222)));
    m.increment_program_counter();
    assert_eq!(m.program_counter().as_u16(), 0x201);
    m.set_register(V::V9, Datum(44));
    assert_eq!(m.get_register(V::V9), Datum(44));
}
