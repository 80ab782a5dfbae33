use simpi::gpioregs::RegMemory;
use simpi::interrupt::{InterruptEngine, poll_pins, should_fire};
use simpi::pin_api::{define_isr_routine, pin_mode, read_pin, write_pin};
use simpi::{INPUT, INT_EDGE_BOTH, INT_EDGE_FALLING, INT_EDGE_RISING, INT_EDGE_SETUP, OUTPUT,
    PWM_OUTPUT};

#[test]
fn test_pin_mode_sets_direction() {
    let mut regs = RegMemory::new();
    pin_mode(&mut regs, 17, OUTPUT);
    assert_eq!(regs.config.read_pin(17), 0);
    pin_mode(&mut regs, 17, INPUT);
    assert_eq!(regs.config.read_pin(17), 1);
    pin_mode(&mut regs, 17, PWM_OUTPUT);
    assert_eq!(regs.config.read_pin(17), 0);
}

#[test]
fn test_write_then_read_pin_api() {
    // Writes land in OUTPUT, reads come from INPUT.
    let mut regs = RegMemory::new();
    write_pin(&mut regs, 5, 1);
    assert_eq!(regs.output.read_pin(5), 1);
    assert_eq!(read_pin(&regs, 5), 0);
    regs.input.write_pin(5, 1);
    assert_eq!(read_pin(&regs, 5), 1);
}

#[test]
fn test_inclusive_pin_range_boundaries() {
    // Pins 2 and 27 are the first and last usable pins; 1 and 28 are
    // reserved.
    let mut regs = RegMemory::new();

    write_pin(&mut regs, 2, 1);
    write_pin(&mut regs, 27, 1);
    assert_eq!(regs.output.read_pin(2), 1);
    assert_eq!(regs.output.read_pin(27), 1);

    let before = regs;
    write_pin(&mut regs, 1, 1);
    write_pin(&mut regs, 28, 1);
    pin_mode(&mut regs, 1, OUTPUT);
    pin_mode(&mut regs, 28, OUTPUT);
    assert!(regs == before);

    regs.input.write_pin(2, 1);
    regs.input.write_pin(27, 1);
    assert_eq!(read_pin(&regs, 2), 1);
    assert_eq!(read_pin(&regs, 27), 1);
    assert_eq!(read_pin(&regs, 1), 0xFF);
    assert_eq!(read_pin(&regs, 28), 0xFF);
}

#[test]
fn test_out_of_range_operations_leave_bank_unchanged() {
    let mut regs = RegMemory::new();
    regs.output.write(0x12345678);
    regs.input.write(0x9ABCDEF0);
    let before = regs;
    for pin in [0u8, 1, 28, 31, 40, 255] {
        pin_mode(&mut regs, pin, OUTPUT);
        write_pin(&mut regs, pin, 1);
        assert_eq!(define_isr_routine(&mut regs, pin, INT_EDGE_RISING), 0xFF);
        assert!(regs == before);
    }
    // An unknown mode argument is also a silent no-op.
    pin_mode(&mut regs, 5, 9);
    assert!(regs == before);
}

#[test]
fn test_define_isr_routine_mode_bits() {
    let mut regs = RegMemory::new();
    assert_eq!(define_isr_routine(&mut regs, 5, INT_EDGE_RISING), 0);
    assert_eq!(regs.inten.read_pin(5), 1);
    assert_eq!(regs.int0.read_pin(5), 1);
    assert_eq!(regs.int1.read_pin(5), 1);

    assert_eq!(define_isr_routine(&mut regs, 6, INT_EDGE_FALLING), 0);
    assert_eq!(regs.int0.read_pin(6), 0);
    assert_eq!(regs.int1.read_pin(6), 1);

    assert_eq!(define_isr_routine(&mut regs, 7, INT_EDGE_BOTH), 0);
    assert_eq!(regs.int0.read_pin(7), 1);
    assert_eq!(regs.int1.read_pin(7), 0);

    assert_eq!(define_isr_routine(&mut regs, 8, INT_EDGE_SETUP), 0);
    assert_eq!(regs.int0.read_pin(8), 0);
    assert_eq!(regs.int1.read_pin(8), 0);
}

#[test]
fn test_should_fire_mode_table() {
    // Rising edge (1, 1).
    assert!(should_fire(true, true, false, true));
    assert!(!should_fire(true, true, true, true));
    assert!(!should_fire(true, true, false, false));
    // Falling edge (1, 0).
    assert!(should_fire(false, true, true, false));
    assert!(!should_fire(false, true, false, false));
    // Any change (0, 1).
    assert!(should_fire(true, false, false, true));
    assert!(should_fire(true, false, true, false));
    assert!(!should_fire(true, false, true, true));
    // Level low (0, 0).
    assert!(should_fire(false, false, false, false));
    assert!(should_fire(false, false, true, false));
    assert!(!should_fire(false, false, false, true));
}

#[test]
fn test_rising_edge_fires_exactly_once() {
    let mut engine = InterruptEngine::new();
    let mut regs = RegMemory::new();
    define_isr_routine(&mut regs, 5, INT_EDGE_RISING);
    let mask = 1u32 << 5;

    // The pin is still low: nothing fires.
    let fired = engine.poll(
        regs.input.read(),
        regs.inten.read(),
        regs.int0.read(),
        regs.int1.read(),
        mask,
    );
    assert!(fired.is_empty());

    // Another process drives the pin high: the transition fires once.
    regs.input.write_pin(5, 1);
    let fired = engine.poll(
        regs.input.read(),
        regs.inten.read(),
        regs.int0.read(),
        regs.int1.read(),
        mask,
    );
    assert_eq!(fired, vec![5]);

    // The level stays high: no further firing.
    let fired = engine.poll(
        regs.input.read(),
        regs.inten.read(),
        regs.int0.read(),
        regs.int1.read(),
        mask,
    );
    assert!(fired.is_empty());
}

#[test]
fn test_poll_pins_ascending_order_and_mask() {
    let mut regs = RegMemory::new();
    define_isr_routine(&mut regs, 9, INT_EDGE_RISING);
    define_isr_routine(&mut regs, 3, INT_EDGE_RISING);
    define_isr_routine(&mut regs, 21, INT_EDGE_RISING);
    regs.input.write_pin(3, 1);
    regs.input.write_pin(9, 1);
    regs.input.write_pin(21, 1);
    // Pin 9 has no callback registered in the mask.
    let mask = (1u32 << 3) | (1u32 << 21);
    let fired = poll_pins(
        regs.input.read(),
        regs.inten.read(),
        regs.int0.read(),
        regs.int1.read(),
        0,
        mask,
    );
    assert_eq!(fired, vec![3, 21]);
}

#[test]
fn test_level_low_fires_every_poll_while_low() {
    let mut engine = InterruptEngine::new();
    let mut regs = RegMemory::new();
    define_isr_routine(&mut regs, 4, INT_EDGE_SETUP);
    let mask = 1u32 << 4;
    for _ in 0..3 {
        let fired = engine.poll(
            regs.input.read(),
            regs.inten.read(),
            regs.int0.read(),
            regs.int1.read(),
            mask,
        );
        assert_eq!(fired, vec![4]);
    }
    regs.input.write_pin(4, 1);
    let fired = engine.poll(
        regs.input.read(),
        regs.inten.read(),
        regs.int0.read(),
        regs.int1.read(),
        mask,
    );
    assert!(fired.is_empty());
}

#[test]
fn test_falling_edge() {
    let mut engine = InterruptEngine::new();
    let mut regs = RegMemory::new();
    define_isr_routine(&mut regs, 10, INT_EDGE_FALLING);
    let mask = 1u32 << 10;
    regs.input.write_pin(10, 1);
    let fired = engine.poll(
        regs.input.read(),
        regs.inten.read(),
        regs.int0.read(),
        regs.int1.read(),
        mask,
    );
    assert!(fired.is_empty());
    regs.input.write_pin(10, 0);
    let fired = engine.poll(
        regs.input.read(),
        regs.inten.read(),
        regs.int0.read(),
        regs.int1.read(),
        mask,
    );
    assert_eq!(fired, vec![10]);
}
