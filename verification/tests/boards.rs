use simpi::board::Board;
use simpi::button::Button;
use simpi::color::{Color, color_from_name};
use simpi::doc::{DocError, DocValue};
use simpi::gpioregs::RegMemory;
use simpi::led::Led;
use simpi::part::Part;
use simpi::pin_api::{pin_mode, read_pin, write_pin};
use simpi::OUTPUT;

fn entry(key: &str, value: DocValue) -> (String, DocValue) {
    (String::from(key), value)
}

fn string_value(s: &str) -> DocValue {
    DocValue::Str(String::from(s))
}

fn position(x: u64, y: u64) -> DocValue {
    DocValue::Object(vec![
        entry("x", DocValue::UInt(x)),
        entry("y", DocValue::UInt(y)),
    ])
}

fn led_doc(pin: u64, name: &str) -> DocValue {
    DocValue::Object(vec![
        entry("type", string_value("simpi/led")),
        entry("name", string_value(name)),
        entry("pin", DocValue::UInt(pin)),
        entry("colorOff", string_value("black")),
        entry("colorOn", string_value("lightred")),
        entry("position", position(2, 3)),
    ])
}

fn button_doc(pin: u64, name: &str, hotkey: &str) -> DocValue {
    DocValue::Object(vec![
        entry("type", string_value("simpi/button")),
        entry("name", string_value(name)),
        entry("pin", DocValue::UInt(pin)),
        entry("hotkey", string_value(hotkey)),
        entry("position", position(10, 3)),
    ])
}

fn board_doc(parts: Vec<DocValue>) -> DocValue {
    DocValue::Object(vec![
        entry("type", string_value("simpi/board")),
        entry("name", string_value("Demo Board")),
        entry("backgroundColor", string_value("Green")),
        entry("foregroundColor", string_value("WHITE")),
        entry(
            "size",
            DocValue::Object(vec![
                entry("width", DocValue::UInt(48)),
                entry("height", DocValue::UInt(12)),
            ]),
        ),
        entry("hardware", DocValue::Array(parts)),
    ])
}

#[test]
fn test_board_from_doc_preserves_parts() {
    let doc = board_doc(vec![led_doc(17, "LED 1"), button_doc(4, "BTN 1", "a")]);
    let board = Board::from_doc(&doc).unwrap();
    assert_eq!(board.name, "Demo Board");
    assert_eq!(board.background_color, Color::Green);
    assert_eq!(board.foreground_color, Color::White);
    assert_eq!(board.width, 48);
    assert_eq!(board.height, 12);
    assert_eq!(board.hardware.len(), 2);
    match &board.hardware[0] {
        Part::Led(led) => {
            assert_eq!(led.pin, 17);
            assert_eq!(led.name, "LED 1");
            assert_eq!(led.pos_x, 2);
            assert_eq!(led.pos_y, 3);
            assert_eq!(led.color_off, Color::Black);
            assert_eq!(led.color_on, Color::LightRed);
            assert!(!led.get());
        }
        _ => panic!("expected an LED first"),
    }
    match &board.hardware[1] {
        Part::Button(button) => {
            assert_eq!(button.pin, 4);
            assert_eq!(button.name, "BTN 1");
            assert_eq!(button.hotkey, "a");
            assert_eq!(button.pos_x, 10);
            assert_eq!(button.pos_y, 3);
            assert!(!button.get());
        }
        _ => panic!("expected a button second"),
    }
}

#[test]
fn test_board_rejects_wrong_documents() {
    assert!(matches!(
        Board::from_doc(&DocValue::Str(String::from("simpi/board"))),
        Err(DocError::InvalidInput)
    ));
    let untagged = DocValue::Object(vec![entry("name", string_value("x"))]);
    assert!(matches!(Board::from_doc(&untagged), Err(DocError::InvalidData)));
    let wrong_tag = DocValue::Object(vec![entry("type", string_value("simpi/led"))]);
    assert!(matches!(Board::from_doc(&wrong_tag), Err(DocError::InvalidData)));
}

#[test]
fn test_doc_error_messages() {
    assert_eq!(DocError::InvalidData.message(), "Input data is invalid!");
    assert_eq!(DocError::InvalidInput.message(), "Input must be map!");
}

#[test]
fn test_led_reflects_output_after_sync() {
    let doc = board_doc(vec![led_doc(17, "LED 1")]);
    let mut board = Board::from_doc(&doc).unwrap();
    let mut regs = RegMemory::new();
    pin_mode(&mut regs, 17, OUTPUT);
    write_pin(&mut regs, 17, 1);
    board.sync(&mut regs);
    match &board.hardware[0] {
        Part::Led(led) => assert!(led.get()),
        _ => panic!("expected an LED"),
    }
    // Driving the pin low turns the LED back off on the next tick.
    write_pin(&mut regs, 17, 0);
    board.sync(&mut regs);
    match &board.hardware[0] {
        Part::Led(led) => assert!(!led.get()),
        _ => panic!("expected an LED"),
    }
}

#[test]
fn test_button_drives_input_on_keypress() {
    let doc = board_doc(vec![button_doc(4, "BTN 1", "a")]);
    let mut board = Board::from_doc(&doc).unwrap();
    let mut regs = RegMemory::new();

    board.event_keypress('a');
    board.sync(&mut regs);
    assert_eq!(read_pin(&regs, 4), 1);

    board.event_keypress('a');
    board.sync(&mut regs);
    assert_eq!(read_pin(&regs, 4), 0);

    // A key that matches no hotkey changes nothing.
    board.event_keypress('z');
    board.sync(&mut regs);
    assert_eq!(read_pin(&regs, 4), 0);
}

#[test]
fn test_out_of_range_button_loads_but_never_drives_input() {
    let doc = board_doc(vec![button_doc(28, "BTN X", "x")]);
    let mut board = Board::from_doc(&doc).unwrap();
    assert_eq!(board.hardware.len(), 1);
    let mut regs = RegMemory::new();
    board.event_keypress('x');
    match &board.hardware[0] {
        Part::Button(button) => assert!(button.get()),
        _ => panic!("expected a button"),
    }
    let before = regs;
    board.sync(&mut regs);
    assert!(regs == before);
}

#[test]
fn test_reset_restores_defaults_and_boards_resync() {
    let doc = board_doc(vec![led_doc(17, "LED 1")]);
    let mut board = Board::from_doc(&doc).unwrap();
    let mut regs = RegMemory::new();
    regs.output.write(0x000000FF);
    regs.output.write_pin(17, 1);
    board.sync(&mut regs);
    match &board.hardware[0] {
        Part::Led(led) => assert!(led.get()),
        _ => panic!("expected an LED"),
    }

    regs.reset();
    assert_eq!(regs.config.read(), 0xFFFFFFFF);
    assert_eq!(regs.output.read(), 0);
    assert_eq!(regs.input.read(), 0);

    board.sync(&mut regs);
    match &board.hardware[0] {
        Part::Led(led) => assert!(!led.get()),
        _ => panic!("expected an LED"),
    }
}

#[test]
fn test_color_names_case_insensitive() {
    assert_eq!(color_from_name("LightRed"), Some(Color::LightRed));
    assert_eq!(color_from_name("DARKGRAY"), Some(Color::DarkGray));
    assert_eq!(color_from_name("cyan"), Some(Color::Cyan));
    assert_eq!(color_from_name("chartreuse"), None);
    assert_eq!(color_from_name(""), None);
}

#[test]
fn test_unknown_color_keeps_default() {
    let doc = DocValue::Object(vec![
        entry("type", string_value("simpi/led")),
        entry("colorOn", string_value("chartreuse")),
    ]);
    let led = Led::from_doc(&doc).unwrap();
    assert_eq!(led.color_on, Color::LightRed);
    assert_eq!(led.color_off, Color::Black);
    assert_eq!(led.name, "LED $n");
}

#[test]
fn test_last_entry_wins_for_scalars() {
    let doc = DocValue::Object(vec![
        entry("type", string_value("simpi/button")),
        entry("pin", DocValue::UInt(3)),
        entry("pin", DocValue::UInt(7)),
        entry("pin", string_value("not a pin")),
    ]);
    let button = Button::from_doc(&doc).unwrap();
    assert_eq!(button.pin, 7);
    assert_eq!(button.name, "BTN $n");
    assert_eq!(button.hotkey, "");
}

#[test]
fn test_hardware_counts() {
    let doc = board_doc(vec![
        led_doc(17, "L1"),
        button_doc(4, "B1", "a"),
        led_doc(18, "L2"),
        DocValue::Null,
    ]);
    let board = Board::from_doc(&doc).unwrap();
    assert_eq!(board.hardware_counts(), (2, 1));
}

#[test]
fn test_board_clone_keeps_parts() {
    let doc = board_doc(vec![led_doc(17, "L1"), button_doc(4, "B1", "a")]);
    let board = Board::from_doc(&doc).unwrap();
    let copy = board.clone();
    assert_eq!(copy.name, board.name);
    assert_eq!(copy.hardware.len(), 2);
}
