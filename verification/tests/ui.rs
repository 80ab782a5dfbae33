use simpi::board::Board;
use simpi::board_manager::{BmRequest, BoardManager, FocusArea};
use simpi::broker::{Broker, BrokerCmd, BrokerPage};
use simpi::doc::DocValue;
use simpi::gpioregs::RegMemory;
use simpi::help::{Article, Help};
use simpi::keys::Key;
use simpi::layout::{Rect, get_body_margin, is_rect_in_range};
use simpi::part::Part;
use simpi::pin_api::{read_pin, write_pin};
use simpi::strutil::{str_eq, str_eq_ignore_ascii_case};

fn entry(key: &str, value: DocValue) -> (String, DocValue) {
    (String::from(key), value)
}

fn string_value(s: &str) -> DocValue {
    DocValue::Str(String::from(s))
}

fn sample_board() -> Board {
    let doc = DocValue::Object(vec![
        entry("type", string_value("simpi/board")),
        entry("name", string_value("Demo")),
        entry(
            "hardware",
            DocValue::Array(vec![DocValue::Object(vec![
                entry("type", string_value("simpi/led")),
                entry("pin", DocValue::UInt(17)),
            ])]),
        ),
    ]);
    Board::from_doc(&doc).unwrap()
}

#[test]
fn test_help_articles_from_doc() {
    let doc = DocValue::Array(vec![
        DocValue::Object(vec![
            entry("title", string_value("Welcome to the simulator")),
            entry("menuTitle", string_value("Welcome")),
            entry(
                "body",
                DocValue::Array(vec![
                    string_value("First paragraph."),
                    string_value("Second paragraph."),
                ]),
            ),
        ]),
        DocValue::Null,
        DocValue::Object(vec![entry("menuTitle", string_value("Empty"))]),
    ]);
    let articles = Article::create_vec_from_doc(&doc);
    assert_eq!(articles.len(), 2);
    assert_eq!(articles[0].title, "Welcome to the simulator");
    assert_eq!(articles[0].menu_title, "Welcome");
    assert_eq!(articles[0].body, "First paragraph.\n\nSecond paragraph.\n\n");
    assert_eq!(articles[1].title, "");
    assert_eq!(articles[1].menu_title, "Empty");
    assert_eq!(articles[1].body, "");

    // Anything but an array at the root gives no articles.
    assert!(Article::create_vec_from_doc(&string_value("x")).is_empty());
}

#[test]
fn test_help_paging_and_scrolling() {
    let articles = vec![
        Article { title: String::from("A"), menu_title: String::from("A"), body: String::new() },
        Article { title: String::from("B"), menu_title: String::from("B"), body: String::new() },
    ];
    let mut help = Help::new(articles);
    assert_eq!(help.active_article, 1);
    assert!(!help.event_keypress('x'));

    assert!(help.event_keypress_special(Key::PageDown));
    assert_eq!(help.active_article, 2);
    assert!(help.event_keypress_special(Key::PageDown));
    assert_eq!(help.active_article, 2);
    assert!(help.event_keypress_special(Key::PageUp));
    assert_eq!(help.active_article, 1);
    assert!(help.event_keypress_special(Key::PageUp));
    assert_eq!(help.active_article, 1);

    // A 30-line article in a 20-line viewport overflows by 10.
    assert_eq!(help.compute_scroll(30, 20), 0);
    assert_eq!(help.overflow_lines, 10);
    assert!(help.event_keypress_special(Key::Down));
    assert_eq!(help.scroll_offset, 4);
    assert!(help.event_keypress_special(Key::Down));
    assert_eq!(help.scroll_offset, 8);
    assert!(help.event_keypress_special(Key::Down));
    assert_eq!(help.scroll_offset, 10);
    assert!(help.event_keypress_special(Key::Up));
    assert_eq!(help.scroll_offset, 6);
    assert_eq!(help.compute_scroll(30, 20), 6);
    // A short article rests at the top.
    assert_eq!(help.compute_scroll(5, 20), 0);
    assert_eq!(help.overflow_lines, 0);
    assert!(!help.event_keypress_special(Key::Enter));
}

#[test]
fn test_board_manager_open_flow() {
    let mut bm = BoardManager::default();
    assert_eq!(bm.active_tab, 1);
    assert_eq!(bm.current_focus_area, FocusArea::Tab);

    // Move to the open-board tab and type a path.
    assert_eq!(bm.event_keypress_special(Key::Down), BmRequest::Handled);
    assert_eq!(bm.event_keypress_special(Key::Down), BmRequest::Handled);
    assert_eq!(bm.active_tab, 3);
    assert_eq!(bm.event_keypress_special(Key::Enter), BmRequest::Handled);
    assert_eq!(bm.current_focus_area, FocusArea::Content);
    assert!(!bm.event_keypress('d'));
    assert!(!bm.event_keypress('e'));
    assert!(!bm.event_keypress('m'));
    assert!(!bm.event_keypress('x'));
    assert_eq!(bm.event_keypress_special(Key::Backspace), BmRequest::Handled);
    assert!(!bm.event_keypress('o'));
    assert_eq!(bm.tmp_open_board_str, "demo");

    // Enter asks the surrounding process to load the typed path.
    assert_eq!(bm.event_keypress_special(Key::Enter), BmRequest::OpenBoard);
    bm.finish_open(Ok(sample_board()));
    assert_eq!(bm.current_focus_area, FocusArea::Field);

    // Confirming adds the board and returns to the menu.
    assert!(!bm.event_keypress('y'));
    assert_eq!(bm.boards.len(), 1);
    assert_eq!(bm.boards[0].name, "Demo");
    assert_eq!(bm.current_focus_area, FocusArea::Tab);
    assert_eq!(bm.tmp_open_board_str, "");
}

#[test]
fn test_board_manager_failed_open_shows_error() {
    let mut bm = BoardManager::default();
    bm.finish_open(Err(String::from("Input data is invalid!")));
    assert_eq!(bm.current_focus_area, FocusArea::Field);
    assert!(bm.tmp_open_board.is_err());
    // Declining drops back to the content without adding a board.
    bm.active_tab = 3;
    assert!(!bm.event_keypress('n'));
    assert_eq!(bm.current_focus_area, FocusArea::Content);
    assert!(bm.boards.is_empty());
}

#[test]
fn test_board_manager_remove_flow() {
    let mut bm = BoardManager::default();
    bm.boards.push(sample_board());
    bm.active_tab = 6;
    bm.current_focus_area = FocusArea::Field;
    bm.active_content = 1;
    assert!(!bm.event_keypress('y'));
    assert!(bm.boards.is_empty());
    assert_eq!(bm.current_focus_area, FocusArea::Content);

    // An out-of-bounds selection removes nothing.
    bm.boards.push(sample_board());
    bm.current_focus_area = FocusArea::Field;
    bm.active_content = 5;
    assert!(!bm.event_keypress('y'));
    assert_eq!(bm.boards.len(), 1);
}

#[test]
fn test_broker_function_keys() {
    let mut broker = Broker::new();
    assert_eq!(broker.active_page, BrokerPage::GpioRegs);
    assert_eq!(broker.tick_rate, 50);

    assert_eq!(broker.handle_function_key(1), BrokerCmd::Idle);
    assert_eq!(broker.active_page, BrokerPage::Help);
    assert_eq!(broker.handle_function_key(1), BrokerCmd::Idle);
    assert_eq!(broker.active_page, BrokerPage::GpioRegs);

    assert_eq!(broker.handle_function_key(2), BrokerCmd::Idle);
    assert_eq!(broker.active_page, BrokerPage::BoardManager);
    assert_eq!(broker.handle_function_key(2), BrokerCmd::Idle);
    assert_eq!(broker.active_page, BrokerPage::GpioRegs);

    assert_eq!(broker.handle_function_key(7), BrokerCmd::TakeSnapshot);
    assert!(broker.is_paused);
    let mut snapshot = RegMemory::new();
    snapshot.output.write(0x42);
    broker.set_snapshot(snapshot);
    assert_eq!(broker.reg_memory_snapshot.output.read(), 0x42);
    assert_eq!(broker.handle_function_key(7), BrokerCmd::Idle);
    assert!(!broker.is_paused);

    assert_eq!(broker.handle_function_key(8), BrokerCmd::ResetBank);
    assert_eq!(broker.handle_function_key(9), BrokerCmd::Quit);
    assert_eq!(broker.handle_function_key(4), BrokerCmd::Idle);
}

#[test]
fn test_broker_tick_syncs_every_board() {
    let mut broker = Broker::new();
    broker.bm.boards.push(sample_board());
    let mut regs = RegMemory::new();
    write_pin(&mut regs, 17, 1);
    broker.sync_boards(&mut regs);
    match &broker.bm.boards[0].hardware[0] {
        Part::Led(led) => assert!(led.get()),
        _ => panic!("expected an LED"),
    }
    assert_eq!(read_pin(&regs, 17), 0);
}

#[test]
fn test_rect_in_range() {
    let parent = Rect { x: 0, y: 0, width: 40, height: 20 };
    assert!(is_rect_in_range(parent, Rect { x: 1, y: 1, width: 9, height: 2 }));
    assert!(!is_rect_in_range(parent, Rect { x: 0, y: 1, width: 9, height: 2 }));
    assert!(!is_rect_in_range(parent, Rect { x: 35, y: 1, width: 9, height: 2 }));
    assert!(!is_rect_in_range(parent, Rect { x: 1, y: 19, width: 9, height: 2 }));
}

#[test]
fn test_body_margin() {
    assert_eq!(get_body_margin(Rect { x: 0, y: 0, width: 200, height: 1 }, 128), 18);
    assert_eq!(get_body_margin(Rect { x: 0, y: 0, width: 100, height: 1 }, 128), 0);
    assert_eq!(get_body_margin(Rect { x: 0, y: 0, width: 128, height: 1 }, 128), 0);
}

#[test]
fn test_string_comparisons() {
    assert!(str_eq("type", "type"));
    assert!(!str_eq("type", "typo"));
    assert!(!str_eq("type", "typ"));
    assert!(str_eq_ignore_ascii_case("LightRed", "lightred"));
    assert!(str_eq_ignore_ascii_case("", ""));
    assert!(!str_eq_ignore_ascii_case("gray", "grey"));
}
