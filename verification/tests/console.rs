use spin::Mutex;
use vga_console::{Buffer, Cells, Color, ColorCode, ScreenChar, Writer, _print, BUFFER_WIDTH};
use volatile::Volatile;

fn yellow() -> ColorCode {
    ColorCode::new(Color::Yellow, Color::Black)
}

fn shared_console() -> &'static Mutex<Writer> {
    let blank = ScreenChar { ascii_character: b' ', color_code: yellow() };
    let cells: Cells =
        core::array::from_fn(|_| core::array::from_fn(|_| Volatile::new(blank.to_bytes())));
    let writer = Writer::new(Buffer::new(Box::leak(Box::new(cells))));
    Box::leak(Box::new(Mutex::new(writer)))
}

fn row_text(console: &Mutex<Writer>, row: usize) -> Vec<u8> {
    let writer = console.lock();
    (0..BUFFER_WIDTH).map(|col| writer.read(row, col).ascii_character).collect()
}

#[test]
fn print_writes_the_text_to_the_shared_console() {
    let console = shared_console();
    _print(console, "Hello World!");
    assert_eq!(&row_text(console, 24)[0..13], b"Hello World! ");
    let writer = console.lock();
    assert_eq!(writer.column_position(), 12);
    assert_eq!(
        writer.read(24, 0),
        ScreenChar { ascii_character: b'H', color_code: yellow() }
    );
}

#[test]
fn print_gives_the_lock_back() {
    let console = shared_console();
    _print(console, "one\n");
    assert!(console.try_lock().is_some());
    _print(console, "two\n");
    assert!(console.try_lock().is_some());
    assert_eq!(&row_text(console, 22)[0..4], b"one ");
    assert_eq!(&row_text(console, 23)[0..4], b"two ");
}

#[test]
fn print_with_a_newline_ends_the_line() {
    let console = shared_console();
    _print(console, "Hello World!\n");
    assert_eq!(&row_text(console, 23)[0..13], b"Hello World! ");
    assert_eq!(row_text(console, 24), vec![b' '; 80]);
    assert_eq!(console.lock().column_position(), 0);
}

#[test]
fn print_replaces_what_the_display_cannot_show() {
    let console = shared_console();
    _print(console, "caf\u{e9}");
    assert_eq!(&row_text(console, 24)[0..6], &[b'c', b'a', b'f', 0xfe, 0xfe, b' ']);
}

#[test]
fn a_held_console_cannot_be_taken_by_a_second_caller() {
    let console = shared_console();
    let first = console.lock();
    assert!(console.try_lock().is_none());
    drop(first);
    assert!(console.try_lock().is_some());
}

#[test]
fn two_callers_write_one_after_the_other() {
    let console = shared_console();
    _print(console, &"A".repeat(80 * 5));
    _print(console, &"B".repeat(80 * 5));
    let rows: Vec<Vec<u8>> = (15..25).map(|row| row_text(console, row)).collect();
    let a_then_b: Vec<Vec<u8>> =
        (0..10).map(|line| vec![if line < 5 { b'A' } else { b'B' }; 80]).collect();
    assert_eq!(rows, a_then_b);
    assert_eq!(console.lock().column_position(), 80);
}
