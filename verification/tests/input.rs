use fltk::app::App;
use fltk::enums::{Color, Font};
use fltk::input::Input;
use fltk::prelude::{InputTrait, WidgetBase, WidgetTrait};

fn field(app: &mut App, text: &str) -> Input {
    let inp = Input::default(app);
    inp.set_value(app, text);
    inp
}

#[test]
fn value_round_trip() {
    let mut app = App::default();
    let inp = Input::default(&mut app);
    assert_eq!(inp.value(&app), "");
    assert_eq!(inp.maximum_size(&app), 32767);
    inp.set_value(&mut app, "héllo");
    assert_eq!(inp.value(&app), "héllo");
    assert_eq!(inp.position(&app), 5);
    assert_eq!(inp.mark(&app), 5);
    assert!(!inp.changed(&app));
}

#[test]
fn read_only_field_keeps_cursor_in_front() {
    let mut app = App::default();
    let mut inp = Input::default(&mut app);
    assert!(!inp.readonly(&app));
    inp.set_readonly(&mut app, true);
    assert!(inp.readonly(&app));
    inp.set_value(&mut app, "abc");
    assert_eq!((inp.position(&app), inp.mark(&app)), (0, 0));
}

#[test]
fn cursor_and_mark_stay_in_the_text() {
    let mut app = App::default();
    let mut inp = field(&mut app, "hello");
    inp.set_position(&mut app, 2);
    assert_eq!((inp.position(&app), inp.mark(&app)), (2, 2));
    inp.set_mark(&mut app, 4);
    assert_eq!((inp.position(&app), inp.mark(&app)), (2, 4));
    inp.set_position(&mut app, -3);
    assert_eq!((inp.position(&app), inp.mark(&app)), (0, 0));
    inp.set_mark(&mut app, 99);
    assert_eq!((inp.position(&app), inp.mark(&app)), (0, 5));
    inp.set_position(&mut app, i32::MAX);
    assert_eq!((inp.position(&app), inp.mark(&app)), (5, 5));
}

#[test]
fn replace_splices_text() {
    let mut app = App::default();
    let mut inp = field(&mut app, "hello world");
    inp.replace(&mut app, 0, 5, "HELLO");
    assert_eq!(inp.value(&app), "HELLO world");
    assert_eq!((inp.position(&app), inp.mark(&app)), (5, 5));
    assert!(inp.changed(&app));
    // the ends may come in either order and are moved into the text
    inp.replace(&mut app, 99, 6, "there");
    assert_eq!(inp.value(&app), "HELLO there");
    assert_eq!(inp.position(&app), 11);
    inp.replace(&mut app, 5, 5, ",");
    assert_eq!(inp.value(&app), "HELLO, there");
    assert_eq!(inp.position(&app), 6);
}

#[test]
fn replace_with_nothing_to_do_changes_nothing() {
    let mut app = App::default();
    let mut inp = field(&mut app, "abc");
    inp.set_position(&mut app, 1);
    inp.replace(&mut app, 2, 2, "");
    assert_eq!(inp.value(&app), "abc");
    assert_eq!(inp.position(&app), 1);
    assert!(!inp.changed(&app));
    inp.undo(&mut app);
    assert_eq!(inp.value(&app), "abc");
}

#[test]
fn edits_respect_the_greatest_size() {
    let mut app = App::default();
    let mut inp = field(&mut app, "abcd");
    inp.set_maximum_size(&mut app, 6);
    inp.append(&mut app, "efgh");
    assert_eq!(inp.value(&app), "abcdef");
    assert_eq!(inp.position(&app), 6);
    inp.append(&mut app, "x");
    assert_eq!(inp.value(&app), "abcdef");
    // what leaves makes room
    inp.replace(&mut app, 0, 3, "12345");
    assert_eq!(inp.value(&app), "123def");
    // a text that is already too long only shrinks
    inp.set_value(&mut app, "0123456789");
    inp.replace(&mut app, 0, 2, "ab");
    assert_eq!(inp.value(&app), "23456789");
    assert_eq!(inp.position(&app), 0);
}

#[test]
fn insert_replaces_the_selection() {
    let mut app = App::default();
    let mut inp = field(&mut app, "hello world");
    inp.set_position(&mut app, 5);
    inp.insert(&mut app, ",");
    assert_eq!(inp.value(&app), "hello, world");
    inp.set_position(&mut app, 7);
    inp.set_mark(&mut app, 12);
    inp.insert(&mut app, "you");
    assert_eq!(inp.value(&app), "hello, you");
    assert_eq!((inp.position(&app), inp.mark(&app)), (10, 10));
}

#[test]
fn copy_and_cut_use_the_clipboard() {
    let mut app = App::default();
    let mut inp = field(&mut app, "hello world");
    inp.copy(&mut app);
    assert_eq!(app.clipboard(), "");
    inp.set_position(&mut app, 6);
    inp.set_mark(&mut app, 11);
    inp.copy(&mut app);
    assert_eq!(app.clipboard(), "world");
    assert_eq!(inp.value(&app), "hello world");

    inp.set_position(&mut app, 5);
    inp.set_mark(&mut app, 0);
    inp.cut(&mut app);
    assert_eq!(app.clipboard(), "hello");
    assert_eq!(inp.value(&app), " world");
    assert_eq!((inp.position(&app), inp.mark(&app)), (0, 0));
    // with nothing selected a cut takes nothing
    inp.cut(&mut app);
    assert_eq!(app.clipboard(), "hello");
    assert_eq!(inp.value(&app), " world");
}

#[test]
fn undo_takes_the_last_edit_back() {
    let mut app = App::default();
    let mut inp = field(&mut app, "hello");
    inp.undo(&mut app);
    assert_eq!(inp.value(&app), "hello");
    inp.set_position(&mut app, 2);
    inp.append(&mut app, " world");
    assert_eq!(inp.value(&app), "hello world");
    inp.undo(&mut app);
    assert_eq!(inp.value(&app), "hello");
    assert_eq!((inp.position(&app), inp.mark(&app)), (2, 2));
    // a second undo brings the edit back
    inp.undo(&mut app);
    assert_eq!(inp.value(&app), "hello world");
    assert_eq!(inp.position(&app), 11);
    // a new text forgets the edits
    inp.set_value(&mut app, "new");
    inp.undo(&mut app);
    assert_eq!(inp.value(&app), "new");
}

#[test]
fn text_style_and_switches() {
    let mut app = App::default();
    let mut inp = Input::new(&mut app, 1, 2, 100, 20, "name");
    assert_eq!(inp.label(&app), "name");
    inp.set_text_font(&mut app, Font::Courier);
    inp.set_text_color(&mut app, Color::DarkBlue);
    inp.set_text_size(&mut app, 18);
    inp.set_wrap(&mut app, true);
    assert_eq!(inp.text_font(&app), Font::Courier);
    assert_eq!(inp.text_color(&app), Color::DarkBlue);
    assert_eq!(inp.text_size(&app), 18);
    assert!(inp.wrap(&app));
    assert!(app.is_valid(inp.as_widget_ptr()));
}
