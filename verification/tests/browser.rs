use fltk::app::App;
use fltk::browser::Browser;
use fltk::prelude::{BrowserTrait, WidgetTrait};
use fltk::state::Image;
use fltk::text::split_lines;

fn texts(app: &App, b: &Browser) -> Vec<String> {
    (1..=b.size(app)).map(|line| b.text(app, line).unwrap()).collect()
}

fn filled(app: &mut App, items: &[&str]) -> Browser {
    let mut b = Browser::default(app);
    for item in items {
        b.add(app, item);
    }
    b
}

#[test]
fn lines_count_from_one() {
    let mut app = App::default();
    let b = filled(&mut app, &["a", "b", "c"]);
    assert_eq!(b.size(&app), 3);
    assert_eq!(b.text(&app, 0), None);
    assert_eq!(b.text(&app, 1), Some(String::from("a")));
    assert_eq!(b.text(&app, 3), Some(String::from("c")));
    assert_eq!(b.text(&app, 4), None);
}

#[test]
fn insert_lands_before_the_line() {
    let mut app = App::default();
    let mut b = Browser::default(&mut app);
    b.insert(&mut app, 5, "only");
    assert_eq!(texts(&app, &b), ["only"]);
    b.insert(&mut app, 0, "front");
    b.insert(&mut app, 1, "first");
    b.insert(&mut app, 99, "last");
    b.insert(&mut app, 3, "third");
    assert_eq!(texts(&app, &b), ["first", "front", "third", "only", "last"]);
    b.insert(&mut app, 5, "fifth");
    assert_eq!(texts(&app, &b), ["first", "front", "third", "only", "fifth", "last"]);
}

#[test]
fn remove_takes_a_line_out() {
    let mut app = App::default();
    let mut b = filled(&mut app, &["a", "b", "c"]);
    b.remove(&mut app, 0);
    b.remove(&mut app, 4);
    assert_eq!(texts(&app, &b), ["a", "b", "c"]);
    b.remove(&mut app, 2);
    assert_eq!(texts(&app, &b), ["a", "c"]);
    b.remove(&mut app, 2);
    b.remove(&mut app, 1);
    assert_eq!(b.size(&app), 0);
    b.remove(&mut app, 1);
    assert_eq!(b.size(&app), 0);
}

#[test]
fn move_item_counts_without_the_line() {
    let mut app = App::default();
    let mut b = filled(&mut app, &["a", "b", "c", "d"]);
    b.move_item(&mut app, 1, 3);
    assert_eq!(texts(&app, &b), ["c", "a", "b", "d"]);
    b.move_item(&mut app, 4, 1);
    assert_eq!(texts(&app, &b), ["a", "b", "d", "c"]);
    b.move_item(&mut app, 3, 1);
    assert_eq!(texts(&app, &b), ["b", "d", "a", "c"]);
    b.move_item(&mut app, 2, 2);
    assert_eq!(texts(&app, &b), ["b", "d", "a", "c"]);
    b.move_item(&mut app, 1, 0);
    b.move_item(&mut app, 1, 5);
    assert_eq!(texts(&app, &b), ["b", "d", "a", "c"]);
}

#[test]
fn swap_changes_places() {
    let mut app = App::default();
    let mut b = filled(&mut app, &["a", "b", "c", "d"]);
    b.select(&mut app, 1);
    b.swap(&mut app, 1, 4);
    assert_eq!(texts(&app, &b), ["d", "b", "c", "a"]);
    // the selection goes with the line
    assert!(b.selected(&app, 4));
    assert!(!b.selected(&app, 1));
    b.swap(&mut app, 3, 2);
    assert_eq!(texts(&app, &b), ["d", "c", "b", "a"]);
    b.swap(&mut app, 2, 2);
    b.swap(&mut app, 0, 2);
    b.swap(&mut app, 2, 5);
    assert_eq!(texts(&app, &b), ["d", "c", "b", "a"]);
}

#[test]
fn one_line_is_selected_at_a_time() {
    let mut app = App::default();
    let mut b = filled(&mut app, &["a", "b", "c"]);
    assert!(!b.selected(&app, 1) && !b.selected(&app, 2) && !b.selected(&app, 3));
    b.select(&mut app, 2);
    assert!(!b.selected(&app, 1) && b.selected(&app, 2) && !b.selected(&app, 3));
    b.select(&mut app, 3);
    assert!(!b.selected(&app, 1) && !b.selected(&app, 2) && b.selected(&app, 3));
    b.select(&mut app, 7);
    assert!(b.selected(&app, 3));
    assert!(!b.selected(&app, 0));
    assert!(!b.selected(&app, 7));
}

#[test]
fn text_and_icon_of_a_line() {
    let mut app = App::default();
    let mut b = filled(&mut app, &["a", "b"]);
    b.set_text(&mut app, 2, "bee");
    b.set_text(&mut app, 3, "sea");
    assert_eq!(texts(&app, &b), ["a", "bee"]);
    let img = Image { resource: 0, width: 16, height: 16 };
    assert_eq!(b.icon(&app, 1), None);
    b.set_icon(&mut app, 1, &img);
    b.set_icon(&mut app, 9, &img);
    assert_eq!(b.icon(&app, 1), Some(img));
    assert_eq!(b.icon(&app, 2), None);
    assert_eq!(b.icon(&app, 9), None);
    b.remove_icon(&mut app, 1);
    assert_eq!(b.icon(&app, 1), None);
}

#[test]
fn clear_and_sizes() {
    let mut app = App::default();
    let mut b = filled(&mut app, &["a", "b"]);
    b.set_size(&mut app, 120, 80);
    assert_eq!((b.width(&app), b.height(&app)), (120, 80));
    b.set_text_size(&mut app, 20);
    assert_eq!(b.text_size(&app), 20);
    b.clear(&mut app);
    assert_eq!(b.size(&app), 0);
    assert_eq!(b.text(&app, 1), None);
}

#[test]
fn load_file_replaces_the_lines() {
    let mut app = App::default();
    let mut b = filled(&mut app, &["old"]);
    b.select(&mut app, 1);
    b.load_file(&mut app, "one\ntwo\n\nfour");
    assert_eq!(texts(&app, &b), ["one", "two", "", "four"]);
    assert!(!b.selected(&app, 1));
    // a text that ends in a line feed ends in an empty line
    b.load_file(&mut app, "one\n");
    assert_eq!(texts(&app, &b), ["one", ""]);
    b.load_file(&mut app, "");
    assert_eq!(texts(&app, &b), [""]);
}

#[test]
fn lines_of_a_text() {
    assert_eq!(split_lines(""), [""]);
    assert_eq!(split_lines("a"), ["a"]);
    assert_eq!(split_lines("\n"), ["", ""]);
    assert_eq!(split_lines("é\nü\r\n"), ["é", "ü\r", ""]);
}
