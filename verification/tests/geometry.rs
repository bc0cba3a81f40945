use fltk::app::App;
use fltk::button::Button;
use fltk::frame::Frame;
use fltk::group::Group;
use fltk::menu::{Choice, MenuBar, MenuButton};
use fltk::prelude::{half_gap, WidgetTrait, WindowTrait};
use fltk::window::Window;

fn geometry<W: WidgetTrait>(app: &App, w: &W) -> (i32, i32, i32, i32) {
    (w.x(app), w.y(app), w.width(app), w.height(app))
}

#[test]
fn default_widgets_have_zero_geometry() {
    let mut app = App::default();
    let win = Window::default(&mut app);
    let bar = MenuBar::default(&mut app);
    let menu = MenuButton::default(&mut app);
    let choice = Choice::default(&mut app);
    let but = Button::default(&mut app);
    let frame = Frame::default(&mut app);
    assert_eq!(geometry(&app, &win), (0, 0, 0, 0));
    assert_eq!(geometry(&app, &bar), (0, 0, 0, 0));
    assert_eq!(geometry(&app, &menu), (0, 0, 0, 0));
    assert_eq!(geometry(&app, &choice), (0, 0, 0, 0));
    assert_eq!(geometry(&app, &but), (0, 0, 0, 0));
    assert_eq!(geometry(&app, &frame), (0, 0, 0, 0));
    assert_eq!(but.label(&app), "");
}

#[test]
fn geometry_stays_zero_until_set() {
    let mut app = App::default();
    let mut but = Button::default(&mut app);
    let mut other = Button::new(&mut app, 5, 6, 7, 8, "other");
    but.set_label(&mut app, "ok");
    but.conceal(&mut app);
    other.resize(&mut app, 9, 9, 9, 9);
    assert_eq!(geometry(&app, &but), (0, 0, 0, 0));
    assert_eq!(geometry(&app, &other), (9, 9, 9, 9));
}

#[test]
fn new_takes_geometry_and_label() {
    let mut app = App::default();
    let but = Button::new(&mut app, 160, 210, 80, 40, "Click me!");
    assert_eq!(geometry(&app, &but), (160, 210, 80, 40));
    assert_eq!(but.label(&app), "Click me!");
}

#[test]
fn with_size_and_with_pos_round_trip() {
    let mut app = App::default();
    for &(a, b) in &[(0, 0), (1, 2), (400, 300), (-7, 12), (i32::MAX, i32::MIN)] {
        let w = Frame::default(&mut app).with_size(&mut app, a, b);
        assert_eq!(geometry(&app, &w), (0, 0, a, b));
        let w = w.with_pos(&mut app, b, a);
        assert_eq!(geometry(&app, &w), (b, a, a, b));
    }
}

#[test]
fn with_label_sets_label_only() {
    let mut app = App::default();
    let w = Button::new(&mut app, 1, 2, 3, 4, "a").with_label(&mut app, "next");
    assert_eq!(w.label(&app), "next");
    assert_eq!(geometry(&app, &w), (1, 2, 3, 4));
}

#[test]
fn relative_positions_for_paddings() {
    for &pad in &[0, 1, 100] {
        let mut app = App::default();
        let anchor = Button::new(&mut app, 10, 20, 30, 40, "anchor");
        let w = Button::default(&mut app).with_size(&mut app, 8, 6);

        let w = w.right_of(&mut app, &anchor, pad);
        assert_eq!(geometry(&app, &w), (10 + 30 + pad, 20, 8, 6));

        let w = w.left_of(&mut app, &anchor, pad);
        assert_eq!(geometry(&app, &w), (10 - 8 - pad, 20, 8, 6));

        let w = w.below_of(&mut app, &anchor, pad);
        assert_eq!(geometry(&app, &w), (10, 20 + 40 + pad, 8, 6));

        let w = w.above_of(&mut app, &anchor, pad);
        assert_eq!(geometry(&app, &w), (10, 20 - pad - 6, 8, 6));
    }
}

#[test]
fn relative_position_is_a_snapshot() {
    let mut app = App::default();
    let mut anchor = Button::new(&mut app, 10, 20, 30, 40, "anchor");
    let w = Button::default(&mut app).with_size(&mut app, 8, 6).right_of(&mut app, &anchor, 5);
    anchor.resize(&mut app, 100, 100, 100, 100);
    assert_eq!(geometry(&app, &w), (45, 20, 8, 6));
}

#[test]
fn relative_position_at_the_limits() {
    let mut app = App::default();
    let anchor = Button::new(&mut app, i32::MAX - 10, 0, 10, 0, "edge");
    let w = Button::default(&mut app).right_of(&mut app, &anchor, 0);
    assert_eq!(w.x(&app), i32::MAX);
    // the sum of place and width is beyond the range, the padding brings it back
    let anchor = Button::new(&mut app, i32::MAX, 0, 10, 0, "edge");
    let w = Button::default(&mut app).right_of(&mut app, &anchor, -10);
    assert_eq!(w.x(&app), i32::MAX);
}

#[test]
fn size_of_copies_size() {
    let mut app = App::default();
    let wind = Window::default(&mut app).with_size(&mut app, 400, 300);
    let frame = Frame::default(&mut app).with_pos(&mut app, 3, 4).size_of(&mut app, &wind);
    assert_eq!(geometry(&app, &frame), (3, 4, 400, 300));
}

#[test]
fn center_of_window_counts_from_its_corner() {
    let mut app = App::default();
    let wind = Window::new(&mut app, 50, 60, 400, 300, "w");
    let but = Button::default(&mut app).with_size(&mut app, 80, 40).center_of(&mut app, &wind);
    assert_eq!(geometry(&app, &but), (160, 130, 80, 40));
}

#[test]
fn center_of_group_counts_from_the_group() {
    let mut app = App::default();
    let grp = Group::new(&mut app, 50, 60, 400, 300, "g");
    let but = Button::default(&mut app).with_size(&mut app, 80, 40).center_of(&mut app, &grp);
    assert_eq!(geometry(&app, &but), (210, 190, 80, 40));
}

#[test]
fn center_rounds_towards_zero() {
    assert_eq!(half_gap(3, 6), -1);
    assert_eq!(half_gap(6, 3), 1);
    assert_eq!(half_gap(0, 0), 0);
    assert_eq!(half_gap(i32::MIN, i32::MAX), i32::MIN + 1);
    assert_eq!(half_gap(i32::MAX, i32::MIN), i32::MAX);
    let mut app = App::default();
    let grp = Group::new(&mut app, 0, 0, 3, 3, "g");
    let but = Button::default(&mut app).with_size(&mut app, 6, 8).center_of(&mut app, &grp);
    assert_eq!(geometry(&app, &but), (-1, -2, 6, 8));
}

#[test]
fn center_screen_uses_screen_size() {
    let mut app = App::default();
    app.set_screen_size(1920, 1080);
    assert_eq!(app.screen_size(), (1920, 1080));
    let wind = Window::default(&mut app).with_size(&mut app, 400, 300).center_screen(&mut app);
    assert_eq!(geometry(&app, &wind), (760, 390, 400, 300));
}
