use fltk::app::App;
use fltk::button::Button;
use fltk::enums::{Align, Color, Font, FrameType, LabelType, WindowType, WidgetType};
use fltk::error::FltkError;
use fltk::frame::Frame;
use fltk::prelude::{WidgetBase, WidgetTrait, WindowTrait};
use fltk::state::{Image, WidgetKind};
use fltk::window::Window;

#[test]
fn fresh_widget_state() {
    let mut app = App::default();
    let mut but = Button::default(&mut app);
    let win = Window::default(&mut app);
    assert_eq!(app.kind(but.as_widget_ptr()), WidgetKind::Button);
    assert_eq!(app.kind(win.as_widget_ptr()), WidgetKind::Window);
    let p = app.props(but.as_widget_ptr());
    assert!(p.visible && p.active && !p.changed && !p.damaged && !p.label_damaged);
    // a window is out of sight until it is shown
    assert!(!app.props(win.as_widget_ptr()).visible);
    assert_eq!(but.tooltip(&app), None);
    assert_eq!(but.image(&app), None);
    assert_eq!(but.color(&app), Color::BackGround);
    assert_eq!(but.label_color(&app), Color::ForeGround);
    assert_eq!(but.selection_color(&app), Color::Selection);
    assert_eq!(but.label_font(&app), Font::Helvetica);
    assert_eq!(but.label_size(&app), 14);
    assert_eq!(but.align(&app), Align::Center);
}

#[test]
fn show_conceal_activate() {
    let mut app = App::default();
    let mut win = Window::default(&mut app);
    let h = win.as_widget_ptr();
    win.show(&mut app);
    assert!(app.props(h).visible);
    win.conceal(&mut app);
    assert!(!app.props(h).visible);
    win.deactivate(&mut app);
    assert!(!app.props(h).active);
    win.activate(&mut app);
    assert!(app.props(h).active);
    win.redraw(&mut app);
    assert!(app.props(h).damaged && !app.props(h).label_damaged);
    win.redraw_label(&mut app);
    assert!(app.props(h).label_damaged);
}

#[test]
fn property_pairs_round_trip() {
    let mut app = App::default();
    let mut w = Frame::default(&mut app);
    let mut other = Frame::default(&mut app);
    w.set_color(&mut app, Color::Red);
    w.set_label_color(&mut app, Color::Blue);
    w.set_selection_color(&mut app, Color::Green);
    w.set_label_font(&mut app, Font::CourierBold);
    w.set_label_size(&mut app, 255);
    w.set_align(&mut app, Align::Left);
    w.set_tooltip(&mut app, "a tip");
    assert_eq!(w.color(&app), Color::Red);
    assert_eq!(w.label_color(&app), Color::Blue);
    assert_eq!(w.selection_color(&app), Color::Green);
    assert_eq!(w.label_font(&app), Font::CourierBold);
    assert_eq!(w.label_size(&app), 255);
    assert_eq!(w.align(&app), Align::Left);
    assert_eq!(w.tooltip(&app), Some(String::from("a tip")));
    // the other widget kept its own
    assert_eq!(other.color(&app), Color::BackGround);
    assert_eq!(other.tooltip(&app), None);
    for sz in [0, 1, 255, -1, i32::MAX] {
        other.set_label_size(&mut app, sz);
        assert_eq!(other.label_size(&app), sz);
    }
}

#[test]
fn changed_mark() {
    let mut app = App::default();
    let mut w = Button::default(&mut app);
    assert!(!w.changed(&app));
    w.set_changed(&mut app);
    assert!(w.changed(&app));
    w.clear_changed(&mut app);
    assert!(!w.changed(&app));
}

#[test]
fn type_tags_are_read_through_their_enumeration() {
    let mut app = App::default();
    let mut w = Window::default(&mut app);
    assert!(matches!(w.get_type::<WindowType>(&app), Err(FltkError::Unknown(_))));
    w.set_type(&mut app, WindowType::Double);
    assert_eq!(w.get_type::<WindowType>(&app).unwrap(), WindowType::Double);
    assert_eq!(WindowType::Double.to_int(), 241);
    // the tag of one enumeration need not stand for a value of another
    assert!(w.get_type::<LabelType>(&app).is_err());

    w.set_frame(&mut app, FrameType::RoundedBox);
    assert_eq!(w.frame::<FrameType>(&app).unwrap(), FrameType::RoundedBox);
    assert_eq!(FrameType::RoundedBox.to_int(), 18);
    assert_eq!(w.frame::<LabelType>(&app).unwrap_err().description(), "Unrecognized tag");
    w.set_frame(&mut app, FrameType::DownBox);
    assert_eq!(w.frame::<LabelType>(&app).unwrap(), LabelType::Engraved);

    w.set_label_type(&mut app, LabelType::Shadow);
    assert_eq!(w.label_type::<LabelType>(&app).unwrap(), LabelType::Shadow);
}

#[test]
fn images() {
    let mut app = App::default();
    let mut w = Button::default(&mut app);
    let img = Image { resource: 3, width: 64, height: 48 };
    w.set_image(&mut app, &img);
    assert_eq!(w.image(&app), Some(img));
    w.set_image_with_size(&mut app, &img, 16, 12);
    assert_eq!(w.image(&app), Some(Image { resource: 3, width: 16, height: 12 }));

    let mut win = Window::default(&mut app);
    assert_eq!(win.icon(&app), None);
    win.set_icon(&mut app, &img);
    assert_eq!(win.icon(&app), Some(img));
}

#[test]
fn window_switches() {
    let mut app = App::default();
    let mut win = Window::default(&mut app);
    let h = win.as_widget_ptr();
    win.make_modal(&mut app, true);
    win.fullscreen(&mut app, true);
    win.make_resizable(&mut app, true);
    assert!(app.props(h).modal && app.props(h).fullscreen && app.props(h).resizable);
    win.make_modal(&mut app, false);
    assert!(!app.props(h).modal && app.props(h).fullscreen);
    assert_eq!(app.drawing(), None);
    win.make_current(&mut app);
    assert_eq!(app.drawing(), Some(h));
}
