use fltk::app::App;
use fltk::button::Button;
use fltk::enums::CallbackTrigger;
use fltk::frame::Frame;
use fltk::prelude::{GroupTrait, WidgetBase, WidgetTrait};
use fltk::state::Callback;
use fltk::window::Window;

/// The callables of a test, kept by the test and named by their place.
struct Closures<'a> {
    list: Vec<Box<dyn FnMut(&mut App) + 'a>>,
}

impl<'a> Closures<'a> {
    fn new() -> Self {
        Closures { list: Vec::new() }
    }

    fn keep(&mut self, f: impl FnMut(&mut App) + 'a) -> Callback {
        self.list.push(Box::new(f));
        Callback { id: (self.list.len() - 1) as u64 }
    }

    /// Triggers `w` and calls what is due.
    fn trigger<W: WidgetTrait>(&mut self, app: &mut App, w: &mut W) {
        if let Some(cb) = w.do_callback(app) {
            (self.list[cb.id as usize])(app);
        }
    }
}

#[test]
fn do_callback_calls_once_per_call() {
    let count = std::cell::Cell::new(0);
    let mut app = App::default();
    let mut but = Button::default(&mut app);
    let mut closures = Closures::new();
    let cb = closures.keep(|_| count.set(count.get() + 1));
    but.set_callback(&mut app, cb);
    assert_eq!(count.get(), 0);
    for n in 1..=5 {
        closures.trigger(&mut app, &mut but);
        assert_eq!(count.get(), n);
    }
}

#[test]
fn do_callback_answers_with_what_was_registered_last() {
    let mut app = App::default();
    let mut but = Button::default(&mut app);
    let mut other = Button::default(&mut app);
    assert_eq!(but.do_callback(&app), None);
    but.set_callback(&mut app, Callback { id: 7 });
    other.set_callback(&mut app, Callback { id: 8 });
    assert_eq!(but.do_callback(&app), Some(Callback { id: 7 }));
    assert_eq!(but.do_callback(&app), Some(Callback { id: 7 }));
    but.set_callback(&mut app, Callback { id: 11 });
    assert_eq!(but.do_callback(&app), Some(Callback { id: 11 }));
    assert_eq!(other.do_callback(&app), Some(Callback { id: 8 }));
    but.clear_callback(&mut app);
    assert_eq!(but.do_callback(&app), None);
}

#[test]
fn hello_button() {
    let mut app = App::default();
    let wind = Window::default(&mut app).with_size(&mut app, 400, 300);
    let mut frame = Frame::default(&mut app).size_of(&mut app, &wind);
    let mut but = Button::new(&mut app, 160, 210, 80, 40, "Click me!");
    wind.end(&mut app);
    let mut wind = wind;
    wind.show(&mut app);

    let mut closures = Closures::new();
    let cb = closures.keep(move |app| frame.set_label(app, "Hello world"));
    but.set_callback(&mut app, cb);
    assert_eq!(frame.label(&app), "");
    assert_eq!(but.label(&app), "Click me!");

    closures.trigger(&mut app, &mut but);
    assert_eq!(frame.label(&app), "Hello world");
}

#[test]
fn callback_may_change_its_own_widget() {
    let mut app = App::default();
    let mut but = Button::new(&mut app, 0, 0, 10, 10, "0");
    let mut closures = Closures::new();
    let mut me = but;
    let cb = closures.keep(move |app| {
        let next = if me.label(app) == "0" { "1" } else { "0" };
        me.set_label(app, next);
    });
    but.set_callback(&mut app, cb);
    closures.trigger(&mut app, &mut but);
    assert_eq!(but.label(&app), "1");
    closures.trigger(&mut app, &mut but);
    assert_eq!(but.label(&app), "0");
}

#[test]
fn low_level_hooks_are_kept_apart() {
    let mut app = App::default();
    let mut but = Button::default(&mut app);
    let h = but.as_widget_ptr();
    assert_eq!(app.props(h).custom_handler, None);
    assert_eq!(app.props(h).custom_draw, None);
    but.set_custom_handler(&mut app, Callback { id: 1 });
    but.set_custom_draw(&mut app, Callback { id: 2 });
    assert_eq!(app.props(h).custom_handler, Some(Callback { id: 1 }));
    assert_eq!(app.props(h).custom_draw, Some(Callback { id: 2 }));
    assert_eq!(but.do_callback(&app), None);
    assert_eq!(app.props(h).trigger, CallbackTrigger::Release);
    but.set_trigger(&mut app, CallbackTrigger::Changed);
    assert_eq!(app.props(h).trigger, CallbackTrigger::Changed);
}
