use fltk::app::{App, Phase, Scheme};
use fltk::error::{FltkError, FltkErrorKind};

#[test]
fn run_before_initialization_fails() {
    let mut app = App::new();
    assert_eq!(app.phase(), Phase::Uninitialized);
    let r = app.run();
    assert!(matches!(r, Err(FltkError::Internal(FltkErrorKind::FailedToRun))));
    assert_eq!(app.phase(), Phase::Uninitialized);
}

#[test]
fn run_twice_fails() {
    let mut app = App::default();
    assert_eq!(app.phase(), Phase::Ready);
    assert!(app.run().is_ok());
    assert_eq!(app.phase(), Phase::Running);
    let r = app.run();
    assert!(matches!(r, Err(FltkError::Internal(FltkErrorKind::FailedToRun))));
    assert_eq!(app.phase(), Phase::Running);
}

#[test]
fn init_happens_once() {
    let mut app = App::new();
    app.init();
    assert_eq!(app.phase(), Phase::Ready);
    assert!(app.run().is_ok());
    app.init();
    assert_eq!(app.phase(), Phase::Running);
}

#[test]
fn lock_reports_the_toolkit_answer() {
    let mut app = App::default();
    assert!(!app.is_locked());
    let r = app.lock(7);
    assert!(matches!(r, Err(FltkError::Internal(FltkErrorKind::FailedToLock))));
    assert!(!app.is_locked());
    assert!(app.lock(0).is_ok());
    assert!(app.is_locked());
    let r = app.lock(-1);
    assert!(matches!(r, Err(FltkError::Internal(FltkErrorKind::FailedToLock))));
    let r = app.lock(1);
    assert!(matches!(r, Err(FltkError::Internal(FltkErrorKind::FailedToLock))));
    // a failed attempt takes nothing away
    assert!(app.is_locked());
    app.unlock();
    assert!(!app.is_locked());
}

#[test]
fn schemes_by_name() {
    let mut app = App::default();
    assert_eq!(app.scheme(), Scheme::Base);
    assert!(app.set_scheme("gtk+").is_ok());
    assert_eq!(app.scheme(), Scheme::Gtk);
    assert!(app.set_scheme("gleam").is_ok());
    assert_eq!(app.scheme(), Scheme::Gleam);
    assert!(app.set_scheme("plastic").is_ok());
    assert_eq!(app.scheme(), Scheme::Plastic);
    assert!(app.set_scheme("base").is_ok());
    assert_eq!(app.scheme(), Scheme::Base);
}

#[test]
fn unknown_scheme_is_an_error() {
    let mut app = App::default().with_scheme(Scheme::Gtk);
    for name in ["", "GTK+", "gtk", "metal", "gtk+ "] {
        let r = app.set_scheme(name);
        assert!(matches!(r, Err(FltkError::Internal(FltkErrorKind::FailedToSetScheme))));
        assert_eq!(app.scheme(), Scheme::Gtk);
    }
}

#[test]
fn scheme_names_round_trip() {
    for s in [Scheme::Base, Scheme::Gtk, Scheme::Gleam, Scheme::Plastic] {
        assert_eq!(Scheme::from_name(s.name()).unwrap(), s);
    }
    assert_eq!(Scheme::Gtk.name(), "gtk+");
}

#[test]
fn resources_are_found_by_name() {
    let mut app = App::default();
    assert!(matches!(
        app.find_resource("icon.png"),
        Err(FltkError::Internal(FltkErrorKind::ResourceNotFound))
    ));
    app.add_resource("icon.png");
    app.add_resource("logo.png");
    app.add_resource("icon.png");
    assert_eq!(app.find_resource("icon.png").unwrap(), 0);
    assert_eq!(app.find_resource("logo.png").unwrap(), 1);
    assert!(matches!(
        app.find_resource("Icon.png"),
        Err(FltkError::Internal(FltkErrorKind::ResourceNotFound))
    ));
}
