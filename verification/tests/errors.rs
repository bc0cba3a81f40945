use fltk::enums::{Color, Event, Font, FrameType, LabelType, WidgetType};
use fltk::error::{check_text, unknown_message, FltkError, FltkErrorKind};

#[test]
fn kind_sentences() {
    assert_eq!(FltkErrorKind::FailedToRun.as_str(), "Failed to run FLTK!");
    assert_eq!(
        FltkErrorKind::FailedToLock.as_str(),
        "Failed to initialize app for multithreading!"
    );
    assert_eq!(FltkErrorKind::FailedToSetScheme.as_str(), "Failed to set scheme");
    assert_eq!(FltkErrorKind::ResourceNotFound.as_str(), "Resource Not Found!");
}

#[test]
fn kind_names() {
    for k in [
        FltkErrorKind::FailedToRun,
        FltkErrorKind::FailedToLock,
        FltkErrorKind::FailedToSetScheme,
        FltkErrorKind::ResourceNotFound,
    ] {
        assert_eq!(k.name(), format!("{:?}", k));
    }
}

#[test]
fn descriptions() {
    assert_eq!(FltkError::IoError(String::from("disk full")).description(), "disk full");
    assert_eq!(FltkError::NullError(3).description(), "nul byte found in data");
    assert_eq!(
        FltkError::Internal(FltkErrorKind::ResourceNotFound).description(),
        "Resource Not Found!"
    );
    assert_eq!(FltkError::Unknown(String::from("odd")).description(), "odd");
}

#[test]
fn error_messages() {
    assert_eq!(
        FltkError::Internal(FltkErrorKind::FailedToRun).to_string(),
        "An internal error occured FailedToRun"
    );
    assert_eq!(
        FltkError::Internal(FltkErrorKind::FailedToSetScheme).to_string(),
        "An internal error occured FailedToSetScheme"
    );
    assert_eq!(
        FltkError::NullError(120).to_string(),
        "nul byte found in provided data at position: 120"
    );
    assert_eq!(FltkError::NullError(0).to_string(), "nul byte found in provided data at position: 0");
    assert_eq!(FltkError::IoError(String::from("disk full")).to_string(), "disk full");
}

#[test]
fn unknown_message_is_quoted() {
    // the free-form text is shown quoted and escaped, not as it stands
    assert_eq!(
        FltkError::Unknown(String::from("odd")).to_string(),
        "An unknown error occurred \"odd\""
    );
    assert_eq!(
        FltkError::Unknown(String::from("a \"b\"\n")).to_string(),
        "An unknown error occurred \"a \\\"b\\\"\\n\""
    );
    assert_eq!(unknown_message("x"), "An unknown error occurred x");
}

#[test]
fn tags_round_trip() {
    for tag in -3..300 {
        if let Ok(c) = Color::from_i32(tag) {
            assert_eq!(c.to_i32(), tag);
        }
        if let Ok(f) = Font::from_i32(tag) {
            assert_eq!(f.to_i32(), tag);
        }
        if let Ok(t) = FrameType::from_i32(tag) {
            assert_eq!(t.to_int(), tag);
        }
        if let Ok(t) = LabelType::from_i32(tag) {
            assert_eq!(t.to_int(), tag);
        }
    }
    assert_eq!(Color::Red.to_i32(), 88);
    assert_eq!(Color::White.to_i32(), 255);
    assert_eq!(Font::Zapfdingbats.to_i32(), 15);
    assert_eq!(Font::from_i32(4).unwrap(), Font::Courier);
    assert_eq!(FrameType::from_i32(2).unwrap(), FrameType::UpBox);
}

#[test]
fn unrecognized_tag_is_an_error() {
    let e = Color::from_i32(1).unwrap_err();
    assert!(matches!(e, FltkError::Unknown(_)));
    assert_eq!(e.description(), "Unrecognized tag");
    assert_eq!(e.to_string(), "An unknown error occurred \"Unrecognized tag\"");
    assert!(Font::from_i32(16).is_err());
    assert!(Font::from_i32(-1).is_err());
    assert!(LabelType::from_i32(9).is_err());
}

#[test]
fn events_by_number() {
    assert_eq!(Event::from_i32(0).unwrap(), Event::NoEvent);
    assert_eq!(Event::from_i32(1).unwrap(), Event::Push);
    assert_eq!(Event::from_i32(2).unwrap(), Event::Released);
    assert_eq!(Event::from_i32(10).unwrap(), Event::Close);
    assert_eq!(Event::from_i32(27).unwrap(), Event::ZoomEvent);
    assert_eq!(Event::MouseWheel.to_i32(), 19);
    assert!(Event::from_i32(28).is_err());
    assert!(Event::from_i32(-1).is_err());
    for n in 0..28 {
        assert_eq!(Event::from_i32(n).unwrap().to_i32(), n);
    }
}

#[test]
fn embedded_terminator_is_an_error() {
    assert!(check_text("").is_ok());
    assert!(check_text("Click me!").is_ok());
    assert!(matches!(check_text("Click\0me"), Err(FltkError::NullError(5))));
    assert!(matches!(check_text("\0"), Err(FltkError::NullError(0))));
    assert!(matches!(check_text("éa\0b\0"), Err(FltkError::NullError(3))));
    let e = check_text("ab\0").unwrap_err();
    assert_eq!(e.description(), "nul byte found in data");
    assert_eq!(e.to_string(), "nul byte found in provided data at position: 2");
}
