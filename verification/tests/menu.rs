use fltk::app::App;
use fltk::enums::{Color, Font, LabelType, Shortcut};
use fltk::error::FltkError;
use fltk::menu::{Choice, MenuBar, MenuButton, MenuFlag, MenuItem};
use fltk::prelude::{MenuTrait, WidgetTrait};
use fltk::state::Callback;

const ALL_FLAGS: [MenuFlag; 10] = [
    MenuFlag::Normal,
    MenuFlag::Inactive,
    MenuFlag::Toggle,
    MenuFlag::Value,
    MenuFlag::Radio,
    MenuFlag::Invisible,
    MenuFlag::SubmenuPointer,
    MenuFlag::Submenu,
    MenuFlag::MenuDivider,
    MenuFlag::MenuHorizontal,
];

const ALL_COLORS: [Color; 26] = [
    Color::ForeGround,
    Color::BackGround2,
    Color::Inactive,
    Color::Selection,
    Color::Gray0,
    Color::Dark3,
    Color::Dark2,
    Color::Dark1,
    Color::BackGround,
    Color::Light1,
    Color::Light2,
    Color::Light3,
    Color::Black,
    Color::Red,
    Color::Green,
    Color::Yellow,
    Color::Blue,
    Color::Magenta,
    Color::Cyan,
    Color::DarkRed,
    Color::DarkGreen,
    Color::DarkYellow,
    Color::DarkBlue,
    Color::DarkMagenta,
    Color::DarkCyan,
    Color::White,
];

const ALL_FONTS: [Font; 16] = [
    Font::Helvetica,
    Font::HelveticaBold,
    Font::HelveticaItalic,
    Font::HelveticaBoldItalic,
    Font::Courier,
    Font::CourierBold,
    Font::CourierItalic,
    Font::CourierBoldItalic,
    Font::Times,
    Font::TimesBold,
    Font::TimesItalic,
    Font::TimesBoldItalic,
    Font::Symbol,
    Font::Screen,
    Font::ScreenBold,
    Font::Zapfdingbats,
];

fn one_item(app: &mut App, flag: MenuFlag) -> MenuItem {
    let mut bar = MenuBar::new(app, 0, 0, 400, 30, "");
    bar.add(app, "File/Open", Shortcut::Ctrl, flag, Callback { id: 1 });
    bar.get_item(app, "File/Open").unwrap()
}

#[test]
fn flag_bits() {
    let bits: Vec<i32> = ALL_FLAGS.iter().map(|f| f.to_i32()).collect();
    assert_eq!(bits, vec![0, 1, 2, 4, 8, 0x10, 0x20, 0x40, 0x80, 0x100]);
    for f in ALL_FLAGS {
        assert_eq!(MenuFlag::from_i32(f.to_i32()).unwrap(), f);
    }
    assert!(matches!(MenuFlag::from_i32(3), Err(FltkError::Unknown(_))));
    assert!(MenuFlag::from_i32(0x200).is_err());
    assert!(MenuFlag::from_i32(-1).is_err());
}

#[test]
fn value_and_visible_follow_the_bits_for_every_flag() {
    for flag in ALL_FLAGS {
        let mut app = App::default();
        let mut item = one_item(&mut app, flag);
        let start = flag.to_i32();
        assert_eq!(item.flags(&app), start);
        assert_eq!(item.value(&app), flag == MenuFlag::Value);
        assert_eq!(item.visible(&app), flag != MenuFlag::Invisible);

        item.set(&mut app);
        assert!(item.value(&app));
        assert_eq!(item.flags(&app), start | 4);
        assert_eq!(item.visible(&app), flag != MenuFlag::Invisible);

        item.conceal(&mut app);
        assert!(!item.visible(&app));
        assert!(item.value(&app));
        assert_eq!(item.flags(&app), start | 4 | 0x10);

        item.clear(&mut app);
        assert!(!item.value(&app));
        assert!(!item.visible(&app));
        assert_eq!(item.flags(&app), (start | 0x10) & !4);

        item.show(&mut app);
        assert!(item.visible(&app));
        assert!(!item.value(&app));
        assert_eq!(item.flags(&app), start & !4 & !0x10);
    }
}

#[test]
fn order_of_flag_calls_does_not_matter() {
    for flag in ALL_FLAGS {
        let mut app = App::default();
        let mut a = one_item(&mut app, flag);
        let mut b = one_item(&mut app, flag);
        a.set(&mut app);
        a.conceal(&mut app);
        a.deactivate(&mut app);
        b.deactivate(&mut app);
        b.conceal(&mut app);
        b.set(&mut app);
        assert_eq!(a.flags(&app), b.flags(&app));
        assert_eq!(a.flags(&app), flag.to_i32() | 4 | 0x10 | 1);
        a.clear(&mut app);
        a.show(&mut app);
        b.show(&mut app);
        b.clear(&mut app);
        assert_eq!(a.flags(&app), b.flags(&app));
        assert_eq!(a.value(&app), b.value(&app));
        assert_eq!(a.visible(&app), b.visible(&app));
    }
}

#[test]
fn activation_flags() {
    let mut app = App::default();
    let mut item = one_item(&mut app, MenuFlag::Toggle);
    item.deactivate(&mut app);
    assert_eq!(item.flags(&app), 2 | 1);
    item.activate(&mut app);
    assert_eq!(item.flags(&app), 2);
    item.deactivate(&mut app);
    item.active(&mut app);
    assert_eq!(item.flags(&app), 2);
}

#[test]
fn label_style_round_trips() {
    let mut app = App::default();
    let mut item = one_item(&mut app, MenuFlag::Normal);
    for color in ALL_COLORS {
        for &size in &[0usize, 1, 255] {
            item.set_label_color(&mut app, color);
            item.set_label_size(&mut app, size);
            assert_eq!(item.label_color(&app), color);
            assert_eq!(item.label_size(&app), size);
        }
    }
    for font in ALL_FONTS {
        let before = item.label_color(&app);
        item.set_label_font(&mut app, font);
        assert_eq!(item.label_font(&app), font);
        // the typeface does not touch the colour
        assert_eq!(item.label_color(&app), before);
    }
}

#[test]
fn label_and_label_type() {
    let mut app = App::default();
    let mut item = one_item(&mut app, MenuFlag::Normal);
    assert_eq!(item.label(&app), "File/Open");
    item.set_label(&mut app, "Open…");
    assert_eq!(item.label(&app), "Open…");
    assert_eq!(item.label_type::<LabelType>(&app).unwrap(), LabelType::Normal);
    item.set_label_type(&mut app, LabelType::Engraved);
    assert_eq!(item.label_type::<LabelType>(&app).unwrap(), LabelType::Engraved);
}

#[test]
fn items_are_found_by_name() {
    let mut app = App::default();
    let mut bar = MenuBar::default(&mut app);
    assert!(bar.get_item(&app, "File").is_none());
    bar.add(&mut app, "File", Shortcut::NoModifier, MenuFlag::Submenu, Callback { id: 1 });
    bar.add(&mut app, "File/Open", Shortcut::Ctrl, MenuFlag::Normal, Callback { id: 2 });
    bar.add(&mut app, "File/Quit", Shortcut::Alt, MenuFlag::Normal, Callback { id: 3 });
    bar.add(&mut app, "File/Open", Shortcut::Ctrl, MenuFlag::Normal, Callback { id: 4 });
    assert_eq!(bar.get_item(&app, "File").unwrap().index, 0);
    assert_eq!(bar.get_item(&app, "File/Open").unwrap().index, 1);
    assert_eq!(bar.get_item(&app, "File/Quit").unwrap().index, 2);
    assert!(bar.get_item(&app, "file/quit").is_none());
    assert!(bar.get_item(&app, "File/").is_none());
    assert_eq!(bar.get_item(&app, "File").unwrap().flags(&app), 0x40);
}

#[test]
fn insert_puts_items_in_place() {
    let mut app = App::default();
    let mut menu = MenuButton::default(&mut app);
    menu.add(&mut app, "b", Shortcut::NoModifier, MenuFlag::Normal, Callback { id: 1 });
    menu.insert(&mut app, 0, "a", Shortcut::NoModifier, MenuFlag::Normal, Callback { id: 2 });
    menu.insert(&mut app, 99, "d", Shortcut::NoModifier, MenuFlag::Normal, Callback { id: 3 });
    menu.insert(&mut app, 2, "c", Shortcut::NoModifier, MenuFlag::Normal, Callback { id: 4 });
    let names: Vec<usize> =
        ["a", "b", "c", "d"].iter().map(|n| menu.get_item(&app, n).unwrap().index).collect();
    assert_eq!(names, vec![0, 1, 2, 3]);
}

#[test]
fn choices() {
    let mut app = App::default();
    let mut choice = Choice::default(&mut app);
    assert_eq!(choice.get_choice(&app), None);
    choice.add_choice(&mut app, "red");
    choice.add_choice(&mut app, "green");
    assert_eq!(choice.get_choice(&app), None);
    let green = choice.get_item(&app, "green").unwrap();
    assert_eq!(green.pick(&mut app), None);
    assert_eq!(choice.get_choice(&app), Some(String::from("green")));
    let red = choice.get_item(&app, "red").unwrap();
    red.pick(&mut app);
    assert_eq!(choice.get_choice(&app), Some(String::from("red")));
}

#[test]
fn picking_answers_with_the_callback_due() {
    let mut app = App::default();
    let mut bar = MenuBar::default(&mut app);
    bar.set_callback(&mut app, Callback { id: 9 });
    bar.add(&mut app, "own", Shortcut::NoModifier, MenuFlag::Normal, Callback { id: 1 });
    bar.add_choice(&mut app, "plain");
    let mut own = bar.get_item(&app, "own").unwrap();
    let mut plain = bar.get_item(&app, "plain").unwrap();
    assert_eq!(own.pick(&mut app), Some(Callback { id: 1 }));
    assert_eq!(plain.pick(&mut app), Some(Callback { id: 9 }));
    assert_eq!(bar.get_choice(&app), Some(String::from("plain")));

    // an item that is greyed out or out of sight cannot be chosen
    own.deactivate(&mut app);
    assert_eq!(own.pick(&mut app), None);
    assert_eq!(bar.get_choice(&app), Some(String::from("plain")));
    own.activate(&mut app);
    plain.conceal(&mut app);
    assert_eq!(plain.pick(&mut app), None);
    assert_eq!(own.pick(&mut app), Some(Callback { id: 1 }));
    assert_eq!(bar.get_choice(&app), Some(String::from("own")));
}

#[test]
fn menu_text_style() {
    let mut app = App::default();
    let mut bar = MenuBar::default(&mut app);
    assert_eq!(MenuTrait::text_size(&bar, &app), 14);
    MenuTrait::set_text_size(&mut bar, &mut app, 22);
    MenuTrait::set_text_font(&mut bar, &mut app, Font::Times);
    MenuTrait::set_text_color(&mut bar, &mut app, Color::Blue);
    assert_eq!(MenuTrait::text_size(&bar, &app), 22);
    assert_eq!(MenuTrait::text_font(&bar, &app), Font::Times);
    assert_eq!(MenuTrait::text_color(&bar, &app), Color::Blue);
}
