use fltk::app::App;
use fltk::button::Button;
use fltk::frame::Frame;
use fltk::group::{Group, Wizard};
use fltk::prelude::{GroupTrait, WidgetBase, WidgetTrait};
use fltk::state::Callback;
use fltk::widget::Widget;
use fltk::window::Window;

fn as_widget<W: WidgetBase>(w: &W) -> Widget {
    Widget::from_widget_ptr(w.as_widget_ptr())
}

fn visible<W: WidgetBase>(app: &App, w: &W) -> bool {
    app.props(w.as_widget_ptr()).visible
}

fn child_ids<G: GroupTrait>(app: &App, g: &G) -> Vec<usize> {
    (0..g.children(app)).map(|i| g.child(app, i).unwrap().as_widget_ptr().index).collect()
}

#[test]
fn widgets_join_the_open_group() {
    let mut app = App::default();
    let lone = Button::default(&mut app);
    assert!(lone.parent(&app).is_none());
    let win = Window::default(&mut app);
    let a = Button::default(&mut app);
    let grp = Group::default(&mut app);
    let b = Button::default(&mut app);
    grp.end(&mut app);
    let c = Button::default(&mut app);
    win.end(&mut app);
    let after = Button::default(&mut app);

    assert_eq!(a.parent(&app), Some(as_widget(&win)));
    assert_eq!(grp.parent(&app), Some(as_widget(&win)));
    assert_eq!(b.parent(&app), Some(as_widget(&grp)));
    assert_eq!(c.parent(&app), Some(as_widget(&win)));
    assert!(after.parent(&app).is_none());
    assert!(win.parent(&app).is_none());
    assert_eq!(win.children(&app), 3);
    assert_eq!(grp.children(&app), 1);
    assert_eq!(
        child_ids(&app, &win),
        vec![a.as_widget_ptr().index, grp.as_widget_ptr().index, c.as_widget_ptr().index]
    );
    assert!(win.child(&app, 3).is_none());
}

#[test]
fn begin_reopens_a_group() {
    let mut app = App::default();
    let win = Window::default(&mut app);
    win.end(&mut app);
    assert!(app.current().is_none());
    win.begin(&mut app);
    assert_eq!(app.current(), Some(win.as_widget_ptr()));
    let a = Button::default(&mut app);
    win.end(&mut app);
    assert_eq!(a.parent(&app), Some(as_widget(&win)));
}

#[test]
fn find_gives_place_or_count() {
    let mut app = App::default();
    let grp = Group::default(&mut app);
    let a = Button::default(&mut app);
    let b = Button::default(&mut app);
    grp.end(&mut app);
    let c = Button::default(&mut app);
    assert_eq!(grp.find(&app, &a), 0);
    assert_eq!(grp.find(&app, &b), 1);
    assert_eq!(grp.find(&app, &c), 2);
    assert_eq!(grp.find(&app, &grp), 2);
}

#[test]
fn add_moves_a_widget_between_groups() {
    let mut app = App::default();
    let mut one = Group::default(&mut app);
    let a = Button::default(&mut app);
    let b = Button::default(&mut app);
    one.end(&mut app);
    let mut two = Group::default(&mut app);
    let c = Button::default(&mut app);
    two.end(&mut app);

    two.add(&mut app, &a);
    assert_eq!(child_ids(&app, &one), vec![b.as_widget_ptr().index]);
    assert_eq!(child_ids(&app, &two), vec![c.as_widget_ptr().index, a.as_widget_ptr().index]);
    assert_eq!(a.parent(&app), Some(as_widget(&two)));

    // a whole group can move under another
    one.add(&mut app, &two);
    assert_eq!(two.parent(&app), Some(as_widget(&one)));
    assert!(a.inside(&app, as_widget(&one)));
    assert!(!one.inside(&app, as_widget(&two)));
}

#[test]
fn insert_places_and_moves() {
    let mut app = App::default();
    let mut grp = Group::default(&mut app);
    let a = Button::default(&mut app);
    let b = Button::default(&mut app);
    let c = Button::default(&mut app);
    grp.end(&mut app);
    let d = Button::default(&mut app);
    let (ia, ib, ic, id) = (
        a.as_widget_ptr().index,
        b.as_widget_ptr().index,
        c.as_widget_ptr().index,
        d.as_widget_ptr().index,
    );

    grp.insert(&mut app, &d, 1);
    assert_eq!(child_ids(&app, &grp), vec![ia, id, ib, ic]);
    // moving within the group: the place counts before the widget leaves
    grp.insert(&mut app, &a, 2);
    assert_eq!(child_ids(&app, &grp), vec![id, ia, ib, ic]);
    grp.insert(&mut app, &a, 1);
    assert_eq!(child_ids(&app, &grp), vec![id, ia, ib, ic]);
    grp.insert(&mut app, &c, 0);
    assert_eq!(child_ids(&app, &grp), vec![ic, id, ia, ib]);
    grp.insert(&mut app, &c, 99);
    assert_eq!(child_ids(&app, &grp), vec![id, ia, ib, ic]);
    grp.add(&mut app, &d);
    assert_eq!(child_ids(&app, &grp), vec![ia, ib, ic, id]);
}

#[test]
fn remove_destroys_the_child_and_all_below() {
    let mut app = App::default();
    let mut win = Window::default(&mut app);
    let keep = Button::default(&mut app);
    let grp = Group::default(&mut app);
    let inner = Group::default(&mut app);
    let deep = Button::default(&mut app);
    // the innermost group is still open
    assert_eq!(app.current(), Some(inner.as_widget_ptr()));
    win.resizable(&mut app, &mut { grp });

    win.remove(&mut app, 1);
    assert!(app.is_valid(win.as_widget_ptr()));
    assert!(app.is_valid(keep.as_widget_ptr()));
    assert!(!app.is_valid(grp.as_widget_ptr()));
    assert!(!app.is_valid(inner.as_widget_ptr()));
    assert!(!app.is_valid(deep.as_widget_ptr()));
    assert_eq!(child_ids(&app, &win), vec![keep.as_widget_ptr().index]);
    // the open group went with the rest
    assert!(app.current().is_none());

    // without a child at the place nothing happens
    win.remove(&mut app, 5);
    assert_eq!(win.children(&app), 1);
    assert!(app.is_valid(keep.as_widget_ptr()));
}

#[test]
fn clear_destroys_all_children() {
    let mut app = App::default();
    let mut win = Window::default(&mut app);
    let a = Button::default(&mut app);
    let grp = Group::default(&mut app);
    let b = Button::default(&mut app);
    grp.end(&mut app);
    win.end(&mut app);
    let out = Button::default(&mut app);
    win.begin(&mut app);

    win.clear(&mut app);
    assert_eq!(win.children(&app), 0);
    assert!(app.is_valid(win.as_widget_ptr()));
    assert!(app.is_valid(out.as_widget_ptr()));
    for h in [a.as_widget_ptr(), grp.as_widget_ptr(), b.as_widget_ptr()] {
        assert!(!app.is_valid(h));
    }
    // the cleared group itself stays open
    assert_eq!(app.current(), Some(win.as_widget_ptr()));
    let again = Frame::default(&mut app);
    assert_eq!(again.parent(&app), Some(as_widget(&win)));
    assert_eq!(win.children(&app), 1);
}

#[test]
fn windows_above_a_widget() {
    let mut app = App::default();
    let top = Window::default(&mut app);
    let grp = Group::default(&mut app);
    let sub = Window::default(&mut app);
    let but = Button::default(&mut app);
    sub.end(&mut app);
    let side = Button::default(&mut app);
    grp.end(&mut app);
    top.end(&mut app);
    let lone_group = Group::default(&mut app);
    let lone = Button::default(&mut app);
    lone_group.end(&mut app);

    assert_eq!(but.window(&app), Some(sub));
    assert_eq!(but.top_window(&app), Some(top));
    assert_eq!(side.window(&app), Some(top));
    assert_eq!(sub.window(&app), Some(top));
    assert_eq!(top.window(&app), None);
    assert_eq!(top.top_window(&app), Some(top));
    assert_eq!(lone.window(&app), None);
    assert_eq!(lone.top_window(&app), None);

    assert!(but.inside(&app, as_widget(&top)));
    assert!(but.inside(&app, as_widget(&but)));
    assert!(!top.inside(&app, as_widget(&but)));
    assert!(!side.inside(&app, as_widget(&sub)));
}

#[test]
fn wizard_turns_pages() {
    let mut app = App::default();
    let mut win = Window::default(&mut app).with_size(&mut app, 400, 300).with_label(&mut app, "Wizard");
    let mut wiz = Wizard::default(&mut app).with_size(&mut app, 400, 300);
    let grp1 = Group::default(&mut app).size_of(&mut app, &wiz);
    let mut but = Button::default(&mut app)
        .with_size(&mut app, 80, 40)
        .center_of(&mut app, &wiz)
        .with_label(&mut app, "next");
    grp1.end(&mut app);
    let grp2 = Group::default(&mut app).size_of(&mut app, &wiz);
    let mut but2 = Button::default(&mut app)
        .with_size(&mut app, 80, 40)
        .center_of(&mut app, &wiz)
        .with_label(&mut app, "previous");
    grp2.end(&mut app);
    wiz.end(&mut app);
    win.end(&mut app);
    win.show(&mut app);
    but.set_callback(&mut app, Callback { id: 0 });
    but2.set_callback(&mut app, Callback { id: 1 });

    assert_eq!(wiz.children(&app), 2);
    assert_eq!(wiz.current_page(&app), Some(0));
    assert_eq!(wiz.current_widget(&app), Some(as_widget(&grp1)));

    // the "next" trigger
    assert_eq!(but.do_callback(&app), Some(Callback { id: 0 }));
    wiz.next(&mut app);
    assert_eq!(wiz.current_page(&app), Some(1));
    assert_eq!(wiz.current_widget(&app), Some(as_widget(&grp2)));
    assert!(!visible(&app, &grp1));
    assert!(visible(&app, &grp2));

    // the "previous" trigger
    assert_eq!(but2.do_callback(&app), Some(Callback { id: 1 }));
    wiz.prev(&mut app);
    assert_eq!(wiz.current_page(&app), Some(0));
    assert!(visible(&app, &grp1));
    assert!(!visible(&app, &grp2));
    // the buttons on the pages are left alone
    assert!(visible(&app, &but));
    assert!(visible(&app, &but2));
}

#[test]
fn wizard_stops_at_both_ends() {
    let mut app = App::default();
    let mut wiz = Wizard::default(&mut app);
    let pages: Vec<Group> = (0..3)
        .map(|_| {
            let g = Group::default(&mut app);
            g.end(&mut app);
            g
        })
        .collect();
    wiz.end(&mut app);
    wiz.prev(&mut app);
    assert_eq!(wiz.current_page(&app), Some(0));
    wiz.next(&mut app);
    wiz.next(&mut app);
    assert_eq!(wiz.current_page(&app), Some(2));
    wiz.next(&mut app);
    assert_eq!(wiz.current_page(&app), Some(2));
    assert_eq!(pages.iter().filter(|p| visible(&app, *p)).count(), 1);

    // with no page in sight there is nothing to turn
    let mut last = pages[2];
    last.conceal(&mut app);
    assert_eq!(wiz.current_page(&app), None);
    assert!(wiz.current_widget(&app).is_none());
    wiz.next(&mut app);
    wiz.prev(&mut app);
    assert_eq!(wiz.current_page(&app), None);

    let mut empty = Wizard::default(&mut app);
    empty.next(&mut app);
    assert_eq!(empty.current_page(&app), None);
}
