use sfo_kiosk::shutdown::{
    build, request_restart, watch, Item, MarkerEvent, MonitorHold, Order, RestartStep, Restarting, Watch,
    MARKER,
};

fn state(s: &Restarting) -> (bool, bool) {
    (s.is_visible(), s.is_spinning())
}

fn watching() -> Watch {
    let mut w = watch(Some(b"/run")).unwrap();
    assert_eq!(w.monitored(Ok(()), &mut MonitorHold::default()), None);
    w
}

#[test]
fn built_hidden_with_its_texts() {
    let s = build(None);
    assert_eq!(state(&s), (false, false));
    assert_eq!(s.items().len(), 3);
    assert!(matches!(&s.items()[0], Item::Spinner));
    assert!(matches!(&s.items()[1], Item::Heading(t) if t == "Restarting"));
    assert!(
        matches!(&s.items()[2], Item::Body(t) if t == "Applying the change. This takes about a minute.")
    );
}

#[test]
fn logo_stands_above_the_rest() {
    let s = build(Some("/run/logo.svg"));
    assert_eq!(s.items().len(), 4);
    assert!(matches!(&s.items()[0], Item::Logo { path, pixels: 120 } if path == "/run/logo.svg"));
    assert!(matches!(&s.items()[1], Item::Spinner));
}

#[test]
fn show_and_hide() {
    let mut s = build(None);
    s.show();
    assert_eq!(state(&s), (true, true));
    s.show();
    assert_eq!(state(&s), (true, true));
    s.hide_screen();
    assert_eq!(state(&s), (false, false));
    s.hide_screen();
    assert_eq!(state(&s), (false, false));
}

#[test]
fn request_shows_and_drops_the_marker() {
    let steps = request_restart(Some(b"/run/user/1000"));
    assert_eq!(steps.len(), 2);
    assert!(matches!(&steps[0], RestartStep::Show));
    assert!(
        matches!(&steps[1], RestartStep::CreateMarker(p) if p == b"/run/user/1000/sfo-kiosk-restarting")
    );
}

#[test]
fn request_without_a_runtime_directory_only_shows() {
    let steps = request_restart(None);
    assert_eq!(steps.len(), 1);
    assert!(matches!(&steps[0], RestartStep::Show));
}

#[test]
fn marker_paths_agree_with_std() {
    for dir in ["", "/", "/run", "/run/", "run//", "a/b c"] {
        let want = std::path::Path::new(dir).join(MARKER);
        let got = watch(Some(dir.as_bytes())).unwrap();
        assert_eq!(String::from_utf8(got.path().clone()).unwrap(), want.to_str().unwrap());
    }
}

#[test]
fn marker_path_keeps_any_bytes() {
    let w = watch(Some(b"/run/\xff")).unwrap();
    assert_eq!(w.path(), b"/run/\xff/sfo-kiosk-restarting");
}

#[test]
fn no_runtime_directory_no_watch() {
    assert!(watch(None).is_none());
}

#[test]
fn orders_follow_the_marker() {
    let w = watching();
    assert_eq!(w.started(true), Order::Show);
    assert_eq!(w.started(false), Order::Keep);
    assert_eq!(w.changed(MarkerEvent::Created), Order::Show);
    assert_eq!(w.changed(MarkerEvent::Deleted), Order::Hide);
    assert_eq!(w.changed(MarkerEvent::Other), Order::Keep);
}

#[test]
fn screen_is_up_while_the_marker_is_there() {
    let w = watching();
    let mut s = build(None);
    s.obey(w.started(false));
    assert_eq!(state(&s), (false, false));
    s.obey(w.changed(MarkerEvent::Created));
    s.obey(w.changed(MarkerEvent::Other));
    s.obey(w.changed(MarkerEvent::Created));
    assert_eq!(state(&s), (true, true));
    s.obey(w.changed(MarkerEvent::Deleted));
    s.obey(w.changed(MarkerEvent::Other));
    assert_eq!(state(&s), (false, false));
}

#[test]
fn a_marker_at_startup_is_honoured() {
    let w = watching();
    let mut s = build(None);
    s.obey(w.started(true));
    assert_eq!(state(&s), (true, true));
}

#[test]
fn monitor_is_parked() {
    struct Bell<'a>(&'a std::cell::Cell<u32>);
    impl<'a> Drop for Bell<'a> {
        fn drop(&mut self) {
            self.0.set(self.0.get() + 1);
        }
    }
    let dropped = std::cell::Cell::new(0);
    let mut hold = MonitorHold::default();
    hold.set(Bell(&dropped));
    assert_eq!(dropped.get(), 0);
    hold.set(Bell(&dropped));
    assert_eq!(dropped.get(), 1);
    drop(hold);
    assert_eq!(dropped.get(), 2);
}

#[test]
fn the_screen_takes_every_press() {
    let mut s = build(None);
    assert!(s.takes_presses());
    s.show();
    assert!(s.takes_presses());
    s.hide_screen();
    assert!(s.takes_presses());
}

#[test]
fn a_monitor_that_was_made_is_parked() {
    let rc = std::rc::Rc::new(());
    let mut hold = MonitorHold::default();
    let mut w = watch(Some(b"/run/user/1000")).unwrap();
    assert!(!w.is_monitored());
    assert_eq!(w.monitored(Ok(rc.clone()), &mut hold), None);
    assert!(w.is_monitored());
    assert_eq!(std::rc::Rc::strong_count(&rc), 2);
    assert_eq!(w.path(), b"/run/user/1000/sfo-kiosk-restarting");
}

#[test]
fn without_a_monitor_nothing_is_parked_or_shown_later() {
    let rc = std::rc::Rc::new(());
    let mut hold = MonitorHold::default();
    hold.set(rc.clone());
    let mut w = watch(Some(b"/run")).unwrap();
    let mut s = build(None);
    s.obey(w.started(true));
    assert_eq!(w.monitored(Err("no inotify".to_string()), &mut hold), Some("no inotify".to_string()));
    assert!(!w.is_monitored());
    assert_eq!(std::rc::Rc::strong_count(&rc), 2);
    for event in [MarkerEvent::Created, MarkerEvent::Deleted, MarkerEvent::Other] {
        assert_eq!(w.changed(event), Order::Keep);
        s.obey(w.changed(event));
    }
    assert_eq!(state(&s), (true, true));
}
