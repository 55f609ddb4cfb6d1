use winscan::decimal::{signed_decimal, unsigned_decimal};
use winscan::window::{pid_from_property, process_name, process_table_path};
use winscan::{
    Layout, PidProperty, ScanAction, ScanError, ScanEvent, ScanSession, Screen, Window,
    WindowAttributes, X11Provider,
};

fn attrs(viewable: bool, x: i32, y: i32, width: i32, height: i32) -> WindowAttributes {
    WindowAttributes { viewable, x, y, width, height }
}

fn text(s: &str) -> Option<String> {
    Some(s.to_string())
}

#[test]
fn enumeration_keeps_viewable_windows_with_partial_data() {
    let (mut s, first) = ScanSession::begin();
    assert_eq!(ScanAction::OpenDisplay, first);
    assert_eq!(ScanAction::QueryTree, s.step(ScanEvent::DisplayOpened));
    assert_eq!(ScanAction::ReadAttributes(0), s.step(ScanEvent::Children(3)));
    assert_eq!(
        ScanAction::FetchTitle(0),
        s.step(ScanEvent::Attributes(attrs(true, -5, 10, 800, 600)))
    );
    assert_eq!(ScanAction::ReadPid(0), s.step(ScanEvent::Title(None)));
    let pid = PidProperty { read_ok: true, format: 32, value: Some(4242) };
    assert_eq!(
        ScanAction::ReadProcessName("/proc/4242/comm".to_string()),
        s.step(ScanEvent::Pid(pid))
    );
    assert_eq!(ScanAction::ReadAttributes(1), s.step(ScanEvent::ProcessName(None)));
    assert_eq!(
        ScanAction::ReadAttributes(2),
        s.step(ScanEvent::Attributes(attrs(false, 0, 0, 1, 1)))
    );
    assert_eq!(
        ScanAction::FetchTitle(2),
        s.step(ScanEvent::Attributes(attrs(true, 0, 0, 1920, 1080)))
    );
    assert_eq!(ScanAction::ReadPid(2), s.step(ScanEvent::Title(text("Terminal"))));
    let wrong_format = PidProperty { read_ok: true, format: 8, value: Some(7) };
    assert_eq!(ScanAction::CloseDisplay, s.step(ScanEvent::Pid(wrong_format)));
    assert_eq!(ScanAction::Finished, s.step(ScanEvent::DisplayClosed));
    let screens = s.finish().unwrap();
    let untitled = Window {
        title: None,
        x: text("-5"),
        y: text("10"),
        w: text("800"),
        h: text("600"),
        process: None,
    };
    let terminal = Window {
        title: text("Terminal"),
        x: text("0"),
        y: text("0"),
        w: text("1920"),
        h: text("1080"),
        process: None,
    };
    assert_eq!(vec![Screen { windows: vec![untitled, terminal] }], screens);
}

#[test]
fn process_name_is_read_and_trimmed() {
    let (mut s, _) = ScanSession::begin();
    s.step(ScanEvent::DisplayOpened);
    s.step(ScanEvent::Children(1));
    s.step(ScanEvent::Attributes(attrs(true, 1, 2, 3, 4)));
    s.step(ScanEvent::Title(text("Browser")));
    s.step(ScanEvent::Pid(PidProperty { read_ok: true, format: 32, value: Some(17) }));
    assert_eq!(
        ScanAction::CloseDisplay,
        s.step(ScanEvent::ProcessName(text(" firefox\n")))
    );
    assert_eq!(ScanAction::Finished, s.step(ScanEvent::DisplayClosed));
    let screens = s.finish().unwrap();
    assert_eq!(1, screens.len());
    assert_eq!(1, screens[0].windows.len());
    assert_eq!(text("firefox"), screens[0].windows[0].process);
    assert_eq!(text("Browser"), screens[0].windows[0].title);
}

#[test]
fn display_that_cannot_be_opened_fails_without_closing() {
    let (mut s, _) = ScanSession::begin();
    assert_eq!(
        ScanAction::Fail(ScanError::DisplayUnavailable),
        s.step(ScanEvent::DisplayUnavailable)
    );
    assert_eq!(ScanAction::Ignore, s.step(ScanEvent::DisplayClosed));
    assert_eq!(Err(ScanError::DisplayUnavailable), s.finish());
}

#[test]
fn no_children_closes_at_once_and_gives_an_empty_screen() {
    let (mut s, _) = ScanSession::begin();
    s.step(ScanEvent::DisplayOpened);
    assert_eq!(ScanAction::CloseDisplay, s.step(ScanEvent::Children(0)));
    assert_eq!(ScanAction::Ignore, s.step(ScanEvent::Children(0)));
    assert_eq!(ScanAction::Finished, s.step(ScanEvent::DisplayClosed));
    assert_eq!(Ok(vec![Screen::new()]), s.finish());
}

#[test]
fn close_is_asked_once_whatever_the_windows_give() {
    let (mut s, _) = ScanSession::begin();
    let mut closes = 0;
    let mut actions = vec![s.step(ScanEvent::DisplayOpened), s.step(ScanEvent::Children(2))];
    for _ in 0..2 {
        actions.push(s.step(ScanEvent::Attributes(attrs(true, 0, 0, 10, 10))));
        actions.push(s.step(ScanEvent::Title(None)));
        actions.push(s.step(ScanEvent::Pid(PidProperty { read_ok: false, format: 0, value: None })));
    }
    actions.push(s.step(ScanEvent::DisplayClosed));
    actions.push(s.step(ScanEvent::DisplayClosed));
    for a in &actions {
        assert_ne!(&ScanAction::OpenDisplay, a);
        if *a == ScanAction::CloseDisplay {
            closes += 1;
        }
    }
    assert_eq!(1, closes);
    assert_eq!(2, s.finish().unwrap()[0].windows.len());
}

#[test]
fn unfinished_session_gives_no_screens() {
    let (mut s, _) = ScanSession::begin();
    s.step(ScanEvent::DisplayOpened);
    assert_eq!(ScanAction::Ignore, s.step(ScanEvent::Title(None)));
    assert_eq!(Err(ScanError::Incomplete), s.finish());
}

#[test]
fn pid_needs_a_successful_read_in_32_bit_format() {
    assert_eq!(
        Some(9),
        pid_from_property(&PidProperty { read_ok: true, format: 32, value: Some(9) })
    );
    assert_eq!(
        None,
        pid_from_property(&PidProperty { read_ok: false, format: 32, value: Some(9) })
    );
    assert_eq!(
        None,
        pid_from_property(&PidProperty { read_ok: true, format: 16, value: Some(9) })
    );
    assert_eq!(None, pid_from_property(&PidProperty { read_ok: true, format: 32, value: None }));
}

#[test]
fn decimal_text_of_integers() {
    assert_eq!("0", unsigned_decimal(0));
    assert_eq!("18446744073709551615", unsigned_decimal(u64::MAX));
    assert_eq!("-2147483648", signed_decimal(i32::MIN));
    assert_eq!("2147483647", signed_decimal(i32::MAX));
    assert_eq!("-7", signed_decimal(-7));
    assert_eq!("/proc/1/comm", process_table_path(1));
}

#[test]
fn process_entry_is_trimmed_or_absent() {
    assert_eq!(text("bash"), process_name(text("\tbash \n")));
    assert_eq!(text(""), process_name(text("\n")));
    assert_eq!(None, process_name(None));
}

#[test]
fn window_geometry_from_attributes() {
    let w = Window::from_attributes(&attrs(true, -1, 0, 640, 480));
    assert_eq!(None, w.title);
    assert_eq!(text("-1"), w.x);
    assert_eq!(text("0"), w.y);
    assert_eq!(text("640"), w.w);
    assert_eq!(text("480"), w.h);
    assert_eq!(None, w.process);
}

#[test]
fn layout_accepts_any_arrangement() {
    let p = X11Provider::default();
    p.layout(&Layout {});
}
