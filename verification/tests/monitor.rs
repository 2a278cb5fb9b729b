use focus_monitor::monitor::{
    get_active_window, RepeatPolicy, ACTIVE_WINDOW_LENGTH, ATOM_NONE, TEXT_LENGTH, WINDOW_NONE,
};
use focus_monitor::{Action, Event, FocusMonitor, MonitorError, Window};
use xcb::Xid;

const ATOM: u32 = 341;
const ROOT: u32 = 0x1e5;

fn monitor() -> FocusMonitor {
    FocusMonitor::try_new(ATOM, &[ROOT], 0).unwrap()
}

/// Feeds the readings to the monitor, one reply each, and collects those
/// that it reports.
fn reported(monitor: &mut FocusMonitor, readings: &[u32]) -> Vec<u32> {
    let mut out = Vec::new();
    for &reading in readings {
        match monitor.on_active_window(&[reading]) {
            Action::WaitForEvent => {}
            Action::QueryTitle { window, long_length } => {
                assert_eq!(long_length, 1024);
                out.push(window);
            }
            Action::Yield(Ok(None)) => out.push(WINDOW_NONE),
            other => panic!("unexpected action {:?}", other),
        }
    }
    out
}

#[test]
fn none_sentinels_are_those_of_the_protocol() {
    assert_eq!(xcb::x::WINDOW_NONE.resource_id(), WINDOW_NONE);
    assert_eq!(xcb::x::ATOM_NONE.resource_id(), ATOM_NONE);
}

#[test]
fn request_lengths() {
    assert_eq!(ACTIVE_WINDOW_LENGTH, 1);
    assert_eq!(TEXT_LENGTH, 1024);
}

#[test]
fn construction_fails_without_the_atom() {
    assert_eq!(
        FocusMonitor::try_new(ATOM_NONE, &[ROOT], 0).err(),
        Some(MonitorError::NotSupported)
    );
    assert_eq!(
        FocusMonitor::try_new(0, &[ROOT], 0).err(),
        Some(MonitorError::NotSupported)
    );
}

#[test]
fn missing_atom_is_reported_before_missing_screen() {
    assert_eq!(
        FocusMonitor::try_new(ATOM_NONE, &[], 3).err(),
        Some(MonitorError::NotSupported)
    );
}

#[test]
fn construction_fails_without_the_screen() {
    assert_eq!(
        FocusMonitor::try_new(ATOM, &[ROOT], 1).err(),
        Some(MonitorError::ScreenNotFound)
    );
    assert_eq!(
        FocusMonitor::try_new(ATOM, &[], 0).err(),
        Some(MonitorError::ScreenNotFound)
    );
    assert_eq!(
        FocusMonitor::try_new(ATOM, &[ROOT], -1).err(),
        Some(MonitorError::ScreenNotFound)
    );
    assert_eq!(
        FocusMonitor::try_new(ATOM, &[ROOT, 7], i32::MIN).err(),
        Some(MonitorError::ScreenNotFound)
    );
}

#[test]
fn construction_picks_the_root_of_the_screen() {
    let m = FocusMonitor::try_new(ATOM, &[10, 20, 30], 2).unwrap();
    assert_eq!(m.root_window(), 30);
    assert_eq!(m.atom_active_window(), ATOM);
    assert_eq!(m.last_window(), None);
    assert_eq!(m.policy(), RepeatPolicy::Suppress);
    let m = FocusMonitor::try_new(ATOM, &[10, 20, 30], 0).unwrap();
    assert_eq!(m.root_window(), 10);
}

#[test]
fn pull_begins_by_waiting() {
    assert_eq!(monitor().begin(), Action::WaitForEvent);
}

#[test]
fn unrelated_events_are_dropped() {
    let m = monitor();
    assert_eq!(m.on_event(Event::Other), Action::WaitForEvent);
    assert_eq!(
        m.on_event(Event::PropertyNotify { atom: ATOM + 1 }),
        Action::WaitForEvent
    );
    assert_eq!(
        m.on_event(Event::PropertyNotify { atom: ATOM_NONE }),
        Action::WaitForEvent
    );
    assert_eq!(m.last_window(), None);
}

#[test]
fn change_of_the_active_window_property_is_followed_up() {
    let m = FocusMonitor::try_new(ATOM, &[5, ROOT], 1).unwrap();
    assert_eq!(
        m.on_event(Event::PropertyNotify { atom: ATOM }),
        Action::QueryActiveWindow {
            root: ROOT,
            property: ATOM,
            long_length: 1
        }
    );
}

#[test]
fn first_window_of_the_reply_is_the_active_one() {
    assert_eq!(get_active_window(&[77]), Ok(77));
    assert_eq!(get_active_window(&[77, 78]), Ok(77));
    assert_eq!(get_active_window(&[0]), Ok(0));
    assert_eq!(
        get_active_window(&[]),
        Err(MonitorError::EmptyActiveWindowReply)
    );
}

#[test]
fn empty_reply_fails_the_pull_and_changes_nothing() {
    let mut m = monitor();
    assert_eq!(
        m.on_active_window(&[]),
        Action::Yield(Err(MonitorError::EmptyActiveWindowReply))
    );
    assert_eq!(m.last_window(), None);
    assert_eq!(
        m.on_active_window(&[9]),
        Action::QueryTitle {
            window: 9,
            long_length: 1024
        }
    );
    assert_eq!(
        m.on_active_window(&[]),
        Action::Yield(Err(MonitorError::EmptyActiveWindowReply))
    );
    assert_eq!(m.last_window(), Some(9));
    assert_eq!(m.on_active_window(&[9]), Action::WaitForEvent);
}

#[test]
fn consecutive_repeats_collapse_to_one() {
    let (w1, w2, w3) = (0x40_0001, 0x40_0002, 0x60_0003);
    let mut m = monitor();
    assert_eq!(
        reported(&mut m, &[w1, w1, w2, w2, w2, w3]),
        vec![w1, w2, w3]
    );
    assert_eq!(m.last_window(), Some(w3));
}

#[test]
fn window_that_returns_is_reported_again() {
    let mut m = monitor();
    assert_eq!(reported(&mut m, &[1, 2, 1, 1, 2]), vec![1, 2, 1, 2]);
}

#[test]
fn repeat_across_pulls_is_suppressed() {
    let mut m = monitor();
    assert_eq!(reported(&mut m, &[4, 5]), vec![4, 5]);
    assert_eq!(reported(&mut m, &[5, 5, 6]), vec![6]);
}

#[test]
fn reporting_policy_keeps_every_reading() {
    let (w1, w2, w3) = (0x40_0001, 0x40_0002, 0x60_0003);
    let mut m = monitor().with_policy(RepeatPolicy::Report);
    assert_eq!(m.policy(), RepeatPolicy::Report);
    let out = reported(&mut m, &[w1, w1, w2, w2, w2, w3]);
    assert_eq!(out.len(), 6);
    assert_eq!(out, vec![w1, w1, w2, w2, w2, w3]);
    assert_eq!(m.last_window(), Some(w3));
}

#[test]
fn policy_change_keeps_the_session() {
    let mut m = FocusMonitor::try_new(ATOM, &[3, 4], 1).unwrap();
    assert_eq!(reported(&mut m, &[8]), vec![8]);
    let m = m.with_policy(RepeatPolicy::Report);
    assert_eq!(m.root_window(), 4);
    assert_eq!(m.atom_active_window(), ATOM);
    assert_eq!(m.last_window(), Some(8));
}

#[test]
fn no_window_ends_the_pull_without_lookup() {
    let mut m = monitor();
    assert_eq!(m.on_active_window(&[WINDOW_NONE]), Action::Yield(Ok(None)));
    assert_eq!(m.last_window(), Some(WINDOW_NONE));
    assert_eq!(m.on_active_window(&[WINDOW_NONE]), Action::WaitForEvent);
    assert_eq!(
        m.on_active_window(&[12]),
        Action::QueryTitle {
            window: 12,
            long_length: 1024
        }
    );
    assert_eq!(m.on_active_window(&[WINDOW_NONE]), Action::Yield(Ok(None)));
    let mut m = monitor().with_policy(RepeatPolicy::Report);
    assert_eq!(m.on_active_window(&[WINDOW_NONE]), Action::Yield(Ok(None)));
    assert_eq!(m.on_active_window(&[WINDOW_NONE]), Action::Yield(Ok(None)));
}

#[test]
fn title_leads_to_the_class_query() {
    assert_eq!(
        FocusMonitor::on_title(12, b"Mozilla Firefox"),
        Action::QueryClass {
            window: 12,
            title: "Mozilla Firefox".to_string(),
            long_length: 1024
        }
    );
}

#[test]
fn bad_title_fails_the_pull() {
    assert_eq!(
        FocusMonitor::on_title(12, &[0x80]),
        Action::Yield(Err(MonitorError::TitleNotUtf8))
    );
}

#[test]
fn class_completes_the_window() {
    assert_eq!(
        FocusMonitor::on_class("Mozilla Firefox".to_string(), b"Navigator\0firefox\0"),
        Action::Yield(Ok(Some(Window {
            title: "Mozilla Firefox".to_string(),
            class: ("Navigator".to_string(), "firefox".to_string()),
        })))
    );
}

#[test]
fn bad_class_fails_the_pull() {
    assert_eq!(
        FocusMonitor::on_class("t".to_string(), &[0xc0, 0]),
        Action::Yield(Err(MonitorError::ClassNotUtf8))
    );
    assert_eq!(
        FocusMonitor::on_class("t".to_string(), b"only"),
        Action::Yield(Err(MonitorError::ClassFormat))
    );
}

#[test]
fn class_of_one_field_yields_no_window() {
    assert_eq!(
        FocusMonitor::on_class("t".to_string(), b"Navigator\0"),
        Action::Yield(Err(MonitorError::ClassFormat))
    );
    assert_eq!(
        FocusMonitor::on_class("t".to_string(), b"Navigator\0firefox"),
        Action::Yield(Err(MonitorError::ClassFormat))
    );
}

/// A driver over canned replies: performs each action by taking the next
/// reply of its kind, as a driver does with the server's.
fn pull(
    m: &mut FocusMonitor,
    events: &mut Vec<Event>,
    readings: &mut Vec<Vec<u32>>,
    names: &[u8],
    classes: &[u8],
) -> (Result<Option<Window>, MonitorError>, Vec<&'static str>) {
    let mut trace = Vec::new();
    let mut action = m.begin();
    loop {
        action = match action {
            Action::WaitForEvent => {
                trace.push("wait");
                m.on_event(events.remove(0))
            }
            Action::QueryActiveWindow { root, property, long_length } => {
                trace.push("active");
                assert_eq!((root, property, long_length), (ROOT, ATOM, 1));
                m.on_active_window(&readings.remove(0))
            }
            Action::QueryTitle { window, .. } => {
                trace.push("title");
                FocusMonitor::on_title(window, names)
            }
            Action::QueryClass { title, .. } => {
                trace.push("class");
                FocusMonitor::on_class(title, classes)
            }
            Action::Yield(focus) => return (focus, trace),
        }
    }
}

#[test]
fn pull_waits_through_unrelated_events_and_repeats() {
    let mut m = monitor();
    let change = Event::PropertyNotify { atom: ATOM };
    let mut events = vec![
        Event::PropertyNotify { atom: 39 },
        Event::Other,
        change,
        change,
        Event::PropertyNotify { atom: 67 },
        change,
    ];
    let mut readings = vec![vec![50], vec![50], vec![51]];
    let (focus, trace) = pull(&mut m, &mut events, &mut readings, b"one", b"a\0A\0");
    assert_eq!(
        focus,
        Ok(Some(Window {
            title: "one".to_string(),
            class: ("a".to_string(), "A".to_string()),
        }))
    );
    assert_eq!(trace, vec!["wait", "wait", "wait", "active", "title", "class"]);
    assert_eq!(events.len(), 3);

    let (focus, trace) = pull(&mut m, &mut events, &mut readings, b"two", b"b\0B\0");
    assert_eq!(
        focus,
        Ok(Some(Window {
            title: "two".to_string(),
            class: ("b".to_string(), "B".to_string()),
        }))
    );
    assert_eq!(
        trace,
        vec!["wait", "active", "wait", "wait", "active", "title", "class"]
    );
    assert!(events.is_empty());
    assert!(readings.is_empty());
}

#[test]
fn pull_with_no_window_asks_for_no_property() {
    let mut m = monitor();
    let mut events = vec![Event::PropertyNotify { atom: ATOM }];
    let mut readings = vec![vec![WINDOW_NONE]];
    let (focus, trace) = pull(&mut m, &mut events, &mut readings, b"", b"");
    assert_eq!(focus, Ok(None));
    assert_eq!(trace, vec!["wait", "active"]);
}

#[test]
fn failed_resolution_does_not_end_the_monitor() {
    let mut m = monitor();
    let change = Event::PropertyNotify { atom: ATOM };
    let mut events = vec![change, change];
    let mut readings = vec![vec![50], vec![51]];
    let (focus, _) = pull(&mut m, &mut events, &mut readings, b"one", b"broken");
    assert_eq!(focus, Err(MonitorError::ClassFormat));
    assert_eq!(m.last_window(), Some(50));
    let (focus, _) = pull(&mut m, &mut events, &mut readings, b"two", b"b\0B\0");
    assert_eq!(
        focus,
        Ok(Some(Window {
            title: "two".to_string(),
            class: ("b".to_string(), "B".to_string()),
        }))
    );
}

#[test]
fn window_is_a_copyable_snapshot() {
    let w = Window {
        title: "t".to_string(),
        class: ("i".to_string(), "c".to_string()),
    };
    let copy = w.clone();
    assert_eq!(copy, w);
    assert_eq!(copy.title, "t");
    assert_eq!(copy.class, ("i".to_string(), "c".to_string()));
}
