//! The detection of focus changes, as decisions between the steps of a driver.
//!
//! A pull starts with [`Action::WaitForEvent`]. The driver performs the
//! action it holds, hands the reply to the function that belongs to it, and
//! gets the next action, until that is [`Action::Yield`]:
//!
//! | action                 | reply                    | function                           |
//! |------------------------|--------------------------|------------------------------------|
//! | `WaitForEvent`         | the next protocol event  | [`FocusMonitor::on_event`]         |
//! | `QueryActiveWindow`    | the windows in the reply | [`FocusMonitor::on_active_window`] |
//! | `QueryTitle`           | the bytes of the name    | [`FocusMonitor::on_title`]         |
//! | `QueryClass`           | the bytes of the class   | [`FocusMonitor::on_class`]         |
//!
//! A request that fails on the connection ends the pull with the driver's
//! error; the monitor is as it was before the request.

use crate::error::MonitorError;
use crate::text::class_fields;
use crate::text::get_window_class;
use crate::text::get_window_title;
use crate::window::Window;
use vstd::prelude::*;
use vstd::utf8::decode_utf8;
use vstd::utf8::valid_utf8;

verus! {

/// The name of the root-window property in which the window manager keeps
/// the active window. The driver asks the server for its atom, and only for
/// one that exists already.
pub const ACTIVE_WINDOW_PROPERTY: &'static str = "_NET_ACTIVE_WINDOW";

/// The atom that stands for "no such atom".
pub const ATOM_NONE: u32 = 0;

/// The window identifier that stands for "no window".
pub const WINDOW_NONE: u32 = 0;

/// How many 32-bit units of the active-window property are asked for: one
/// window identifier.
pub const ACTIVE_WINDOW_LENGTH: u32 = 1;

/// How many 32-bit units of a text property are asked for.
pub const TEXT_LENGTH: u32 = 1024;

/// What one pull hands to the consumer: the focused window, nothing where no
/// window has the focus, or the reason why the window could not be described.
pub type Focus = Result<Option<Window>, MonitorError>;

/// What to do with a reading of the active window that equals the one before.
#[derive(Clone, Copy, Debug, PartialEq, Eq, Structural)]
pub enum RepeatPolicy {
    /// Pass over it: the consumer sees changes only.
    Suppress,
    /// Report it like any other reading.
    Report,
}

/// A protocol event, as far as the monitor reads it.
#[derive(Clone, Copy, Debug, PartialEq, Eq, Structural)]
pub enum Event {
    /// A property of a watched window changed; `atom` names the property.
    PropertyNotify { atom: u32 },
    /// Any other event.
    Other,
}

/// What the driver does next.
#[derive(Debug, PartialEq, Eq)]
pub enum Action {
    /// Block until the next protocol event arrives.
    WaitForEvent,
    /// Read `long_length` units of the property `property` of the window
    /// `root`, as a list of windows.
    QueryActiveWindow { root: u32, property: u32, long_length: u32 },
    /// Read `long_length` units of the name property of `window`, as text.
    QueryTitle { window: u32, long_length: u32 },
    /// Read `long_length` units of the class property of `window`, as text.
    /// `title` is the window's title, to be handed back with the reply.
    QueryClass { window: u32, title: String, long_length: u32 },
    /// End the pull with this result.
    Yield(Focus),
}

/// The state of a monitor.
pub struct Session {
    /// The root window of the screen, whose properties are watched.
    pub root_window: u32,
    /// The atom of the property that names the active window.
    pub atom_active_window: u32,
    /// The last reading of the active window, if there was one.
    pub last_window: Option<u32>,
    /// What is done with a repeated reading.
    pub policy: RepeatPolicy,
}

impl Session {
    /// Whether `event` tells of a change of the active-window property.
    pub open spec fn qualifies(self, event: Event) -> bool {
        event == (Event::PropertyNotify { atom: self.atom_active_window })
    }

    /// Whether the reading `window` is passed over.
    pub open spec fn suppresses(self, window: u32) -> bool {
        self.policy == RepeatPolicy::Suppress && self.last_window == Some(window)
    }

    /// The state after the reading `window`.
    pub open spec fn observe(self, window: u32) -> Session {
        Session { last_window: Some(window), ..self }
    }

    /// The action that follows `event`.
    pub open spec fn on_event(self, event: Event) -> Action {
        if self.qualifies(event) {
            Action::QueryActiveWindow {
                root: self.root_window,
                property: self.atom_active_window,
                long_length: ACTIVE_WINDOW_LENGTH,
            }
        } else {
            Action::WaitForEvent
        }
    }

    /// The state and the action that follow a reply to the active-window
    /// query that lists `windows`.
    pub open spec fn on_active_window(self, windows: Seq<u32>) -> (Session, Action) {
        if windows.len() == 0 {
            (self, Action::Yield(Err(MonitorError::EmptyActiveWindowReply)))
        } else if self.suppresses(windows[0]) {
            (self.observe(windows[0]), Action::WaitForEvent)
        } else if windows[0] == WINDOW_NONE {
            (self.observe(windows[0]), Action::Yield(Ok(None)))
        } else {
            (
                self.observe(windows[0]),
                Action::QueryTitle { window: windows[0], long_length: TEXT_LENGTH },
            )
        }
    }
}

/// The readings that are reported when the active-window query gives the
/// readings `windows`, one after the other, to a monitor in state `session`.
pub open spec fn reported(session: Session, windows: Seq<u32>) -> Seq<u32>
    decreases windows.len(),
{
    if windows.len() == 0 {
        Seq::empty()
    } else {
        let later = reported(session.observe(windows[0]), windows.drop_first());
        if session.suppresses(windows[0]) {
            later
        } else {
            seq![windows[0]] + later
        }
    }
}

/// `windows` without each reading that equals the one just before it, where
/// `before` stands before the first.
pub open spec fn without_repeats(before: Option<u32>, windows: Seq<u32>) -> Seq<u32>
    decreases windows.len(),
{
    if windows.len() == 0 {
        Seq::empty()
    } else {
        let earlier = windows.drop_last();
        let previous = if earlier.len() == 0 {
            before
        } else {
            Some(earlier.last())
        };
        if previous == Some(windows.last()) {
            without_repeats(before, earlier)
        } else {
            without_repeats(before, earlier).push(windows.last())
        }
    }
}

proof fn lemma_without_repeats_front(before: Option<u32>, window: u32, rest: Seq<u32>)
    ensures
        without_repeats(before, seq![window] + rest) == if before == Some(window) {
            without_repeats(Some(window), rest)
        } else {
            seq![window] + without_repeats(Some(window), rest)
        },
    decreases rest.len(),
{
    let all = seq![window] + rest;
    if rest.len() == 0 {
        assert(without_repeats(before, all.drop_last()) == Seq::<u32>::empty());
    } else {
        let earlier = rest.drop_last();
        assert(all.drop_last() == seq![window] + earlier);
        lemma_without_repeats_front(before, window, earlier);
        if earlier.len() > 0 {
            assert(all.drop_last().last() == earlier.last());
        }
    }
}

/// A monitor that suppresses repeats reports each run of equal readings
/// once: what it reports is the readings without those that equal the
/// reading before them, the first being held against the last reading that
/// the monitor has seen.
pub proof fn lemma_suppress_collapses_repeats(session: Session, windows: Seq<u32>)
    requires
        session.policy == RepeatPolicy::Suppress,
    ensures
        reported(session, windows) == without_repeats(session.last_window, windows),
    decreases windows.len(),
{
    if windows.len() > 0 {
        let rest = windows.drop_first();
        lemma_suppress_collapses_repeats(session.observe(windows[0]), rest);
        lemma_without_repeats_front(session.last_window, windows[0], rest);
        assert(seq![windows[0]] + rest == windows);
    }
}

/// A monitor that suppresses repeats never reports the same window twice in
/// a row, and does not begin with the window that it saw last.
pub proof fn lemma_suppress_reports_changes_only(session: Session, windows: Seq<u32>)
    requires
        session.policy == RepeatPolicy::Suppress,
    ensures
        reported(session, windows).len() > 0 ==> session.last_window != Some(
            reported(session, windows)[0],
        ),
        forall|i: int|
            0 < i < reported(session, windows).len() ==> reported(session, windows)[i - 1]
                != #[trigger] reported(session, windows)[i],
    decreases windows.len(),
{
    if windows.len() > 0 {
        let next = session.observe(windows[0]);
        let later = reported(next, windows.drop_first());
        lemma_suppress_reports_changes_only(next, windows.drop_first());
        let all = reported(session, windows);
        if !session.suppresses(windows[0]) {
            assert forall|i: int| 0 < i < all.len() implies all[i - 1] != #[trigger] all[i] by {
                if i > 1 {
                    assert(all[i] == later[i - 1]);
                    assert(all[i - 1] == later[i - 2]);
                }
            }
        }
    }
}

/// A monitor that reports repeats reports every reading: one result for
/// each, in the order in which they came.
pub proof fn lemma_report_keeps_every_reading(session: Session, windows: Seq<u32>)
    requires
        session.policy == RepeatPolicy::Report,
    ensures
        reported(session, windows) == windows,
    decreases windows.len(),
{
    if windows.len() > 0 {
        lemma_report_keeps_every_reading(session.observe(windows[0]), windows.drop_first());
    }
}

/// The reading `WINDOW_NONE` is never looked up: where it is reported, the
/// pull ends at once with no window, and no reply leads to a query for the
/// name of `WINDOW_NONE`.
pub proof fn lemma_no_window_is_not_looked_up(session: Session, windows: Seq<u32>)
    ensures
        windows.len() > 0 && windows[0] == WINDOW_NONE && !session.suppresses(WINDOW_NONE)
            ==> session.on_active_window(windows).1 == Action::Yield(Ok(None)),
        session.on_active_window(windows).1 matches Action::QueryTitle { window, .. }
            ==> window != WINDOW_NONE,
{
}

/// An event that is not a change of the active-window property yields no
/// result: the driver is sent back to waiting, as at the start of the pull.
pub proof fn lemma_unrelated_event_is_dropped(session: Session, event: Event)
    requires
        event != (Event::PropertyNotify { atom: session.atom_active_window }),
    ensures
        session.on_event(event) == Action::WaitForEvent,
{
}

/// The session state of a focus monitor: which property of which window it
/// watches, and the last window it has seen active.
pub struct FocusMonitor {
    root_window: u32,
    atom_active_window: u32,
    last_window: Option<u32>,
    policy: RepeatPolicy,
}

impl View for FocusMonitor {
    type V = Session;

    closed spec fn view(&self) -> Session {
        Session {
            root_window: self.root_window,
            atom_active_window: self.atom_active_window,
            last_window: self.last_window,
            policy: self.policy,
        }
    }
}

/// The first window of a reply to the active-window query.
pub fn get_active_window(windows: &[u32]) -> (active: Result<u32, MonitorError>)
    ensures
        match active {
            Ok(window) => windows@.len() > 0 && window == windows@[0],
            Err(e) => windows@.len() == 0 && e == MonitorError::EmptyActiveWindowReply,
        },
{
    if windows.len() > 0 {
        Ok(windows[0])
    } else {
        Err(MonitorError::EmptyActiveWindowReply)
    }
}

impl FocusMonitor {
    /// The atom of a monitor is a real one.
    #[verifier::type_invariant]
    spec fn inv(self) -> bool {
        self.atom_active_window != ATOM_NONE
    }

    /// Builds the session from what the handshake with the server gave:
    /// the atom that the server knows `_NET_ACTIVE_WINDOW` by, the root
    /// windows of its screens, and the number of the screen that the
    /// connection was opened on.
    ///
    /// Without the atom the window manager does not track the active window,
    /// and there is nothing to watch; this is looked at first. Then the
    /// screen must be one of the server's. The new monitor has seen no window
    /// yet and suppresses repeats.
    pub fn try_new(atom_active_window: u32, roots: &[u32], screen_num: i32) -> (monitor: Result<
        FocusMonitor,
        MonitorError,
    >)
        ensures
            match monitor {
                Ok(m) => {
                    &&& atom_active_window != ATOM_NONE
                    &&& 0 <= screen_num < roots@.len()
                    &&& m@ == Session {
                        root_window: roots@[screen_num as int],
                        atom_active_window,
                        last_window: None,
                        policy: RepeatPolicy::Suppress,
                    }
                },
                Err(e) => if atom_active_window == ATOM_NONE {
                    e == MonitorError::NotSupported
                } else {
                    !(0 <= screen_num < roots@.len()) && e == MonitorError::ScreenNotFound
                },
            },
    {
        if atom_active_window == ATOM_NONE {
            return Err(MonitorError::NotSupported);
        }
        if screen_num < 0 {
            return Err(MonitorError::ScreenNotFound);
        }
        let index: usize = screen_num as usize;
        if index >= roots.len() {
            return Err(MonitorError::ScreenNotFound);
        }
        Ok(
            FocusMonitor {
                root_window: roots[index],
                atom_active_window,
                last_window: None,
                policy: RepeatPolicy::Suppress,
            },
        )
    }

    /// The same monitor with another policy for repeated readings.
    pub fn with_policy(self, policy: RepeatPolicy) -> (monitor: FocusMonitor)
        ensures
            monitor@ == (Session { policy, ..self@ }),
    {
        proof {
            use_type_invariant(&self);
        }
        FocusMonitor {
            root_window: self.root_window,
            atom_active_window: self.atom_active_window,
            last_window: self.last_window,
            policy,
        }
    }

    /// The root window whose properties are watched.
    pub fn root_window(&self) -> (root: u32)
        ensures
            root == self@.root_window,
    {
        self.root_window
    }

    /// The atom of the active-window property, which is never `ATOM_NONE`.
    pub fn atom_active_window(&self) -> (atom: u32)
        ensures
            atom == self@.atom_active_window,
            atom != ATOM_NONE,
    {
        proof {
            use_type_invariant(self);
        }
        self.atom_active_window
    }

    /// The last reading of the active window, if there was one.
    pub fn last_window(&self) -> (last: Option<u32>)
        ensures
            last == self@.last_window,
    {
        self.last_window
    }

    /// What the monitor does with a repeated reading.
    pub fn policy(&self) -> (policy: RepeatPolicy)
        ensures
            policy == self@.policy,
    {
        self.policy
    }

    /// The action that every pull starts with.
    pub fn begin(&self) -> (action: Action)
        ensures
            action == Action::WaitForEvent,
    {
        Action::WaitForEvent
    }

    /// Decides on a protocol event.
    ///
    /// Only a change of the active-window property leads on, to the query for
    /// its new value. Every other event is dropped, and the driver waits for
    /// the next.
    pub fn on_event(&self, event: Event) -> (action: Action)
        ensures
            action == self@.on_event(event),
    {
        match event {
            Event::PropertyNotify { atom } => {
                if atom == self.atom_active_window {
                    Action::QueryActiveWindow {
                        root: self.root_window,
                        property: self.atom_active_window,
                        long_length: ACTIVE_WINDOW_LENGTH,
                    }
                } else {
                    Action::WaitForEvent
                }
            },
            Event::Other => Action::WaitForEvent,
        }
    }

    /// Decides on the reply to the active-window query.
    ///
    /// An empty reply fails the pull and leaves the monitor as it is.
    /// Otherwise the first window is the reading. A reading that is
    /// suppressed sends the driver back to waiting. One that is reported
    /// ends the pull at once if it is `WINDOW_NONE`, with no window, and
    /// else leads on to the query for the window's name. Either way the
    /// reading is remembered.
    pub fn on_active_window(&mut self, windows: &[u32]) -> (action: Action)
        ensures
            (final(self)@, action) == old(self)@.on_active_window(windows@),
    {
        proof {
            use_type_invariant(&*self);
        }
        let window: u32 = match get_active_window(windows) {
            Ok(window) => window,
            Err(e) => {
                return Action::Yield(Err(e));
            },
        };
        let repeated: bool = match self.last_window {
            Some(last) => last == window,
            None => false,
        };
        self.last_window = Some(window);
        match self.policy {
            RepeatPolicy::Suppress => {
                if repeated {
                    return Action::WaitForEvent;
                }
            },
            RepeatPolicy::Report => {},
        }
        if window == WINDOW_NONE {
            Action::Yield(Ok(None))
        } else {
            Action::QueryTitle { window, long_length: TEXT_LENGTH }
        }
    }

    /// Decides on the reply to the name query for `window`.
    ///
    /// A name that is valid UTF-8 is the title, and the class is asked for
    /// next; any other fails the pull.
    pub fn on_title(window: u32, raw: &[u8]) -> (action: Action)
        ensures
            match action {
                Action::QueryClass { window: w, title, long_length } => {
                    &&& valid_utf8(raw@)
                    &&& w == window
                    &&& title@ == decode_utf8(raw@)
                    &&& long_length == TEXT_LENGTH
                },
                other => !valid_utf8(raw@) && other == Action::Yield(
                    Err(MonitorError::TitleNotUtf8),
                ),
            },
    {
        match get_window_title(raw) {
            Ok(title) => Action::QueryClass { window, title, long_length: TEXT_LENGTH },
            Err(e) => Action::Yield(Err(e)),
        }
    }

    /// Decides on the reply to the class query, and ends the pull: with the
    /// window of title `title` and the two names that `raw` holds, or with
    /// the reason why `raw` holds none.
    pub fn on_class(title: String, raw: &[u8]) -> (action: Action)
        ensures
            match action {
                Action::Yield(Ok(Some(window))) => {
                    &&& valid_utf8(raw@)
                    &&& class_fields(decode_utf8(raw@)) == Some(window@.class)
                    &&& window@.title == title@
                },
                other => if !valid_utf8(raw@) {
                    other == Action::Yield(Err(MonitorError::ClassNotUtf8))
                } else {
                    class_fields(decode_utf8(raw@)) is None && other == Action::Yield(
                        Err(MonitorError::ClassFormat),
                    )
                },
            },
    {
        match get_window_class(raw) {
            Ok(class) => Action::Yield(Ok(Some(Window { title, class }))),
            Err(e) => Action::Yield(Err(e)),
        }
    }
}

} // verus!
