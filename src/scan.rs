//! One enumeration of the top-level windows, as a state machine. The caller
//! performs each action against the windowing system and hands the outcome
//! back as an event; the session decides what to read next and assembles the
//! windows.
use vstd::prelude::*;

use crate::window::{
    assembled, comm_path_of, pid_from_property, pid_of, process_name, process_table_path,
    text_of, trimmed, PidProperty, Screen, Window, WindowAttributes, WindowView,
};

verus! {

/// Why an enumeration produced no screens.
#[derive(Clone, Copy, Debug, PartialEq, Eq)]
pub enum ScanError {
    /// No connection to the windowing system could be opened.
    DisplayUnavailable,
    /// The enumeration has not run to its end.
    Incomplete,
}

/// Where an enumeration stands. `index` counts the top-level windows, of
/// which there are `total`.
#[derive(Clone, Copy, Debug, PartialEq, Eq)]
pub enum Phase {
    Connecting,
    Querying,
    Attributes { index: usize, total: usize },
    Title { index: usize, total: usize },
    Pid { index: usize, total: usize },
    Process { index: usize, total: usize },
    Closing,
    Done,
    Failed,
}

/// The outcome of the last action, handed back to the session.
#[derive(Clone, Debug, PartialEq, Eq)]
pub enum ScanEvent {
    DisplayOpened,
    DisplayUnavailable,
    /// The root window has this many children.
    Children(usize),
    Attributes(WindowAttributes),
    Title(Option<String>),
    Pid(PidProperty),
    /// The process-table entry, where it could be read.
    ProcessName(Option<String>),
    DisplayClosed,
}

/// What the caller is to do next.
#[derive(Clone, Debug, PartialEq, Eq)]
pub enum ScanAction {
    OpenDisplay,
    QueryTree,
    /// Read the attributes of the child at this index.
    ReadAttributes(usize),
    FetchTitle(usize),
    ReadPid(usize),
    /// Read the process-table entry at this path.
    ReadProcessName(String),
    CloseDisplay,
    Finished,
    Fail(ScanError),
    /// The event did not fit the phase and changed nothing.
    Ignore,
}

/// The phase after the window at `index` is done with.
pub open spec fn advance(index: usize, total: usize) -> Phase {
    if index + 1 < total {
        Phase::Attributes { index: (index + 1) as usize, total }
    } else {
        Phase::Closing
    }
}

/// The phase that event `e` leads to from `p`; an event that does not fit
/// the phase leaves it as it is.
pub open spec fn next_phase(p: Phase, e: ScanEvent) -> Phase {
    match p {
        Phase::Connecting => match e {
            ScanEvent::DisplayOpened => Phase::Querying,
            ScanEvent::DisplayUnavailable => Phase::Failed,
            _ => p,
        },
        Phase::Querying => match e {
            ScanEvent::Children(n) => if n == 0 {
                Phase::Closing
            } else {
                Phase::Attributes { index: 0, total: n }
            },
            _ => p,
        },
        Phase::Attributes { index, total } => match e {
            ScanEvent::Attributes(a) => if a.viewable {
                Phase::Title { index, total }
            } else {
                advance(index, total)
            },
            _ => p,
        },
        Phase::Title { index, total } => match e {
            ScanEvent::Title(_) => Phase::Pid { index, total },
            _ => p,
        },
        Phase::Pid { index, total } => match e {
            ScanEvent::Pid(prop) => if pid_of(prop) is Some {
                Phase::Process { index, total }
            } else {
                advance(index, total)
            },
            _ => p,
        },
        Phase::Process { index, total } => match e {
            ScanEvent::ProcessName(_) => advance(index, total),
            _ => p,
        },
        Phase::Closing => match e {
            ScanEvent::DisplayClosed => Phase::Done,
            _ => p,
        },
        Phase::Done => p,
        Phase::Failed => p,
    }
}

/// The action that goes with entering phase `q` on event `e`.
pub open spec fn action_for(p: Phase, e: ScanEvent, r: ScanAction) -> bool {
    let q = next_phase(p, e);
    if q == p {
        r is Ignore
    } else {
        match q {
            Phase::Querying => r is QueryTree,
            Phase::Attributes { index, .. } => r == ScanAction::ReadAttributes(index),
            Phase::Title { index, .. } => r == ScanAction::FetchTitle(index),
            Phase::Pid { index, .. } => r == ScanAction::ReadPid(index),
            Phase::Process { .. } => match (e, r) {
                (ScanEvent::Pid(prop), ScanAction::ReadProcessName(path)) => pid_of(prop) is Some
                    && path@ == comm_path_of(pid_of(prop).unwrap() as nat),
                _ => false,
            },
            Phase::Closing => r is CloseDisplay,
            Phase::Done => r is Finished,
            Phase::Failed => r == ScanAction::Fail(ScanError::DisplayUnavailable),
            Phase::Connecting => false,
        }
    }
}

/// The window being assembled, after event `e` in phase `p`.
pub open spec fn pending_after(p: Phase, e: ScanEvent, w: WindowView) -> WindowView {
    match (p, e) {
        (Phase::Attributes { .. }, ScanEvent::Attributes(a)) => if a.viewable {
            assembled(a, None, None)
        } else {
            w
        },
        (Phase::Title { .. }, ScanEvent::Title(t)) => WindowView { title: text_of(t), ..w },
        (Phase::Process { .. }, ScanEvent::ProcessName(entry)) => WindowView {
            process: match entry {
                Some(s) => Some(trimmed(s@)),
                None => None,
            },
            ..w
        },
        _ => w,
    }
}

/// Event `e` in phase `p` completes the window being assembled: its process
/// identifier is missing, or its process name has been looked up.
pub open spec fn completes(p: Phase, e: ScanEvent) -> bool {
    match (p, e) {
        (Phase::Pid { .. }, ScanEvent::Pid(prop)) => pid_of(prop) is None,
        (Phase::Process { .. }, ScanEvent::ProcessName(_)) => true,
        _ => false,
    }
}

/// The display is closed, or is to be closed, in this phase.
pub open spec fn is_closed(p: Phase) -> bool {
    p is Closing || p is Done
}

/// The step from `p` on `e` asks for the display to be closed.
pub open spec fn closes_on(p: Phase, e: ScanEvent) -> bool {
    next_phase(p, e) is Closing && !(p is Closing)
}

/// The phase after `events`, handed to a session one after another from `p`.
pub open spec fn run(p: Phase, events: Seq<ScanEvent>) -> Phase
    decreases events.len(),
{
    if events.len() == 0 {
        p
    } else {
        run(next_phase(p, events[0]), events.drop_first())
    }
}

/// How many of the steps over `events` from `p` ask for the display to be
/// closed.
pub open spec fn closes_in_run(p: Phase, events: Seq<ScanEvent>) -> nat
    decreases events.len(),
{
    if events.len() == 0 {
        0
    } else {
        (if closes_on(p, events[0]) {
            1nat
        } else {
            0nat
        }) + closes_in_run(next_phase(p, events[0]), events.drop_first())
    }
}

proof fn lemma_closes_track_phase(p: Phase, events: Seq<ScanEvent>)
    ensures
        closes_in_run(p, events) + (if is_closed(p) {
            1nat
        } else {
            0nat
        }) == (if is_closed(run(p, events)) {
            1nat
        } else {
            0nat
        }),
        p is Failed ==> run(p, events) is Failed,
    decreases events.len(),
{
    if events.len() > 0 {
        lemma_closes_track_phase(next_phase(p, events[0]), events.drop_first());
    }
}

/// The display is opened once per enumeration, by `begin`, and never by a
/// step; it is asked to be closed at most once, exactly once where the
/// enumeration finished, and never where it could not be opened. Windows
/// whose reads fail change nothing of this: it holds for every sequence of
/// events.
pub proof fn lemma_display_opened_and_closed_once(events: Seq<ScanEvent>)
    ensures
        forall|p: Phase, e: ScanEvent, r: ScanAction| #[trigger]
            action_for(p, e, r) ==> !(r is OpenDisplay),
        forall|p: Phase, e: ScanEvent, r: ScanAction| #[trigger]
            action_for(p, e, r) ==> ((r is CloseDisplay) <==> closes_on(p, e)),
        closes_in_run(Phase::Connecting, events) <= 1,
        run(Phase::Connecting, events) is Done ==> closes_in_run(Phase::Connecting, events) == 1,
        run(Phase::Connecting, events) is Failed ==> closes_in_run(Phase::Connecting, events) == 0,
{
    lemma_closes_track_phase(Phase::Connecting, events);
}

/// A viewable window whose title cannot be read is still kept: once its
/// attributes are in and its title read has failed, the window being
/// assembled has no title and the geometry of its attributes, and the
/// enumeration goes on just as it would with a title.
pub proof fn lemma_untitled_window_kept(
    index: usize,
    total: usize,
    a: WindowAttributes,
    w: WindowView,
    title: Option<String>,
)
    requires
        index < total,
        a.viewable,
    ensures
        next_phase(Phase::Attributes { index, total }, ScanEvent::Attributes(a)) == (Phase::Title {
            index,
            total,
        }),
        pending_after(
            Phase::Title { index, total },
            ScanEvent::Title(None),
            pending_after(Phase::Attributes { index, total }, ScanEvent::Attributes(a), w),
        ) == assembled(a, None, None),
        assembled(a, None, None).title is None,
        assembled(a, None, None).x is Some && assembled(a, None, None).y is Some,
        assembled(a, None, None).w is Some && assembled(a, None, None).h is Some,
        next_phase(Phase::Title { index, total }, ScanEvent::Title(None)) == next_phase(
            Phase::Title { index, total },
            ScanEvent::Title(title),
        ),
{
}

/// A window whose process identifier was read but whose process-table entry
/// could not be is completed with no process, and the enumeration goes on
/// just as it would with a process name.
pub proof fn lemma_unreadable_process_entry(
    index: usize,
    total: usize,
    w: WindowView,
    entry: Option<String>,
)
    requires
        index < total,
    ensures
        completes(Phase::Process { index, total }, ScanEvent::ProcessName(None)),
        pending_after(Phase::Process { index, total }, ScanEvent::ProcessName(None), w) == (
        WindowView { process: None, ..w }),
        next_phase(Phase::Process { index, total }, ScanEvent::ProcessName(None)) == advance(
            index,
            total,
        ),
        next_phase(Phase::Process { index, total }, ScanEvent::ProcessName(entry)) == advance(
            index,
            total,
        ),
{
}

/// A session of one enumeration: its phase, the window being assembled, and
/// the windows assembled so far, in enumeration order.
pub struct ScanSession {
    pub phase: Phase,
    pub pending: Window,
    pub windows: Vec<Window>,
}

impl ScanSession {
    /// Every index stays below the number of windows.
    pub open spec fn wf(&self) -> bool {
        match self.phase {
            Phase::Attributes { index, total } => index < total,
            Phase::Title { index, total } => index < total,
            Phase::Pid { index, total } => index < total,
            Phase::Process { index, total } => index < total,
            _ => true,
        }
    }

    /// A new session, and its first action: open the display.
    pub fn begin() -> (r: (ScanSession, ScanAction))
        ensures
            r.0.wf(),
            r.0.phase == Phase::Connecting,
            r.0.windows@.len() == 0,
            r.1 is OpenDisplay,
    {
        let pending = Window {
            title: None,
            x: None,
            y: None,
            w: None,
            h: None,
            process: None,
        };
        (ScanSession { phase: Phase::Connecting, pending, windows: Vec::new() }, ScanAction::OpenDisplay)
    }

    fn advance_from(&mut self, index: usize, total: usize) -> (r: ScanAction)
        requires
            index < total,
        ensures
            final(self).phase == advance(index, total),
            final(self).pending == old(self).pending,
            final(self).windows == old(self).windows,
            match advance(index, total) {
                Phase::Attributes { index: i, .. } => r == ScanAction::ReadAttributes(i),
                _ => r is CloseDisplay,
            },
    {
        if index + 1 < total {
            self.phase = Phase::Attributes { index: index + 1, total };
            ScanAction::ReadAttributes(index + 1)
        } else {
            self.phase = Phase::Closing;
            ScanAction::CloseDisplay
        }
    }

    fn complete_pending(&mut self)
        ensures
            final(self).phase == old(self).phase,
            final(self).windows@ == old(self).windows@.push(old(self).pending),
    {
        let done = Window {
            title: self.pending.title.take(),
            x: self.pending.x.take(),
            y: self.pending.y.take(),
            w: self.pending.w.take(),
            h: self.pending.h.take(),
            process: self.pending.process.take(),
        };
        self.windows.push(done);
    }

    /// Takes the outcome of the last action and returns the next one.
    pub fn step(&mut self, e: ScanEvent) -> (r: ScanAction)
        requires
            old(self).wf(),
        ensures
            final(self).wf(),
            final(self).phase == next_phase(old(self).phase, e),
            action_for(old(self).phase, e, r),
            !(r is OpenDisplay),
            (r is CloseDisplay) <==> closes_on(old(self).phase, e),
            completes(old(self).phase, e) ==> final(self).windows@ == old(self).windows@.push(
                final(self).windows@.last(),
            ) && final(self).windows@.last()@ == pending_after(
                old(self).phase,
                e,
                old(self).pending@,
            ),
            !completes(old(self).phase, e) ==> final(self).windows@ == old(self).windows@
                && final(self).pending@ == pending_after(old(self).phase, e, old(self).pending@),
    {
        match self.phase {
            Phase::Connecting => match e {
                ScanEvent::DisplayOpened => {
                    self.phase = Phase::Querying;
                    ScanAction::QueryTree
                },
                ScanEvent::DisplayUnavailable => {
                    self.phase = Phase::Failed;
                    ScanAction::Fail(ScanError::DisplayUnavailable)
                },
                _ => ScanAction::Ignore,
            },
            Phase::Querying => match e {
                ScanEvent::Children(n) => {
                    if n == 0 {
                        self.phase = Phase::Closing;
                        ScanAction::CloseDisplay
                    } else {
                        self.phase = Phase::Attributes { index: 0, total: n };
                        ScanAction::ReadAttributes(0)
                    }
                },
                _ => ScanAction::Ignore,
            },
            Phase::Attributes { index, total } => match e {
                ScanEvent::Attributes(a) => {
                    if a.viewable {
                        self.pending = Window::from_attributes(&a);
                        self.phase = Phase::Title { index, total };
                        ScanAction::FetchTitle(index)
                    } else {
                        self.advance_from(index, total)
                    }
                },
                _ => ScanAction::Ignore,
            },
            Phase::Title { index, total } => match e {
                ScanEvent::Title(t) => {
                    self.pending.title = t;
                    self.phase = Phase::Pid { index, total };
                    ScanAction::ReadPid(index)
                },
                _ => ScanAction::Ignore,
            },
            Phase::Pid { index, total } => match e {
                ScanEvent::Pid(prop) => match pid_from_property(&prop) {
                    Some(pid) => {
                        self.phase = Phase::Process { index, total };
                        ScanAction::ReadProcessName(process_table_path(pid))
                    },
                    None => {
                        self.complete_pending();
                        self.advance_from(index, total)
                    },
                },
                _ => ScanAction::Ignore,
            },
            Phase::Process { index, total } => match e {
                ScanEvent::ProcessName(entry) => {
                    self.pending.process = process_name(entry);
                    self.complete_pending();
                    self.advance_from(index, total)
                },
                _ => ScanAction::Ignore,
            },
            Phase::Closing => match e {
                ScanEvent::DisplayClosed => {
                    self.phase = Phase::Done;
                    ScanAction::Finished
                },
                _ => ScanAction::Ignore,
            },
            Phase::Done => ScanAction::Ignore,
            Phase::Failed => ScanAction::Ignore,
        }
    }

    /// The screens of a finished enumeration: one, holding every window in
    /// enumeration order. A session that could not open the display, or has
    /// not closed it yet, gives no screens.
    pub fn finish(self) -> (r: Result<Vec<Screen>, ScanError>)
        ensures
            self.phase is Done ==> r is Ok && r->Ok_0@.len() == 1 && r->Ok_0@[0].windows@
                == self.windows@,
            self.phase is Failed ==> r == Err::<Vec<Screen>, ScanError>(
                ScanError::DisplayUnavailable,
            ),
            !(self.phase is Done) && !(self.phase is Failed) ==> r == Err::<Vec<Screen>, ScanError>(
                ScanError::Incomplete,
            ),
    {
        match self.phase {
            Phase::Done => {
                let screen = Screen::from_windows(self.windows);
                let mut screens: Vec<Screen> = Vec::new();
                screens.push(screen);
                Ok(screens)
            },
            Phase::Failed => Err(ScanError::DisplayUnavailable),
            _ => Err(ScanError::Incomplete),
        }
    }
}

} // verus!
