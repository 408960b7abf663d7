//! The state of a single site and what it does on a timer tick or on the
//! outcome of a fetch. At most one check per site runs at a time.
use vstd::prelude::*;
use vstd::string::*;
use crate::diff::{body_of, report_differs, report_of, SiteResult, SnapshotModel};

verus! {

/// Why a fetch did not deliver a response.
pub struct FetchError {
    pub message: String,
}

/// A desktop notification to send.
pub struct Notification {
    pub title: String,
    pub body: String,
}

/// What a site monitor is told: a timer tick, or the outcome of the fetch it
/// asked for.
pub enum SiteMessage {
    Check,
    Fetched(Result<SiteResult, FetchError>),
}

/// What the caller must do after a message was handled.
pub enum SiteAction {
    /// Fetch this URL and report back with `SiteMessage::Fetched`.
    Fetch(String),
    /// A check is still running: this tick is dropped.
    Skip,
    /// First snapshot stored, with this status; nothing to report.
    Baseline(u16),
    /// Snapshot replaced; nothing changed.
    Unchanged,
    /// Snapshot replaced; send this notification.
    Notify(Notification),
    /// The fetch failed; the snapshot is kept.
    Failed(FetchError),
}

/// The monitor of one site.
pub struct SiteState {
    pub name: String,
    pub href: String,
    pub result: Option<SiteResult>,
    pub in_flight: bool,
}

/// The mathematical form of a site monitor.
pub struct SiteModel {
    pub name: Seq<char>,
    pub href: Seq<char>,
    pub in_flight: bool,
    pub snapshot: Option<SnapshotModel>,
}

/// The mathematical form of a message.
pub enum EventModel {
    Check,
    Fetched(Result<SnapshotModel, Seq<char>>),
}

/// The mathematical form of an action.
pub enum ActionModel {
    Fetch(Seq<char>),
    Skip,
    Baseline(u16),
    Unchanged,
    Notify(Seq<char>, Seq<char>),
    Failed(Seq<char>),
}

/// The notification title for a site.
pub open spec fn title_of(name: Seq<char>) -> Seq<char> {
    name + " Updated"@
}

/// The state and action after a successful fetch of `new`.
pub open spec fn after_fetch(s: SiteModel, new: SnapshotModel) -> (SiteModel, ActionModel) {
    let next = SiteModel { in_flight: false, snapshot: Some(new), ..s };
    match s.snapshot {
        None => (next, ActionModel::Baseline(new.status)),
        Some(prev) => {
            let m = report_of(prev, new);
            if report_differs(m) {
                (next, ActionModel::Notify(title_of(s.name), body_of(m)))
            } else {
                (next, ActionModel::Unchanged)
            }
        },
    }
}

/// One transition of a site monitor.
pub open spec fn step(s: SiteModel, e: EventModel) -> (SiteModel, ActionModel) {
    match e {
        EventModel::Check => if s.in_flight {
            (s, ActionModel::Skip)
        } else {
            (SiteModel { in_flight: true, ..s }, ActionModel::Fetch(s.href))
        },
        EventModel::Fetched(Err(msg)) => (SiteModel { in_flight: false, ..s }, ActionModel::Failed(msg)),
        EventModel::Fetched(Ok(new)) => after_fetch(s, new),
    }
}

impl SiteMessage {
    pub open spec fn model(&self) -> EventModel {
        match self {
            SiteMessage::Check => EventModel::Check,
            SiteMessage::Fetched(Ok(r)) => EventModel::Fetched(Ok(r.model())),
            SiteMessage::Fetched(Err(e)) => EventModel::Fetched(Err(e.message@)),
        }
    }
}

impl SiteAction {
    pub open spec fn model(&self) -> ActionModel {
        match self {
            SiteAction::Fetch(u) => ActionModel::Fetch(u@),
            SiteAction::Skip => ActionModel::Skip,
            SiteAction::Baseline(s) => ActionModel::Baseline(*s),
            SiteAction::Unchanged => ActionModel::Unchanged,
            SiteAction::Notify(n) => ActionModel::Notify(n.title@, n.body@),
            SiteAction::Failed(e) => ActionModel::Failed(e.message@),
        }
    }
}

impl SiteState {
    pub open spec fn model(&self) -> SiteModel {
        SiteModel {
            name: self.name@,
            href: self.href@,
            in_flight: self.in_flight,
            snapshot: match self.result {
                Some(r) => Some(r.model()),
                None => None,
            },
        }
    }

    /// A monitor of `href`, labelled `name`, that has not checked yet.
    pub fn new(name: String, href: String) -> (r: SiteState)
        ensures
            r.model() == (SiteModel { name: name@, href: href@, in_flight: false, snapshot: None }),
    {
        SiteState { name, href, result: None, in_flight: false }
    }

    /// Takes in the outcome of a fetch. A failure keeps the snapshot; a
    /// response becomes the new snapshot, and is compared with the prior one.
    pub fn check(&mut self, fetched: Result<SiteResult, FetchError>) -> (r: SiteAction)
        ensures
            (final(self).model(), r.model())
                == step(old(self).model(), SiteMessage::Fetched(fetched).model()),
            fetched is Ok ==> final(self).result == Some(fetched->Ok_0),
    {
        match fetched {
            Err(e) => {
                self.in_flight = false;
                SiteAction::Failed(e)
            },
            Ok(new) => {
                let action = match &self.result {
                    None => SiteAction::Baseline(new.status),
                    Some(prev) => {
                        let d = prev.diff(&new);
                        if d.is_different() {
                            let title = self.name.clone().concat(" Updated");
                            SiteAction::Notify(Notification { title, body: d.description() })
                        } else {
                            SiteAction::Unchanged
                        }
                    },
                };
                self.result = Some(new);
                self.in_flight = false;
                action
            },
        }
    }

    /// Handles a tick or a fetch outcome. A tick starts a fetch only when
    /// no check of this site is running.
    pub fn handle_message(&mut self, message: SiteMessage) -> (r: SiteAction)
        ensures
            (final(self).model(), r.model()) == step(old(self).model(), message.model()),
    {
        match message {
            SiteMessage::Check => {
                if self.in_flight {
                    SiteAction::Skip
                } else {
                    self.in_flight = true;
                    SiteAction::Fetch(self.href.clone())
                }
            },
            SiteMessage::Fetched(fetched) => self.check(fetched),
        }
    }
}

/// The first fetch of a monitor without a snapshot never notifies, whatever
/// it fetched: a response only becomes the baseline.
pub proof fn lemma_first_check_never_notifies(s: SiteModel, e: EventModel)
    requires
        s.snapshot is None,
    ensures
        !(step(s, e).1 is Notify),
        e matches EventModel::Fetched(Ok(n)) ==> step(s, e).0.snapshot == Some(n),
{
}

/// A failed fetch keeps the snapshot exactly as it was and notifies nobody.
pub proof fn lemma_failed_fetch_keeps_snapshot(s: SiteModel, msg: Seq<char>)
    ensures
        step(s, EventModel::Fetched(Err(msg))).0.snapshot == s.snapshot,
        step(s, EventModel::Fetched(Err(msg))).0.name == s.name,
        step(s, EventModel::Fetched(Err(msg))).0.href == s.href,
        !(step(s, EventModel::Fetched(Err(msg))).1 is Notify),
{
}

/// Two overlapping ticks start one fetch: the second tick, coming while the
/// first check runs, is dropped and leaves the state as it was. The snapshot
/// after that fetch is then exactly what it fetched, or the old one if it
/// failed.
pub proof fn lemma_overlapping_ticks_start_one_fetch(
    s: SiteModel,
    outcome: Result<SnapshotModel, Seq<char>>,
)
    requires
        !s.in_flight,
    ensures
        step(s, EventModel::Check).1 == ActionModel::Fetch(s.href),
        step(step(s, EventModel::Check).0, EventModel::Check).1 is Skip,
        step(step(s, EventModel::Check).0, EventModel::Check).0 == step(s, EventModel::Check).0,
        step(step(s, EventModel::Check).0, EventModel::Fetched(outcome)).0.snapshot == (match outcome {
            Ok(n) => Some(n),
            Err(_) => s.snapshot,
        }),
{
}

} // verus!
