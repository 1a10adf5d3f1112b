use vstd::prelude::*;
use crate::target::AttachmentUsage;

verus! {

#[verifier::external_type_specification]
#[verifier::external_body]
pub struct ExTimeDelta(chrono::TimeDelta);

#[verifier::external_type_specification]
#[verifier::external_body]
pub struct ExNaiveDateTime(chrono::NaiveDateTime);

/// Relies on chrono's `Utc::now`: the current wall-clock time, as a UTC date
/// and time. Nothing is known of the value.
#[verifier::external_body]
fn now_utc() -> (r: chrono::NaiveDateTime) {
    chrono::Utc::now().naive_utc()
}

/// The time from `earlier` to `later`.
pub uninterp spec fn elapsed_between(later: chrono::NaiveDateTime, earlier: chrono::NaiveDateTime) -> chrono::TimeDelta;

/// Relies on chrono's `NaiveDateTime::signed_duration_since`: the time from
/// `earlier` to `later`, a function of the two alone, which the crate
/// documents never to overflow.
#[verifier::external_body]
fn duration_since(later: chrono::NaiveDateTime, earlier: chrono::NaiveDateTime) -> (r: chrono::TimeDelta)
    ensures
        r == elapsed_between(later, earlier),
{
    later.signed_duration_since(earlier)
}

/// Where the world being drawn comes from: a live server, or a recorded demo
/// whose camera follows the recording.
#[derive(Clone, Copy, Debug, PartialEq, Eq, Structural)]
pub enum RenderConnectionKind {
    Server,
    Demo,
}

/// The frame node: what it reads from the geometry pass, and the clock the
/// UI animates by.
pub struct ClientRenderer {
    start_time: chrono::NaiveDateTime,
}

impl ClientRenderer {
    /// When this renderer's clock started.
    pub closed spec fn start_spec(&self) -> chrono::NaiveDateTime {
        self.start_time
    }

    /// A renderer whose clock starts now.
    pub fn new() -> (r: ClientRenderer) {
        ClientRenderer { start_time: now_utc() }
    }

    /// The G-buffer attachments the node takes from the geometry pass, in
    /// slot order. The node declares no outputs: it writes the surface.
    pub fn input(&self) -> (r: Vec<AttachmentUsage>)
        ensures
            r@ == seq![
                AttachmentUsage::Diffuse,
                AttachmentUsage::Normal,
                AttachmentUsage::Light,
                AttachmentUsage::Depth,
            ],
    {
        let mut r: Vec<AttachmentUsage> = Vec::new();
        r.push(AttachmentUsage::Diffuse);
        r.push(AttachmentUsage::Normal);
        r.push(AttachmentUsage::Light);
        r.push(AttachmentUsage::Depth);
        assert(r@ =~= seq![
            AttachmentUsage::Diffuse,
            AttachmentUsage::Normal,
            AttachmentUsage::Light,
            AttachmentUsage::Depth,
        ]);
        r
    }

    /// The time to animate the UI by: the client's game time when one is
    /// given, else the wall-clock time since this renderer was made.
    pub fn elapsed(&self, time: Option<chrono::TimeDelta>) -> (r: chrono::TimeDelta)
        ensures
            time matches Some(t) ==> r == t,
            time is None ==> exists|now: chrono::NaiveDateTime| r == elapsed_between(now, self.start_spec()),
    {
        let now = now_utc();
        self.elapsed_at(now, time)
    }

    /// The time to animate the UI by when the wall clock reads `now`: the
    /// client's game time when one is given, else the time from this
    /// renderer's start to `now`.
    pub fn elapsed_at(&self, now: chrono::NaiveDateTime, time: Option<chrono::TimeDelta>) -> (r: chrono::TimeDelta)
        ensures
            time matches Some(t) ==> r == t,
            time is None ==> r == elapsed_between(now, self.start_spec()),
    {
        match time {
            Some(t) => t,
            None => duration_since(now, self.start_time),
        }
    }

    /// A renderer whose clock started at `start_time`.
    pub fn with_start(start_time: chrono::NaiveDateTime) -> (r: ClientRenderer)
        ensures
            r.start_spec() == start_time,
    {
        ClientRenderer { start_time }
    }
}

} // verus!
