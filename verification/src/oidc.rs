//! OpenID Connect: when the discovered client is due for a refresh, and the
//! steps from an authorisation code to a session.

use vstd::prelude::*;

verus! {

/// The scope that an authorisation request asks for.
pub const AUTH_SCOPE: &'static str = "openid email profile";

/// The seconds to wait before discovery is tried again after it failed.
pub const DISCOVERY_RETRY_SECS: u64 = 1;

/// A point in time: seconds since the epoch, and the nanoseconds within
/// the second.
#[derive(Clone, Copy, Debug, PartialEq, Eq, Structural)]
pub struct Moment {
    pub secs: i64,
    pub nanos: u32,
}

/// The nanoseconds in a second.
pub const NANOS_PER_SEC: u32 = 1_000_000_000;

/// The longest refresh cycle, `i64::MAX` milliseconds, in whole seconds.
pub const MAX_CYCLE_SECS: u64 = 9_223_372_036_854_775;

/// The nanoseconds that the longest refresh cycle has beyond its whole
/// seconds.
pub const MAX_CYCLE_NANOS: u32 = 807_000_000;

/// What to do once a discovery has been tried.
#[derive(Clone, Copy, Debug, PartialEq, Eq, Structural)]
pub enum DiscoveryStep {
    /// The provider was found: go on with the client.
    Done,
    /// The provider was not found: wait so many seconds and try again.
    RetryAfter(u64),
}

/// Decides what to do once a discovery has been tried: a failure is no
/// reason to give up, it is tried again after a pause.
pub fn after_discovery(found: bool) -> (step: DiscoveryStep)
    ensures
        step == if found {
            DiscoveryStep::Done
        } else {
            DiscoveryStep::RetryAfter(DISCOVERY_RETRY_SECS)
        },
{
    if found {
        DiscoveryStep::Done
    } else {
        DiscoveryStep::RetryAfter(DISCOVERY_RETRY_SECS)
    }
}

impl Moment {
    /// Whether this moment comes before `other`.
    pub open spec fn before(self, other: Moment) -> bool {
        self.secs < other.secs || (self.secs == other.secs && self.nanos < other.nanos)
    }

    /// Whether the moment lies in a leap second, which is told by a
    /// second's worth of nanoseconds or more on top of the second before.
    pub open spec fn in_leap_second(self) -> bool {
        self.nanos >= 1_000_000_000
    }

    /// Whether a cycle of `secs` seconds and `nanos` nanoseconds is one
    /// that can be added: less than a second's worth of nanoseconds, and no
    /// longer than the longest cycle.
    pub open spec fn cycle_fits(secs: u64, nanos: u32) -> bool {
        &&& nanos < 1_000_000_000
        &&& secs < MAX_CYCLE_SECS || (secs == MAX_CYCLE_SECS && nanos <= MAX_CYCLE_NANOS)
    }

    /// Whether a cycle added to a moment in a leap second ends within that
    /// leap second: it has no whole second, and its nanoseconds do not
    /// reach the leap second's end.
    pub open spec fn stays_in_leap_second(self, secs: u64, nanos: u32) -> bool {
        self.in_leap_second() && secs == 0 && self.nanos + nanos < 2_000_000_000
    }

    /// The nanoseconds from which a cycle that leaves its second counts: a
    /// leap second counts as the second before it.
    pub open spec fn counted_nanos(self) -> int {
        if self.in_leap_second() {
            self.nanos - 1_000_000_000
        } else {
            self.nanos as int
        }
    }

    /// The second of the moment that lies a cycle after this one.
    pub open spec fn later_secs(self, secs: u64, nanos: u32) -> int {
        if self.stays_in_leap_second(secs, nanos) {
            self.secs as int
        } else if self.counted_nanos() + nanos >= 1_000_000_000 {
            self.secs + secs + 1
        } else {
            self.secs + secs
        }
    }

    /// The nanoseconds of the moment that lies a cycle after this one.
    pub open spec fn later_nanos(self, secs: u64, nanos: u32) -> int {
        if self.stays_in_leap_second(secs, nanos) {
            self.nanos + nanos
        } else if self.counted_nanos() + nanos >= 1_000_000_000 {
            self.counted_nanos() + nanos - 1_000_000_000
        } else {
            self.counted_nanos() + nanos
        }
    }

    /// The moment at which a client discovered now expires: a refresh cycle
    /// of `secs` seconds and `nanos` nanoseconds after this moment, so that
    /// no refresh is due before the cycle is over. A moment in a leap
    /// second stays in it while the cycle does not reach its end, and
    /// counts as the second before it otherwise. There is no expiry where
    /// the moment has two seconds' worth of nanoseconds or more, where the
    /// cycle is longer than the longest one, or where the seconds do not
    /// fit.
    pub fn plus(self, secs: u64, nanos: u32) -> (expiry: Option<Moment>)
        ensures
            expiry is Some <==> self.nanos < 2 * NANOS_PER_SEC && Moment::cycle_fits(secs, nanos)
                && self.later_secs(secs, nanos) <= i64::MAX,
            expiry matches Some(moment) ==> moment.secs == self.later_secs(secs, nanos)
                && moment.nanos == self.later_nanos(secs, nanos) && !moment.before(self),
            expiry matches Some(moment) ==> (!self.in_leap_second() ==> moment.nanos
                < NANOS_PER_SEC && moment.secs * 1_000_000_000 + moment.nanos == self.secs
                * 1_000_000_000 + self.nanos + secs * 1_000_000_000 + nanos),
    {
        if self.nanos >= 2 * NANOS_PER_SEC || nanos >= NANOS_PER_SEC {
            return None;
        }
        if secs > MAX_CYCLE_SECS || (secs == MAX_CYCLE_SECS && nanos > MAX_CYCLE_NANOS) {
            return None;
        }
        let leap: bool = self.nanos >= NANOS_PER_SEC;
        if leap && secs == 0 && self.nanos + nanos < 2 * NANOS_PER_SEC {
            return Some(Moment { secs: self.secs, nanos: self.nanos + nanos });
        }
        let counted: u32 = if leap {
            self.nanos - NANOS_PER_SEC
        } else {
            self.nanos
        };
        let sum: u32 = counted + nanos;
        let carry: i128 = if sum >= NANOS_PER_SEC {
            1
        } else {
            0
        };
        let rest: u32 = if sum >= NANOS_PER_SEC {
            sum - NANOS_PER_SEC
        } else {
            sum
        };
        let total: i128 = self.secs as i128 + secs as i128 + carry;
        if total > i64::MAX as i128 {
            return None;
        }
        Some(Moment { secs: total as i64, nanos: rest })
    }
}

/// Whether a client that expires at `expiry` is due for a refresh at `now`:
/// it is once its expiry has passed. The question is asked twice, before
/// the write lock is taken and again under it, since another request may
/// have refreshed the client in between.
pub fn refresh_due(expiry: Moment, now: Moment) -> (due: bool)
    ensures
        due == expiry.before(now),
{
    expiry.secs < now.secs || (expiry.secs == now.secs && expiry.nanos < now.nanos)
}

/// How the provider answered the request for a token.
#[derive(Clone, Copy, Debug, PartialEq, Eq, Structural)]
pub enum TokenOutcome {
    /// A token was granted, with or without an identity token.
    Granted { has_id_token: bool },
    /// The provider refused the code as an invalid grant.
    InvalidGrant,
    /// The request failed in any other way.
    Failed,
}

/// The step that failed on the way from a code to a session.
#[derive(Clone, Copy, Debug, PartialEq, Eq, Structural)]
pub enum CodeFailure {
    TokenRequest,
    Decode,
    Validate,
    Userinfo,
}

/// How the validation of a code ended.
#[derive(Clone, Copy, Debug, PartialEq, Eq, Structural)]
pub enum CodeResult {
    /// The code stands for a user: bearer token, claims and user
    /// information are at hand.
    Session,
    /// The code stands for no user. This is no error.
    NoSession,
    /// A step failed.
    Failed(CodeFailure),
}

/// Where the validation of a code stands: what to do next, or how it ended.
#[derive(Clone, Copy, Debug, PartialEq, Eq, Structural)]
pub enum CodeStage {
    RequestToken,
    DecodeIdToken,
    ValidateIdToken,
    RequestUserinfo,
    Done(CodeResult),
}

/// What came of the step that a stage asked for.
#[derive(Clone, Copy, Debug, PartialEq, Eq, Structural)]
pub enum CodeEvent {
    Token(TokenOutcome),
    Decoded(bool),
    Validated(bool),
    Userinfo(bool),
}

impl CodeStage {
    /// The stage that follows this one on `event`. An event that does not
    /// answer what the stage asked for leaves the stage as it is.
    pub open spec fn next(self, event: CodeEvent) -> CodeStage {
        match (self, event) {
            (CodeStage::RequestToken, CodeEvent::Token(TokenOutcome::Granted { has_id_token })) => {
                if has_id_token {
                    CodeStage::DecodeIdToken
                } else {
                    CodeStage::Done(CodeResult::NoSession)
                }
            },
            (CodeStage::RequestToken, CodeEvent::Token(TokenOutcome::InvalidGrant)) => {
                CodeStage::Done(CodeResult::NoSession)
            },
            (CodeStage::RequestToken, CodeEvent::Token(TokenOutcome::Failed)) => CodeStage::Done(
                CodeResult::Failed(CodeFailure::TokenRequest),
            ),
            (CodeStage::DecodeIdToken, CodeEvent::Decoded(ok)) => if ok {
                CodeStage::ValidateIdToken
            } else {
                CodeStage::Done(CodeResult::Failed(CodeFailure::Decode))
            },
            (CodeStage::ValidateIdToken, CodeEvent::Validated(ok)) => if ok {
                CodeStage::RequestUserinfo
            } else {
                CodeStage::Done(CodeResult::Failed(CodeFailure::Validate))
            },
            (CodeStage::RequestUserinfo, CodeEvent::Userinfo(ok)) => if ok {
                CodeStage::Done(CodeResult::Session)
            } else {
                CodeStage::Done(CodeResult::Failed(CodeFailure::Userinfo))
            },
            _ => self,
        }
    }

    /// The stage after the events of `trace`, first to last.
    pub open spec fn after(self, trace: Seq<CodeEvent>) -> CodeStage
        decreases trace.len(),
    {
        if trace.len() == 0 {
            self
        } else {
            self.after(trace.drop_last()).next(trace.last())
        }
    }

    /// Where the validation of a code sets out.
    pub fn initial() -> (stage: CodeStage)
        ensures
            stage == CodeStage::RequestToken,
    {
        CodeStage::RequestToken
    }

    /// Moves on with what came of the step that this stage asked for.
    pub fn advance(self, event: CodeEvent) -> (stage: CodeStage)
        ensures
            stage == self.next(event),
    {
        match self {
            CodeStage::RequestToken => match event {
                CodeEvent::Token(TokenOutcome::Granted { has_id_token }) => {
                    if has_id_token {
                        CodeStage::DecodeIdToken
                    } else {
                        CodeStage::Done(CodeResult::NoSession)
                    }
                },
                CodeEvent::Token(TokenOutcome::InvalidGrant) => CodeStage::Done(
                    CodeResult::NoSession,
                ),
                CodeEvent::Token(TokenOutcome::Failed) => CodeStage::Done(
                    CodeResult::Failed(CodeFailure::TokenRequest),
                ),
                _ => self,
            },
            CodeStage::DecodeIdToken => match event {
                CodeEvent::Decoded(true) => CodeStage::ValidateIdToken,
                CodeEvent::Decoded(false) => CodeStage::Done(
                    CodeResult::Failed(CodeFailure::Decode),
                ),
                _ => self,
            },
            CodeStage::ValidateIdToken => match event {
                CodeEvent::Validated(true) => CodeStage::RequestUserinfo,
                CodeEvent::Validated(false) => CodeStage::Done(
                    CodeResult::Failed(CodeFailure::Validate),
                ),
                _ => self,
            },
            CodeStage::RequestUserinfo => match event {
                CodeEvent::Userinfo(true) => CodeStage::Done(CodeResult::Session),
                CodeEvent::Userinfo(false) => CodeStage::Done(
                    CodeResult::Failed(CodeFailure::Userinfo),
                ),
                _ => self,
            },
            CodeStage::Done(_) => self,
        }
    }

    /// A stage that is done stays as it is, whatever comes.
    pub proof fn done_is_final(self, trace: Seq<CodeEvent>)
        requires
            self is Done,
        ensures
            self.after(trace) == self,
        decreases trace.len(),
    {
        if trace.len() > 0 {
            self.done_is_final(trace.drop_last());
        }
    }
}

/// Whether `trace` holds at these indices, in this order, a granted token
/// with an identity token, a successful decoding, a successful validation
/// and the user information.
pub open spec fn steps_at(trace: Seq<CodeEvent>, a: int, b: int, c: int, d: int) -> bool {
    &&& 0 <= a < b < c < d < trace.len()
    &&& trace[a] == CodeEvent::Token(TokenOutcome::Granted { has_id_token: true })
    &&& trace[b] == CodeEvent::Decoded(true)
    &&& trace[c] == CodeEvent::Validated(true)
    &&& trace[d] == CodeEvent::Userinfo(true)
}

/// Whether `trace` holds, in this order, a granted token with an identity
/// token, a successful decoding, a successful validation and the user
/// information.
pub open spec fn every_step_succeeded(trace: Seq<CodeEvent>) -> bool {
    exists|a: int, b: int, c: int, d: int| steps_at(trace, a, b, c, d)
}

/// Whether `stage` lies on the way to a session, behind the first stage.
pub open spec fn on_the_way(stage: CodeStage) -> bool {
    stage == CodeStage::DecodeIdToken || stage == CodeStage::ValidateIdToken || stage
        == CodeStage::RequestUserinfo || stage == CodeStage::Done(CodeResult::Session)
}

/// The one way into a stage on the way to a session: the stage before it,
/// and the success of the step which that stage asked for.
pub open spec fn way_in(stage: CodeStage) -> (CodeStage, CodeEvent) {
    match stage {
        CodeStage::Done(_) => (CodeStage::RequestUserinfo, CodeEvent::Userinfo(true)),
        CodeStage::RequestUserinfo => (CodeStage::ValidateIdToken, CodeEvent::Validated(true)),
        CodeStage::ValidateIdToken => (CodeStage::DecodeIdToken, CodeEvent::Decoded(true)),
        _ => (
            CodeStage::RequestToken,
            CodeEvent::Token(TokenOutcome::Granted { has_id_token: true }),
        ),
    }
}

/// A stage on the way to a session is entered in one way only.
proof fn only_way_in(before: CodeStage, event: CodeEvent, stage: CodeStage)
    requires
        on_the_way(stage),
        before != stage,
        before.next(event) == stage,
    ensures
        before == way_in(stage).0,
        event == way_in(stage).1,
{
}

/// The event that entered a stage: where a trace from the first stage ends
/// in a stage on the way to a session, some event of it moved there in the
/// one way there is.
proof fn reached(trace: Seq<CodeEvent>, stage: CodeStage) -> (i: int)
    requires
        CodeStage::RequestToken.after(trace) == stage,
        on_the_way(stage),
    ensures
        0 <= i < trace.len(),
        CodeStage::RequestToken.after(trace.take(i)) == way_in(stage).0,
        trace[i] == way_in(stage).1,
    decreases trace.len(),
{
    let before = trace.drop_last();
    if CodeStage::RequestToken.after(before) == stage {
        let i = reached(before, stage);
        assert(before.take(i) =~= trace.take(i));
        i
    } else {
        assert(trace.take(trace.len() - 1) =~= before);
        only_way_in(CodeStage::RequestToken.after(before), trace.last(), stage);
        trace.len() - 1
    }
}

/// A code ends in a session only where the token was granted with an
/// identity token, the identity token was decoded and validated, and the
/// user information was fetched, in this order.
pub proof fn session_needs_every_step(trace: Seq<CodeEvent>)
    requires
        CodeStage::RequestToken.after(trace) == CodeStage::Done(CodeResult::Session),
    ensures
        every_step_succeeded(trace),
{
    let d = reached(trace, CodeStage::Done(CodeResult::Session));
    let upto_d = trace.take(d);
    let c = reached(upto_d, CodeStage::RequestUserinfo);
    let upto_c = upto_d.take(c);
    assert(upto_c =~= trace.take(c));
    let b = reached(upto_c, CodeStage::ValidateIdToken);
    let upto_b = upto_c.take(b);
    assert(upto_b =~= trace.take(b));
    let a = reached(upto_b, CodeStage::DecodeIdToken);
    assert(trace[a] == CodeEvent::Token(TokenOutcome::Granted { has_id_token: true }));
    assert(trace[b] == CodeEvent::Decoded(true));
    assert(trace[c] == CodeEvent::Validated(true));
    assert(trace[d] == CodeEvent::Userinfo(true));
    assert(steps_at(trace, a, b, c, d));
}

} // verus!
