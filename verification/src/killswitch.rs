//! The kill-switch: a boolean authority gate with an allow-list of
//! operators and an append-only history of activation events. Activation
//! and reset succeed only for authorized operators and only from the
//! matching state, so exactly one activation wins and the flag stays set
//! until an authorized reset.
//!
//! The process-wide atomic mirror of the flag lives with the unverified
//! shell around this crate: atomics need permission machinery this crate
//! does not use, so the verified switch keeps a plain flag and callers
//! share the switch itself.

use vstd::prelude::*;

use crate::fresh::{fresh_id, now_rfc3339};
use crate::roster::{in_roster, roster_holds};

verus! {

/// Why the kill-switch was activated.
#[derive(Debug)]
pub enum KillReason {
    /// Manual trigger by an operator.
    ManualTrigger { operator: String },
    /// Anomalous adapter behaviour; the score is in thousandths.
    AnomalyDetected { adapter_id: String, score: u64 },
    /// Reward hacking detected during training.
    RewardHacking { adapter_id: String },
    /// An unauthorized attempt to escalate authority.
    UnauthorizedEscalation { actor: String },
    /// A broken provenance chain.
    ProvenanceViolation { adapter_id: String },
    /// An external safety signal.
    ExternalSignal { source: String, message: String },
}

impl Clone for KillReason {
    fn clone(&self) -> (r: Self)
        ensures
            r == *self,
    {
        match self {
            KillReason::ManualTrigger { operator } => KillReason::ManualTrigger {
                operator: operator.clone(),
            },
            KillReason::AnomalyDetected { adapter_id, score } => KillReason::AnomalyDetected {
                adapter_id: adapter_id.clone(),
                score: *score,
            },
            KillReason::RewardHacking { adapter_id } => KillReason::RewardHacking {
                adapter_id: adapter_id.clone(),
            },
            KillReason::UnauthorizedEscalation { actor } => KillReason::UnauthorizedEscalation {
                actor: actor.clone(),
            },
            KillReason::ProvenanceViolation { adapter_id } => KillReason::ProvenanceViolation {
                adapter_id: adapter_id.clone(),
            },
            KillReason::ExternalSignal { source, message } => KillReason::ExternalSignal {
                source: source.clone(),
                message: message.clone(),
            },
        }
    }
}

/// One activation of the kill-switch, retained for the life of the switch.
#[derive(Debug)]
pub struct KillEvent {
    pub id: String,
    pub reason: KillReason,
    pub timestamp: String,
    pub triggered_by: String,
    pub affected_adapters: Vec<String>,
}

impl Clone for KillEvent {
    fn clone(&self) -> (r: Self)
        ensures
            event_matches(r, *self),
    {
        KillEvent {
            id: self.id.clone(),
            reason: self.reason.clone(),
            timestamp: self.timestamp.clone(),
            triggered_by: self.triggered_by.clone(),
            affected_adapters: clone_strings(&self.affected_adapters),
        }
    }
}

/// Copies a list of strings value for value.
fn clone_strings(list: &Vec<String>) -> (r: Vec<String>)
    ensures
        r@ == list@,
{
    let mut out: Vec<String> = Vec::new();
    let n = list.len();
    for i in 0..n
        invariant
            n == list@.len(),
            out@ == list@.take(i as int),
    {
        out.push(list[i].clone());
        proof {
            assert(out@ =~= list@.take(i + 1));
        }
    }
    proof {
        assert(list@.take(n as int) =~= list@);
    }
    out
}

/// Whether two events record the same activation: every field agrees, the
/// adapter lists item for item.
pub open spec fn event_matches(a: KillEvent, b: KillEvent) -> bool {
    &&& a.id == b.id
    &&& a.reason == b.reason
    &&& a.timestamp == b.timestamp
    &&& a.triggered_by == b.triggered_by
    &&& a.affected_adapters@ == b.affected_adapters@
}

/// What activating or resetting the switch can fail with.
#[derive(Debug)]
pub enum KillSwitchError {
    /// The switch was already on.
    AlreadyActive,
    /// The switch was already off.
    NotActive,
    /// The named caller is not an authorized operator.
    Unauthorized(String),
}

/// The authority gate itself.
pub struct KillSwitch {
    active: bool,
    events: Vec<KillEvent>,
    authorized_operators: Vec<String>,
}

impl KillSwitch {
    /// Whether the switch is on.
    pub closed spec fn spec_active(&self) -> bool {
        self.active
    }

    /// The activation events recorded so far, oldest first.
    pub closed spec fn spec_events(&self) -> Seq<KillEvent> {
        self.events@
    }

    /// The allow-list fixed at construction.
    pub closed spec fn spec_operators(&self) -> Seq<String> {
        self.authorized_operators@
    }

    /// Whether `operator` may activate or reset this switch.
    pub open spec fn spec_authorized(&self, operator: Seq<char>) -> bool {
        in_roster(self.spec_operators(), operator)
    }

    /// A fresh switch: off, with no events, gated by the given operators.
    pub fn new(authorized_operators: Vec<String>) -> (r: Self)
        ensures
            !r.spec_active(),
            r.spec_events() == Seq::<KillEvent>::empty(),
            r.spec_operators() == authorized_operators@,
    {
        KillSwitch { active: false, events: Vec::new(), authorized_operators }
    }

    /// Turns the switch on. Exactly one activation can win: once the
    /// switch is on, every further attempt is turned away with
    /// `AlreadyActive`, whoever asks. While it is off, only an authorized
    /// operator may activate it; on success the activation is recorded and
    /// returned, and the flag can only be cleared again by `reset`.
    pub fn activate(
        &mut self,
        operator: &str,
        reason: KillReason,
        affected_adapters: Vec<String>,
    ) -> (r: Result<KillEvent, KillSwitchError>)
        ensures
            activate_spec(*old(self), *final(self), operator@, reason, affected_adapters@, r),
    {
        if self.active {
            return Err(KillSwitchError::AlreadyActive);
        }
        if !roster_holds(&self.authorized_operators, operator) {
            return Err(KillSwitchError::Unauthorized(operator.to_owned()));
        }
        self.active = true;
        let event = KillEvent {
            id: fresh_id(),
            reason,
            timestamp: now_rfc3339(),
            triggered_by: operator.to_owned(),
            affected_adapters,
        };
        let returned = event.clone();
        self.events.push(event);
        proof {
            assert(self.events@.take(old(self).events@.len() as int) =~= old(self).events@);
        }
        Ok(returned)
    }

    /// Turns the switch off. Only an authorized operator may do so, and
    /// only while the switch is on; the event history is kept.
    pub fn reset(&mut self, operator: &str) -> (r: Result<(), KillSwitchError>)
        ensures
            reset_spec(*old(self), *final(self), operator@, r),
    {
        if !roster_holds(&self.authorized_operators, operator) {
            return Err(KillSwitchError::Unauthorized(operator.to_owned()));
        }
        if !self.active {
            return Err(KillSwitchError::NotActive);
        }
        self.active = false;
        Ok(())
    }

    /// Whether the switch is on; never blocks and never fails.
    pub fn is_active(&self) -> (r: bool)
        ensures
            r == self.spec_active(),
    {
        self.active
    }

    /// Every activation recorded so far, oldest first.
    pub fn get_events(&self) -> (r: &[KillEvent])
        ensures
            r@ == self.spec_events(),
    {
        self.events.as_slice()
    }
}

/// Reads the kill state from a shared handle to the switch, for callers
/// that only poll and never mutate.
pub fn is_killed(switch: &KillSwitch) -> (r: bool)
    ensures
        r == switch.spec_active(),
{
    switch.is_active()
}

/// Exactly what `activate` does: the one relation between the switch
/// before the call, the switch after it, and the result.
pub open spec fn activate_spec(
    pre: KillSwitch,
    post: KillSwitch,
    operator: Seq<char>,
    reason: KillReason,
    adapters: Seq<String>,
    r: Result<KillEvent, KillSwitchError>,
) -> bool {
    match r {
        Ok(ev) => {
            &&& pre.spec_authorized(operator)
            &&& !pre.spec_active()
            &&& post.spec_active()
            &&& ev.triggered_by@ == operator
            &&& ev.reason == reason
            &&& ev.affected_adapters@ == adapters
            &&& post.spec_events().len() == pre.spec_events().len() + 1
            &&& post.spec_events().take(pre.spec_events().len() as int) == pre.spec_events()
            &&& event_matches(post.spec_events().last(), ev)
            &&& post.spec_operators() == pre.spec_operators()
        },
        Err(KillSwitchError::Unauthorized(who)) => {
            &&& !pre.spec_active()
            &&& !pre.spec_authorized(operator)
            &&& who@ == operator
            &&& post == pre
        },
        Err(KillSwitchError::AlreadyActive) => {
            &&& pre.spec_active()
            &&& post == pre
        },
        Err(KillSwitchError::NotActive) => false,
    }
}

/// Exactly what `reset` does, in the same style as `activate_spec`.
pub open spec fn reset_spec(
    pre: KillSwitch,
    post: KillSwitch,
    operator: Seq<char>,
    r: Result<(), KillSwitchError>,
) -> bool {
    match r {
        Ok(_) => {
            &&& pre.spec_authorized(operator)
            &&& pre.spec_active()
            &&& !post.spec_active()
            &&& post.spec_events() == pre.spec_events()
            &&& post.spec_operators() == pre.spec_operators()
        },
        Err(KillSwitchError::Unauthorized(who)) => {
            &&& !pre.spec_authorized(operator)
            &&& who@ == operator
            &&& post == pre
        },
        Err(KillSwitchError::NotActive) => {
            &&& pre.spec_authorized(operator)
            &&& !pre.spec_active()
            &&& post == pre
        },
        Err(KillSwitchError::AlreadyActive) => false,
    }
}

/// Once one activation has won, every further activation attempt — by the
/// same operator or any other — is turned away with `AlreadyActive`,
/// leaves the switch untouched, and the flag stays on.
pub proof fn lemma_second_activation_rejected(
    s0: KillSwitch,
    s1: KillSwitch,
    s2: KillSwitch,
    op1: Seq<char>,
    op2: Seq<char>,
    reason1: KillReason,
    reason2: KillReason,
    adapters1: Seq<String>,
    adapters2: Seq<String>,
    ev: KillEvent,
    r2: Result<KillEvent, KillSwitchError>,
)
    requires
        activate_spec(s0, s1, op1, reason1, adapters1, Ok(ev)),
        activate_spec(s1, s2, op2, reason2, adapters2, r2),
    ensures
        r2 matches Err(KillSwitchError::AlreadyActive),
        s2 == s1,
        s1.spec_active(),
        s2.spec_active(),
{
}

/// An activation attempt on an idle switch by an operator outside the
/// allow-list fails with `Unauthorized` naming that operator, changes
/// nothing, and leaves the switch off.
pub proof fn lemma_unauthorized_activation_rejected(
    s0: KillSwitch,
    s1: KillSwitch,
    op: Seq<char>,
    reason: KillReason,
    adapters: Seq<String>,
    r: Result<KillEvent, KillSwitchError>,
)
    requires
        !s0.spec_active(),
        !s0.spec_authorized(op),
        activate_spec(s0, s1, op, reason, adapters, r),
    ensures
        r matches Err(KillSwitchError::Unauthorized(who)) && who@ == op,
        s1 == s0,
        !s1.spec_active(),
{
}

} // verus!
