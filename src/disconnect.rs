//! Auto-disconnect timers: at most one armed timer per guild. Arming again
//! replaces the armed timer; each timer carries a fresh ticket, so a timer
//! that was replaced or cancelled is recognised when it wakes up.
use vstd::prelude::*;
use std::collections::HashMap;

verus! {

broadcast use vstd::std_specs::hash::group_hash_axioms;

/// Default delay before leaving an idle voice channel, in seconds.
pub const DISCONNECT_AFTER_SECS: u64 = 300;

/// An armed timer: its ticket and its delay in seconds.
#[derive(Clone, Copy, PartialEq, Eq, Structural)]
pub struct ArmedTimer {
    pub ticket: u64,
    pub delay_secs: u64,
}

/// What `arm` did: the timer it replaced, whose task is to be aborted, and the
/// timer it armed, whose task is to be started.
#[derive(Clone, Copy, PartialEq, Eq, Structural)]
pub struct ArmOutcome {
    pub cancelled: Option<u64>,
    pub armed: ArmedTimer,
}

/// The delay a request for `delay` gets.
pub open spec fn effective_delay(delay: Option<u64>) -> u64 {
    match delay {
        Some(d) => d,
        None => DISCONNECT_AFTER_SECS,
    }
}

/// The ticket of the timer armed for `guild`, if any.
pub open spec fn armed_ticket(m: Map<u64, ArmedTimer>, guild: u64) -> Option<u64> {
    if m.contains_key(guild) {
        Some(m[guild].ticket)
    } else {
        None
    }
}

/// Whether the timer with `ticket`, on waking, still leaves `guild`.
pub open spec fn fires(m: Map<u64, ArmedTimer>, guild: u64, ticket: u64) -> bool {
    m.contains_key(guild) && m[guild].ticket == ticket
}

/// Timers after arming one with ticket `ticket` for `guild`.
pub open spec fn arm_spec(m: Map<u64, ArmedTimer>, guild: u64, ticket: u64, delay: Option<u64>) -> Map<u64, ArmedTimer> {
    m.insert(guild, ArmedTimer { ticket, delay_secs: effective_delay(delay) })
}

/// Per-guild auto-disconnect timers.
pub struct DisconnectScheduler {
    timers: HashMap<u64, ArmedTimer>,
    next_ticket: u64,
}

impl View for DisconnectScheduler {
    type V = Map<u64, ArmedTimer>;

    closed spec fn view(&self) -> Map<u64, ArmedTimer> {
        self.timers@
    }
}

impl DisconnectScheduler {
    /// The ticket the next armed timer gets.
    pub closed spec fn next(&self) -> u64 {
        self.next_ticket
    }

    /// Every armed timer holds a ticket issued before the next one.
    pub closed spec fn wf(&self) -> bool {
        forall|g: u64| #[trigger] self.timers@.contains_key(g) ==> self.timers@[g].ticket < self.next_ticket
    }

    pub fn new() -> (r: DisconnectScheduler)
        ensures
            r.wf(),
            r@ == Map::<u64, ArmedTimer>::empty(),
            r.next() == 0,
    {
        DisconnectScheduler { timers: HashMap::new(), next_ticket: 0 }
    }

    /// Whether another timer can be armed: tickets are not used up.
    pub fn has_ticket_left(&self) -> (r: bool)
        ensures
            r == (self.next() < u64::MAX),
    {
        self.next_ticket < u64::MAX
    }

    /// The timer armed for `guild`, if any.
    pub fn armed(&self, guild: u64) -> (r: Option<ArmedTimer>)
        ensures
            r == (if self@.contains_key(guild) { Some(self@[guild]) } else { None::<ArmedTimer> }),
    {
        match self.timers.get(&guild) {
            Some(t) => Some(*t),
            None => None,
        }
    }

    /// Arms a timer for `guild` after `delay_secs` (the default delay when
    /// none is given), replacing the one armed before.
    pub fn arm(&mut self, guild: u64, delay_secs: Option<u64>) -> (r: ArmOutcome)
        requires
            old(self).wf(),
            old(self).next() < u64::MAX,
        ensures
            final(self).wf(),
            final(self).next() == old(self).next() + 1,
            r.armed == (ArmedTimer { ticket: old(self).next(), delay_secs: effective_delay(delay_secs) }),
            r.cancelled == armed_ticket(old(self)@, guild),
            final(self)@ == arm_spec(old(self)@, guild, old(self).next(), delay_secs),
    {
        let delay = match delay_secs {
            Some(d) => d,
            None => DISCONNECT_AFTER_SECS,
        };
        let armed = ArmedTimer { ticket: self.next_ticket, delay_secs: delay };
        let cancelled = match self.timers.insert(guild, armed) {
            Some(prev) => Some(prev.ticket),
            None => None,
        };
        self.next_ticket = self.next_ticket + 1;
        ArmOutcome { cancelled, armed }
    }

    /// Cancels the timer armed for `guild`; returns its ticket, whose task is
    /// to be aborted.
    pub fn disarm(&mut self, guild: u64) -> (r: Option<u64>)
        requires
            old(self).wf(),
        ensures
            final(self).wf(),
            final(self).next() == old(self).next(),
            r == armed_ticket(old(self)@, guild),
            final(self)@ == old(self)@.remove(guild),
    {
        match self.timers.remove(&guild) {
            Some(prev) => Some(prev.ticket),
            None => None,
        }
    }

    /// A timer with `ticket` for `guild` woke up: when it is still the armed
    /// one, it is consumed and the guild is to be left.
    pub fn fire(&mut self, guild: u64, ticket: u64) -> (r: bool)
        requires
            old(self).wf(),
        ensures
            final(self).wf(),
            final(self).next() == old(self).next(),
            r == fires(old(self)@, guild, ticket),
            r ==> final(self)@ == old(self)@.remove(guild),
            !r ==> final(self)@ == old(self)@,
    {
        let live = match self.timers.get(&guild) {
            Some(t) => t.ticket == ticket,
            None => false,
        };
        if live {
            self.timers.remove(&guild);
        }
        live
    }
}

/// Arming a timer for a guild while one is armed replaces it: exactly one
/// timer stays armed for the guild, the new one with the new delay, and the
/// replaced one no longer fires.
pub proof fn lemma_rearm_replaces(
    m: Map<u64, ArmedTimer>,
    guild: u64,
    old_ticket: u64,
    new_ticket: u64,
    delay: Option<u64>,
)
    requires
        fires(m, guild, old_ticket),
        old_ticket != new_ticket,
    ensures
        arm_spec(m, guild, new_ticket, delay)[guild]
            == (ArmedTimer { ticket: new_ticket, delay_secs: effective_delay(delay) }),
        fires(arm_spec(m, guild, new_ticket, delay), guild, new_ticket),
        !fires(arm_spec(m, guild, new_ticket, delay), guild, old_ticket),
{
}

/// Timers of different guilds do not touch: arming, cancelling or firing for
/// one guild leaves another's timer as it was.
pub proof fn lemma_guilds_independent(
    m: Map<u64, ArmedTimer>,
    g1: u64,
    g2: u64,
    ticket: u64,
    delay: Option<u64>,
)
    requires
        g1 != g2,
    ensures
        armed_ticket(arm_spec(m, g1, ticket, delay), g2) == armed_ticket(m, g2),
        armed_ticket(m.remove(g1), g2) == armed_ticket(m, g2),
        m.contains_key(g2) ==> arm_spec(m, g1, ticket, delay)[g2] == m[g2] && m.remove(g1)[g2] == m[g2],
{
}

} // verus!
