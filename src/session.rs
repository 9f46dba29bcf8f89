//! Voice sessions, one per guild, and how playback events change them. A
//! session outlives its channel binding: leaving, or a disconnect reported by
//! the transport, unbinds it, and the next connect binds it again without
//! registering its event listeners a second time.
use vstd::prelude::*;
use std::collections::HashMap;
use crate::disconnect::{armed_ticket, arm_spec, effective_delay, ArmOutcome, DisconnectScheduler};

verus! {

broadcast use vstd::std_specs::hash::group_hash_axioms;

/// What connecting a guild to a channel takes.
#[derive(PartialEq, Eq, Structural)]
pub enum ConnectAction {
    /// No session yet: join, and register the track-start, track-end and
    /// driver-disconnect listeners on the new connection.
    Create,
    /// The session lost its channel: join the target channel on it.
    Rejoin,
    /// The session is bound to a channel: leave it where it is.
    Keep,
}

/// The action `connect` takes for a guild whose session state is `s`.
pub open spec fn connect_action(s: Option<Option<u64>>) -> ConnectAction {
    match s {
        None => ConnectAction::Create,
        Some(None) => ConnectAction::Rejoin,
        Some(Some(_)) => ConnectAction::Keep,
    }
}

/// Session state of `guild`: none, unbound, or bound to a channel.
pub open spec fn session_of(m: Map<u64, Option<u64>>, guild: u64) -> Option<Option<u64>> {
    if m.contains_key(guild) {
        Some(m[guild])
    } else {
        None
    }
}

/// Voice sessions by guild, each with the channel it is bound to, if any.
pub struct VoiceSessions {
    bound: HashMap<u64, Option<u64>>,
}

impl View for VoiceSessions {
    type V = Map<u64, Option<u64>>;

    closed spec fn view(&self) -> Map<u64, Option<u64>> {
        self.bound@
    }
}

impl VoiceSessions {
    pub fn new() -> (r: VoiceSessions)
        ensures
            r@ == Map::<u64, Option<u64>>::empty(),
    {
        VoiceSessions { bound: HashMap::new() }
    }

    /// Whether `guild` has a session, bound or not.
    pub fn has_session(&self, guild: u64) -> (r: bool)
        ensures
            r == self@.contains_key(guild),
    {
        self.bound.contains_key(&guild)
    }

    /// The channel the session of `guild` is bound to.
    pub fn channel(&self, guild: u64) -> (r: Option<u64>)
        ensures
            r == (if self@.contains_key(guild) { self@[guild] } else { None::<u64> }),
    {
        match self.bound.get(&guild) {
            Some(c) => *c,
            None => None,
        }
    }

    /// Connects `guild` to `channel`: creates the session, rebinds an unbound
    /// one, or keeps a bound one where it is.
    pub fn connect(&mut self, guild: u64, channel: u64) -> (r: ConnectAction)
        ensures
            r == connect_action(session_of(old(self)@, guild)),
            r == ConnectAction::Keep ==> final(self)@ == old(self)@,
            r != ConnectAction::Keep ==> final(self)@ == old(self)@.insert(guild, Some(channel)),
    {
        let action = match self.bound.get(&guild) {
            None => ConnectAction::Create,
            Some(None) => ConnectAction::Rejoin,
            Some(Some(_)) => ConnectAction::Keep,
        };
        match action {
            ConnectAction::Keep => {},
            _ => {
                self.bound.insert(guild, Some(channel));
            },
        }
        action
    }

    /// Unbinds the session of `guild` from its channel, if it has one.
    pub fn unbind(&mut self, guild: u64)
        ensures
            old(self)@.contains_key(guild) ==> final(self)@ == old(self)@.insert(guild, None),
            !old(self)@.contains_key(guild) ==> final(self)@ == old(self)@,
    {
        if self.bound.contains_key(&guild) {
            self.bound.insert(guild, None);
        }
    }
}

/// A track of `guild` ended. When the queue is now empty, the auto-disconnect
/// timer is armed (replacing an armed one) and presence is to be cleared.
pub fn on_track_end(
    timers: &mut DisconnectScheduler,
    guild: u64,
    queue_empty: bool,
    delay_secs: Option<u64>,
) -> (r: Option<ArmOutcome>)
    requires
        old(timers).wf(),
        old(timers).next() < u64::MAX,
    ensures
        final(timers).wf(),
        !queue_empty ==> r is None && final(timers)@ == old(timers)@ && final(timers).next() == old(timers).next(),
        queue_empty ==> (r matches Some(o) && o.cancelled == armed_ticket(old(timers)@, guild)
            && o.armed.ticket == old(timers).next()
            && o.armed.delay_secs == effective_delay(delay_secs)),
        queue_empty ==> final(timers)@ == arm_spec(old(timers)@, guild, old(timers).next(), delay_secs),
{
    if queue_empty {
        Some(timers.arm(guild, delay_secs))
    } else {
        None
    }
}

/// The transport reported that the connection of `guild` dropped. A drop with
/// a reason that leaves no channel bound tears the session down: the queue is
/// to be stopped and presence cleared, the session is unbound, and the armed
/// timer is cancelled. Returns `None` when nothing is torn down, else the
/// ticket of the cancelled timer, if one was armed.
pub fn on_driver_disconnect(
    sessions: &mut VoiceSessions,
    timers: &mut DisconnectScheduler,
    guild: u64,
    has_reason: bool,
    still_bound: bool,
) -> (r: Option<Option<u64>>)
    requires
        old(timers).wf(),
    ensures
        final(timers).wf(),
        final(timers).next() == old(timers).next(),
        !(has_reason && !still_bound) ==> r is None && final(timers)@ == old(timers)@ && final(sessions)@ == old(sessions)@,
        has_reason && !still_bound ==> r == Some(armed_ticket(old(timers)@, guild))
            && final(timers)@ == old(timers)@.remove(guild)
            && (old(sessions)@.contains_key(guild) ==> final(sessions)@ == old(sessions)@.insert(guild, None))
            && (!old(sessions)@.contains_key(guild) ==> final(sessions)@ == old(sessions)@),
{
    if has_reason && !still_bound {
        sessions.unbind(guild);
        Some(timers.disarm(guild))
    } else {
        None
    }
}

} // verus!
