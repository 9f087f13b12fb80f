//! The mute arbiter: turns a stream of "is an advertisement playing" readings
//! into exactly one mute per advertisement and one unmute after it.
use vstd::prelude::*;

verus! {

#[derive(Clone, Copy, Debug, PartialEq, Eq, Structural)]
pub enum MuteState {
    Unmuted,
    Muted,
}

/// What the engine must ask of the audio binding on this tick.
#[derive(Clone, Copy, Debug, PartialEq, Eq, Structural)]
pub enum MuteAction {
    DoMute,
    DoUnmute,
    NoOp,
}

/// The transition function: the next state and the action that reaches it.
pub open spec fn step_spec(state: MuteState, is_ad: bool) -> (MuteState, MuteAction) {
    match (state, is_ad) {
        (MuteState::Unmuted, true) => (MuteState::Muted, MuteAction::DoMute),
        (MuteState::Muted, false) => (MuteState::Unmuted, MuteAction::DoUnmute),
        _ => (state, MuteAction::NoOp),
    }
}

/// The state that `action` leads to once it has been carried out.
pub open spec fn after_action(state: MuteState, action: MuteAction) -> MuteState {
    match action {
        MuteAction::DoMute => MuteState::Muted,
        MuteAction::DoUnmute => MuteState::Unmuted,
        MuteAction::NoOp => state,
    }
}

/// The actions emitted for a sequence of readings when every call succeeds.
pub open spec fn actions_for(state: MuteState, readings: Seq<bool>) -> Seq<MuteAction>
    decreases readings.len(),
{
    if readings.len() == 0 {
        seq![]
    } else {
        let (next, action) = step_spec(state, readings[0]);
        seq![action] + actions_for(next, readings.drop_first())
    }
}

/// The state reached after a sequence of readings when every call succeeds.
pub open spec fn state_after(state: MuteState, readings: Seq<bool>) -> MuteState
    decreases readings.len(),
{
    if readings.len() == 0 {
        state
    } else {
        state_after(step_spec(state, readings[0]).0, readings.drop_first())
    }
}

/// How many times `action` occurs in `actions`.
pub open spec fn count_action(actions: Seq<MuteAction>, action: MuteAction) -> nat
    decreases actions.len(),
{
    if actions.len() == 0 {
        0
    } else {
        (if actions[0] == action { 1nat } else { 0nat }) + count_action(actions.drop_first(), action)
    }
}

/// Number of `false -> true` edges in `readings`, the reading before them being `prev`.
pub open spec fn rising_edges(prev: bool, readings: Seq<bool>) -> nat
    decreases readings.len(),
{
    if readings.len() == 0 {
        0
    } else {
        (if !prev && readings[0] { 1nat } else { 0nat }) + rising_edges(readings[0], readings.drop_first())
    }
}

/// Number of `true -> false` edges in `readings`, the reading before them being `prev`.
pub open spec fn falling_edges(prev: bool, readings: Seq<bool>) -> nat
    decreases readings.len(),
{
    if readings.len() == 0 {
        0
    } else {
        (if prev && !readings[0] { 1nat } else { 0nat }) + falling_edges(readings[0], readings.drop_first())
    }
}

pub fn step(state: MuteState, is_ad: bool) -> (r: (MuteState, MuteAction))
    ensures
        r == step_spec(state, is_ad),
{
    match (state, is_ad) {
        (MuteState::Unmuted, true) => (MuteState::Muted, MuteAction::DoMute),
        (MuteState::Muted, false) => (MuteState::Unmuted, MuteAction::DoUnmute),
        _ => (state, MuteAction::NoOp),
    }
}

/// Owns the mute state. The state follows the last mute or unmute call that
/// succeeded, not the last reading seen.
pub struct MuteArbiter {
    state: MuteState,
}

impl View for MuteArbiter {
    type V = MuteState;

    closed spec fn view(&self) -> MuteState {
        self.state
    }
}

impl MuteArbiter {
    pub fn new() -> (r: MuteArbiter)
        ensures
            r@ == MuteState::Unmuted,
    {
        MuteArbiter { state: MuteState::Unmuted }
    }

    pub fn state(&self) -> (r: MuteState)
        ensures
            r == self@,
    {
        self.state
    }

    /// The action that a reading calls for in the current state.
    pub fn decide(&self, is_ad: bool) -> (r: MuteAction)
        ensures
            r == step_spec(self@, is_ad).1,
    {
        step(self.state, is_ad).1
    }

    /// Records the outcome of carrying out `action`: the state advances only
    /// when the call succeeded, so a failed call is tried again on the next tick.
    pub fn complete(&mut self, action: MuteAction, succeeded: bool)
        ensures
            final(self)@ == if succeeded {
                after_action(old(self)@, action)
            } else {
                old(self)@
            },
    {
        if succeeded {
            self.state = match action {
                MuteAction::DoMute => MuteState::Muted,
                MuteAction::DoUnmute => MuteState::Unmuted,
                MuteAction::NoOp => self.state,
            };
        }
    }
}

proof fn lemma_actions_len(state: MuteState, readings: Seq<bool>)
    ensures
        actions_for(state, readings).len() == readings.len(),
    decreases readings.len(),
{
    if readings.len() > 0 {
        lemma_actions_len(step_spec(state, readings[0]).0, readings.drop_first());
    }
}

proof fn lemma_counts_follow_edges(state: MuteState, prev: bool, readings: Seq<bool>)
    requires
        (state == MuteState::Muted) == prev,
    ensures
        count_action(actions_for(state, readings), MuteAction::DoMute) == rising_edges(prev, readings),
        count_action(actions_for(state, readings), MuteAction::DoUnmute) == falling_edges(prev, readings),
    decreases readings.len(),
{
    if readings.len() > 0 {
        let (next, action) = step_spec(state, readings[0]);
        let rest = readings.drop_first();
        lemma_counts_follow_edges(next, readings[0], rest);
        let acts = actions_for(state, readings);
        assert(acts.drop_first() =~= actions_for(next, rest));
    }
}

proof fn lemma_repeat_is_noop(state: MuteState, readings: Seq<bool>, i: int)
    requires
        1 <= i < readings.len(),
        readings[i] == readings[i - 1],
    ensures
        actions_for(state, readings)[i] == MuteAction::NoOp,
    decreases i,
{
    let next = step_spec(state, readings[0]).0;
    let rest = readings.drop_first();
    lemma_actions_len(next, rest);
    assert(actions_for(state, readings)[i] == actions_for(next, rest)[i - 1]);
    if i > 1 {
        lemma_repeat_is_noop(next, rest, i - 1);
    } else {
        assert(rest[0] == readings[1]);
        assert(actions_for(next, rest)[0] == step_spec(next, rest[0]).1);
    }
}

/// Starting unmuted and with every call succeeding, the arbiter mutes once per
/// `false -> true` edge of the readings and unmutes once per `true -> false`
/// edge, and a reading equal to the one before it never calls for an action.
pub proof fn law_actions_follow_edges(readings: Seq<bool>)
    ensures
        count_action(actions_for(MuteState::Unmuted, readings), MuteAction::DoMute)
            == rising_edges(false, readings),
        count_action(actions_for(MuteState::Unmuted, readings), MuteAction::DoUnmute)
            == falling_edges(false, readings),
        forall|i: int|
            1 <= i < readings.len() && readings[i] == readings[i - 1] ==> #[trigger] actions_for(
                MuteState::Unmuted,
                readings,
            )[i] == MuteAction::NoOp,
{
    lemma_counts_follow_edges(MuteState::Unmuted, false, readings);
    assert forall|i: int|
        1 <= i < readings.len() && readings[i] == readings[i - 1] implies #[trigger] actions_for(
            MuteState::Unmuted,
            readings,
        )[i] == MuteAction::NoOp by {
        lemma_repeat_is_noop(MuteState::Unmuted, readings, i);
    }
}

/// Two advertisement readings in a row, starting unmuted, give exactly one
/// mute and leave the arbiter muted.
pub proof fn law_repeated_ad_mutes_once()
    ensures
        actions_for(MuteState::Unmuted, seq![true, true]) == seq![MuteAction::DoMute, MuteAction::NoOp],
        count_action(actions_for(MuteState::Unmuted, seq![true, true]), MuteAction::DoMute) == 1,
        state_after(MuteState::Unmuted, seq![true, true]) == MuteState::Muted,
{
    let s = seq![true, true];
    let one = seq![true];
    let none = Seq::<bool>::empty();
    assert(s.drop_first() =~= one);
    assert(one.drop_first() =~= none);
    assert(actions_for(MuteState::Muted, none) =~= Seq::<MuteAction>::empty());
    assert(actions_for(MuteState::Muted, one) =~= seq![MuteAction::NoOp]);
    let acts = actions_for(MuteState::Unmuted, s);
    assert(acts =~= seq![MuteAction::DoMute, MuteAction::NoOp]);
    assert(acts.drop_first() =~= seq![MuteAction::NoOp]);
    assert(seq![MuteAction::NoOp].drop_first() =~= Seq::<MuteAction>::empty());
    assert(count_action(Seq::<MuteAction>::empty(), MuteAction::DoMute) == 0);
    assert(count_action(seq![MuteAction::NoOp], MuteAction::DoMute) == 0);
    assert(state_after(MuteState::Muted, none) == MuteState::Muted);
    assert(state_after(MuteState::Muted, one) == MuteState::Muted);
}

} // verus!
