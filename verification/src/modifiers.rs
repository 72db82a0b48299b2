//! Modifiers which can be injected by the application logic to change the
//! state dynamically per request, and the ordered chain that runs them.

use vstd::prelude::*;

use crate::api::{State, StateView, Status, StatusView};
use crate::decimal::{decimal_chars, decimal_string};

verus! {

// ---------------------------------------------------------------------------
// Occupancy messages
// ---------------------------------------------------------------------------

/// The human-readable occupancy message for a people count of at least one:
/// the count in decimal, then a singular or plural tail.
pub open spec fn occupancy_message(count: nat) -> Seq<char>
    recommends
        count >= 1,
{
    if count == 1 {
        decimal_chars(count) + " person here right now"@
    } else {
        decimal_chars(count) + " people here right now"@
    }
}

/// Renders the occupancy message for a people count of at least one.
pub fn occupancy_message_string(count: u64) -> (r: String)
    requires
        count >= 1,
    ensures
        r@ == occupancy_message(count as nat),
{
    let digits = decimal_string(count);
    if count == 1 {
        digits.concat(" person here right now")
    } else {
        digits.concat(" people here right now")
    }
}

// ---------------------------------------------------------------------------
// The modifier interface
// ---------------------------------------------------------------------------

/// `StatusModifier`s are used to modify the status.
///
/// A step must treat absent sensor data as a no-op, never as an error; its
/// whole effect is pinned down by its `spec_modify` function.
pub trait StatusModifier: Send + Sync {
    /// The mathematical effect of this modifier on a status snapshot.
    spec fn spec_modify(&self, s: StatusView) -> StatusView;

    /// Called after all registered sensors are read.
    fn modify(&self, status: &mut Status)
        ensures
            final(status)@ == self.spec_modify(old(status)@),
    ;
}

// ---------------------------------------------------------------------------
// Built-in modifier: occupancy from presence
// ---------------------------------------------------------------------------

/// The value of the first recorded people-now-present reading, if any. Later
/// readings are ignored by design: the first one is the primary occupancy
/// sensor.
pub open spec fn first_people_now_present_count(s: StatusView) -> Option<nat> {
    match s.sensors {
        Some(sensors) => if sensors.people_now_present.len() > 0 {
            Some(sensors.people_now_present[0].value)
        } else {
            None
        },
        None => None,
    }
}

/// The effect of [`StateFromPeopleNowPresent`]: with a primary occupancy
/// reading of `count`, `state.open` becomes `count > 0` and, for a count of
/// at least one, `state.message` becomes the occupancy message. A count of
/// zero leaves the message untouched — a pre-existing message is never
/// cleared by a reading of zero people. Without a reading, nothing changes.
pub open spec fn state_from_people_now_present(s: StatusView) -> StatusView {
    match first_people_now_present_count(s) {
        Some(count) => StatusView {
            state: StateView {
                open: Some(count > 0),
                message: if count >= 1 {
                    Some(occupancy_message(count))
                } else {
                    s.state.message
                },
            },
            ..s
        },
        None => s,
    }
}

/// This modifier updates the opening state based on the
/// first people now present sensor (if present).
pub struct StateFromPeopleNowPresent;

impl StatusModifier for StateFromPeopleNowPresent {
    open spec fn spec_modify(&self, s: StatusView) -> StatusView {
        state_from_people_now_present(s)
    }

    fn modify(&self, status: &mut Status) {
        let people_now_present: Option<u64> = match &status.sensors {
            Some(sensors) => if sensors.people_now_present.len() > 0 {
                Some(sensors.people_now_present[0].value)
            } else {
                None
            },
            None => None,
        };
        if let Some(count) = people_now_present {
            status.state.open = Some(count > 0);
            if count == 1 {
                status.state.message = Some(occupancy_message_string(count));
            } else if count > 1 {
                status.state.message = Some(occupancy_message_string(count));
            }
        }
        proof {
            assert(status@ =~= self.spec_modify(old(status)@));
        }
    }
}

// ---------------------------------------------------------------------------
// Built-in modifier: message from the open flag
// ---------------------------------------------------------------------------

/// The effect of [`MessageFromOpen`]: with the open flag present, the message
/// becomes the configured text for that flag; with the flag absent, nothing
/// changes.
pub open spec fn message_from_open(
    open_message: Seq<char>,
    closed_message: Seq<char>,
    s: StatusView,
) -> StatusView {
    match s.state.open {
        Some(is_open) => StatusView {
            state: StateView {
                open: s.state.open,
                message: Some(if is_open { open_message } else { closed_message }),
            },
            ..s
        },
        None => s,
    }
}

/// This modifier overrides the human-readable message from the open flag, so
/// a deployment can customize the message derived by an earlier step. When
/// the open flag is absent it changes nothing.
pub struct MessageFromOpen {
    pub open_message: String,
    pub closed_message: String,
}

impl StatusModifier for MessageFromOpen {
    open spec fn spec_modify(&self, s: StatusView) -> StatusView {
        message_from_open(self.open_message@, self.closed_message@, s)
    }

    fn modify(&self, status: &mut Status) {
        match status.state.open {
            Some(true) => {
                status.state.message = Some(self.open_message.clone());
            },
            Some(false) => {
                status.state.message = Some(self.closed_message.clone());
            },
            None => {},
        }
        proof {
            assert(status@ =~= self.spec_modify(old(status)@));
        }
    }
}

// ---------------------------------------------------------------------------
// Tagged modifiers and the chain
// ---------------------------------------------------------------------------

/// The built-in modifiers as a tagged list of variants, so that one chain can
/// hold steps of different kinds.
pub enum Modifier {
    StateFromPeopleNowPresent(StateFromPeopleNowPresent),
    MessageFromOpen(MessageFromOpen),
}

impl StatusModifier for Modifier {
    open spec fn spec_modify(&self, s: StatusView) -> StatusView {
        match self {
            Modifier::StateFromPeopleNowPresent(m) => m.spec_modify(s),
            Modifier::MessageFromOpen(m) => m.spec_modify(s),
        }
    }

    fn modify(&self, status: &mut Status) {
        match self {
            Modifier::StateFromPeopleNowPresent(m) => m.modify(status),
            Modifier::MessageFromOpen(m) => m.modify(status),
        }
    }
}

/// The cumulative effect of a sequence of modifiers, first one first: each
/// step sees the status exactly as the steps before it left it.
pub open spec fn apply_modifiers<M: StatusModifier>(steps: Seq<M>, s: StatusView) -> StatusView
    decreases steps.len(),
{
    if steps.len() == 0 {
        s
    } else {
        apply_modifiers(steps.drop_first(), steps[0].spec_modify(s))
    }
}

/// Running a chain and then one more step is running the longer chain.
pub proof fn lemma_apply_modifiers_snoc<M: StatusModifier>(steps: Seq<M>, m: M, s: StatusView)
    ensures
        apply_modifiers(steps.push(m), s) == m.spec_modify(apply_modifiers(steps, s)),
    decreases steps.len(),
{
    if steps.len() == 0 {
        assert(steps.push(m)[0] == m);
        assert(steps.push(m).drop_first() =~= Seq::<M>::empty());
        assert(apply_modifiers(Seq::<M>::empty(), m.spec_modify(s)) == m.spec_modify(s));
        assert(apply_modifiers(steps.push(m), s) == m.spec_modify(s));
        assert(apply_modifiers(steps, s) == s);
    } else {
        assert(steps.push(m)[0] == steps[0]);
        assert(steps.push(m).drop_first() =~= steps.drop_first().push(m));
        lemma_apply_modifiers_snoc(steps.drop_first(), m, steps[0].spec_modify(s));
        assert(apply_modifiers(steps.push(m), s) == apply_modifiers(
            steps.drop_first().push(m),
            steps[0].spec_modify(s),
        ));
        assert(apply_modifiers(steps, s) == apply_modifiers(
            steps.drop_first(),
            steps[0].spec_modify(s),
        ));
    }
}

/// Law: registration order is application order. In a chain that registers
/// step `a` and then step `b`, `b` observes the status exactly as `a` left
/// it, so `b` sees every field `a` set.
pub proof fn lemma_chain_order_observed<M: StatusModifier>(a: M, b: M, s: StatusView)
    ensures
        apply_modifiers(seq![a, b], s) == b.spec_modify(a.spec_modify(s)),
{
    assert(seq![a, b][0] == a);
    assert(seq![a, b].drop_first() =~= seq![b]);
    assert(apply_modifiers(seq![a, b], s) == apply_modifiers(seq![b], a.spec_modify(s)));
    assert(seq![b][0] == b);
    assert(seq![b].drop_first() =~= Seq::<M>::empty());
    assert(apply_modifiers(seq![b], a.spec_modify(s)) == apply_modifiers(
        Seq::<M>::empty(),
        b.spec_modify(a.spec_modify(s)),
    ));
    assert(apply_modifiers(Seq::<M>::empty(), b.spec_modify(a.spec_modify(s)))
        == b.spec_modify(a.spec_modify(s)));
}

/// An ordered sequence of modifiers, run strictly in registration order.
pub struct ModifierChain<M: StatusModifier> {
    pub steps: Vec<M>,
}

impl<M: StatusModifier> ModifierChain<M> {
    /// A chain with no steps.
    pub fn new() -> (r: Self)
        ensures
            r.steps@ == Seq::<M>::empty(),
    {
        ModifierChain { steps: Vec::new() }
    }

    /// Appends a step; it will run after every step registered before it.
    pub fn register(&mut self, m: M)
        ensures
            final(self).steps@ == old(self).steps@.push(m),
    {
        self.steps.push(m);
    }

    /// Runs every step, in registration order, each seeing the cumulative
    /// effect of all prior steps.
    pub fn apply_all(&self, status: &mut Status)
        ensures
            final(status)@ == apply_modifiers(self.steps@, old(status)@),
    {
        let ghost orig: StatusView = status@;
        let mut i: usize = 0;
        while i < self.steps.len()
            invariant
                0 <= i <= self.steps@.len(),
                status@ == apply_modifiers(self.steps@.take(i as int), orig),
            decreases self.steps@.len() - i,
        {
            proof {
                assert(self.steps@.take(i as int).push(self.steps@[i as int]) =~= self.steps@.take(
                    i as int + 1,
                ));
                lemma_apply_modifiers_snoc(self.steps@.take(i as int), self.steps@[i as int], orig);
            }
            self.steps[i].modify(status);
            i += 1;
        }
        proof {
            assert(self.steps@.take(self.steps@.len() as int) =~= self.steps@);
        }
    }
}

} // verus!
