//! The collision reactor: drain the engine's collision events once per frame
//! and toggle the tint of every tagged body a contact onset touches.
//!
//! Only the start of a contact triggers a reaction; contact-end events are
//! ignored. The two identifiers of an event are handled independently: a
//! ball-versus-ball contact toggles both balls, a ball-versus-wall contact
//! toggles only the ball (the static boundary is not registered, so its side
//! of the event matches no body and is skipped). Each toggle also swaps the
//! body's visual handle to the one matching the new tint.

use vstd::prelude::*;
use vstd::pervasive::VecAdditionalExecFns;
use crate::world::World;

verus! {

/// A collision notification from the physics engine, carrying the opaque
/// identifiers of the two bodies in contact.
#[derive(Clone, Copy, PartialEq, Eq, Structural, Debug)]
pub enum CollisionEvent {
    /// Two bodies came into contact.
    Started(u64, u64),
    /// Two bodies separated.
    Stopped(u64, u64),
}

/// How many sides of this event name the body `id`: 0, 1, or 2 for a
/// contact onset, always 0 for a separation (which the reactor ignores).
pub open spec fn event_touches(e: CollisionEvent, id: u64) -> int {
    match e {
        CollisionEvent::Started(a, b) => (if id == a {
            1int
        } else {
            0int
        }) + (if id == b {
            1int
        } else {
            0int
        }),
        CollisionEvent::Stopped(_, _) => 0,
    }
}

/// Whether one event flips the tint of the body `id`: once per side naming
/// it, so an odd number of touches.
pub open spec fn event_flips(e: CollisionEvent, id: u64) -> bool {
    event_touches(e, id) % 2 == 1
}

/// A tint flag after a conditional flip.
pub open spec fn toggle(t: bool, flip: bool) -> bool {
    if flip {
        !t
    } else {
        t
    }
}

/// How many sides over a whole event sequence name the body `id`.
pub open spec fn touch_count(events: Seq<CollisionEvent>, id: u64) -> int
    decreases events.len(),
{
    if events.len() == 0 {
        0
    } else {
        touch_count(events.drop_last(), id) + event_touches(events.last(), id)
    }
}

impl World {
    /// Handle one side of an event: if `id` names the player or a ball, flip
    /// its tint and swap its visual handle to match; otherwise (the static
    /// boundary, or a body this registry never knew) do nothing.
    fn flip_if_tagged(&mut self, id: u64)
        requires
            old(self).wf(),
        ensures
            final(self).wf(),
            final(self).assets == old(self).assets,
            final(self).player.id == old(self).player.id,
            final(self).player.forward_force_centi == old(self).player.forward_force_centi,
            final(self).player.max_torque_centi == old(self).player.max_torque_centi,
            final(self).player.tinted == toggle(
                old(self).player.tinted,
                id == old(self).player.id,
            ),
            final(self).balls@.len() == old(self).balls@.len(),
            forall|j: int| 0 <= j < old(self).balls@.len() ==> {
                &&& (#[trigger] final(self).balls@[j]).id == old(self).balls@[j].id
                &&& final(self).balls@[j].tinted == toggle(
                    old(self).balls@[j].tinted,
                    id == old(self).balls@[j].id,
                )
            },
    {
        if id == self.player.id {
            let t = !self.player.tinted;
            self.player.tinted = t;
            self.player.visual = if t {
                self.assets.player_tinted
            } else {
                self.assets.player_untinted
            };
        } else {
            let n = self.balls.len();
            let mut i: usize = 0;
            while i < n
                invariant
                    old(self).wf(),
                    self.assets == old(self).assets,
                    self.player == old(self).player,
                    self.balls@ == old(self).balls@,
                    n == self.balls@.len(),
                    i <= n,
                    forall|j: int| 0 <= j < i ==> (#[trigger] old(self).balls@[j]).id != id,
                decreases n - i,
            {
                if self.balls[i].id == id {
                    let mut b = self.balls[i];
                    b.tinted = !b.tinted;
                    b.visual = if b.tinted {
                        self.assets.ball_tinted
                    } else {
                        self.assets.ball_untinted
                    };
                    self.balls.set(i, b);
                    return;
                }
                i += 1;
            }
        }
    }

    /// React to one collision event: a contact onset toggles each tagged
    /// body it names, each side independently; a separation does nothing.
    pub fn apply_event(&mut self, event: CollisionEvent)
        requires
            old(self).wf(),
        ensures
            final(self).wf(),
            final(self).assets == old(self).assets,
            final(self).player.id == old(self).player.id,
            final(self).player.forward_force_centi == old(self).player.forward_force_centi,
            final(self).player.max_torque_centi == old(self).player.max_torque_centi,
            final(self).player.tinted == toggle(
                old(self).player.tinted,
                event_flips(event, old(self).player.id),
            ),
            final(self).balls@.len() == old(self).balls@.len(),
            forall|j: int| 0 <= j < old(self).balls@.len() ==> {
                &&& (#[trigger] final(self).balls@[j]).id == old(self).balls@[j].id
                &&& final(self).balls@[j].tinted == toggle(
                    old(self).balls@[j].tinted,
                    event_flips(event, old(self).balls@[j].id),
                )
            },
    {
        match event {
            CollisionEvent::Started(a, b) => {
                self.flip_if_tagged(a);
                self.flip_if_tagged(b);
            },
            CollisionEvent::Stopped(_, _) => {},
        }
    }

    /// Drain one frame's worth of collision events, oldest first. Each tagged
    /// body ends flipped exactly when the events named it an odd number of
    /// times: its tint after the drain is its tint before, toggled once per
    /// touching side of a contact onset.
    pub fn drain_events(&mut self, events: &Vec<CollisionEvent>)
        requires
            old(self).wf(),
        ensures
            final(self).wf(),
            final(self).assets == old(self).assets,
            final(self).player.id == old(self).player.id,
            final(self).player.forward_force_centi == old(self).player.forward_force_centi,
            final(self).player.max_torque_centi == old(self).player.max_torque_centi,
            final(self).player.tinted == toggle(
                old(self).player.tinted,
                touch_count(events@, old(self).player.id) % 2 == 1,
            ),
            final(self).balls@.len() == old(self).balls@.len(),
            forall|j: int| 0 <= j < old(self).balls@.len() ==> {
                &&& (#[trigger] final(self).balls@[j]).id == old(self).balls@[j].id
                &&& final(self).balls@[j].tinted == toggle(
                    old(self).balls@[j].tinted,
                    touch_count(events@, old(self).balls@[j].id) % 2 == 1,
                )
            },
    {
        let mut i: usize = 0;
        while i < events.len()
            invariant
                self.wf(),
                self.assets == old(self).assets,
                self.player.id == old(self).player.id,
                self.player.forward_force_centi == old(self).player.forward_force_centi,
                self.player.max_torque_centi == old(self).player.max_torque_centi,
                i <= events@.len(),
                self.player.tinted == toggle(
                    old(self).player.tinted,
                    touch_count(events@.take(i as int), old(self).player.id) % 2 == 1,
                ),
                self.balls@.len() == old(self).balls@.len(),
                forall|j: int| 0 <= j < old(self).balls@.len() ==> {
                    &&& (#[trigger] self.balls@[j]).id == old(self).balls@[j].id
                    &&& self.balls@[j].tinted == toggle(
                        old(self).balls@[j].tinted,
                        touch_count(events@.take(i as int), old(self).balls@[j].id) % 2 == 1,
                    )
                },
            decreases events@.len() - i,
        {
            let e = events[i];
            self.apply_event(e);
            proof {
                assert(events@.take(i as int + 1).drop_last() =~= events@.take(i as int));
                assert(events@.take(i as int + 1).last() == events@[i as int]);
            }
            i += 1;
        }
        proof {
            assert(events@.take(events@.len() as int) =~= events@);
        }
    }
}

/// The tint protocol is an involution: one contact onset between two
/// distinct bodies flips exactly the bodies it names, and the same event
/// delivered twice leaves every tint where it was.
pub proof fn lemma_tint_involution(t: bool, e: CollisionEvent, id: u64)
    ensures
        toggle(toggle(t, event_flips(e, id)), event_flips(e, id)) == t,
        touch_count(seq![e, e], id) % 2 == 0,
{
    let pair = seq![e, e];
    assert(pair.drop_last() =~= seq![e]);
    assert(seq![e].drop_last() =~= Seq::<CollisionEvent>::empty());
    assert(touch_count(Seq::<CollisionEvent>::empty(), id) == 0);
    assert(seq![e].last() == e);
    assert(touch_count(seq![e], id) == event_touches(e, id));
    assert(pair.last() == e);
    assert(touch_count(pair, id) == 2 * event_touches(e, id));
}

/// Touch counts add up over concatenated event sequences.
pub proof fn lemma_touch_count_concat(s1: Seq<CollisionEvent>, s2: Seq<CollisionEvent>, id: u64)
    ensures
        touch_count(s1 + s2, id) == touch_count(s1, id) + touch_count(s2, id),
    decreases s2.len(),
{
    if s2.len() == 0 {
        assert(s1 + s2 =~= s1);
    } else {
        lemma_touch_count_concat(s1, s2.drop_last(), id);
        assert((s1 + s2).drop_last() =~= s1 + s2.drop_last());
        assert((s1 + s2).last() == s2.last());
    }
}

/// Replaying a whole frame's worth of events a second time touches every
/// body an even number of times, so a second drain restores every tint.
pub proof fn lemma_frame_replay_restores(events: Seq<CollisionEvent>, id: u64)
    ensures
        touch_count(events + events, id) % 2 == 0,
{
    lemma_touch_count_concat(events, events, id);
}

/// A contact onset between two distinct bodies flips the body `id` exactly
/// when it is one of the two.
pub proof fn lemma_started_flips_touched(a: u64, b: u64, id: u64)
    requires
        a != b,
    ensures
        event_flips(CollisionEvent::Started(a, b), id) <==> (id == a || id == b),
{
}

} // verus!
