use vstd::prelude::*;
use crate::sprite::SpriteKind;
use crate::state::{GameEvent, GameState, after};

verus! {

/// Whether two sprites started or stopped overlapping.
#[derive(Clone, Copy, Debug, PartialEq, Eq, Structural)]
pub enum Contact {
    Begin,
    End,
}

/// A collision between two sprites, given by their kinds.
#[derive(Clone, Copy, Debug, PartialEq, Eq, Structural)]
pub struct CollisionEvent {
    pub first: SpriteKind,
    pub second: SpriteKind,
    pub contact: Contact,
}

/// The event is the start of a collision that involves the player.
pub open spec fn is_player_hit(e: CollisionEvent) -> bool {
    &&& e.contact == Contact::Begin
    &&& (e.first == SpriteKind::Player || e.second == SpriteKind::Player)
}

/// A player hit triggers the impact effect while health is left.
pub open spec fn triggers_effect(s: GameState, e: CollisionEvent) -> bool {
    is_player_hit(e) && s.health > 0
}

/// The state after one collision event.
pub open spec fn after_collision(s: GameState, e: CollisionEvent) -> GameState {
    if triggers_effect(s, e) { after(s, GameEvent::Impact) } else { s }
}

/// The state after the events, taken in order.
pub open spec fn after_collisions(s: GameState, events: Seq<CollisionEvent>) -> GameState
    decreases events.len(),
{
    if events.len() == 0 {
        s
    } else {
        after_collision(after_collisions(s, events.drop_last()), events.last())
    }
}

/// How many of the events trigger the impact effect, starting from `s`.
pub open spec fn effect_count(s: GameState, events: Seq<CollisionEvent>) -> nat
    decreases events.len(),
{
    if events.len() == 0 {
        0
    } else {
        effect_count(s, events.drop_last()) + if triggers_effect(
            after_collisions(s, events.drop_last()),
            events.last(),
        ) {
            1nat
        } else {
            0nat
        }
    }
}

/// How many of the events are player hits.
pub open spec fn player_hits(events: Seq<CollisionEvent>) -> nat
    decreases events.len(),
{
    if events.len() == 0 {
        0
    } else {
        player_hits(events.drop_last()) + if is_player_hit(events.last()) { 1nat } else { 0nat }
    }
}

impl CollisionEvent {
    pub fn is_player_hit(&self) -> (r: bool)
        ensures
            r == is_player_hit(*self),
    {
        self.contact == Contact::Begin && (self.first == SpriteKind::Player || self.second
            == SpriteKind::Player)
    }
}

impl GameState {
    /// Applies one collision event; returns whether the impact effect plays.
    pub fn on_collision(&mut self, e: CollisionEvent) -> (effect: bool)
        ensures
            effect == triggers_effect(*old(self), e),
            *final(self) == after_collision(*old(self), e),
    {
        if e.is_player_hit() && self.health > 0 {
            *self = self.transition(GameEvent::Impact);
            true
        } else {
            false
        }
    }
}

/// Applies the frame's collision events in order; returns how many times the
/// impact effect plays.
pub fn collision_logic(state: &mut GameState, events: &Vec<CollisionEvent>) -> (effects: usize)
    ensures
        *final(state) == after_collisions(*old(state), events@),
        effects == effect_count(*old(state), events@),
        effects == old(state).health - final(state).health,
{
    let ghost s0 = *state;
    let mut effects: usize = 0;
    let mut i: usize = 0;
    while i < events.len()
        invariant
            0 <= i <= events@.len(),
            *state == after_collisions(s0, events@.take(i as int)),
            effects == effect_count(s0, events@.take(i as int)),
            effects == s0.health - state.health,
        decreases events@.len() - i,
    {
        proof {
            assert(events@.take(i + 1).drop_last() =~= events@.take(i as int));
        }
        if state.on_collision(events[i]) {
            effects = effects + 1;
        }
        i = i + 1;
    }
    proof {
        assert(events@.take(events@.len() as int) =~= events@);
    }
    effects
}

/// A run of collision events leaves `max(0, H - N)` health, where `H` is the
/// health before and `N` the number of player hits among them, and the impact
/// effect plays once for each point of health lost.
pub proof fn law_health_after_hits(s: GameState, events: Seq<CollisionEvent>)
    ensures
        after_collisions(s, events).health == if s.health >= player_hits(events) {
            s.health - player_hits(events)
        } else {
            0
        },
        effect_count(s, events) == s.health - after_collisions(s, events).health,
    decreases events.len(),
{
    if events.len() > 0 {
        law_health_after_hits(s, events.drop_last());
    }
}

/// Events that are not player hits (ends of collisions, collisions between
/// other sprites) change nothing and play no effect.
pub proof fn law_other_events_ignored(s: GameState, events: Seq<CollisionEvent>)
    requires
        forall|i: int| 0 <= i < events.len() ==> !is_player_hit(#[trigger] events[i]),
    ensures
        after_collisions(s, events) == s,
        effect_count(s, events) == 0,
    decreases events.len(),
{
    if events.len() > 0 {
        law_other_events_ignored(s, events.drop_last());
    }
}

/// Once health is zero, no collision event changes the state or plays an effect.
pub proof fn law_no_effect_once_out_of_health(s: GameState, events: Seq<CollisionEvent>)
    requires
        s.health == 0,
    ensures
        after_collisions(s, events) == s,
        effect_count(s, events) == 0,
    decreases events.len(),
{
    if events.len() > 0 {
        law_no_effect_once_out_of_health(s, events.drop_last());
    }
}

} // verus!
