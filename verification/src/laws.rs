//! The laws of the simulation core, each stated and proved over the same
//! spec functions that the executable functions' contracts use.

use vstd::prelude::*;
use crate::{SPAWN_X, SPAWN_Y};
use crate::entity::{Pos, Player, Entity, Entities, Keycode};
use crate::entity::{player_step, entity_step, entity_key_down, moved_pos, can_move, player_rect};
use crate::game::{Game, draw_commands};

verus! {

/// Spawn idempotence: the first step of a freshly constructed player places
/// it at the viewport center and marks it spawned; stepping any number of
/// further times changes nothing, since a step of a spawned player is a no-op.
pub proof fn lemma_spawn_idempotent(p: Player)
    ensures
        !p.spawned ==> player_step(p)
            == (Player { pos: Pos { x: SPAWN_X, y: SPAWN_Y }, spawned: true }),
        player_step(p).spawned,
        player_step(player_step(p)) == player_step(p),
{
}

/// Movement commutativity: two key-down events reach the same position in
/// either order, since each key moves along a single fixed axis. Positions
/// within one step of the edge of the `i32` coordinate space are left out:
/// there a move is not representable.
pub proof fn lemma_moves_commute(p: Pos, k1: Keycode, k2: Keycode)
    requires
        can_move(p, k1),
        can_move(moved_pos(p, k1), k2),
        can_move(p, k2),
        can_move(moved_pos(p, k2), k1),
    ensures
        moved_pos(moved_pos(p, k1), k2) == moved_pos(moved_pos(p, k2), k1),
{
}

/// Non-player inertness: no simulation step and no input event ever mutates
/// an `Other` entity.
pub proof fn lemma_other_inert(o: Entity, k: Keycode)
    ensures
        entity_step(Entities::Other(o)) == Entities::Other(o),
        entity_key_down(Entities::Other(o), k) == Entities::Other(o),
{
}

/// Registry order preservation, update pass: one step over a registry keeps
/// its length and takes the entity at each index to its stepped self — no
/// reordering, no dropping, no cross-talk between slots.
pub proof fn lemma_update_in_registry_order(s: Seq<Entities>)
    ensures
        s.map_values(|e: Entities| entity_step(e)).len() == s.len(),
        forall|j: int| 0 <= j < s.len()
            ==> s.map_values(|e: Entities| entity_step(e))[j] == entity_step(#[trigger] s[j]),
{
}

/// Registry order preservation, input routing: routing one key-down event
/// keeps the registry's length and takes the entity at each index to its own
/// reaction to the event.
pub proof fn lemma_input_in_registry_order(s: Seq<Entities>, k: Keycode)
    ensures
        s.map_values(|e: Entities| entity_key_down(e, k)).len() == s.len(),
        forall|j: int| 0 <= j < s.len()
            ==> s.map_values(|e: Entities| entity_key_down(e, k))[j]
                == entity_key_down(#[trigger] s[j], k),
{
}

/// Registry order preservation, draw pass: the frame's drawing commands are
/// exactly the rectangles of the player entities, one each, in registry order.
pub proof fn lemma_draw_in_registry_order(s: Seq<Entities>)
    ensures
        draw_commands(s) == s.filter(|e: Entities| e is Player)
            .map_values(|e: Entities| player_rect(e->Player_0)),
    decreases s.len(),
{
    reveal(Seq::filter);
    let pred = |e: Entities| e is Player;
    let to_rect = |e: Entities| player_rect(e->Player_0);
    if s.len() == 0 {
        assert(draw_commands(s) =~= s.filter(pred).map_values(to_rect));
    } else {
        let t = s.drop_last();
        lemma_draw_in_registry_order(t);
        if pred(s.last()) {
            assert(s.filter(pred) == t.filter(pred).push(s.last()));
            assert(t.filter(pred).push(s.last()).map_values(to_rect)
                =~= t.filter(pred).map_values(to_rect).push(to_rect(s.last())));
            assert(draw_commands(s)
                =~= t.filter(pred).map_values(to_rect).push(to_rect(s.last())));
        } else {
            assert(s.filter(pred) == t.filter(pred));
            assert(draw_commands(s) =~= draw_commands(t));
        }
    }
}

/// Render independence: the drawing commands of a frame are a function of
/// the registry alone. Two controllers with the same registry draw the same
/// frame, whatever their clocks read and whether or not the step gate opened.
pub proof fn lemma_render_independent(g1: Game, g2: Game)
    requires
        g1.entities@ == g2.entities@,
    ensures
        draw_commands(g1.entities@) == draw_commands(g2.entities@),
{
}

} // verus!
