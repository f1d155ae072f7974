//! The game loop controller: exclusive owner of the entity registry and of
//! the clock. Once per frame the host asks it to conditionally advance the
//! simulation (the fixed-timestep gate), to produce the frame's drawing
//! commands, and to route input events to the entities.

use vstd::prelude::*;
use crate::MILLIS_PER_UPDATE;
use crate::entity::{Entities, Rect, Keycode};
use crate::entity::{entity_step, entity_key_down, entity_can_move, player_rect};

verus! {

/// The drawing commands one entity submits for a frame: players draw their
/// rectangle, non-player entities draw nothing.
pub open spec fn entity_rects(e: Entities) -> Seq<Rect> {
    match e {
        Entities::Player(p) => seq![player_rect(p)],
        Entities::Other(_) => Seq::empty(),
    }
}

/// The drawing commands of a whole registry, in registry order.
pub open spec fn draw_commands(s: Seq<Entities>) -> Seq<Rect>
    decreases s.len(),
{
    if s.len() == 0 {
        Seq::empty()
    } else {
        draw_commands(s.drop_last()) + entity_rects(s.last())
    }
}

/// Whether the fixed-timestep gate opens: it does exactly when the time
/// elapsed since the last completed step has reached the minimum interval.
pub open spec fn gate_open(last_update: u64, now_ms: u64) -> bool {
    now_ms - last_update >= MILLIS_PER_UPDATE
}

/// The game loop controller. It owns the ordered entity registry (insertion
/// order is update, draw and input-routing order) and the clock: the
/// timestamp, in milliseconds, of the last completed simulation step.
pub struct Game {
    pub entities: Vec<Entities>,
    pub last_update: u64,
}

impl Game {
    /// A controller with an empty registry whose clock starts at the given
    /// time (the host's loop start, in milliseconds).
    pub fn new(now_ms: u64) -> (g: Game)
        ensures
            g.entities@ == Seq::<Entities>::empty(),
            g.last_update == now_ms,
    {
        Game { entities: Vec::new(), last_update: now_ms }
    }

    /// One frame's simulation phase. If the time elapsed since the last
    /// completed step has reached the minimum interval, exactly one update
    /// pass runs over every entity in registry order and the clock advances
    /// to `now_ms`; otherwise nothing changes. At most one step runs however
    /// late the frame is: there is no sub-stepping or catch-up.
    ///
    /// The clock the host reads is monotone, so `now_ms` never lies before
    /// the recorded last step.
    pub fn update(&mut self, now_ms: u64) -> (stepped: bool)
        requires
            old(self).last_update <= now_ms,
        ensures
            stepped == gate_open(old(self).last_update, now_ms),
            stepped ==> final(self).entities@
                == old(self).entities@.map_values(|e: Entities| entity_step(e)),
            stepped ==> final(self).last_update == now_ms,
            !stepped ==> *final(self) == *old(self),
    {
        if now_ms - self.last_update >= MILLIS_PER_UPDATE {
            let ghost orig = self.entities@;
            let ghost last0 = self.last_update;
            let n = self.entities.len();
            let mut i: usize = 0;
            while i < n
                invariant
                    i <= n,
                    n == self.entities@.len(),
                    n == orig.len(),
                    self.last_update == last0,
                    forall|j: int| 0 <= j < i ==> self.entities@[j] == entity_step(orig[j]),
                    forall|j: int| i <= j < n ==> self.entities@[j] == orig[j],
                decreases n - i,
            {
                let e = self.entities[i];
                match e {
                    Entities::Player(mut p) => {
                        p.update();
                        self.entities[i] = Entities::Player(p);
                    }
                    Entities::Other(_) => {}
                }
                i = i + 1;
            }
            assert(self.entities@ =~= orig.map_values(|e: Entities| entity_step(e)));
            self.last_update = now_ms;
            true
        } else {
            false
        }
    }

    /// One frame's render phase: the drawing commands of every entity, in
    /// registry order. Runs every frame, whether or not the step gate opened,
    /// and mutates nothing; clearing the surface, submitting the rectangles
    /// and presenting the frame are the host's work.
    pub fn draw(&self) -> (cmds: Vec<Rect>)
        ensures
            cmds@ == draw_commands(self.entities@),
    {
        let mut cmds: Vec<Rect> = Vec::new();
        let n = self.entities.len();
        let mut i: usize = 0;
        while i < n
            invariant
                i <= n,
                n == self.entities@.len(),
                cmds@ == draw_commands(self.entities@.take(i as int)),
            decreases n - i,
        {
            let e = &self.entities[i];
            match e {
                Entities::Player(p) => {
                    let r = p.draw();
                    cmds.push(r);
                }
                Entities::Other(_) => {}
            }
            proof {
                let taken = self.entities@.take(i + 1);
                assert(taken.drop_last() =~= self.entities@.take(i as int));
                assert(taken.last() == self.entities@[i as int]);
                assert(cmds@ =~= draw_commands(taken));
            }
            i = i + 1;
        }
        proof {
            assert(self.entities@.take(n as int) =~= self.entities@);
        }
        cmds
    }

    /// Route a key-down event to every entity in registry order, immediately
    /// (not deferred to the next simulation step): players move one step in
    /// the key's direction, every other entity ignores it. The clock is
    /// untouched.
    pub fn key_down_event(&mut self, keycode: Keycode)
        requires
            forall|j: int| 0 <= j < old(self).entities@.len()
                ==> entity_can_move(old(self).entities@[j], keycode),
        ensures
            final(self).entities@
                == old(self).entities@.map_values(|e: Entities| entity_key_down(e, keycode)),
            final(self).last_update == old(self).last_update,
    {
        let ghost orig = self.entities@;
        let ghost last0 = self.last_update;
        let n = self.entities.len();
        let mut i: usize = 0;
        while i < n
            invariant
                i <= n,
                n == self.entities@.len(),
                n == orig.len(),
                self.last_update == last0,
                forall|j: int| 0 <= j < n ==> entity_can_move(orig[j], keycode),
                forall|j: int| 0 <= j < i ==> self.entities@[j] == entity_key_down(orig[j], keycode),
                forall|j: int| i <= j < n ==> self.entities@[j] == orig[j],
            decreases n - i,
        {
            let e = self.entities[i];
            match e {
                Entities::Player(mut p) => {
                    p.key_down_event(keycode);
                    self.entities[i] = Entities::Player(p);
                }
                Entities::Other(_) => {}
            }
            i = i + 1;
        }
        assert(self.entities@ =~= orig.map_values(|e: Entities| entity_key_down(e, keycode)));
    }

    /// Route a key-up event to every entity in registry order. Every entity's
    /// key-up reaction is a no-op in the current design, so the whole state
    /// is unchanged.
    pub fn key_up_event(&mut self, keycode: Keycode)
        ensures
            final(self).entities@ == old(self).entities@,
            final(self).last_update == old(self).last_update,
    {
        let ghost orig = self.entities@;
        let ghost last0 = self.last_update;
        let n = self.entities.len();
        let mut i: usize = 0;
        while i < n
            invariant
                i <= n,
                n == self.entities@.len(),
                self.entities@ == orig,
                self.last_update == last0,
            decreases n - i,
        {
            let e = self.entities[i];
            match e {
                Entities::Player(mut p) => {
                    p.key_up_event(keycode);
                    self.entities[i] = Entities::Player(p);
                    assert(self.entities@ =~= orig);
                }
                Entities::Other(_) => {}
            }
            i = i + 1;
        }
    }
}

} // verus!
