//! A session: one scenario played in one world, and the driver's decisions
//! about when the world may advance.
//!
//! The driver owns the clock and the physics engine. Once per frame it asks
//! the session whether a tick is to be simulated; the session answers from
//! its own state: whether the scenario is over, whether play is paused, and
//! how many single steps were asked for.

use vstd::prelude::*;
use crate::overlay::Line;
use crate::scenario::{is_registered_name, load, Scenario, Status, SPAWN_LIMIT};
use crate::world::{Bullet, BulletHandle, Ship, ShipHandle, World};

verus! {

/// The state of play.
#[derive(Clone, Copy, Debug)]
pub struct Session {
    pub scenario: Scenario,
    /// Raised when the scenario was first seen finished; never lowered.
    pub finished: bool,
    pub paused: bool,
    /// Ticks that were asked for one by one and are still to be simulated.
    pub single_steps: u32,
    pub quit: bool,
}

/// What the renderer gets to see of one frame: copies of the bodies, the
/// scenario's overlay and its status. Nothing in it leads back into the
/// world.
pub struct Snapshot {
    pub ships: Vec<Ship>,
    pub bullets: Vec<Bullet>,
    pub lines: Vec<Line>,
    pub status: Status,
}

impl Session {
    /// The session's invariant is that of its scenario.
    pub open spec fn wf(&self) -> bool {
        self.scenario.wf()
    }

    /// Whether the session is finished once it has looked at the world.
    pub open spec fn finished_in(&self, world: World) -> bool {
        self.finished || self.scenario.status_in(world) == Status::Finished
    }

    /// Whether the session lets time pass: it was not quit, it is not
    /// finished, and it is either not paused or has single steps left.
    pub open spec fn is_active_in(&self, world: World) -> bool {
        !self.quit && !self.finished_in(world) && (!self.paused || self.single_steps > 0)
    }

    /// Whether a tick is to be simulated in this frame: time passes, and
    /// either a single step is left or the clock says that a tick is due.
    pub open spec fn steps_in(&self, world: World, due: bool) -> bool {
        self.is_active_in(world) && (self.single_steps > 0 || due)
    }

    /// The session after a frame. A session that was quit stays as it is.
    pub open spec fn after_frame(&self, world: World, due: bool) -> Session {
        if self.quit {
            *self
        } else {
            Session {
                scenario: if self.steps_in(world, due) {
                    self.scenario.after_tick(world)
                } else {
                    self.scenario
                },
                finished: self.finished_in(world),
                paused: self.paused,
                single_steps: if self.is_active_in(world) && self.single_steps > 0 {
                    (self.single_steps - 1) as u32
                } else {
                    self.single_steps
                },
                quit: false,
            }
        }
    }

    /// The session after the key that pauses was pressed.
    pub open spec fn after_pause_key(&self) -> Session {
        if self.quit {
            *self
        } else {
            Session { paused: !self.paused, single_steps: 0, ..*self }
        }
    }

    /// The session after the key that asks for a single step was pressed.
    pub open spec fn after_step_key(&self) -> Session {
        if self.quit {
            *self
        } else {
            Session { paused: true, single_steps: (self.single_steps + 1) as u32, ..*self }
        }
    }

    /// A session of a scenario that has not begun: running, not paused.
    pub fn new(scenario: Scenario) -> (session: Session)
        ensures
            session.scenario == scenario,
            !session.finished,
            !session.paused,
            session.single_steps == 0,
            !session.quit,
    {
        Session { scenario, finished: false, paused: false, single_steps: 0, quit: false }
    }

    /// Pauses play, or takes it up again; single steps that were asked for
    /// are forgotten. A session that was quit takes no keys.
    pub fn toggle_pause(&mut self)
        ensures
            *final(self) == old(self).after_pause_key(),
    {
        if !self.quit {
            self.paused = !self.paused;
            self.single_steps = 0;
        }
    }

    /// Pauses play and asks for one more tick to be simulated. A session
    /// that was quit takes no keys.
    pub fn request_step(&mut self)
        requires
            old(self).single_steps < u32::MAX,
        ensures
            *final(self) == old(self).after_step_key(),
    {
        if !self.quit {
            self.paused = true;
            self.single_steps = self.single_steps + 1;
        }
    }

    /// Ends the session for good.
    pub fn request_quit(&mut self)
        ensures
            *final(self) == (Session { quit: true, ..*old(self) }),
    {
        self.quit = true;
    }

    /// Copies what the renderer shows of this frame. The world and the
    /// session stay as they are.
    pub fn snapshot(&self, world: &World) -> (snapshot: Snapshot)
        requires
            self.wf(),
        ensures
            snapshot.ships@ == world.ships@,
            snapshot.bullets@ == world.bullets@,
            snapshot.lines@ == self.scenario.overlay(),
            snapshot.status == self.scenario.status_in(*world),
    {
        let mut ships: Vec<Ship> = Vec::new();
        let mut i: usize = 0;
        while i < world.ships.len()
            invariant
                i <= world.ships@.len(),
                ships@ == world.ships@.take(i as int),
            decreases world.ships@.len() - i,
        {
            ships.push(world.ships[i]);
            assert(world.ships@.take(i + 1) =~= world.ships@.take(i as int).push(
                world.ships@[i as int],
            ));
            i += 1;
        }
        assert(world.ships@.take(i as int) =~= world.ships@);
        let mut bullets: Vec<Bullet> = Vec::new();
        let mut j: usize = 0;
        while j < world.bullets.len()
            invariant
                j <= world.bullets@.len(),
                bullets@ == world.bullets@.take(j as int),
            decreases world.bullets@.len() - j,
        {
            bullets.push(world.bullets[j]);
            assert(world.bullets@.take(j + 1) =~= world.bullets@.take(j as int).push(
                world.bullets@[j as int],
            ));
            j += 1;
        }
        assert(world.bullets@.take(j as int) =~= world.bullets@);
        Snapshot {
            ships,
            bullets,
            lines: self.scenario.lines(),
            status: self.scenario.status(world),
        }
    }

    /// Decides one frame. A session that was quit stands still: nothing is
    /// simulated and nothing changes. Otherwise the session first looks
    /// whether the scenario is over. If a tick is to be simulated, the scenario's own bookkeeping
    /// is advanced and the answer is yes: the driver then runs the ships'
    /// programs and the physics step. `due` says whether the driver's clock
    /// has reached the next tick.
    pub fn advance(&mut self, world: &World, due: bool) -> (step: bool)
        requires
            old(self).wf(),
        ensures
            final(self).wf(),
            step == old(self).steps_in(*world, due),
            *final(self) == old(self).after_frame(*world, due),
    {
        if self.quit {
            return false;
        }
        if !self.finished {
            match self.scenario.status(world) {
                Status::Finished => {
                    self.finished = true;
                },
                Status::Running => {},
            }
        }
        let mut step: bool = false;
        if !self.finished && (!self.paused || self.single_steps > 0) {
            if self.single_steps > 0 || due {
                let mut scenario = self.scenario;
                scenario.tick(world);
                self.scenario = scenario;
                step = true;
            }
            if self.single_steps > 0 {
                self.single_steps = self.single_steps - 1;
            }
        }
        step
    }
}

/// Starts a session of the scenario that is registered under `name`, in a
/// world that may hold an earlier session. The world is reset and then
/// populated by the scenario, so that nothing of the earlier session is
/// left and none of its handles names anything. A name that is not
/// registered is a fault of the configuration, and no caller may pass one.
pub fn start(name: &str, world: &mut World) -> (session: Session)
    requires
        is_registered_name(name@),
        old(world).wf(),
        old(world).has_room(SPAWN_LIMIT as int),
    ensures
        session.wf(),
        session.scenario.name_text() == name@,
        session.scenario.is_fresh(),
        !session.finished && !session.paused && session.single_steps == 0 && !session.quit,
        final(world).wf(),
        final(world).first_handle == old(world).next_handle,
        exists|cleared: World| #[trigger]
            cleared.is_reset_of(*old(world)) && session.scenario.populates(
                cleared,
                *final(world),
            ),
        forall|ship: ShipHandle| #[trigger]
            old(world).has_ship(ship) ==> !final(world).has_ship(ship),
        forall|bullet: BulletHandle| #[trigger]
            old(world).has_bullet(bullet) ==> !final(world).has_bullet(bullet),
{
    let mut scenario = load(name);
    world.reset();
    let ghost cleared = *world;
    scenario.init(world);
    proof {
        assert(cleared.is_reset_of(*old(world)) && scenario.populates(cleared, *world));
        assert forall|ship: ShipHandle| #[trigger]
            old(world).has_ship(ship) implies !world.has_ship(ship) by {
            crate::world::lemma_reset_outdates_handles(
                *old(world),
                cleared,
                *world,
                ship,
                BulletHandle(0),
            );
        }
        assert forall|bullet: BulletHandle| #[trigger]
            old(world).has_bullet(bullet) implies !world.has_bullet(bullet) by {
            crate::world::lemma_reset_outdates_handles(
                *old(world),
                cleared,
                *world,
                ShipHandle(0),
                bullet,
            );
        }
    }
    Session::new(scenario)
}

/// A session that was quit stands still: no frame simulates a tick or
/// changes anything, and no key is taken.
pub proof fn lemma_quit_session_stands_still(session: Session, world: World, due: bool)
    requires
        session.quit,
    ensures
        !session.steps_in(world, due),
        session.after_frame(world, due) == session,
        session.after_pause_key() == session,
        session.after_step_key() == session,
{
}

/// The finished flag is a latch: a session that is finished stays finished
/// in every frame, simulates no tick and keeps its scenario as it is.
pub proof fn lemma_finished_session_stands_still(session: Session, world: World, due: bool)
    requires
        session.finished,
    ensures
        session.after_frame(world, due).finished,
        !session.steps_in(world, due),
        session.after_frame(world, due).scenario == session.scenario,
{
}

/// A session that was not quit raises its finished flag in the first frame
/// in which the scenario reports that it is over, and simulates no tick in
/// that frame.
pub proof fn lemma_session_finishes_with_scenario(session: Session, world: World, due: bool)
    requires
        !session.quit,
        session.scenario.status_in(world) == Status::Finished,
    ensures
        session.after_frame(world, due).finished,
        !session.steps_in(world, due),
{
}

/// A paused session with no single step left lets no time pass, and a
/// single step is used up by exactly one simulated tick.
pub proof fn lemma_pause_holds_time(session: Session, world: World, due: bool)
    requires
        !session.quit,
        session.paused,
    ensures
        session.single_steps == 0 ==> !session.steps_in(world, due) && session.after_frame(
            world,
            due,
        ) == (Session { finished: session.finished_in(world), ..session }),
        session.single_steps > 0 && !session.finished_in(world) ==> session.steps_in(world, due)
            && session.after_frame(world, due).single_steps == session.single_steps - 1,
{
}

} // verus!
