//! A minimal component world: entities are records of optional components
//! kept in a vector, the entity id being the index. It carries exactly what
//! the two systems need — the single player entity with its action state,
//! velocity and maximum speed, and any number of moving entities with a
//! position and a velocity.

use crate::action::ActionFrame;
use crate::action::ActionState;
use crate::action::Action;
use crate::position::Position;
use crate::position::spec_step;
use crate::position::step_fits;
use crate::velocity::Velocity;
use crate::velocity::spec_resolve_velocity;
use crate::velocity::resolve_velocity_from_actions;
use vstd::prelude::*;

verus! {

/// The controllable entity's marker component: its maximum speed in world
/// units per second, constant after creation and strictly positive.
#[derive(Clone, Copy, Debug, PartialEq, Eq, Structural)]
pub struct Player {
    pub max_speed: u32,
}

/// Hit points. Declared for inspection only: nothing in this library reads
/// or writes it after creation, and no invariant is enforced beyond its
/// initial value.
#[derive(Clone, Copy, Debug, PartialEq, Eq, Structural)]
pub struct Health {
    pub max_hp: u32,
    pub current_hp: u32,
}

/// One entity: a record of optional components. The index in the world's
/// entity vector is the entity's id.
#[derive(Clone, Copy, Debug)]
pub struct Entity {
    pub player: Option<Player>,
    pub health: Option<Health>,
    pub actions: Option<ActionState>,
    pub velocity: Option<Velocity>,
    pub position: Option<Position>,
}

impl Entity {
    /// Component invariants: a player's maximum speed is positive and a
    /// stored velocity is well-formed.
    pub open spec fn wf(self) -> bool {
        &&& (self.player is Some ==> self.player->Some_0.max_speed > 0)
        &&& (self.velocity is Some ==> self.velocity->Some_0.wf())
    }

    /// Whether this entity matches the velocity resolver's query: it has an
    /// action state, a velocity and a player marker.
    pub open spec fn is_controllable(self) -> bool {
        self.player is Some && self.actions is Some && self.velocity is Some
    }

    /// Whether this entity matches the position integrator's query: it has
    /// a position and a velocity.
    pub open spec fn is_moving(self) -> bool {
        self.position is Some && self.velocity is Some
    }

    /// An entity with no components.
    pub fn empty() -> (e: Entity)
        ensures
            e.player is None && e.health is None && e.actions is None && e.velocity is None
                && e.position is None,
            e.wf(),
    {
        Entity { player: None, health: None, actions: None, velocity: None, position: None }
    }
}

/// Why the player-singleton query failed: no entity matched, or more than
/// one did. Either way the update cycle is aborted rather than run on an
/// arbitrary entity.
#[derive(Clone, Copy, Debug, PartialEq, Eq, Structural)]
pub enum SingletonError {
    NoPlayer,
    MultiplePlayers,
}

impl SingletonError {
    /// A descriptive message for the aborted update cycle.
    pub fn message(&self) -> (s: &'static str)
        ensures
            self is NoPlayer ==> s@ == "player query matched no entity"@,
            self is MultiplePlayers ==> s@ == "player query matched more than one entity"@,
    {
        match self {
            SingletonError::NoPlayer => "player query matched no entity",
            SingletonError::MultiplePlayers => "player query matched more than one entity",
        }
    }
}

/// The world: every entity, indexed by id.
pub struct World {
    pub entities: Vec<Entity>,
}

/// `e` refreshed with the sampled frame: its action state advanced by one
/// frame if it has one, everything else unchanged.
pub open spec fn spec_refresh_entity(e: Entity, frame: ActionFrame) -> Entity {
    if e.actions is Some {
        Entity { actions: Some(e.actions->Some_0.spec_advanced(frame)), ..e }
    } else {
        e
    }
}

/// `e` with its velocity overwritten by the resolver's result for its own
/// action state and maximum speed.
pub open spec fn spec_resolve_entity(e: Entity) -> Entity {
    Entity {
        velocity: Some(
            spec_resolve_velocity(
                e.actions->Some_0.spec_pressed(Action::Right),
                e.actions->Some_0.spec_pressed(Action::Left),
                e.actions->Some_0.spec_pressed(Action::Up),
                e.actions->Some_0.spec_pressed(Action::Down),
                e.player->Some_0.max_speed,
            ),
        ),
        ..e
    }
}

/// `e` one fixed tick later: its position advanced by its velocity if it
/// has both, everything else unchanged.
pub open spec fn spec_step_entity(e: Entity) -> Entity {
    if e.is_moving() {
        Entity { position: Some(spec_step(e.position->Some_0, e.velocity->Some_0)), ..e }
    } else {
        e
    }
}

/// Whether one fixed tick keeps `e`'s position inside `i64`.
pub open spec fn entity_step_fits(e: Entity) -> bool {
    e.is_moving() ==> step_fits(e.position->Some_0, e.velocity->Some_0)
}

impl World {
    /// Every entity satisfies its component invariants.
    pub open spec fn wf(self) -> bool {
        forall|i: int| 0 <= i < self.entities@.len() ==> #[trigger] self.entities@[i].wf()
    }

    /// `i` is the id of the one entity matching the velocity resolver's
    /// query, and no other entity matches.
    pub open spec fn is_sole_controllable(self, i: int) -> bool {
        &&& 0 <= i < self.entities@.len()
        &&& self.entities@[i].is_controllable()
        &&& forall|j: int|
            0 <= j < self.entities@.len() && j != i ==> !(#[trigger] self.entities@[j]).is_controllable()
    }

    /// An empty world.
    pub fn new() -> (w: World)
        ensures
            w.entities@.len() == 0,
            w.wf(),
    {
        World { entities: Vec::new() }
    }

    /// Spawns the player entity: the player marker with the given maximum
    /// speed, full health, a fresh action state, a zero velocity and a
    /// position at the origin. Returns the new entity's id.
    pub fn spawn_player(&mut self, max_speed: u32, max_hp: u32) -> (id: usize)
        requires
            max_speed > 0,
        ensures
            id == old(self).entities@.len(),
            final(self).entities@.len() == old(self).entities@.len() + 1,
            final(self).entities@ == old(self).entities@.push(final(self).entities@[id as int]),
            ({
                let e = final(self).entities@[id as int];
                &&& e.player == Some(Player { max_speed })
                &&& e.health == Some(Health { max_hp, current_hp: max_hp })
                &&& e.actions == Some(ActionState { previous: ActionFrame::spec_idle(), current: ActionFrame::spec_idle() })
                &&& e.velocity is Some && e.velocity->Some_0.is_zero()
                    && e.velocity->Some_0.speed == 0
                &&& e.position == Some(Position::spec_origin())
            }),
            old(self).wf() ==> final(self).wf(),
    {
        let id = self.entities.len();
        let e = Entity {
            player: Some(Player { max_speed }),
            health: Some(Health { max_hp, current_hp: max_hp }),
            actions: Some(ActionState::new()),
            velocity: Some(Velocity::zero()),
            position: Some(Position::origin()),
        };
        self.entities.push(e);
        id
    }

    /// The player-singleton query: the id of the one entity holding an
    /// action state, a velocity and a player marker; an error when zero or
    /// more than one entity matches.
    pub fn find_player(&self) -> (r: Result<usize, SingletonError>)
        ensures
            match r {
                Ok(i) => self.is_sole_controllable(i as int),
                Err(e) => {
                    &&& (e == SingletonError::NoPlayer <==> forall|j: int|
                        0 <= j < self.entities@.len() ==> !(#[trigger] self.entities@[j]).is_controllable())
                    &&& (e == SingletonError::MultiplePlayers <==> exists|j: int, k: int|
                        0 <= j < k < self.entities@.len() && (#[trigger] self.entities@[j]).is_controllable()
                            && (#[trigger] self.entities@[k]).is_controllable())
                },
            },
    {
        let n = self.entities.len();
        let mut found: Option<usize> = None;
        let mut idx: usize = 0;
        while idx < n
            invariant
                n == self.entities@.len(),
                idx <= n,
                match found {
                    Some(i) => {
                        &&& 0 <= i < idx
                        &&& self.entities@[i as int].is_controllable()
                        &&& forall|j: int|
                            0 <= j < idx && j != i ==> !(#[trigger] self.entities@[j]).is_controllable()
                    },
                    None => forall|j: int|
                        0 <= j < idx ==> !(#[trigger] self.entities@[j]).is_controllable(),
                },
            decreases n - idx,
        {
            let e = &self.entities[idx];
            let matches_query = e.player.is_some() && e.actions.is_some() && e.velocity.is_some();
            if matches_query {
                match found {
                    None => {
                        found = Some(idx);
                    },
                    Some(_) => {
                        return Err(SingletonError::MultiplePlayers);
                    },
                }
            }
            idx = idx + 1;
        }
        match found {
            Some(i) => Ok(i),
            None => Err(SingletonError::NoPlayer),
        }
    }

    /// The input mapper's per-frame refresh: hands the sampled pressed
    /// levels to every entity that tracks an action state, advancing its
    /// edge-detection window by one frame. Everything else is untouched.
    pub fn refresh_actions(&mut self, frame: ActionFrame)
        ensures
            final(self).entities@.len() == old(self).entities@.len(),
            forall|i: int|
                0 <= i < old(self).entities@.len() ==> final(self).entities@[i]
                    == spec_refresh_entity(#[trigger] old(self).entities@[i], frame),
            old(self).wf() ==> final(self).wf(),
    {
        let ghost orig = self.entities@;
        let n = self.entities.len();
        let mut idx: usize = 0;
        while idx < n
            invariant
                n == self.entities@.len(),
                orig.len() == n,
                idx <= n,
                forall|i: int|
                    0 <= i < idx ==> self.entities@[i] == spec_refresh_entity(
                        #[trigger] orig[i],
                        frame,
                    ),
                forall|i: int| idx <= i < n ==> #[trigger] self.entities@[i] == orig[i],
            decreases n - idx,
        {
            let mut e = self.entities[idx];
            match &mut e.actions {
                Some(actions) => {
                    actions.advance(frame);
                },
                None => {},
            }
            self.entities[idx] = e;
            idx = idx + 1;
        }
        assert forall|i: int|
            0 <= i < orig.len() && old(self).wf() implies (#[trigger] self.entities@[i]).wf() by {
            assert(orig[i].wf());
        }
    }

    /// The velocity resolver system, run once per rendered frame. Queries
    /// for the single controllable entity; if exactly one matches, its
    /// velocity is overwritten — never accumulated — with the direction
    /// resolved from its current directional levels, normalized and scaled
    /// by its maximum speed, and the result says whether the shoot action
    /// rose this frame. If zero or more than one entity matches, the world
    /// is left untouched and the cycle aborts with the error.
    pub fn handle_input(&mut self) -> (r: Result<bool, SingletonError>)
        requires
            old(self).wf(),
        ensures
            final(self).wf(),
            final(self).entities@.len() == old(self).entities@.len(),
            match r {
                Ok(shot) => exists|i: int|
                    {
                        &&& #[trigger] old(self).is_sole_controllable(i)
                        &&& final(self).entities@ == old(self).entities@.update(
                            i,
                            spec_resolve_entity(old(self).entities@[i]),
                        )
                        &&& shot == old(self).entities@[i].actions->Some_0.spec_just_pressed(
                            Action::Shoot,
                        )
                    },
                Err(e) => {
                    &&& *final(self) == *old(self)
                    &&& (e == SingletonError::NoPlayer <==> forall|j: int|
                        0 <= j < old(self).entities@.len() ==> !(#[trigger] old(
                            self,
                        ).entities@[j]).is_controllable())
                    &&& (e == SingletonError::MultiplePlayers <==> exists|j: int, k: int|
                        0 <= j < k < old(self).entities@.len() && (#[trigger] old(
                            self,
                        ).entities@[j]).is_controllable() && (#[trigger] old(
                            self,
                        ).entities@[k]).is_controllable())
                },
            },
            (r is Ok) <==> exists|i: int| #[trigger] old(self).is_sole_controllable(i),
    {
        let idx = match self.find_player() {
            Ok(i) => i,
            Err(e) => {
                return Err(e);
            },
        };
        let mut e = self.entities[idx];
        let actions = e.actions.unwrap();
        let player = e.player.unwrap();
        let shot = actions.just_pressed(Action::Shoot);
        let v = resolve_velocity_from_actions(&actions, player.max_speed);
        e.velocity = Some(v);
        self.entities[idx] = e;
        assert(self.entities@ == old(self).entities@.update(
            idx as int,
            spec_resolve_entity(old(self).entities@[idx as int]),
        ));
        assert forall|i: int|
            0 <= i < self.entities@.len() implies (#[trigger] self.entities@[i]).wf() by {
            assert(old(self).entities@[i].wf());
        }
        Ok(shot)
    }

    /// Checks the component invariants of every entity, so that an
    /// unverified caller can establish well-formedness at run time.
    pub fn is_wf(&self) -> (b: bool)
        ensures
            b == self.wf(),
    {
        let n = self.entities.len();
        let mut idx: usize = 0;
        while idx < n
            invariant
                n == self.entities@.len(),
                idx <= n,
                forall|i: int| 0 <= i < idx ==> (#[trigger] self.entities@[i]).wf(),
            decreases n - idx,
        {
            let e = &self.entities[idx];
            match &e.player {
                Some(p) => {
                    if p.max_speed == 0 {
                        assert(!self.entities@[idx as int].wf());
                        return false;
                    }
                },
                None => {},
            }
            match &e.velocity {
                Some(v) => {
                    let dir_ok = -1 <= v.dir.x && v.dir.x <= 1 && -1 <= v.dir.y && v.dir.y <= 1;
                    let zero_ok = !(v.dir.x == 0 && v.dir.y == 0) || v.speed == 0;
                    if !(dir_ok && zero_ok) {
                        assert(!self.entities@[idx as int].wf());
                        return false;
                    }
                },
                None => {},
            }
            assert(self.entities@[idx as int].wf());
            idx = idx + 1;
        }
        true
    }

    /// Whether one fixed tick keeps every moving entity's position inside
    /// `i64`, so that the position integrator may run.
    pub fn all_steps_fit(&self) -> (b: bool)
        requires
            self.wf(),
        ensures
            b == forall|i: int|
                0 <= i < self.entities@.len() ==> entity_step_fits(#[trigger] self.entities@[i]),
    {
        let n = self.entities.len();
        let mut idx: usize = 0;
        while idx < n
            invariant
                self.wf(),
                n == self.entities@.len(),
                idx <= n,
                forall|i: int| 0 <= i < idx ==> entity_step_fits(#[trigger] self.entities@[i]),
            decreases n - idx,
        {
            let e = &self.entities[idx];
            assert(self.entities@[idx as int].wf());
            match (&e.position, &e.velocity) {
                (Some(p), Some(v)) => {
                    assert(v.wf());
                    let dx: i64 = if v.dir.x == 1 {
                        v.speed as i64
                    } else if v.dir.x == -1 {
                        -(v.speed as i64)
                    } else {
                        0
                    };
                    let dy: i64 = if v.dir.y == 1 {
                        v.speed as i64
                    } else if v.dir.y == -1 {
                        -(v.speed as i64)
                    } else {
                        0
                    };
                    let diagonal = v.dir.x != 0 && v.dir.y != 0;
                    let ok = if diagonal {
                        p.x.diag_units.checked_add(dx).is_some()
                            && p.y.diag_units.checked_add(dy).is_some()
                    } else {
                        p.x.units.checked_add(dx).is_some() && p.y.units.checked_add(dy).is_some()
                    };
                    if !ok {
                        assert(!entity_step_fits(self.entities@[idx as int]));
                        return false;
                    }
                    assert(entity_step_fits(self.entities@[idx as int]));
                },
                _ => {
                    assert(entity_step_fits(self.entities@[idx as int]));
                },
            }
            idx = idx + 1;
        }
        true
    }

    /// The position integrator system, run once per fixed tick: every
    /// entity with both a position and a velocity advances its position by
    /// `velocity * tick duration`, exactly; every other entity, and every
    /// other component, is untouched.
    pub fn apply_velocity(&mut self)
        requires
            old(self).wf(),
            forall|i: int|
                0 <= i < old(self).entities@.len() ==> entity_step_fits(
                    #[trigger] old(self).entities@[i],
                ),
        ensures
            final(self).wf(),
            final(self).entities@.len() == old(self).entities@.len(),
            forall|i: int|
                0 <= i < old(self).entities@.len() ==> final(self).entities@[i]
                    == spec_step_entity(#[trigger] old(self).entities@[i]),
    {
        let ghost orig = self.entities@;
        let n = self.entities.len();
        let mut idx: usize = 0;
        while idx < n
            invariant
                n == self.entities@.len(),
                orig.len() == n,
                idx <= n,
                forall|i: int| 0 <= i < n ==> (#[trigger] orig[i]).wf(),
                forall|i: int| 0 <= i < n ==> entity_step_fits(#[trigger] orig[i]),
                forall|i: int|
                    0 <= i < idx ==> self.entities@[i] == spec_step_entity(#[trigger] orig[i]),
                forall|i: int| idx <= i < n ==> #[trigger] self.entities@[i] == orig[i],
            decreases n - idx,
        {
            let mut e = self.entities[idx];
            match (&mut e.position, &e.velocity) {
                (Some(p), Some(v)) => {
                    crate::position::integrate(p, v);
                },
                _ => {},
            }
            self.entities[idx] = e;
            idx = idx + 1;
        }
        assert forall|i: int|
            0 <= i < self.entities@.len() implies (#[trigger] self.entities@[i]).wf() by {
            assert(self.entities@[i] == spec_step_entity(orig[i]));
            assert(orig[i].wf());
        }
    }
}

} // verus!
