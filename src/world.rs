//! Time-step, gravity and tick counter shared by the stages of a tick.
use vstd::prelude::*;

use crate::fixed::ONE;

verus! {

/// Default time step, 0.0016 s.
pub const DEFAULT_DT: i64 = 1678;

/// Default gravity, -9.8.
pub const DEFAULT_GRAVITY: i64 = -10276045;

#[derive(Clone, Copy, Debug, PartialEq, Eq, Structural)]
pub struct WorldState {
    pub dt: i64,
    pub gravity: i64,
    pub gravity_enabled: bool,
    pub current_tick: usize,
}

#[derive(Clone, Copy, Debug, PartialEq, Eq, Structural)]
pub enum WorldError {
    /// A time step of zero.
    ZeroStep,
}

/// How particles are slowed before they reach a wall.
#[derive(Clone, Copy, Debug, PartialEq, Eq, Structural)]
pub struct Boundary {
    /// How far ahead in time a particle's path is projected.
    pub lookahead: i64,
    /// Distance from each edge of the soft wall that the projection is held to.
    pub wall: i64,
}

impl Boundary {
    /// Looks 0.1 s ahead, at walls three cells in from the edges.
    pub fn standard() -> (r: Boundary)
        ensures
            r == (Boundary { lookahead: 104858, wall: (3 * ONE) as i64 }),
    {
        Boundary { lookahead: 104858, wall: 3 * ONE }
    }
}

impl WorldState {
    /// A world at tick zero; a zero time step is refused.
    pub fn new(dt: i64, gravity: i64, gravity_enabled: bool) -> (r: Result<WorldState, WorldError>)
        ensures
            dt == 0 <==> r == Err::<WorldState, WorldError>(WorldError::ZeroStep),
            dt != 0 ==> r == Ok::<WorldState, WorldError>(
                WorldState { dt, gravity, gravity_enabled, current_tick: 0 },
            ),
    {
        if dt == 0 {
            Err(WorldError::ZeroStep)
        } else {
            Ok(WorldState { dt, gravity, gravity_enabled, current_tick: 0 })
        }
    }

    pub fn default() -> (r: WorldState)
        ensures
            r == (WorldState {
                dt: DEFAULT_DT,
                gravity: DEFAULT_GRAVITY,
                gravity_enabled: true,
                current_tick: 0,
            }),
    {
        WorldState { dt: DEFAULT_DT, gravity: DEFAULT_GRAVITY, gravity_enabled: true, current_tick: 0 }
    }

    pub fn toggle_gravity(&mut self)
        ensures
            *final(self) == (WorldState { gravity_enabled: !old(self).gravity_enabled, ..*old(self) }),
    {
        self.gravity_enabled = !self.gravity_enabled;
    }

    /// Advances the tick counter by one.
    pub fn update(&mut self)
        requires
            old(self).current_tick < usize::MAX,
        ensures
            *final(self) == (WorldState { current_tick: (old(self).current_tick + 1) as usize, ..*old(self) }),
    {
        self.current_tick = self.current_tick + 1;
    }

    pub open spec fn gravity_spec(&self) -> i64 {
        if self.gravity_enabled {
            self.gravity
        } else {
            0
        }
    }

    /// Gravity as applied this tick: zero while it is switched off.
    pub fn effective_gravity(&self) -> (r: i64)
        ensures
            r == self.gravity_spec(),
    {
        if self.gravity_enabled {
            self.gravity
        } else {
            0
        }
    }
}

} // verus!
