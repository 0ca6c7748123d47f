//! The entity store and its mathematical model: the snake's head, the
//! ordered segment chain, and the food item.

use vstd::prelude::*;

use crate::grid::Direction;
use crate::grid::Position;

verus! {

/// Mathematical model of one simulation state, with the body chain as a
/// sequence (front to back) and the count of food eaten since the last
/// reset.
#[verifier::ext_equal]
pub ghost struct StateModel {
    pub head: Position,
    pub dir: Direction,
    pub segments: Seq<Position>,
    pub food: Option<Position>,
    pub eaten: nat,
}

impl StateModel {
    /// The startup configuration, re-seeded on every death: head at the
    /// origin facing up, one segment directly below, no food yet.
    pub open spec fn reset() -> StateModel {
        StateModel {
            head: Position { x: 0, y: 0 },
            dir: Direction::Up,
            segments: seq![Position { x: 0, y: -1i32 }],
            food: None,
            eaten: 0,
        }
    }

    /// The off-grid placeholder a fresh segment holds until its first shift.
    pub open spec fn sentinel() -> Position {
        Position { x: -1i32, y: -1i32 }
    }
}

/// The mutable set of game entities: the singleton head with its latched
/// heading, the ordered body chain, and at most one food item. The count of
/// food eaten since the last reset is carried as ghost state.
pub struct GameState {
    pub head_pos: Position,
    pub head_dir: Direction,
    pub segments: Vec<Position>,
    pub food: Option<Position>,
    pub eaten: Ghost<nat>,
}

impl View for GameState {
    type V = StateModel;

    open spec fn view(&self) -> StateModel {
        StateModel {
            head: self.head_pos,
            dir: self.head_dir,
            segments: self.segments@,
            food: self.food,
            eaten: self.eaten@,
        }
    }
}

impl GameState {
    /// The store is well formed when the body has one segment per food eaten
    /// since the last reset plus the starting one, and any present food lies
    /// on the playing field.
    pub open spec fn wf(self) -> bool {
        &&& self.segments@.len() == self.eaten@ + 1
        &&& (self.food matches Some(p) ==> p.in_grid())
    }

    /// The startup configuration: one head at the origin facing up and one
    /// segment directly below it; food appears on the first update pass.
    pub fn new() -> (r: GameState)
        ensures
            r.wf(),
            r@ == StateModel::reset(),
    {
        let mut segments: Vec<Position> = Vec::new();
        segments.push(Position { x: 0, y: -1 });
        let r = GameState {
            head_pos: Position { x: 0, y: 0 },
            head_dir: Direction::Up,
            segments,
            food: None,
            eaten: Ghost(0),
        };
        proof {
            assert(r@ =~= StateModel::reset());
        }
        r
    }

    /// Atomically clear the store and re-seed the startup configuration, as
    /// happens on death. Score and length are not preserved.
    pub fn reset(&mut self)
        ensures
            final(self).wf(),
            final(self)@ == StateModel::reset(),
    {
        *self = GameState::new();
    }

    /// A store assembled from its parts, for hosts and tests; the eaten
    /// count is taken to be the segment count less one.
    pub fn from_parts(
        head_pos: Position,
        head_dir: Direction,
        segments: Vec<Position>,
        food: Option<Position>,
    ) -> (r: GameState)
        requires
            segments@.len() >= 1,
            food matches Some(p) ==> p.in_grid(),
        ensures
            r.wf(),
            r.head_pos == head_pos,
            r.head_dir == head_dir,
            r.segments == segments,
            r.food == food,
    {
        let ghost eaten = (segments@.len() - 1) as nat;
        GameState { head_pos, head_dir, segments, food, eaten: Ghost(eaten) }
    }
}

} // verus!
