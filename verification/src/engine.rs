//! The simulation engine: input resolution, tick-gated movement with the
//! follow-the-leader shift, food consumption and respawn, and the
//! self-collision reset.

use vstd::prelude::*;

use rand::Rng;

use crate::clock::TickClock;
use crate::grid::Direction;
use crate::grid::Position;
use crate::grid::GRID_SIZE;
use crate::state::GameState;
use crate::state::StateModel;

verus! {

impl StateModel {
    /// The heading after one frame of input resolution: at most one change
    /// per frame, first match in the order up, down, left, right, and a
    /// request that would reverse the current heading is ignored.
    pub open spec fn resolved_dir(
        cur: Direction,
        up: bool,
        down: bool,
        left: bool,
        right: bool,
    ) -> Direction {
        if up && cur != Direction::Down {
            Direction::Up
        } else if down && cur != Direction::Up {
            Direction::Down
        } else if left && cur != Direction::Right {
            Direction::Left
        } else if right && cur != Direction::Left {
            Direction::Right
        } else {
            cur
        }
    }

    /// The body after a follow-the-leader shift: the first segment takes the
    /// head's pre-move cell, each later one its predecessor's pre-move cell,
    /// and the last cell falls off.
    pub open spec fn shifted(head: Position, segments: Seq<Position>) -> Seq<Position> {
        if segments.len() == 0 {
            segments
        } else {
            seq![head] + segments.drop_last()
        }
    }

    /// The state after one tick's movement: the head advances one cell along
    /// its heading and the body shifts behind it.
    pub open spec fn moved(self) -> StateModel {
        StateModel {
            head: self.head.stepped(self.dir),
            segments: Self::shifted(self.head, self.segments),
            ..self
        }
    }

    /// Whether the head sits on the food cell.
    pub open spec fn on_food(self) -> bool {
        self.food matches Some(p) && self.head == p
    }

    /// The state after the consumption check: a head on the food cell
    /// destroys the food and appends a segment at the sentinel cell.
    pub open spec fn after_eat(self) -> StateModel {
        if self.on_food() {
            StateModel {
                food: None,
                segments: self.segments.push(Self::sentinel()),
                eaten: self.eaten + 1,
                ..self
            }
        } else {
            self
        }
    }

    /// Whether the head overlaps some body segment.
    pub open spec fn self_collision(self) -> bool {
        exists|i: int| 0 <= i < self.segments.len() && self.segments[i] == self.head
    }

    /// The state after the respawn check: absent food reappears at `roll`.
    pub open spec fn respawned(self, roll: Position) -> StateModel {
        if self.food is None {
            StateModel { food: Some(roll), ..self }
        } else {
            self
        }
    }

    /// Whether an update pass whose tick clock fired ends in the death
    /// reset, given the frame's key states.
    pub open spec fn dies(self, fired: bool, up: bool, down: bool, left: bool, right: bool) -> bool {
        let steered = StateModel {
            dir: Self::resolved_dir(self.dir, up, down, left, right),
            ..self
        };
        fired && steered.moved().after_eat().self_collision()
    }

    /// One whole update pass: resolve input; when the clock fired, move the
    /// snake and run the consumption check; respawn absent food at `roll`;
    /// and when the head overlaps a segment, reset to the startup
    /// configuration (destroying any food just respawned).
    pub open spec fn updated(
        self,
        fired: bool,
        up: bool,
        down: bool,
        left: bool,
        right: bool,
        roll: Position,
    ) -> StateModel {
        let steered = StateModel {
            dir: Self::resolved_dir(self.dir, up, down, left, right),
            ..self
        };
        if !fired {
            steered.respawned(roll)
        } else {
            let eaten = steered.moved().after_eat();
            if eaten.self_collision() {
                Self::reset()
            } else {
                eaten.respawned(roll)
            }
        }
    }
}

impl GameState {
    /// Latch one frame's key states onto the head: at most one direction
    /// change, first match in the order up, down, left, right, with the
    /// opposite-direction guard. Sampled every frame, applied to movement
    /// only at tick boundaries.
    pub fn apply_input(&mut self, up: bool, down: bool, left: bool, right: bool)
        ensures
            final(self)@ == (StateModel {
                dir: StateModel::resolved_dir(old(self).head_dir, up, down, left, right),
                ..old(self)@
            }),
            old(self).wf() ==> final(self).wf(),
    {
        if up && self.head_dir != Direction::Down {
            self.head_dir = Direction::Up;
        } else if down && self.head_dir != Direction::Up {
            self.head_dir = Direction::Down;
        } else if left && self.head_dir != Direction::Right {
            self.head_dir = Direction::Left;
        } else if right && self.head_dir != Direction::Left {
            self.head_dir = Direction::Right;
        }
    }

    /// One tick's movement: the head advances one cell along its latched
    /// heading and each segment adopts the cell its predecessor held before
    /// this tick.
    pub fn step_snake(&mut self)
        requires
            old(self).head_pos.step_fits(old(self).head_dir),
        ensures
            final(self)@ == old(self)@.moved(),
            old(self).wf() ==> final(self).wf(),
    {
        let prev: Position = self.head_pos;
        self.head_pos = self.head_pos.step(self.head_dir);

        let ghost segs0 = self.segments@;
        let ghost head_dir0 = self.head_dir;
        let ghost head_pos1 = self.head_pos;
        let ghost food0 = self.food;
        let ghost eaten0 = self.eaten@;

        let mut carry: Position = prev;
        let mut i: usize = 0;
        while i < self.segments.len()
            invariant
                i <= self.segments@.len(),
                self.segments@.len() == segs0.len(),
                carry == (if i == 0 {
                    prev
                } else {
                    segs0[i - 1]
                }),
                forall|j: int|
                    0 <= j < i ==> self.segments@[j] == StateModel::shifted(prev, segs0)[j],
                forall|j: int| i <= j < segs0.len() ==> self.segments@[j] == segs0[j],
                self.head_dir == head_dir0,
                self.head_pos == head_pos1,
                self.food == food0,
                self.eaten@ == eaten0,
            decreases segs0.len() - i,
        {
            let next_carry: Position = self.segments[i];
            self.segments[i] = carry;
            carry = next_carry;
            i = i + 1;
        }
        proof {
            assert(self.segments@ =~= StateModel::shifted(prev, segs0));
            assert(self@ =~= old(self)@.moved());
        }
    }

    /// The consumption check, run on the same tick as movement: a head on
    /// the food cell destroys the food and appends a segment at an off-grid
    /// sentinel cell, to be placed by the next tick's shift.
    pub fn eat_food(&mut self)
        ensures
            final(self)@ == old(self)@.after_eat(),
            old(self).wf() ==> final(self).wf(),
    {
        match self.food {
            Some(food_pos) => {
                if self.head_pos == food_pos {
                    self.food = None;
                    self.segments.push(Position { x: -1, y: -1 });
                    proof {
                        self.eaten@ = self.eaten@ + 1;
                        assert(self@ =~= old(self)@.after_eat());
                    }
                }
            },
            None => {},
        }
    }

    /// Place food on the given cell of the playing field; the verified half
    /// of the respawn check, taking the drawn cell as an argument.
    pub fn place_food(&mut self, roll: Position)
        requires
            roll.in_grid(),
            old(self).food is None,
        ensures
            final(self)@ == old(self)@.respawned(roll),
            old(self).wf() ==> final(self).wf(),
    {
        self.food = Some(roll);
    }

    /// The respawn check, run every update pass: when no food exists, one
    /// is created at a cell drawn uniformly from the grid, with no exclusion
    /// of cells occupied by the snake.
    pub fn spawn_food(&mut self)
        ensures
            exists|roll: Position|
                roll.in_grid() && final(self)@ == old(self)@.respawned(roll),
            final(self).food is Some,
            old(self).food is Some ==> *final(self) == *old(self),
            old(self).wf() ==> final(self).wf(),
    {
        if self.food.is_none() {
            let x = random_grid_coord();
            let y = random_grid_coord();
            let roll = Position { x, y };
            self.place_food(roll);
            proof {
                assert(roll.in_grid() && self@ =~= old(self)@.respawned(roll));
            }
        } else {
            proof {
                let roll = Position { x: 0, y: 0 };
                assert(roll.in_grid() && self@ =~= old(self)@.respawned(roll));
            }
        }
    }

    /// The death check, run after movement: a head overlapping any body
    /// segment atomically clears the store and re-seeds the startup
    /// configuration.
    pub fn check_death(&mut self)
        ensures
            old(self)@.self_collision() ==> final(self)@ == StateModel::reset(),
            !old(self)@.self_collision() ==> *final(self) == *old(self),
            old(self).wf() ==> final(self).wf(),
    {
        let mut hit: bool = false;
        let mut i: usize = 0;
        while i < self.segments.len()
            invariant
                i <= self.segments@.len(),
                hit == exists|j: int|
                    0 <= j < i && self.segments@[j] == self.head_pos,
            decreases self.segments@.len() - i,
        {
            if self.segments[i] == self.head_pos {
                hit = true;
            }
            i = i + 1;
        }
        proof {
            if hit {
                let j = choose|j: int| 0 <= j < i && self.segments@[j] == self.head_pos;
                assert(0 <= j < self@.segments.len() && self@.segments[j] == self@.head);
            } else {
                assert(forall|j: int|
                    0 <= j < self@.segments.len() ==> self.segments@[j] != self.head_pos);
            }
            assert(hit == self@.self_collision());
        }
        if hit {
            self.reset();
        }
    }

    /// One whole frame of the simulation, in the required order: advance the
    /// tick clock, resolve input, and — only when the clock fired — move the
    /// snake and run the consumption check; then respawn absent food, and
    /// after movement run the death check.
    pub fn update(
        &mut self,
        clock: &mut TickClock,
        delta_ms: u64,
        up: bool,
        down: bool,
        left: bool,
        right: bool,
    )
        requires
            old(clock).wf(),
            old(clock).fires(delta_ms) ==> old(self).head_pos.step_fits(
                StateModel::resolved_dir(old(self).head_dir, up, down, left, right),
            ),
        ensures
            final(clock).wf(),
            final(clock).period_ms == old(clock).period_ms,
            old(clock).fires(delta_ms) ==> final(clock).remaining_ms == old(clock).period_ms,
            !old(clock).fires(delta_ms) ==> final(clock).remaining_ms == old(clock).remaining_ms
                - delta_ms,
            exists|roll: Position|
                roll.in_grid() && final(self)@ == old(self)@.updated(
                    old(clock).fires(delta_ms),
                    up,
                    down,
                    left,
                    right,
                    roll,
                ),
            old(self).wf() ==> final(self).wf(),
            !old(clock).fires(delta_ms) ==> final(self).head_pos == old(self).head_pos
                && final(self).segments@ == old(self).segments@,
            !old(self)@.dies(old(clock).fires(delta_ms), up, down, left, right)
                ==> final(self).food is Some,
            old(self)@.dies(old(clock).fires(delta_ms), up, down, left, right)
                ==> final(self)@ == StateModel::reset(),
    {
        let fired = clock.tick(delta_ms);
        self.apply_input(up, down, left, right);
        if fired {
            self.step_snake();
            self.eat_food();
        }
        let ghost pre_spawn = self@;
        self.spawn_food();
        let ghost roll = choose|r: Position| r.in_grid() && self@ == pre_spawn.respawned(r);
        proof {
            lemma_collision_ignores_food(pre_spawn, self@);
        }
        if fired {
            self.check_death();
        }
        proof {
            assert(self@ == old(self)@.updated(fired, up, down, left, right, roll));
        }
    }
}

/// The opposite-direction guard: with head direction `cur`, a lone request
/// for the opposite of `cur` leaves the heading unchanged, while a lone
/// request for any other direction (the same, or either perpendicular one)
/// is honoured.
pub proof fn lemma_opposite_direction_guard(cur: Direction, req: Direction)
    ensures
        req == cur.opposite() ==> StateModel::resolved_dir(
            cur,
            req == Direction::Up,
            req == Direction::Down,
            req == Direction::Left,
            req == Direction::Right,
        ) == cur,
        req != cur.opposite() ==> StateModel::resolved_dir(
            cur,
            req == Direction::Up,
            req == Direction::Down,
            req == Direction::Left,
            req == Direction::Right,
        ) == req,
{
}

/// The segment-count invariant: in a well-formed store the body holds one
/// segment per food eaten since the last reset, plus the starting one. Every
/// constructor establishes `wf` and every update pass preserves it.
pub proof fn lemma_segment_count(s: GameState)
    requires
        s.wf(),
    ensures
        s.segments@.len() == s.eaten@ + 1,
{
}

/// Whether the head overlaps a segment does not depend on the food: states
/// agreeing on head and body agree on self-collision.
proof fn lemma_collision_ignores_food(a: StateModel, b: StateModel)
    requires
        a.head == b.head,
        a.segments == b.segments,
    ensures
        a.self_collision() == b.self_collision(),
{
    if a.self_collision() {
        let i = choose|i: int| 0 <= i < a.segments.len() && a.segments[i] == a.head;
        assert(0 <= i < b.segments.len() && b.segments[i] == b.head);
    }
    if b.self_collision() {
        let i = choose|i: int| 0 <= i < b.segments.len() && b.segments[i] == b.head;
        assert(0 <= i < a.segments.len() && a.segments[i] == a.head);
    }
}

/// Relies on rand's `thread_rng` and `Rng::gen_range`: a sample from the
/// non-empty half-open range `0..GRID_SIZE` lies in that range.
#[verifier::external_body]
fn random_grid_coord() -> (r: i32)
    ensures
        0 <= r < GRID_SIZE,
{
    rand::thread_rng().gen_range(0..GRID_SIZE)
}

} // verus!
