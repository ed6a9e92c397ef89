//! Snake/game state machine.
//!
//! `GameState` owns the snake body, food and prize placement, score and the
//! game-over transition. `update` advances the game by exactly one discrete
//! step: it commits the buffered direction, asks the cube topology resolver
//! for the candidate head cell, applies the collision and growth rules, and
//! returns the event of the tick. Food placement draws random bytes, retries
//! a bounded number of times, and then falls back to scanning the board for
//! a free cell, so a dense board never causes unbounded work.

use std::collections::VecDeque;
use vstd::prelude::*;

use crate::cube::Direction;
use crate::cube::Face;
use crate::cube::Position;
use crate::cube::Transition;
use crate::cube::at_cell;
use crate::cube::next_position;
use crate::cube::next_transition;
use crate::cube::pos_valid;
use crate::cube::steps_to;

verus! {

/// Per-session configuration: the cube face edge length in cells, fixed for
/// the whole session.
#[derive(Clone, Copy, Debug, PartialEq, Eq, Structural)]
pub struct GameConfig {
    pub grid_size: i32,
}

/// The snake: an ordered body (head first, tail last), the direction of
/// travel, and the most recent buffered player input.
pub struct Snake {
    pub body: VecDeque<Position>,
    pub direction: Direction,
    pub next_direction: Direction,
}

/// The discrete outcome of one tick.
#[derive(Clone, Copy, Debug, PartialEq, Eq, Structural)]
pub enum GameEvent {
    Nothing,
    Eat,
    EatPrize,
    GameOver,
}

/// The whole per-session game state, advanced once per tick by `update`.
pub struct GameState {
    pub snake: Snake,
    pub food: Position,
    pub is_prize: bool,
    pub score: u32,
    pub high_score: u32,
    pub food_eaten_count: u32,
    pub game_over: bool,
    pub config: GameConfig,
}

/// How many random draws food placement makes before it falls back to
/// scanning the board for a free cell.
pub const SPAWN_ATTEMPTS: u32 = 32;

/// Every in-range cell is occupied by the body: no room for food.
pub open spec fn board_full(body: Seq<Position>, n: int) -> bool {
    forall|p: Position| pos_valid(p, n) ==> #[trigger] body.contains(p)
}

/// One resolver step out of `prev`, in some direction, lands on `next`.
pub open spec fn succeeds(prev: Position, next: Position, n: int) -> bool {
    exists|d: Direction|
        at_cell(#[trigger] next_transition(prev.face, prev.u as int, prev.v as int, d, n), next)
}

/// Adjacent body segments are always one resolver step apart: each cell
/// was reached by stepping from the cell behind it, on the same face or
/// across a seam.
pub open spec fn body_linked(body: Seq<Position>, n: int) -> bool {
    forall|i: int, j: int|
        0 <= i && j == i + 1 && j < body.len() ==> succeeds(
            #[trigger] body[j],
            #[trigger] body[i],
            n,
        )
}

/// The food spawned after `eaten` items have been eaten is a prize: every
/// fifth one, counting from the first.
pub open spec fn prize_due(eaten: u32) -> bool {
    (eaten + 1) % 5 == 0
}

/// Rank of a face in the fixed scan order.
pub open spec fn face_index(f: Face) -> int {
    match f {
        Face::Front => 0,
        Face::Back => 1,
        Face::Left => 2,
        Face::Right => 3,
        Face::Top => 4,
        Face::Bottom => 5,
    }
}

/// The face with a given rank; out-of-range ranks fold onto `Bottom`.
pub open spec fn index_face(i: int) -> Face {
    if i == 0 {
        Face::Front
    } else if i == 1 {
        Face::Back
    } else if i == 2 {
        Face::Left
    } else if i == 3 {
        Face::Right
    } else if i == 4 {
        Face::Top
    } else {
        Face::Bottom
    }
}

/// Executable twin of `index_face`.
pub fn face_of_index(i: u8) -> (f: Face)
    ensures
        f == index_face(i as int),
{
    match i {
        0u8 => Face::Front,
        1u8 => Face::Back,
        2u8 => Face::Left,
        3u8 => Face::Right,
        4u8 => Face::Top,
        _ => Face::Bottom,
    }
}

/// Relies on getrandom::getrandom for three bytes of entropy from the
/// operating system; on failure the buffer stays zeroed. The values are
/// random, so nothing is promised of them.
#[verifier::external_body]
fn random_bytes() -> (r: (u8, u8, u8)) {
    let mut buf = [0u8; 3];
    let _ = getrandom::getrandom(&mut buf);
    (buf[0], buf[1], buf[2])
}

/// Map three random bytes to a candidate food cell: one byte picks the
/// face, the other two pick the local coordinates.
pub fn food_candidate(b0: u8, b1: u8, b2: u8, grid_size: i32) -> (p: Position)
    requires
        1 <= grid_size,
    ensures
        p.face == index_face((b0 % 6) as int),
        p.u as int == (b1 as int) % (grid_size as int),
        p.v as int == (b2 as int) % (grid_size as int),
        pos_valid(p, grid_size as int),
{
    let face = face_of_index(b0 % 6);
    let u = (b1 as i32) % grid_size;
    let v = (b2 as i32) % grid_size;
    Position { face, u, v }
}

impl Snake {
    /// A one-segment snake at `start_pos`, travelling `start_dir`.
    pub fn new(start_pos: Position, start_dir: Direction) -> (s: Snake)
        ensures
            s.body@ == seq![start_pos],
            s.direction == start_dir,
            s.next_direction == start_dir,
    {
        let mut body: VecDeque<Position> = VecDeque::new();
        body.push_back(start_pos);
        proof {
            assert(body@ =~= seq![start_pos]);
        }
        Snake { body, direction: start_dir, next_direction: start_dir }
    }

    /// The head cell: index 0 of the body.
    pub fn head(&self) -> (p: Position)
        requires
            self.body@.len() >= 1,
        ensures
            p == self.body@[0],
    {
        self.body[0]
    }

    /// Whether any body segment occupies the cell `p`.
    pub fn occupies(&self, p: Position) -> (r: bool)
        ensures
            r == self.body@.contains(p),
    {
        let mut i: usize = 0;
        while i < self.body.len()
            invariant
                i <= self.body@.len(),
                forall|j: int| 0 <= j < i ==> self.body@[j] != p,
            decreases self.body@.len() - i,
        {
            if self.body[i] == p {
                proof {
                    assert(self.body@[i as int] == p);
                }
                return true;
            }
            i += 1;
        }
        false
    }
}

impl GameState {
    /// The grid size as a mathematical integer.
    pub open spec fn grid(self) -> int {
        self.config.grid_size as int
    }

    /// The snake body as a sequence of cells, head first.
    pub open spec fn body(self) -> Seq<Position> {
        self.snake.body@
    }

    /// Well-formedness: a positive grid, a non-empty body of in-range
    /// cells, an in-range food cell, and a high score that never trails
    /// the current score.
    pub open spec fn wf(self) -> bool {
        &&& 1 <= self.config.grid_size
        &&& 1 <= self.body().len()
        &&& forall|i: int| 0 <= i < self.body().len() ==> pos_valid(#[trigger] self.body()[i], self.grid())
        &&& pos_valid(self.food, self.grid())
        &&& self.score <= self.high_score
    }

    /// Where the tick about to run would move the head, once the buffered
    /// direction is committed.
    pub open spec fn head_step(self) -> Transition {
        next_transition(
            self.body()[0].face,
            self.body()[0].u as int,
            self.body()[0].v as int,
            self.snake.next_direction,
            self.grid(),
        )
    }

    /// The candidate head cell equals the current food cell.
    pub open spec fn growing_next(self) -> bool {
        at_cell(self.head_step(), self.food)
    }

    /// The candidate head cell is already occupied by some body segment.
    pub open spec fn hits_body_next(self) -> bool {
        exists|i: int|
            0 <= i < self.body().len() && at_cell(self.head_step(), #[trigger] self.body()[i])
    }

    /// The candidate head cell equals the current tail cell.
    pub open spec fn hits_tail_next(self) -> bool {
        at_cell(self.head_step(), self.body().last())
    }

    /// The move about to run is an illegal self-collision: it lands on the
    /// body and is not the tail-chase exception (tail cell, not growing).
    pub open spec fn fatal_next(self) -> bool {
        self.hits_body_next() && !(!self.growing_next() && self.hits_tail_next())
    }
}

impl GameState {
    /// A fresh session: a one-segment snake at the centre of the front
    /// face travelling up, zeroed scores, and a food cell spawned off the
    /// body. The caller may carry a previous high score over afterwards.
    pub fn new(grid_size: i32) -> (g: GameState)
        requires
            1 <= grid_size,
        ensures
            g.wf(),
            g.config.grid_size == grid_size,
            g.snake.body@.len() == 1,
            g.snake.body@[0].face == Face::Front,
            g.snake.body@[0].u as int == grid_size as int / 2,
            g.snake.body@[0].v as int == grid_size as int / 2,
            g.snake.direction == Direction::Up,
            g.snake.next_direction == Direction::Up,
            g.score == 0,
            g.high_score == 0,
            g.food_eaten_count == 0,
            !g.game_over,
            !g.is_prize,
            pos_valid(g.food, grid_size as int),
            !g.snake.body@.contains(g.food),
            body_linked(g.body(), g.grid()),
            g.body().no_duplicates(),
    {
        let start_pos = Position { face: Face::Front, u: grid_size / 2, v: grid_size / 2 };
        let snake = Snake::new(start_pos, Direction::Up);
        let mut game = GameState {
            snake,
            food: start_pos,
            is_prize: false,
            score: 0,
            high_score: 0,
            food_eaten_count: 0,
            game_over: false,
            config: GameConfig { grid_size },
        };
        proof {
            let wit = Position { face: Face::Back, u: 0, v: 0 };
            assert(pos_valid(wit, game.grid()) && !game.body().contains(wit));
            assert(!board_full(game.body(), game.grid()));
        }
        game.spawn_food();
        game
    }

    /// Place a fresh food cell. A bounded number of uniform random draws
    /// looks for a free cell; if none of them lands free, a direct scan of
    /// the board takes the first free cell. On a full board (no free cell
    /// at all) the food is left where it was. The new food is flagged as a
    /// prize on the fixed cadence: every fifth item, counting from the
    /// first.
    pub fn spawn_food(&mut self)
        requires
            old(self).wf(),
        ensures
            final(self).snake == old(self).snake,
            final(self).score == old(self).score,
            final(self).high_score == old(self).high_score,
            final(self).food_eaten_count == old(self).food_eaten_count,
            final(self).game_over == old(self).game_over,
            final(self).config == old(self).config,
            !board_full(old(self).body(), old(self).grid()) ==> ({
                &&& pos_valid(final(self).food, old(self).grid())
                &&& !old(self).body().contains(final(self).food)
                &&& final(self).is_prize == prize_due(old(self).food_eaten_count)
            }),
            board_full(old(self).body(), old(self).grid()) ==> ({
                &&& final(self).food == old(self).food
                &&& final(self).is_prize == old(self).is_prize
            }),
            final(self).wf(),
    {
        let n = self.config.grid_size;
        let mut attempts: u32 = 0;
        while attempts < SPAWN_ATTEMPTS
            invariant
                self == old(self),
                old(self).wf(),
                n == self.config.grid_size,
            decreases SPAWN_ATTEMPTS - attempts,
        {
            let (b0, b1, b2) = random_bytes();
            let cand = food_candidate(b0, b1, b2, n);
            if !self.snake.occupies(cand) {
                proof {
                    assert(!board_full(old(self).body(), old(self).grid())) by {
                        assert(pos_valid(cand, old(self).grid()));
                        assert(!old(self).body().contains(cand));
                    }
                }
                self.food = cand;
                self.is_prize = self.food_eaten_count % 5 == 4;
                return ;
            }
            attempts += 1;
        }
        let mut fi: u8 = 0;
        while fi < 6
            invariant
                self == old(self),
                old(self).wf(),
                n == self.config.grid_size,
                fi <= 6,
                forall|p: Position|
                    pos_valid(p, n as int) && face_index(p.face) < fi as int
                        ==> #[trigger] self.snake.body@.contains(p),
            decreases 6 - fi,
        {
            let face = face_of_index(fi);
            let mut uu: i32 = 0;
            while uu < n
                invariant
                    self == old(self),
                    old(self).wf(),
                    n == self.config.grid_size,
                    fi < 6,
                    face == index_face(fi as int),
                    0 <= uu <= n,
                    forall|p: Position|
                        pos_valid(p, n as int) && (face_index(p.face) < fi as int || (p.face
                            == face && p.u < uu)) ==> #[trigger] self.snake.body@.contains(p),
                decreases n - uu,
            {
                let mut vv: i32 = 0;
                while vv < n
                    invariant
                        self == old(self),
                        old(self).wf(),
                        n == self.config.grid_size,
                        fi < 6,
                        face == index_face(fi as int),
                        0 <= uu < n,
                        0 <= vv <= n,
                        forall|p: Position|
                            pos_valid(p, n as int) && (face_index(p.face) < fi as int || (p.face
                                == face && (p.u < uu || (p.u == uu && p.v < vv))))
                                ==> #[trigger] self.snake.body@.contains(p),
                    decreases n - vv,
                {
                    let cand = Position { face, u: uu, v: vv };
                    if !self.snake.occupies(cand) {
                        proof {
                            assert(!board_full(old(self).body(), old(self).grid())) by {
                                assert(pos_valid(cand, old(self).grid()));
                                assert(!old(self).body().contains(cand));
                            }
                        }
                        self.food = cand;
                        self.is_prize = self.food_eaten_count % 5 == 4;
                        return ;
                    }
                    vv += 1;
                }
                uu += 1;
            }
            fi += 1;
        }
        proof {
            assert forall|p: Position| pos_valid(p, n as int) implies #[trigger] self.snake.body@.contains(
                p,
            ) by {
                assert(face_index(p.face) < 6);
            }
            assert(board_full(old(self).body(), old(self).grid()));
        }
    }
}

impl GameState {
    /// Where one step from `pos` in `dir` lands on this session's grid:
    /// the cube topology resolver, exposed on the state for convenience.
    pub fn calculate_next_position(&self, pos: Position, dir: Direction) -> (r: (
        Position,
        Direction,
    ))
        requires
            1 <= self.config.grid_size,
            pos_valid(pos, self.grid()),
        ensures
            steps_to(pos, dir, self.grid(), r.0, r.1),
            pos_valid(r.0, self.grid()),
    {
        next_position(pos, dir, self.config.grid_size)
    }

    /// Advance the game by exactly one discrete step.
    ///
    /// A terminal state is sticky: once game-over is set the call returns
    /// `Nothing` and changes nothing. Otherwise the buffered direction is
    /// committed, the resolver gives the candidate head cell, and the move
    /// is applied: an illegal self-collision sets game-over and leaves
    /// body, food and score untouched; a legal move pushes the new head
    /// and adopts the resolver's output direction; a growing move scores
    /// (5 for a prize, 1 otherwise, saturating), bumps the high score and
    /// the eaten count, and respawns the food; a non-growing move drops
    /// the tail, conserving the body length.
    pub fn update(&mut self) -> (r: GameEvent)
        requires
            old(self).wf(),
        ensures
            final(self).wf(),
            final(self).config == old(self).config,
            final(self).high_score >= old(self).high_score,
            body_linked(old(self).body(), old(self).grid()) ==> body_linked(
                final(self).body(),
                old(self).grid(),
            ),
            old(self).body().no_duplicates() ==> final(self).body().no_duplicates(),
            old(self).game_over ==> r == GameEvent::Nothing && *final(self) == *old(self),
            !old(self).game_over && old(self).fatal_next() ==> ({
                &&& r == GameEvent::GameOver
                &&& final(self).game_over
                &&& final(self).snake.body@ == old(self).snake.body@
                &&& final(self).snake.direction == old(self).snake.next_direction
                &&& final(self).snake.next_direction == old(self).snake.next_direction
                &&& final(self).food == old(self).food
                &&& final(self).is_prize == old(self).is_prize
                &&& final(self).score == old(self).score
                &&& final(self).high_score == old(self).high_score
                &&& final(self).food_eaten_count == old(self).food_eaten_count
            }),
            !old(self).game_over && !old(self).fatal_next() ==> ({
                &&& !final(self).game_over
                &&& at_cell(old(self).head_step(), final(self).snake.body@[0])
                &&& final(self).snake.direction == old(self).head_step().dir
                &&& final(self).snake.next_direction == old(self).head_step().dir
            }),
            !old(self).game_over && !old(self).fatal_next() && !old(self).growing_next() ==> ({
                &&& r == GameEvent::Nothing
                &&& final(self).snake.body@.len() == old(self).snake.body@.len()
                &&& final(self).snake.body@.drop_first() == old(self).snake.body@.drop_last()
                &&& final(self).food == old(self).food
                &&& final(self).is_prize == old(self).is_prize
                &&& final(self).score == old(self).score
                &&& final(self).high_score == old(self).high_score
                &&& final(self).food_eaten_count == old(self).food_eaten_count
            }),
            !old(self).game_over && !old(self).fatal_next() && old(self).growing_next() ==> ({
                let reward: u32 = if old(self).is_prize { 5u32 } else { 1u32 };
                &&& r == (if old(self).is_prize {
                    GameEvent::EatPrize
                } else {
                    GameEvent::Eat
                })
                &&& final(self).snake.body@.len() == old(self).snake.body@.len() + 1
                &&& final(self).snake.body@.drop_first() == old(self).snake.body@
                &&& final(self).score == old(self).score.saturating_add(reward)
                &&& final(self).high_score == (if final(self).score > old(self).high_score {
                    final(self).score
                } else {
                    old(self).high_score
                })
                &&& final(self).food_eaten_count == old(self).food_eaten_count.saturating_add(1)
                &&& (!board_full(final(self).snake.body@, old(self).grid()) ==> ({
                    &&& pos_valid(final(self).food, old(self).grid())
                    &&& !final(self).snake.body@.contains(final(self).food)
                    &&& final(self).is_prize == prize_due(final(self).food_eaten_count)
                }))
                &&& (board_full(final(self).snake.body@, old(self).grid()) ==> ({
                    &&& final(self).food == old(self).food
                    &&& final(self).is_prize == old(self).is_prize
                }))
            }),
    {
        if self.game_over {
            return GameEvent::Nothing;
        }
        self.snake.direction = self.snake.next_direction;
        let head = self.snake.head();
        let dir = self.snake.direction;
        let (new_pos, new_dir) = self.calculate_next_position(head, dir);
        let growing = new_pos == self.food;
        proof {
            assert(at_cell(old(self).head_step(), new_pos));
            assert(growing == old(self).growing_next());
        }
        let occupied = self.snake.occupies(new_pos);
        if occupied {
            let tail = self.snake.body[self.snake.body.len() - 1];
            proof {
                let i = choose|i: int|
                    0 <= i < self.snake.body@.len() && self.snake.body@[i] == new_pos;
                assert(at_cell(old(self).head_step(), old(self).body()[i]));
                assert(old(self).hits_body_next());
                if new_pos == tail {
                    assert(old(self).hits_tail_next());
                }
            }
            if !growing && new_pos == tail {
                proof {
                    assert(!old(self).fatal_next());
                }
            } else {
                proof {
                    if !old(self).growing_next() && old(self).hits_tail_next() {
                        assert(self.snake.body@.last() == new_pos);
                    }
                    assert(old(self).fatal_next());
                }
                self.game_over = true;
                return GameEvent::GameOver;
            }
        } else {
            proof {
                assert(!old(self).hits_body_next()) by {
                    if old(self).hits_body_next() {
                        let i = choose|i: int|
                            0 <= i < old(self).body().len() && at_cell(
                                old(self).head_step(),
                                old(self).body()[i],
                            );
                        assert(self.snake.body@[i] == new_pos);
                    }
                }
            }
        }
        self.snake.body.push_front(new_pos);
        self.snake.direction = new_dir;
        self.snake.next_direction = new_dir;
        if growing {
            let reward: u32 = if self.is_prize {
                5
            } else {
                1
            };
            self.score = self.score.saturating_add(reward);
            if self.score > self.high_score {
                self.high_score = self.score;
            }
            self.food_eaten_count = self.food_eaten_count.saturating_add(1);
            let event = if self.is_prize {
                GameEvent::EatPrize
            } else {
                GameEvent::Eat
            };
            proof {
                assert(self.snake.body@.drop_first() =~= old(self).snake.body@);
                assert(self.wf());
                lemma_push_keeps_linked(*old(self), self.snake.body@, new_pos);
                if old(self).body().no_duplicates() {
                    assert forall|i: int| 0 <= i < self.snake.body@.len() - 1 implies old(
                        self,
                    ).body()[i] != new_pos by {
                        assert(!old(self).snake.body@.contains(new_pos));
                    }
                    lemma_push_keeps_distinct(old(self).body(), self.snake.body@, new_pos);
                }
            }
            self.spawn_food();
            event
        } else {
            self.snake.body.pop_back();
            proof {
                assert(self.snake.body@.drop_first() =~= old(self).snake.body@.drop_last());
                lemma_push_keeps_linked(*old(self), self.snake.body@, new_pos);
                if old(self).body().no_duplicates() {
                    assert forall|i: int| 0 <= i < self.snake.body@.len() - 1 implies old(
                        self,
                    ).body()[i] != new_pos by {
                        if occupied {
                            let t = old(self).head_step();
                            assert(at_cell(t, old(self).body().last()));
                            assert(new_pos == old(self).body()[old(self).body().len() - 1]);
                        } else {
                            assert(!old(self).snake.body@.contains(new_pos));
                        }
                    }
                    lemma_push_keeps_distinct(old(self).body(), self.snake.body@, new_pos);
                }
            }
            GameEvent::Nothing
        }
    }
}

/// Pushing a cell that is nowhere on the surviving part of the body onto
/// its head keeps the body free of duplicates: the collision rules accept
/// a cell already occupied only when it is the vacating tail.
proof fn lemma_push_keeps_distinct(pre_body: Seq<Position>, body: Seq<Position>, new_pos: Position)
    requires
        pre_body.no_duplicates(),
        body.len() >= 1,
        body[0] == new_pos,
        forall|i: int| 1 <= i < body.len() ==> body[i] == pre_body[i - 1],
        body.len() <= pre_body.len() + 1,
        forall|i: int| 0 <= i < body.len() - 1 ==> pre_body[i] != new_pos,
    ensures
        body.no_duplicates(),
{
    assert forall|i: int, j: int|
        0 <= i < body.len() && 0 <= j < body.len() && i != j implies body[i] != body[j] by {
        if i >= 1 && j >= 1 {
            assert(body[i] == pre_body[i - 1] && body[j] == pre_body[j - 1]);
        } else if i == 0 && j >= 1 {
            assert(body[j] == pre_body[j - 1] && pre_body[j - 1] != new_pos);
        } else {
            assert(body[i] == pre_body[i - 1] && pre_body[i - 1] != new_pos);
        }
    }
}

/// Pushing the resolver's candidate onto the head of a linked body, and
/// optionally dropping the tail, keeps the body linked: the new pair at
/// the head is one resolver step, every other pair was there before.
proof fn lemma_push_keeps_linked(pre: GameState, body: Seq<Position>, new_pos: Position)
    requires
        pre.body().len() >= 1,
        at_cell(pre.head_step(), new_pos),
        body.len() >= 1,
        body[0] == new_pos,
        forall|i: int| 1 <= i < body.len() ==> body[i] == pre.body()[i - 1],
        body.len() <= pre.body().len() + 1,
    ensures
        body_linked(pre.body(), pre.grid()) ==> body_linked(body, pre.grid()),
{
    if body_linked(pre.body(), pre.grid()) {
        assert forall|i: int, j: int| 0 <= i && j == i + 1 && j < body.len() implies succeeds(
            body[j],
            body[i],
            pre.grid(),
        ) by {
            if i == 0 {
                assert(body[1] == pre.body()[0]);
                assert(at_cell(
                    next_transition(
                        pre.body()[0].face,
                        pre.body()[0].u as int,
                        pre.body()[0].v as int,
                        pre.snake.next_direction,
                        pre.grid(),
                    ),
                    new_pos,
                ));
            } else {
                assert(body[i] == pre.body()[i - 1]);
                assert(body[j] == pre.body()[j - 1]);
                assert(succeeds(pre.body()[j - 1], pre.body()[i - 1], pre.grid()));
            }
        }
    }
}

/// Tail-chase exception: a candidate head equal to the current tail, with
/// no growth this tick, is a legal move and never ends the game.
pub proof fn lemma_tail_chase_is_legal(g: GameState)
    requires
        g.hits_tail_next(),
        !g.growing_next(),
    ensures
        !g.fatal_next(),
{
}

} // verus!
