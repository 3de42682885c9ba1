//! The game engine: grid model, snake movement, collision detection, and
//! food placement, advanced one tick at a time by an outside driver.

use rand::Rng;
use vstd::prelude::*;

verus! {

/// Whether the simulation is running, halted reversibly, or finished.
#[derive(Copy, Clone, Debug, PartialEq, Eq, Structural)]
pub enum GameState {
    Playing,
    Paused,
    Over,
}

/// The heading applied to the snake on the next tick.
#[derive(Copy, Clone, Debug, PartialEq, Eq, Structural)]
pub enum PlayerDirection {
    Up,
    Down,
    Right,
    Left,
}

/// A grid cell, addressed by column and row.
#[derive(Copy, Clone, Debug, PartialEq, Eq, Structural)]
pub struct Point(pub i32, pub i32);

impl Point {
    /// Componentwise sum, used to step from a cell to a neighbouring one.
    pub fn plus(self, rhs: Point) -> (r: Point)
        requires
            i32::MIN <= self.0 + rhs.0 <= i32::MAX,
            i32::MIN <= self.1 + rhs.1 <= i32::MAX,
        ensures
            r.0 == self.0 + rhs.0,
            r.1 == self.1 + rhs.1,
    {
        Point(self.0 + rhs.0, self.1 + rhs.1)
    }
}

/// Width and height of the playing field in cells, fixed at construction.
#[derive(Copy, Clone, Debug, PartialEq, Eq, Structural)]
pub struct GridSize {
    pub width: i32,
    pub height: i32,
}

/// The heading that undoes `d`; a heading is never allowed to change
/// directly into its own opposite.
pub open spec fn opposite(d: PlayerDirection) -> PlayerDirection {
    match d {
        PlayerDirection::Up => PlayerDirection::Down,
        PlayerDirection::Down => PlayerDirection::Up,
        PlayerDirection::Right => PlayerDirection::Left,
        PlayerDirection::Left => PlayerDirection::Right,
    }
}

/// The heading after one direction-change request: the request is honoured
/// unless it is the exact opposite of the current heading.
pub open spec fn dir_after_move(
    current: PlayerDirection,
    requested: PlayerDirection,
) -> PlayerDirection {
    if requested == opposite(current) {
        current
    } else {
        requested
    }
}

/// The game state after one pause toggle: Playing and Paused swap, Over is
/// untouched.
pub open spec fn toggled(s: GameState) -> GameState {
    match s {
        GameState::Playing => GameState::Paused,
        GameState::Paused => GameState::Playing,
        GameState::Over => GameState::Over,
    }
}

/// The authoritative game state: snake body (head first), pending heading,
/// food cell, run state, and the fixed grid dimensions.
pub struct GameContext {
    pub player_position: Vec<Point>,
    pub player_direction: PlayerDirection,
    pub food: Point,
    pub state: GameState,
    pub grid_size: GridSize,
}

impl GameContext {
    /// `p` lies strictly inside the playing field.
    pub open spec fn in_grid(self, p: Point) -> bool {
        0 <= p.0 < self.grid_size.width && 0 <= p.1 < self.grid_size.height
    }

    /// Well-formedness: the grid is large enough to contain the fixed
    /// initial snake and food, the snake is never empty, and every segment
    /// and the food lie inside the grid.
    pub open spec fn wf(self) -> bool {
        &&& 4 <= self.grid_size.width
        &&& 4 <= self.grid_size.height
        &&& 1 <= self.player_position@.len()
        &&& forall|i: int|
            0 <= i < self.player_position@.len() ==> self.in_grid(
                #[trigger] self.player_position@[i],
            )
        &&& self.in_grid(self.food)
    }

    /// The cell the head would move into on the next tick: the current head
    /// shifted one cell along the current heading.
    pub open spec fn spec_next_head(self) -> Point {
        let h = self.player_position@[0];
        match self.player_direction {
            PlayerDirection::Up => Point(h.0, (h.1 - 1) as i32),
            PlayerDirection::Down => Point(h.0, (h.1 + 1) as i32),
            PlayerDirection::Right => Point((h.0 + 1) as i32, h.1),
            PlayerDirection::Left => Point((h.0 - 1) as i32, h.1),
        }
    }

    /// `c` touches the boundary ring just outside the playing field.
    pub open spec fn wall_hit(self, c: Point) -> bool {
        ||| c.0 == -1
        ||| c.0 == self.grid_size.width
        ||| c.1 == -1
        ||| c.1 == self.grid_size.height
    }

    /// `c` coincides with some segment of the current (pre-advance) body.
    pub open spec fn body_hit(self, c: Point) -> bool {
        exists|i: int| 0 <= i < self.player_position@.len() && self.player_position@[i] == c
    }
}

/// How one tick relates the state before it to the state after it. While
/// not Playing the tick changes nothing. While Playing, the candidate head
/// cell is judged against the walls, the pre-advance body, and the food:
/// a wall or body hit ends the game and cancels the physical advance; a
/// food hit prepends the candidate once more (net growth of one segment)
/// and moves the food somewhere inside the grid; otherwise the tail is
/// dropped and the candidate becomes the new head.
pub open spec fn tick_step(pre: GameContext, post: GameContext) -> bool {
    if pre.state != GameState::Playing {
        post == pre
    } else {
        let c = pre.spec_next_head();
        let hit = pre.wall_hit(c) || pre.body_hit(c);
        let ate = c == pre.food;
        &&& post.grid_size == pre.grid_size
        &&& post.player_direction == pre.player_direction
        &&& post.state == (if hit {
            GameState::Over
        } else {
            GameState::Playing
        })
        &&& post.player_position@ == (if hit {
            if ate {
                seq![c] + pre.player_position@
            } else {
                pre.player_position@
            }
        } else {
            if ate {
                seq![c, c] + pre.player_position@.drop_last()
            } else {
                seq![c] + pre.player_position@.drop_last()
            }
        })
        &&& (if ate {
            post.in_grid(post.food)
        } else {
            post.food == pre.food
        })
    }
}

/// Relies on rand::Rng::gen_range over the range `0..bound`: the draw is
/// uniform over the range and always lies within it; the range is nonempty,
/// so the call does not panic.
#[verifier::external_body]
fn random_below(bound: i32) -> (r: i32)
    requires
        1 <= bound,
    ensures
        0 <= r < bound,
{
    rand::thread_rng().gen_range(0..bound)
}

impl GameContext {
    /// A fresh engine: three snake segments on the second row, heading
    /// Right, food at (3, 3), Paused. The grid must be at least 4 x 4 so
    /// that this fixed initial layout lies inside it; smaller grids are
    /// rejected here rather than allowed to start in a degenerate position.
    pub fn new(grid_size: GridSize) -> (ctx: GameContext)
        requires
            4 <= grid_size.width,
            4 <= grid_size.height,
        ensures
            ctx.grid_size == grid_size,
            ctx.player_position@ == seq![Point(3, 1), Point(2, 1), Point(1, 1)],
            ctx.player_direction == PlayerDirection::Right,
            ctx.food == Point(3, 3),
            ctx.state == GameState::Paused,
            ctx.wf(),
    {
        let mut body: Vec<Point> = Vec::new();
        body.push(Point(3, 1));
        body.push(Point(2, 1));
        body.push(Point(1, 1));
        proof {
            assert(body@ =~= seq![Point(3, 1), Point(2, 1), Point(1, 1)]);
        }
        GameContext {
            player_position: body,
            player_direction: PlayerDirection::Right,
            state: GameState::Paused,
            food: Point(3, 3),
            grid_size: grid_size,
        }
    }

    /// One simulation step, as `tick_step` describes: a no-op unless
    /// Playing, otherwise collision and food evaluation on the candidate
    /// head cell followed, if the game survived, by the physical advance.
    pub fn next_tick(&mut self)
        requires
            old(self).wf(),
        ensures
            final(self).wf(),
            tick_step(*old(self), *final(self)),
    {
        match self.state {
            GameState::Paused | GameState::Over => {
                return;
            },
            GameState::Playing => {},
        }

        let next_head_position = self.get_next_head_position();
        self.check_collision(next_head_position);
        if !matches!(self.state, GameState::Over) {
            self.advance(next_head_position);
            proof {
                assert(self.player_position@ =~= (if next_head_position == old(self).food {
                    seq![next_head_position, next_head_position]
                        + old(self).player_position@.drop_last()
                } else {
                    seq![next_head_position] + old(self).player_position@.drop_last()
                }));
            }
        }
    }

    /// Request heading Up; ignored when the snake is heading Down.
    pub fn move_up(&mut self)
        ensures
            final(self).player_direction == dir_after_move(
                old(self).player_direction,
                PlayerDirection::Up,
            ),
            final(self).player_position@ == old(self).player_position@,
            final(self).food == old(self).food,
            final(self).state == old(self).state,
            final(self).grid_size == old(self).grid_size,
    {
        if matches!(self.player_direction, PlayerDirection::Down) {
            return;
        }
        self.player_direction = PlayerDirection::Up;
    }

    /// Request heading Down; ignored when the snake is heading Up.
    pub fn move_down(&mut self)
        ensures
            final(self).player_direction == dir_after_move(
                old(self).player_direction,
                PlayerDirection::Down,
            ),
            final(self).player_position@ == old(self).player_position@,
            final(self).food == old(self).food,
            final(self).state == old(self).state,
            final(self).grid_size == old(self).grid_size,
    {
        if matches!(self.player_direction, PlayerDirection::Up) {
            return;
        }
        self.player_direction = PlayerDirection::Down;
    }

    /// Request heading Right; ignored when the snake is heading Left.
    pub fn move_right(&mut self)
        ensures
            final(self).player_direction == dir_after_move(
                old(self).player_direction,
                PlayerDirection::Right,
            ),
            final(self).player_position@ == old(self).player_position@,
            final(self).food == old(self).food,
            final(self).state == old(self).state,
            final(self).grid_size == old(self).grid_size,
    {
        if matches!(self.player_direction, PlayerDirection::Left) {
            return;
        }
        self.player_direction = PlayerDirection::Right;
    }

    /// Request heading Left; ignored when the snake is heading Right.
    pub fn move_left(&mut self)
        ensures
            final(self).player_direction == dir_after_move(
                old(self).player_direction,
                PlayerDirection::Left,
            ),
            final(self).player_position@ == old(self).player_position@,
            final(self).food == old(self).food,
            final(self).state == old(self).state,
            final(self).grid_size == old(self).grid_size,
    {
        if matches!(self.player_direction, PlayerDirection::Right) {
            return;
        }
        self.player_direction = PlayerDirection::Left;
    }

    /// Swap Playing and Paused; a finished game stays Over.
    pub fn toggle_pause(&mut self)
        ensures
            final(self).state == toggled(old(self).state),
            final(self).player_position@ == old(self).player_position@,
            final(self).player_direction == old(self).player_direction,
            final(self).food == old(self).food,
            final(self).grid_size == old(self).grid_size,
    {
        self.state = match self.state {
            GameState::Playing => GameState::Paused,
            GameState::Paused => GameState::Playing,
            GameState::Over => GameState::Over,
        };
    }

    /// The candidate head cell for the coming tick.
    fn get_next_head_position(&self) -> (r: Point)
        requires
            self.wf(),
        ensures
            r == self.spec_next_head(),
    {
        proof {
            assert(self.in_grid(self.player_position@[0]));
        }
        let head_position = self.player_position[0];
        match self.player_direction {
            PlayerDirection::Up => head_position.plus(Point(0, -1)),
            PlayerDirection::Down => head_position.plus(Point(0, 1)),
            PlayerDirection::Right => head_position.plus(Point(1, 0)),
            PlayerDirection::Left => head_position.plus(Point(-1, 0)),
        }
    }

    /// Prepend a new head segment.
    fn add_head(&mut self, next_head_position: Point)
        ensures
            final(self).player_position@ == seq![next_head_position] + old(
                self,
            ).player_position@,
            final(self).player_direction == old(self).player_direction,
            final(self).food == old(self).food,
            final(self).state == old(self).state,
            final(self).grid_size == old(self).grid_size,
    {
        self.player_position.insert(0, next_head_position);
        proof {
            assert(self.player_position@ =~= seq![next_head_position] + old(
                self,
            ).player_position@);
        }
    }

    /// Drop the tail segment.
    fn remove_tail(&mut self)
        requires
            1 <= old(self).player_position@.len(),
        ensures
            final(self).player_position@ == old(self).player_position@.drop_last(),
            final(self).player_direction == old(self).player_direction,
            final(self).food == old(self).food,
            final(self).state == old(self).state,
            final(self).grid_size == old(self).grid_size,
    {
        self.player_position.pop();
    }

    /// The physical advance of a surviving tick: drop the tail, then
    /// prepend the candidate head.
    fn advance(&mut self, next_head_position: Point)
        requires
            1 <= old(self).player_position@.len(),
        ensures
            final(self).player_position@ == seq![next_head_position] + old(
                self,
            ).player_position@.drop_last(),
            final(self).player_direction == old(self).player_direction,
            final(self).food == old(self).food,
            final(self).state == old(self).state,
            final(self).grid_size == old(self).grid_size,
    {
        self.remove_tail();
        self.add_head(next_head_position);
    }

    /// Move the food to a cell drawn independently on each axis, anywhere
    /// inside the grid (possibly on the snake; occupancy is not re-checked).
    fn generate_food(&mut self)
        requires
            1 <= old(self).grid_size.width,
            1 <= old(self).grid_size.height,
        ensures
            final(self).in_grid(final(self).food),
            final(self).player_position@ == old(self).player_position@,
            final(self).player_direction == old(self).player_direction,
            final(self).state == old(self).state,
            final(self).grid_size == old(self).grid_size,
    {
        let x = random_below(self.grid_size.width);
        let y = random_below(self.grid_size.height);
        self.food = Point(x, y);
    }

    /// Judge the candidate head cell against the walls, every segment of
    /// the pre-advance body, and the food. The three checks are
    /// independent: a wall or body hit sets Over, and a food hit prepends
    /// the candidate and re-places the food, even on the same tick.
    #[verifier::loop_isolation(false)]
    fn check_collision(&mut self, next_head_position: Point)
        requires
            old(self).wf(),
        ensures
            final(self).state == (if old(self).wall_hit(next_head_position) || old(
                self,
            ).body_hit(next_head_position) {
                GameState::Over
            } else {
                old(self).state
            }),
            final(self).player_position@ == (if next_head_position == old(self).food {
                seq![next_head_position] + old(self).player_position@
            } else {
                old(self).player_position@
            }),
            next_head_position == old(self).food ==> final(self).in_grid(final(self).food),
            next_head_position != old(self).food ==> final(self).food == old(self).food,
            final(self).player_direction == old(self).player_direction,
            final(self).grid_size == old(self).grid_size,
    {
        if next_head_position.0 == -1 || next_head_position.0 == self.grid_size.width
            || next_head_position.1 == -1 || next_head_position.1 == self.grid_size.height {
            self.state = GameState::Over;
        }

        let mut i: usize = 0;
        while i < self.player_position.len()
            invariant
                i <= self.player_position@.len(),
                self.player_position@ == old(self).player_position@,
                self.player_direction == old(self).player_direction,
                self.food == old(self).food,
                self.grid_size == old(self).grid_size,
                self.state == (if old(self).wall_hit(next_head_position) || (exists|j: int|
                    0 <= j < i && old(self).player_position@[j] == next_head_position) {
                    GameState::Over
                } else {
                    old(self).state
                }),
            decreases self.player_position@.len() - i,
        {
            if next_head_position == self.player_position[i] {
                self.state = GameState::Over;
            }
            i = i + 1;
        }

        if next_head_position == self.food {
            self.add_head(next_head_position);
            self.generate_food();
        }
    }
}

/// No-reversal law: requesting the exact opposite of the current heading
/// leaves the heading unchanged.
pub proof fn lemma_no_reversal(d: PlayerDirection)
    ensures
        dir_after_move(d, opposite(d)) == d,
{
}

/// A tick taken while Paused or Over changes nothing: not the snake, not
/// the heading, not the food, not the state.
pub proof fn lemma_tick_frozen(pre: GameContext, post: GameContext)
    requires
        tick_step(pre, post),
        pre.state != GameState::Playing,
    ensures
        post == pre,
{
}

/// A candidate head on the boundary ends the game, and a finished game is
/// frozen: any later tick changes nothing.
pub proof fn lemma_wall_collision_fatal(pre: GameContext, post: GameContext, later: GameContext)
    requires
        pre.state == GameState::Playing,
        tick_step(pre, post),
        pre.wall_hit(pre.spec_next_head()),
        tick_step(post, later),
    ensures
        post.state == GameState::Over,
        later == post,
{
}

/// A candidate head on any segment of the pre-advance body (the vacating
/// tail included) ends the game.
pub proof fn lemma_self_collision_fatal(pre: GameContext, post: GameContext, i: int)
    requires
        pre.state == GameState::Playing,
        tick_step(pre, post),
        0 <= i < pre.player_position@.len(),
        pre.player_position@[i] == pre.spec_next_head(),
    ensures
        post.state == GameState::Over,
{
}

/// A candidate head on the food grows the snake by exactly one segment on
/// that tick and leaves the new food somewhere inside the grid.
pub proof fn lemma_food_growth(pre: GameContext, post: GameContext)
    requires
        pre.wf(),
        pre.state == GameState::Playing,
        tick_step(pre, post),
        pre.spec_next_head() == pre.food,
    ensures
        post.player_position@.len() == pre.player_position@.len() + 1,
        0 <= post.food.0 < pre.grid_size.width,
        0 <= post.food.1 < pre.grid_size.height,
{
}

/// Toggling pause twice returns to the starting state, whatever it was.
pub proof fn lemma_toggle_twice(s: GameState)
    ensures
        toggled(toggled(s)) == s,
{
}

} // verus!
