use vstd::prelude::*;
use std::collections::VecDeque;

use crate::geometry::{Direction, Position, HEIGHT, WIDTH, in_interior, interior_cell_count,
    move_pos};
use crate::laws::{lemma_interior_capacity, lemma_interior_coverage};
use crate::rng::{gen_range_u16, new_rng};

verus! {

broadcast use vstd::std_specs::vecdeque::group_vec_dequeue_axioms;

/// How many random draws the food spawner makes before it falls back to a
/// deterministic sweep of the board; the fallback keeps the spawner total
/// without changing its observable contract.
const SPAWN_TRIES: u16 = 1024;

/// Mathematical model of a game state: the snake as a sequence of cells with
/// the head first, the food cell, the committed and the buffered direction,
/// the score, and the end-of-session flag.
#[verifier::ext_equal]
pub struct GameView {
    pub snake: Seq<Position>,
    pub food: Position,
    pub direction: Direction,
    pub next_direction: Direction,
    pub score: u32,
    pub game_over: bool,
}

impl GameView {
    /// The cell the snake's head occupies.
    pub open spec fn head(self) -> Position {
        self.snake[0]
    }

    /// The cell the head would enter on the next tick, one step in the
    /// buffered direction.
    pub open spec fn moved_head(self) -> Position {
        move_pos(self.head(), self.next_direction)
    }

    /// Well-formedness of the snake body and the steering fields, leaving the
    /// food cell aside: at least one segment, every segment inside the border,
    /// no two segments on the same cell, the buffered direction never the
    /// reverse of the committed one, and the score equal to the number of
    /// segments gained since the start.
    pub open spec fn body_ok(self) -> bool {
        &&& 1 <= self.snake.len()
        &&& (forall|i: int| 0 <= i < self.snake.len() ==> in_interior(#[trigger] self.snake[i]))
        &&& self.snake.no_duplicates()
        &&& self.next_direction != self.direction.opposite()
        &&& self.score == self.snake.len() - 1
    }

    /// Full well-formedness: a well-formed body, and while the session is
    /// still running, a food cell inside the border and off the snake.  (A
    /// session that ended because the snake filled the whole interior has no
    /// free cell left for food.)
    pub open spec fn wf(self) -> bool {
        &&& self.body_ok()
        &&& !self.game_over ==> (in_interior(self.food) && !self.snake.contains(self.food))
    }

    /// The state after committing the buffered direction.
    pub open spec fn committed(self) -> GameView {
        GameView { direction: self.next_direction, ..self }
    }

    /// The state after a fatal move: the buffered direction is committed, the
    /// session ends, and everything else is left as it was.
    pub open spec fn crashed(self) -> GameView {
        GameView { game_over: true, ..self.committed() }
    }

    /// The state after an ordinary move: the head advances one cell in the
    /// committed direction and the tail cell is vacated, so the body follows
    /// the head.
    pub open spec fn advanced(self) -> GameView {
        GameView { snake: (seq![self.moved_head()] + self.snake).drop_last(), ..self.committed() }
    }

    /// The state after a direction request: the buffered direction becomes
    /// `d` unless `d` is the exact reverse of the current direction, in which
    /// case the request is ignored.
    pub open spec fn requested(self, d: Direction) -> GameView {
        if d == self.direction.opposite() {
            self
        } else {
            GameView { next_direction: d, ..self }
        }
    }
}

/// What it takes for a snake body and a food cell to make a playable state:
/// at least one segment, all segments distinct interior cells, and the food
/// on a free interior cell.
pub open spec fn placeable(snake: Seq<Position>, food: Position) -> bool {
    &&& 1 <= snake.len()
    &&& (forall|i: int| 0 <= i < snake.len() ==> in_interior(#[trigger] snake[i]))
    &&& snake.no_duplicates()
    &&& in_interior(food)
    &&& !snake.contains(food)
}

/// The transition one tick makes, as a relation: `post` is a state that one
/// `update` call can turn `pre` into.  It is a relation rather than a
/// function because the food respawned after a meal is drawn at random; in
/// every other respect `post` is determined.
pub open spec fn step_rel(pre: GameView, post: GameView) -> bool {
    if pre.game_over {
        post == pre
    } else {
        let nh = pre.moved_head();
        if !in_interior(nh) || pre.snake.contains(nh) {
            post == pre.crashed()
        } else if nh == pre.food {
            &&& post.snake == seq![nh] + pre.snake
            &&& post.score == pre.score + 1
            &&& post.direction == pre.next_direction
            &&& post.next_direction == pre.next_direction
            &&& if pre.snake.len() + 1 < interior_cell_count() {
                &&& !post.game_over
                &&& in_interior(post.food)
                &&& !post.snake.contains(post.food)
            } else {
                &&& post.game_over
                &&& post.food == pre.food
            }
        } else {
            post == pre.advanced()
        }
    }
}

/// The glyph of one cell of the rendered board: the wall border, the snake's
/// head, a body segment, the food, or blank — in that order of precedence.
pub open spec fn glyph_at(v: GameView, x: u16, y: u16) -> char {
    let p = Position { x, y };
    if x == 0 || x == WIDTH - 1 || y == 0 || y == HEIGHT - 1 {
        '#'
    } else if v.snake.len() > 0 && v.snake[0] == p {
        'O'
    } else if v.snake.contains(p) {
        'o'
    } else if p == v.food {
        '*'
    } else {
        ' '
    }
}

/// The complete state of one game session.
pub struct Game {
    snake: VecDeque<Position>,
    food: Position,
    direction: Direction,
    next_direction: Direction,
    score: u32,
    game_over: bool,
}

impl View for Game {
    type V = GameView;

    closed spec fn view(&self) -> GameView {
        GameView {
            snake: self.snake@,
            food: self.food,
            direction: self.direction,
            next_direction: self.next_direction,
            score: self.score,
            game_over: self.game_over,
        }
    }
}

/// Whether some segment of `s` occupies the cell `p`.
fn deque_contains(s: &VecDeque<Position>, p: Position) -> (b: bool)
    ensures
        b == s@.contains(p),
{
    let n = s.len();
    let mut i: usize = 0;
    while i < n
        invariant
            n == s@.len(),
            0 <= i <= n,
            forall|k: int| 0 <= k < i ==> s@[k] != p,
        decreases n - i,
    {
        let q: Position = s[i];
        if q.x == p.x && q.y == p.y {
            return true;
        }
        i = i + 1;
    }
    false
}

/// The first interior cell, in row-major order, that no segment of `s`
/// occupies.  Such a cell exists because `s` is shorter than the interior.
fn first_free_cell(s: &VecDeque<Position>) -> (p: Position)
    requires
        s@.len() < interior_cell_count(),
    ensures
        in_interior(p),
        !s@.contains(p),
{
    let mut y: u16 = 1;
    while y < HEIGHT - 1
        invariant
            1 <= y <= HEIGHT - 1,
            forall|q: Position| in_interior(q) && q.y < y ==> s@.contains(q),
        decreases HEIGHT - 1 - y,
    {
        let mut x: u16 = 1;
        while x < WIDTH - 1
            invariant
                1 <= y < HEIGHT - 1,
                1 <= x <= WIDTH - 1,
                forall|q: Position| in_interior(q) && q.y < y ==> s@.contains(q),
                forall|q: Position| in_interior(q) && q.y == y && q.x < x ==> s@.contains(q),
            decreases WIDTH - 1 - x,
        {
            let c = Position { x, y };
            if !deque_contains(s, c) {
                return c;
            }
            x = x + 1;
        }
        y = y + 1;
    }
    proof {
        lemma_interior_coverage(s@);
    }
    Position { x: 1, y: 1 }
}

impl Game {
    /// Starts a fresh session: a single snake segment at the board's center,
    /// moving right, score zero, and food placed at random inside the border
    /// and away from the snake.
    pub fn new() -> (g: Game)
        ensures
            g@.wf(),
            g@.snake =~= seq![Position { x: WIDTH / 2, y: HEIGHT / 2 }],
            g@.direction == Direction::Right,
            g@.next_direction == Direction::Right,
            g@.score == 0,
            !g@.game_over,
            in_interior(g@.food),
            g@.food != (Position { x: WIDTH / 2, y: HEIGHT / 2 }),
    {
        let center = Position { x: WIDTH / 2, y: HEIGHT / 2 };
        let mut snake: VecDeque<Position> = VecDeque::new();
        snake.push_back(center);
        let mut g = Game {
            snake,
            food: center,
            direction: Direction::Right,
            next_direction: Direction::Right,
            score: 0,
            game_over: false,
        };
        proof {
            assert(g@.snake =~= seq![center]);
        }
        g.spawn_food();
        proof {
            assert(g@.snake[0] == center);
            assert(g@.snake.contains(center));
        }
        g
    }

    /// A random cell strictly inside the wall border.
    fn generate_food() -> (p: Position)
        ensures
            in_interior(p),
    {
        let mut rng = new_rng();
        let x = gen_range_u16(&mut rng, 1, WIDTH - 1);
        let y = gen_range_u16(&mut rng, 1, HEIGHT - 1);
        Position { x, y }
    }

    /// Relocates the food to a random interior cell that no snake segment
    /// occupies, leaving every other part of the state as it was.  Draws
    /// random cells until one is free, and after `SPAWN_TRIES` occupied draws
    /// sweeps the board for a free cell instead, so that the spawner always
    /// returns; a free cell exists because the snake is shorter than the
    /// interior.
    pub fn spawn_food(&mut self)
        requires
            old(self)@.snake.len() < interior_cell_count(),
        ensures
            final(self)@.snake == old(self)@.snake,
            final(self)@.direction == old(self)@.direction,
            final(self)@.next_direction == old(self)@.next_direction,
            final(self)@.score == old(self)@.score,
            final(self)@.game_over == old(self)@.game_over,
            in_interior(final(self)@.food),
            !final(self)@.snake.contains(final(self)@.food),
            old(self)@.body_ok() ==> final(self)@.wf(),
    {
        self.food = Game::generate_food();
        let mut tries: u16 = 0;
        while tries < SPAWN_TRIES && deque_contains(&self.snake, self.food)
            invariant
                self.snake@ == old(self).snake@,
                self.direction == old(self).direction,
                self.next_direction == old(self).next_direction,
                self.score == old(self).score,
                self.game_over == old(self).game_over,
                in_interior(self@.food),
                tries <= SPAWN_TRIES,
            decreases SPAWN_TRIES - tries,
        {
            self.food = Game::generate_food();
            tries = tries + 1;
        }
        if deque_contains(&self.snake, self.food) {
            self.food = first_free_cell(&self.snake);
        }
    }

    /// Advances the session by one tick: commits the buffered direction and
    /// moves the head one cell that way.  A move into the wall or into the
    /// body ends the session and changes nothing else.  A move onto the food
    /// grows the snake by its new head, scores one point and respawns the
    /// food off the snake — unless the snake now fills the whole interior,
    /// which ends the session as there is no cell left to play into.  Any
    /// other move shifts the body one cell after the head.  Once the session
    /// has ended, ticks change nothing.
    pub fn update(&mut self)
        requires
            old(self)@.wf(),
        ensures
            final(self)@.wf(),
            final(self)@.score >= old(self)@.score,
            step_rel(old(self)@, final(self)@),
    {
        if self.game_over {
            return;
        }
        proof {
            lemma_interior_capacity(old(self)@.snake);
        }
        self.direction = self.next_direction;
        let head: Position = self.snake[0];
        let nh = match self.direction {
            Direction::Up => Position { x: head.x, y: head.y - 1 },
            Direction::Down => Position { x: head.x, y: head.y + 1 },
            Direction::Left => Position { x: head.x - 1, y: head.y },
            Direction::Right => Position { x: head.x + 1, y: head.y },
        };
        proof {
            assert(nh == old(self)@.moved_head());
        }
        if nh.x == 0 || nh.x == WIDTH - 1 || nh.y == 0 || nh.y == HEIGHT - 1 {
            self.game_over = true;
            proof {
                assert(self@ =~= old(self)@.crashed());
            }
            return;
        }
        if deque_contains(&self.snake, nh) {
            self.game_over = true;
            proof {
                assert(self@ =~= old(self)@.crashed());
            }
            return;
        }
        self.snake.push_front(nh);
        if nh == self.food {
            self.score = self.score + 1;
            let interior_total: usize = (WIDTH as usize - 2) * (HEIGHT as usize - 2);
            proof {
                assert(interior_total == interior_cell_count());
            }
            if self.snake.len() < interior_total {
                self.spawn_food();
            } else {
                self.game_over = true;
            }
        } else {
            let _tail = self.snake.pop_back();
            proof {
                assert(self@.snake =~= old(self)@.advanced().snake);
                assert(self@ =~= old(self)@.advanced());
            }
        }
    }

    /// Buffers a direction change to take effect on the next tick.  A request
    /// for the exact reverse of the current — not the buffered — direction is
    /// ignored, so the snake can never be steered straight back into its own
    /// neck.  A later request before the next tick overwrites an earlier one.
    pub fn request_direction(&mut self, d: Direction)
        ensures
            final(self)@ == old(self)@.requested(d),
            old(self)@.wf() ==> final(self)@.wf(),
    {
        if d != self.direction.opposite() {
            self.next_direction = d;
        }
    }

    /// Ends the session at once; every later tick leaves the state unchanged.
    pub fn request_quit(&mut self)
        ensures
            final(self)@ == (GameView { game_over: true, ..old(self)@ }),
            old(self)@.wf() ==> final(self)@.wf(),
    {
        self.game_over = true;
    }

    /// Whether the session has ended.
    pub fn is_terminal(&self) -> (b: bool)
        ensures
            b == self@.game_over,
    {
        self.game_over
    }

    /// The number of food cells eaten so far.
    pub fn score(&self) -> (s: u32)
        ensures
            s == self@.score,
    {
        self.score
    }

    /// A render-ready copy of the state: the snake's cells from head to tail,
    /// the food cell, and the score.
    pub fn snapshot(&self) -> (r: (Vec<Position>, Position, u32))
        ensures
            r.0@ == self@.snake,
            r.1 == self@.food,
            r.2 == self@.score,
    {
        let n = self.snake.len();
        let mut cells: Vec<Position> = Vec::new();
        let mut i: usize = 0;
        while i < n
            invariant
                n == self@.snake.len(),
                0 <= i <= n,
                cells@ == self@.snake.subrange(0, i as int),
            decreases n - i,
        {
            let q: Position = self.snake[i];
            cells.push(q);
            proof {
                assert(cells@ =~= self@.snake.subrange(0, i + 1 as int));
            }
            i = i + 1;
        }
        proof {
            assert(cells@ =~= self@.snake);
        }
        (cells, self.food, self.score)
    }

    /// The glyph the renderer should draw at cell (x, y).
    pub fn cell_glyph(&self, x: u16, y: u16) -> (c: char)
        ensures
            c == glyph_at(self@, x, y),
    {
        if x == 0 || x == WIDTH - 1 || y == 0 || y == HEIGHT - 1 {
            return '#';
        }
        let p = Position { x, y };
        if self.snake.len() > 0 {
            let h: Position = self.snake[0];
            if h == p {
                return 'O';
            }
        }
        if deque_contains(&self.snake, p) {
            return 'o';
        }
        if p == self.food {
            return '*';
        }
        ' '
    }

    /// Builds a running session from explicit parts, so that a state can be
    /// laid out deterministically: the snake's cells from head to tail, the
    /// food cell, and the direction of travel, which is also buffered.  The
    /// score starts at the number of segments gained over a single-cell
    /// snake.  Returns None exactly when the parts make no playable state.
    pub fn with_state(snake: Vec<Position>, food: Position, direction: Direction) -> (g: Option<
        Game,
    >)
        ensures
            match g {
                Some(gm) => {
                    &&& placeable(snake@, food)
                    &&& gm@.wf()
                    &&& gm@.snake == snake@
                    &&& gm@.food == food
                    &&& gm@.direction == direction
                    &&& gm@.next_direction == direction
                    &&& gm@.score == snake@.len() - 1
                    &&& !gm@.game_over
                },
                None => !placeable(snake@, food),
            },
    {
        let n = snake.len();
        if n == 0 {
            return None;
        }
        let mut i: usize = 0;
        while i < n
            invariant
                n == snake@.len(),
                0 <= i <= n,
                forall|k: int| 0 <= k < i ==> in_interior(#[trigger] snake@[k]),
            decreases n - i,
        {
            let p = snake[i];
            if p.x == 0 || p.x >= WIDTH - 1 || p.y == 0 || p.y >= HEIGHT - 1 {
                return None;
            }
            i = i + 1;
        }
        let mut a: usize = 0;
        while a < n
            invariant
                n == snake@.len(),
                0 <= a <= n,
                forall|s: int, t: int| 0 <= s < a && s < t < n ==> snake@[s] != snake@[t],
            decreases n - a,
        {
            let mut b: usize = a + 1;
            while b < n
                invariant
                    n == snake@.len(),
                    0 <= a < n,
                    a < b <= n,
                    forall|t: int| a < t < b ==> snake@[a as int] != snake@[t],
                decreases n - b,
            {
                if snake[a] == snake[b] {
                    return None;
                }
                b = b + 1;
            }
            a = a + 1;
        }
        proof {
            assert forall|s: int, t: int|
                0 <= s < n && 0 <= t < n && s != t implies snake@[s] != snake@[t] by {
                if s < t {
                    assert(snake@[s] != snake@[t]);
                } else {
                    assert(snake@[t] != snake@[s]);
                }
            }
            assert(snake@.no_duplicates());
        }
        if food.x == 0 || food.x >= WIDTH - 1 || food.y == 0 || food.y >= HEIGHT - 1 {
            return None;
        }
        let mut body: VecDeque<Position> = VecDeque::new();
        let mut i: usize = 0;
        while i < n
            invariant
                n == snake@.len(),
                0 <= i <= n,
                body@ == snake@.subrange(0, i as int),
            decreases n - i,
        {
            body.push_back(snake[i]);
            proof {
                assert(body@ =~= snake@.subrange(0, i + 1 as int));
            }
            i = i + 1;
        }
        proof {
            assert(body@ =~= snake@);
        }
        if deque_contains(&body, food) {
            return None;
        }
        proof {
            lemma_interior_capacity(snake@);
        }
        Some(
            Game {
                snake: body,
                food,
                direction,
                next_direction: direction,
                score: (n - 1) as u32,
                game_over: false,
            },
        )
    }
}

} // verus!
