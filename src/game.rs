use vstd::prelude::*;
use std::collections::VecDeque;
use rand::Rng;
use crate::engine::apply_next;
use crate::inflight::{InFlight, after_release};
use crate::ledger::{Ledger, first_applicable, ledger_step, marked, next_applied};

verus! {

pub const BOARD_WIDTH: u16 = 20;
pub const BOARD_HEIGHT: u16 = 20;

/// Milliseconds per tick at the start of a game.
pub const INITIAL_SPEED: u64 = 200;

/// Points for each piece of food.
pub const FOOD_POINTS: u32 = 10;

/// A cell of the board; `y` grows downwards.
#[derive(Clone, Copy, Debug, PartialEq, Eq, Structural)]
pub struct Position {
    pub x: u16,
    pub y: u16,
}

#[derive(Clone, Copy, Debug, PartialEq, Eq, Structural)]
pub enum Direction {
    Up,
    Down,
    Left,
    Right,
}

pub open spec fn opposite_of(d: Direction) -> Direction {
    match d {
        Direction::Up => Direction::Down,
        Direction::Down => Direction::Up,
        Direction::Left => Direction::Right,
        Direction::Right => Direction::Left,
    }
}

impl Direction {
    pub fn opposite(&self) -> (r: Direction)
        ensures
            r == opposite_of(*self),
    {
        match self {
            Direction::Up => Direction::Down,
            Direction::Down => Direction::Up,
            Direction::Left => Direction::Right,
            Direction::Right => Direction::Left,
        }
    }

    /// The value a move transaction carries for this direction.
    pub fn value(&self) -> (r: u64)
        ensures
            r == match self {
                Direction::Up => 1u64,
                Direction::Down => 2u64,
                Direction::Left => 3u64,
                Direction::Right => 4u64,
            },
    {
        match self {
            Direction::Up => 1,
            Direction::Down => 2,
            Direction::Left => 3,
            Direction::Right => 4,
        }
    }
}

pub open spec fn on_board(p: Position) -> bool {
    p.x < BOARD_WIDTH && p.y < BOARD_HEIGHT
}

/// The cell one step from `head`, or `None` at the wall.
pub open spec fn step_from(head: Position, d: Direction) -> Option<Position> {
    match d {
        Direction::Up => if head.y == 0 {
            None
        } else {
            Some(Position { x: head.x, y: (head.y - 1) as u16 })
        },
        Direction::Down => if head.y >= BOARD_HEIGHT - 1 {
            None
        } else {
            Some(Position { x: head.x, y: (head.y + 1) as u16 })
        },
        Direction::Left => if head.x == 0 {
            None
        } else {
            Some(Position { x: (head.x - 1) as u16, y: head.y })
        },
        Direction::Right => if head.x >= BOARD_WIDTH - 1 {
            None
        } else {
            Some(Position { x: (head.x + 1) as u16, y: head.y })
        },
    }
}

/// Where a snake with body `b` heading `d` goes next: `None` at a wall or
/// into its own body.
pub open spec fn next_head(b: Seq<Position>, d: Direction) -> Option<Position> {
    if b.len() == 0 {
        None
    } else {
        match step_from(b[0], d) {
            None => None,
            Some(p) => if b.contains(p) {
                None
            } else {
                Some(p)
            },
        }
    }
}

/// The direction after a requested turn: a reversal is ignored.
pub open spec fn turned(current: Direction, requested: Direction) -> Direction {
    if requested != opposite_of(current) {
        requested
    } else {
        current
    }
}

/// Body cells, head first.
pub struct Snake {
    body: VecDeque<Position>,
    direction: Direction,
}

fn contains_pos(v: &VecDeque<Position>, p: Position) -> (r: bool)
    ensures
        r == v@.contains(p),
{
    let mut i: usize = 0;
    while i < v.len()
        invariant
            i <= v@.len(),
            forall|j: int| 0 <= j < i ==> v@[j] != p,
        decreases v@.len() - i,
    {
        if v[i] == p {
            assert(v@[i as int] == p);
            return true;
        }
        i = i + 1;
    }
    false
}

impl Snake {
    pub closed spec fn body_spec(&self) -> Seq<Position> {
        self.body@
    }

    pub closed spec fn direction_spec(&self) -> Direction {
        self.direction
    }

    /// A snake of three cells ending at `head`, heading right.
    pub fn new(head: Position) -> (r: Self)
        ensures
            r.body_spec() == seq![
                head,
                Position { x: if head.x >= 1 { (head.x - 1) as u16 } else { 0 }, y: head.y },
                Position { x: if head.x >= 2 { (head.x - 2) as u16 } else { 0 }, y: head.y },
            ],
            r.direction_spec() == Direction::Right,
    {
        let mut body: VecDeque<Position> = VecDeque::new();
        body.push_back(head);
        body.push_back(Position { x: head.x.saturating_sub(1), y: head.y });
        body.push_back(Position { x: head.x.saturating_sub(2), y: head.y });
        let r = Snake { body, direction: Direction::Right };
        assert(r.body_spec() =~= seq![
            head,
            Position { x: if head.x >= 1 { (head.x - 1) as u16 } else { 0 }, y: head.y },
            Position { x: if head.x >= 2 { (head.x - 2) as u16 } else { 0 }, y: head.y },
        ]);
        r
    }

    pub fn body(&self) -> (r: &VecDeque<Position>)
        ensures
            r@ == self.body_spec(),
    {
        &self.body
    }

    pub fn direction(&self) -> (r: Direction)
        ensures
            r == self.direction_spec(),
    {
        self.direction
    }

    /// Turns, unless the new direction is the reverse of the current one.
    pub fn change_direction(&mut self, new_direction: Direction)
        ensures
            final(self).body_spec() == old(self).body_spec(),
            final(self).direction_spec() == turned(old(self).direction_spec(), new_direction),
    {
        if new_direction != self.direction.opposite() {
            self.direction = new_direction;
        }
    }

    /// Moves one cell. Hitting a wall or the body leaves the snake as it is
    /// and returns `None`; otherwise the new head is returned.
    pub fn move_forward(&mut self) -> (r: Option<Position>)
        ensures
            final(self).direction_spec() == old(self).direction_spec(),
            r == next_head(old(self).body_spec(), old(self).direction_spec()),
            final(self).body_spec() == match r {
                Some(p) => seq![p] + old(self).body_spec().drop_last(),
                None => old(self).body_spec(),
            },
    {
        if self.body.len() == 0 {
            return None;
        }
        let head = self.body[0];
        let new_head = match self.direction {
            Direction::Up => {
                if head.y == 0 {
                    return None;
                }
                Position { x: head.x, y: head.y - 1 }
            },
            Direction::Down => {
                if head.y >= BOARD_HEIGHT - 1 {
                    return None;
                }
                Position { x: head.x, y: head.y + 1 }
            },
            Direction::Left => {
                if head.x == 0 {
                    return None;
                }
                Position { x: head.x - 1, y: head.y }
            },
            Direction::Right => {
                if head.x >= BOARD_WIDTH - 1 {
                    return None;
                }
                Position { x: head.x + 1, y: head.y }
            },
        };
        if contains_pos(&self.body, new_head) {
            return None;
        }
        self.body.push_front(new_head);
        self.body.pop_back();
        assert(self.body@ =~= seq![new_head] + old(self).body@.drop_last());
        Some(new_head)
    }

    /// Adds a cell at the tail, which the next move leaves behind.
    pub fn grow(&mut self)
        ensures
            final(self).direction_spec() == old(self).direction_spec(),
            final(self).body_spec() == if old(self).body_spec().len() > 0 {
                old(self).body_spec().push(old(self).body_spec().last())
            } else {
                old(self).body_spec()
            },
    {
        let n = self.body.len();
        if n > 0 {
            let tail = self.body[n - 1];
            self.body.push_back(tail);
        }
    }
}

} // verus!

verus! {

/// Relies on rand::Rng::gen_range on the thread-local generator: a value in
/// `0..bound`, which is not empty.
#[verifier::external_body]
fn random_below(bound: usize) -> (r: usize)
    requires
        bound > 0,
    ensures
        r < bound,
{
    rand::thread_rng().gen_range(0..bound)
}

/// Whether `p` is before the scan point `(x, y)` in row order.
pub open spec fn scanned_before(p: Position, x: int, y: int) -> bool {
    p.y < y || (p.y == y && p.x < x)
}

/// The `k`-th board cell in row order.
pub open spec fn cell_at(k: int) -> Position {
    Position { x: (k % (BOARD_WIDTH as int)) as u16, y: (k / (BOARD_WIDTH as int)) as u16 }
}

/// The free cells among the first `k` cells in row order.
pub open spec fn free_prefix(body: Seq<Position>, k: nat) -> Seq<Position>
    decreases k,
{
    if k == 0 {
        Seq::empty()
    } else {
        let rest = free_prefix(body, (k - 1) as nat);
        if body.contains(cell_at(k - 1)) {
            rest
        } else {
            rest.push(cell_at(k - 1))
        }
    }
}

/// The cells not covered by `body`, in row order.
pub open spec fn free_cells_of(body: Seq<Position>) -> Seq<Position> {
    free_prefix(body, (BOARD_WIDTH * BOARD_HEIGHT) as nat)
}

/// Whether some board cell is not covered by `body`.
pub open spec fn has_free_cell(body: Seq<Position>) -> bool {
    exists|p: Position| on_board(p) && !body.contains(p)
}

/// The game's state: the snake, the food, the score and the tick length.
pub struct Game {
    snake: Snake,
    food: Position,
    score: u32,
    game_over: bool,
    speed: u64,
}

/// The score after eating once; it stops at the largest `u32`.
pub open spec fn score_after_food(score: u32) -> u32 {
    if score <= u32::MAX - FOOD_POINTS {
        (score + FOOD_POINTS) as u32
    } else {
        u32::MAX
    }
}

/// The tick length after the score changed: ten milliseconds less at each
/// multiple of fifty points, down to a floor.
pub open spec fn speed_after(score: u32, speed: u64) -> u64 {
    if score % 50 == 0 && speed > 50 {
        (speed - 10) as u64
    } else {
        speed
    }
}

impl Game {
    pub closed spec fn snake_body(&self) -> Seq<Position> {
        self.snake.body_spec()
    }

    pub closed spec fn snake_direction(&self) -> Direction {
        self.snake.direction_spec()
    }

    pub closed spec fn food_spec(&self) -> Position {
        self.food
    }

    pub closed spec fn score_spec(&self) -> u32 {
        self.score
    }

    pub closed spec fn over_spec(&self) -> bool {
        self.game_over
    }

    pub closed spec fn speed_spec(&self) -> u64 {
        self.speed
    }

    /// The state of a new game before food is placed.
    fn fresh() -> (r: Self)
        ensures
            r.snake_body() == seq![
                Position { x: 10, y: 10 },
                Position { x: 9, y: 10 },
                Position { x: 8, y: 10 },
            ],
            r.snake_direction() == Direction::Right,
            r.score_spec() == 0,
            !r.over_spec(),
            r.speed_spec() == INITIAL_SPEED,
    {
        Game {
            snake: Snake::new(Position { x: BOARD_WIDTH / 2, y: BOARD_HEIGHT / 2 }),
            food: Position { x: 0, y: 0 },
            score: 0,
            game_over: false,
            speed: INITIAL_SPEED,
        }
    }

    /// A new game: a three-cell snake in the middle heading right, and food
    /// on a free cell.
    pub fn new() -> (r: Self)
        ensures
            r.snake_body() == seq![
                Position { x: 10, y: 10 },
                Position { x: 9, y: 10 },
                Position { x: 8, y: 10 },
            ],
            r.snake_direction() == Direction::Right,
            r.score_spec() == 0,
            !r.over_spec(),
            r.speed_spec() == INITIAL_SPEED,
            on_board(r.food_spec()),
            !r.snake_body().contains(r.food_spec()),
    {
        let mut g = Game::fresh();
        proof {
            g.lemma_has_free_cell();
        }
        g.spawn_food();
        g
    }

    /// Starts over, as `new` does.
    pub fn reset(&mut self)
        ensures
            final(self).snake_body() == seq![
                Position { x: 10, y: 10 },
                Position { x: 9, y: 10 },
                Position { x: 8, y: 10 },
            ],
            final(self).snake_direction() == Direction::Right,
            final(self).score_spec() == 0,
            !final(self).over_spec(),
            final(self).speed_spec() == INITIAL_SPEED,
            on_board(final(self).food_spec()),
            !final(self).snake_body().contains(final(self).food_spec()),
    {
        *self = Game::new();
    }

    proof fn lemma_has_free_cell(&self)
        requires
            self.snake_body().len() == 3,
        ensures
            has_free_cell(self.snake_body()),
    {
        let b = self.snake_body();
        let cands = seq![
            Position { x: 0, y: 0 },
            Position { x: 1, y: 0 },
            Position { x: 2, y: 0 },
            Position { x: 3, y: 0 },
        ];
        if forall|k: int| 0 <= k < 4 ==> b.contains(#[trigger] cands[k]) {
            assert(b.contains(cands[0]) && b.contains(cands[1]) && b.contains(cands[2]) && b.contains(cands[3]));
            let i0 = choose|i: int| 0 <= i < 3 && b[i] == cands[0];
            let i1 = choose|i: int| 0 <= i < 3 && b[i] == cands[1];
            let i2 = choose|i: int| 0 <= i < 3 && b[i] == cands[2];
            let i3 = choose|i: int| 0 <= i < 3 && b[i] == cands[3];
            assert(false);
        }
        let k = choose|k: int| 0 <= k < 4 && !b.contains(#[trigger] cands[k]);
        assert(on_board(cands[k]));
    }

    pub fn snake(&self) -> (r: &Snake)
        ensures
            r.body_spec() == self.snake_body(),
            r.direction_spec() == self.snake_direction(),
    {
        &self.snake
    }

    pub fn food(&self) -> (r: Position)
        ensures
            r == self.food_spec(),
    {
        self.food
    }

    pub fn score(&self) -> (r: u32)
        ensures
            r == self.score_spec(),
    {
        self.score
    }

    pub fn is_over(&self) -> (r: bool)
        ensures
            r == self.over_spec(),
    {
        self.game_over
    }

    pub fn speed(&self) -> (r: u64)
        ensures
            r == self.speed_spec(),
    {
        self.speed
    }

    /// Whether a move in this direction would be taken, that is, whether it
    /// does not reverse the snake.
    pub fn is_valid_move(&self, new_direction: Direction) -> (r: bool)
        ensures
            r == (new_direction != opposite_of(self.snake_direction())),
    {
        new_direction != self.snake.direction.opposite()
    }

    /// Every board cell the snake does not cover, row by row.
    pub fn free_cells(&self) -> (r: Vec<Position>)
        ensures
            r@ == free_cells_of(self.snake_body()),
            forall|p: Position| r@.contains(p) <==> (on_board(p) && !self.snake_body().contains(p)),
    {
        let mut r: Vec<Position> = Vec::new();
        let mut y: u16 = 0;
        while y < BOARD_HEIGHT
            invariant
                y <= BOARD_HEIGHT,
                r@ == free_prefix(self.snake_body(), (y * BOARD_WIDTH) as nat),
                forall|p: Position| r@.contains(p) <==> (on_board(p) && !self.snake_body().contains(p)
                    && p.y < y),
            decreases BOARD_HEIGHT - y,
        {
            let mut x: u16 = 0;
            while x < BOARD_WIDTH
                invariant
                    y < BOARD_HEIGHT,
                    x <= BOARD_WIDTH,
                    r@ == free_prefix(self.snake_body(), (y * BOARD_WIDTH + x) as nat),
                    forall|p: Position| r@.contains(p) <==> (on_board(p) && !self.snake_body().contains(p)
                        && scanned_before(p, x as int, y as int)),
                decreases BOARD_WIDTH - x,
            {
                let p = Position { x, y };
                let ghost before = r@;
                let ghost k: int = y * BOARD_WIDTH + x;
                assert(k % 20 == x && k / 20 == y) by (nonlinear_arith)
                    requires k == y * 20 + x, 0 <= x < 20, 0 <= y;
                assert(cell_at(k) == p);
                if !contains_pos(&self.snake.body, p) {
                    r.push(p);
                    assert forall|q: Position| r@.contains(q) <==> (before.contains(q) || q == p) by {
                        if r@.contains(q) {
                            let k = choose|k: int| 0 <= k < r@.len() && r@[k] == q;
                            if k < before.len() {
                                assert(before[k] == q);
                            }
                        }
                        if before.contains(q) {
                            let k = choose|k: int| 0 <= k < before.len() && before[k] == q;
                            assert(r@[k] == q);
                        }
                        if q == p {
                            assert(r@[before.len() as int] == p);
                        }
                    }
                }
                x = x + 1;
            }
            assert forall|p: Position| r@.contains(p) <==> (on_board(p) && !self.snake_body().contains(p)
                && p.y < y + 1) by {
                if on_board(p) {
                    assert(scanned_before(p, BOARD_WIDTH as int, y as int) <==> p.y < y + 1);
                }
            }
            y = y + 1;
        }
        assert(BOARD_HEIGHT * BOARD_WIDTH == BOARD_WIDTH * BOARD_HEIGHT);
        r
    }

    /// Puts the food on the free cell at `pick`, counted modulo the number
    /// of free cells. With no free cell the food stays where it is.
    pub fn place_food_at(&mut self, pick: usize)
        ensures
            free_cells_of(old(self).snake_body()).len() > 0 ==> final(self).food_spec() == free_cells_of(
                old(self).snake_body(),
            )[(pick as int) % (free_cells_of(old(self).snake_body()).len() as int)],
            free_cells_of(old(self).snake_body()).len() == 0 ==> final(self).food_spec() == old(self).food_spec(),
            final(self).snake_body() == old(self).snake_body(),
            final(self).snake_direction() == old(self).snake_direction(),
            final(self).score_spec() == old(self).score_spec(),
            final(self).over_spec() == old(self).over_spec(),
            final(self).speed_spec() == old(self).speed_spec(),
            has_free_cell(old(self).snake_body()) ==> {
                &&& on_board(final(self).food_spec())
                &&& !final(self).snake_body().contains(final(self).food_spec())
            },
            !has_free_cell(old(self).snake_body()) ==> final(self).food_spec()
                == old(self).food_spec(),
    {
        let free = self.free_cells();
        if free.len() > 0 {
            let idx = pick % free.len();
            let p = free[idx];
            assert(free@[idx as int] == p);
            assert(free@.contains(p));
            assert(on_board(p));
            assert(!self.snake_body().contains(p));
            assert(!old(self).snake_body().contains(p));
            self.food = p;
        } else {
            proof {
                if has_free_cell(old(self).snake_body()) {
                    let p = choose|p: Position| on_board(p) && !old(self).snake_body().contains(p);
                    assert(free@.contains(p));
                }
            }
        }
    }

    /// Puts the food on a free cell drawn at random.
    pub fn spawn_food(&mut self)
        ensures
            final(self).snake_body() == old(self).snake_body(),
            final(self).snake_direction() == old(self).snake_direction(),
            final(self).score_spec() == old(self).score_spec(),
            final(self).over_spec() == old(self).over_spec(),
            final(self).speed_spec() == old(self).speed_spec(),
            has_free_cell(old(self).snake_body()) ==> {
                &&& on_board(final(self).food_spec())
                &&& !final(self).snake_body().contains(final(self).food_spec())
            },
    {
        let n = self.free_cells().len();
        let pick = if n > 0 {
            random_below(n)
        } else {
            0
        };
        self.place_food_at(pick);
    }

    /// Whether `new` is what one tick makes of `self`, given the move `t`
    /// that the applier released, food placement aside when food was eaten.
    pub open spec fn ticked(&self, new: Game, t: Option<Direction>) -> bool {
        let d = match t {
            Some(req) => turned(self.snake_direction(), req),
            None => self.snake_direction(),
        };
        &&& new.snake_direction() == d
        &&& match next_head(self.snake_body(), d) {
            None => {
                &&& new.over_spec()
                &&& new.snake_body() == self.snake_body()
                &&& new.score_spec() == self.score_spec()
                &&& new.speed_spec() == self.speed_spec()
                &&& new.food_spec() == self.food_spec()
            },
            Some(p) => {
                let moved = seq![p] + self.snake_body().drop_last();
                &&& !new.over_spec()
                &&& if p == self.food_spec() {
                    &&& new.snake_body() == moved.push(moved.last())
                    &&& new.score_spec() == score_after_food(self.score_spec())
                    &&& new.speed_spec() == speed_after(score_after_food(self.score_spec()), self.speed_spec())
                } else {
                    &&& new.snake_body() == moved
                    &&& new.score_spec() == self.score_spec()
                    &&& new.speed_spec() == self.speed_spec()
                    &&& new.food_spec() == self.food_spec()
                }
            },
        }
    }

    /// Whether this tick's move reaches the food.
    pub open spec fn eats(&self, t: Option<Direction>) -> bool {
        let d = match t {
            Some(req) => turned(self.snake_direction(), req),
            None => self.snake_direction(),
        };
        next_head(self.snake_body(), d) == Some(self.food_spec())
    }

    /// Everything a tick does but placing new food.
    fn advance(&mut self, ledger: &mut Ledger<Direction>, slots: &mut InFlight) -> (ate: bool)
        requires
            !old(self).over_spec(),
            old(ledger).wf(),
            old(slots).wf(),
        ensures
            final(ledger).wf(),
            final(slots).wf(),
            final(ledger).history() == old(ledger).history(),
            ledger_step(old(ledger)@, final(ledger)@),
            next_applied(old(ledger)@) is Some ==> exists|i: int| first_applicable(old(ledger)@, i)
                && final(ledger)@ == old(ledger)@.update(i, marked(old(ledger)@[i])),
            final(slots).cap_spec() == old(slots).cap_spec(),
            old(self).ticked(*final(self), next_applied(old(ledger)@)),
            ate == old(self).eats(next_applied(old(ledger)@)),
            next_applied(old(ledger)@) is Some ==> final(slots).count_spec() == after_release(old(slots).count_spec()),
            next_applied(old(ledger)@) is None ==> final(slots).count_spec() == old(slots).count_spec(),
            next_applied(old(ledger)@) is None ==> final(ledger)@ == old(ledger)@,
            ate ==> final(self).snake_body().len() > 0,
    {
        let t = apply_next(ledger, slots);
        if let Some(d) = t {
            self.snake.change_direction(d);
        }
        match self.snake.move_forward() {
            Some(head) => {
                if head == self.food {
                    self.snake.grow();
                    self.score = if self.score <= u32::MAX - FOOD_POINTS {
                        self.score + FOOD_POINTS
                    } else {
                        u32::MAX
                    };
                    if self.score % 50 == 0 && self.speed > 50 {
                        self.speed = self.speed - 10;
                    }
                    true
                } else {
                    false
                }
            },
            None => {
                self.game_over = true;
                false
            },
        }
    }

    /// One tick, with the food placed at `pick` among the free cells (see
    /// `place_food_at`) when it is eaten. A finished game does not change.
    pub fn tick(&mut self, ledger: &mut Ledger<Direction>, slots: &mut InFlight, pick: usize)
        requires
            old(ledger).wf(),
            old(slots).wf(),
        ensures
            final(ledger).wf(),
            final(slots).wf(),
            final(ledger).history() == old(ledger).history(),
            final(slots).cap_spec() == old(slots).cap_spec(),
            old(self).over_spec() ==> *final(self) == *old(self) && final(ledger)@ == old(ledger)@
                && final(slots).count_spec() == old(slots).count_spec(),
            !old(self).over_spec() ==> {
                &&& ledger_step(old(ledger)@, final(ledger)@)
                &&& next_applied(old(ledger)@) is Some ==> exists|i: int| first_applicable(old(ledger)@, i)
                    && final(ledger)@ == old(ledger)@.update(i, marked(old(ledger)@[i]))
                &&& old(self).ticked(*final(self), next_applied(old(ledger)@))
                &&& next_applied(old(ledger)@) is Some ==> final(slots).count_spec() == after_release(old(slots).count_spec())
                &&& next_applied(old(ledger)@) is None ==> final(slots).count_spec() == old(slots).count_spec()
                    && final(ledger)@ == old(ledger)@
                &&& old(self).eats(next_applied(old(ledger)@)) && has_free_cell(final(self).snake_body())
                    ==> on_board(final(self).food_spec()) && !final(self).snake_body().contains(final(self).food_spec())
            },
    {
        if self.game_over {
            return;
        }
        let ate = self.advance(ledger, slots);
        if ate {
            self.place_food_at(pick);
        }
    }

    /// One tick of the game: the oldest confirmed move not yet applied turns
    /// the snake, the snake moves, and food eaten is replaced on a random
    /// free cell. A finished game does not change.
    pub fn update(&mut self, ledger: &mut Ledger<Direction>, slots: &mut InFlight)
        requires
            old(ledger).wf(),
            old(slots).wf(),
        ensures
            final(ledger).wf(),
            final(slots).wf(),
            final(ledger).history() == old(ledger).history(),
            final(slots).cap_spec() == old(slots).cap_spec(),
            old(self).over_spec() ==> *final(self) == *old(self) && final(ledger)@ == old(ledger)@
                && final(slots).count_spec() == old(slots).count_spec(),
            !old(self).over_spec() ==> {
                &&& ledger_step(old(ledger)@, final(ledger)@)
                &&& next_applied(old(ledger)@) is Some ==> exists|i: int| first_applicable(old(ledger)@, i)
                    && final(ledger)@ == old(ledger)@.update(i, marked(old(ledger)@[i]))
                &&& old(self).ticked(*final(self), next_applied(old(ledger)@))
                &&& next_applied(old(ledger)@) is Some ==> final(slots).count_spec() == after_release(old(slots).count_spec())
                &&& next_applied(old(ledger)@) is None ==> final(slots).count_spec() == old(slots).count_spec()
                    && final(ledger)@ == old(ledger)@
                &&& old(self).eats(next_applied(old(ledger)@)) && has_free_cell(final(self).snake_body())
                    ==> on_board(final(self).food_spec()) && !final(self).snake_body().contains(final(self).food_spec())
            },
    {
        if self.game_over {
            return;
        }
        let ate = self.advance(ledger, slots);
        if ate {
            self.spawn_food();
        }
    }

}

} // verus!
