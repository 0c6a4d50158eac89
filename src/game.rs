//! The game around the snake: food, board, speed and the game-over lifecycle.
//! All times are whole microseconds.
use vstd::prelude::*;
use crate::snake::{
    Direction, Snake, advanced_body, effective_heading, initial_body, occupies, opposite_of,
    step_from,
};

verus! {

/// Time between two forced moves at the start of a game.
pub const DEFAULT_SPEED: i64 = 100000;

/// How much a speed-boost food shortens the time between forced moves.
pub const SPEED_BOOST_FOOD: i64 = 40000;

/// How much a speed-hinder food lengthens the time between forced moves.
pub const SPEED_HINDER_FOOD: i64 = 20000;

/// How long the game-over state lasts before the game starts again.
pub const RESTART_TIME: u64 = 1000000;

/// Where the tail of a fresh snake lies.
pub const START_X: i32 = 2;

pub const START_Y: i32 = 2;

/// Where the food of a fresh game lies.
pub const FOOD_START_X: i32 = 6;

pub const FOOD_START_Y: i32 = 4;

/// The kinds of food, each with its own effect when eaten.
#[derive(Clone, Copy, Debug, PartialEq, Eq, Structural)]
pub enum Food {
    /// The snake grows by one cell on its next move.
    Plain,
    /// The snake loses its tail cell at once.
    Poison,
    /// Forced moves come more often.
    SpeedBoost,
    /// Forced moves come less often, never less often than at the start.
    SpeedHinder,
}

/// The keys the game tells apart.
#[derive(Clone, Copy, Debug, PartialEq, Eq, Structural)]
pub enum Key {
    Up,
    Down,
    Left,
    Right,
    /// Any other key: it is ignored.
    Other,
}

/// What a rectangle of the picture shows.
#[derive(Clone, Copy, Debug, PartialEq, Eq, Structural)]
pub enum Paint {
    Snake,
    Food(Food),
    Border,
    /// The translucent layer over the board after a collision.
    GameOver,
}

/// A rectangle of cells to fill: its corner, its width and height in cells.
#[derive(Clone, Copy, Debug, PartialEq, Eq, Structural)]
pub struct Rect {
    pub paint: Paint,
    pub x: i32,
    pub y: i32,
    pub w: i32,
    pub h: i32,
}

/// The state of a game, as the contracts see it.
pub struct GameView {
    pub body: Seq<(i32, i32)>,
    pub heading: Direction,
    pub grow: bool,
    pub food_exists: bool,
    pub food: Food,
    pub food_x: i32,
    pub food_y: i32,
    pub width: i32,
    pub height: i32,
    pub game_over: bool,
    pub waiting: int,
    pub speed: int,
}

/// A game: the snake, the one food of the board, the board's size, the
/// game-over flag, the time waited since the last move and the time between
/// forced moves.
pub struct Game {
    snake: Snake,
    food_exists: bool,
    foodtype: Food,
    food_x: i32,
    food_y: i32,
    width: i32,
    height: i32,
    game_over: bool,
    waiting_time: u64,
    speed_of_the_game: i64,
}

pub open spec fn key_direction(k: Key) -> Option<Direction> {
    match k {
        Key::Up => Some(Direction::Up),
        Key::Down => Some(Direction::Down),
        Key::Left => Some(Direction::Left),
        Key::Right => Some(Direction::Right),
        Key::Other => None,
    }
}

/// The state of a game that has just begun on a board of `width` by `height` cells.
pub open spec fn fresh(width: i32, height: i32) -> GameView {
    GameView {
        body: initial_body(START_X as int, START_Y as int),
        heading: Direction::Right,
        grow: false,
        food_exists: true,
        food: Food::Plain,
        food_x: FOOD_START_X,
        food_y: FOOD_START_Y,
        width,
        height,
        game_over: false,
        waiting: 0,
        speed: DEFAULT_SPEED as int,
    }
}

/// Whether `(x, y)` lies off the border ring of the board.
pub open spec fn in_interior(v: GameView, x: int, y: int) -> bool {
    0 < x < v.width - 1 && 0 < y < v.height - 1
}

/// Whether food may be put at `c`: inside the border and off the snake. The
/// row ranges over `1..height - 1` and not over the width's range, so that food
/// stays inside the border on boards that are not square.
pub open spec fn is_free(v: GameView, c: (i32, i32)) -> bool {
    in_interior(v, c.0 as int, c.1 as int) && !occupies(v.body, c.0 as int, c.1 as int)
}

/// The cell the head would move to on a request of `dir`.
pub open spec fn next_of(v: GameView, dir: Option<Direction>) -> (int, int) {
    step_from(v.body[0].0 as int, v.body[0].1 as int, effective_heading(v.heading, dir))
}

/// Whether a move on a request of `dir` keeps the snake alive: the head stays off
/// the border ring and off the body as it is before the move.
pub open spec fn survives(v: GameView, dir: Option<Direction>) -> bool {
    let n = next_of(v, dir);
    v.body.len() > 0 && in_interior(v, n.0, n.1) && !occupies(v.body, n.0, n.1)
}

/// The state after the snake moved on a request of `dir`, before it eats.
pub open spec fn moved(v: GameView, dir: Option<Direction>) -> GameView {
    let n = next_of(v, dir);
    GameView {
        body: advanced_body(v.body, n.0, n.1, v.grow),
        heading: effective_heading(v.heading, dir),
        grow: false,
        ..v
    }
}

/// The speed after a speed-boost food: lower by the boost, without floor but
/// where `i64` ends.
pub open spec fn boosted(speed: int) -> int {
    if speed - SPEED_BOOST_FOOD >= i64::MIN {
        speed - SPEED_BOOST_FOOD
    } else {
        i64::MIN as int
    }
}

/// The speed after a speed-hinder food: higher by the hindrance, but never above
/// the starting speed.
pub open spec fn hindered(speed: int) -> int {
    if speed + SPEED_HINDER_FOOD > DEFAULT_SPEED {
        DEFAULT_SPEED as int
    } else {
        speed + SPEED_HINDER_FOOD
    }
}

/// Whether the head lies on the food.
pub open spec fn head_on_food(v: GameView) -> bool {
    v.food_exists && v.body.len() > 0 && v.body[0].0 == v.food_x && v.body[0].1 == v.food_y
}

/// The state after the snake ate what lies under its head, if anything does.
pub open spec fn after_eating(v: GameView) -> GameView {
    if head_on_food(v) {
        match v.food {
            Food::Plain => GameView { food_exists: false, grow: true, ..v },
            Food::Poison => GameView { food_exists: false, body: v.body.drop_last(), ..v },
            Food::SpeedBoost => GameView { food_exists: false, speed: boosted(v.speed), ..v },
            Food::SpeedHinder => GameView { food_exists: false, speed: hindered(v.speed), ..v },
        }
    } else {
        v
    }
}

/// One discrete movement step on a request of `dir`: the snake moves and eats if
/// the move is survivable, else the game is over and the snake stays. A snake
/// with no cells does not move. The wait timer is cleared either way.
pub open spec fn step(v: GameView, dir: Option<Direction>) -> GameView {
    if v.body.len() == 0 {
        GameView { waiting: 0, ..v }
    } else if survives(v, dir) {
        GameView { waiting: 0, ..after_eating(moved(v, dir)) }
    } else {
        GameView { waiting: 0, game_over: true, ..v }
    }
}

/// The state after a key press.
pub open spec fn after_key(v: GameView, k: Key) -> GameView {
    if v.game_over {
        v
    } else {
        match key_direction(k) {
            None => v,
            Some(d) => if d == opposite_of(v.heading) {
                v
            } else {
                step(v, Some(d))
            },
        }
    }
}

/// Whether `w` is `v` with a new food spawned: where a free cell exists the food
/// lies on one, of some kind; where none does, nothing changes.
pub open spec fn spawned(v: GameView, w: GameView) -> bool {
    if exists|c: (i32, i32)| is_free(v, c) {
        w == (GameView { food_exists: true, food: w.food, food_x: w.food_x, food_y: w.food_y, ..v })
            && is_free(v, (w.food_x, w.food_y))
    } else {
        w == v
    }
}

/// The wait timer after `delta` more microseconds, stopping where `u64` ends.
pub open spec fn waited(v: GameView, delta: u64) -> int {
    if v.waiting + delta > u64::MAX {
        u64::MAX as int
    } else {
        v.waiting + delta
    }
}

/// The rectangle that shows one cell of the snake.
pub open spec fn snake_rect(c: (i32, i32)) -> Rect {
    Rect { paint: Paint::Snake, x: c.0, y: c.1, w: 1, h: 1 }
}

/// The four strips of the border ring, one cell thick: top, bottom, left, right.
pub open spec fn border_rects(v: GameView) -> Seq<Rect> {
    seq![
        Rect { paint: Paint::Border, x: 0, y: 0, w: v.width, h: 1 },
        Rect { paint: Paint::Border, x: 0, y: (v.height - 1) as i32, w: v.width, h: 1 },
        Rect { paint: Paint::Border, x: 0, y: 0, w: 1, h: v.height },
        Rect { paint: Paint::Border, x: (v.width - 1) as i32, y: 0, w: 1, h: v.height },
    ]
}

/// The picture of a state, in drawing order: the snake's cells, the food if there
/// is one, the border, and the game-over layer after a collision.
pub open spec fn picture(v: GameView) -> Seq<Rect> {
    v.body.map_values(|c: (i32, i32)| snake_rect(c)) + (if v.food_exists {
        seq![Rect { paint: Paint::Food(v.food), x: v.food_x, y: v.food_y, w: 1, h: 1 }]
    } else {
        Seq::empty()
    }) + border_rects(v) + (if v.game_over {
        seq![Rect { paint: Paint::GameOver, x: 0, y: 0, w: v.width, h: v.height }]
    } else {
        Seq::empty()
    })
}

impl GameView {
    /// What every state of a game satisfies.
    pub open spec fn valid(&self) -> bool {
        &&& self.width > i32::MIN
        &&& self.height > i32::MIN
        &&& 0 <= self.waiting <= u64::MAX
        &&& i64::MIN <= self.speed <= DEFAULT_SPEED
        &&& forall|i: int|
            0 <= i < self.body.len() ==> 0 < #[trigger] self.body[i].0 < i32::MAX && 0
                < self.body[i].1 < i32::MAX
    }
}

impl View for Game {
    type V = GameView;

    closed spec fn view(&self) -> GameView {
        GameView {
            body: self.snake.cells(),
            heading: self.snake.heading(),
            grow: self.snake.growing(),
            food_exists: self.food_exists,
            food: self.foodtype,
            food_x: self.food_x,
            food_y: self.food_y,
            width: self.width,
            height: self.height,
            game_over: self.game_over,
            waiting: self.waiting_time as int,
            speed: self.speed_of_the_game as int,
        }
    }
}

/// Relies on rand's `Rng::gen_range` on `thread_rng`: a value drawn from `0..n`,
/// which is empty, and panics, only for `n == 0`.
#[verifier::external_body]
fn random_below(n: usize) -> (r: usize)
    requires
        n > 0,
    ensures
        r < n,
{
    rand::Rng::gen_range(&mut rand::thread_rng(), 0..n)
}

/// The kind of food for a roll of `n` out of four.
fn food_of_roll(n: usize) -> (r: Food)
    requires
        n < 4,
    ensures
        n == 0 ==> r == Food::Plain,
        n == 1 ==> r == Food::Poison,
        n == 2 ==> r == Food::SpeedBoost,
        n == 3 ==> r == Food::SpeedHinder,
{
    if n == 0 {
        Food::Plain
    } else if n == 1 {
        Food::Poison
    } else if n == 2 {
        Food::SpeedBoost
    } else {
        Food::SpeedHinder
    }
}

impl Game {
    pub open spec fn wf(&self) -> bool {
        self@.valid()
    }

    /// A fresh game on a board of `width` by `height` cells.
    pub fn new(width: i32, height: i32) -> (r: Game)
        requires
            width > i32::MIN,
            height > i32::MIN,
        ensures
            r@ == fresh(width, height),
            r.wf(),
    {
        Game {
            snake: Snake::new(START_X, START_Y),
            food_exists: true,
            foodtype: Food::Plain,
            food_x: FOOD_START_X,
            food_y: FOOD_START_Y,
            width,
            height,
            game_over: false,
            waiting_time: 0,
            speed_of_the_game: DEFAULT_SPEED,
        }
    }

    fn check_if_snake_alive(&self, dir: Option<Direction>) -> (r: bool)
        requires
            self.wf(),
            self@.body.len() > 0,
        ensures
            r == survives(self@, dir),
    {
        let (next_x, next_y) = self.snake.next_head(dir);
        if self.snake.overlap_tail(next_x, next_y) {
            return false;
        }
        next_x > 0 && next_y > 0 && next_x < self.width - 1 && next_y < self.height - 1
    }

    fn check_eating(&mut self)
        requires
            old(self).wf(),
        ensures
            final(self)@ == after_eating(old(self)@),
            final(self).wf(),
    {
        if self.snake.get_body_length() == 0 {
            return;
        }
        let (head_x, head_y) = self.snake.head_position();
        if self.food_exists && self.food_x == head_x && self.food_y == head_y {
            self.food_exists = false;
            match self.foodtype {
                Food::Plain => self.snake.restore_tail(),
                Food::Poison => self.snake.remove_tail(),
                Food::SpeedBoost => {
                    if self.speed_of_the_game >= i64::MIN + SPEED_BOOST_FOOD {
                        self.speed_of_the_game = self.speed_of_the_game - SPEED_BOOST_FOOD;
                    } else {
                        self.speed_of_the_game = i64::MIN;
                    }
                },
                Food::SpeedHinder => {
                    self.speed_of_the_game = self.speed_of_the_game + SPEED_HINDER_FOOD;
                    if self.speed_of_the_game > DEFAULT_SPEED {
                        self.speed_of_the_game = DEFAULT_SPEED;
                    }
                },
            }
        }
    }

    /// One discrete movement step on a request of `dir`.
    pub fn update_snake(&mut self, dir: Option<Direction>)
        requires
            old(self).wf(),
        ensures
            final(self)@ == step(old(self)@, dir),
            final(self).wf(),
    {
        if self.snake.get_body_length() > 0 {
            if self.check_if_snake_alive(dir) {
                self.snake.move_forward(dir);
                assert(self@ == moved(old(self)@, dir));
                self.check_eating();
            } else {
                self.game_over = true;
            }
        }
        self.waiting_time = 0;
    }

    /// Every cell where food may be put: inside the border ring and off the snake.
    pub fn free_cells(&self) -> (r: Vec<(i32, i32)>)
        requires
            self.wf(),
        ensures
            forall|c: (i32, i32)| r@.contains(c) <==> is_free(self@, c),
    {
        let mut cells: Vec<(i32, i32)> = Vec::new();
        let mut x: i32 = 1;
        while x < self.width - 1
            invariant
                self.wf(),
                1 <= x,
                x <= self.width - 1 || x == 1,
                forall|c: (i32, i32)| cells@.contains(c) <==> is_free(self@, c) && c.0 < x,
            decreases self.width - x,
        {
            let mut y: i32 = 1;
            while y < self.height - 1
                invariant
                    self.wf(),
                    1 <= x < self.width - 1,
                    1 <= y,
                    y <= self.height - 1 || y == 1,
                    forall|c: (i32, i32)|
                        cells@.contains(c) <==> is_free(self@, c) && (c.0 < x || (c.0 == x && c.1
                            < y)),
                decreases self.height - y,
            {
                if !self.snake.overlap_tail(x, y) {
                    let ghost before = cells@;
                    cells.push((x, y));
                    assert forall|c: (i32, i32)| cells@.contains(c) <==> before.contains(c) || c
                        == (x, y) by {
                        if before.contains(c) {
                            let k = choose|k: int| 0 <= k < before.len() && before[k] == c;
                            assert(cells@[k] == c);
                        }
                        if c == (x, y) {
                            assert(cells@[before.len() as int] == c);
                        }
                        if cells@.contains(c) && c != (x, y) {
                            let k = choose|k: int| 0 <= k < cells@.len() && cells@[k] == c;
                            assert(before[k] == c);
                        }
                    }
                }
                y = y + 1;
            }
            x = x + 1;
        }
        cells
    }

    /// Puts food of `kind` at `(x, y)` where that cell is free; says whether it did.
    pub fn place_food(&mut self, x: i32, y: i32, kind: Food) -> (r: bool)
        requires
            old(self).wf(),
        ensures
            r == is_free(old(self)@, (x, y)),
            r ==> final(self)@ == (GameView {
                food_exists: true,
                food: kind,
                food_x: x,
                food_y: y,
                ..old(self)@
            }),
            !r ==> final(self)@ == old(self)@,
            final(self).wf(),
    {
        if x > 0 && y > 0 && x < self.width - 1 && y < self.height - 1 && !self.snake.overlap_tail(
            x,
            y,
        ) {
            self.foodtype = kind;
            self.food_x = x;
            self.food_y = y;
            self.food_exists = true;
            true
        } else {
            false
        }
    }

    /// Spawns food of a random kind on a random free cell, each free cell as
    /// likely as any other; where no cell is free, nothing changes. The row of a
    /// cell is drawn from the height's range `1..height - 1`, not from the
    /// width's.
    fn add_food(&mut self)
        requires
            old(self).wf(),
        ensures
            spawned(old(self)@, final(self)@),
            final(self).wf(),
    {
        let cells = self.free_cells();
        if cells.len() == 0 {
            assert(!exists|c: (i32, i32)| is_free(self@, c)) by {
                assert forall|c: (i32, i32)| !is_free(self@, c) by {
                    assert(!cells@.contains(c));
                }
            }
            return;
        }
        let pick = random_below(cells.len());
        let kind = food_of_roll(random_below(4));
        let (x, y) = cells[pick];
        assert(cells@.contains(cells@[pick as int]));
        let placed = self.place_food(x, y, kind);
        assert(placed);
    }

    /// Handles a key press: ignored after a collision, for keys other than the
    /// arrows, and for the arrow that points back; any other arrow moves the snake
    /// that way at once.
    pub fn key_pressed(&mut self, key: Key)
        requires
            old(self).wf(),
        ensures
            final(self)@ == after_key(old(self)@, key),
            final(self).wf(),
    {
        if self.game_over {
            return;
        }
        let dir = match key {
            Key::Up => Some(Direction::Up),
            Key::Down => Some(Direction::Down),
            Key::Right => Some(Direction::Right),
            Key::Left => Some(Direction::Left),
            Key::Other => None,
        };
        match dir {
            None => {},
            Some(d) => {
                if d == self.snake.head_direction().opposite() {
                    return;
                }
                self.update_snake(dir);
            },
        }
    }

    /// Advances the game by `delta` microseconds. After a collision the game
    /// starts again once the wait exceeds the restart time. Otherwise, and only
    /// the first of these that applies: a snake with no cells starts the game
    /// again; missing food is spawned, and nothing else happens in that tick; the
    /// snake is moved straight on once the wait exceeds the time between forced
    /// moves.
    pub fn update(&mut self, delta: u64)
        requires
            old(self).wf(),
        ensures
            final(self).wf(),
            ({
                let v = GameView { waiting: waited(old(self)@, delta), ..old(self)@ };
                if v.game_over {
                    final(self)@ == if v.waiting > RESTART_TIME {
                        fresh(v.width, v.height)
                    } else {
                        v
                    }
                } else if v.body.len() == 0 {
                    final(self)@ == fresh(v.width, v.height)
                } else if !v.food_exists {
                    spawned(v, final(self)@)
                } else {
                    final(self)@ == if v.waiting > v.speed {
                        step(v, None)
                    } else {
                        v
                    }
                }
            }),
    {
        self.waiting_time = self.waiting_time.saturating_add(delta);
        if self.game_over {
            if self.waiting_time > RESTART_TIME {
                self.restart();
            }
            return;
        }
        if self.snake.get_body_length() == 0 {
            self.restart();
            return;
        }
        if !self.food_exists {
            self.add_food();
            return;
        }
        if (self.speed_of_the_game < 0) || (self.waiting_time > self.speed_of_the_game as u64) {
            self.update_snake(None);
        }
    }

    /// The rectangles that show the game, in drawing order.
    pub fn draw(&self) -> (r: Vec<Rect>)
        requires
            self.wf(),
        ensures
            r@ == picture(self@),
    {
        let mut rects: Vec<Rect> = Vec::new();
        let n = self.snake.get_body_length();
        let mut i: usize = 0;
        while i < n
            invariant
                n == self@.body.len(),
                i <= n,
                rects@ == self@.body.subrange(0, i as int).map_values(|c: (i32, i32)| snake_rect(c)),
            decreases n - i,
        {
            let (x, y) = self.snake.cell(i);
            rects.push(Rect { paint: Paint::Snake, x, y, w: 1, h: 1 });
            i = i + 1;
            assert(rects@ =~= self@.body.subrange(0, i as int).map_values(
                |c: (i32, i32)| snake_rect(c),
            ));
        }
        assert(self@.body.subrange(0, n as int) =~= self@.body);
        if self.food_exists {
            rects.push(Rect { paint: Paint::Food(self.foodtype), x: self.food_x, y: self.food_y, w: 1, h: 1 });
        }
        rects.push(Rect { paint: Paint::Border, x: 0, y: 0, w: self.width, h: 1 });
        rects.push(Rect { paint: Paint::Border, x: 0, y: self.height - 1, w: self.width, h: 1 });
        rects.push(Rect { paint: Paint::Border, x: 0, y: 0, w: 1, h: self.height });
        rects.push(Rect { paint: Paint::Border, x: self.width - 1, y: 0, w: 1, h: self.height });
        if self.game_over {
            rects.push(Rect { paint: Paint::GameOver, x: 0, y: 0, w: self.width, h: self.height });
        }
        assert(rects@ =~= picture(self@));
        rects
    }

    pub fn snake(&self) -> (r: &Snake)
        ensures
            r.cells() == self@.body,
            r.heading() == self@.heading,
            r.growing() == self@.grow,
    {
        &self.snake
    }

    pub fn is_game_over(&self) -> (r: bool)
        ensures
            r == self@.game_over,
    {
        self.game_over
    }

    /// The time waited since the last move, in microseconds.
    pub fn waiting_time(&self) -> (r: u64)
        ensures
            r == self@.waiting,
    {
        self.waiting_time
    }

    /// The time between forced moves, in microseconds.
    pub fn speed(&self) -> (r: i64)
        ensures
            r == self@.speed,
    {
        self.speed_of_the_game
    }

    /// The food on the board, if any: its kind and its cell.
    pub fn food(&self) -> (r: Option<(Food, i32, i32)>)
        ensures
            r == if self@.food_exists {
                Some((self@.food, self@.food_x, self@.food_y))
            } else {
                None::<(Food, i32, i32)>
            },
    {
        if self.food_exists {
            Some((self.foodtype, self.food_x, self.food_y))
        } else {
            None
        }
    }

    pub fn width(&self) -> (r: i32)
        ensures
            r == self@.width,
    {
        self.width
    }

    pub fn height(&self) -> (r: i32)
        ensures
            r == self@.height,
    {
        self.height
    }

    fn restart(&mut self)
        requires
            old(self).wf(),
        ensures
            final(self)@ == fresh(old(self)@.width, old(self)@.height),
            final(self).wf(),
    {
        self.snake = Snake::new(START_X, START_Y);
        self.waiting_time = 0;
        self.foodtype = Food::Plain;
        self.food_exists = true;
        self.food_x = FOOD_START_X;
        self.food_y = FOOD_START_Y;
        self.game_over = false;
        self.speed_of_the_game = DEFAULT_SPEED;
    }
}

} // verus!
