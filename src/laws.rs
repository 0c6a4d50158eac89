//! Laws of the game, stated over the model of its state and proved.
use vstd::prelude::*;
use crate::game::{
    DEFAULT_SPEED, Food, GameView, after_eating, head_on_food, Key, after_key, boosted, hindered, in_interior, key_direction,
    next_of, spawned, step, survives,
};
use crate::snake::{Direction, occupies, opposite_of};

verus! {

/// Eating plain food does not lengthen the snake at once (beyond growth already
/// pending); the next move that keeps the snake alive lengthens it by exactly one
/// cell and leaves no growth pending.
pub proof fn lemma_plain_food_grows_after_one_move(
    v: GameView,
    dir: Option<Direction>,
    then: Option<Direction>,
)
    requires
        v.valid(),
        survives(v, dir),
        v.food_exists,
        v.food == Food::Plain,
        v.food_x == next_of(v, dir).0,
        v.food_y == next_of(v, dir).1,
    ensures
        step(v, dir).body.len() == v.body.len() + if v.grow { 1int } else { 0 },
        step(v, dir).grow,
        survives(step(v, dir), then) ==> step(step(v, dir), then).body.len() == step(
            v,
            dir,
        ).body.len() + 1 && !step(step(v, dir), then).grow,
{
}

/// Eating poison food shortens the snake by exactly one cell at once (a move
/// that uses up pending growth first gains that cell).
pub proof fn lemma_poison_food_shrinks_at_once(v: GameView, dir: Option<Direction>)
    requires
        v.valid(),
        survives(v, dir),
        v.food_exists,
        v.food == Food::Poison,
        v.food_x == next_of(v, dir).0,
        v.food_y == next_of(v, dir).1,
    ensures
        step(v, dir).body.len() + 1 == v.body.len() + if v.grow { 1int } else { 0 },
{
}

/// Eating, at the moment it happens: plain food leaves the body as it is and
/// makes growth pending; poison food drops the tail cell at once. Either way the
/// food is gone and the speed is kept.
pub proof fn lemma_eating_effects(v: GameView)
    requires
        head_on_food(v),
        v.food == Food::Plain || v.food == Food::Poison,
    ensures
        !after_eating(v).food_exists,
        after_eating(v).speed == v.speed,
        v.food == Food::Plain ==> after_eating(v).body == v.body && after_eating(v).grow,
        v.food == Food::Poison ==> after_eating(v).body == v.body.drop_last()
            && after_eating(v).body.len() + 1 == v.body.len(),
{
}

/// No step raises the time between forced moves above the starting value:
/// speed-hinder food is clamped there, and speed-boost food lowers it with no
/// floor but where `i64` ends.
pub proof fn lemma_speed_never_above_default(v: GameView, dir: Option<Direction>)
    requires
        v.speed <= DEFAULT_SPEED,
    ensures
        step(v, dir).speed <= DEFAULT_SPEED,
        step(v, dir).speed == v.speed || step(v, dir).speed == boosted(v.speed) || step(
            v,
            dir,
        ).speed == hindered(v.speed),
{
}

/// A key that points back along the snake's heading changes nothing.
pub proof fn lemma_reverse_key_ignored(v: GameView, k: Key)
    requires
        key_direction(k) == Some(opposite_of(v.heading)),
    ensures
        after_key(v, k) == v,
{
}

/// A move whose head would land on the border ring or beyond ends the game,
/// clears the wait timer and changes nothing else: the snake stays where it was.
pub proof fn lemma_border_death(v: GameView, dir: Option<Direction>)
    requires
        v.body.len() > 0,
        !in_interior(v, next_of(v, dir).0, next_of(v, dir).1),
    ensures
        step(v, dir) == (GameView { game_over: true, waiting: 0, ..v }),
{
}

/// A move whose head would land on a cell of the body as it is before the move
/// ends the game, clears the wait timer and changes nothing else: the snake stays
/// where it was.
pub proof fn lemma_self_collision_death(v: GameView, dir: Option<Direction>)
    requires
        v.body.len() > 0,
        occupies(v.body, next_of(v, dir).0, next_of(v, dir).1),
    ensures
        step(v, dir) == (GameView { game_over: true, waiting: 0, ..v }),
{
}

/// Food that a spawn puts on the board lies inside the border ring and off the
/// snake.
pub proof fn lemma_spawned_food_off_snake(v: GameView, w: GameView)
    requires
        !v.food_exists,
        spawned(v, w),
    ensures
        w.food_exists ==> in_interior(v, w.food_x as int, w.food_y as int) && !occupies(
            v.body,
            w.food_x as int,
            w.food_y as int,
        ),
        w.body == v.body,
{
}

} // verus!
