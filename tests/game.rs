use snake_game::game::{Food, Game, Key, Paint, Rect, DEFAULT_SPEED};
use snake_game::snake::{Direction, Snake};

fn body(g: &Game) -> Vec<(i32, i32)> {
    let s = g.snake();
    (0..s.get_body_length()).map(|i| s.cell(i)).collect()
}

fn eat_at(g: &mut Game, x: i32, y: i32, kind: Food) {
    assert!(g.place_food(x, y, kind));
    g.update_snake(None);
}

#[test]
fn fresh_game_state() {
    let g = Game::new(10, 10);
    assert_eq!(body(&g), vec![(4, 2), (3, 2), (2, 2)]);
    assert_eq!(g.snake().head_direction(), Direction::Right);
    assert_eq!(g.food(), Some((Food::Plain, 6, 4)));
    assert_eq!(g.speed(), 100000);
    assert!(!g.is_game_over());
    assert_eq!(g.waiting_time(), 0);
}

#[test]
fn head_into_left_border_ends_game() {
    let mut g = Game::new(10, 10);
    g.key_pressed(Key::Down);
    g.key_pressed(Key::Down);
    g.key_pressed(Key::Down);
    g.key_pressed(Key::Left);
    g.key_pressed(Key::Left);
    g.key_pressed(Key::Left);
    assert_eq!(g.snake().head_position(), (1, 5));
    assert_eq!(g.snake().head_direction(), Direction::Left);
    assert_eq!(g.snake().next_head(None), (0, 5));
    g.update(50000);
    assert_eq!(g.waiting_time(), 50000);
    let before = body(&g);
    g.update_snake(None);
    assert!(g.is_game_over());
    assert_eq!(body(&g), before);
    assert_eq!(g.waiting_time(), 0);
}

#[test]
fn speed_boost_has_no_floor() {
    let mut g = Game::new(10, 10);
    eat_at(&mut g, 5, 2, Food::SpeedBoost);
    assert_eq!(g.speed(), 60000);
    assert_eq!(g.food(), None);
    eat_at(&mut g, 6, 2, Food::SpeedBoost);
    assert_eq!(g.speed(), 20000);
    eat_at(&mut g, 7, 2, Food::SpeedBoost);
    assert_eq!(g.speed(), -20000);
}

#[test]
fn plain_food_grows_after_next_move() {
    let mut g = Game::new(10, 10);
    eat_at(&mut g, 5, 2, Food::Plain);
    assert_eq!(g.snake().get_body_length(), 3);
    g.update_snake(None);
    assert_eq!(body(&g), vec![(6, 2), (5, 2), (4, 2), (3, 2)]);
    g.update_snake(None);
    assert_eq!(g.snake().get_body_length(), 4);
}

#[test]
fn poison_food_shrinks_at_once() {
    let mut g = Game::new(10, 10);
    eat_at(&mut g, 5, 2, Food::Poison);
    assert_eq!(body(&g), vec![(5, 2), (4, 2)]);
}

#[test]
fn empty_snake_restarts_on_update() {
    let mut g = Game::new(10, 10);
    eat_at(&mut g, 5, 2, Food::Poison);
    eat_at(&mut g, 6, 2, Food::Poison);
    eat_at(&mut g, 7, 2, Food::Poison);
    assert_eq!(g.snake().get_body_length(), 0);
    g.update_snake(Some(Direction::Down));
    assert!(!g.is_game_over());
    assert_eq!(g.snake().get_body_length(), 0);
    g.update(1);
    assert_eq!(g.draw(), Game::new(10, 10).draw());
    assert_eq!(g.speed(), DEFAULT_SPEED);
}

#[test]
fn speed_hinder_is_clamped() {
    let mut g = Game::new(10, 10);
    eat_at(&mut g, 5, 2, Food::SpeedHinder);
    assert_eq!(g.speed(), 100000);
    eat_at(&mut g, 6, 2, Food::SpeedBoost);
    eat_at(&mut g, 7, 2, Food::SpeedHinder);
    assert_eq!(g.speed(), 80000);
    eat_at(&mut g, 8, 2, Food::SpeedHinder);
    assert_eq!(g.speed(), 100000);
}

#[test]
fn reverse_key_is_ignored() {
    let mut g = Game::new(10, 10);
    g.update(30000);
    g.key_pressed(Key::Left);
    assert_eq!(body(&g), vec![(4, 2), (3, 2), (2, 2)]);
    assert_eq!(g.snake().head_direction(), Direction::Right);
    assert_eq!(g.waiting_time(), 30000);
}

#[test]
fn other_key_is_ignored() {
    let mut g = Game::new(10, 10);
    g.key_pressed(Key::Other);
    assert_eq!(body(&g), vec![(4, 2), (3, 2), (2, 2)]);
}

#[test]
fn arrow_key_moves_at_once() {
    let mut g = Game::new(10, 10);
    g.update(30000);
    g.key_pressed(Key::Down);
    assert_eq!(body(&g), vec![(4, 3), (4, 2), (3, 2)]);
    assert_eq!(g.snake().head_direction(), Direction::Down);
    assert_eq!(g.waiting_time(), 0);
}

#[test]
fn top_border_ends_game() {
    let mut g = Game::new(10, 10);
    g.key_pressed(Key::Up);
    assert!(!g.is_game_over());
    assert_eq!(body(&g), vec![(4, 1), (4, 2), (3, 2)]);
    g.key_pressed(Key::Right);
    g.key_pressed(Key::Up);
    assert!(g.is_game_over());
    assert_eq!(body(&g), vec![(5, 1), (4, 1), (4, 2)]);
    g.key_pressed(Key::Down);
    assert_eq!(body(&g), vec![(5, 1), (4, 1), (4, 2)]);
}

#[test]
fn self_collision_ends_game() {
    let mut g = Game::new(10, 10);
    eat_at(&mut g, 5, 2, Food::Plain);
    g.key_pressed(Key::Down);
    g.key_pressed(Key::Left);
    assert_eq!(body(&g), vec![(4, 3), (5, 3), (5, 2), (4, 2)]);
    g.key_pressed(Key::Up);
    assert!(g.is_game_over());
    assert_eq!(body(&g), vec![(4, 3), (5, 3), (5, 2), (4, 2)]);
}

#[test]
fn restart_after_wait() {
    let mut g = Game::new(12, 9);
    eat_at(&mut g, 5, 2, Food::SpeedBoost);
    g.key_pressed(Key::Up);
    g.key_pressed(Key::Up);
    assert!(g.is_game_over());
    g.update(600000);
    assert!(g.is_game_over());
    assert_eq!(g.waiting_time(), 600000);
    g.update(400000);
    assert!(g.is_game_over());
    g.update(1);
    let fresh = Game::new(12, 9);
    assert!(!g.is_game_over());
    assert_eq!(g.draw(), fresh.draw());
    assert_eq!(g.speed(), fresh.speed());
    assert_eq!(g.waiting_time(), 0);
    assert_eq!(g.food(), fresh.food());
}

#[test]
fn forced_move_after_speed_elapses() {
    let mut g = Game::new(10, 10);
    g.update(100000);
    assert_eq!(g.snake().head_position(), (4, 2));
    g.update(1);
    assert_eq!(g.snake().head_position(), (5, 2));
    assert_eq!(g.waiting_time(), 0);
}

#[test]
fn spawned_food_is_free() {
    for _ in 0..50 {
        let mut g = Game::new(8, 6);
        eat_at(&mut g, 5, 2, Food::SpeedHinder);
        assert_eq!(g.food(), None);
        g.update(0);
        let (_, x, y) = g.food().unwrap();
        assert!(x > 0 && x < 7 && y > 0 && y < 5);
        assert!(!g.snake().overlap_tail(x, y));
    }
}

#[test]
fn no_spawn_on_full_board() {
    let mut h = Game::new(2, 2);
    assert!(h.free_cells().is_empty());
    assert!(!h.place_food(1, 1, Food::Plain));
    assert_eq!(h.food(), Some((Food::Plain, 6, 4)));
    h.key_pressed(Key::Down);
    assert!(h.is_game_over());
}

#[test]
fn free_cells_exclude_snake_and_border() {
    let g = Game::new(6, 4);
    let cells = g.free_cells();
    assert_eq!(cells.len(), 5);
    for c in [(1, 1), (2, 1), (3, 1), (4, 1), (1, 2)] {
        assert!(cells.contains(&c));
    }
    assert!(!cells.contains(&(2, 2)));
    assert!(!cells.contains(&(0, 1)));
    assert!(!cells.contains(&(5, 1)));
}

#[test]
fn place_food_refuses_snake_and_border() {
    let mut g = Game::new(10, 10);
    assert!(!g.place_food(3, 2, Food::Poison));
    assert!(!g.place_food(0, 4, Food::Poison));
    assert!(!g.place_food(4, 9, Food::Poison));
    assert_eq!(g.food(), Some((Food::Plain, 6, 4)));
    assert!(g.place_food(8, 8, Food::Poison));
    assert_eq!(g.food(), Some((Food::Poison, 8, 8)));
}

#[test]
fn picture_of_game() {
    let mut g = Game::new(10, 8);
    let r = |paint, x, y, w, h| Rect { paint, x, y, w, h };
    assert_eq!(
        g.draw(),
        vec![
            r(Paint::Snake, 4, 2, 1, 1),
            r(Paint::Snake, 3, 2, 1, 1),
            r(Paint::Snake, 2, 2, 1, 1),
            r(Paint::Food(Food::Plain), 6, 4, 1, 1),
            r(Paint::Border, 0, 0, 10, 1),
            r(Paint::Border, 0, 7, 10, 1),
            r(Paint::Border, 0, 0, 1, 8),
            r(Paint::Border, 9, 0, 1, 8),
        ]
    );
    eat_at(&mut g, 5, 2, Food::SpeedBoost);
    g.key_pressed(Key::Up);
    g.key_pressed(Key::Up);
    let pic = g.draw();
    assert_eq!(pic.len(), 3 + 4 + 1);
    assert_eq!(pic[7], r(Paint::GameOver, 0, 0, 10, 8));
}

#[test]
fn snake_operations() {
    let mut s = Snake::new(2, 2);
    assert_eq!(s.head_position(), (4, 2));
    assert_eq!(s.next_head(Some(Direction::Up)), (4, 1));
    assert_eq!(s.next_head(Some(Direction::Left)), (5, 2));
    assert!(s.overlap_tail(2, 2));
    assert!(!s.overlap_tail(5, 2));
    s.restore_tail();
    s.move_forward(Some(Direction::Down));
    assert_eq!(s.get_body_length(), 4);
    assert_eq!(s.head_position(), (4, 3));
    assert_eq!(s.head_direction(), Direction::Down);
    s.move_forward(None);
    assert_eq!(s.get_body_length(), 4);
    for _ in 0..5 {
        s.remove_tail();
    }
    assert_eq!(s.get_body_length(), 0);
    assert_eq!(Direction::Left.opposite(), Direction::Right);
    assert_eq!(Direction::Up.opposite(), Direction::Down);
}

#[test]
fn spawning_tick_does_nothing_else() {
    let mut g = Game::new(10, 10);
    eat_at(&mut g, 5, 2, Food::Poison);
    assert_eq!(g.food(), None);
    let before = body(&g);
    g.update(200000);
    assert!(g.food().is_some());
    assert_eq!(body(&g), before);
    assert_eq!(g.waiting_time(), 200000);
    assert_eq!(g.speed(), 100000);
    assert!(!g.is_game_over());
    g.update(0);
    assert_eq!(g.snake().head_position(), (6, 2));
    assert_eq!(g.waiting_time(), 0);
}
