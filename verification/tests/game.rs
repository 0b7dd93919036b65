use snake_game::direction::{Direction, Key};
use snake_game::game::{Game, Rect, RESTART_TIME, UPDATE_TIME};

/// A little more than the time between two steps.
const STEP: u64 = 110_000;

fn assert_fresh(game: &Game, width: u32, height: u32) {
    assert_eq!(game.snake().segments(), vec![(2, 2), (3, 2), (4, 2)]);
    assert_eq!(game.snake().head_direction(), Direction::Down);
    assert_eq!(game.food(), Some((5, 4)));
    assert_eq!(game.width(), width);
    assert_eq!(game.height(), height);
    assert!(!game.is_over());
    assert_eq!(game.waiting_time(), 0);
}

#[test]
fn the_clock_constants_are_a_tenth_and_a_whole_second() {
    assert_eq!(UPDATE_TIME, 100_000);
    assert_eq!(RESTART_TIME, 1_000_000);
}

#[test]
fn new_game_is_fresh() {
    let game = Game::new(50, 30);
    assert_fresh(&game, 50, 30);
}

#[test]
fn one_step_moves_the_head_down_and_drops_the_tail() {
    let mut game = Game::new(10, 10);
    game.update(STEP);
    assert_eq!(game.snake().head_position(), (2, 3));
    assert_eq!(game.snake().segments(), vec![(2, 3), (2, 2), (3, 2)]);
    assert!(!game.is_over());
    assert_eq!(game.food(), Some((5, 4)));
}

#[test]
fn update_waits_until_the_step_time_has_passed() {
    let mut game = Game::new(10, 10);
    game.update(40_000);
    assert_eq!(game.waiting_time(), 40_000);
    assert_eq!(game.snake().head_position(), (2, 2));
    game.update(40_000);
    assert_eq!(game.waiting_time(), 80_000);
    assert_eq!(game.snake().head_position(), (2, 2));
    game.update(40_000);
    assert_eq!(game.waiting_time(), 0);
    assert_eq!(game.snake().head_position(), (2, 3));
}

#[test]
fn update_does_not_step_at_exactly_the_step_time() {
    let mut game = Game::new(10, 10);
    game.update(UPDATE_TIME);
    assert_eq!(game.waiting_time(), UPDATE_TIME);
    assert_eq!(game.snake().head_position(), (2, 2));
    game.update(1);
    assert_eq!(game.waiting_time(), 0);
    assert_eq!(game.snake().head_position(), (2, 3));
}

#[test]
fn update_makes_one_step_however_long_the_delay() {
    let mut game = Game::new(10, 10);
    game.update(10 * UPDATE_TIME);
    assert_eq!(game.snake().segments(), vec![(2, 3), (2, 2), (3, 2)]);
    assert_eq!(game.waiting_time(), 0);
}

#[test]
fn update_survives_the_longest_delay() {
    let mut game = Game::new(10, 10);
    game.update(50_000);
    game.update(u64::MAX);
    assert_eq!(game.snake().segments(), vec![(2, 3), (2, 2), (3, 2)]);
    assert_eq!(game.waiting_time(), 0);
}

#[test]
fn eating_takes_the_food_off_and_grows_the_snake() {
    let mut game = Game::new(10, 10);
    assert!(game.place_food_at(2, 3));
    assert_eq!(game.food(), Some((2, 3)));
    assert_eq!(game.snake().segments().len(), 3);
    game.update(STEP);
    assert_eq!(game.food(), None);
    assert_eq!(game.snake().segments().len(), 4);
    assert_eq!(game.snake().segments(), vec![(2, 3), (2, 2), (3, 2), (4, 2)]);
    assert!(!game.is_over());
}

#[test]
fn eating_the_first_food_after_a_walk() {
    let mut game = Game::new(10, 10);
    game.update(STEP);
    game.update(STEP);
    game.handle_key_press(Key::Right);
    game.update(STEP);
    game.update(STEP);
    assert_eq!(game.snake().head_position(), (4, 4));
    assert_eq!(game.food(), Some((5, 4)));
    game.update(STEP);
    assert_eq!(game.snake().head_position(), (5, 4));
    assert_eq!(game.food(), None);
    assert_eq!(game.snake().segments(), vec![(5, 4), (4, 4), (3, 4), (2, 4)]);
}

#[test]
fn is_eating_changes_nothing_off_the_food() {
    let mut game = Game::new(10, 10);
    game.is_eating();
    assert_fresh(&game, 10, 10);
}

#[test]
fn food_comes_back_on_the_update_after_the_meal() {
    let mut game = Game::new(10, 10);
    assert!(game.place_food_at(2, 3));
    game.update(STEP);
    assert_eq!(game.food(), None);
    game.update(1);
    let (x, y) = game.food().unwrap();
    assert!(1 <= x && x <= 8);
    assert!(1 <= y && y <= 8);
    assert!(!game.snake().is_tail_overlap(x, y));
    assert_eq!(game.snake().head_position(), (2, 3));
}

#[test]
fn running_into_the_own_body_ends_the_game() {
    let mut game = Game::new(10, 10);
    game.handle_key_press(Key::Right);
    assert_eq!(game.snake().head_direction(), Direction::Right);
    game.update(STEP);
    assert!(game.is_over());
    assert_eq!(game.snake().segments(), vec![(2, 2), (3, 2), (4, 2)]);
    assert_eq!(game.waiting_time(), 0);
}

#[test]
fn a_tight_loop_ends_the_game() {
    let mut game = Game::new(10, 10);
    assert!(game.place_food_at(2, 3));
    game.update(STEP);
    assert_eq!(game.snake().segments().len(), 4);
    assert!(game.place_food_at(8, 8));
    game.handle_key_press(Key::Right);
    game.update(STEP);
    assert_eq!(game.snake().segments(), vec![(3, 3), (2, 3), (2, 2), (3, 2)]);
    assert!(!game.is_over());
    game.handle_key_press(Key::Up);
    game.update(STEP);
    assert!(game.is_over());
    assert_eq!(game.snake().segments(), vec![(3, 3), (2, 3), (2, 2), (3, 2)]);
    assert_eq!(game.food(), Some((8, 8)));
}

#[test]
fn running_into_the_wall_ends_the_game() {
    let mut game = Game::new(10, 6);
    game.update(STEP);
    game.update(STEP);
    assert_eq!(game.snake().head_position(), (2, 4));
    assert!(!game.is_over());
    game.update(STEP);
    assert!(game.is_over());
    assert_eq!(game.snake().segments(), vec![(2, 4), (2, 3), (2, 2)]);
}

#[test]
fn running_into_the_left_wall_ends_the_game() {
    let mut game = Game::new(10, 10);
    game.handle_key_press(Key::Left);
    game.update(STEP);
    assert_eq!(game.snake().head_position(), (1, 2));
    game.update(STEP);
    assert!(game.is_over());
    assert_eq!(game.snake().head_position(), (1, 2));
}

#[test]
fn a_finished_game_does_not_move() {
    let mut game = Game::new(10, 10);
    game.handle_key_press(Key::Right);
    game.update(STEP);
    assert!(game.is_over());
    game.update(STEP);
    game.update(STEP);
    assert!(game.is_over());
    assert_eq!(game.snake().segments(), vec![(2, 2), (3, 2), (4, 2)]);
    assert_eq!(game.waiting_time(), 2 * STEP);
}

#[test]
fn a_finished_game_restarts_after_the_restart_time() {
    let mut game = Game::new(10, 10);
    game.update(STEP);
    game.handle_key_press(Key::Right);
    game.update(STEP);
    game.update(STEP);
    game.handle_key_press(Key::Up);
    game.update(STEP);
    game.handle_key_press(Key::Left);
    game.update(STEP);
    game.update(STEP);
    game.update(STEP);
    game.update(STEP);
    assert!(game.is_over());
    game.update(400_000);
    assert!(game.is_over());
    game.update(400_000);
    assert!(game.is_over());
    game.update(400_000);
    assert_fresh(&game, 10, 10);
}

#[test]
fn a_finished_game_does_not_restart_at_exactly_the_restart_time() {
    let mut game = Game::new(10, 10);
    game.handle_key_press(Key::Right);
    game.update(STEP);
    assert!(game.is_over());
    game.update(RESTART_TIME);
    assert!(game.is_over());
    assert_eq!(game.waiting_time(), RESTART_TIME);
    game.update(1);
    assert_fresh(&game, 10, 10);
}

#[test]
fn a_finished_game_survives_the_longest_delay() {
    let mut game = Game::new(10, 10);
    game.handle_key_press(Key::Right);
    game.update(STEP);
    game.update(900_000);
    assert!(game.is_over());
    game.update(u64::MAX);
    assert_fresh(&game, 10, 10);
}

#[test]
fn any_key_restarts_a_finished_game() {
    for key in [Key::Up, Key::Down, Key::Left, Key::Right, Key::Other] {
        let mut game = Game::new(10, 10);
        game.update(STEP);
        game.handle_key_press(Key::Left);
        game.update(STEP);
        game.update(STEP);
        assert!(game.is_over());
        game.update(300_000);
        game.handle_key_press(key);
        assert_fresh(&game, 10, 10);
    }
}

#[test]
fn restart_gives_the_fresh_game_on_the_same_grid() {
    let mut game = Game::new(12, 9);
    assert!(game.place_food_at(2, 3));
    game.update(STEP);
    game.handle_key_press(Key::Left);
    game.update(50_000);
    game.restart();
    assert_fresh(&game, 12, 9);
}

#[test]
fn a_reversal_leaves_the_heading_unchanged() {
    let mut game = Game::new(10, 10);
    game.handle_key_press(Key::Up);
    assert_eq!(game.snake().head_direction(), Direction::Down);
    game.handle_key_press(Key::Left);
    assert_eq!(game.snake().head_direction(), Direction::Left);
    game.handle_key_press(Key::Right);
    assert_eq!(game.snake().head_direction(), Direction::Left);
    game.handle_key_press(Key::Up);
    assert_eq!(game.snake().head_direction(), Direction::Up);
    game.handle_key_press(Key::Down);
    assert_eq!(game.snake().head_direction(), Direction::Up);
    game.handle_key_press(Key::Right);
    assert_eq!(game.snake().head_direction(), Direction::Right);
    game.handle_key_press(Key::Left);
    assert_eq!(game.snake().head_direction(), Direction::Right);
    assert_eq!(game.snake().segments(), vec![(2, 2), (3, 2), (4, 2)]);
}

#[test]
fn an_arrow_sets_the_heading_of_the_next_step() {
    let mut game = Game::new(10, 10);
    game.update(STEP);
    game.handle_key_press(Key::Right);
    assert_eq!(game.snake().head_direction(), Direction::Right);
    assert_eq!(game.snake().segments(), vec![(2, 3), (2, 2), (3, 2)]);
    game.update(STEP);
    assert_eq!(game.snake().segments(), vec![(3, 3), (2, 3), (2, 2)]);
}

#[test]
fn another_key_changes_nothing_in_a_running_game() {
    let mut game = Game::new(10, 10);
    game.update(60_000);
    game.handle_key_press(Key::Other);
    assert_eq!(game.snake().head_direction(), Direction::Down);
    assert_eq!(game.snake().segments(), vec![(2, 2), (3, 2), (4, 2)]);
    assert_eq!(game.waiting_time(), 60_000);
    assert!(!game.is_over());
}

#[test]
fn a_key_press_leaves_the_clock_of_a_running_game_alone() {
    let mut game = Game::new(10, 10);
    game.update(60_000);
    game.handle_key_press(Key::Left);
    assert_eq!(game.waiting_time(), 60_000);
    game.update(60_000);
    assert_eq!(game.snake().head_position(), (1, 2));
}

#[test]
fn move_snake_takes_the_given_heading() {
    let mut game = Game::new(10, 10);
    game.update(60_000);
    game.move_snake(Some(Direction::Left));
    assert_eq!(game.snake().segments(), vec![(1, 2), (2, 2), (3, 2)]);
    assert_eq!(game.snake().head_direction(), Direction::Left);
    assert_eq!(game.waiting_time(), 0);
    game.move_snake(None);
    assert!(game.is_over());
    assert_eq!(game.snake().segments(), vec![(1, 2), (2, 2), (3, 2)]);
}

#[test]
fn a_deadly_step_keeps_the_old_heading() {
    let mut game = Game::new(10, 10);
    game.move_snake(Some(Direction::Right));
    assert!(game.is_over());
    assert_eq!(game.snake().head_direction(), Direction::Down);
}

#[test]
fn the_snake_dies_at_once_on_a_grid_without_interior() {
    for (w, h) in [(0u32, 0u32), (1, 1), (2, 2), (3, 3), (0, 30), (50, 0)] {
        let mut game = Game::new(w, h);
        game.update(STEP);
        assert!(game.is_over());
        assert_eq!(game.snake().segments(), vec![(2, 2), (3, 2), (4, 2)]);
    }
}

#[test]
fn border_rects_are_the_four_edges() {
    let game = Game::new(50, 30);
    assert_eq!(
        game.border_rects(),
        vec![
            Rect { x: 0, y: 0, width: 50, height: 1 },
            Rect { x: 0, y: 29, width: 50, height: 1 },
            Rect { x: 0, y: 0, width: 1, height: 30 },
            Rect { x: 49, y: 0, width: 1, height: 30 },
        ]
    );
}

#[test]
fn border_rects_of_a_single_cell() {
    let game = Game::new(1, 1);
    let cell = Rect { x: 0, y: 0, width: 1, height: 1 };
    assert_eq!(game.border_rects(), vec![cell, cell, cell, cell]);
}

#[test]
fn a_grid_without_cells_has_no_border() {
    assert_eq!(Game::new(0, 30).border_rects(), vec![]);
    assert_eq!(Game::new(50, 0).border_rects(), vec![]);
    assert_eq!(Game::new(0, 0).border_rects(), vec![]);
}

#[test]
fn border_rects_cover_the_cells_on_which_nothing_lives() {
    let game = Game::new(7, 5);
    let rects = game.border_rects();
    let free = Game::new(7, 5);
    for x in 0..7u32 {
        for y in 0..5u32 {
            let covered = rects
                .iter()
                .any(|r| r.x <= x && x < r.x + r.width && r.y <= y && y < r.y + r.height);
            let edge = x == 0 || x == 6 || y == 0 || y == 4;
            assert_eq!(covered, edge);
            if covered {
                assert!(!free.snake().is_alive(7, 5, (x, y)));
            }
        }
    }
}
