use snaky::game::App;
use snaky::game::KeyPress;
use snaky::snake::Cell;
use snaky::snake::GRID_UNIT;
use snaky::snake::Heading;
use snaky::snake::Snake;
use snaky::snake::Square;
use snaky::snake::opposite_exec;

#[test]
fn new_snake_starts_with_two_cells_heading_right() {
    let s = Snake::new();
    assert_eq!(s.body, vec![Cell { x: 0, y: 0 }, Cell { x: 0, y: 1 }]);
    assert_eq!(s.dir, Heading::Right);
}

#[test]
fn advance_moves_head_and_drops_tail() {
    let mut s = Snake::new();
    s.advance();
    assert_eq!(s.body, vec![Cell { x: 1, y: 0 }, Cell { x: 0, y: 0 }]);
    assert_eq!(s.dir, Heading::Right);
}

#[test]
fn advance_conserves_length() {
    let mut s = Snake::new();
    let start_len = s.body.len();
    for i in 0..50 {
        if i % 7 == 0 {
            s.set_heading(Heading::Up);
        }
        if i % 11 == 0 {
            s.set_heading(Heading::Right);
        }
        s.advance();
        assert_eq!(s.body.len(), start_len);
    }
}

#[test]
fn reversal_is_rejected() {
    let mut s = Snake::new();
    assert_eq!(s.dir, Heading::Right);
    s.set_heading(Heading::Left);
    assert_eq!(s.dir, Heading::Right);
}

#[test]
fn perpendicular_is_accepted() {
    let mut s = Snake::new();
    s.set_heading(Heading::Up);
    assert_eq!(s.dir, Heading::Up);
}

#[test]
fn same_heading_is_accepted_and_idempotent() {
    let mut s = Snake::new();
    s.set_heading(Heading::Right);
    assert_eq!(s.dir, Heading::Right);
    s.set_heading(Heading::Right);
    assert_eq!(s.dir, Heading::Right);
}

#[test]
fn opposite_request_is_noop_for_every_heading() {
    for h in [Heading::Right, Heading::Left, Heading::Up, Heading::Down] {
        let mut s = Snake::new();
        s.dir = h;
        let body_before = s.body.clone();
        s.set_heading(opposite_exec(h));
        assert_eq!(s.dir, h);
        assert_eq!(s.body, body_before);
        s.set_heading(h);
        assert_eq!(s.dir, h);
        assert_eq!(s.body, body_before);
    }
}

#[test]
fn set_heading_leaves_body_untouched() {
    let mut s = Snake::new();
    let body_before = s.body.clone();
    s.set_heading(Heading::Down);
    assert_eq!(s.body, body_before);
}

#[test]
fn press_up_then_advance_twice() {
    let mut a = App::new();
    a.pressed(KeyPress::Up);
    assert!(a.can_update());
    a.update();
    assert_eq!(a.snake.body, vec![Cell { x: 0, y: -1 }, Cell { x: 0, y: 0 }]);
    a.update();
    assert_eq!(a.snake.body, vec![Cell { x: 0, y: -2 }, Cell { x: 0, y: -1 }]);
}

#[test]
fn every_direction_key_maps_to_its_heading() {
    let mut a = App::new();
    a.pressed(KeyPress::Up);
    assert_eq!(a.snake.dir, Heading::Up);
    a.pressed(KeyPress::Left);
    assert_eq!(a.snake.dir, Heading::Left);
    a.pressed(KeyPress::Down);
    assert_eq!(a.snake.dir, Heading::Down);
    a.pressed(KeyPress::Right);
    assert_eq!(a.snake.dir, Heading::Right);
}

#[test]
fn other_keys_are_ignored() {
    let mut a = App::new();
    let body_before = a.snake.body.clone();
    a.pressed(KeyPress::Other);
    assert_eq!(a.snake.dir, Heading::Right);
    assert_eq!(a.snake.body, body_before);
}

#[test]
fn frame_draws_one_square_per_cell() {
    let a = App::new();
    let frame = a.frame();
    assert_eq!(frame.len(), a.snake.body.len());
    assert_eq!(
        frame,
        vec![
            Square { x: 0, y: 0, edge: GRID_UNIT },
            Square { x: 0, y: GRID_UNIT, edge: GRID_UNIT },
        ]
    );
}

#[test]
fn frame_scales_cells_by_the_grid_unit() {
    let mut s = Snake::new();
    s.body = vec![Cell { x: 3, y: -2 }, Cell { x: 3, y: -1 }, Cell { x: 2, y: -1 }];
    let squares = s.squares();
    assert_eq!(
        squares,
        vec![
            Square { x: 60, y: -40, edge: 20 },
            Square { x: 60, y: -20, edge: 20 },
            Square { x: 40, y: -20, edge: 20 },
        ]
    );
}

#[test]
fn frame_of_single_cell_body() {
    let mut s = Snake::new();
    s.body = vec![Cell { x: -1, y: 5 }];
    let squares = s.squares();
    assert_eq!(squares, vec![Square { x: -20, y: 100, edge: 20 }]);
    s.advance();
    assert_eq!(s.body, vec![Cell { x: 0, y: 5 }]);
}

#[test]
fn update_refused_at_the_coordinate_edge() {
    let mut a = App::new();
    a.snake.body = vec![Cell { x: i32::MAX, y: 0 }];
    assert!(!a.can_update());
    a.pressed(KeyPress::Up);
    assert!(a.can_update());
}
