use falling_sand::get_closest_coord;
use falling_sand::physics::{step_physics, update_game, Mouse};
use falling_sand::rng::rand_num;
use falling_sand::store::{create_block, delete_block, under_is_clear, Block, Type};

fn block(x: i32, y: i32, block_type: Type) -> Block {
    Block { x, y, block_type }
}

fn mouse(x: i32, y: i32, left: bool, right: bool, middle: bool) -> Mouse {
    Mouse {
        x,
        y,
        left_button_pressed: left,
        right_button_pressed: right,
        middle_button_pressed: middle,
    }
}

fn idle_mouse() -> Mouse {
    mouse(0, 0, false, false, false)
}

#[test]
fn snap_concrete_values() {
    assert_eq!(get_closest_coord(0), 0);
    assert_eq!(get_closest_coord(19), 0);
    assert_eq!(get_closest_coord(20), 20);
    assert_eq!(get_closest_coord(37), 20);
    assert_eq!(get_closest_coord(599), 580);
}

#[test]
fn snap_idempotent() {
    for n in [0, 7, 20, 37, 333, 599] {
        let once = get_closest_coord(n);
        assert_eq!(get_closest_coord(once), once);
        assert!(once <= n);
        assert_eq!(once % 20, 0);
    }
}

#[test]
fn create_then_delete_restores_store() {
    let prior = vec![
        block(0, 0, Type::Wall),
        block(200, 300, Type::Sand),
        block(40, 560, Type::Sand),
    ];
    let mut blocks = prior.clone();
    create_block(100, 100, Type::Sand, &mut blocks);
    assert_eq!(blocks.len(), 4);
    delete_block(100, 100, &mut blocks);
    assert_eq!(blocks, prior);
}

#[test]
fn lone_sand_reaches_bottom_row_and_rests() {
    let mut blocks = vec![block(100, 0, Type::Sand)];
    for step in 1..=29 {
        step_physics(&mut blocks);
        assert_eq!(blocks.len(), 1);
        assert_eq!(blocks[0].x, 100);
        assert_eq!(blocks[0].y, 20 * step);
    }
    assert_eq!(blocks[0].y, 580);
    for _ in 0..40 {
        step_physics(&mut blocks);
        assert_eq!(blocks[0], block(100, 580, Type::Sand));
    }
}

#[test]
fn wall_never_moves() {
    let mut blocks = vec![
        block(100, 100, Type::Wall),
        block(100, 120, Type::Sand),
        block(80, 100, Type::Sand),
        block(120, 100, Type::Sand),
        block(100, 80, Type::Sand),
    ];
    for _ in 0..100 {
        step_physics(&mut blocks);
        assert_eq!(blocks[0], block(100, 100, Type::Wall));
    }
}

#[test]
fn floating_wall_never_falls() {
    let mut blocks = vec![block(300, 40, Type::Wall)];
    for _ in 0..50 {
        step_physics(&mut blocks);
        assert_eq!(blocks, vec![block(300, 40, Type::Wall)]);
    }
}

#[test]
fn blocked_sand_spills_left_first() {
    let mut blocks = vec![block(100, 100, Type::Sand), block(100, 120, Type::Wall)];
    step_physics(&mut blocks);
    assert_eq!(blocks[0], block(80, 120, Type::Sand));
    assert_eq!(blocks[1], block(100, 120, Type::Wall));

    // same tie-break with a second sand grain stacked on the first
    let mut stacked = vec![
        block(100, 100, Type::Sand),
        block(100, 120, Type::Wall),
        block(100, 80, Type::Sand),
    ];
    step_physics(&mut stacked);
    assert_eq!(stacked[0], block(80, 120, Type::Sand));
    assert_eq!(stacked[1], block(100, 120, Type::Wall));
    assert_eq!(stacked[2], block(80, 100, Type::Sand));
}

#[test]
fn sand_with_left_blocked_spills_right() {
    let mut blocks = vec![
        block(100, 100, Type::Sand),
        block(100, 120, Type::Wall),
        block(80, 100, Type::Wall),
    ];
    step_physics(&mut blocks);
    assert_eq!(blocks[0], block(120, 120, Type::Sand));
}

#[test]
fn fully_blocked_sand_rests() {
    let mut blocks = vec![
        block(100, 100, Type::Sand),
        block(100, 120, Type::Wall),
        block(80, 100, Type::Wall),
        block(120, 120, Type::Wall),
    ];
    step_physics(&mut blocks);
    assert_eq!(blocks[0], block(100, 100, Type::Sand));

    let mut walled = vec![
        block(100, 100, Type::Sand),
        block(100, 120, Type::Wall),
        block(80, 120, Type::Wall),
        block(120, 100, Type::Wall),
    ];
    step_physics(&mut walled);
    assert_eq!(walled[0], block(100, 100, Type::Sand));
}

#[test]
fn delete_removes_earliest_match_only() {
    let mut blocks = vec![
        block(100, 100, Type::Sand),
        block(100, 100, Type::Wall),
        block(200, 200, Type::Sand),
    ];
    delete_block(100, 100, &mut blocks);
    assert_eq!(
        blocks,
        vec![block(100, 100, Type::Wall), block(200, 200, Type::Sand)]
    );
}

#[test]
fn delete_missing_position_is_noop() {
    let prior = vec![block(100, 100, Type::Sand), block(200, 200, Type::Wall)];
    let mut blocks = prior.clone();
    delete_block(300, 300, &mut blocks);
    assert_eq!(blocks, prior);
}

#[test]
fn holding_primary_creates_one_sand_per_tick() {
    let mut blocks: Vec<Block> = Vec::new();
    let held = mouse(105, 585, true, false, false);
    let k = 5;
    for _ in 0..k {
        update_game(&held, &mut blocks);
    }
    assert_eq!(blocks.len(), k);
    for b in &blocks {
        assert_eq!(*b, block(100, 580, Type::Sand));
    }
}

#[test]
fn creation_wins_over_deletion() {
    let mut blocks = vec![block(100, 580, Type::Sand)];
    let both = mouse(105, 585, true, false, true);
    update_game(&both, &mut blocks);
    assert_eq!(blocks.len(), 2);
    assert_eq!(blocks[0], block(100, 580, Type::Sand));
    assert_eq!(blocks[1], block(100, 580, Type::Sand));
}

#[test]
fn secondary_button_creates_wall() {
    let mut blocks: Vec<Block> = Vec::new();
    let held = mouse(45, 52, false, true, false);
    update_game(&held, &mut blocks);
    assert_eq!(blocks.len(), 1);
    assert_eq!(blocks[0].block_type, Type::Wall);
    assert_eq!((blocks[0].x, blocks[0].y), (40, 40));
}

#[test]
fn primary_wins_over_secondary() {
    let mut blocks: Vec<Block> = Vec::new();
    let both = mouse(45, 585, true, true, false);
    update_game(&both, &mut blocks);
    assert_eq!(blocks, vec![block(40, 580, Type::Sand)]);
}

#[test]
fn middle_button_deletes_at_snapped_cell() {
    let mut blocks = vec![block(100, 580, Type::Wall), block(200, 580, Type::Wall)];
    let deleting = mouse(110, 590, false, false, true);
    update_game(&deleting, &mut blocks);
    assert_eq!(blocks, vec![block(200, 580, Type::Wall)]);
}

#[test]
fn idle_tick_on_empty_store_is_noop() {
    let mut blocks: Vec<Block> = Vec::new();
    update_game(&idle_mouse(), &mut blocks);
    assert!(blocks.is_empty());
}

#[test]
fn tick_runs_physics_after_creation() {
    let mut blocks: Vec<Block> = Vec::new();
    // created at (100, 0), then the tick's own physics step drops it one cell
    let held = mouse(100, 10, true, false, false);
    update_game(&held, &mut blocks);
    assert_eq!(blocks, vec![block(100, 20, Type::Sand)]);
}

#[test]
fn clearance_on_empty_store_is_all_clear() {
    let blocks: Vec<Block> = Vec::new();
    let r = under_is_clear(100, 100, &blocks);
    assert_eq!(r, (true, true, true, true, true));
}

#[test]
fn clearance_reports_each_neighbor() {
    let blocks = vec![
        block(80, 100, Type::Wall),   // left
        block(80, 120, Type::Sand),   // down-left
        block(100, 120, Type::Wall),  // down
        block(120, 120, Type::Sand),  // down-right
        block(120, 100, Type::Wall),  // right
    ];
    let r = under_is_clear(100, 100, &blocks);
    assert_eq!(r, (false, false, false, false, false));
    // a block on the queried cell itself does not count as a neighbor
    let self_only = vec![block(100, 100, Type::Sand)];
    assert_eq!(under_is_clear(100, 100, &self_only), (true, true, true, true, true));
    // kind does not matter, only occupancy
    let sand_below = vec![block(100, 120, Type::Sand)];
    assert_eq!(under_is_clear(100, 100, &sand_below).2, false);
}

#[test]
fn stacked_sand_judges_moves_against_pre_step_store() {
    // three sand grains in one column: the bottom one rests, and both upper
    // ones see the pre-step configuration, so each spills down-left
    let mut blocks = vec![
        block(100, 580, Type::Sand),
        block(100, 560, Type::Sand),
        block(100, 540, Type::Sand),
    ];
    step_physics(&mut blocks);
    assert_eq!(blocks[0], block(100, 580, Type::Sand));
    assert_eq!(blocks[1], block(80, 580, Type::Sand));
    assert_eq!(blocks[2], block(80, 560, Type::Sand));
}

#[test]
fn physics_step_preserves_store_length() {
    let mut blocks = vec![
        block(0, 0, Type::Sand),
        block(0, 20, Type::Sand),
        block(500, 580, Type::Wall),
        block(500, 560, Type::Sand),
    ];
    for _ in 0..35 {
        step_physics(&mut blocks);
        assert_eq!(blocks.len(), 4);
    }
}

#[test]
fn rand_num_yields_valid_cell_origins() {
    for _ in 0..200 {
        let r = rand_num();
        assert!((0..=580).contains(&r));
        assert_eq!(r % 20, 0);
    }
}
