use life_grid::world::World;

#[test]
fn new_world_is_all_dead() {
    let w = World::new(3, 2);
    for y in 0..2 {
        for x in 0..3 {
            assert!(!w.get(x, y));
        }
    }
    assert_eq!(w.render(), "~~~\n~~~\n");
}

#[test]
fn zero_size_world_renders_empty() {
    let w = World::new(0, 0);
    assert_eq!(w.render(), "");
    let tall = World::new(0, 2);
    assert_eq!(tall.render(), "\n\n");
}

#[test]
fn set_then_get_round_trip() {
    let mut w = World::new(4, 4);
    w.set(2, 1, true);
    assert!(w.get(2, 1));
    w.set(2, 1, false);
    assert!(!w.get(2, 1));
}

#[test]
fn set_leaves_other_cells_alone() {
    let mut w = World::new(3, 3);
    w.set(1, 1, true);
    for y in 0..3 {
        for x in 0..3 {
            assert_eq!(w.get(x, y), x == 1 && y == 1);
        }
    }
}

#[test]
fn render_uses_hash_for_alive() {
    let mut w = World::new(2, 2);
    w.set(0, 0, true);
    w.set(1, 1, true);
    assert_eq!(w.render_row(0), "#~");
    assert_eq!(w.render_row(1), "~#");
    assert_eq!(w.render(), "#~\n~#\n");
}

#[test]
fn corner_count_is_truncated_to_three() {
    let mut w = World::new(3, 3);
    for y in 0..3 {
        for x in 0..3 {
            w.set(x, y, true);
        }
    }
    assert_eq!(w.count_neighbors(0, 0), 3);
    assert_eq!(w.count_neighbors(2, 2), 3);
    assert_eq!(w.count_neighbors(1, 0), 5);
    assert_eq!(w.count_neighbors(1, 1), 8);
}

#[test]
fn lone_cell_dies() {
    let mut w = World::new(3, 3);
    w.set(1, 1, true);
    let next = w.next_generation();
    assert_eq!(next.render(), "~~~\n~~~\n~~~\n");
}

#[test]
fn dead_cell_with_three_neighbors_is_born() {
    let mut w = World::new(3, 3);
    w.set(0, 0, true);
    w.set(1, 0, true);
    w.set(0, 1, true);
    let next = w.next_generation();
    assert!(next.get(1, 1));
}

#[test]
fn block_is_a_still_life() {
    let mut w = World::new(4, 4);
    w.set(1, 1, true);
    w.set(2, 1, true);
    w.set(1, 2, true);
    w.set(2, 2, true);
    let before = w.render();
    let next = w.next_generation();
    assert_eq!(next.render(), before);
}

#[test]
fn blinker_oscillates_with_period_two() {
    let mut w = World::new(3, 3);
    w.set(1, 0, true);
    w.set(1, 1, true);
    w.set(1, 2, true);
    let first = w.next_generation();
    assert_eq!(first.render(), "~~~\n###\n~~~\n");
    let second = first.next_generation();
    assert_eq!(second.render(), w.render());
}

#[test]
fn blinker_oscillates_in_a_larger_world() {
    let mut w = World::new(5, 5);
    w.set(1, 0, true);
    w.set(1, 1, true);
    w.set(1, 2, true);
    let first = w.next_generation();
    assert_eq!(first.render(), "~~~~~\n###~~\n~~~~~\n~~~~~\n~~~~~\n");
    let second = first.next_generation();
    assert_eq!(second.render(), w.render());
}

#[test]
fn next_generation_is_deterministic() {
    let mut w = World::new(6, 6);
    w.set(1, 1, true);
    w.set(2, 1, true);
    w.set(3, 1, true);
    w.set(3, 2, true);
    w.set(2, 3, true);
    let a = w.next_generation();
    let b = w.next_generation();
    assert_eq!(a.render(), b.render());
}

#[test]
fn next_generation_leaves_the_input_unchanged() {
    let mut w = World::new(4, 4);
    w.set(1, 1, true);
    w.set(2, 2, true);
    let before = w.render();
    let _ = w.next_generation();
    assert_eq!(w.render(), before);
}

#[test]
fn render_is_rows_joined_by_newlines() {
    let mut w = World::new(4, 3);
    w.set(0, 0, true);
    w.set(3, 1, true);
    w.set(2, 2, true);
    let mut joined = String::new();
    for y in 0..3 {
        joined.push_str(&w.render_row(y));
        joined.push('\n');
    }
    assert_eq!(w.render(), joined);
}

#[test]
fn set_rows_stamps_a_pattern() {
    let mut w = World::new(5, 4);
    let pattern = vec![vec![true, false, true], vec![false, true, false]];
    w.set_rows(1, 1, &pattern);
    assert_eq!(w.render(), "~~~~~\n~#~#~\n~~#~~\n~~~~~\n");
}

#[test]
fn set_rows_accepts_ragged_rows() {
    let mut w = World::new(4, 3);
    let pattern = vec![vec![true], vec![true, true, true]];
    w.set_rows(0, 0, &pattern);
    assert_eq!(w.render(), "#~~~\n###~\n~~~~\n");
}
