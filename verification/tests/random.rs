use cookie_board::{AppState, Generator, Item};

const EMPTY_BOARD: &str = "⬜⬜⬜⬜⬜⬜\n⬜⬛⬛⬛⬛⬜\n⬜⬛⬛⬛⬛⬜\n⬜⬛⬛⬛⬛⬜\n⬜⬛⬛⬛⬛⬜\n⬜⬜⬜⬜⬜⬜\n";

fn draw_many(generator: &mut Generator, n: usize) -> Vec<bool> {
    let mut draws = Vec::new();
    for _ in 0..n {
        draws.push(generator.draw_bool());
    }
    draws
}

#[test]
fn fresh_generators_draw_the_same() {
    let mut first = Generator::new();
    let mut second = Generator::new();
    assert_eq!(draw_many(&mut first, 200), draw_many(&mut second, 200));
}

#[test]
fn generator_reset_starts_the_stream_over() {
    let mut generator = Generator::new();
    let before = draw_many(&mut generator, 64);
    generator.reset();
    assert_eq!(draw_many(&mut generator, 64), before);
    draw_many(&mut generator, 7);
    generator.reset();
    assert_eq!(draw_many(&mut generator, 64), before);
}

#[test]
fn stream_has_both_values() {
    let mut generator = Generator::new();
    let draws = draw_many(&mut generator, 64);
    assert!(draws.contains(&true));
    assert!(draws.contains(&false));
}

#[test]
fn first_draws_of_the_stream() {
    let mut generator = Generator::new();
    assert_eq!(
        draw_many(&mut generator, 16),
        vec![
            true, true, true, true, false, true, true, false, false, false, false, false, true,
            false, true, false
        ]
    );
}

#[test]
fn fill_lays_draws_out_from_the_top_row_down() {
    let mut state = AppState::new();
    state.fill_from(&[
        true, true, true, true, false, true, true, false, false, false, false, false, true,
        false, true, false,
    ]);
    assert_eq!(
        state.get_display_string(),
        "⬜⬜⬜⬜⬜⬜\n⬜🍪🍪🍪🍪⬜\n⬜🥛🍪🍪🥛⬜\n⬜🥛🥛🥛🥛⬜\n⬜🍪🥛🍪🥛⬜\n⬜⬜⬜⬜⬜⬜\n🥛 wins!\n"
    );
}

#[test]
fn fill_replaces_what_was_on_the_board() {
    let mut state = AppState::new();
    assert!(state.place(Item::Cookie, 0));
    assert!(state.place(Item::Cookie, 0));
    state.fill_from(&[
        false, false, true, true, true, true, false, false, false, false, true, true, true,
        true, false, false,
    ]);
    assert_eq!(
        state.get_display_string(),
        "⬜⬜⬜⬜⬜⬜\n⬜🥛🥛🍪🍪⬜\n⬜🍪🍪🥛🥛⬜\n⬜🥛🥛🍪🍪⬜\n⬜🍪🍪🥛🥛⬜\n⬜⬜⬜⬜⬜⬜\nNo winner.\n"
    );
    assert!(!state.place(Item::Milk, 1));
}

#[test]
fn fill_with_one_item_is_won_by_the_first_column() {
    let mut state = AppState::new();
    state.fill_from(&[true; 16]);
    assert!(state.get_display_string().ends_with("⬜⬜⬜⬜⬜⬜\n🍪 wins!\n"));
    state.fill_from(&[false; 16]);
    assert!(state.get_display_string().ends_with("⬜⬜⬜⬜⬜⬜\n🥛 wins!\n"));
}

#[test]
fn fill_where_two_items_fill_a_line_each_goes_to_the_first_line() {
    let mut state = AppState::new();
    state.fill_from(&[
        true, false, true, false, true, false, false, true, true, false, true, false, true,
        false, false, true,
    ]);
    assert_eq!(
        state.get_display_string(),
        "⬜⬜⬜⬜⬜⬜\n⬜🍪🥛🍪🥛⬜\n⬜🍪🥛🥛🍪⬜\n⬜🍪🥛🍪🥛⬜\n⬜🍪🥛🥛🍪⬜\n⬜⬜⬜⬜⬜⬜\n🍪 wins!\n"
    );
}

#[test]
fn random_board_follows_the_stream() {
    let mut generator = Generator::new();
    let mut draws = [false; 16];
    for slot in draws.iter_mut() {
        *slot = generator.draw_bool();
    }
    let mut expected = AppState::new();
    expected.fill_from(&draws);

    let mut state = AppState::new();
    state.random_board();
    assert_eq!(state.get_display_string(), expected.get_display_string());

    for slot in draws.iter_mut() {
        *slot = generator.draw_bool();
    }
    expected.fill_from(&draws);
    state.random_board();
    assert_eq!(state.get_display_string(), expected.get_display_string());
}

#[test]
fn random_boards_of_fresh_sessions_agree() {
    let mut first = AppState::new();
    let mut second = AppState::new();
    first.random_board();
    second.random_board();
    assert_eq!(first.get_display_string(), second.get_display_string());
    assert!(!first.get_display_string().contains('⬛'));
}

#[test]
fn random_board_differs_from_the_one_before() {
    let mut state = AppState::new();
    state.random_board();
    let first = state.get_display_string();
    state.random_board();
    let second = state.get_display_string();
    assert_ne!(first, second);
}

#[test]
fn random_board_repeats_after_the_generator_is_reset() {
    let mut state = AppState::new();
    state.random_board();
    let first = state.get_display_string();
    state.random_board();
    state.reset();
    state.reset_rng();
    assert_eq!(state.get_display_string(), EMPTY_BOARD);
    state.random_board();
    assert_eq!(state.get_display_string(), first);
}

#[test]
fn board_reset_leaves_the_generator_where_it_is() {
    let mut state = AppState::new();
    state.random_board();
    let first = state.get_display_string();
    state.random_board();
    let second = state.get_display_string();

    let mut other = AppState::new();
    other.random_board();
    other.reset();
    assert_eq!(other.get_display_string(), EMPTY_BOARD);
    other.random_board();
    assert_eq!(other.get_display_string(), second);
    assert_ne!(other.get_display_string(), first);
}

#[test]
fn generator_reset_leaves_the_board_as_it_is() {
    let mut state = AppState::new();
    assert!(state.place(Item::Milk, 1));
    let before = state.get_display_string();
    state.reset_rng();
    assert_eq!(state.get_display_string(), before);
}

#[test]
fn first_random_boards_of_a_session() {
    let mut state = AppState::new();
    state.random_board();
    assert_eq!(
        state.get_display_string(),
        "⬜⬜⬜⬜⬜⬜\n⬜🍪🍪🍪🍪⬜\n⬜🥛🍪🍪🥛⬜\n⬜🥛🥛🥛🥛⬜\n⬜🍪🥛🍪🥛⬜\n⬜⬜⬜⬜⬜⬜\n🥛 wins!\n"
    );
    state.random_board();
    assert_eq!(
        state.get_display_string(),
        "⬜⬜⬜⬜⬜⬜\n⬜🍪🥛🍪🍪⬜\n⬜🥛🍪🥛🍪⬜\n⬜🥛🍪🍪🍪⬜\n⬜🍪🥛🥛🥛⬜\n⬜⬜⬜⬜⬜⬜\nNo winner.\n"
    );
}
