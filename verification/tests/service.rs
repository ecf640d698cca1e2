use cookie_board::service::{board, place, random_board, reset, RequestError};
use cookie_board::{AppState, Item};

const EMPTY_BOARD: &str = "⬜⬜⬜⬜⬜⬜\n⬜⬛⬛⬛⬛⬜\n⬜⬛⬛⬛⬛⬜\n⬜⬛⬛⬛⬛⬜\n⬜⬛⬛⬛⬛⬜\n⬜⬜⬜⬜⬜⬜\n";

#[test]
fn board_shows_the_session() {
    let mut state = AppState::new();
    assert_eq!(board(&state), EMPTY_BOARD);
    assert!(state.place(Item::Milk, 3));
    assert_eq!(board(&state), state.get_display_string());
}

#[test]
fn positions_count_from_one() {
    let mut state = AppState::new();
    let reply = place(&mut state, Item::Cookie, 1);
    assert_eq!(
        reply,
        Ok((
            true,
            "⬜⬜⬜⬜⬜⬜\n⬜⬛⬛⬛⬛⬜\n⬜⬛⬛⬛⬛⬜\n⬜⬛⬛⬛⬛⬜\n⬜🍪⬛⬛⬛⬜\n⬜⬜⬜⬜⬜⬜\n".to_string()
        ))
    );
    let reply = place(&mut state, Item::Milk, 4);
    assert_eq!(
        reply,
        Ok((
            true,
            "⬜⬜⬜⬜⬜⬜\n⬜⬛⬛⬛⬛⬜\n⬜⬛⬛⬛⬛⬜\n⬜⬛⬛⬛⬛⬜\n⬜🍪⬛⬛🥛⬜\n⬜⬜⬜⬜⬜⬜\n".to_string()
        ))
    );
}

#[test]
fn four_cookies_at_position_one_win() {
    let mut state = AppState::new();
    for _ in 0..3 {
        let (placed, text) = place(&mut state, Item::Cookie, 1).unwrap();
        assert!(placed);
        assert!(!text.contains("wins"));
    }
    assert_eq!(
        place(&mut state, Item::Cookie, 1),
        Ok((
            true,
            "⬜⬜⬜⬜⬜⬜\n⬜🍪⬛⬛⬛⬜\n⬜🍪⬛⬛⬛⬜\n⬜🍪⬛⬛⬛⬜\n⬜🍪⬛⬛⬛⬜\n⬜⬜⬜⬜⬜⬜\n🍪 wins!\n".to_string()
        ))
    );
}

#[test]
fn alternating_bottom_row_stays_open() {
    let mut state = AppState::new();
    assert!(place(&mut state, Item::Cookie, 1).unwrap().0);
    assert!(place(&mut state, Item::Milk, 2).unwrap().0);
    assert!(place(&mut state, Item::Cookie, 3).unwrap().0);
    assert_eq!(
        place(&mut state, Item::Milk, 4),
        Ok((
            true,
            "⬜⬜⬜⬜⬜⬜\n⬜⬛⬛⬛⬛⬜\n⬜⬛⬛⬛⬛⬜\n⬜⬛⬛⬛⬛⬜\n⬜🍪🥛🍪🥛⬜\n⬜⬜⬜⬜⬜⬜\n".to_string()
        ))
    );
}

#[test]
fn seventeenth_item_is_rejected() {
    let mut state = AppState::new();
    for position in 1..=4u16 {
        let (low, high) = if position <= 2 {
            (Item::Cookie, Item::Milk)
        } else {
            (Item::Milk, Item::Cookie)
        };
        for item in [low, high, low, high] {
            assert!(place(&mut state, item, position).unwrap().0);
        }
    }
    let full = "⬜⬜⬜⬜⬜⬜\n⬜🥛🥛🍪🍪⬜\n⬜🍪🍪🥛🥛⬜\n⬜🥛🥛🍪🍪⬜\n⬜🍪🍪🥛🥛⬜\n⬜⬜⬜⬜⬜⬜\nNo winner.\n";
    assert_eq!(board(&state), full);
    for position in 1..=4u16 {
        assert_eq!(place(&mut state, Item::Cookie, position), Ok((false, full.to_string())));
    }
}

#[test]
fn position_five_is_malformed() {
    let mut state = AppState::new();
    assert!(place(&mut state, Item::Milk, 2).unwrap().0);
    let before = board(&state);
    assert_eq!(place(&mut state, Item::Cookie, 5), Err(RequestError::PositionOutOfRange));
    assert_eq!(board(&state), before);
}

#[test]
fn position_zero_is_malformed() {
    let mut state = AppState::new();
    assert_eq!(place(&mut state, Item::Cookie, 0), Err(RequestError::PositionOutOfRange));
    assert_eq!(place(&mut state, Item::Cookie, u16::MAX), Err(RequestError::PositionOutOfRange));
    assert_eq!(board(&state), EMPTY_BOARD);
}

#[test]
fn malformed_position_is_an_error_even_when_the_game_is_over() {
    let mut state = AppState::new();
    for _ in 0..4 {
        assert!(place(&mut state, Item::Milk, 3).unwrap().0);
    }
    assert_eq!(place(&mut state, Item::Milk, 9), Err(RequestError::PositionOutOfRange));
    let (placed, text) = place(&mut state, Item::Milk, 1).unwrap();
    assert!(!placed);
    assert!(text.ends_with("🥛 wins!\n"));
}

#[test]
fn full_column_is_a_rejection_not_an_error() {
    let mut state = AppState::new();
    for item in [Item::Cookie, Item::Milk, Item::Cookie, Item::Milk] {
        assert!(place(&mut state, item, 2).unwrap().0);
    }
    let before = board(&state);
    assert_eq!(place(&mut state, Item::Cookie, 2), Ok((false, before)));
}

#[test]
fn session_reset_answers_with_the_empty_board() {
    let mut state = AppState::new();
    for _ in 0..4 {
        assert!(place(&mut state, Item::Cookie, 4).unwrap().0);
    }
    assert_eq!(reset(&mut state), EMPTY_BOARD);
    assert_eq!(board(&state), EMPTY_BOARD);
    assert!(place(&mut state, Item::Cookie, 4).unwrap().0);
}

#[test]
fn random_boards_after_session_resets_agree() {
    let mut state = AppState::new();
    let first = random_board(&mut state);
    let second = random_board(&mut state);
    assert_ne!(first, second);
    reset(&mut state);
    assert_eq!(random_board(&mut state), first);
    assert_eq!(random_board(&mut state), second);
    reset(&mut state);
    assert_eq!(random_board(&mut state), first);
    assert_eq!(board(&state), first);
}

#[test]
fn random_boards_of_two_sessions_agree() {
    let mut one = AppState::new();
    let mut other = AppState::new();
    reset(&mut one);
    reset(&mut other);
    assert_eq!(random_board(&mut one), random_board(&mut other));
    assert_eq!(random_board(&mut one), random_board(&mut other));
}

#[test]
fn random_board_is_full() {
    let mut state = AppState::new();
    let text = random_board(&mut state);
    assert!(!text.contains('⬛'));
    assert!(text.ends_with(" wins!\n") || text.ends_with("No winner.\n"));
    let (placed, after) = place(&mut state, Item::Cookie, 1).unwrap();
    assert!(!placed);
    assert_eq!(after, text);
}
