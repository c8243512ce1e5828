use pacc::selection::{command_for, Command, Key, Outcome, SelectionState};
use pacc::source::PaOutput;

fn row(name: &str, is_active: bool) -> PaOutput {
    PaOutput {
        sink_name: String::from("sink"),
        sink_description: String::from("Sink"),
        port_name: String::from(name),
        port_description: String::from(name),
        is_active,
    }
}

/// A catalog of `len` rows in which row `active` is the active one, if given.
fn rows(len: usize, active: Option<usize>) -> Vec<PaOutput> {
    (0..len).map(|i| row(&format!("port{}", i), Some(i) == active)).collect()
}

#[test]
fn keys_stand_for_commands() {
    assert_eq!(command_for(Key::Up), Command::MoveUp);
    assert_eq!(command_for(Key::Down), Command::MoveDown);
    assert_eq!(command_for(Key::Enter), Command::Confirm);
    assert_eq!(command_for(Key::Char('x')), Command::Cancel);
    assert_eq!(command_for(Key::Char('X')), Command::Ignore);
    assert_eq!(command_for(Key::Char('q')), Command::Ignore);
    assert_eq!(command_for(Key::Other), Command::Ignore);
}

#[test]
fn chooser_starts_on_the_active_row() {
    for len in 1..6usize {
        for active in 0..len {
            let state = SelectionState::new(&rows(len, Some(active)));
            assert_eq!(state.highlighted_index(), Some(active));
            assert_eq!(state.outcome(), Outcome::Pending);
            assert_eq!(state.len(), len);
            assert!(state.is_pending());
        }
    }
}

#[test]
fn chooser_starts_on_the_first_row_where_none_is_active() {
    for len in 1..6usize {
        let state = SelectionState::new(&rows(len, None));
        assert_eq!(state.highlighted_index(), Some(0));
        assert_eq!(state.outcome(), Outcome::Pending);
    }
}

#[test]
fn chooser_starts_on_the_first_of_several_active_rows() {
    let catalog = vec![row("a", false), row("b", true), row("c", true)];
    assert_eq!(SelectionState::new(&catalog).highlighted_index(), Some(1));
}

#[test]
fn chooser_over_empty_catalog_starts_cancelled() {
    let state = SelectionState::new(&Vec::new());
    assert_eq!(state.outcome(), Outcome::Cancelled);
    assert_eq!(state.highlighted_index(), None);
    assert_eq!(state.confirmed_index(), None);
    assert!(!state.is_pending());
    assert_eq!(state.len(), 0);
}

#[test]
fn confirm_is_a_no_op_over_empty_catalog() {
    let mut state = SelectionState::new(&Vec::new());
    state.apply(Command::Confirm);
    assert_eq!(state.outcome(), Outcome::Cancelled);
    assert_eq!(state.highlighted_index(), None);
    for command in [Command::MoveUp, Command::MoveDown, Command::Cancel, Command::Ignore] {
        state.apply(command);
        assert_eq!(state.outcome(), Outcome::Cancelled);
        assert_eq!(state.highlighted_index(), None);
    }
}

#[test]
fn move_down_steps_to_the_next_row_and_wraps() {
    let mut state = SelectionState::new(&rows(3, None));
    state.apply(Command::MoveDown);
    assert_eq!(state.highlighted_index(), Some(1));
    state.apply(Command::MoveDown);
    assert_eq!(state.highlighted_index(), Some(2));
    state.apply(Command::MoveDown);
    assert_eq!(state.highlighted_index(), Some(0));
    assert_eq!(state.outcome(), Outcome::Pending);
}

#[test]
fn move_down_as_often_as_rows_returns_to_the_start() {
    for len in 1..8usize {
        for start in 0..len {
            let mut state = SelectionState::new(&rows(len, Some(start)));
            for _ in 0..len {
                state.apply(Command::MoveDown);
            }
            assert_eq!(state.highlighted_index(), Some(start));
            assert_eq!(state.outcome(), Outcome::Pending);
        }
    }
}

#[test]
fn move_up_from_first_row_wraps_to_last() {
    for len in 1..8usize {
        let mut state = SelectionState::new(&rows(len, None));
        state.apply(Command::MoveUp);
        assert_eq!(state.highlighted_index(), Some(len - 1));
    }
}

#[test]
fn move_up_steps_to_the_previous_row() {
    let mut state = SelectionState::new(&rows(4, Some(3)));
    state.apply(Command::MoveUp);
    assert_eq!(state.highlighted_index(), Some(2));
    state.apply(Command::MoveUp);
    assert_eq!(state.highlighted_index(), Some(1));
}

#[test]
fn move_up_undoes_move_down() {
    for len in 1..6usize {
        for start in 0..len {
            let mut state = SelectionState::new(&rows(len, Some(start)));
            state.apply(Command::MoveDown);
            state.apply(Command::MoveUp);
            assert_eq!(state.highlighted_index(), Some(start));
        }
    }
}

#[test]
fn single_row_stays_highlighted() {
    let mut state = SelectionState::new(&rows(1, None));
    state.apply(Command::MoveDown);
    assert_eq!(state.highlighted_index(), Some(0));
    state.apply(Command::MoveUp);
    assert_eq!(state.highlighted_index(), Some(0));
}

#[test]
fn cancel_clears_the_highlight_from_any_row() {
    for len in 1..6usize {
        for start in 0..len {
            let mut state = SelectionState::new(&rows(len, Some(start)));
            state.apply(Command::Cancel);
            assert_eq!(state.outcome(), Outcome::Cancelled);
            assert_eq!(state.highlighted_index(), None);
            assert_eq!(state.confirmed_index(), None);
        }
    }
}

#[test]
fn confirm_keeps_the_highlighted_row() {
    let mut state = SelectionState::new(&rows(3, Some(2)));
    assert_eq!(state.confirmed_index(), None);
    state.apply(Command::Confirm);
    assert_eq!(state.outcome(), Outcome::Confirmed);
    assert_eq!(state.highlighted_index(), Some(2));
    assert_eq!(state.confirmed_index(), Some(2));
    assert!(!state.is_pending());
}

#[test]
fn ignored_input_changes_nothing() {
    let mut state = SelectionState::new(&rows(3, Some(1)));
    state.apply(Command::Ignore);
    state.handle_key(Key::Other);
    state.handle_key(Key::Char('y'));
    assert_eq!(state.highlighted_index(), Some(1));
    assert_eq!(state.outcome(), Outcome::Pending);
}

#[test]
fn ended_selection_takes_no_more_commands() {
    let mut confirmed = SelectionState::new(&rows(3, Some(1)));
    confirmed.apply(Command::Confirm);
    for command in [Command::MoveUp, Command::MoveDown, Command::Cancel, Command::Confirm] {
        confirmed.apply(command);
        assert_eq!(confirmed.outcome(), Outcome::Confirmed);
        assert_eq!(confirmed.highlighted_index(), Some(1));
    }
    let mut cancelled = SelectionState::new(&rows(3, Some(1)));
    cancelled.apply(Command::Cancel);
    for command in [Command::MoveUp, Command::MoveDown, Command::Cancel, Command::Confirm] {
        cancelled.apply(command);
        assert_eq!(cancelled.outcome(), Outcome::Cancelled);
        assert_eq!(cancelled.highlighted_index(), None);
    }
}

#[test]
fn keys_drive_the_chooser() {
    let mut state = SelectionState::new(&rows(3, None));
    state.handle_key(Key::Down);
    state.handle_key(Key::Down);
    state.handle_key(Key::Up);
    assert_eq!(state.highlighted_index(), Some(1));
    state.handle_key(Key::Enter);
    assert_eq!(state.confirmed_index(), Some(1));
    let mut other = SelectionState::new(&rows(3, None));
    other.handle_key(Key::Char('x'));
    assert_eq!(other.outcome(), Outcome::Cancelled);
}
