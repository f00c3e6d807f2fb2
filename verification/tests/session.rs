use conways::cell::Cell::{Alive, Dead};
use conways::grid::Grid;
use conways::session::{Command, Session};

fn alive_in(grid: &Grid) -> usize {
    grid.cells().iter().flatten().filter(|cell| **cell == Alive).count()
}

#[test]
fn new_session_is_paused_and_dead() {
    let session = Session::new(5, 8);
    assert!(session.paused);
    assert!(session.show_info);
    assert_eq!(session.grid.rows(), 5);
    assert_eq!(session.grid.cols(), 8);
    assert_eq!(alive_in(&session.grid), 0);
}

#[test]
fn quit_is_reported_and_changes_nothing() {
    let mut session = Session::new(3, 3);
    session.click(1, 1);
    let before = session.grid.cells().clone();
    assert!(session.handle_command(Command::Quit));
    assert!(session.paused);
    assert!(session.show_info);
    assert_eq!(session.grid.cells(), &before);
}

#[test]
fn toggles_flip_their_flag() {
    let mut session = Session::new(3, 3);
    assert!(!session.handle_command(Command::TogglePause));
    assert!(!session.paused);
    assert!(session.show_info);
    assert!(!session.handle_command(Command::ToggleInfo));
    assert!(!session.paused);
    assert!(!session.show_info);
    assert!(!session.handle_command(Command::TogglePause));
    assert!(session.paused);
    assert!(!session.handle_command(Command::ToggleInfo));
    assert!(session.show_info);
}

#[test]
fn clear_gives_a_dead_grid_of_the_same_size() {
    let mut session = Session::new(4, 6);
    session.click(0, 0);
    session.click(3, 5);
    assert_eq!(alive_in(&session.grid), 2);
    assert!(!session.handle_command(Command::Clear));
    assert_eq!(session.grid.rows(), 4);
    assert_eq!(session.grid.cols(), 6);
    assert_eq!(alive_in(&session.grid), 0);
    assert!(session.paused);
}

#[test]
fn randomize_keeps_the_size() {
    let mut session = Session::new(16, 16);
    assert!(!session.handle_command(Command::Randomize));
    assert_eq!(session.grid.rows(), 16);
    assert_eq!(session.grid.cols(), 16);
    let first = session.grid.cells().clone();
    assert!(!session.handle_command(Command::Randomize));
    assert_ne!(session.grid.cells(), &first);
    assert!(session.paused);
    assert!(session.show_info);
}

#[test]
fn paused_session_does_not_advance() {
    let mut session = Session::new(3, 3);
    session.click(1, 1);
    assert!(!session.tick());
    assert_eq!(session.grid.get(1, 1), Alive);
}

#[test]
fn running_session_advances_once_per_tick() {
    let mut session = Session::new(3, 3);
    session.click(1, 0);
    session.click(1, 1);
    session.click(1, 2);
    session.handle_command(Command::TogglePause);
    assert!(session.tick());
    assert_eq!(
        session.grid.cells(),
        &vec![
            vec![Dead, Alive, Dead],
            vec![Dead, Alive, Dead],
            vec![Dead, Alive, Dead],
        ]
    );
    assert!(!session.paused);
}

#[test]
fn click_edits_only_while_paused() {
    let mut session = Session::new(3, 3);
    assert!(session.click(2, 0));
    assert_eq!(session.grid.get(2, 0), Alive);
    assert!(session.click(2, 0));
    assert_eq!(session.grid.get(2, 0), Dead);
    session.handle_command(Command::TogglePause);
    assert!(!session.click(2, 0));
    assert_eq!(session.grid.get(2, 0), Dead);
}
