use conways::cell::Cell;

#[test]
fn negation_swaps_the_two_states() {
    assert_eq!(!Cell::Dead, Cell::Alive);
    assert_eq!(!Cell::Alive, Cell::Dead);
}

#[test]
fn negation_is_an_involution() {
    for cell in [Cell::Dead, Cell::Alive] {
        assert_eq!(!!cell, cell);
        assert_ne!(!cell, cell);
    }
}

#[test]
fn from_alive_and_is_alive_agree() {
    assert_eq!(Cell::from_alive(true), Cell::Alive);
    assert_eq!(Cell::from_alive(false), Cell::Dead);
    assert!(Cell::Alive.is_alive());
    assert!(!Cell::Dead.is_alive());
}
