use dexp_tablet::button::{button_from_index, Bank, ButtonState, Edge, LogicalButton, BUTTON_COUNT};

#[test]
fn new_state_is_all_released() {
    let st = ButtonState::new();
    for i in 0..BUTTON_COUNT {
        assert!(!st.is_pressed(button_from_index(i)));
    }
}

#[test]
fn indices_round_trip() {
    for i in 0..BUTTON_COUNT {
        assert_eq!(button_from_index(i).index(), i);
    }
    assert_eq!(LogicalButton::VpenMinus.index(), 13);
}

#[test]
fn idle_releases_pressed_button_once() {
    let mut st = ButtonState::new();
    assert_eq!(st.apply_bank(Bank::A, 127), vec![(LogicalButton::L2, Edge::Press)]);
    assert_eq!(st.apply_bank(Bank::A, 255), vec![(LogicalButton::L2, Edge::Release)]);
    assert!(!st.is_pressed(LogicalButton::L2));
    assert!(st.apply_bank(Bank::A, 255).is_empty());
}

#[test]
fn held_press_code_repeats_press() {
    let mut st = ButtonState::new();
    assert_eq!(st.apply_bank(Bank::A, 127), vec![(LogicalButton::L2, Edge::Press)]);
    assert_eq!(st.apply_bank(Bank::A, 127), vec![(LogicalButton::L2, Edge::Press)]);
    assert!(st.is_pressed(LogicalButton::L2));
}

#[test]
fn idle_releases_in_button_order() {
    let mut st = ButtonState::new();
    st.apply_bank(Bank::A, 251);
    st.apply_bank(Bank::A, 191);
    st.apply_bank(Bank::B, 35);
    assert_eq!(
        st.apply_bank(Bank::A, 255),
        vec![(LogicalButton::L3, Edge::Release), (LogicalButton::R6, Edge::Release)]
    );
    assert!(st.is_pressed(LogicalButton::R1));
    assert_eq!(st.apply_bank(Bank::B, 51), vec![(LogicalButton::R1, Edge::Release)]);
}

#[test]
fn bank_tables() {
    let a = [(127u8, LogicalButton::L2), (191, LogicalButton::L3), (223, LogicalButton::L4),
        (239, LogicalButton::L5), (247, LogicalButton::L6), (254, LogicalButton::R4),
        (253, LogicalButton::R5), (251, LogicalButton::R6)];
    for (v, b) in a {
        assert_eq!(Bank::A.pressed_by(v), Some(b));
        assert_eq!(b.bank(), Bank::A);
    }
    let bb = [(49u8, LogicalButton::L1), (35, LogicalButton::R1), (50, LogicalButton::R2),
        (19, LogicalButton::R3)];
    for (v, b) in bb {
        assert_eq!(Bank::B.pressed_by(v), Some(b));
    }
    assert_eq!(Bank::C.pressed_by(4), Some(LogicalButton::VpenPlus));
    assert_eq!(Bank::C.pressed_by(6), Some(LogicalButton::VpenMinus));
    assert_eq!(Bank::A.idle(), 255);
    assert_eq!(Bank::B.idle(), 51);
    assert_eq!(Bank::C.idle(), 2);
}

#[test]
fn unknown_values_are_ignored() {
    let mut st = ButtonState::new();
    st.apply_bank(Bank::C, 4);
    assert!(st.apply_bank(Bank::C, 0).is_empty());
    assert!(st.apply_bank(Bank::A, 4).is_empty());
    assert!(st.is_pressed(LogicalButton::VpenPlus));
    assert_eq!(Bank::B.pressed_by(127), None);
}
