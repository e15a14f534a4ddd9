use dexp_tablet::action::{parse_action, ActionSpec};
use dexp_tablet::button::{Edge, LogicalButton};
use dexp_tablet::config::{BindingTarget, Configuration, Polarity};
use dexp_tablet::device::{advertised_keys, binding_codes};
use dexp_tablet::resolve::{button_click, Action, OutputEvent};

const KEY_A: u16 = 30;
const KEY_LEFTCTRL: u16 = 29;
const REL_WHEEL: u16 = 8;

#[test]
fn unbound_button_yields_only_a_diagnostic() {
    let cfg = Configuration::new(0, false, false, false);
    let r = button_click(&cfg, LogicalButton::R3, Edge::Press);
    assert_eq!(r, vec![Action::Unbound(LogicalButton::R3)]);
    assert!(r.iter().all(|a| !matches!(a, Action::Emit(_))));
}

#[test]
fn key_binding_values_follow_edge() {
    let mut cfg = Configuration::new(0, false, false, false);
    cfg.set_binding(LogicalButton::L1, vec![BindingTarget::Key(KEY_LEFTCTRL), BindingTarget::Key(KEY_A)]);
    assert_eq!(
        button_click(&cfg, LogicalButton::L1, Edge::Press),
        vec![
            Action::Emit(OutputEvent::Key(KEY_LEFTCTRL, 1)),
            Action::Emit(OutputEvent::Key(KEY_A, 1)),
            Action::Emit(OutputEvent::Sync),
        ]
    );
    assert_eq!(
        button_click(&cfg, LogicalButton::L1, Edge::Release),
        vec![
            Action::Emit(OutputEvent::Key(KEY_LEFTCTRL, 0)),
            Action::Emit(OutputEvent::Key(KEY_A, 0)),
            Action::Emit(OutputEvent::Sync),
        ]
    );
}

#[test]
fn relative_binding_pulses_same_way_on_both_edges() {
    let mut cfg = Configuration::new(0, false, false, false);
    cfg.set_binding(LogicalButton::VpenMinus, vec![BindingTarget::RelativeAxis(REL_WHEEL, Polarity::Decrease)]);
    let expected = vec![
        Action::Emit(OutputEvent::Rel(REL_WHEEL, -1)),
        Action::Emit(OutputEvent::Sync),
        Action::Emit(OutputEvent::Sync),
    ];
    assert_eq!(button_click(&cfg, LogicalButton::VpenMinus, Edge::Press), expected);
    assert_eq!(button_click(&cfg, LogicalButton::VpenMinus, Edge::Release), expected);
}

#[test]
fn unresolved_alias_is_skipped_and_rest_runs() {
    let mut cfg = Configuration::new(0, false, false, false);
    cfg.set_binding(LogicalButton::R2, vec![BindingTarget::Unresolved, BindingTarget::Key(KEY_A)]);
    assert_eq!(
        button_click(&cfg, LogicalButton::R2, Edge::Press),
        vec![
            Action::UnknownAlias(LogicalButton::R2),
            Action::Emit(OutputEvent::Key(KEY_A, 1)),
            Action::Emit(OutputEvent::Sync),
        ]
    );
}

#[test]
fn set_binding_touches_one_button() {
    let mut cfg = Configuration::new(0, false, false, false);
    cfg.set_binding(LogicalButton::R6, vec![BindingTarget::Key(KEY_A)]);
    assert_eq!(cfg.binding_of(LogicalButton::R6), Some(&vec![BindingTarget::Key(KEY_A)]));
    assert_eq!(cfg.binding_of(LogicalButton::R5), None);
}

#[test]
fn advertised_codes_of_bindings() {
    let mut cfg = Configuration::new(0, false, false, false);
    cfg.set_binding(LogicalButton::VpenPlus, vec![BindingTarget::RelativeAxis(REL_WHEEL, Polarity::Increase)]);
    cfg.set_binding(LogicalButton::L2, vec![BindingTarget::Key(KEY_A), BindingTarget::Unresolved]);
    cfg.set_binding(LogicalButton::L1, vec![BindingTarget::Key(KEY_LEFTCTRL)]);
    assert_eq!(advertised_keys(&cfg), vec![0x140, 0x14a, KEY_LEFTCTRL, KEY_A]);
    assert_eq!(binding_codes(&cfg, true), vec![REL_WHEEL]);
    assert_eq!(binding_codes(&Configuration::new(0, false, false, false), true), Vec::<u16>::new());
}

#[test]
fn parse_key_name() {
    assert_eq!(parse_action(b"KEY_A"), ActionSpec::Key(b"KEY_A".to_vec()));
    assert_eq!(parse_action(b""), ActionSpec::Key(Vec::new()));
}

#[test]
fn parse_relative_descriptors() {
    assert_eq!(
        parse_action(b"@asRel_REL_WHEEL@ADD"),
        ActionSpec::Relative(b"REL_WHEEL".to_vec(), Polarity::Increase)
    );
    assert_eq!(
        parse_action(b"@asRel_REL_HWHEEL@REM"),
        ActionSpec::Relative(b"REL_HWHEEL".to_vec(), Polarity::Decrease)
    );
}

#[test]
fn parse_malformed_descriptors() {
    assert_eq!(parse_action(b"@asRel_REL_WHEEL"), ActionSpec::Malformed);
    assert_eq!(parse_action(b"@asRel_REL_WHEEL@UP"), ActionSpec::Malformed);
    assert_eq!(parse_action(b"@asRel_REL_WHEEL@ADDX"), ActionSpec::Malformed);
}

#[test]
fn parse_tag_ends_at_next_at_sign() {
    assert_eq!(
        parse_action(b"@asRel_REL_WHEEL@ADD@x"),
        ActionSpec::Relative(b"REL_WHEEL".to_vec(), Polarity::Increase)
    );
    assert_eq!(
        parse_action(b"@asRel_REL_WHEEL@REM@"),
        ActionSpec::Relative(b"REL_WHEEL".to_vec(), Polarity::Decrease)
    );
    assert_eq!(parse_action(b"@asRel_REL_WHEEL@@ADD"), ActionSpec::Malformed);
}
