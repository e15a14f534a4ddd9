use dexp_tablet::config::{BindingTarget, Configuration, Polarity};
use dexp_tablet::button::LogicalButton;
use dexp_tablet::decode::SAMPLE_LEN;
use dexp_tablet::device::{bringup_transfers, is_tablet, PRODUCT_ID, VENDOR_ID};
use dexp_tablet::poll::{Poller, BTN_TOUCH};
use dexp_tablet::resolve::{AbsAxis, Action, OutputEvent};

const REL_WHEEL: u16 = 8;
const KEY_B: u16 = 48;

fn sample(bank_a: u8, bank_b: u8, bank_c: u8, deep: u8) -> Vec<u8> {
    let mut b = vec![0u8; SAMPLE_LEN];
    b[1] = 2;
    b[2] = 3;
    b[3] = 4;
    b[4] = 5;
    b[5] = deep;
    b[6] = 10;
    b[9] = bank_c;
    b[11] = bank_a;
    b[12] = bank_b;
    b
}

fn head(x: i32, y: i32, p: i32) -> Vec<Action> {
    vec![
        Action::Emit(OutputEvent::Abs(AbsAxis::X, x)),
        Action::Emit(OutputEvent::Sync),
        Action::Emit(OutputEvent::Abs(AbsAxis::Y, y)),
        Action::Emit(OutputEvent::Sync),
        Action::Emit(OutputEvent::Abs(AbsAxis::Pressure, p)),
        Action::Emit(OutputEvent::Sync),
    ]
}

#[test]
fn intervals_follow_read_outcome() {
    let cfg = Configuration::new(0, false, false, false);
    let mut p = Poller::new();
    assert_eq!(p.interval_ms, 10);
    p.on_read_failed();
    assert_eq!(p.interval_ms, 25);
    p.on_sample(&cfg, &sample(0, 0, 0, 6));
    assert_eq!(p.interval_ms, 7);
}

#[test]
fn idle_sample_emits_axes_and_touch() {
    let cfg = Configuration::new(0, false, false, false);
    let mut p = Poller::new();
    let r = p.on_sample(&cfg, &sample(255, 51, 2, 6));
    let mut expected = head(513, 1025, 20);
    expected.push(Action::Emit(OutputEvent::Key(BTN_TOUCH, 0)));
    expected.push(Action::Emit(OutputEvent::Sync));
    assert_eq!(r, expected);
}

#[test]
fn vpen_plus_wheel_pulses_on_press_and_release() {
    let mut cfg = Configuration::new(0, false, false, false);
    cfg.set_binding(LogicalButton::VpenPlus, vec![BindingTarget::RelativeAxis(REL_WHEEL, Polarity::Increase)]);
    let mut p = Poller::new();
    let pulse = vec![
        Action::Emit(OutputEvent::Rel(REL_WHEEL, 1)),
        Action::Emit(OutputEvent::Sync),
        Action::Emit(OutputEvent::Sync),
    ];
    for bank_c in [4u8, 2u8] {
        let r = p.on_sample(&cfg, &sample(0, 0, bank_c, 7));
        let mut expected = head(513, 1025, 530);
        expected.extend(pulse.iter().cloned());
        expected.push(Action::Emit(OutputEvent::Key(BTN_TOUCH, 1)));
        expected.push(Action::Emit(OutputEvent::Sync));
        assert_eq!(r, expected);
    }
    assert!(!p.buttons.is_pressed(LogicalButton::VpenPlus));
}

#[test]
fn banks_resolve_in_order_a_b_c() {
    let mut cfg = Configuration::new(0, false, false, false);
    cfg.set_binding(LogicalButton::L1, vec![BindingTarget::Key(KEY_B)]);
    let mut p = Poller::new();
    let r = p.on_sample(&cfg, &sample(127, 49, 6, 6));
    let mut expected = head(513, 1025, 20);
    expected.push(Action::Unbound(LogicalButton::L2));
    expected.push(Action::Emit(OutputEvent::Key(KEY_B, 1)));
    expected.push(Action::Emit(OutputEvent::Sync));
    expected.push(Action::Unbound(LogicalButton::VpenMinus));
    expected.push(Action::Emit(OutputEvent::Key(BTN_TOUCH, 0)));
    expected.push(Action::Emit(OutputEvent::Sync));
    assert_eq!(r, expected);
    let r = p.on_sample(&cfg, &sample(127, 51, 0, 6));
    let mut expected = head(513, 1025, 20);
    expected.push(Action::Unbound(LogicalButton::L2));
    expected.push(Action::Emit(OutputEvent::Key(KEY_B, 0)));
    expected.push(Action::Emit(OutputEvent::Sync));
    expected.push(Action::Emit(OutputEvent::Key(BTN_TOUCH, 0)));
    expected.push(Action::Emit(OutputEvent::Sync));
    assert_eq!(r, expected);
}

#[test]
fn bringup_sequence_is_fixed() {
    let t = bringup_transfers();
    assert_eq!(t.len(), 5);
    for x in &t {
        assert_eq!((x.request_type, x.request, x.index, x.timeout_ms), (0x21, 9, 2, 250));
    }
    assert_eq!((t[0].value, t[0].data.clone()), (0x0202, vec![0x02, 0x00]));
    assert_eq!(t[1].value, 0x0308);
    assert_eq!(t[1].data, vec![0x08, 0x03, 0x00, 0xff, 0xf0, 0x00, 0xff, 0xf0]);
    assert_eq!(t[2].data, vec![0x08, 0x07, 0x00, 0x00, 0x00, 0xff, 0xff, 0xff]);
    assert_eq!(t[3].data, t[1].data);
    assert_eq!(t[4].data, vec![0x08, 0x06, 0x01, 0x00, 0x01, 0x00, 0x00, 0x00]);
}

#[test]
fn tablet_identity() {
    assert!(is_tablet(0x08f2, 0x6811));
    assert!(is_tablet(VENDOR_ID, PRODUCT_ID));
    assert!(!is_tablet(0x08f2, 0x6812));
    assert!(!is_tablet(0x046d, 0x6811));
}
