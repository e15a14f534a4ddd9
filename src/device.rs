use vstd::prelude::*;

use crate::button::{button_at, button_from_index, BUTTON_COUNT};
use crate::config::{BindingTarget, Configuration};
use crate::poll::{BTN_TOOL_PEN, BTN_TOUCH};

verus! {

/// USB vendor identifier of the tablet.
pub const VENDOR_ID: u16 = 0x08f2;

/// USB product identifier of the tablet.
pub const PRODUCT_ID: u16 = 0x6811;

/// The interface claimed while the tablet is in use.
pub const INTERFACE: u8 = 2;

/// The highest interface index whose kernel driver is detached before bring-up.
pub const LAST_DETACHED_INTERFACE: u8 = 2;

/// Address of the interrupt-IN endpoint that delivers samples.
pub const ENDPOINT_IN: u8 = 0x83;

/// bmRequestType of the bring-up control transfers.
pub const REQUEST_TYPE: u8 = 0x21;

/// bRequest of the bring-up control transfers.
pub const REQUEST: u8 = 9;

/// Timeout of each bring-up control transfer, in milliseconds.
pub const CONTROL_TIMEOUT_MS: u64 = 250;

/// One vendor control transfer of the bring-up sequence.
pub struct ControlTransfer {
    pub request_type: u8,
    pub request: u8,
    pub value: u16,
    pub index: u16,
    pub data: Vec<u8>,
    pub timeout_ms: u64,
}

/// wValue of the `i`-th bring-up transfer.
pub open spec fn bringup_value(i: int) -> u16 {
    if i == 0 {
        0x0202u16
    } else {
        0x0308u16
    }
}

/// Payload of the `i`-th bring-up transfer.
pub open spec fn bringup_payload(i: int) -> Seq<u8> {
    if i == 0 {
        seq![0x02u8, 0x00]
    } else if i == 1 || i == 3 {
        seq![0x08u8, 0x03, 0x00, 0xff, 0xf0, 0x00, 0xff, 0xf0]
    } else if i == 2 {
        seq![0x08u8, 0x07, 0x00, 0x00, 0x00, 0xff, 0xff, 0xff]
    } else {
        seq![0x08u8, 0x06, 0x01, 0x00, 0x01, 0x00, 0x00, 0x00]
    }
}

fn transfer(value: u16, data: Vec<u8>) -> (r: ControlTransfer)
    ensures
        r.request_type == REQUEST_TYPE,
        r.request == REQUEST,
        r.index == INTERFACE as u16,
        r.timeout_ms == CONTROL_TIMEOUT_MS,
        r.value == value,
        r.data@ == data@,
{
    ControlTransfer {
        request_type: REQUEST_TYPE,
        request: REQUEST,
        value,
        index: INTERFACE as u16,
        data,
        timeout_ms: CONTROL_TIMEOUT_MS,
    }
}

/// The five control transfers that switch the tablet into reporting mode, in the
/// order they must be sent.
pub fn bringup_transfers() -> (r: Vec<ControlTransfer>)
    ensures
        r@.len() == 5,
        forall|i: int|
            0 <= i < 5 ==> {
                &&& (#[trigger] r@[i]).request_type == REQUEST_TYPE
                &&& r@[i].request == REQUEST
                &&& r@[i].index == INTERFACE as u16
                &&& r@[i].timeout_ms == CONTROL_TIMEOUT_MS
                &&& r@[i].value == bringup_value(i)
                &&& r@[i].data@ == bringup_payload(i)
            },
{
    let mut r: Vec<ControlTransfer> = Vec::new();
    r.push(transfer(0x0202, vec![0x02, 0x00]));
    r.push(transfer(0x0308, vec![0x08, 0x03, 0x00, 0xff, 0xf0, 0x00, 0xff, 0xf0]));
    r.push(transfer(0x0308, vec![0x08, 0x07, 0x00, 0x00, 0x00, 0xff, 0xff, 0xff]));
    r.push(transfer(0x0308, vec![0x08, 0x03, 0x00, 0xff, 0xf0, 0x00, 0xff, 0xf0]));
    r.push(transfer(0x0308, vec![0x08, 0x06, 0x01, 0x00, 0x01, 0x00, 0x00, 0x00]));
    assert(r@[0].data@ =~= bringup_payload(0));
    assert(r@[1].data@ =~= bringup_payload(1));
    assert(r@[2].data@ =~= bringup_payload(2));
    assert(r@[3].data@ =~= bringup_payload(3));
    assert(r@[4].data@ =~= bringup_payload(4));
    r
}

/// Whether a USB device descriptor names the tablet.
pub fn is_tablet(vendor_id: u16, product_id: u16) -> (r: bool)
    ensures
        r == (vendor_id == VENDOR_ID && product_id == PRODUCT_ID),
{
    vendor_id == VENDOR_ID && product_id == PRODUCT_ID
}

/// The code a target contributes to the advertised keys (`relative` false) or
/// relative axes (`relative` true).
pub open spec fn target_code(t: BindingTarget, relative: bool) -> Seq<u16> {
    match t {
        BindingTarget::Key(c) => if relative {
            Seq::empty()
        } else {
            seq![c]
        },
        BindingTarget::RelativeAxis(c, _) => if relative {
            seq![c]
        } else {
            Seq::empty()
        },
        BindingTarget::Unresolved => Seq::empty(),
    }
}

/// The codes of the first `n` targets of a list.
pub open spec fn list_codes(ts: Seq<BindingTarget>, relative: bool, n: int) -> Seq<u16>
    decreases n,
{
    if n <= 0 {
        Seq::empty()
    } else {
        list_codes(ts, relative, n - 1) + target_code(ts[n - 1], relative)
    }
}

/// The codes bound to the first `n` buttons, in button order.
pub open spec fn bound_codes(cfg: Configuration, relative: bool, n: int) -> Seq<u16>
    decreases n,
{
    if n <= 0 {
        Seq::empty()
    } else {
        bound_codes(cfg, relative, n - 1) + match cfg.binding(button_at(n - 1)) {
            Some(ts) => list_codes(ts, relative, ts.len() as int),
            None => Seq::empty(),
        }
    }
}

/// Every key (`relative` false) or relative-axis (`relative` true) code that the
/// binding table refers to, in button order and then list order.
pub fn binding_codes(cfg: &Configuration, relative: bool) -> (r: Vec<u16>)
    requires
        cfg.wf(),
    ensures
        r@ == bound_codes(*cfg, relative, 14),
{
    let mut r: Vec<u16> = Vec::new();
    let mut i: usize = 0;
    while i < BUTTON_COUNT
        invariant
            i <= BUTTON_COUNT,
            cfg.wf(),
            r@ == bound_codes(*cfg, relative, i as int),
        decreases BUTTON_COUNT - i,
    {
        let b = button_from_index(i);
        let ghost before = r@;
        match cfg.binding_of(b) {
            Some(ts) => {
                let mut j: usize = 0;
                while j < ts.len()
                    invariant
                        j <= ts@.len(),
                        r@ == before + list_codes(ts@, relative, j as int),
                    decreases ts@.len() - j,
                {
                    let ghost mid = r@;
                    match ts[j] {
                        BindingTarget::Key(c) => {
                            if !relative {
                                r.push(c);
                            }
                        },
                        BindingTarget::RelativeAxis(c, _) => {
                            if relative {
                                r.push(c);
                            }
                        },
                        BindingTarget::Unresolved => {},
                    }
                    assert(r@ =~= mid + target_code(ts@[j as int], relative));
                    assert(r@ =~= before + list_codes(ts@, relative, j + 1));
                    j = j + 1;
                }
            },
            None => {},
        }
        assert(r@ =~= bound_codes(*cfg, relative, i + 1));
        i = i + 1;
    }
    r
}

/// The key codes the virtual device advertises: the pen-tool and touch keys, then
/// every bound key.
pub fn advertised_keys(cfg: &Configuration) -> (r: Vec<u16>)
    requires
        cfg.wf(),
    ensures
        r@ == seq![BTN_TOOL_PEN, BTN_TOUCH] + bound_codes(*cfg, false, 14),
{
    let mut r: Vec<u16> = vec![BTN_TOOL_PEN, BTN_TOUCH];
    let mut bound = binding_codes(cfg, false);
    r.append(&mut bound);
    assert(r@ =~= seq![BTN_TOOL_PEN, BTN_TOUCH] + bound_codes(*cfg, false, 14));
    r
}

} // verus!
