//! The USB HID keyboard task state and the device lifecycle handlers.
//!
//! The task owns the set of currently-down usage codes.  Each key-change
//! event from the bus is applied here: the key name is resolved through the
//! active layer's keymap, the down-set is updated, and a 6-slot boot-keyboard
//! report is assembled under the rollover policy.  The returned outcome also
//! tells the transport whether remote wakeup must be requested (and resume
//! awaited) before the report may be transmitted, so that an event arriving
//! while the host has the device suspended is neither lost nor sent early.

use crate::keymap::{
    keycode_for, lemma_bound_codes_count, lemma_bound_codes_cover, spec_bound_codes, spec_keycode,
    USAGE_ERROR_ROLLOVER,
};
use crate::keys::{KeySignal, Layer};
use crate::keysdown::{
    keys_down_insert, keys_down_new, keys_down_remove, keys_down_set, keys_down_vec, KEYSDOWN_CAP,
};
use vstd::prelude::*;

verus! {

/// Number of keycode slots in a boot-keyboard input report.
pub const REPORT_SLOTS: usize = 6;

/// Fixed USB vendor ID of the controller.
pub const USB_VENDOR_ID: u16 = 0xc0de;

/// Fixed USB product ID of the controller.
pub const USB_PRODUCT_ID: u16 = 0x1983;

/// Declared maximum power draw, in milliamperes.
pub const USB_MAX_POWER_MA: u16 = 500;

/// Control endpoint packet size.
pub const USB_MAX_PACKET_SIZE: u8 = 64;

/// Fixed HID poll interval, in milliseconds.
pub const USB_POLL_MS: u8 = 60;

/// The device declares remote-wakeup support, so a toggle arriving while
/// suspended can ask the host to resume the bus.
pub const USB_SUPPORTS_REMOTE_WAKEUP: bool = true;

/// An assembled boot-keyboard input report: six keycode slots plus the
/// modifier, reserved and LED bytes (all zero on this board).
#[derive(Debug, Clone, Copy, PartialEq, Eq)]
pub struct KeyboardReportData {
    /// Modifier byte; this board reports modifiers as plain usage codes.
    pub modifier: u8,
    /// Reserved byte, always zero.
    pub reserved: u8,
    /// LED state echo, never driven on this board.
    pub leds: u8,
    /// The six keycode slots.
    pub keycodes: [u8; 6],
}

/// The keycode slots a list of down codes produces: all rollover-error codes
/// when more than [`REPORT_SLOTS`] keys are down, otherwise the codes in
/// order, zero-padded.
pub open spec fn spec_report_slots(codes: Seq<u8>) -> Seq<u8> {
    if codes.len() > REPORT_SLOTS {
        Seq::new(REPORT_SLOTS as nat, |i: int| USAGE_ERROR_ROLLOVER)
    } else {
        codes + Seq::new((REPORT_SLOTS - codes.len()) as nat, |i: int| 0u8)
    }
}

/// Whether `slots` correctly renders the down-set `down`: every slot holds
/// the rollover-error code when more than [`REPORT_SLOTS`] keys are down,
/// otherwise exactly the down codes (in some order, each once) followed by
/// zero padding.
pub open spec fn spec_slots_render(slots: Seq<u8>, down: Set<u8>) -> bool {
    &&& slots.len() == REPORT_SLOTS
    &&& if down.len() > REPORT_SLOTS {
        forall|i: int| 0 <= i < REPORT_SLOTS ==> slots[i] == USAGE_ERROR_ROLLOVER
    } else {
        &&& slots.take(down.len() as int).to_set() == down
        &&& slots.take(down.len() as int).no_duplicates()
        &&& forall|i: int| down.len() <= i < REPORT_SLOTS ==> slots[i] == 0
    }
}

/// The `i`-th report slot for an in-range down list: the code, or zero pad.
fn slot_at(codes: &Vec<u8>, i: usize) -> (r: u8)
    requires
        i < REPORT_SLOTS,
    ensures
        r == (if i < codes@.len() {
            codes@[i as int]
        } else {
            0u8
        }),
{
    if i < codes.len() {
        codes[i]
    } else {
        0
    }
}

/// Build the six keycode slots from the list of down codes: all
/// rollover-error codes when the list exceeds the slot count, otherwise the
/// codes in list order, zero-padded.
pub fn report_slots(codes: &Vec<u8>) -> (r: [u8; 6])
    ensures
        r@ == spec_report_slots(codes@),
{
    if codes.len() > REPORT_SLOTS {
        let arr: [u8; 6] = [
            USAGE_ERROR_ROLLOVER,
            USAGE_ERROR_ROLLOVER,
            USAGE_ERROR_ROLLOVER,
            USAGE_ERROR_ROLLOVER,
            USAGE_ERROR_ROLLOVER,
            USAGE_ERROR_ROLLOVER,
        ];
        proof {
            assert(arr@ =~= spec_report_slots(codes@));
        }
        arr
    } else {
        let arr: [u8; 6] = [
            slot_at(codes, 0),
            slot_at(codes, 1),
            slot_at(codes, 2),
            slot_at(codes, 3),
            slot_at(codes, 4),
            slot_at(codes, 5),
        ];
        proof {
            assert(arr@ =~= spec_report_slots(codes@));
        }
        arr
    }
}

/// Law (rollover policy): a duplicate-free down list of more than
/// [`REPORT_SLOTS`] codes renders as six rollover-error slots; one of at
/// most [`REPORT_SLOTS`] codes renders as exactly those codes, zero-padded.
pub proof fn lemma_rollover_policy(codes: Seq<u8>)
    requires
        codes.no_duplicates(),
    ensures
        spec_slots_render(spec_report_slots(codes), codes.to_set()),
{
    codes.unique_seq_to_set();
    vstd::seq_lib::seq_to_set_is_finite(codes);
    if codes.len() <= REPORT_SLOTS {
        assert(spec_report_slots(codes).take(codes.to_set().len() as int) =~= codes);
    }
}

/// What the transport must do after one toggle event is applied, in order:
/// request remote wakeup and await resume first (when the device was
/// suspended), then transmit the report, if there is one.
#[derive(Debug, Clone, Copy, PartialEq, Eq)]
pub struct ToggleOutcome {
    /// True exactly when the device was suspended at the event: remote
    /// wakeup must be requested, and resume awaited, before any
    /// transmission attempt.
    pub request_wakeup: bool,
    /// The single report reflecting the updated down-set, or `None` when
    /// the toggled key has no binding and the event is skipped.
    pub report: Option<KeyboardReportData>,
    /// A key-up arrived for a code not tracked as down (logged, not fatal).
    pub stale_keyup: bool,
}

/// The USB HID keyboard task state: the usage codes currently held down.
#[derive(Debug)]
pub struct KeyboardTask {
    /// The currently-down usage codes, bounded by the fixed capacity.
    pub keys_down: heapless::index_set::FnvIndexSet<u8, KEYSDOWN_CAP>,
}

impl KeyboardTask {
    /// The down-set as a mathematical set of usage codes.
    pub open spec fn down_codes(self) -> Set<u8> {
        keys_down_set(&self.keys_down)
    }

    /// Well-formedness: the down-set is finite and holds only codes the
    /// keymap can hand out (so it can never reach the set's capacity).
    pub open spec fn wf(self) -> bool {
        &&& self.down_codes().finite()
        &&& self.down_codes().subset_of(spec_bound_codes().to_set())
    }

    /// A task with no keys down.
    pub fn new() -> (r: KeyboardTask)
        ensures
            r.wf(),
            r.down_codes() == Set::<u8>::empty(),
    {
        KeyboardTask { keys_down: keys_down_new() }
    }

    /// Apply one key-change event, with the shared suspended flag's current
    /// value: resolve the key through the active layer, update the down-set
    /// (a key-up for an untracked code is noted, not fatal), and assemble
    /// the report.  Wakeup is requested exactly when the device was
    /// suspended, and always precedes the transmission the outcome asks for.
    pub fn handle_toggle(&mut self, sig: KeySignal, suspended: bool) -> (r: ToggleOutcome)
        requires
            old(self).wf(),
        ensures
            final(self).wf(),
            r.request_wakeup == suspended,
            spec_keycode(sig.keynumber, Layer::Default) is None ==> final(self).down_codes()
                == old(self).down_codes() && r.report is None && !r.stale_keyup,
            spec_keycode(sig.keynumber, Layer::Default) matches Some(code) ==> {
                &&& final(self).down_codes() == (if sig.toggle_on {
                    old(self).down_codes().insert(code)
                } else {
                    old(self).down_codes().remove(code)
                })
                &&& (r.stale_keyup <==> (!sig.toggle_on && !old(self).down_codes().contains(
                    code,
                )))
                &&& r.report matches Some(rep) && rep.modifier == 0 && rep.reserved == 0
                    && rep.leds == 0 && spec_slots_render(
                    rep.keycodes@,
                    final(self).down_codes(),
                )
            },
    {
        let request_wakeup = suspended;
        match keycode_for(sig.keynumber, Layer::Default) {
            None => ToggleOutcome { request_wakeup, report: None, stale_keyup: false },
            Some(code) => {
                let mut stale_keyup = false;
                if sig.toggle_on {
                    proof {
                        lemma_bound_codes_cover(sig.keynumber, Layer::Default);
                        lemma_bound_codes_count();
                        vstd::set_lib::lemma_len_subset(
                            keys_down_set(&self.keys_down),
                            spec_bound_codes().to_set(),
                        );
                    }
                    let res = keys_down_insert(&mut self.keys_down, code);
                    proof {
                        assert(!(res is Err));
                        if res == Result::<bool, u8>::Ok(false) {
                            assert(old(self).down_codes().insert(code) =~= old(
                                self,
                            ).down_codes());
                        }
                    }
                } else {
                    let was_present = keys_down_remove(&mut self.keys_down, code);
                    if !was_present {
                        stale_keyup = true;
                    }
                }
                let codes = keys_down_vec(&self.keys_down);
                proof {
                    lemma_rollover_policy(codes@);
                }
                let slots = report_slots(&codes);
                ToggleOutcome {
                    request_wakeup,
                    report: Some(
                        KeyboardReportData { modifier: 0, reserved: 0, leds: 0, keycodes: slots },
                    ),
                    stale_keyup,
                }
            },
        }
    }

    /// The currently-down usage codes, each exactly once.
    pub fn down_codes_vec(&self) -> (r: Vec<u8>)
        ensures
            r@.to_set() == self.down_codes(),
            r@.no_duplicates(),
    {
        keys_down_vec(&self.keys_down)
    }
}

/// Host-request bookkeeping for the passive output-report reader: host "get
/// report" / "set report" / idle-rate requests are acknowledged minimally
/// and never drive any state.
#[derive(Debug, Clone, Copy, PartialEq, Eq)]
pub struct MaghandRequestHandler {}

/// Identifies the report a host request addresses.
#[derive(Debug, Clone, Copy, PartialEq, Eq, Structural)]
pub enum ReportId {
    /// An input (device-to-host) report.
    In(u8),
    /// An output (host-to-device) report.
    Out(u8),
    /// A feature report.
    Feature(u8),
}

/// The controller's answer to a host "set report" request.
#[derive(Debug, Clone, Copy, PartialEq, Eq, Structural)]
pub enum OutReportResponse {
    /// The request is acknowledged (and otherwise ignored).
    Accepted,
    /// The request is refused.
    Rejected,
}

impl MaghandRequestHandler {
    /// No report is offered to a host "get report" request.
    pub fn get_report(&mut self, id: ReportId) -> (r: Option<usize>)
        ensures
            r is None,
    {
        let _ = id;
        None
    }

    /// A host "set report" is acknowledged and not acted on further: no LED
    /// state is driven to hardware.
    pub fn set_report(&mut self, id: ReportId, data: &Vec<u8>) -> (r: OutReportResponse)
        ensures
            r == OutReportResponse::Accepted,
    {
        let _ = id;
        let _ = data;
        OutReportResponse::Accepted
    }

    /// A host "set idle" is accepted and ignored.
    pub fn set_idle_ms(&mut self, id: Option<ReportId>, dur: u32) {
        let _ = id;
        let _ = dur;
    }

    /// No idle rate is reported back to the host.
    pub fn get_idle_ms(&mut self, id: Option<ReportId>) -> (r: Option<u32>)
        ensures
            r is None,
    {
        let _ = id;
        None
    }
}

/// The USB device-lifecycle state the callbacks maintain: the configured
/// flag, and the suspended flag the HID task polls.  The callbacks only
/// update these flags; they never touch the data path.
#[derive(Debug, Clone, Copy, PartialEq, Eq, Structural)]
pub struct MaghandDeviceHandler {
    /// Whether the device has reached the configured state.
    pub configured: bool,
    /// Whether the host has the device suspended.
    pub suspended: bool,
}

impl MaghandDeviceHandler {
    /// A handler for a device that is not configured and not suspended.
    pub fn new() -> (r: MaghandDeviceHandler)
        ensures
            !r.configured,
            !r.suspended,
    {
        MaghandDeviceHandler { configured: false, suspended: false }
    }

    /// The bus was enabled or disabled: either way the device is no longer
    /// configured nor suspended.
    pub fn enabled(&mut self, enabled: bool)
        ensures
            !final(self).configured,
            !final(self).suspended,
    {
        let _ = enabled;
        self.configured = false;
        self.suspended = false;
    }

    /// A bus reset: the device is no longer configured.
    pub fn reset(&mut self)
        ensures
            !final(self).configured,
            final(self).suspended == old(self).suspended,
    {
        self.configured = false;
    }

    /// An address was assigned: the device is no longer configured.
    pub fn addressed(&mut self, addr: u8)
        ensures
            !final(self).configured,
            final(self).suspended == old(self).suspended,
    {
        let _ = addr;
        self.configured = false;
    }

    /// The configured state changed.
    pub fn configured(&mut self, configured: bool)
        ensures
            final(self).configured == configured,
            final(self).suspended == old(self).suspended,
    {
        self.configured = configured;
    }

    /// The suspended state changed; sampling and filtering continue, only
    /// host-bound reporting is deferred while the flag is set.
    pub fn suspended(&mut self, suspended: bool)
        ensures
            final(self).suspended == suspended,
            final(self).configured == old(self).configured,
    {
        self.suspended = suspended;
    }
}

} // verus!
