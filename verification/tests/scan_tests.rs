//! Tests of burst routing: channel/phase to key-name resolution, filter
//! feeding, and event publication through the bus.

use maghand::bus::{BusWait, KeyChangeBus};
use maghand::hid::KeyboardTask;
use maghand::keymap::key_names;
use maghand::keys::{sample_scaled, MuxSpec, SAMPLE_UNIT};
use maghand::scan::{feed_burst, key_name_for, process_phase, KeyBank, N_CHANNELS};

fn phase(index: u8) -> MuxSpec {
    let all = MuxSpec::iterator();
    all[index as usize]
}

#[test]
fn key_bank_holds_one_filter_per_key_name() {
    let bank = KeyBank::new();
    let names = key_names();
    assert_eq!(bank.keys.len(), names.len());
    for (i, k) in bank.keys.iter().enumerate() {
        assert_eq!(k.keynumber, names[i]);
        assert_eq!(k.value, None);
    }
}

#[test]
fn key_names_follow_channel_and_phase() {
    for chan in 0..N_CHANNELS {
        for mux in 0..4u8 {
            assert_eq!(key_name_for(chan, mux), (chan as u8) * 10 + mux);
        }
    }
}

#[test]
fn process_phase_feeds_exactly_the_phase_keys() {
    let mut bank = KeyBank::new();
    let mut bus = KeyChangeBus::new(1);
    // Phase 3 feeds the keys named 3, 13, 23, 33, 43; the name 53 has no
    // physical key, so channel 5's samples are discarded.
    let burst = vec![[100i16, 200, 300, 400, 500, 600]; 3];
    process_phase(&mut bank, &mut bus, phase(3), &burst);
    let names = key_names();
    for (i, k) in bank.keys.iter().enumerate() {
        if names[i] % 10 == 3 {
            assert!(k.value.is_some(), "key {} missed its phase", names[i]);
            let chan = (names[i] / 10) as usize;
            // The first sample of its channel seeded the filter.
            let seeded = sample_scaled(burst[0][chan]);
            let v = k.value.unwrap();
            // Two more samples of the same value leave it at the seed.
            assert_eq!(v, seeded);
        } else {
            assert_eq!(k.value, None, "key {} fed out of phase", names[i]);
        }
    }
}

#[test]
fn other_phases_leave_keys_untouched() {
    let mut bank = KeyBank::new();
    let mut bus = KeyChangeBus::new(1);
    let burst = vec![[50i16; 6]; 2];
    process_phase(&mut bank, &mut bus, phase(0), &burst);
    let names = key_names();
    for (i, k) in bank.keys.iter().enumerate() {
        assert_eq!(k.value.is_some(), names[i] % 10 == 0);
    }
}

#[test]
fn scenario_toggle_on_then_off_within_one_burst() {
    // One key (name 0: channel 0, phase 0) starts calibrated and off, with
    // its smoothed value at the top of a 1000-count observed range.  The
    // burst first pulls the reading low (off-to-on crossing), then drives
    // it high again (on-to-off): exactly two events, opposite and in that
    // order, and the down-set nets to not containing the key.
    let mut bank = KeyBank::new();
    let lo = sample_scaled(0);
    let hi = lo + 1000 * SAMPLE_UNIT;
    bank.keys[0].value = Some(hi);
    bank.keys[0].min_value = Some(lo);
    bank.keys[0].max_value = Some(hi);
    assert_eq!(bank.keys[0].is_on(), Some(false));

    let mut burst: Vec<[i16; 6]> = Vec::new();
    for _ in 0..20 {
        burst.push([0i16, 0, 0, 0, 0, 0]);
    }
    for _ in 0..20 {
        burst.push([1000i16, 0, 0, 0, 0, 0]);
    }

    let mut bus = KeyChangeBus::new(1);
    process_phase(&mut bank, &mut bus, phase(0), &burst);

    let first = bus.next_message(0);
    let second = bus.next_message(0);
    let rest = bus.next_message(0);
    let on = match first {
        Some(BusWait::Message(sig)) => sig,
        other => panic!("expected the on toggle first, got {:?}", other),
    };
    let off = match second {
        Some(BusWait::Message(sig)) => sig,
        other => panic!("expected the off toggle second, got {:?}", other),
    };
    assert_eq!(rest, None, "exactly two events must be emitted");
    assert_eq!(on.keynumber, 0);
    assert_eq!(off.keynumber, 0);
    assert!(on.toggle_on);
    assert!(!off.toggle_on);

    // Net effect on the HID task: the key is not down.
    let mut task = KeyboardTask::new();
    let mid = task.handle_toggle(on, false);
    assert_ne!(mid.report.unwrap().keycodes, [0u8; 6]);
    let fin = task.handle_toggle(off, false);
    assert_eq!(fin.report.unwrap().keycodes, [0u8; 6]);
    assert!(task.down_codes_vec().is_empty());
}

#[test]
fn feed_burst_publishes_toggles_to_every_subscriber() {
    let mut bank = KeyBank::new();
    let lo = sample_scaled(0);
    let hi = lo + 1000 * SAMPLE_UNIT;
    bank.keys[0].value = Some(hi);
    bank.keys[0].min_value = Some(lo);
    bank.keys[0].max_value = Some(hi);

    let burst = vec![[0i16, 0, 0, 0, 0, 0]; 20];
    let mut bus = KeyChangeBus::new(2);
    let mut key = bank.keys[0];
    feed_burst(&mut key, &mut bus, &burst, 0);
    for sub in 0..2 {
        match bus.next_message(sub) {
            Some(BusWait::Message(sig)) => {
                assert_eq!(sig.keynumber, 0);
                assert!(sig.toggle_on);
            },
            other => panic!("subscriber {} missed the toggle: {:?}", sub, other),
        }
        assert_eq!(bus.next_message(sub), None);
    }
    assert!(key.value.unwrap() < hi);
}
