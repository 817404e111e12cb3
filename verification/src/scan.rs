//! Routing of multiplexed ADC sample bursts into the per-key filters.
//!
//! The hardware layer scans the four mux phases in order; during each phase
//! it captures a hardware-timed burst of rows, each row holding one sample
//! for every analog channel.  This module owns the pure routing logic: the
//! key sampled on channel `c` during phase `m` is named `c * 10 + m`; every
//! sample of a burst is fed to that key's filter in capture order, and each
//! resulting toggle event is published to the key-change bus without
//! blocking.  Names with no physical key are discarded.
//!
//! A burst is processed at exactly the length the hardware delivered: a
//! shorter or longer capture feeds fewer or more samples, never stale rows.

use crate::bus::{spec_published_seq, KeyChangeBus};
use crate::keymap::{key_index, key_names, spec_key_index, spec_key_names, N_KEYS};
use crate::keys::{AnalogKey, KeySignal, MuxSpec};
use vstd::prelude::*;

verus! {

/// Number of analog channels captured in each burst row.
pub const N_CHANNELS: usize = 6;

/// A key's filter state after one burst of raw samples, fed in order.
pub open spec fn spec_fold_updates(k: AnalogKey, col: Seq<i16>) -> AnalogKey
    decreases col.len(),
{
    if col.len() == 0 {
        k
    } else {
        spec_fold_updates(k, col.drop_last()).spec_updated(col.last())
    }
}

/// The toggle events one burst of raw samples produces on one key, in
/// emission order.
pub open spec fn spec_burst_events(k: AnalogKey, col: Seq<i16>) -> Seq<KeySignal>
    decreases col.len(),
{
    if col.len() == 0 {
        Seq::empty()
    } else {
        spec_burst_events(k, col.drop_last()) + (match spec_fold_updates(
            k,
            col.drop_last(),
        ).spec_toggle(col.last()) {
            Some(sig) => seq![sig],
            None => Seq::empty(),
        })
    }
}

/// The sample stream one channel saw during a burst: its column of the rows.
pub open spec fn spec_channel_samples(samples: Seq<[i16; 6]>, chan: int) -> Seq<i16> {
    samples.map(|i: int, row: [i16; 6]| row@[chan])
}

/// Whether the key named `name` is fed during mux phase `mux_index`.
pub open spec fn spec_key_in_phase(name: u8, mux_index: u8) -> bool {
    name % 10 == mux_index && name / 10 < N_CHANNELS
}

/// All toggle events the first `upto` channels of one mux phase emit: each
/// mapped channel's burst events, in channel order.
pub open spec fn spec_phase_events(
    keys: Seq<AnalogKey>,
    mux_index: u8,
    samples: Seq<[i16; 6]>,
    upto: int,
) -> Seq<KeySignal>
    decreases upto,
{
    if upto <= 0 {
        Seq::empty()
    } else {
        spec_phase_events(keys, mux_index, samples, upto - 1) + (match spec_key_index(
            ((upto - 1) * 10 + mux_index) as u8,
        ) {
            Some(ki) => spec_burst_events(keys[ki as int], spec_channel_samples(samples, upto - 1)),
            None => Seq::empty(),
        })
    }
}

/// The shared key array: every key's filter state, in key-name order.
#[derive(Debug)]
pub struct KeyBank {
    /// One filter per physical key, index-aligned with the key-name table.
    pub keys: Vec<AnalogKey>,
}

impl KeyBank {
    /// Well-formedness: one well-formed filter per physical key, each
    /// carrying its own key name.
    pub open spec fn wf(self) -> bool {
        &&& self.keys@.len() == N_KEYS
        &&& forall|i: int|
            0 <= i < N_KEYS ==> (#[trigger] self.keys@[i]).wf() && self.keys@[i].keynumber
                == spec_key_names()[i]
    }

    /// A bank of fresh filters, one per physical key, default tuning.
    pub fn new() -> (r: KeyBank)
        ensures
            r.wf(),
            forall|i: int|
                0 <= i < N_KEYS ==> #[trigger] r.keys@[i] == AnalogKey::spec_new(
                    spec_key_names()[i],
                ),
    {
        let names = key_names();
        let mut keys: Vec<AnalogKey> = Vec::new();
        let mut i: usize = 0;
        while i < 23
            invariant
                i <= 23,
                keys@.len() == i,
                names@ == spec_key_names(),
                forall|j: int|
                    0 <= j < i ==> #[trigger] keys@[j] == AnalogKey::spec_new(spec_key_names()[j]),
            decreases 23 - i,
        {
            keys.push(AnalogKey::new(names[i]));
            i = i + 1;
        }
        KeyBank { keys }
    }
}

/// The physical key name sampled on `chan` during mux phase `mux_index`.
pub fn key_name_for(chan: usize, mux_index: u8) -> (r: u8)
    requires
        chan < N_CHANNELS,
        mux_index < 4,
    ensures
        r == chan * 10 + mux_index,
{
    (chan as u8) * 10 + mux_index
}

/// Feed one channel's burst to one key filter, sample by sample, publishing
/// every toggle event to the bus in emission order without blocking.
pub fn feed_burst(
    key: &mut AnalogKey,
    bus: &mut KeyChangeBus,
    samples: &Vec<[i16; 6]>,
    chan: usize,
) requires
    old(key).wf(),
    old(bus).wf(),
    chan < N_CHANNELS,
ensures
    final(key).wf(),
    final(bus).wf(),
    final(key).keynumber == old(key).keynumber,
    *final(key) == spec_fold_updates(*old(key), spec_channel_samples(samples@, chan as int)),
    final(bus).queues@.len() == old(bus).queues@.len(),
    forall|i: int|
        0 <= i < old(bus).queues@.len() ==> (
        (#[trigger] final(bus).queues@[i]).items@,
        final(bus).queues@[i].lag,
        ) == spec_published_seq(
            old(bus).queues@[i].items@,
            old(bus).queues@[i].lag,
            spec_burst_events(*old(key), spec_channel_samples(samples@, chan as int)),
        ),
{
    let ghost col = spec_channel_samples(samples@, chan as int);
    let n = samples.len();
    let mut j: usize = 0;
    while j < n
        invariant
            j <= n,
            n == samples@.len(),
            chan < N_CHANNELS,
            key.wf(),
            bus.wf(),
            key.keynumber == old(key).keynumber,
            col == spec_channel_samples(samples@, chan as int),
            *key == spec_fold_updates(*old(key), col.take(j as int)),
            bus.queues@.len() == old(bus).queues@.len(),
            forall|i: int|
                0 <= i < old(bus).queues@.len() ==> ((#[trigger] bus.queues@[i]).items@,
                bus.queues@[i].lag) == spec_published_seq(
                    old(bus).queues@[i].items@,
                    old(bus).queues@[i].lag,
                    spec_burst_events(*old(key), col.take(j as int)),
                ),
        decreases n - j,
    {
        let row = samples[j];
        proof {
            assert(col.take(j + 1).drop_last() =~= col.take(j as int));
            assert(col.take(j + 1).last() == row@[chan as int]);
        }
        let sig_opt = key.update_value_adc(row[chan]);
        match sig_opt {
            Some(sig) => {
                proof {
                    assert(spec_burst_events(*old(key), col.take(j + 1)) =~= spec_burst_events(
                        *old(key),
                        col.take(j as int),
                    ).push(sig));
                }
                let ghost evs = spec_burst_events(*old(key), col.take(j as int));
                bus.try_publish(sig);
                proof {
                    assert(evs.push(sig).drop_last() =~= evs);
                }
            },
            None => {
                proof {
                    assert(spec_burst_events(*old(key), col.take(j + 1)) =~= spec_burst_events(
                        *old(key),
                        col.take(j as int),
                    ));
                }
            },
        }
        j = j + 1;
    }
    proof {
        assert(col.take(n as int) =~= col);
    }
}

/// Route one mux phase's whole burst: for every channel, the samples go to
/// the key named `chan * 10 + phase index` when that name is a physical key,
/// and are discarded otherwise; every toggle event is published in order.
pub fn process_phase(
    bank: &mut KeyBank,
    bus: &mut KeyChangeBus,
    mux: MuxSpec,
    samples: &Vec<[i16; 6]>,
) requires
    old(bank).wf(),
    old(bus).wf(),
ensures
    final(bank).wf(),
    final(bus).wf(),
    forall|i: int|
        0 <= i < N_KEYS ==> #[trigger] final(bank).keys@[i] == (if spec_key_in_phase(
            spec_key_names()[i],
            mux.spec_index(),
        ) {
            spec_fold_updates(
                old(bank).keys@[i],
                spec_channel_samples(samples@, spec_key_names()[i] as int / 10),
            )
        } else {
            old(bank).keys@[i]
        }),
    final(bus).queues@.len() == old(bus).queues@.len(),
    forall|i: int|
        0 <= i < old(bus).queues@.len() ==> ((#[trigger] final(bus).queues@[i]).items@,
        final(bus).queues@[i].lag) == spec_published_seq(
            old(bus).queues@[i].items@,
            old(bus).queues@[i].lag,
            spec_phase_events(
                old(bank).keys@,
                mux.spec_index(),
                samples@,
                N_CHANNELS as int,
            ),
        ),
{
    let mux_index = mux.index();
    proof {
        crate::keymap::lemma_key_name_index_bijection();
    }
    let mut chan: usize = 0;
    while chan < N_CHANNELS
        invariant
            chan <= N_CHANNELS,
            mux_index == mux.spec_index(),
            mux_index < 4,
            bank.wf(),
            bus.wf(),
            old(bank).wf(),
            forall|i: int|
                0 <= i < N_KEYS ==> #[trigger] bank.keys@[i] == (if spec_key_in_phase(
                    spec_key_names()[i],
                    mux_index,
                ) && spec_key_names()[i] / 10 < chan {
                    spec_fold_updates(
                        old(bank).keys@[i],
                        spec_channel_samples(samples@, spec_key_names()[i] as int / 10),
                    )
                } else {
                    old(bank).keys@[i]
                }),
            bus.queues@.len() == old(bus).queues@.len(),
            forall|i: int|
                0 <= i < old(bus).queues@.len() ==> ((#[trigger] bus.queues@[i]).items@,
                bus.queues@[i].lag) == spec_published_seq(
                    old(bus).queues@[i].items@,
                    old(bus).queues@[i].lag,
                    spec_phase_events(old(bank).keys@, mux_index, samples@, chan as int),
                ),
        decreases N_CHANNELS - chan,
    {
        let name = key_name_for(chan, mux_index);
        let ghost evs_so_far = spec_phase_events(old(bank).keys@, mux_index, samples@,
            chan as int);
        proof {
            crate::keymap::lemma_key_name_index_bijection();
        }
        match key_index(name) {
            Some(ki) => {
                proof {
                    assert(ki < N_KEYS && spec_key_names()[ki as int] == name);
                    assert(name / 10 == chan && name % 10 == mux_index);
                    assert(bank.keys@[ki as int] == old(bank).keys@[ki as int]);
                }
                let ghost burst = spec_burst_events(
                    old(bank).keys@[ki as int],
                    spec_channel_samples(samples@, chan as int),
                );
                let ghost keys_before = bank.keys@;
                feed_burst(&mut bank.keys[ki], bus, samples, chan);
                proof {
                    assert(bank.keys@ =~= keys_before.update(
                        ki as int,
                        spec_fold_updates(
                            old(bank).keys@[ki as int],
                            spec_channel_samples(samples@, chan as int),
                        ),
                    ));
                    assert forall|i: int| 0 <= i < N_KEYS && i != ki implies !(spec_key_in_phase(
                        spec_key_names()[i],
                        mux_index,
                    ) && spec_key_names()[i] / 10 == chan) by {
                        if spec_key_in_phase(spec_key_names()[i], mux_index)
                            && spec_key_names()[i] / 10 == chan {
                            assert(spec_key_names()[i] == 10 * (spec_key_names()[i] / 10)
                                + spec_key_names()[i] % 10);
                            assert(spec_key_names()[i] == name);
                            assert(spec_key_index(spec_key_names()[i]) == Some(i as usize));
                            assert(false);
                        }
                    }
                    assert forall|i: int| 0 <= i < old(bus).queues@.len() implies ((
                    #[trigger] bus.queues@[i]).items@, bus.queues@[i].lag) == spec_published_seq(
                        old(bus).queues@[i].items@,
                        old(bus).queues@[i].lag,
                        spec_phase_events(old(bank).keys@, mux_index, samples@, chan + 1),
                    ) by {
                        crate::bus::lemma_published_seq_concat(
                            old(bus).queues@[i].items@,
                            old(bus).queues@[i].lag,
                            evs_so_far,
                            burst,
                        );
                        assert(spec_phase_events(old(bank).keys@, mux_index, samples@, chan + 1)
                            == evs_so_far + burst);
                    }
                }
            },
            None => {
                proof {
                    assert forall|i: int| 0 <= i < N_KEYS implies !(spec_key_in_phase(
                        spec_key_names()[i],
                        mux_index,
                    ) && spec_key_names()[i] / 10 == chan) by {
                        if spec_key_in_phase(spec_key_names()[i], mux_index)
                            && spec_key_names()[i] / 10 == chan {
                            assert(spec_key_names()[i] == 10 * (spec_key_names()[i] / 10)
                                + spec_key_names()[i] % 10);
                            assert(spec_key_names()[i] == name);
                            assert(spec_key_index(spec_key_names()[i]) == Some(i as usize));
                            assert(false);
                        }
                    }
                    assert(spec_phase_events(old(bank).keys@, mux_index, samples@, chan + 1)
                        =~= evs_so_far);
                }
            },
        }
        chan = chan + 1;
    }
}

} // verus!
