//! The meter's EEPROM map, and the host's cache of the calibration values
//! kept there.
//!
//! Each calibration value is a running mean: the EEPROM keeps the mean (an
//! eight-byte floating-point bit pattern) and the number of samples it was
//! taken over. Saving a new sample queues an update and marks the cached
//! value unread, so that it is fetched again once the update is written; an
//! exchange with the meter writes every queued update before it reads any
//! value. A mean read back is kept only when it lies in its plausible range.
use vstd::prelude::*;

verus! {

/// Byte: number of gate windows used for calibrated frequency measurements.
pub const WINDOW_COUNT_ADDRESS: u8 = 0;

/// Value: the pulse count of the reference signal at calibration time.
pub const CALIBRATION_COUNT_ADDRESS: u8 = 1;

/// Value: the calibrated gate period, in seconds.
pub const PERIOD_ADDRESS: u8 = 9;

/// Value: the temperature at calibration, in degrees Celsius.
pub const CALIBRATION_TEMPERATURE_ADDRESS: u8 = 17;

/// Value: the circuit's own capacitance C0, in pF.
pub const C0_ADDRESS: u8 = 25;

/// Value: the circuit's own inductance L0, in µH.
pub const L0_ADDRESS: u8 = 33;

/// Byte: number of samples behind C0 and L0.
pub const CL_SAMPLES_ADDRESS: u8 = 41;

/// Value: the first reference capacitance, in pF.
pub const CREF1_ADDRESS: u8 = 42;

/// Byte: number of samples behind the first reference capacitance.
pub const CREF1_SAMPLES_ADDRESS: u8 = 50;

/// Value: the second reference capacitance, in pF.
pub const CREF2_ADDRESS: u8 = 51;

/// Byte: number of samples behind the second reference capacitance.
pub const CREF2_SAMPLES_ADDRESS: u8 = 59;

/// What the host knows of one calibration value.
#[derive(Copy)]
pub enum Slot<V> {
    /// Not read from the EEPROM yet (or to be read again).
    Unread,
    /// Read and plausible: the mean and the number of samples behind it.
    Averaged { value: V, samples: u8 },
    /// Read, but implausible; the EEPROM holds no usable samples.
    Invalid,
}

impl<V: Copy> Clone for Slot<V> {
    fn clone(&self) -> (c: Self)
        ensures
            c == *self,
    {
        *self
    }
}

/// A stored mean carries between 1 and 254 samples.
pub open spec fn slot_wf<V>(slot: Slot<V>) -> bool {
    slot matches Slot::Averaged { samples, .. } ==> 1 <= samples && samples <= 254
}

// ---------------------------------------------------------------------------
// Plausible ranges
// ---------------------------------------------------------------------------
//
// Means are kept as IEEE-754 binary64 bit patterns. For patterns with the
// sign bit clear (zero, positive numbers, +infinity, then the NaNs) the order
// of the values is the order of the patterns as unsigned integers; every
// pattern with the sign bit set lies above all of them. So an open range
// (lo, hi) between two non-negative finite numbers holds exactly the
// patterns strictly between the patterns of lo and hi.

/// Bit pattern of 5.0 (pF), the lower bound of a reference capacitance.
pub const CREF_LOWER_BITS: u64 = 0x4014_0000_0000_0000;

/// Bit pattern of 10001.0 (pF), the upper bound of a reference capacitance
/// and of C0.
pub const CAPACITANCE_UPPER_BITS: u64 = 0x40C3_8880_0000_0000;

/// Bit pattern of 0.0 (pF), the lower bound of C0.
pub const C0_LOWER_BITS: u64 = 0;

/// Bit pattern of 0.1 (µH), the lower bound of L0.
pub const L0_LOWER_BITS: u64 = 0x3FB9_9999_9999_999A;

/// Bit pattern of 100.0 (µH), the upper bound of L0.
pub const L0_UPPER_BITS: u64 = 0x4059_0000_0000_0000;

/// A reference capacitance is plausible strictly between 5 and 10001 pF.
pub open spec fn plausible_cref(mean: u64) -> bool {
    CREF_LOWER_BITS < mean && mean < CAPACITANCE_UPPER_BITS
}

/// C0 is plausible strictly between 0 and 10001 pF, L0 strictly between 0.1
/// and 100 µH.
pub open spec fn plausible_c0l0(c0: u64, l0: u64) -> bool {
    &&& C0_LOWER_BITS < c0 && c0 < CAPACITANCE_UPPER_BITS
    &&& L0_LOWER_BITS < l0 && l0 < L0_UPPER_BITS
}

/// Whether `mean` is a plausible reference capacitance.
pub fn is_plausible_cref(mean: u64) -> (ok: bool)
    ensures
        ok == plausible_cref(mean),
{
    CREF_LOWER_BITS < mean && mean < CAPACITANCE_UPPER_BITS
}

/// Whether `c0` and `l0` are a plausible C0 / L0 pair.
pub fn is_plausible_c0l0(c0: u64, l0: u64) -> (ok: bool)
    ensures
        ok == plausible_c0l0(c0, l0),
{
    C0_LOWER_BITS < c0 && c0 < CAPACITANCE_UPPER_BITS && L0_LOWER_BITS < l0 && l0 < L0_UPPER_BITS
}

/// A cached reference capacitance: a stored mean is plausible and carries
/// between 1 and 254 samples.
pub open spec fn cref_slot_wf(slot: Slot<u64>) -> bool {
    &&& slot_wf(slot)
    &&& slot matches Slot::Averaged { value, .. } ==> plausible_cref(value)
}

/// A cached C0 / L0 pair: a stored pair is plausible and carries between 1
/// and 254 samples.
pub open spec fn c0l0_slot_wf(slot: Slot<(u64, u64)>) -> bool {
    &&& slot_wf(slot)
    &&& slot matches Slot::Averaged { value, .. } ==> plausible_c0l0(value.0, value.1)
}

/// The new content of a value cell.
#[derive(Clone, Copy)]
pub enum NewValue {
    /// The sample itself: it is the first one.
    Sample(u64),
    /// The mean of `samples` samples `mean` extended by `sample`:
    /// `(mean * samples + sample) / (samples + 1)`.
    RunningMean { mean: u64, samples: u8, sample: u64 },
}

/// One value cell to write.
#[derive(Clone, Copy)]
pub struct ValueWrite {
    pub address: u8,
    pub value: NewValue,
}

/// A queued EEPROM update: the new sample count is written first, then the
/// value cells in order.
#[derive(Clone, Copy)]
pub struct EepromUpdate {
    pub samples_address: u8,
    pub samples: u8,
    pub first: ValueWrite,
    pub second: Option<ValueWrite>,
}

/// A step of an exchange with the meter.
#[derive(Clone, Copy)]
pub enum EepromAction {
    /// Write this update: its sample count, then its value cells in order.
    Write(EepromUpdate),
    /// Read the first reference capacitance (sample count, then mean) and
    /// hand it to `load_cref1`.
    ReadCref1,
    /// Read the second reference capacitance and hand it to `load_cref2`.
    ReadCref2,
    /// Read the C0 / L0 pair (the two means, then the sample count) and hand
    /// it to `load_c0l0`.
    ReadC0L0,
    /// Nothing is queued and nothing is to be read.
    Done,
}

/// The step an exchange takes next: queued updates first, oldest first;
/// then the reads of the unread values.
pub open spec fn next_action_of(
    pending: Seq<EepromUpdate>,
    cref1: Slot<u64>,
    cref2: Slot<u64>,
    c0l0: Slot<(u64, u64)>,
) -> EepromAction {
    if pending.len() > 0 {
        EepromAction::Write(pending[0])
    } else if cref1 is Unread {
        EepromAction::ReadCref1
    } else if cref2 is Unread {
        EepromAction::ReadCref2
    } else if c0l0 is Unread {
        EepromAction::ReadC0L0
    } else {
        EepromAction::Done
    }
}

/// The order of an exchange: no value is read while an update waits to be
/// written, a value is read only when it is marked unread, and the exchange
/// is over exactly when nothing is queued and nothing is unread.
pub proof fn lemma_exchange_order(
    pending: Seq<EepromUpdate>,
    cref1: Slot<u64>,
    cref2: Slot<u64>,
    c0l0: Slot<(u64, u64)>,
)
    ensures
        next_action_of(pending, cref1, cref2, c0l0) is Write <==> pending.len() > 0,
        next_action_of(pending, cref1, cref2, c0l0) is ReadCref1 ==> pending.len() == 0
            && cref1 is Unread,
        next_action_of(pending, cref1, cref2, c0l0) is ReadCref2 ==> pending.len() == 0
            && cref2 is Unread,
        next_action_of(pending, cref1, cref2, c0l0) is ReadC0L0 ==> pending.len() == 0
            && c0l0 is Unread,
        next_action_of(pending, cref1, cref2, c0l0) is Done <==> pending.len() == 0 && !(
        cref1 is Unread) && !(cref2 is Unread) && !(c0l0 is Unread),
{
}

/// The update that adds `sample` to a single calibration value; none when the
/// value has not been read (its sample count is unknown).
pub open spec fn single_update(
    slot: Slot<u64>,
    samples_address: u8,
    value_address: u8,
    sample: u64,
) -> Option<EepromUpdate> {
    match slot {
        Slot::Unread => None,
        Slot::Averaged { value, samples } => Some(
            EepromUpdate {
                samples_address,
                samples: (samples + 1) as u8,
                first: ValueWrite {
                    address: value_address,
                    value: NewValue::RunningMean { mean: value, samples, sample },
                },
                second: None,
            },
        ),
        Slot::Invalid => Some(
            EepromUpdate {
                samples_address,
                samples: 1,
                first: ValueWrite { address: value_address, value: NewValue::Sample(sample) },
                second: None,
            },
        ),
    }
}

/// The update that adds the sample `(c, l)` to the C0 / L0 pair.
pub open spec fn pair_update(slot: Slot<(u64, u64)>, c: u64, l: u64) -> Option<EepromUpdate> {
    match slot {
        Slot::Unread => None,
        Slot::Averaged { value, samples } => Some(
            EepromUpdate {
                samples_address: CL_SAMPLES_ADDRESS,
                samples: (samples + 1) as u8,
                first: ValueWrite {
                    address: C0_ADDRESS,
                    value: NewValue::RunningMean { mean: value.0, samples, sample: c },
                },
                second: Some(
                    ValueWrite {
                        address: L0_ADDRESS,
                        value: NewValue::RunningMean { mean: value.1, samples, sample: l },
                    },
                ),
            },
        ),
        Slot::Invalid => Some(
            EepromUpdate {
                samples_address: CL_SAMPLES_ADDRESS,
                samples: 1,
                first: ValueWrite { address: C0_ADDRESS, value: NewValue::Sample(c) },
                second: Some(ValueWrite { address: L0_ADDRESS, value: NewValue::Sample(l) }),
            },
        ),
    }
}

/// Which cell a pair update writes what to: the C value (the sample `c`, or
/// the running mean of the stored C0 extended by `c`) goes to the C0 cell at
/// address 25, the L value (the sample `l`, or the running mean of the stored
/// L0 extended by `l`) to the L0 cell at address 33, and the new sample count
/// to address 41. An update is queued exactly when the pair has been read.
pub proof fn lemma_pair_update_cells(slot: Slot<(u64, u64)>, c: u64, l: u64)
    requires
        slot_wf(slot),
    ensures
        pair_update(slot, c, l) is Some <==> !(slot is Unread),
        pair_update(slot, c, l) matches Some(u) ==> {
            &&& u.samples_address == 41
            &&& u.samples == stored_samples(slot) + 1
            &&& u.first.address == 25
            &&& u.second matches Some(w) && w.address == 33
            &&& match slot {
                Slot::Averaged { value, samples } => {
                    &&& u.first.value == NewValue::RunningMean { mean: value.0, samples, sample: c }
                    &&& u.second.unwrap().value == NewValue::RunningMean {
                        mean: value.1,
                        samples,
                        sample: l,
                    }
                },
                _ => {
                    &&& u.first.value == NewValue::Sample(c)
                    &&& u.second.unwrap().value == NewValue::Sample(l)
                },
            }
        },
{
}

/// The same for a single reference value: the value goes to `value_address`,
/// the new sample count to `samples_address`, and the value is the sample or
/// the running mean of the stored mean extended by the sample.
pub proof fn lemma_single_update_cells(
    slot: Slot<u64>,
    samples_address: u8,
    value_address: u8,
    sample: u64,
)
    requires
        slot_wf(slot),
    ensures
        single_update(slot, samples_address, value_address, sample) is Some <==> !(slot is Unread),
        single_update(slot, samples_address, value_address, sample) matches Some(u) ==> {
            &&& u.samples_address == samples_address
            &&& u.samples == stored_samples(slot) + 1
            &&& u.first.address == value_address
            &&& u.second is None
            &&& match slot {
                Slot::Averaged { value, samples } => u.first.value == NewValue::RunningMean {
                    mean: value,
                    samples,
                    sample,
                },
                _ => u.first.value == NewValue::Sample(sample),
            }
        },
{
}

/// An unread slot takes what was read from the EEPROM: the value is kept
/// when it is plausible and the sample count lies in 1..=254, otherwise the
/// slot is invalid. A slot that was read already is left as it is.
pub open spec fn loaded<V>(slot: Slot<V>, value: V, samples: u8, plausible: bool) -> Slot<V> {
    match slot {
        Slot::Unread => if plausible && 0 < samples && samples < 255 {
            Slot::Averaged { value, samples }
        } else {
            Slot::Invalid
        },
        _ => slot,
    }
}

/// Appends the queued update, if any.
pub open spec fn queued(pending: Seq<EepromUpdate>, update: Option<EepromUpdate>) -> Seq<
    EepromUpdate,
> {
    match update {
        Some(u) => pending.push(u),
        None => pending,
    }
}

/// The number of samples a slot holds: zero unless it holds a stored mean.
pub open spec fn stored_samples<V>(slot: Slot<V>) -> int {
    match slot {
        Slot::Averaged { samples, .. } => samples as int,
        _ => 0,
    }
}

/// Saving a sample into a value that was read queues an update whose sample
/// count is one more than before. When that update has been written, the
/// value (marked unread by the save) reads back with the new count and a
/// plausible mean, as long as fewer than 254 samples were stored before; a
/// count of 255 reads back as invalid.
pub proof fn lemma_saved_sample_is_counted(
    slot: Slot<u64>,
    samples_address: u8,
    value_address: u8,
    sample: u64,
    mean_read_back: u64,
)
    requires
        slot_wf(slot),
        !(slot is Unread),
        plausible_cref(mean_read_back),
    ensures
        single_update(slot, samples_address, value_address, sample) matches Some(u) && {
            &&& u.samples == stored_samples(slot) + 1
            &&& stored_samples(slot) < 254 ==> loaded(Slot::Unread, mean_read_back, u.samples, plausible_cref(mean_read_back))
                == Slot::Averaged { value: mean_read_back, samples: u.samples }
            &&& stored_samples(slot) == 254 ==> loaded(
                Slot::Unread,
                mean_read_back,
                u.samples,
                plausible_cref(mean_read_back),
            ) == Slot::<u64>::Invalid
        },
{
}

/// The same for the C0 / L0 pair.
pub proof fn lemma_saved_pair_is_counted(slot: Slot<(u64, u64)>, c: u64, l: u64, read_back: (u64, u64))
    requires
        slot_wf(slot),
        !(slot is Unread),
        plausible_c0l0(read_back.0, read_back.1),
    ensures
        pair_update(slot, c, l) matches Some(u) && {
            &&& u.samples == stored_samples(slot) + 1
            &&& stored_samples(slot) < 254 ==> loaded(Slot::Unread, read_back, u.samples, plausible_c0l0(read_back.0, read_back.1))
                == Slot::Averaged { value: read_back, samples: u.samples }
            &&& stored_samples(slot) == 254 ==> loaded(Slot::Unread, read_back, u.samples, plausible_c0l0(read_back.0, read_back.1))
                == Slot::<(u64, u64)>::Invalid
        },
{
}

/// A value is taken from the EEPROM once: loading into a slot that was
/// loaded already changes nothing, and every load leaves a well-formed slot
/// that is no longer unread.
pub proof fn lemma_load_once<V>(
    slot: Slot<V>,
    value: V,
    samples: u8,
    plausible: bool,
    value2: V,
    samples2: u8,
    plausible2: bool,
)
    requires
        slot_wf(slot),
    ensures
        slot_wf(loaded(slot, value, samples, plausible)),
        !(loaded(slot, value, samples, plausible) is Unread),
        loaded(loaded(slot, value, samples, plausible), value2, samples2, plausible2) == loaded(
            slot,
            value,
            samples,
            plausible,
        ),
{
}

fn load_slot<V: Copy>(slot: Slot<V>, value: V, samples: u8, plausible: bool) -> (r: Slot<V>)
    ensures
        r == loaded(slot, value, samples, plausible),
{
    match slot {
        Slot::Unread => if plausible && 0 < samples && samples < 255 {
            Slot::Averaged { value, samples }
        } else {
            Slot::Invalid
        },
        _ => slot,
    }
}

fn make_single_update(slot: Slot<u64>, samples_address: u8, value_address: u8, sample: u64) -> (r:
    Option<EepromUpdate>)
    requires
        slot_wf(slot),
    ensures
        r == single_update(slot, samples_address, value_address, sample),
{
    match slot {
        Slot::Unread => None,
        Slot::Averaged { value, samples } => Some(
            EepromUpdate {
                samples_address,
                samples: samples + 1,
                first: ValueWrite {
                    address: value_address,
                    value: NewValue::RunningMean { mean: value, samples, sample },
                },
                second: None,
            },
        ),
        Slot::Invalid => Some(
            EepromUpdate {
                samples_address,
                samples: 1,
                first: ValueWrite { address: value_address, value: NewValue::Sample(sample) },
                second: None,
            },
        ),
    }
}

fn make_pair_update(slot: Slot<(u64, u64)>, c: u64, l: u64) -> (r: Option<EepromUpdate>)
    requires
        slot_wf(slot),
    ensures
        r == pair_update(slot, c, l),
{
    match slot {
        Slot::Unread => None,
        Slot::Averaged { value, samples } => Some(
            EepromUpdate {
                samples_address: CL_SAMPLES_ADDRESS,
                samples: samples + 1,
                first: ValueWrite {
                    address: C0_ADDRESS,
                    value: NewValue::RunningMean { mean: value.0, samples, sample: c },
                },
                second: Some(
                    ValueWrite {
                        address: L0_ADDRESS,
                        value: NewValue::RunningMean { mean: value.1, samples, sample: l },
                    },
                ),
            },
        ),
        Slot::Invalid => Some(
            EepromUpdate {
                samples_address: CL_SAMPLES_ADDRESS,
                samples: 1,
                first: ValueWrite { address: C0_ADDRESS, value: NewValue::Sample(c) },
                second: Some(ValueWrite { address: L0_ADDRESS, value: NewValue::Sample(l) }),
            },
        ),
    }
}

/// The host's cache of the EEPROM calibration values, with the updates that
/// are waiting to be written.
pub struct TEeprom {
    cref1: Slot<u64>,
    cref2: Slot<u64>,
    c0l0: Slot<(u64, u64)>,
    pending: Vec<EepromUpdate>,
}

impl TEeprom {
    #[verifier::type_invariant]
    closed spec fn inv(self) -> bool {
        &&& cref_slot_wf(self.cref1)
        &&& cref_slot_wf(self.cref2)
        &&& c0l0_slot_wf(self.c0l0)
    }

    pub closed spec fn cref1_slot(&self) -> Slot<u64> {
        self.cref1
    }

    pub closed spec fn cref2_slot(&self) -> Slot<u64> {
        self.cref2
    }

    pub closed spec fn c0l0_slot(&self) -> Slot<(u64, u64)> {
        self.c0l0
    }

    /// Updates waiting to be written, oldest first.
    pub closed spec fn pending_updates(&self) -> Seq<EepromUpdate> {
        self.pending@
    }

    /// A cache with nothing read and nothing queued.
    pub fn new() -> (e: TEeprom)
        ensures
            e.cref1_slot() == Slot::<u64>::Unread,
            e.cref2_slot() == Slot::<u64>::Unread,
            e.c0l0_slot() == Slot::<(u64, u64)>::Unread,
            e.pending_updates() == Seq::<EepromUpdate>::empty(),
    {
        TEeprom {
            cref1: Slot::Unread,
            cref2: Slot::Unread,
            c0l0: Slot::Unread,
            pending: Vec::new(),
        }
    }

    /// C0, when the C0 / L0 pair holds a stored mean.
    pub fn c0(&self) -> (c0: Option<u64>)
        ensures
            c0 == (match self.c0l0_slot() {
                Slot::Averaged { value, .. } => Some(value.0),
                _ => None,
            }),
    {
        match self.c0l0 {
            Slot::Averaged { value, .. } => Some(value.0),
            _ => None,
        }
    }

    /// C0, L0 and their sample count, when the pair holds a stored mean.
    pub fn c0_show(&self) -> (shown: Option<(u64, u64, u8)>)
        ensures
            shown == (match self.c0l0_slot() {
                Slot::Averaged { value, samples } => Some((value.0, value.1, samples)),
                _ => None,
            }),
            shown matches Some(s) ==> 1 <= s.2 && s.2 <= 254 && plausible_c0l0(s.0, s.1),
    {
        proof {
            use_type_invariant(self);
        }
        match self.c0l0 {
            Slot::Averaged { value, samples } => Some((value.0, value.1, samples)),
            _ => None,
        }
    }

    /// The first reference capacitance and its sample count, when stored.
    pub fn cref1_show(&self) -> (shown: Option<(u64, u8)>)
        ensures
            shown == (match self.cref1_slot() {
                Slot::Averaged { value, samples } => Some((value, samples)),
                _ => None,
            }),
            shown matches Some(s) ==> 1 <= s.1 && s.1 <= 254 && plausible_cref(s.0),
    {
        proof {
            use_type_invariant(self);
        }
        match self.cref1 {
            Slot::Averaged { value, samples } => Some((value, samples)),
            _ => None,
        }
    }

    /// The second reference capacitance and its sample count, when stored.
    pub fn cref2_show(&self) -> (shown: Option<(u64, u8)>)
        ensures
            shown == (match self.cref2_slot() {
                Slot::Averaged { value, samples } => Some((value, samples)),
                _ => None,
            }),
            shown matches Some(s) ==> 1 <= s.1 && s.1 <= 254 && plausible_cref(s.0),
    {
        proof {
            use_type_invariant(self);
        }
        match self.cref2 {
            Slot::Averaged { value, samples } => Some((value, samples)),
            _ => None,
        }
    }
    fn enqueue(&mut self, update: Option<EepromUpdate>)
        ensures
            final(self).pending_updates() == queued(old(self).pending_updates(), update),
            final(self).cref1_slot() == old(self).cref1_slot(),
            final(self).cref2_slot() == old(self).cref2_slot(),
            final(self).c0l0_slot() == old(self).c0l0_slot(),
    {
        proof {
            use_type_invariant(&*self);
        }
        if let Some(u) = update {
            let mut pending = Vec::new();
            std::mem::swap(&mut pending, &mut self.pending);
            pending.push(u);
            std::mem::swap(&mut pending, &mut self.pending);
        }
    }

    /// Queues the update that adds `cref` to the first reference capacitance
    /// and marks that value unread. Nothing is queued while the value has not
    /// been read, since its sample count is then unknown.
    pub fn save_cref1(&mut self, cref: u64)
        ensures
            final(self).pending_updates() == queued(
                old(self).pending_updates(),
                single_update(old(self).cref1_slot(), CREF1_SAMPLES_ADDRESS, CREF1_ADDRESS, cref),
            ),
            final(self).cref1_slot() == Slot::<u64>::Unread,
            final(self).cref2_slot() == old(self).cref2_slot(),
            final(self).c0l0_slot() == old(self).c0l0_slot(),
    {
        proof {
            use_type_invariant(&*self);
        }
        let update = make_single_update(self.cref1, CREF1_SAMPLES_ADDRESS, CREF1_ADDRESS, cref);
        self.enqueue(update);
        self.cref1 = Slot::Unread;
    }

    /// Queues the update that adds `cref` to the second reference
    /// capacitance and marks that value unread. Nothing is queued while the
    /// value has not been read.
    pub fn save_cref2(&mut self, cref: u64)
        ensures
            final(self).pending_updates() == queued(
                old(self).pending_updates(),
                single_update(old(self).cref2_slot(), CREF2_SAMPLES_ADDRESS, CREF2_ADDRESS, cref),
            ),
            final(self).cref2_slot() == Slot::<u64>::Unread,
            final(self).cref1_slot() == old(self).cref1_slot(),
            final(self).c0l0_slot() == old(self).c0l0_slot(),
    {
        proof {
            use_type_invariant(&*self);
        }
        let update = make_single_update(self.cref2, CREF2_SAMPLES_ADDRESS, CREF2_ADDRESS, cref);
        self.enqueue(update);
        self.cref2 = Slot::Unread;
    }

    /// Queues the update that adds the sample `new_cl = (C, L)` to the C0 /
    /// L0 pair. Nothing is queued while the pair has not been read. Afterwards
    /// the second reference capacitance is marked unread; the cached pair is
    /// kept as it was.
    pub fn save_cl(&mut self, new_cl: (u64, u64))
        ensures
            final(self).pending_updates() == queued(
                old(self).pending_updates(),
                pair_update(old(self).c0l0_slot(), new_cl.0, new_cl.1),
            ),
            final(self).cref2_slot() == Slot::<u64>::Unread,
            final(self).cref1_slot() == old(self).cref1_slot(),
            final(self).c0l0_slot() == old(self).c0l0_slot(),
    {
        proof {
            use_type_invariant(&*self);
        }
        let update = make_pair_update(self.c0l0, new_cl.0, new_cl.1);
        self.enqueue(update);
        self.cref2 = Slot::Unread;
    }

    /// The next step of an exchange with the meter: the oldest queued update
    /// is handed out (and leaves the queue) while there is one; after that,
    /// the values marked unread are read, in the order first reference,
    /// second reference, C0 / L0 pair; then there is nothing left to do.
    pub fn next_action(&mut self) -> (action: EepromAction)
        ensures
            action == next_action_of(
                old(self).pending_updates(),
                old(self).cref1_slot(),
                old(self).cref2_slot(),
                old(self).c0l0_slot(),
            ),
            final(self).pending_updates() == if old(self).pending_updates().len() > 0 {
                old(self).pending_updates().drop_first()
            } else {
                old(self).pending_updates()
            },
            final(self).cref1_slot() == old(self).cref1_slot(),
            final(self).cref2_slot() == old(self).cref2_slot(),
            final(self).c0l0_slot() == old(self).c0l0_slot(),
    {
        proof {
            use_type_invariant(&*self);
        }
        if self.pending.len() > 0 {
            let mut pending = Vec::new();
            std::mem::swap(&mut pending, &mut self.pending);
            let ghost before = pending@;
            let update = pending.remove(0);
            assert(pending@ =~= before.drop_first());
            std::mem::swap(&mut pending, &mut self.pending);
            return EepromAction::Write(update);
        }
        match (self.cref1, self.cref2, self.c0l0) {
            (Slot::Unread, _, _) => EepromAction::ReadCref1,
            (_, Slot::Unread, _) => EepromAction::ReadCref2,
            (_, _, Slot::Unread) => EepromAction::ReadC0L0,
            _ => EepromAction::Done,
        }
    }

    /// Whether the first reference capacitance is to be read.
    pub fn cref1_unread(&self) -> (unread: bool)
        ensures
            unread == (self.cref1_slot() is Unread),
    {
        match self.cref1 {
            Slot::Unread => true,
            _ => false,
        }
    }

    /// Whether the second reference capacitance is to be read.
    pub fn cref2_unread(&self) -> (unread: bool)
        ensures
            unread == (self.cref2_slot() is Unread),
    {
        match self.cref2 {
            Slot::Unread => true,
            _ => false,
        }
    }

    /// Whether the C0 / L0 pair is to be read.
    pub fn c0l0_unread(&self) -> (unread: bool)
        ensures
            unread == (self.c0l0_slot() is Unread),
    {
        match self.c0l0 {
            Slot::Unread => true,
            _ => false,
        }
    }

    /// Takes the mean and sample count read for the first reference
    /// capacitance; the mean is kept when it is plausible and the count lies
    /// in 1..=254.
    pub fn load_cref1(&mut self, mean: u64, samples: u8)
        ensures
            final(self).cref1_slot() == loaded(
                old(self).cref1_slot(),
                mean,
                samples,
                plausible_cref(mean),
            ),
            final(self).cref2_slot() == old(self).cref2_slot(),
            final(self).c0l0_slot() == old(self).c0l0_slot(),
            final(self).pending_updates() == old(self).pending_updates(),
    {
        proof {
            use_type_invariant(&*self);
        }
        self.cref1 = load_slot(self.cref1, mean, samples, is_plausible_cref(mean));
    }

    /// Takes the mean and sample count read for the second reference
    /// capacitance.
    pub fn load_cref2(&mut self, mean: u64, samples: u8)
        ensures
            final(self).cref2_slot() == loaded(
                old(self).cref2_slot(),
                mean,
                samples,
                plausible_cref(mean),
            ),
            final(self).cref1_slot() == old(self).cref1_slot(),
            final(self).c0l0_slot() == old(self).c0l0_slot(),
            final(self).pending_updates() == old(self).pending_updates(),
    {
        proof {
            use_type_invariant(&*self);
        }
        self.cref2 = load_slot(self.cref2, mean, samples, is_plausible_cref(mean));
    }

    /// Takes the means and sample count read for the C0 / L0 pair; they are
    /// kept when both are plausible and the count lies in 1..=254.
    pub fn load_c0l0(&mut self, c0: u64, l0: u64, samples: u8)
        ensures
            final(self).c0l0_slot() == loaded(
                old(self).c0l0_slot(),
                (c0, l0),
                samples,
                plausible_c0l0(c0, l0),
            ),
            final(self).cref1_slot() == old(self).cref1_slot(),
            final(self).cref2_slot() == old(self).cref2_slot(),
            final(self).pending_updates() == old(self).pending_updates(),
    {
        proof {
            use_type_invariant(&*self);
        }
        self.c0l0 = load_slot(self.c0l0, (c0, l0), samples, is_plausible_c0l0(c0, l0));
    }
}

impl Default for TEeprom {
    fn default() -> (e: TEeprom)
        ensures
            e.cref1_slot() == Slot::<u64>::Unread,
            e.cref2_slot() == Slot::<u64>::Unread,
            e.c0l0_slot() == Slot::<(u64, u64)>::Unread,
            e.pending_updates() == Seq::<EepromUpdate>::empty(),
    {
        TEeprom::new()
    }
}

} // verus!
