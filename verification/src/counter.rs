//! The pulse count carried by a counter reply, and the accumulation of a
//! series of such replies.
use vstd::prelude::*;
use vstd::arithmetic::power2::{pow2, lemma2_to64};
use crate::protocol::{REPLY_FREQUENCY, FREQUENCY_REPLY_LEN, valid_window_count};

verus! {

/// Prescaler codes the meter reports: `0xFF` for no prescaler, `0` to `3`
/// for the prescalers 1:2, 1:4, 1:8 and 1:16.
pub open spec fn known_prescaler(code: u8) -> bool {
    code == 0xFF || code < 4
}

/// The number of input pulses per timer tick for a prescaler code.
pub open spec fn prescaler_factor(code: u8) -> nat {
    if code == 0xFF {
        1
    } else if code == 0 {
        2
    } else if code == 1 {
        4
    } else if code == 2 {
        8
    } else {
        16
    }
}

/// A 32-bit number sent least significant byte first.
pub open spec fn le_u32(b0: u8, b1: u8, b2: u8, b3: u8) -> nat {
    (b0 + 256 * b1 + 65536 * b2 + 16777216 * b3) as nat
}

/// Pulses counted in a gate: each timer overflow stands for 256 ticks, the
/// timer holds the remaining ticks, and each tick stands for
/// `prescaler_factor` pulses.
pub open spec fn pulse_count(prescaler: u8, timer: u8, overflows: nat) -> nat {
    prescaler_factor(prescaler) * (256 * overflows + timer as nat)
}

pub open spec fn is_frequency_reply(reply: Seq<u8>) -> bool {
    reply.len() == FREQUENCY_REPLY_LEN && reply[0] == REPLY_FREQUENCY
}

/// Layout of a counter reply: tag, prescaler code, timer, then the overflow
/// count in four bytes, least significant first.
pub open spec fn frequency_reply_count(reply: Seq<u8>) -> nat {
    pulse_count(reply[1], reply[2], le_u32(reply[3], reply[4], reply[5], reply[6]))
}

/// A counter reply can be decoded when it carries a known prescaler code.
pub open spec fn decodable_frequency_reply(reply: Seq<u8>) -> bool {
    is_frequency_reply(reply) ==> known_prescaler(reply[1])
}

/// No pulse count reaches this bound: 16 * (256 * (2^32 - 1) + 255) < 2^44.
pub open spec fn count_bound() -> nat {
    0x1000_0000_0000
}

pub proof fn lemma_count_bounded(reply: Seq<u8>)
    requires
        is_frequency_reply(reply),
    ensures
        frequency_reply_count(reply) < count_bound(),
{
    let ov = le_u32(reply[3], reply[4], reply[5], reply[6]);
    assert(ov < 0x1_0000_0000);
    let base = 256 * ov + reply[2];
    assert(base < 0x100_0000_0000);
    assert(prescaler_factor(reply[1]) * base <= 16 * base) by (nonlinear_arith)
        requires
            prescaler_factor(reply[1]) <= 16,
            base >= 0,
    ;
}

/// The prescaler table: the meter reports the code of a prescaler 1:2^k as
/// k - 1, and no prescaler (k = 0) as 0xFF, for k from 0 to 4. These five
/// codes, and no others, are known, and each stands for 2^k input pulses per
/// timer tick.
pub proof fn lemma_prescaler_codes(code: u8)
    ensures
        known_prescaler(code) <==> (code as int + 1) % 256 <= 4,
        known_prescaler(code) ==> prescaler_factor(code) == pow2(((code as int + 1) % 256) as nat),
        known_prescaler(0xFF) && known_prescaler(0) && known_prescaler(1) && known_prescaler(2)
            && known_prescaler(3),
{
    lemma2_to64();
}

/// Every counter reply that carries one of the meter's prescaler codes can
/// be decoded, and its pulse count is 2^k times the timer ticks.
pub proof fn lemma_known_replies_decode(reply: Seq<u8>)
    requires
        is_frequency_reply(reply),
        reply[1] == 0xFF || reply[1] <= 3,
    ensures
        decodable_frequency_reply(reply),
        frequency_reply_count(reply) == pow2(((reply[1] as int + 1) % 256) as nat) * (256 * le_u32(
            reply[3],
            reply[4],
            reply[5],
            reply[6],
        ) + reply[2]),
{
    lemma_prescaler_codes(reply[1]);
}

/// Whether a code is one of the prescaler codes the meter reports.
pub fn is_known_prescaler(code: u8) -> (known: bool)
    ensures
        known == known_prescaler(code),
{
    code == 0xFF || code < 4
}

/// Whether `reply` can be handed to `decode_frequency_reply`.
pub fn frequency_reply_decodable(reply: &[u8]) -> (ok: bool)
    ensures
        ok == decodable_frequency_reply(reply@),
{
    !(reply.len() == FREQUENCY_REPLY_LEN && reply[0] == REPLY_FREQUENCY) || is_known_prescaler(
        reply[1],
    )
}

/// The pulse count carried by a counter reply, or `None` when `reply` is not
/// a counter reply.
pub fn decode_frequency_reply(reply: &[u8]) -> (count: Option<u64>)
    requires
        decodable_frequency_reply(reply@),
    ensures
        count is Some <==> is_frequency_reply(reply@),
        count matches Some(c) ==> c == frequency_reply_count(reply@),
{
    if !(reply.len() == FREQUENCY_REPLY_LEN && reply[0] == REPLY_FREQUENCY) {
        return None;
    }
    let prescaler = reply[1];
    let timer = reply[2];
    let overflows: u64 = (reply[3] as u64) + 256 * (reply[4] as u64) + 65536 * (reply[5] as u64)
        + 16777216 * (reply[6] as u64);
    assert(overflows == le_u32(reply@[3], reply@[4], reply@[5], reply@[6]));
    let ticks: u64 = 256 * overflows + (timer as u64);
    let count: u64 = if prescaler == 0xFF {
        ticks
    } else if prescaler == 0 {
        2 * ticks
    } else if prescaler == 1 {
        4 * ticks
    } else if prescaler == 2 {
        8 * ticks
    } else {
        16 * ticks
    };
    proof {
        let f = prescaler_factor(prescaler);
        assert(f == 1 || f == 2 || f == 4 || f == 8 || f == 16);
        assert(count == f * ticks);
    }
    Some(count)
}

// ---------------------------------------------------------------------------
// A series of measurements
// ---------------------------------------------------------------------------

pub open spec fn sum(counts: Seq<nat>) -> nat
    decreases counts.len(),
{
    if counts.len() == 0 {
        0
    } else {
        sum(counts.drop_last()) + counts.last()
    }
}

/// The replies to one series request: exactly as many replies as
/// measurements were asked for are awaited, and the pulse counts of the valid
/// ones are summed.
pub struct FrequencySeries {
    remaining: u8,
    total: u64,
    samples: u8,
    counts: Ghost<Seq<nat>>,
}

impl FrequencySeries {
    #[verifier::type_invariant]
    closed spec fn inv(self) -> bool {
        &&& self.samples == self.counts@.len()
        &&& self.samples + self.remaining < 255
        &&& self.total == sum(self.counts@)
        &&& self.total <= self.samples * count_bound()
    }

    /// Pulse counts of the valid replies so far, in order of arrival.
    pub closed spec fn counts(self) -> Seq<nat> {
        self.counts@
    }

    /// Replies still awaited.
    pub closed spec fn remaining(self) -> nat {
        self.remaining as nat
    }

    /// A series of `measurements` replies, or `None` when `measurements` is
    /// out of range.
    pub fn new(measurements: u8) -> (series: Option<FrequencySeries>)
        ensures
            series is Some <==> valid_window_count(measurements),
            series matches Some(s) ==> s.remaining() == measurements && s.counts() == Seq::<
                nat,
            >::empty(),
    {
        if 0 < measurements && measurements < 255 {
            Some(FrequencySeries { remaining: measurements, total: 0, samples: 0, counts: Ghost(Seq::empty()) })
        } else {
            None
        }
    }

    /// Whether every awaited reply has been accounted for.
    pub fn is_complete(&self) -> (done: bool)
        ensures
            done == (self.remaining() == 0),
    {
        self.remaining == 0
    }

    /// Accounts for one received reply; its pulse count joins the series when
    /// it is a counter reply.
    pub fn record_reply(&mut self, reply: &[u8])
        requires
            old(self).remaining() > 0,
            decodable_frequency_reply(reply@),
        ensures
            final(self).remaining() == old(self).remaining() - 1,
            final(self).counts() == if is_frequency_reply(reply@) {
                old(self).counts().push(frequency_reply_count(reply@))
            } else {
                old(self).counts()
            },
    {
        proof {
            use_type_invariant(&*self);
        }
        match decode_frequency_reply(reply) {
            Some(count) => {
                proof {
                    lemma_count_bounded(reply@);
                }
                let ghost old_counts = self.counts@;
                assert(old_counts.push(count as nat).drop_last() =~= old_counts);
                *self = FrequencySeries {
                    remaining: self.remaining - 1,
                    total: self.total + count,
                    samples: self.samples + 1,
                    counts: Ghost(old_counts.push(count as nat)),
                };
            },
            None => {
                self.remaining = self.remaining - 1;
            },
        }
    }

    /// Accounts for an awaited reply that never came.
    pub fn record_missing_reply(&mut self)
        requires
            old(self).remaining() > 0,
        ensures
            final(self).remaining() == old(self).remaining() - 1,
            final(self).counts() == old(self).counts(),
    {
        proof {
            use_type_invariant(&*self);
        }
        self.remaining = self.remaining - 1;
    }

    /// The sum of the pulse counts of the valid replies, and how many there
    /// were; their mean is the series' result.
    pub fn total_and_samples(&self) -> (r: (u64, u8))
        ensures
            r.0 == sum(self.counts()),
            r.1 == self.counts().len(),
    {
        proof {
            use_type_invariant(self);
        }
        (self.total, self.samples)
    }
}

} // verus!
