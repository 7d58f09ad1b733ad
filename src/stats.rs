//! Aggregate statistics over a population of connections.
use vstd::prelude::*;

verus! {

/// Number of buckets of the connection-time histogram.
pub const BUCKETS: usize = 32;

/// Position of the highest set bit of `d`; zero and one both give 0.
pub open spec fn highest_bit(d: nat) -> nat
    decreases d,
{
    if d <= 1 {
        0
    } else {
        1 + highest_bit(d / 2)
    }
}

/// Histogram bucket of a duration in seconds: the position of its highest set
/// bit (0 for a duration of 0), kept within the last bucket.
pub open spec fn bucket_spec(d: nat) -> nat {
    if highest_bit(d) < 31 {
        highest_bit(d)
    } else {
        31
    }
}

/// Addition that stops at `u64::MAX`.
pub open spec fn sat(a: int, b: int) -> u64 {
    if a + b > u64::MAX {
        u64::MAX
    } else {
        (a + b) as u64
    }
}

pub open spec fn max_u64(a: u64, b: u64) -> u64 {
    if a >= b {
        a
    } else {
        b
    }
}

pub open spec fn min_u64(a: u64, b: u64) -> u64 {
    if a <= b {
        a
    } else {
        b
    }
}

/// The counters kept for one open connection.
#[derive(Clone, Copy, Debug, PartialEq, Eq)]
pub struct Client {
    /// Instant of the connection, in milliseconds of a monotonic clock.
    pub start: u64,
    pub sent_chunks: u64,
    pub sent_eastereggs: u64,
    pub sent_banners: u64,
}

/// Whole seconds from `start` to `now` (milliseconds), zero if `now` is earlier.
pub open spec fn elapsed_spec(start: u64, now: u64) -> u64 {
    if now >= start {
        ((now - start) / 1000) as u64
    } else {
        0
    }
}

/// Running totals over a population of connections, as plain values.
pub ghost struct Aggregate {
    pub maximum_connection_time: u64,
    pub minimum_connection_time: u64,
    pub connection_time_till: Seq<u64>,
    pub connection_time: u64,
    pub sent_chunks_sum: u64,
    pub sent_eastereggs_sum: u64,
    pub sent_banners_sum: u64,
}

/// The aggregate of an empty population: the minimum starts at "infinite".
pub open spec fn empty_aggregate() -> Aggregate {
    Aggregate {
        maximum_connection_time: 0,
        minimum_connection_time: u64::MAX,
        connection_time_till: Seq::new(BUCKETS as nat, |i: int| 0u64),
        connection_time: 0,
        sent_chunks_sum: 0,
        sent_eastereggs_sum: 0,
        sent_banners_sum: 0,
    }
}

/// `a` with one more connection of `d` seconds and the counters of `c`.
pub open spec fn add_sample(a: Aggregate, d: u64, c: Client) -> Aggregate {
    let b = bucket_spec(d as nat) as int;
    Aggregate {
        maximum_connection_time: max_u64(a.maximum_connection_time, d),
        minimum_connection_time: min_u64(a.minimum_connection_time, d),
        connection_time_till: a.connection_time_till.update(b, sat(a.connection_time_till[b] as int, 1)),
        connection_time: sat(a.connection_time as int, d as int),
        sent_chunks_sum: sat(a.sent_chunks_sum as int, c.sent_chunks as int),
        sent_eastereggs_sum: sat(a.sent_eastereggs_sum as int, c.sent_eastereggs as int),
        sent_banners_sum: sat(a.sent_banners_sum as int, c.sent_banners as int),
    }
}

/// The aggregate of two populations together.
pub open spec fn combine(a: Aggregate, b: Aggregate) -> Aggregate {
    Aggregate {
        maximum_connection_time: max_u64(a.maximum_connection_time, b.maximum_connection_time),
        minimum_connection_time: min_u64(a.minimum_connection_time, b.minimum_connection_time),
        connection_time_till: Seq::new(
            BUCKETS as nat,
            |i: int| sat(a.connection_time_till[i] as int, b.connection_time_till[i] as int),
        ),
        connection_time: sat(a.connection_time as int, b.connection_time as int),
        sent_chunks_sum: sat(a.sent_chunks_sum as int, b.sent_chunks_sum as int),
        sent_eastereggs_sum: sat(a.sent_eastereggs_sum as int, b.sent_eastereggs_sum as int),
        sent_banners_sum: sat(a.sent_banners_sum as int, b.sent_banners_sum as int),
    }
}

/// Whole seconds from `start` to `now`, both in milliseconds of a monotonic
/// clock; zero when `now` is not later than `start`.
pub fn elapsed_seconds(start: u64, now: u64) -> (r: u64)
    ensures
        r == elapsed_spec(start, now),
{
    if now >= start {
        (now - start) / 1000
    } else {
        0
    }
}

/// The histogram bucket of a duration of `d` seconds. Zero has no set bit and
/// goes to bucket 0; durations of 2^32 seconds and more go to the last bucket.
pub fn bucket_of(d: u64) -> (r: usize)
    ensures
        r as nat == bucket_spec(d as nat),
        r < BUCKETS,
{
    let mut v: u64 = d;
    let mut b: usize = 0;
    while v > 1 && b < 31
        invariant
            b <= 31,
            bucket_spec(d as nat) == if highest_bit(v as nat) + b < 31 {
                highest_bit(v as nat) + b
            } else {
                31
            },
        decreases v,
    {
        v = v / 2;
        b = b + 1;
    }
    b
}

/// Running totals over a population of connections: longest and shortest
/// connection, a histogram of connection times, and the sums of connection
/// time and of the per-client counters. Every sum stops at `u64::MAX`.
#[derive(Clone, Copy, Debug, PartialEq, Eq)]
pub struct ClientMetrics {
    pub maximum_connection_time: u64,
    pub minimum_connection_time: u64,
    pub connection_time_till: [u64; 32],
    pub connection_time: u64,
    pub sent_chunks_sum: u64,
    pub sent_eastereggs_sum: u64,
    pub sent_banners_sum: u64,
}

impl View for ClientMetrics {
    type V = Aggregate;

    open spec fn view(&self) -> Aggregate {
        Aggregate {
            maximum_connection_time: self.maximum_connection_time,
            minimum_connection_time: self.minimum_connection_time,
            connection_time_till: self.connection_time_till@,
            connection_time: self.connection_time,
            sent_chunks_sum: self.sent_chunks_sum,
            sent_eastereggs_sum: self.sent_eastereggs_sum,
            sent_banners_sum: self.sent_banners_sum,
        }
    }
}

impl ClientMetrics {
    /// The totals of no connection at all.
    pub fn new() -> (r: Self)
        ensures
            r@ == empty_aggregate(),
    {
        let r = ClientMetrics {
            maximum_connection_time: 0,
            minimum_connection_time: u64::MAX,
            connection_time_till: [0u64; 32],
            connection_time: 0,
            sent_chunks_sum: 0,
            sent_eastereggs_sum: 0,
            sent_banners_sum: 0,
        };
        assert(r.connection_time_till@ =~= empty_aggregate().connection_time_till);
        r
    }

    /// Folds in one connection that lasted `d` seconds with the counters of `c`.
    pub fn add(&mut self, d: u64, c: &Client)
        ensures
            final(self)@ == add_sample(old(self)@, d, *c),
    {
        if d > self.maximum_connection_time {
            self.maximum_connection_time = d;
        }
        if d < self.minimum_connection_time {
            self.minimum_connection_time = d;
        }
        let b = bucket_of(d);
        self.connection_time_till[b] = self.connection_time_till[b].saturating_add(1);
        self.connection_time = self.connection_time.saturating_add(d);
        self.sent_chunks_sum = self.sent_chunks_sum.saturating_add(c.sent_chunks);
        self.sent_eastereggs_sum = self.sent_eastereggs_sum.saturating_add(c.sent_eastereggs);
        self.sent_banners_sum = self.sent_banners_sum.saturating_add(c.sent_banners);
        assert(self@.connection_time_till =~= add_sample(old(self)@, d, *c).connection_time_till);
    }

    /// The totals of this population and `other` together.
    pub fn combined(&self, other: &ClientMetrics) -> (r: ClientMetrics)
        ensures
            r@ == combine(self@, other@),
    {
        let mut till = [0u64; 32];
        let mut i: usize = 0;
        while i < BUCKETS
            invariant
                i <= BUCKETS,
                forall|j: int|
                    0 <= j < i ==> #[trigger] till@[j] == sat(
                        self.connection_time_till@[j] as int,
                        other.connection_time_till@[j] as int,
                    ),
            decreases BUCKETS - i,
        {
            till[i] = self.connection_time_till[i].saturating_add(other.connection_time_till[i]);
            i = i + 1;
        }
        let r = ClientMetrics {
            maximum_connection_time: if self.maximum_connection_time >= other.maximum_connection_time {
                self.maximum_connection_time
            } else {
                other.maximum_connection_time
            },
            minimum_connection_time: if self.minimum_connection_time <= other.minimum_connection_time {
                self.minimum_connection_time
            } else {
                other.minimum_connection_time
            },
            connection_time_till: till,
            connection_time: self.connection_time.saturating_add(other.connection_time),
            sent_chunks_sum: self.sent_chunks_sum.saturating_add(other.sent_chunks_sum),
            sent_eastereggs_sum: self.sent_eastereggs_sum.saturating_add(other.sent_eastereggs_sum),
            sent_banners_sum: self.sent_banners_sum.saturating_add(other.sent_banners_sum),
        };
        assert(r@.connection_time_till =~= combine(self@, other@).connection_time_till);
        r
    }
}

} // verus!
