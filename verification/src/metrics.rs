//! Measurements scraped from the benchmark clients and their aggregation.

use crate::time::{duration_millis, duration_nanos, duration_secs};
use std::time::Duration;
use vstd::prelude::*;

verus! {

/// The upper bound of a latency bucket, as text.
pub type BucketId = String;

/// One measurement of a benchmark client.
#[derive(Clone, Debug)]
pub struct DataPoint {
    /// Duration since the beginning of the benchmark.
    pub timestamp: Duration,
    /// Latency buckets: each bucket id with the number of transactions in it.
    pub buckets: Vec<(BucketId, usize)>,
    /// Sum of the latencies of all finalized transactions.
    pub sum: Duration,
    /// Total number of finalized transactions.
    pub count: usize,
    /// Sum of the squares of the latencies of all finalized transactions.
    pub squared_sum: Duration,
}

/// Whether `root` is the square root of `x` rounded down.
pub open spec fn is_floor_sqrt(root: int, x: int) -> bool {
    0 <= root && root * root <= x < (root + 1) * (root + 1)
}

/// `num_integer::Roots::sqrt` for `u128`: the square root rounded down, that
/// is the one `root` with `root * root <= x < (root + 1) * (root + 1)`.
#[verifier::external_body]
fn integer_sqrt(x: u128) -> (root: u128)
    ensures
        is_floor_sqrt(root as int, x as int),
{
    num_integer::Roots::sqrt(&x)
}

/// The largest timestamp among the points in nanoseconds, and zero for none.
pub open spec fn latest_nanos(points: Seq<&DataPoint>) -> nat
    decreases points.len(),
{
    if points.len() == 0 {
        0
    } else {
        let before = latest_nanos(points.drop_last());
        let last = duration_nanos(points.last().timestamp);
        if last >= before {
            last
        } else {
            before
        }
    }
}

/// The sum of the transactions per second of the points.
pub open spec fn total_tps(points: Seq<&DataPoint>) -> nat
    decreases points.len(),
{
    if points.len() == 0 {
        0
    } else {
        total_tps(points.drop_last()) + points.last().spec_tps()
    }
}

/// The sum of the average latencies of the points in milliseconds.
pub open spec fn total_average_latency_millis(points: Seq<&DataPoint>) -> nat
    decreases points.len(),
{
    if points.len() == 0 {
        0
    } else {
        total_average_latency_millis(points.drop_last())
            + points.last().spec_average_latency_millis() as nat
    }
}

/// The largest latency variance among the points, and zero for none.
pub open spec fn largest_variance_millis(points: Seq<&DataPoint>) -> nat
    decreases points.len(),
{
    if points.len() == 0 {
        0
    } else {
        let before = largest_variance_millis(points.drop_last());
        let last = points.last().spec_variance_millis();
        if last >= before {
            last
        } else {
            before
        }
    }
}

/// The sum over a prefix of the points is no more than the sum over all.
proof fn lemma_total_tps_prefix(points: Seq<&DataPoint>, n: int)
    requires
        0 <= n <= points.len(),
    ensures
        total_tps(points.take(n)) <= total_tps(points),
    decreases points.len() - n,
{
    if n < points.len() {
        lemma_total_tps_prefix(points, n + 1);
        assert(points.take(n + 1).drop_last() == points.take(n));
    } else {
        assert(points.take(n) == points);
    }
}

/// A larger number has no smaller square root.
proof fn lemma_floor_sqrt_monotonic(small_root: int, small: int, large_root: int, large: int)
    requires
        is_floor_sqrt(small_root, small),
        is_floor_sqrt(large_root, large),
        small <= large,
    ensures
        small_root <= large_root,
{
    if small_root > large_root {
        assert(small_root * small_root >= (large_root + 1) * (large_root + 1)) by (nonlinear_arith)
            requires
                0 <= large_root,
                small_root >= large_root + 1,
        ;
    }
}

impl Default for DataPoint {
    /// The measurement before anything was observed.
    fn default() -> (point: Self)
        ensures
            duration_nanos(point.timestamp) == 0,
            point.buckets@.len() == 0,
            duration_nanos(point.sum) == 0,
            point.count == 0,
            duration_nanos(point.squared_sum) == 0,
    {
        Self {
            timestamp: Duration::from_secs(0),
            buckets: Vec::new(),
            sum: Duration::from_secs(0),
            count: 0,
            squared_sum: Duration::from_secs(0),
        }
    }
}

impl DataPoint {
    /// Create a data point from what was measured.
    pub fn new(
        benchmark_timestamp: Duration,
        buckets: Vec<(BucketId, usize)>,
        sum: Duration,
        count: usize,
        squared_sum: Duration,
    ) -> (point: Self)
        ensures
            point.timestamp == benchmark_timestamp,
            point.buckets == buckets,
            point.sum == sum,
            point.count == count,
            point.squared_sum == squared_sum,
    {
        Self { timestamp: benchmark_timestamp, buckets, sum, count, squared_sum }
    }

    /// The whole seconds of the timestamp as a machine word.
    pub open spec fn elapsed_secs(&self) -> usize {
        duration_secs(self.timestamp) as usize
    }

    /// Transactions per second: the count divided by the elapsed seconds,
    /// and zero before the first second has elapsed.
    pub open spec fn spec_tps(&self) -> nat {
        if self.elapsed_secs() == 0 {
            0
        } else {
            (self.count / self.elapsed_secs()) as nat
        }
    }

    /// The average latency in milliseconds: the sum of the latencies divided
    /// by their number, and zero where there is none.
    pub open spec fn spec_average_latency_millis(&self) -> u64 {
        if self.count == 0 {
            0
        } else {
            (duration_millis(self.sum) / (self.count as nat)) as u64
        }
    }

    /// The variance of the latency in square milliseconds: the mean of the
    /// squares less the square of the mean, and zero where that is negative.
    pub open spec fn spec_variance_millis(&self) -> nat {
        let mean_of_squares = if self.count == 0 {
            0
        } else {
            duration_millis(self.squared_sum) / (self.count as nat)
        };
        let mean = self.spec_average_latency_millis();
        let square_of_mean = mean * mean;
        if mean_of_squares >= square_of_mean {
            (mean_of_squares - square_of_mean) as nat
        } else {
            0
        }
    }

    /// The transactions per second up to this data point.
    pub fn tps(&self) -> (tps: u64)
        ensures
            tps == self.spec_tps(),
    {
        let secs: usize = #[verifier::truncate] (self.timestamp.as_secs() as usize);
        match self.count.checked_div(secs) {
            Some(tps) => tps as u64,
            None => 0,
        }
    }

    /// The average latency of the transactions, to the millisecond.
    pub fn average_latency(&self) -> (latency: Duration)
        ensures
            duration_nanos(latency) == self.spec_average_latency_millis() * 1_000_000,
    {
        let latency_in_millis: u64 = match self.sum.as_millis().checked_div(self.count as u128) {
            Some(millis) => #[verifier::truncate] (millis as u64),
            None => 0,
        };
        Duration::from_millis(latency_in_millis)
    }

    /// The standard deviation of the latency of the transactions, to the
    /// millisecond.
    pub fn stdev_latency(&self) -> (stdev: Duration)
        ensures
            duration_nanos(stdev) % 1_000_000 == 0,
            is_floor_sqrt(duration_millis(stdev) as int, self.spec_variance_millis() as int),
    {
        // stdev = sqrt( squared_sum / count - avg^2 )
        let first_term: u128 = match self.squared_sum.as_millis().checked_div(self.count as u128) {
            Some(term) => term,
            None => 0,
        };
        let average: u128 = self.average_latency().as_millis();
        assert(average == self.spec_average_latency_millis());
        assert(average * average <= u128::MAX) by (nonlinear_arith)
            requires
                0 <= average <= u64::MAX,
        ;
        let squared_avg: u128 = average * average;
        let variance: u128 = match first_term.checked_sub(squared_avg) {
            Some(variance) => variance,
            None => 0,
        };
        assert(variance == self.spec_variance_millis());
        let stdev: u128 = integer_sqrt(variance);
        assert(stdev <= u64::MAX) by (nonlinear_arith)
            requires
                0 <= stdev,
                stdev * stdev <= variance,
                variance <= u128::MAX,
        ;
        Duration::from_millis(stdev as u64)
    }

    /// Aggregate the benchmark duration of multiple data points by taking the max.
    pub fn aggregate_duration(data_points: &[&Self]) -> (duration: Duration)
        ensures
            duration_nanos(duration) == latest_nanos(data_points@),
    {
        let mut longest: Duration = Duration::from_secs(0);
        let mut i: usize = 0;
        while i < data_points.len()
            invariant
                i <= data_points@.len(),
                duration_nanos(longest) == latest_nanos(data_points@.take(i as int)),
            decreases data_points@.len() - i,
        {
            let timestamp: Duration = data_points[i].timestamp;
            assert(data_points@.take(i + 1).drop_last() == data_points@.take(i as int));
            if timestamp.as_nanos() >= longest.as_nanos() {
                longest = timestamp;
            }
            i += 1;
        }
        assert(data_points@.take(i as int) == data_points@);
        longest
    }

    /// Aggregate the tps of multiple data points by taking the sum.
    pub fn aggregate_tps(data_points: &[&Self]) -> (tps: u64)
        requires
            total_tps(data_points@) <= u64::MAX,
        ensures
            tps == total_tps(data_points@),
    {
        Self::checked_aggregate_tps(data_points).unwrap()
    }

    /// The sum of the tps of multiple data points, and none where the sum is
    /// more than fits.
    pub fn checked_aggregate_tps(data_points: &[&Self]) -> (tps: Option<u64>)
        ensures
            match tps {
                Some(tps) => tps == total_tps(data_points@),
                None => total_tps(data_points@) > u64::MAX,
            },
    {
        let mut total: u64 = 0;
        let mut i: usize = 0;
        while i < data_points.len()
            invariant
                i <= data_points@.len(),
                total == total_tps(data_points@.take(i as int)),
            decreases data_points@.len() - i,
        {
            let tps: u64 = data_points[i].tps();
            proof {
                assert(data_points@.take(i + 1).drop_last() == data_points@.take(i as int));
                lemma_total_tps_prefix(data_points@, i + 1);
            }
            total = match total.checked_add(tps) {
                Some(total) => total,
                None => { return None; },
            };
            i += 1;
        }
        assert(data_points@.take(i as int) == data_points@);
        Some(total)
    }

    /// Aggregate the average latency of multiple data points by taking the average.
    pub fn aggregate_average_latency(data_points: &[&Self]) -> (latency: Duration)
        ensures
            data_points@.len() == 0 ==> duration_nanos(latency) == 0,
            data_points@.len() > 0 ==> duration_nanos(latency) == (total_average_latency_millis(
                data_points@,
            ) / data_points@.len()) * 1_000_000,
    {
        let mut total: u128 = 0;
        let mut i: usize = 0;
        while i < data_points.len()
            invariant
                i <= data_points@.len(),
                total == total_average_latency_millis(data_points@.take(i as int)),
                total <= i * 0xffff_ffff_ffff_ffff,
            decreases data_points@.len() - i,
        {
            let millis: u128 = data_points[i].average_latency().as_millis();
            assert(data_points@.take(i + 1).drop_last() == data_points@.take(i as int));
            total = total + millis;
            i += 1;
        }
        assert(data_points@.take(i as int) == data_points@);
        let average: u64 = match total.checked_div(data_points.len() as u128) {
            Some(average) => {
                assert(average <= u64::MAX) by (nonlinear_arith)
                    requires
                        i > 0,
                        average == total / (i as u128),
                        total <= i * 0xffff_ffff_ffff_ffff,
                ;
                average as u64
            },
            None => 0,
        };
        Duration::from_millis(average)
    }

    /// Aggregate the stdev latency of multiple data points by taking the max.
    pub fn aggregate_stdev_latency(data_points: &[&Self]) -> (stdev: Duration)
        ensures
            duration_nanos(stdev) % 1_000_000 == 0,
            is_floor_sqrt(
                duration_millis(stdev) as int,
                largest_variance_millis(data_points@) as int,
            ),
    {
        let mut largest: Duration = Duration::from_millis(0);
        let mut i: usize = 0;
        assert(is_floor_sqrt(0, 0));
        while i < data_points.len()
            invariant
                i <= data_points@.len(),
                duration_nanos(largest) % 1_000_000 == 0,
                is_floor_sqrt(
                    duration_millis(largest) as int,
                    largest_variance_millis(data_points@.take(i as int)) as int,
                ),
            decreases data_points@.len() - i,
        {
            let stdev: Duration = data_points[i].stdev_latency();
            proof {
                assert(data_points@.take(i + 1).drop_last() == data_points@.take(i as int));
                let before = largest_variance_millis(data_points@.take(i as int));
                let variance = data_points@[i as int].spec_variance_millis();
                if variance >= before {
                    lemma_floor_sqrt_monotonic(
                        duration_millis(largest) as int,
                        before as int,
                        duration_millis(stdev) as int,
                        variance as int,
                    );
                } else {
                    lemma_floor_sqrt_monotonic(
                        duration_millis(stdev) as int,
                        variance as int,
                        duration_millis(largest) as int,
                        before as int,
                    );
                }
            }
            if stdev.as_nanos() >= largest.as_nanos() {
                largest = stdev;
            }
            i += 1;
        }
        assert(data_points@.take(i as int) == data_points@);
        largest
    }
}

} // verus!
