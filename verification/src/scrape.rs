//! Reading a measurement out of the report that a benchmark client exposes
//! in the Prometheus text format.

use crate::metrics::{BucketId, DataPoint};
use crate::time::duration_nanos;
use std::time::Duration;
use vstd::multiset::Multiset;
use vstd::prelude::*;

verus! {

/// The metric that holds the latency histogram.
pub const LATENCY_BUCKETS: &'static str = "latency_s";

/// The metric that holds the sum of the latencies in seconds.
pub const LATENCY_SUM: &'static str = "latency_s_sum";

/// The metric that holds the number of latencies observed.
pub const LATENCY_COUNT: &'static str = "latency_s_count";

/// The metric that holds the sum of the squared latencies.
pub const LATENCY_SQUARED_SUM: &'static str = "latency_squared_s";

/// The metric that holds the seconds since the benchmark began.
pub const BENCHMARK_DURATION: &'static str = "benchmark_duration";

/// One bucket of a histogram: how many observations were below a bound.
#[derive(Clone, Debug, PartialEq, Eq)]
pub struct HistogramCount {
    /// The upper bound of the bucket, as text.
    pub less_than: BucketId,
    /// The number of observations, as a whole number.
    pub count: u64,
}

/// The value of a sample, with every number taken as a whole number.
#[derive(Clone, Debug, PartialEq, Eq)]
pub enum SampleValue {
    Counter(u64),
    Gauge(u64),
    Histogram(Vec<HistogramCount>),
    Summary,
    Untyped(u64),
}

/// One sample of a report.
#[derive(Clone, Debug, PartialEq, Eq)]
pub struct Sample {
    pub metric: String,
    pub value: SampleValue,
}

/// The kind of value that a metric is read as.
#[derive(Clone, Copy, Debug, PartialEq, Eq, Structural)]
pub enum ValueKind {
    Counter,
    Histogram,
    Untyped,
}

/// Why a report gave no measurement.
#[derive(Clone, Debug, PartialEq, Eq)]
pub enum ScrapeError {
    /// The report could not be read.
    Unreadable,
    /// The named metric holds a value of another kind than it is read as.
    UnexpectedValue(String),
}

impl ScrapeError {
    /// Whether the error says that this metric holds a value of an
    /// unexpected kind.
    pub open spec fn names(&self, metric: Seq<char>) -> bool {
        self matches ScrapeError::UnexpectedValue(name) && name@ == metric
    }
}

/// The first sample of the metric, if the report has one.
pub open spec fn first_sample(samples: Seq<Sample>, metric: Seq<char>) -> Option<Sample>
    decreases samples.len(),
{
    if samples.len() == 0 {
        None
    } else if samples.first().metric@ == metric {
        Some(samples.first())
    } else {
        first_sample(samples.drop_first(), metric)
    }
}

/// Whether the value is of the kind.
pub open spec fn has_kind(value: SampleValue, kind: ValueKind) -> bool {
    match kind {
        ValueKind::Counter => value is Counter,
        ValueKind::Histogram => value is Histogram,
        ValueKind::Untyped => value is Untyped,
    }
}

/// Whether the report holds the metric with a value of another kind.
pub open spec fn is_unexpected(samples: Seq<Sample>, metric: Seq<char>, kind: ValueKind) -> bool {
    first_sample(samples, metric) matches Some(sample) && !has_kind(sample.value, kind)
}

/// The number that the report gives for the metric, and zero where it gives
/// none.
pub open spec fn reported_number(samples: Seq<Sample>, metric: Seq<char>) -> u64 {
    match first_sample(samples, metric) {
        Some(sample) => match sample.value {
            SampleValue::Counter(number) => number,
            SampleValue::Gauge(number) => number,
            SampleValue::Untyped(number) => number,
            _ => 0,
        },
        None => 0,
    }
}

/// The histogram that the report gives for the metric, and an empty one
/// where it gives none.
pub open spec fn reported_histogram(samples: Seq<Sample>, metric: Seq<char>) -> Seq<
    HistogramCount,
> {
    match first_sample(samples, metric) {
        Some(sample) => match sample.value {
            SampleValue::Histogram(counts) => counts@,
            _ => Seq::empty(),
        },
        None => Seq::empty(),
    }
}

/// A number as a machine word: itself where it fits, the largest word where
/// it does not.
pub open spec fn as_word(number: u64) -> usize {
    if number > usize::MAX {
        usize::MAX
    } else {
        number as usize
    }
}

/// The place of the bucket with this id, if there is one.
pub open spec fn bucket_index(buckets: Seq<(BucketId, usize)>, id: Seq<char>) -> Option<int>
    decreases buckets.len(),
{
    if buckets.len() == 0 {
        None
    } else if buckets.last().0@ == id {
        Some(buckets.len() - 1)
    } else {
        bucket_index(buckets.drop_last(), id)
    }
}

/// The buckets after one more count is put in: in place of the bucket with
/// the same id where there is one, at the end where there is none.
pub open spec fn with_bucket(buckets: Seq<(BucketId, usize)>, entry: (BucketId, usize)) -> Seq<
    (BucketId, usize),
> {
    match bucket_index(buckets, entry.0@) {
        Some(index) => buckets.update(index, entry),
        None => buckets.push(entry),
    }
}

/// The buckets of a histogram: each id once, where it first occurs, with the
/// count that the histogram gives for it last.
pub open spec fn buckets_of(counts: Seq<HistogramCount>) -> Seq<(BucketId, usize)>
    decreases counts.len(),
{
    if counts.len() == 0 {
        Seq::empty()
    } else {
        with_bucket(
            buckets_of(counts.drop_last()),
            (counts.last().less_than, as_word(counts.last().count)),
        )
    }
}

/// Whether no id occurs in two buckets.
pub open spec fn distinct_ids(buckets: Seq<(BucketId, usize)>) -> bool {
    forall|i: int, j: int|
        0 <= i < j < buckets.len() ==> (#[trigger] buckets[i]).0@ != (#[trigger] buckets[j]).0@
}

/// The first of the metrics, in the order in which they are read, that the
/// report holds with a value of another kind than it is read as.
pub open spec fn unexpected_metric(samples: Seq<Sample>) -> Option<Seq<char>> {
    if is_unexpected(samples, LATENCY_BUCKETS@, ValueKind::Histogram) {
        Some(LATENCY_BUCKETS@)
    } else if is_unexpected(samples, LATENCY_SUM@, ValueKind::Untyped) {
        Some(LATENCY_SUM@)
    } else if is_unexpected(samples, LATENCY_COUNT@, ValueKind::Untyped) {
        Some(LATENCY_COUNT@)
    } else if is_unexpected(samples, LATENCY_SQUARED_SUM@, ValueKind::Counter) {
        Some(LATENCY_SQUARED_SUM@)
    } else if is_unexpected(samples, BENCHMARK_DURATION@, ValueKind::Counter) {
        Some(BENCHMARK_DURATION@)
    } else {
        None
    }
}

/// Whether the data point holds what the report says.
pub open spec fn is_measurement_of(point: DataPoint, samples: Seq<Sample>) -> bool {
    &&& duration_nanos(point.timestamp) == reported_number(samples, BENCHMARK_DURATION@)
        * 1_000_000_000
    &&& point.buckets@ == buckets_of(reported_histogram(samples, LATENCY_BUCKETS@))
    &&& duration_nanos(point.sum) == reported_number(samples, LATENCY_SUM@) * 1_000_000_000
    &&& point.count == as_word(reported_number(samples, LATENCY_COUNT@))
    &&& duration_nanos(point.squared_sum) == reported_number(samples, LATENCY_SQUARED_SUM@)
        * 1_000_000_000
}

/// The place of the first sample of the metric.
pub fn find_sample(samples: &Vec<Sample>, metric: &str) -> (found: Option<usize>)
    ensures
        match found {
            Some(index) => index < samples@.len() && first_sample(samples@, metric@) == Some(
                samples@[index as int],
            ),
            None => first_sample(samples@, metric@) is None,
        },
{
    let name: String = metric.to_owned();
    let mut i: usize = 0;
    assert(samples@.skip(0) == samples@);
    while i < samples.len()
        invariant
            i <= samples@.len(),
            name@ == metric@,
            first_sample(samples@, metric@) == first_sample(samples@.skip(i as int), metric@),
        decreases samples@.len() - i,
    {
        assert(samples@.skip(i as int).first() == samples@[i as int]);
        assert(samples@.skip(i as int).drop_first() == samples@.skip(i + 1));
        if samples[i].metric == name {
            return Some(i);
        }
        i += 1;
    }
    None
}

/// A number as a machine word.
pub fn to_word(number: u64) -> (word: usize)
    ensures
        word == as_word(number),
{
    if number > usize::MAX as u64 {
        usize::MAX
    } else {
        number as usize
    }
}

/// Where `bucket_index` finds a bucket, it has the id; where it finds none,
/// no bucket has it.
proof fn lemma_bucket_index(buckets: Seq<(BucketId, usize)>, id: Seq<char>)
    ensures
        match bucket_index(buckets, id) {
            Some(index) => 0 <= index < buckets.len() && buckets[index].0@ == id,
            None => forall|i: int| 0 <= i < buckets.len() ==> (#[trigger] buckets[i]).0@ != id,
        },
    decreases buckets.len(),
{
    if buckets.len() > 0 && buckets.last().0@ != id {
        lemma_bucket_index(buckets.drop_last(), id);
        assert forall|i: int| 0 <= i < buckets.len() - 1 implies buckets[i]
            == buckets.drop_last()[i] by {}
    }
}

/// Putting a count in keeps the ids distinct.
proof fn lemma_with_bucket_distinct(buckets: Seq<(BucketId, usize)>, entry: (BucketId, usize))
    requires
        distinct_ids(buckets),
    ensures
        distinct_ids(with_bucket(buckets, entry)),
{
    lemma_bucket_index(buckets, entry.0@);
}

/// No id occurs twice in the buckets of a histogram.
pub proof fn lemma_buckets_of_distinct(counts: Seq<HistogramCount>)
    ensures
        distinct_ids(buckets_of(counts)),
    decreases counts.len(),
{
    if counts.len() > 0 {
        lemma_buckets_of_distinct(counts.drop_last());
        lemma_with_bucket_distinct(
            buckets_of(counts.drop_last()),
            (counts.last().less_than, as_word(counts.last().count)),
        );
    }
}

/// Puts a count in: in place of the bucket with the same id where there is
/// one, at the end where there is none.
fn put_bucket(buckets: &mut Vec<(BucketId, usize)>, id: BucketId, count: usize)
    ensures
        final(buckets)@ == with_bucket(old(buckets)@, (id, count)),
{
    let mut i: usize = buckets.len();
    assert(buckets@.take(i as int) == buckets@);
    while i > 0
        invariant
            i <= buckets@.len(),
            buckets@ == old(buckets)@,
            bucket_index(buckets@, id@) == bucket_index(buckets@.take(i as int), id@),
        decreases i,
    {
        assert(buckets@.take(i as int).last() == buckets@[i - 1]);
        assert(buckets@.take(i as int).drop_last() == buckets@.take(i - 1));
        i -= 1;
        if buckets[i].0 == id {
            buckets.set(i, (id, count));
            return ;
        }
    }
    buckets.push((id, count));
}

/// The number that the report gives for the metric, read as a value of the
/// kind.
fn read_number(samples: &Vec<Sample>, metric: &str, kind: ValueKind) -> (number: Result<
    u64,
    ScrapeError,
>)
    ensures
        match number {
            Ok(number) => !is_unexpected(samples@, metric@, kind) && number == reported_number(
                samples@,
                metric@,
            ),
            Err(error) => is_unexpected(samples@, metric@, kind) && error.names(metric@),
        },
{
    match find_sample(samples, metric) {
        Some(index) => match (&samples[index].value, kind) {
            (SampleValue::Counter(number), ValueKind::Counter) => Ok(*number),
            (SampleValue::Untyped(number), ValueKind::Untyped) => Ok(*number),
            (SampleValue::Histogram(_), ValueKind::Histogram) => Ok(0),
            _ => Err(ScrapeError::UnexpectedValue(metric.to_owned())),
        },
        None => Ok(0),
    }
}

/// The buckets that the report gives for the metric.
fn read_buckets(samples: &Vec<Sample>, metric: &str) -> (buckets: Result<
    Vec<(BucketId, usize)>,
    ScrapeError,
>)
    ensures
        match buckets {
            Ok(buckets) => !is_unexpected(samples@, metric@, ValueKind::Histogram) && buckets@
                == buckets_of(reported_histogram(samples@, metric@)),
            Err(error) => is_unexpected(samples@, metric@, ValueKind::Histogram) && error.names(
                metric@,
            ),
        },
{
    let mut buckets: Vec<(BucketId, usize)> = Vec::new();
    match find_sample(samples, metric) {
        Some(index) => match &samples[index].value {
            SampleValue::Histogram(counts) => {
                let mut i: usize = 0;
                assert(counts@.take(0) == Seq::<HistogramCount>::empty());
                while i < counts.len()
                    invariant
                        i <= counts@.len(),
                        buckets@ == buckets_of(counts@.take(i as int)),
                    decreases counts@.len() - i,
                {
                    assert(counts@.take(i + 1).drop_last() == counts@.take(i as int));
                    put_bucket(&mut buckets, counts[i].less_than.clone(), to_word(counts[i].count));
                    i += 1;
                }
                assert(counts@.take(i as int) == counts@);
                Ok(buckets)
            },
            _ => Err(ScrapeError::UnexpectedValue(metric.to_owned())),
        },
        None => Ok(buckets),
    }
}

impl DataPoint {
    /// The measurement that a report holds: the benchmark duration, the
    /// latency buckets, and the sum, the number and the squared sum of the
    /// latencies, each zero or empty where the report does not give it. There
    /// is none where the report holds one of these metrics with a value of
    /// another kind; the error names the first such metric.
    pub fn from_samples(samples: &Vec<Sample>) -> (point: Result<DataPoint, ScrapeError>)
        ensures
            match point {
                Ok(point) => unexpected_metric(samples@) is None && is_measurement_of(
                    point,
                    samples@,
                ) && distinct_ids(point.buckets@),
                Err(error) => error is UnexpectedValue && unexpected_metric(samples@) == Some(
                    error->0@,
                ),
            },
    {
        let buckets = match read_buckets(samples, LATENCY_BUCKETS) {
            Ok(buckets) => buckets,
            Err(error) => { return Err(error); },
        };
        let sum = match read_number(samples, LATENCY_SUM, ValueKind::Untyped) {
            Ok(number) => Duration::from_secs(number),
            Err(error) => { return Err(error); },
        };
        let count = match read_number(samples, LATENCY_COUNT, ValueKind::Untyped) {
            Ok(number) => to_word(number),
            Err(error) => { return Err(error); },
        };
        let squared_sum = match read_number(samples, LATENCY_SQUARED_SUM, ValueKind::Counter) {
            Ok(number) => Duration::from_secs(number),
            Err(error) => { return Err(error); },
        };
        let duration = match read_number(samples, BENCHMARK_DURATION, ValueKind::Counter) {
            Ok(number) => Duration::from_secs(number),
            Err(error) => { return Err(error); },
        };
        proof {
            lemma_buckets_of_distinct(reported_histogram(samples@, LATENCY_BUCKETS@));
        }
        Ok(DataPoint::new(duration, buckets, sum, count, squared_sum))
    }
}


/// `prometheus_parse::Value`, of which nothing is known here.
#[verifier::external_type_specification]
#[verifier::external_body]
pub struct ExValue(prometheus_parse::Value);

/// The value of a parsed sample as a `prometheus_parse::Value` gives it, each
/// number cast to a whole number and each bucket bound written out as text.
/// Nothing is claimed of the result by itself: `reported_samples` names what
/// the parser and this conversion give together.
#[verifier::external_body]
fn plain_value(value: prometheus_parse::Value) -> SampleValue {
    match value {
        prometheus_parse::Value::Counter(number) => SampleValue::Counter(number as u64),
        prometheus_parse::Value::Gauge(number) => SampleValue::Gauge(number as u64),
        prometheus_parse::Value::Histogram(counts) => SampleValue::Histogram(
            counts.iter().map(
                |c| HistogramCount { less_than: c.less_than.to_string(), count: c.count as u64 },
            ).collect(),
        ),
        prometheus_parse::Value::Summary(_) => SampleValue::Summary,
        prometheus_parse::Value::Untyped(number) => SampleValue::Untyped(number as u64),
    }
}

/// `std::io::Error`, of which nothing is known here.
#[verifier::external_type_specification]
#[verifier::external_body]
pub struct ExIoError(std::io::Error);

/// The samples that `prometheus_parse::Scrape::parse` finds in a text, each
/// with its value as `plain_value` gives it, without regard to their order.
pub uninterp spec fn reported_samples(text: Seq<char>) -> Multiset<Sample>;

/// `prometheus_parse::Scrape::parse` on the lines of the text. The parser
/// fails only where reading a line failed, and every line handed to it here
/// was read, so it succeeds. The samples that it finds are a function of the
/// text, but their order is not: the parser keeps the histograms in a hash
/// map and hands them out as the map is walked. So the samples are named as a
/// multiset, and nothing is claimed of their order.
#[verifier::external_body]
fn parse_samples(text: &str) -> (samples: Result<Vec<Sample>, std::io::Error>)
    ensures
        samples is Ok,
        samples->Ok_0@.to_multiset() == reported_samples(text@),
{
    let scrape = prometheus_parse::Scrape::parse(text.lines().map(|line| Ok(line.to_string())))?;
    Ok(
        scrape.samples.into_iter().map(
            |s| Sample { metric: s.metric, value: plain_value(s.value) },
        ).collect(),
    )
}

/// The samples of a report in the Prometheus text format: those that the
/// parser finds in the text, in the order in which it hands them out. Every
/// text is read; one that holds no sample gives none.
pub fn read_report(text: &str) -> (samples: Result<Vec<Sample>, ScrapeError>)
    ensures
        samples is Ok,
        samples->Ok_0@.to_multiset() == reported_samples(text@),
{
    match parse_samples(text) {
        Ok(samples) => Ok(samples),
        Err(_) => Err(ScrapeError::Unreadable),
    }
}

} // verus!
