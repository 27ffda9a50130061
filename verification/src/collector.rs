//! The measurements of a benchmark run, kept per scraper.

use crate::metrics::DataPoint;
use crate::scrape::{
    is_measurement_of, read_report, reported_samples, unexpected_metric, Sample, ScrapeError,
};
use std::collections::HashMap;
use std::hash::Hash;
use vstd::prelude::*;
use vstd::std_specs::hash::{obeys_key_model, spec_hash_map_iter};
use vstd::std_specs::iter::IteratorSpec;

verus! {

broadcast use vstd::std_specs::hash::group_hash_axioms;

/// The parameters of a benchmark run.
#[derive(Clone, Copy, Debug)]
pub struct BenchmarkParameters {
    /// The committee size.
    pub nodes: usize,
    /// The number of faulty nodes.
    pub faults: usize,
    /// The total load in transactions per second.
    pub load: usize,
}

impl Default for BenchmarkParameters {
    fn default() -> (parameters: Self)
        ensures
            parameters.nodes == 4,
            parameters.faults == 0,
            parameters.load == 500,
    {
        Self { nodes: 4, faults: 0, load: 500 }
    }
}

/// The data points of each scraper, in the order in which they were collected.
pub struct MetricsCollector<ScraperId> {
    pub parameters: BenchmarkParameters,
    pub scrapers: HashMap<ScraperId, Vec<DataPoint>>,
}

/// The data points collected so far from a scraper.
pub open spec fn collected<ScraperId>(
    scrapers: Map<ScraperId, Vec<DataPoint>>,
    scraper_id: ScraperId,
) -> Seq<DataPoint> {
    if scrapers.contains_key(scraper_id) {
        scrapers[scraper_id]@
    } else {
        Seq::empty()
    }
}

/// Whether `after` is `before` with one more data point for the scraper, and
/// nothing else changed.
pub open spec fn is_extended_by<ScraperId>(
    after: Map<ScraperId, Vec<DataPoint>>,
    before: Map<ScraperId, Vec<DataPoint>>,
    scraper_id: ScraperId,
    point: DataPoint,
) -> bool {
    &&& after.dom() == before.dom().insert(scraper_id)
    &&& collected(after, scraper_id) == collected(before, scraper_id).push(point)
    &&& forall|other: ScraperId|
        other != scraper_id && #[trigger] before.contains_key(other) ==> after[other]
            == before[other]
}

/// Whether collecting a report that held these samples, in this order,
/// accounts for the outcome and for what became of the data points: with no
/// metric of an unexpected kind, success and one more data point for the
/// scraper, which holds what the samples say; and else the error that names
/// the first such metric.
pub open spec fn accounts_for<ScraperId>(
    samples: Seq<Sample>,
    outcome: Result<(), ScrapeError>,
    after: Map<ScraperId, Vec<DataPoint>>,
    before: Map<ScraperId, Vec<DataPoint>>,
    scraper_id: ScraperId,
) -> bool {
    match outcome {
        Ok(()) => unexpected_metric(samples) is None && (obeys_key_model::<ScraperId>()
            ==> exists|point: DataPoint|
            #![trigger is_measurement_of(point, samples)]
            is_measurement_of(point, samples) && is_extended_by(after, before, scraper_id, point)),
        Err(error) => error is UnexpectedValue && unexpected_metric(samples) == Some(error->0@),
    }
}

/// Whether `points` holds the latest data point of each scraper that has
/// one, where `ids` names the scraper of each.
pub open spec fn are_latest_of<ScraperId>(
    points: Seq<&DataPoint>,
    ids: Seq<ScraperId>,
    scrapers: Map<ScraperId, Vec<DataPoint>>,
) -> bool {
    &&& ids.no_duplicates()
    &&& forall|id: ScraperId| #[trigger]
        ids.contains(id) <==> scrapers.contains_key(id) && scrapers[id]@.len() > 0
    &&& points.len() == ids.len()
    &&& forall|i: int| 0 <= i < ids.len() ==> *(#[trigger] points[i]) == scrapers[ids[i]]@.last()
}

/// Whether one of the first `n` entries is that of the scraper and holds a
/// data point.
spec fn seen<ScraperId>(
    entries: Seq<(&ScraperId, &Vec<DataPoint>)>,
    n: int,
    id: ScraperId,
) -> bool {
    exists|i: int| 0 <= i < n && *(#[trigger] entries[i]).0 == id && entries[i].1@.len() > 0
}

/// Whether `points` holds the latest data point of each scraper among the
/// first `n` entries that has one, where `ids` names the scraper of each.
spec fn walked<ScraperId>(
    entries: Seq<(&ScraperId, &Vec<DataPoint>)>,
    n: int,
    ids: Seq<ScraperId>,
    points: Seq<&DataPoint>,
    scrapers: Map<ScraperId, Vec<DataPoint>>,
) -> bool {
    &&& ids.no_duplicates()
    &&& forall|id: ScraperId| #[trigger] ids.contains(id) <==> seen(entries, n, id)
    &&& points.len() == ids.len()
    &&& forall|i: int|
        0 <= i < ids.len() ==> scrapers.contains_key(#[trigger] ids[i]) && *points[i]
            == scrapers[ids[i]]@.last()
}

/// Advances an iterator: the first of the items that remain, where one does.
fn next_of<I: Iterator>(iter: &mut I) -> (item: Option<I::Item>)
    ensures
        (*final(iter)).obeys_prophetic_iter_laws() == (*old(iter)).obeys_prophetic_iter_laws(),
        (*final(iter)).obeys_prophetic_iter_laws() ==> if (*old(iter)).remaining().len() > 0 {
            (*final(iter)).remaining() == (*old(iter)).remaining().drop_first() && item == Some(
                (*old(iter)).remaining()[0],
            )
        } else {
            (*final(iter)).remaining() == (*old(iter)).remaining() && item is None
        },
{
    iter.next()
}

impl<ScraperId: Eq + Hash> MetricsCollector<ScraperId> {
    /// Create a collector that holds no data point yet.
    pub fn new(parameters: BenchmarkParameters) -> (collector: Self)
        ensures
            collector.parameters == parameters,
            collector.scrapers@ == Map::<ScraperId, Vec<DataPoint>>::empty(),
    {
        Self { parameters, scrapers: HashMap::new() }
    }

    /// Adds a data point to those of the scraper.
    pub fn add(&mut self, scraper_id: ScraperId, point: DataPoint)
        ensures
            final(self).parameters == old(self).parameters,
            obeys_key_model::<ScraperId>() ==> is_extended_by(
                final(self).scrapers@,
                old(self).scrapers@,
                scraper_id,
                point,
            ),
    {
        let mut points: Vec<DataPoint> = match self.scrapers.remove(&scraper_id) {
            Some(points) => points,
            None => Vec::new(),
        };
        points.push(point);
        self.scrapers.insert(scraper_id, points);
        assert(obeys_key_model::<ScraperId>() ==> self.scrapers@.dom() =~= old(
            self,
        ).scrapers@.dom().insert(scraper_id));
    }

    /// Reads the report of a scraper and adds the measurement that it holds
    /// to the data points of the scraper. The report is read as the samples
    /// that the parser finds in the text, in the order in which it hands them
    /// out. Where they hold a metric with a value of an unexpected kind, the
    /// error names the first such metric and nothing changes.
    pub fn collect(&mut self, scraper_id: ScraperId, text: &str) -> (outcome: Result<
        (),
        ScrapeError,
    >)
        ensures
            final(self).parameters == old(self).parameters,
            outcome is Err ==> final(self).scrapers == old(self).scrapers,
            exists|samples: Seq<Sample>|
                samples.to_multiset() == reported_samples(text@) && #[trigger] accounts_for(
                    samples,
                    outcome,
                    final(self).scrapers@,
                    old(self).scrapers@,
                    scraper_id,
                ),
    {
        let samples = match read_report(text) {
            Ok(samples) => samples,
            Err(error) => { return Err(error); },
        };
        let point = match DataPoint::from_samples(&samples) {
            Ok(point) => point,
            Err(error) => {
                assert(accounts_for(
                    samples@,
                    Err::<(), ScrapeError>(error),
                    self.scrapers@,
                    old(self).scrapers@,
                    scraper_id,
                ));
                return Err(error);
            },
        };
        self.add(scraper_id, point);
        proof {
            if obeys_key_model::<ScraperId>() {
                assert(is_measurement_of(point, samples@) && is_extended_by(
                    self.scrapers@,
                    old(self).scrapers@,
                    scraper_id,
                    point,
                ));
            }
            assert(accounts_for(
                samples@,
                Ok::<(), ScrapeError>(()),
                self.scrapers@,
                old(self).scrapers@,
                scraper_id,
            ));
        }
        Ok(())
    }

    /// The latest data point of each scraper that has one, each once, in no
    /// particular order. The scrapers are walked as the map hands them out,
    /// as many of them as the map holds.
    pub fn last_data_points(&self) -> (points: Vec<&DataPoint>)
        ensures
            obeys_key_model::<ScraperId>() ==> exists|ids: Seq<ScraperId>| #[trigger]
                are_latest_of(points@, ids, self.scrapers@),
    {
        let mut points: Vec<&DataPoint> = Vec::new();
        let ghost mut ids: Seq<ScraperId> = Seq::empty();
        let mut iter = self.scrapers.iter();
        let ghost entries = iter.remaining();
        let ghost mut k: int = 0;
        let mut left: usize = self.scrapers.len();
        assert(entries.skip(0) == entries);
        while left > 0
            invariant
                obeys_key_model::<ScraperId>() ==> {
                    &&& entries == spec_hash_map_iter(&self.scrapers).remaining()
                    &&& entries.no_duplicates()
                    &&& 0 <= k <= entries.len()
                    &&& left == entries.len() - k
                    &&& iter.remaining() == entries.skip(k)
                    &&& walked(entries, k, ids, points@, self.scrapers@)
                },
            ensures
                obeys_key_model::<ScraperId>() ==> {
                    &&& entries == spec_hash_map_iter(&self.scrapers).remaining()
                    &&& k == entries.len()
                    &&& walked(entries, k, ids, points@, self.scrapers@)
                },
            decreases left,
        {
            let entry = match next_of(&mut iter) {
                Some(entry) => entry,
                None => {
                    break ;
                },
            };
            left -= 1;
            let (id, collected) = entry;
            let ghost before = ids;
            assert(obeys_key_model::<ScraperId>() ==> entry == entries[k] && entries.skip(
                k,
            ).drop_first() == entries.skip(k + 1));
            if collected.len() > 0 {
                points.push(&collected[collected.len() - 1]);
                proof {
                    if obeys_key_model::<ScraperId>() && before.contains(*id) {
                        assert(seen(entries, k, *id));
                        let i = choose|i: int|
                            0 <= i < k && *(#[trigger] entries[i]).0 == *id && entries[i].1@.len()
                                > 0;
                        assert(entries[i] == entries[k]);
                    }
                    ids = before.push(*id);
                    assert(ids[before.len() as int] == *id);
                }
            }
            proof {
                if obeys_key_model::<ScraperId>() {
                    assert forall|other: ScraperId| #[trigger]
                        ids.contains(other) <==> seen(entries, k + 1, other) by {
                        if ids.contains(other) {
                            let j = choose|j: int| 0 <= j < ids.len() && ids[j] == other;
                            if j < before.len() {
                                assert(before[j] == other);
                                assert(before.contains(other));
                                assert(seen(entries, k, other));
                                let i = choose|i: int|
                                    0 <= i < k && *(#[trigger] entries[i]).0 == other
                                        && entries[i].1@.len() > 0;
                                assert(seen(entries, k + 1, other));
                            } else {
                                assert(*entries[k].0 == other && entries[k].1@.len() > 0);
                                assert(seen(entries, k + 1, other));
                            }
                        }
                        if seen(entries, k + 1, other) {
                            let i = choose|i: int|
                                0 <= i < k + 1 && *(#[trigger] entries[i]).0 == other
                                    && entries[i].1@.len() > 0;
                            if i < k {
                                assert(seen(entries, k, other));
                                assert(before.contains(other));
                                let j = choose|j: int| 0 <= j < before.len() && before[j] == other;
                                assert(ids[j] == other);
                            } else {
                                assert(ids[before.len() as int] == other);
                            }
                        }
                    }
                }
                k = k + 1;
            }
        }
        assert(obeys_key_model::<ScraperId>() ==> are_latest_of(points@, ids, self.scrapers@));
        points
    }
}

} // verus!
