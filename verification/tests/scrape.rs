use std::collections::HashMap;
use std::time::Duration;

use sui_orchestrator::collector::{BenchmarkParameters, MetricsCollector};
use sui_orchestrator::metrics::DataPoint;
use sui_orchestrator::scrape::{
    find_sample, read_report, to_word, HistogramCount, Sample, SampleValue, ScrapeError,
};

const REPORT: &str = r#"
            # HELP benchmark_duration Duration of the benchmark
            # TYPE benchmark_duration counter
            benchmark_duration 30
            # HELP latency_s Total time in seconds to return a response
            # TYPE latency_s histogram
            latency_s_bucket{workload=transfer_object,le=0.1} 0
            latency_s_bucket{workload=transfer_object,le=0.25} 0
            latency_s_bucket{workload=transfer_object,le=0.5} 506
            latency_s_bucket{workload=transfer_object,le=0.75} 1282
            latency_s_bucket{workload=transfer_object,le=1} 1693
            latency_s_bucket{workload="transfer_object",le="1.25"} 1816
            latency_s_bucket{workload="transfer_object",le="1.5"} 1860
            latency_s_bucket{workload="transfer_object",le="1.75"} 1860
            latency_s_bucket{workload="transfer_object",le="2"} 1860
            latency_s_bucket{workload=transfer_object,le=2.5} 1860
            latency_s_bucket{workload=transfer_object,le=5} 1860
            latency_s_bucket{workload=transfer_object,le=10} 1860
            latency_s_bucket{workload=transfer_object,le=20} 1860
            latency_s_bucket{workload=transfer_object,le=30} 1860
            latency_s_bucket{workload=transfer_object,le=60} 1860
            latency_s_bucket{workload=transfer_object,le=90} 1860
            latency_s_bucket{workload=transfer_object,le=+Inf} 1860
            latency_s_sum{workload=transfer_object} 1265.287933130998
            latency_s_count{workload=transfer_object} 1860
            # HELP latency_squared_s Square of total time in seconds to return a response
            # TYPE latency_squared_s counter
            latency_squared_s{workload="transfer_object"} 952.8160642745289
        "#;

#[test]
fn collect() {
    let mut aggregator = MetricsCollector::new(BenchmarkParameters::default());
    let scraper_id = 1u8;
    aggregator.collect(scraper_id, REPORT).unwrap();

    assert_eq!(aggregator.scrapers.len(), 1);
    let data_points = aggregator.scrapers.get(&scraper_id).unwrap();
    assert_eq!(data_points.len(), 1);

    let data = &data_points[0];
    let buckets: HashMap<String, usize> = data.buckets.iter().cloned().collect();
    assert_eq!(data.buckets.len(), buckets.len());
    assert_eq!(
        buckets,
        ([
            ("0.1".into(), 0),
            ("0.25".into(), 0),
            ("0.5".into(), 506),
            ("0.75".into(), 1282),
            ("1".into(), 1693),
            ("1.25".into(), 1816),
            ("1.5".into(), 1860),
            ("1.75".into(), 1860),
            ("2".into(), 1860),
            ("2.5".into(), 1860),
            ("5".into(), 1860),
            ("10".into(), 1860),
            ("20".into(), 1860),
            ("30".into(), 1860),
            ("60".into(), 1860),
            ("90".into(), 1860),
            ("inf".into(), 1860)
        ])
        .iter()
        .cloned()
        .collect()
    );
    assert_eq!(data.sum, Duration::from_secs(1265));
    assert_eq!(data.count, 1860);
    assert_eq!(data.timestamp, Duration::from_secs(30));
    assert_eq!(data.squared_sum, Duration::from_secs(952));

    assert_eq!(data.tps(), 62);
    assert_eq!(data.average_latency(), Duration::from_millis(680));
}

#[test]
fn collect_appends_to_the_data_points_of_the_scraper() {
    let mut aggregator = MetricsCollector::new(BenchmarkParameters::default());
    let kind = "# TYPE benchmark_duration counter\n";
    aggregator
        .collect(7u64, &format!("{kind}benchmark_duration 1"))
        .unwrap();
    aggregator
        .collect(9u64, &format!("{kind}benchmark_duration 2"))
        .unwrap();
    aggregator
        .collect(7u64, &format!("{kind}benchmark_duration 3"))
        .unwrap();

    assert_eq!(aggregator.scrapers.len(), 2);
    let first = aggregator.scrapers.get(&7).unwrap();
    assert_eq!(first.len(), 2);
    assert_eq!(first[0].timestamp, Duration::from_secs(1));
    assert_eq!(first[1].timestamp, Duration::from_secs(3));
    let second = aggregator.scrapers.get(&9).unwrap();
    assert_eq!(second.len(), 1);
    assert_eq!(second[0].timestamp, Duration::from_secs(2));
}

#[test]
fn collect_keeps_the_parameters() {
    let parameters = BenchmarkParameters {
        nodes: 10,
        faults: 3,
        load: 200,
    };
    let mut aggregator = MetricsCollector::new(parameters);
    aggregator.collect(1u8, REPORT).unwrap();
    assert_eq!(aggregator.parameters.nodes, 10);
    assert_eq!(aggregator.parameters.faults, 3);
    assert_eq!(aggregator.parameters.load, 200);
}

#[test]
fn collect_refuses_a_metric_of_an_unexpected_kind() {
    let report = "# TYPE latency_s_sum counter\nlatency_s_sum 12\n";
    let mut aggregator = MetricsCollector::new(BenchmarkParameters::default());
    assert_eq!(
        aggregator.collect(1u8, report),
        Err(ScrapeError::UnexpectedValue("latency_s_sum".to_string()))
    );
    assert!(aggregator.scrapers.is_empty());
}

#[test]
fn report_is_read_into_samples() {
    let report = "# TYPE benchmark_duration counter\nbenchmark_duration 30\nlatency_s_count 1860.9\n";
    let samples = read_report(report).unwrap();
    assert_eq!(
        samples,
        vec![
            Sample {
                metric: "benchmark_duration".to_string(),
                value: SampleValue::Counter(30),
            },
            Sample {
                metric: "latency_s_count".to_string(),
                value: SampleValue::Untyped(1860),
            },
        ]
    );
}

#[test]
fn histogram_is_read_with_its_bounds_as_text() {
    let report = "# TYPE h histogram\nh_bucket{le=\"0.5\"} 3\nh_bucket{le=\"+Inf\"} 4\n";
    let samples = read_report(report).unwrap();
    assert_eq!(
        samples,
        vec![Sample {
            metric: "h".to_string(),
            value: SampleValue::Histogram(vec![
                HistogramCount {
                    less_than: "0.5".to_string(),
                    count: 3,
                },
                HistogramCount {
                    less_than: "inf".to_string(),
                    count: 4,
                },
            ]),
        }]
    );
}

fn number(metric: &str, value: SampleValue) -> Sample {
    Sample {
        metric: metric.to_string(),
        value,
    }
}

#[test]
fn find_sample_gives_the_first_of_the_metric() {
    let samples = vec![
        number("a", SampleValue::Counter(1)),
        number("b", SampleValue::Counter(2)),
        number("a", SampleValue::Counter(3)),
    ];
    assert_eq!(find_sample(&samples, "a"), Some(0));
    assert_eq!(find_sample(&samples, "b"), Some(1));
    assert_eq!(find_sample(&samples, "c"), None);
    assert_eq!(find_sample(&Vec::new(), "a"), None);
}

#[test]
fn to_word_keeps_what_fits() {
    assert_eq!(to_word(0), 0);
    assert_eq!(to_word(1860), 1860);
    if usize::BITS == 64 {
        assert_eq!(to_word(u64::MAX), usize::MAX);
    }
}

#[test]
fn from_samples_reads_each_metric() {
    let samples = vec![
        number("latency_s_count", SampleValue::Untyped(1860)),
        number("benchmark_duration", SampleValue::Counter(30)),
        number("latency_squared_s", SampleValue::Counter(952)),
        number("latency_s_sum", SampleValue::Untyped(1265)),
        number(
            "latency_s",
            SampleValue::Histogram(vec![
                HistogramCount {
                    less_than: "0.5".to_string(),
                    count: 506,
                },
                HistogramCount {
                    less_than: "inf".to_string(),
                    count: 1860,
                },
            ]),
        ),
        number("benchmark_duration", SampleValue::Counter(99)),
    ];
    let data = DataPoint::from_samples(&samples).unwrap();
    assert_eq!(data.timestamp, Duration::from_secs(30));
    assert_eq!(
        data.buckets,
        vec![("0.5".to_string(), 506), ("inf".to_string(), 1860)]
    );
    assert_eq!(data.sum, Duration::from_secs(1265));
    assert_eq!(data.count, 1860);
    assert_eq!(data.squared_sum, Duration::from_secs(952));
}

#[test]
fn from_samples_of_an_empty_report_is_empty() {
    let data = DataPoint::from_samples(&Vec::new()).unwrap();
    assert_eq!(data.timestamp, Duration::from_secs(0));
    assert!(data.buckets.is_empty());
    assert_eq!(data.sum, Duration::from_secs(0));
    assert_eq!(data.count, 0);
    assert_eq!(data.squared_sum, Duration::from_secs(0));
}

#[test]
fn from_samples_keeps_each_bucket_once_with_its_last_count() {
    let samples = vec![number(
        "latency_s",
        SampleValue::Histogram(vec![
            HistogramCount {
                less_than: "1".to_string(),
                count: 1,
            },
            HistogramCount {
                less_than: "2".to_string(),
                count: 2,
            },
            HistogramCount {
                less_than: "1".to_string(),
                count: 3,
            },
        ]),
    )];
    let data = DataPoint::from_samples(&samples).unwrap();
    assert_eq!(
        data.buckets,
        vec![("1".to_string(), 3), ("2".to_string(), 2)]
    );
}

#[test]
fn from_samples_names_the_first_unexpected_metric() {
    let unexpected_sum = vec![
        number("latency_s_sum", SampleValue::Counter(1)),
        number("benchmark_duration", SampleValue::Untyped(1)),
    ];
    assert_eq!(
        DataPoint::from_samples(&unexpected_sum).unwrap_err(),
        ScrapeError::UnexpectedValue("latency_s_sum".to_string())
    );

    let unexpected_buckets = vec![
        number("latency_s_sum", SampleValue::Counter(1)),
        number("latency_s", SampleValue::Summary),
    ];
    assert_eq!(
        DataPoint::from_samples(&unexpected_buckets).unwrap_err(),
        ScrapeError::UnexpectedValue("latency_s".to_string())
    );

    let unexpected_count = vec![number("latency_s_count", SampleValue::Gauge(1))];
    assert_eq!(
        DataPoint::from_samples(&unexpected_count).unwrap_err(),
        ScrapeError::UnexpectedValue("latency_s_count".to_string())
    );

    let unexpected_squares = vec![number("latency_squared_s", SampleValue::Untyped(1))];
    assert_eq!(
        DataPoint::from_samples(&unexpected_squares).unwrap_err(),
        ScrapeError::UnexpectedValue("latency_squared_s".to_string())
    );

    let unexpected_duration = vec![number("benchmark_duration", SampleValue::Untyped(1))];
    assert_eq!(
        DataPoint::from_samples(&unexpected_duration).unwrap_err(),
        ScrapeError::UnexpectedValue("benchmark_duration".to_string())
    );
}

#[test]
fn from_samples_goes_by_the_first_sample_of_a_metric() {
    let samples = vec![
        number("latency_s_count", SampleValue::Untyped(5)),
        number("latency_s_count", SampleValue::Counter(6)),
    ];
    let data = DataPoint::from_samples(&samples).unwrap();
    assert_eq!(data.count, 5);
}

#[test]
fn last_data_points_holds_the_latest_of_each_scraper() {
    let kind = "# TYPE benchmark_duration counter\n";
    let mut aggregator = MetricsCollector::new(BenchmarkParameters::default());
    assert!(aggregator.last_data_points().is_empty());
    for (scraper, seconds) in [(1u32, 10), (2, 20), (1, 30), (3, 5), (2, 25)] {
        aggregator
            .collect(scraper, &format!("{kind}benchmark_duration {seconds}"))
            .unwrap();
    }
    let mut latest: Vec<Duration> = aggregator
        .last_data_points()
        .iter()
        .map(|point| point.timestamp)
        .collect();
    latest.sort();
    assert_eq!(
        latest,
        vec![
            Duration::from_secs(5),
            Duration::from_secs(25),
            Duration::from_secs(30)
        ]
    );
    assert_eq!(
        DataPoint::aggregate_duration(&aggregator.last_data_points()),
        Duration::from_secs(30)
    );
}

#[test]
fn added_data_points_are_kept_in_order() {
    let mut aggregator: MetricsCollector<usize> = MetricsCollector::new(BenchmarkParameters::default());
    for seconds in [3, 1, 2] {
        aggregator.add(
            0,
            DataPoint::new(
                Duration::from_secs(seconds),
                Vec::new(),
                Duration::from_secs(0),
                0,
                Duration::from_secs(0),
            ),
        );
    }
    let points = aggregator.scrapers.get(&0).unwrap();
    let timestamps: Vec<u64> = points.iter().map(|point| point.timestamp.as_secs()).collect();
    assert_eq!(timestamps, vec![3, 1, 2]);
}

#[test]
fn default_parameters() {
    let parameters = BenchmarkParameters::default();
    assert_eq!(parameters.nodes, 4);
    assert_eq!(parameters.faults, 0);
    assert_eq!(parameters.load, 500);
}

#[test]
fn every_text_is_read() {
    assert_eq!(read_report(""), Ok(Vec::new()));
    assert_eq!(read_report("\n\n  \n"), Ok(Vec::new()));
    assert_eq!(read_report("# only a comment"), Ok(Vec::new()));
    assert_eq!(read_report("no-sample-here {{{ }"), Ok(Vec::new()));
    assert_eq!(read_report("metric not_a_number"), Ok(Vec::new()));
    assert_eq!(
        read_report("a 1\r\nb 2"),
        Ok(vec![
            number("a", SampleValue::Untyped(1)),
            number("b", SampleValue::Untyped(2)),
        ])
    );
}

#[test]
fn report_holds_the_same_samples_whatever_their_order() {
    let report = "# TYPE x histogram\n# TYPE y histogram\n\
        x_bucket{le=\"1\"} 1\ny_bucket{le=\"2\"} 2\nx_bucket{kind=\"k\",le=\"3\"} 3\nplain 4\n";
    let mut expected = vec![
        format!("{:?}", number("plain", SampleValue::Untyped(4))),
        format!(
            "{:?}",
            number(
                "x",
                SampleValue::Histogram(vec![HistogramCount {
                    less_than: "1".to_string(),
                    count: 1,
                }])
            )
        ),
        format!(
            "{:?}",
            number(
                "y",
                SampleValue::Histogram(vec![HistogramCount {
                    less_than: "2".to_string(),
                    count: 2,
                }])
            )
        ),
        format!(
            "{:?}",
            number(
                "x",
                SampleValue::Histogram(vec![HistogramCount {
                    less_than: "3".to_string(),
                    count: 3,
                }])
            )
        ),
    ];
    expected.sort();
    for _ in 0..20 {
        let samples = read_report(report).unwrap();
        assert_eq!(samples[0], number("plain", SampleValue::Untyped(4)));
        let mut found: Vec<String> = samples.iter().map(|s| format!("{s:?}")).collect();
        found.sort();
        assert_eq!(found, expected);
    }
}

#[test]
fn collect_goes_by_the_samples_in_the_order_read() {
    // Two histograms of one name: whichever comes first gives the buckets.
    let report = "# TYPE latency_s histogram\n\
        latency_s_bucket{workload=\"a\",le=\"1\"} 10\nlatency_s_bucket{workload=\"b\",le=\"1\"} 20\n";
    for _ in 0..20 {
        let mut aggregator = MetricsCollector::new(BenchmarkParameters::default());
        assert_eq!(aggregator.collect(0u8, report), Ok(()));
        let buckets = &aggregator.scrapers.get(&0).unwrap()[0].buckets;
        assert!(
            *buckets == vec![("1".to_string(), 10)] || *buckets == vec![("1".to_string(), 20)]
        );
    }
}
