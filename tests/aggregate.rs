use std::sync::Mutex;

use testbench::aggregate::MetricsAggregator;
use testbench::measure::{CompressionResult, JobFailure};

fn result(name: &str, pre: u64) -> CompressionResult {
    CompressionResult::measure(name.to_string(), Some(pre), Some(10), 1, 2).unwrap()
}

fn sorted_names(agg: MetricsAggregator) -> Vec<String> {
    let report = agg.finalize();
    let mut names: Vec<String> = (0..report.len()).map(|i| report.entry(i).image_name().clone()).collect();
    names.sort();
    names
}

#[test]
fn duplicate_names_are_turned_away() {
    let mut agg = MetricsAggregator::new();
    assert!(agg.submit(result("a", 1)));
    assert!(!agg.submit(result("a", 2)));
    assert!(agg.record_failure("b".to_string(), JobFailure::CompressFailed));
    assert!(!agg.submit(result("b", 3)));
    assert!(!agg.record_failure("a".to_string(), JobFailure::DecompressFailed));
    assert!(!agg.record_failure("b".to_string(), JobFailure::DecompressFailed));
    assert!(agg.is_settled(&"a".to_string()));
    assert!(!agg.is_settled(&"c".to_string()));
    assert_eq!(agg.succeeded(), 1);
    assert_eq!(agg.failed(), 1);
    assert_eq!(agg.failures()[0].image_name, "b");
    assert_eq!(agg.failures()[0].failure, JobFailure::CompressFailed);
    let report = agg.finalize();
    assert_eq!(report.len(), 1);
    assert_eq!(report.entry(0).pre_size(), 1);
}

#[test]
fn empty_run_gives_empty_report() {
    let agg = MetricsAggregator::new();
    assert_eq!(agg.succeeded(), 0);
    assert_eq!(agg.finalize().len(), 0);
}

#[test]
fn report_does_not_depend_on_submission_order() {
    let names = ["a", "b", "c", "d", "e"];
    let mut forward = MetricsAggregator::new();
    for n in names.iter() {
        assert!(forward.submit(result(n, 1)));
    }
    let mut backward = MetricsAggregator::new();
    for n in names.iter().rev() {
        assert!(backward.submit(result(n, 1)));
    }
    assert_eq!(sorted_names(forward), sorted_names(backward));
}

#[test]
fn same_results_for_any_pool_size() {
    let names: Vec<String> = (0..50).map(|i| format!("img{i}")).collect();
    let mut outcomes = Vec::new();
    for workers in [1usize, 2, 4, 8] {
        let pool = rayon::ThreadPoolBuilder::new().num_threads(workers).build().unwrap();
        let agg = Mutex::new(MetricsAggregator::new());
        pool.scope(|s| {
            for n in names.iter() {
                let agg = &agg;
                s.spawn(move |_| {
                    assert!(agg.lock().unwrap().submit(result(n, 7)));
                });
            }
        });
        outcomes.push(sorted_names(agg.into_inner().unwrap()));
    }
    for o in outcomes.iter() {
        assert_eq!(o.len(), 50);
        assert_eq!(o, &outcomes[0]);
    }
}

#[test]
fn concurrent_submissions_are_all_kept() {
    let k = 1000;
    let agg = Mutex::new(MetricsAggregator::new());
    let pool = rayon::ThreadPoolBuilder::new().num_threads(16).build().unwrap();
    pool.scope(|s| {
        for i in 0..k {
            let agg = &agg;
            s.spawn(move |_| {
                let r = result(&format!("job{i}"), i as u64);
                assert!(agg.lock().unwrap().submit(r));
            });
        }
    });
    let agg = agg.into_inner().unwrap();
    assert_eq!(agg.succeeded(), k);
    let names = sorted_names(agg);
    let mut expected: Vec<String> = (0..k).map(|i| format!("job{i}")).collect();
    expected.sort();
    assert_eq!(names, expected);
}
