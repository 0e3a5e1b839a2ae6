use testbench::aggregate::{MetricsAggregator, Report};
use testbench::chart::Segment;
use testbench::measure::{CompressionResult, Ratio};

fn report(entries: &[(&str, u64, u64)]) -> Report {
    let mut agg = MetricsAggregator::new();
    for &(name, pre, post) in entries {
        let r = CompressionResult::measure(name.to_string(), Some(pre), Some(post), 0, 0).unwrap();
        assert!(agg.submit(r));
    }
    agg.finalize()
}

#[test]
fn labels_follow_report_order() {
    let r = report(&[("cat", 10, 5), ("dog", 8, 4), ("fox", 6, 6)]);
    assert_eq!(r.label(0), "cat");
    assert_eq!(r.label(1), "dog");
    assert_eq!(r.label(2), "fox");
    assert_eq!(r.label(3), "");
    assert_eq!(r.label(usize::MAX), "");
    assert_eq!(r.segment_label(Segment::Exact(1)), "dog");
    assert_eq!(r.segment_label(Segment::CenterOf(2)), "fox");
    assert_eq!(r.segment_label(Segment::Last), "cat");
    assert_eq!(r.segment_label(Segment::Exact(3)), "");
}

#[test]
fn degenerate_reports_keep_a_span() {
    let empty = report(&[]);
    assert_eq!(empty.category_axis_end(), 1);
    assert_eq!(empty.size_axis_max(), 1);
    assert_eq!(empty.ratio_axis_max(), Ratio { numerator: 1, denominator: 1 });
    assert_eq!(empty.label(0), "");
    assert_eq!(empty.segment_label(Segment::Last), "");

    let one = report(&[("cat", 1000, 1000)]);
    assert_eq!(one.category_axis_end(), 1);
    assert_eq!(one.size_axis_max(), 1000);
    assert_eq!(one.ratio_axis_max(), Ratio { numerator: 1000, denominator: 1000 });

    let zero = report(&[("blank", 0, 3)]);
    assert_eq!(zero.size_axis_max(), 3);
    assert_eq!(zero.ratio_axis_max(), Ratio { numerator: 1, denominator: 1 });
}

#[test]
fn axis_tops_cover_every_entry() {
    let r = report(&[("a", 100, 40), ("b", 30, 300), ("c", 90, 10), ("d", 0, 5)]);
    assert_eq!(r.category_axis_end(), 3);
    assert_eq!(r.size_axis_max(), 300);
    assert_eq!(r.ratio_axis_max(), Ratio { numerator: 90, denominator: 10 });
}
