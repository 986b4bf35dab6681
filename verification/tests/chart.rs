use md_hardware::chart::{ChartPoint, ChartSeries};

fn point(elapsed_secs: u64, usage: u32) -> ChartPoint {
    ChartPoint { elapsed_secs, usage }
}

#[test]
fn new_series_is_empty() {
    let series = ChartSeries::new(100);
    assert_eq!(series.len(), 0);
    assert_eq!(series.cap(), 100);
    assert!(series.points().is_empty());
    assert_eq!(series.last(), None);
}

#[test]
fn samples_are_kept_in_order() {
    let mut series = ChartSeries::new(5);
    assert!(series.push(1, 1000));
    assert!(series.push(2, 2500));
    assert!(series.push(7, 900));
    assert_eq!(
        series.points(),
        &vec![point(1, 1000), point(2, 2500), point(7, 900)]
    );
    assert_eq!(series.last(), Some(point(7, 900)));
    assert_eq!(series.len(), 3);
}

#[test]
fn oldest_sample_goes_first() {
    let mut series = ChartSeries::new(3);
    for second in 1..=5u64 {
        assert!(series.push(second, (second * 10) as u32));
    }
    assert_eq!(
        series.points(),
        &vec![point(3, 30), point(4, 40), point(5, 50)]
    );
    assert_eq!(series.len(), 3);
}

#[test]
fn series_never_exceeds_its_cap() {
    let mut series = ChartSeries::new(100);
    for second in 1..=250u64 {
        assert!(series.push(second, 0));
        assert!(series.len() <= 100);
    }
    assert_eq!(series.len(), 100);
    assert_eq!(series.points()[0], point(151, 0));
    assert_eq!(series.points()[99], point(250, 0));
}

#[test]
fn sample_that_is_not_later_is_turned_away() {
    let mut series = ChartSeries::new(4);
    assert!(series.push(5, 100));
    assert!(!series.push(5, 200));
    assert!(!series.push(4, 300));
    assert!(!series.push(0, 300));
    assert_eq!(series.points(), &vec![point(5, 100)]);
    assert!(series.push(6, 400));
    assert_eq!(series.points(), &vec![point(5, 100), point(6, 400)]);
}

#[test]
fn elapsed_values_increase_strictly() {
    let mut series = ChartSeries::new(10);
    for second in [3u64, 1, 4, 1, 5, 9, 2, 6, 5, 3, 5] {
        series.push(second, 0);
    }
    let points = series.points();
    assert_eq!(
        points,
        &vec![point(3, 0), point(4, 0), point(5, 0), point(9, 0)]
    );
    for pair in points.windows(2) {
        assert!(pair[0].elapsed_secs < pair[1].elapsed_secs);
    }
}

#[test]
fn first_sample_may_be_at_second_zero() {
    let mut series = ChartSeries::new(2);
    assert!(series.push(0, 7));
    assert_eq!(series.points(), &vec![point(0, 7)]);
}

#[test]
fn series_with_cap_of_one_keeps_the_newest() {
    let mut series = ChartSeries::new(1);
    assert!(series.push(1, 11));
    assert!(series.push(2, 22));
    assert_eq!(series.points(), &vec![point(2, 22)]);
    assert!(!series.push(2, 33));
    assert_eq!(series.points(), &vec![point(2, 22)]);
}

#[test]
fn series_with_cap_of_zero_stays_empty() {
    let mut series = ChartSeries::new(0);
    assert!(series.push(1, 11));
    assert_eq!(series.len(), 0);
    assert!(series.push(1, 12));
    assert_eq!(series.len(), 0);
    assert_eq!(series.last(), None);
}

#[test]
fn clear_empties_the_series_and_keeps_the_cap() {
    let mut series = ChartSeries::new(3);
    series.push(1, 1);
    series.push(2, 2);
    series.clear();
    assert_eq!(series.len(), 0);
    assert_eq!(series.cap(), 3);
    assert!(series.push(1, 5));
    assert_eq!(series.points(), &vec![point(1, 5)]);
}
