use chrono::{Datelike, NaiveDate};
use grin_health::{day_tags, reorg_window, summarize_window, Error, ReorgScore};

fn day(y: i32, m: u32, d: u32) -> i32 {
    NaiveDate::from_ymd_opt(y, m, d).unwrap().num_days_from_ce()
}

fn lines(v: &[&str]) -> Vec<String> {
    v.iter().map(|s| s.to_string()).collect()
}

#[test]
fn window_keeps_today_and_yesterday() {
    let log = lines(&[
        "20240308 10:00:00.000 WARN grin_chain - REORG: depth: 20\n",
        "20240309 10:00:00.000 WARN grin_chain - REORG: depth: 7\n",
        "20240309 11:00:00.000 INFO grin_chain - block accepted\n",
        "20240310 09:00:00.000 WARN grin_chain - REORG: depth: 3\n",
    ]);
    let w = reorg_window(&log, day(2024, 3, 10)).unwrap();
    assert_eq!(w.count, 2);
    assert_eq!(w.deepest, 7);
    assert!(w.undated.is_empty());
}

#[test]
fn window_spans_month_and_leap_day() {
    let log = lines(&[
        "20240228 23:00:00.000 WARN REORG depth: 40\n",
        "20240229 23:59:59.000 WARN REORG depth: 12\n",
        "20240301 00:00:01.000 WARN REORG depth: 2\n",
    ]);
    let w = reorg_window(&log, day(2024, 3, 1)).unwrap();
    assert_eq!(w.count, 2);
    assert_eq!(w.deepest, 12);
}

#[test]
fn window_excludes_later_days() {
    let log = lines(&[
        "20240311 10:00:00.000 WARN REORG depth: 9\n",
        "20240310 10:00:00.000 WARN REORG depth: 1\n",
    ]);
    let w = reorg_window(&log, day(2024, 3, 10)).unwrap();
    assert_eq!(w.count, 1);
    assert_eq!(w.deepest, 1);
}

#[test]
fn window_without_reorgs() {
    let log = lines(&[
        "20240310 10:00:00.000 INFO grin_servers - syncing\n",
        "20240309 10:00:00.000 INFO grin_servers - peer connected\n",
    ]);
    let w = reorg_window(&log, day(2024, 3, 10)).unwrap();
    assert_eq!(w.count, 0);
    assert_eq!(w.deepest, 0);
    let empty: Vec<String> = Vec::new();
    let w = reorg_window(&empty, day(2024, 3, 10)).unwrap();
    assert_eq!(w.count, 0);
    assert_eq!(w.deepest, 0);
}

#[test]
fn window_malformed_depth_is_a_fault() {
    let log = lines(&[
        "20240310 09:00:00.000 WARN REORG depth: 3\n",
        "20240310 09:30:00.000 WARN REORG depth: three\n",
        "20240310 09:40:00.000 WARN REORG depth: x\n",
    ]);
    assert_eq!(
        reorg_window(&log, day(2024, 3, 10)),
        Err(Error::LogParseFault { line: 1 })
    );
}

#[test]
fn window_missing_depth_label_is_a_fault() {
    let log = lines(&["20240309 09:00:00.000 WARN REORG happened\n"]);
    assert_eq!(
        reorg_window(&log, day(2024, 3, 10)),
        Err(Error::LogParseFault { line: 0 })
    );
}

#[test]
fn window_depth_beyond_a_byte_is_a_fault() {
    let log = lines(&["20240310 09:00:00.000 WARN REORG depth: 256\n"]);
    assert_eq!(
        reorg_window(&log, day(2024, 3, 10)),
        Err(Error::LogParseFault { line: 0 })
    );
}

#[test]
fn window_malformed_depth_outside_window_is_ignored() {
    let log = lines(&[
        "20240301 09:00:00.000 WARN REORG depth: ??\n",
        "20240310 09:00:00.000 WARN REORG depth: 4\n",
    ]);
    let w = reorg_window(&log, day(2024, 3, 10)).unwrap();
    assert_eq!(w.count, 1);
    assert_eq!(w.deepest, 4);
}

#[test]
fn window_last_character_is_dropped() {
    let log = lines(&["20240310 09:00:00.000 WARN REORG depth: 42"]);
    let w = reorg_window(&log, day(2024, 3, 10)).unwrap();
    assert_eq!(w.deepest, 4);
    let log = lines(&["20240310 09:00:00.000 WARN REORG depth: +8\n"]);
    let w = reorg_window(&log, day(2024, 3, 10)).unwrap();
    assert_eq!(w.deepest, 8);
}

#[test]
fn window_records_undated_lines() {
    let log = lines(&[
        "short",
        "20240310 09:00:00.000 WARN REORG depth: 6\n",
        "garbage! REORG depth: 99\n",
        "20241399 WARN REORG depth: 99\n",
    ]);
    let w = reorg_window(&log, day(2024, 3, 10)).unwrap();
    assert_eq!(w.count, 1);
    assert_eq!(w.deepest, 6);
    assert_eq!(w.undated, vec![0, 2, 3]);
}

#[test]
fn reorg_score_record_update() {
    let mut r = ReorgScore::new(1_700_000_000).unwrap();
    assert_eq!(r.overall_score, 0);
    assert_eq!(r.count, 0);
    assert_eq!(r.deepest, 0);
    assert_eq!(r.last_checked, 1_700_000_000);
    let log = lines(&[
        "20240309 10:00:00.000 WARN REORG depth: 7\n",
        "x",
        "20240310 09:00:00.000 WARN REORG depth: 3\n",
    ]);
    let undated = r.update(&log, day(2024, 3, 10), 1_700_000_100).unwrap();
    assert_eq!(undated, vec![1]);
    assert_eq!(r.count, 2);
    assert_eq!(r.deepest, 7);
    assert_eq!(r.overall_score, 3);
    assert_eq!(r.last_checked, 1_700_000_100);
}

#[test]
fn reorg_score_record_kept_on_fault() {
    let mut r = ReorgScore::new(10).unwrap();
    let good = lines(&["20240310 09:00:00.000 WARN REORG depth: 61\n"]);
    r.update(&good, day(2024, 3, 10), 20).unwrap();
    assert_eq!(r.overall_score, 0);
    let before = r;
    let bad = lines(&["20240310 09:00:00.000 WARN REORG depth: -1\n"]);
    assert_eq!(
        r.update(&bad, day(2024, 3, 10), 30),
        Err(Error::LogParseFault { line: 0 })
    );
    assert_eq!(r, before);
}

#[test]
fn day_tags_read_calendar_days() {
    let log = lines(&[
        "20240310 09:00:00.000 INFO start\n",
        "short",
        "2024031x INFO\n",
        "20231231",
        "20240229 leap\n",
        "20230229 not a leap year\n",
    ]);
    assert_eq!(
        day_tags(&log),
        vec![
            Some(day(2024, 3, 10)),
            None,
            None,
            Some(day(2023, 12, 31)),
            Some(day(2024, 2, 29)),
            None,
        ]
    );
    assert_eq!(day(2024, 3, 10) - day(2024, 3, 9), 1);
}

#[test]
fn summary_over_given_tags() {
    let log = lines(&[
        "a REORG depth: 9\n",
        "b REORG depth: 4\n",
        "c no event\n",
        "d REORG depth: 11\n",
        "e REORG depth: 50\n",
    ]);
    let days = vec![Some(99), Some(100), Some(100), None, Some(98)];
    let w = summarize_window(&log, &days, 100).unwrap();
    assert_eq!(w.count, 2);
    assert_eq!(w.deepest, 9);
    assert_eq!(w.undated, vec![3]);
}

#[test]
fn summary_fault_reports_first_bad_line() {
    let log = lines(&[
        "REORG depth: 1\n",
        "REORG depth: \n",
        "REORG depth: z\n",
    ]);
    let days = vec![Some(7), Some(7), Some(7)];
    assert_eq!(
        summarize_window(&log, &days, 7),
        Err(Error::LogParseFault { line: 1 })
    );
    let days = vec![Some(7), Some(5), Some(6)];
    assert_eq!(
        summarize_window(&log, &days, 7),
        Err(Error::LogParseFault { line: 2 })
    );
}

#[test]
fn summary_day_number_extremes() {
    let log = lines(&["REORG depth: 5\n", "REORG depth: 6\n"]);
    let days = vec![Some(i32::MIN), Some(i32::MAX)];
    let w = summarize_window(&log, &days, i32::MIN).unwrap();
    assert_eq!(w.count, 1);
    assert_eq!(w.deepest, 5);
    let w = summarize_window(&log, &days, i32::MAX).unwrap();
    assert_eq!(w.count, 1);
    assert_eq!(w.deepest, 6);
}
