use rover::fanout::Fanout;
use rover::lidar::Frame;
use rover::scanner::{
    fix_range, judge, longest_run, Progress, Reading, ScanOrder, Scanner, Sweep, Verdict, MAX_ATTEMPTS,
    NO_RANGE, RETRY_DELAY_MS,
};

const BACK: u16 = 40;

fn raw_with_back_at(low: &[usize]) -> Vec<u16> {
    let mut raw: Vec<u16> = (0..15u16).map(|i| 1000 + i).collect();
    for index in low {
        raw[*index] = 30;
    }
    raw
}

#[test]
fn alignment_turns_the_back_run_to_the_front() {
    let raw = raw_with_back_at(&[10, 11]);
    assert_eq!(longest_run(&raw, BACK), (10, 2));
    let aligned = fix_range(&raw, BACK).unwrap();
    assert_eq!(
        aligned,
        vec![30, 30, 1012, 1013, 1014, 1000, 1001, 1002, 1003, 1004, 1005, 1006, 1007, 1008, 1009]
    );
    assert_eq!(aligned.len(), raw.len());
    assert_eq!(aligned[0], raw[10]);
}

#[test]
fn alignment_uses_the_middle_of_an_odd_run() {
    let raw = raw_with_back_at(&[4, 5, 6]);
    assert_eq!(longest_run(&raw, BACK), (4, 3));
    let aligned = fix_range(&raw, BACK).unwrap();
    assert_eq!(aligned[0], 30);
    assert_eq!(aligned[1], 30);
    assert_eq!(aligned[2], 1007);
    assert_eq!(aligned[14], 30);
    assert_eq!(aligned[13], 1003);
}

#[test]
fn alignment_fails_without_a_run_of_two() {
    assert_eq!(fix_range(&raw_with_back_at(&[]), BACK), None);
    assert_eq!(fix_range(&raw_with_back_at(&[7]), BACK), None);
    assert_eq!(fix_range(&raw_with_back_at(&[3, 5, 7, 9]), BACK), None);
    assert_eq!(fix_range(&raw_with_back_at(&[0, 14]), BACK), None);
    assert_eq!(fix_range(&[], BACK), None);
    assert_eq!(fix_range(&[10], BACK), None);
}

#[test]
fn alignment_counts_the_threshold_itself_as_back() {
    let mut raw = raw_with_back_at(&[]);
    raw[2] = 40;
    raw[3] = 40;
    raw[8] = 41;
    raw[9] = 41;
    assert_eq!(longest_run(&raw, BACK), (2, 2));
    assert_eq!(fix_range(&raw, BACK).unwrap()[0], 40);
}

#[test]
fn longest_run_prefers_the_longest_then_the_first() {
    assert_eq!(longest_run(&raw_with_back_at(&[]), BACK), (0, 0));
    assert_eq!(longest_run(&raw_with_back_at(&[6]), BACK), (6, 1));
    assert_eq!(longest_run(&raw_with_back_at(&[1, 2, 8, 9]), BACK), (1, 2));
    assert_eq!(longest_run(&raw_with_back_at(&[1, 2, 8, 9, 10]), BACK), (8, 3));
    assert_eq!(longest_run(&raw_with_back_at(&[0, 1, 2, 12, 13, 14]), BACK), (0, 3));
    assert_eq!(longest_run(&[1, 2, 3], BACK), (0, 3));
    assert_eq!(longest_run(&[], BACK), (0, 0));
}

#[test]
fn aligned_frame_of_a_full_run_is_the_frame_itself_turned_by_its_middle() {
    let raw = vec![1u16, 2, 3, 4, 5];
    assert_eq!(fix_range(&raw, BACK).unwrap(), vec![3, 4, 5, 1, 2]);
}

#[test]
fn sector_ranges_skip_the_mount_and_take_the_nearest() {
    let mut buckets = vec![5000u16; 16];
    buckets[0] = 30;
    buckets[1] = 30;
    buckets[2] = 900;
    buckets[5] = 40;
    buckets[6] = 910;
    buckets[9] = 700;
    buckets[10] = 600;
    buckets[13] = 500;
    buckets[14] = 10;
    let sweep = Sweep::new(buckets.clone(), BACK);
    assert_eq!(sweep.buckets(), &buckets);
    assert_eq!(sweep.get_range_left(), 900);
    assert_eq!(sweep.get_range_front(), 700);
    assert_eq!(sweep.get_range_right(), 500);
    let frame = sweep.get_frame();
    assert_eq!(
        (frame.get_range_left(), frame.get_range_front(), frame.get_range_right()),
        (900, 700, 500)
    );
}

#[test]
fn sector_bounds_for_fifteen_buckets() {
    for (index, expect) in [
        (0usize, (NO_RANGE, NO_RANGE, NO_RANGE)),
        (1, (100, NO_RANGE, NO_RANGE)),
        (4, (100, NO_RANGE, NO_RANGE)),
        (5, (NO_RANGE, 100, NO_RANGE)),
        (8, (NO_RANGE, 100, NO_RANGE)),
        (9, (NO_RANGE, NO_RANGE, 100)),
        (12, (NO_RANGE, NO_RANGE, 100)),
        (13, (NO_RANGE, NO_RANGE, NO_RANGE)),
        (14, (NO_RANGE, NO_RANGE, NO_RANGE)),
    ] {
        let mut buckets = vec![0u16; 15];
        buckets[index] = 100;
        let sweep = Sweep::new(buckets, BACK);
        assert_eq!(
            (sweep.get_range_left(), sweep.get_range_front(), sweep.get_range_right()),
            expect
        );
    }
}

#[test]
fn sector_without_valid_sample_has_no_range() {
    assert_eq!(NO_RANGE, u32::MAX);
    let sweep = Sweep::new(vec![BACK; 20], BACK);
    assert_eq!(sweep.get_range_left(), u32::MAX);
    assert_eq!(sweep.get_range_front(), u32::MAX);
    assert_eq!(sweep.get_range_right(), u32::MAX);
    let empty = Sweep::new(Vec::new(), BACK);
    assert_eq!(empty.get_range_front(), u32::MAX);
    let far = Sweep::new(vec![u16::MAX; 8], BACK);
    assert_eq!(far.get_range_front(), 65535);
}

#[test]
fn frame_length_follows_rate_and_step() {
    let scanner = Scanner::new(720, 25, BACK).unwrap();
    assert_eq!(scanner.sweep().buckets().len(), 20);
    assert_eq!(Scanner::new(960, 25, BACK).unwrap().sweep().buckets().len(), 15);
    assert_eq!(Scanner::new(1, 1, BACK).unwrap().sweep().buckets().len(), 360_000);
    assert_eq!(Scanner::new(360_000, 1, BACK).unwrap().sweep().buckets().len(), 1);
    assert_eq!(Scanner::new(7, 1000, BACK).unwrap().sweep().buckets().len(), 51);
}

#[test]
fn scanner_needs_at_least_one_sample_per_revolution() {
    assert!(Scanner::new(0, 25, BACK).is_none());
    assert!(Scanner::new(720, 0, BACK).is_none());
    assert!(Scanner::new(360_001, 1, BACK).is_none());
    assert!(Scanner::new(u32::MAX, u32::MAX, BACK).is_none());
    assert!(Scanner::new(600, 600, BACK).is_some());
    assert!(Scanner::new(601, 600, BACK).is_none());
}

#[test]
fn scanner_drops_samples_while_off() {
    let mut scanner = Scanner::new(960, 25, BACK).unwrap();
    assert!(!scanner.is_running());
    for _ in 0..40 {
        assert!(scanner.push(10).published().is_none());
    }
    assert_eq!(scanner.sweep().buckets(), &vec![0u16; 15]);
}

#[test]
fn scanner_publishes_each_aligned_revolution() {
    let mut scanner = Scanner::new(960, 25, BACK).unwrap();
    assert_eq!(scanner.set_power(true), ScanOrder::Spin(960));
    assert!(scanner.is_running());
    let raw = raw_with_back_at(&[10, 11]);
    for (index, sample) in raw.iter().enumerate() {
        let published = scanner.push(*sample).published();
        if index < 14 {
            assert!(published.is_none());
        } else {
            let sweep = published.unwrap();
            assert_eq!(sweep.buckets(), &fix_range(&raw, BACK).unwrap());
            assert_eq!(sweep.get_range_left(), 1012);
            assert_eq!(sweep.get_range_front(), 1000);
            assert_eq!(sweep.get_range_right(), 1004);
        }
    }
    assert_eq!(scanner.sweep().buckets(), &fix_range(&raw, BACK).unwrap());
    let second = raw_with_back_at(&[0, 1, 2]);
    let mut published = None;
    for sample in second.iter() {
        published = scanner.push(*sample).published();
    }
    assert_eq!(published.unwrap().buckets(), &fix_range(&second, BACK).unwrap());
}

#[test]
fn scanner_keeps_the_last_aligned_frame_when_alignment_fails() {
    let mut scanner = Scanner::new(960, 25, BACK).unwrap();
    scanner.set_power(true);
    let good = raw_with_back_at(&[10, 11]);
    for sample in good.iter() {
        scanner.push(*sample);
    }
    let kept = scanner.sweep().buckets().clone();
    let bad = raw_with_back_at(&[3]);
    for sample in bad.iter() {
        assert!(scanner.push(*sample).published().is_none());
    }
    assert_eq!(scanner.sweep().buckets(), &kept);
}

#[test]
fn scanner_power_off_halts_and_power_on_starts_a_fresh_revolution() {
    let mut scanner = Scanner::new(960, 25, BACK).unwrap();
    scanner.set_power(true);
    for _ in 0..7 {
        scanner.push(500);
    }
    assert_eq!(scanner.set_power(false), ScanOrder::Halt);
    assert!(!scanner.is_running());
    assert!(matches!(scanner.push(20), Progress::Dropped));
    assert_eq!(scanner.set_power(true), ScanOrder::Spin(960));
    let raw = raw_with_back_at(&[0, 1]);
    let mut published = None;
    for sample in raw.iter() {
        assert!(published.is_none());
        published = scanner.push(*sample).published();
    }
    assert_eq!(published.unwrap().buckets(), &raw);
}

#[test]
fn switching_on_twice_does_not_restart_the_revolution() {
    let mut scanner = Scanner::new(960, 25, BACK).unwrap();
    scanner.set_power(true);
    for _ in 0..5 {
        scanner.push(20);
    }
    assert_eq!(scanner.set_power(true), ScanOrder::Spin(960));
    let mut published = None;
    for _ in 0..10 {
        assert!(published.is_none());
        published = scanner.push(900).published();
    }
    let sweep = published.unwrap();
    assert_eq!(sweep.buckets()[0], 20);
    assert_eq!(sweep.buckets()[2], 20);
    assert_eq!(sweep.buckets()[3], 900);
    assert_eq!(sweep.buckets()[13], 20);
}

#[test]
fn a_positive_distance_is_accepted_at_once() {
    assert_eq!(judge(1, Reading::Distance(1)), Verdict::Accept(1));
    assert_eq!(judge(10, Reading::Distance(812)), Verdict::Accept(812));
    assert_eq!(judge(1, Reading::Distance(812)).sample(), Some(812));
}

#[test]
fn invalid_readings_are_retried_up_to_ten_attempts() {
    assert_eq!(RETRY_DELAY_MS, 5);
    assert_eq!(MAX_ATTEMPTS, 10);
    for attempt in 1..10 {
        assert_eq!(judge(attempt, Reading::Distance(0)), Verdict::Retry);
        assert_eq!(judge(attempt, Reading::Failed), Verdict::Retry);
        assert_eq!(judge(attempt, Reading::Failed).sample(), None);
    }
}

#[test]
fn exhaustion_substitutes_zero_and_reports_unless_the_distance_was_zero() {
    assert_eq!(judge(10, Reading::Failed), Verdict::GiveUp { report: true });
    assert_eq!(judge(10, Reading::Distance(0)), Verdict::GiveUp { report: false });
    assert_eq!(judge(11, Reading::Failed), Verdict::GiveUp { report: true });
    assert_eq!(judge(10, Reading::Failed).sample(), Some(0));
    assert_eq!(judge(10, Reading::Distance(0)).sample(), Some(0));
}

#[test]
fn progress_tells_what_became_of_each_sample() {
    let mut scanner = Scanner::new(90_000, 1, BACK).unwrap();
    assert!(matches!(scanner.push(10), Progress::Dropped));
    scanner.set_power(true);
    assert!(matches!(scanner.push(10), Progress::Gathered));
    assert!(matches!(scanner.push(900), Progress::Gathered));
    assert!(matches!(scanner.push(900), Progress::Gathered));
    assert!(matches!(scanner.push(900), Progress::Unaligned));
    assert!(matches!(scanner.push(900), Progress::Gathered));
    assert!(matches!(scanner.push(10), Progress::Gathered));
    assert!(matches!(scanner.push(10), Progress::Gathered));
    match scanner.push(900) {
        Progress::Published(sweep) => assert_eq!(sweep.buckets(), &vec![10, 10, 900, 900]),
        other => panic!("{other:?}"),
    }
}

#[test]
fn feeding_publishes_each_aligned_revolution_to_every_subscriber() {
    let mut scanner = Scanner::new(960, 25, BACK).unwrap();
    let mut subscribers = Fanout::new(2);
    let first = subscribers.subscribe();
    let second = subscribers.subscribe();
    scanner.set_power(true);
    let raw = raw_with_back_at(&[10, 11]);
    for sample in raw.iter() {
        assert_eq!(subscribers.receive(first), None);
        scanner.feed(*sample, &mut subscribers);
    }
    for id in [first, second] {
        assert_eq!(subscribers.receive(id), Some(Frame::new(1012, 1000, 1004)));
        assert_eq!(subscribers.receive(id), None);
    }
    for sample in raw_with_back_at(&[5]).iter() {
        assert!(scanner.feed(*sample, &mut subscribers).published().is_none());
    }
    assert_eq!(subscribers.receive(first), None);
    assert_eq!(subscribers.receive(second), None);
}
