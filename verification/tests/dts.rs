use tokimo_package_ffmpeg::transcode::dts::{DtsEstimator, PacketTimestamps};
use tokimo_package_ffmpeg::transcode::types::{MediaKind, Rational, NOPTS_VALUE};

fn video_estimator(video_delay: i32) -> DtsEstimator {
    // 25 fps in a 1/1000 time base: 40 units per frame.
    DtsEstimator::new(
        MediaKind::Video,
        Rational { num: 1, den: 1000 },
        Rational { num: 25, den: 1 },
        Rational { num: 0, den: 1 },
        video_delay,
        0,
        0,
    )
}

fn pkt(pts: i64, dts: i64, duration: i64) -> PacketTimestamps {
    PacketTimestamps { pts, dts, duration }
}

#[test]
fn frame_duration_from_frame_rate_and_sample_rate() {
    assert_eq!(video_estimator(0).frame_dur(), 40);
    let audio = DtsEstimator::new(
        MediaKind::Audio,
        Rational { num: 1, den: 48_000 },
        Rational { num: 0, den: 1 },
        Rational { num: 0, den: 1 },
        0,
        48_000,
        1024,
    );
    assert_eq!(audio.frame_dur(), 1024);
    let subtitle = DtsEstimator::new(
        MediaKind::Subtitle,
        Rational { num: 1, den: 1000 },
        Rational { num: 25, den: 1 },
        Rational { num: 25, den: 1 },
        0,
        0,
        0,
    );
    assert_eq!(subtitle.frame_dur(), 0);
}

#[test]
fn codec_frame_rate_preferred_over_average() {
    let e = DtsEstimator::new(
        MediaKind::Video,
        Rational { num: 1, den: 90_000 },
        Rational { num: 0, den: 1 },
        Rational { num: 30, den: 1 },
        0,
        0,
        0,
    );
    assert_eq!(e.framerate, Rational { num: 30, den: 1 });
    assert_eq!(e.frame_dur(), 3000);
    assert_eq!(e.next_dts, NOPTS_VALUE);
    assert!(!e.saw_first);
}

#[test]
fn rescale_rounds_toward_zero() {
    let r = |num, den| Rational { num, den };
    assert_eq!(DtsEstimator::rescale(1, r(1, 3), r(1, 1000)), 333);
    assert_eq!(DtsEstimator::rescale(-1, r(1, 3), r(1, 1000)), -333);
    assert_eq!(DtsEstimator::rescale(7, r(1, 2), r(-1, 1)), -3);
    assert_eq!(DtsEstimator::rescale(5, r(1, 0), r(1, 1000)), 0);
    assert_eq!(DtsEstimator::rescale(5, r(1, 1), r(0, 1)), 0);
}

#[test]
fn missing_dts_is_estimated_from_first_pts_with_b_frame_delay() {
    let mut e = video_estimator(2);
    let mut p = pkt(1000, NOPTS_VALUE, 0);
    assert!(e.can_fix_timestamps(&p));
    e.fix_timestamps(&mut p);
    // Starts two frames before the first PTS.
    assert_eq!(p.dts, 920);
    assert_eq!(p.pts, 1000);
    assert_eq!(e.next_dts, 960);

    let mut q = pkt(NOPTS_VALUE, NOPTS_VALUE, 0);
    e.fix_timestamps(&mut q);
    assert_eq!(q.dts, 960);
    assert_eq!(q.pts, 960);
    assert_eq!(e.next_dts, 1000);
}

#[test]
fn container_dts_is_followed_but_never_goes_backwards() {
    let mut e = video_estimator(0);
    let mut p = pkt(100, 100, 40);
    e.fix_timestamps(&mut p);
    assert_eq!((p.pts, p.dts), (100, 100));
    assert_eq!(e.next_dts, 140);

    // Goes backwards: raised to the prediction, PTS raised to DTS.
    let mut q = pkt(120, 110, 40);
    e.fix_timestamps(&mut q);
    assert_eq!((q.pts, q.dts), (140, 140));
    assert_eq!(e.next_dts, 180);

    // Jumps forward: followed.
    let mut r = pkt(500, 400, 40);
    e.fix_timestamps(&mut r);
    assert_eq!((r.pts, r.dts), (500, 400));
    assert_eq!(e.next_dts, 440);
}

#[test]
fn packet_duration_advances_when_frame_rate_unknown() {
    let mut e = DtsEstimator::new(
        MediaKind::Video,
        Rational { num: 1, den: 1000 },
        Rational { num: 0, den: 1 },
        Rational { num: 0, den: 1 },
        3,
        0,
        0,
    );
    let mut p = pkt(50, NOPTS_VALUE, 33);
    e.fix_timestamps(&mut p);
    // No frame duration: no delay offset, advance by packet duration.
    assert_eq!(p.dts, 50);
    assert_eq!(e.next_dts, 83);
    let mut q = pkt(NOPTS_VALUE, NOPTS_VALUE, 0);
    e.fix_timestamps(&mut q);
    assert_eq!((q.pts, q.dts), (83, 83));
    assert_eq!(e.next_dts, 83);
}

#[test]
fn first_packet_without_timestamps_starts_at_zero() {
    let mut e = video_estimator(1);
    let mut p = pkt(NOPTS_VALUE, NOPTS_VALUE, 0);
    e.fix_timestamps(&mut p);
    assert_eq!((p.pts, p.dts), (0, 0));
    assert_eq!(e.next_dts, 40);
}

#[test]
fn dts_sequence_is_monotonic_and_complete() {
    let mut e = video_estimator(2);
    let input = [
        pkt(3000, NOPTS_VALUE, 0),
        pkt(2920, 2900, 40),
        pkt(NOPTS_VALUE, 2000, 0),
        pkt(2000, NOPTS_VALUE, 40),
        pkt(5000, 4000, 40),
        pkt(4050, 4040, 40),
    ];
    let mut last = i64::MIN;
    for p in input {
        let mut p = p;
        assert!(e.can_fix_timestamps(&p));
        e.fix_timestamps(&mut p);
        assert_ne!(p.dts, NOPTS_VALUE);
        assert_ne!(p.pts, NOPTS_VALUE);
        assert!(p.pts >= p.dts);
        assert!(p.dts >= last);
        last = p.dts;
    }
}

#[test]
fn overflowing_packets_are_reported() {
    let mut e = video_estimator(0);
    let p = pkt(i64::MAX, i64::MAX, 0);
    assert!(!e.can_fix_timestamps(&p));
    let mut ok = pkt(0, 0, 0);
    e.fix_timestamps(&mut ok);
    assert!(e.can_fix_timestamps(&pkt(10, 10, 0)));
}
