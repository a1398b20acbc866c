//! DTS estimation for stream-copy packets.
//!
//! When the container gives no DTS (common right after a seek) the estimator
//! fills in a prediction, so the muxer never receives unset timestamps; it
//! also keeps DTS from going backwards and PTS from falling below DTS.

use vstd::prelude::*;
use crate::transcode::types::{MediaKind, Rational, NOPTS_VALUE};

verus! {

/// Timestamps of one packet, in input time-base units.
#[derive(Clone, Copy, Debug, PartialEq, Eq, Structural)]
pub struct PacketTimestamps {
    pub pts: i64,
    pub dts: i64,
    pub duration: i64,
}

/// Predicts the DTS of stream-copy packets.
#[derive(Clone, Copy, Debug, PartialEq, Eq, Structural)]
pub struct DtsEstimator {
    /// Predicted DTS of the next packet (input time-base units).
    pub next_dts: i64,
    /// Whether a packet has been seen yet.
    pub saw_first: bool,
    /// Video or audio.
    pub codec_type: MediaKind,
    /// Input stream time base.
    pub time_base: Rational,
    /// Video frame rate.
    pub framerate: Rational,
    /// Video B-frame depth; estimated DTS starts this many frames early.
    pub video_delay: i32,
    /// Audio sample rate.
    pub sample_rate: i32,
    /// Audio samples per frame.
    pub frame_size: i32,
}

/// Division rounding toward zero.
pub open spec fn trunc_div(a: int, b: int) -> int {
    let q = (if a < 0 { -a } else { a }) / (if b < 0 { -b } else { b });
    if (a < 0) != (b < 0) {
        -q
    } else {
        q
    }
}

/// `value * from / to`, rounded toward zero and brought to 64 bits; 0 when
/// the divisor `from.den * to.num` is 0.
pub open spec fn rescale_value(value: i64, from: Rational, to: Rational) -> i64 {
    let num = value * from.num * to.den;
    let den = from.den * to.num;
    if den == 0 {
        0
    } else {
        trunc_div(num, den) as i64
    }
}

/// Duration of one frame in input time-base units: one frame at the frame
/// rate for video, `frame_size` samples for audio, else 0.
pub open spec fn frame_duration(e: DtsEstimator) -> i64 {
    if e.codec_type == MediaKind::Video && e.framerate.num > 0 && e.framerate.den > 0 {
        rescale_value(1, Rational { num: e.framerate.den, den: e.framerate.num }, e.time_base)
    } else if e.codec_type == MediaKind::Audio && e.sample_rate > 0 && e.frame_size > 0 {
        rescale_value(e.frame_size as i64, Rational { num: 1, den: e.sample_rate }, e.time_base)
    } else {
        0
    }
}

/// Offset of the first estimated DTS from the first PTS: minus the B-frame
/// depth in frames, for video with a known frame duration.
pub open spec fn first_dts_offset(e: DtsEstimator) -> int {
    if e.codec_type == MediaKind::Video && frame_duration(e) > 0 {
        -(e.video_delay as int) * frame_duration(e)
    } else {
        0
    }
}

/// The prediction in force when a packet arrives: on the first packet, its
/// DTS, else its PTS moved back by the B-frame depth, else 0.
pub open spec fn start_prediction(e: DtsEstimator, p: PacketTimestamps) -> int {
    if e.saw_first {
        e.next_dts as int
    } else if p.dts != NOPTS_VALUE {
        p.dts as int
    } else if p.pts != NOPTS_VALUE {
        p.pts + first_dts_offset(e)
    } else {
        0
    }
}

/// The DTS written to the packet: the prediction when the packet has none or
/// when its own DTS would go back behind the prediction, else its own.
pub open spec fn fixed_dts(e: DtsEstimator, p: PacketTimestamps) -> int {
    let n = start_prediction(e, p);
    if p.dts == NOPTS_VALUE {
        n
    } else if n != NOPTS_VALUE && p.dts < n {
        n
    } else {
        p.dts as int
    }
}

/// The PTS written to the packet: the new DTS when the packet has none or
/// when its own PTS lies before the new DTS, else its own.
pub open spec fn fixed_pts(e: DtsEstimator, p: PacketTimestamps) -> int {
    if p.pts == NOPTS_VALUE {
        fixed_dts(e, p)
    } else if p.pts < fixed_dts(e, p) {
        fixed_dts(e, p)
    } else {
        p.pts as int
    }
}

/// The prediction for the following packet: the new DTS plus one frame
/// duration, or plus the packet duration when the frame duration is unknown.
pub open spec fn advanced_prediction(e: DtsEstimator, p: PacketTimestamps) -> int {
    let fd = frame_duration(e);
    if fd > 0 {
        fixed_dts(e, p) + fd
    } else if p.duration > 0 {
        fixed_dts(e, p) + p.duration
    } else {
        fixed_dts(e, p)
    }
}

pub open spec fn fits_i64(x: int) -> bool {
    i64::MIN <= x <= i64::MAX
}

/// Every intermediate value of fixing packet `p` fits 64 bits.
pub open spec fn fix_in_range(e: DtsEstimator, p: PacketTimestamps) -> bool {
    &&& (!e.saw_first && p.dts == NOPTS_VALUE && p.pts != NOPTS_VALUE) ==> {
        &&& fits_i64(first_dts_offset(e))
        &&& fits_i64(p.pts + first_dts_offset(e))
    }
    &&& fits_i64(advanced_prediction(e, p))
}

/// The packet after fixing.
pub open spec fn fixed_packet(e: DtsEstimator, p: PacketTimestamps) -> PacketTimestamps {
    PacketTimestamps { pts: fixed_pts(e, p) as i64, dts: fixed_dts(e, p) as i64, ..p }
}

/// The estimator after fixing packet `p`.
pub open spec fn after_packet(e: DtsEstimator, p: PacketTimestamps) -> DtsEstimator {
    DtsEstimator { next_dts: advanced_prediction(e, p) as i64, saw_first: true, ..e }
}

/// Once a packet has been seen, a prediction is always set.
pub open spec fn has_prediction(e: DtsEstimator) -> bool {
    e.saw_first ==> e.next_dts != NOPTS_VALUE
}

/// `a / b` rounded toward zero.
fn div_toward_zero(a: i128, b: i128) -> (q: i128)
    requires
        b != 0,
        a > i128::MIN,
        b > i128::MIN,
    ensures
        q == trunc_div(a as int, b as int),
{
    let ua: i128 = if a < 0 { -a } else { a };
    let ub: i128 = if b < 0 { -b } else { b };
    let q = ua / ub;
    if (a < 0) != (b < 0) {
        -q
    } else {
        q
    }
}

proof fn lemma_mul_bound(x: int, y: int, bx: int, by_: int)
    requires
        -bx <= x <= bx,
        -by_ <= y <= by_,
    ensures
        -(bx * by_) <= x * y <= bx * by_,
{
    assert(-(bx * by_) <= x * y <= bx * by_) by (nonlinear_arith)
        requires
            -bx <= x <= bx,
            -by_ <= y <= by_,
    ;
}

impl DtsEstimator {
    /// A fresh estimator for a stream. The frame rate is the codec's when it
    /// is set, else the stream's average frame rate.
    pub fn new(
        codec_type: MediaKind,
        time_base: Rational,
        codec_framerate: Rational,
        avg_frame_rate: Rational,
        video_delay: i32,
        sample_rate: i32,
        frame_size: i32,
    ) -> (r: Self)
        ensures
            r == (DtsEstimator {
                next_dts: NOPTS_VALUE,
                saw_first: false,
                codec_type,
                time_base,
                framerate: if codec_framerate.num != 0 {
                    codec_framerate
                } else {
                    avg_frame_rate
                },
                video_delay,
                sample_rate,
                frame_size,
            }),
    {
        DtsEstimator {
            next_dts: NOPTS_VALUE,
            saw_first: false,
            codec_type,
            time_base,
            framerate: if codec_framerate.num != 0 {
                codec_framerate
            } else {
                avg_frame_rate
            },
            video_delay,
            sample_rate,
            frame_size,
        }
    }

    /// `value * from / to`, rounded toward zero; 0 when the divisor is 0.
    pub fn rescale(value: i64, from: Rational, to: Rational) -> (r: i64)
        ensures
            r == rescale_value(value, from, to),
    {
        let v = value as i128;
        let fnum = from.num as i128;
        let tden = to.den as i128;
        proof {
            lemma_mul_bound(v as int, fnum as int, 0x8000_0000_0000_0000, 0x8000_0000);
            lemma_mul_bound(
                v * fnum,
                tden as int,
                0x4000_0000_0000_0000_0000_0000int,
                0x8000_0000,
            );
            lemma_mul_bound(from.den as int, to.num as int, 0x8000_0000, 0x8000_0000);
        }
        let num = v * fnum * tden;
        let den = (from.den as i128) * (to.num as i128);
        if den == 0 {
            return 0;
        }
        let q = div_toward_zero(num, den);
        #[verifier::truncate] (q as i64)
    }

    /// Duration of one frame in input time-base units (0 when unknown).
    pub fn frame_dur(&self) -> (r: i64)
        ensures
            r == frame_duration(*self),
    {
        if self.codec_type == MediaKind::Video && self.framerate.num > 0 && self.framerate.den > 0 {
            Self::rescale(
                1,
                Rational { num: self.framerate.den, den: self.framerate.num },
                self.time_base,
            )
        } else if self.codec_type == MediaKind::Audio && self.sample_rate > 0 && self.frame_size > 0 {
            Self::rescale(
                self.frame_size as i64,
                Rational { num: 1, den: self.sample_rate },
                self.time_base,
            )
        } else {
            0
        }
    }

    /// Can `fix_timestamps` handle this packet without an arithmetic overflow?
    pub fn can_fix_timestamps(&self, pkt: &PacketTimestamps) -> (r: bool)
        ensures
            r == fix_in_range(*self, *pkt),
    {
        let fdur = self.frame_dur();
        let offset: i128 = if self.codec_type == MediaKind::Video && fdur > 0 {
            proof {
                lemma_mul_bound(-(self.video_delay as int), fdur as int, 0x8000_0000, 0x8000_0000_0000_0000);
            }
            -(self.video_delay as i128) * (fdur as i128)
        } else {
            0
        };
        let lo = i64::MIN as i128;
        let hi = i64::MAX as i128;
        let needs_offset = !self.saw_first && pkt.dts == NOPTS_VALUE && pkt.pts != NOPTS_VALUE;
        if needs_offset && !(lo <= offset && offset <= hi && lo <= pkt.pts as i128 + offset
            && pkt.pts as i128 + offset <= hi) {
            return false;
        }
        let start: i128 = if self.saw_first {
            self.next_dts as i128
        } else if pkt.dts != NOPTS_VALUE {
            pkt.dts as i128
        } else if pkt.pts != NOPTS_VALUE {
            pkt.pts as i128 + offset
        } else {
            0
        };
        let fixed: i128 = if pkt.dts == NOPTS_VALUE {
            start
        } else if start != NOPTS_VALUE as i128 && (pkt.dts as i128) < start {
            start
        } else {
            pkt.dts as i128
        };
        let advanced: i128 = if fdur > 0 {
            fixed + fdur as i128
        } else if pkt.duration > 0 {
            fixed + pkt.duration as i128
        } else {
            fixed
        };
        lo <= advanced && advanced <= hi
    }

    /// Fix missing or out-of-order timestamps of a packet before it goes to
    /// the muxer, in input time-base units.
    ///
    /// The first packet starts the prediction: its DTS, else its PTS moved
    /// back by the B-frame depth (so estimated DTS of B-frame video start
    /// negative), else 0. A missing DTS is filled from the prediction; a DTS
    /// that would go back behind the prediction is raised to it; otherwise the
    /// container's DTS is kept and followed. A missing PTS, or one below the
    /// DTS, becomes the DTS. Then the prediction advances by one frame.
    pub fn fix_timestamps(&mut self, pkt: &mut PacketTimestamps)
        requires
            fix_in_range(*old(self), *old(pkt)),
        ensures
            *final(self) == after_packet(*old(self), *old(pkt)),
            *final(pkt) == fixed_packet(*old(self), *old(pkt)),
    {
        let ghost e0 = *self;
        let ghost p0 = *pkt;
        if !self.saw_first {
            self.saw_first = true;
            let fdur = self.frame_dur();
            if pkt.dts != NOPTS_VALUE {
                self.next_dts = pkt.dts;
            } else if pkt.pts != NOPTS_VALUE {
                let delay_offset: i64 = if self.codec_type == MediaKind::Video && fdur > 0 {
                    -(self.video_delay as i64) * fdur
                } else {
                    0
                };
                self.next_dts = pkt.pts + delay_offset;
            } else {
                self.next_dts = 0;
            }
        }
        assert(self.next_dts == start_prediction(e0, p0));
        if pkt.dts == NOPTS_VALUE {
            pkt.dts = self.next_dts;
        } else {
            if self.next_dts != NOPTS_VALUE && pkt.dts < self.next_dts {
                pkt.dts = self.next_dts;
            } else {
                self.next_dts = pkt.dts;
            }
        }
        if pkt.pts == NOPTS_VALUE {
            pkt.pts = self.next_dts;
        } else if pkt.pts < pkt.dts {
            pkt.pts = pkt.dts;
        }
        self.advance_next_dts(pkt);
    }

    /// Move the prediction on by one frame duration, or by the packet's
    /// duration when the frame duration is unknown.
    fn advance_next_dts(&mut self, pkt: &PacketTimestamps)
        requires
            frame_duration(*old(self)) > 0 ==> fits_i64(old(self).next_dts + frame_duration(*old(self))),
            frame_duration(*old(self)) <= 0 && pkt.duration > 0 ==> fits_i64(old(self).next_dts + pkt.duration),
        ensures
            *final(self) == (DtsEstimator {
                next_dts: (if frame_duration(*old(self)) > 0 {
                    old(self).next_dts + frame_duration(*old(self))
                } else if pkt.duration > 0 {
                    old(self).next_dts + pkt.duration
                } else {
                    old(self).next_dts as int
                }) as i64,
                ..*old(self)
            }),
    {
        let fdur = self.frame_dur();
        if fdur > 0 {
            self.next_dts = self.next_dts + fdur;
        } else if pkt.duration > 0 {
            self.next_dts = self.next_dts + pkt.duration;
        }
    }
}

// ── Laws ────────────────────────────────────────────────────────────────────

/// A positive quotient of positive values below 2^62 is the floor quotient
/// and fits 64 bits.
proof fn lemma_positive_rescale(num: int, den: int)
    requires
        0 < num <= 0x4000_0000_0000_0000,
        0 < den,
    ensures
        trunc_div(num, den) as i64 == num / den,
{
    assert(0 <= num / den <= num) by (nonlinear_arith)
        requires
            0 < num,
            0 < den,
    ;
}

/// One frame lasts, in input time-base units (time base `num/den` seconds),
/// `frame_size` samples at the sample rate for audio, i.e.
/// `frame_size * tb.den / (sample_rate * tb.num)`, and one frame period
/// `framerate.den / framerate.num` seconds for video, i.e.
/// `framerate.den * tb.den / (framerate.num * tb.num)`, both rounded down;
/// the duration is 0 when it cannot be known.
pub proof fn lemma_frame_duration_in_time_base(e: DtsEstimator)
    requires
        e.time_base.num > 0,
        e.time_base.den > 0,
    ensures
        (e.codec_type == MediaKind::Audio && e.sample_rate > 0 && e.frame_size > 0) ==> frame_duration(e)
            == (e.frame_size * e.time_base.den) / (e.sample_rate * e.time_base.num),
        (e.codec_type == MediaKind::Video && e.framerate.num > 0 && e.framerate.den > 0) ==> frame_duration(e)
            == (e.framerate.den * e.time_base.den) / (e.framerate.num * e.time_base.num),
        !(e.codec_type == MediaKind::Audio && e.sample_rate > 0 && e.frame_size > 0)
            && !(e.codec_type == MediaKind::Video && e.framerate.num > 0 && e.framerate.den > 0)
            ==> frame_duration(e) == 0,
{
    let tb = e.time_base;
    if e.codec_type == MediaKind::Audio && e.sample_rate > 0 && e.frame_size > 0 {
        let num = (e.frame_size as i64) * 1 * tb.den;
        let den = e.sample_rate * tb.num;
        assert(num == e.frame_size * tb.den);
        assert(0 < num <= 0x4000_0000_0000_0000) by (nonlinear_arith)
            requires
                num == e.frame_size * tb.den,
                0 < e.frame_size <= 0x7fff_ffff,
                0 < tb.den <= 0x7fff_ffff,
        ;
        assert(0 < den) by (nonlinear_arith)
            requires
                den == e.sample_rate * tb.num,
                e.sample_rate > 0,
                tb.num > 0,
        ;
        lemma_positive_rescale(num, den);
    } else if e.codec_type == MediaKind::Video && e.framerate.num > 0 && e.framerate.den > 0 {
        let num = 1 * e.framerate.den * tb.den;
        let den = e.framerate.num * tb.num;
        assert(num == e.framerate.den * tb.den);
        assert(0 < num <= 0x4000_0000_0000_0000) by (nonlinear_arith)
            requires
                num == e.framerate.den * tb.den,
                0 < e.framerate.den <= 0x7fff_ffff,
                0 < tb.den <= 0x7fff_ffff,
        ;
        assert(0 < den) by (nonlinear_arith)
            requires
                den == e.framerate.num * tb.num,
                e.framerate.num > 0,
                tb.num > 0,
        ;
        lemma_positive_rescale(num, den);
    }
}

/// After fixing, a packet has both timestamps set and PTS is not below DTS;
/// the estimator keeps a prediction, at or after the DTS just written.
/// (Excluded: a first packet whose PTS, moved back by the B-frame depth,
/// lands exactly on the "no timestamp" value.)
pub proof fn lemma_fixed_packet_is_complete(e: DtsEstimator, p: PacketTimestamps)
    requires
        has_prediction(e),
        fix_in_range(e, p),
        start_prediction(e, p) != NOPTS_VALUE,
    ensures
        fixed_packet(e, p).dts != NOPTS_VALUE,
        fixed_packet(e, p).pts != NOPTS_VALUE,
        fixed_packet(e, p).pts >= fixed_packet(e, p).dts,
        has_prediction(after_packet(e, p)),
        after_packet(e, p).next_dts >= fixed_packet(e, p).dts,
{
}

/// The DTS handed to the muxer never goes backwards: of two consecutive
/// packets, the second gets a DTS at or after the first's.
pub proof fn lemma_dts_monotonic(e: DtsEstimator, p0: PacketTimestamps, p1: PacketTimestamps)
    requires
        has_prediction(e),
        fix_in_range(e, p0),
        start_prediction(e, p0) != NOPTS_VALUE,
        fix_in_range(after_packet(e, p0), p1),
    ensures
        fixed_packet(after_packet(e, p0), p1).dts >= fixed_packet(e, p0).dts,
{
    lemma_fixed_packet_is_complete(e, p0);
}

} // verus!
