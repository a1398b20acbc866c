//! Stream selection for a transcode pass: which input streams are decoded and
//! re-encoded, which are copied, which are dropped, and where each kept stream
//! goes in the output.

use vstd::prelude::*;
use crate::transcode::types::MediaKind;
use crate::transcode::session::gpu_pipeline;

verus! {

/// What the selection reads of an input stream.
#[derive(Clone, Copy, Debug, PartialEq, Eq, Structural)]
pub struct StreamInfo {
    /// The kind of media the stream carries.
    pub kind: MediaKind,
    /// The stream is an attached picture (cover art).
    pub attached_pic: bool,
}

/// How an input stream is handled.
#[derive(Clone, Copy, Debug, PartialEq, Eq, Structural)]
pub enum StreamMapping {
    /// Decoded, filtered and re-encoded as video.
    Video { in_idx: usize, out_idx: usize, gpu_pipeline: bool },
    /// Decoded, filtered and re-encoded as audio.
    Audio { in_idx: usize, out_idx: usize },
    /// Packets copied to the output unchanged.
    Copy { in_idx: usize, out_idx: usize },
    /// Dropped.
    Ignore,
}

/// The stream mapping of a pass.
#[derive(Debug)]
pub struct StreamAnalysis {
    pub nb_streams: usize,
    pub stream_map: Vec<StreamMapping>,
    pub out_stream_count: usize,
}

/// Selection state after a prefix of the streams: the mappings so far,
/// whether a video and an audio stream were kept, and the output count.
pub struct PlanState {
    pub map: Seq<StreamMapping>,
    pub video_kept: bool,
    pub audio_kept: bool,
    pub out_count: nat,
}

/// The selection after the first `n` streams. Attached pictures, subtitles,
/// attachments and other streams are dropped. The first video stream is
/// re-encoded (copied when the video codec is `copy`) and later ones are
/// dropped; likewise the first audio stream. Kept streams are numbered in
/// the output in input order.
pub open spec fn plan_prefix(
    streams: Seq<StreamInfo>,
    n: int,
    copy_video: bool,
    copy_audio: bool,
    gpu_pipeline: bool,
) -> PlanState
    decreases n,
{
    if n <= 0 {
        PlanState { map: Seq::empty(), video_kept: false, audio_kept: false, out_count: 0 }
    } else {
        let st = plan_prefix(streams, n - 1, copy_video, copy_audio, gpu_pipeline);
        let s = streams[n - 1];
        let i = (n - 1) as usize;
        let out = st.out_count as usize;
        if s.attached_pic || (s.kind != MediaKind::Video && s.kind != MediaKind::Audio) {
            PlanState { map: st.map.push(StreamMapping::Ignore), ..st }
        } else if s.kind == MediaKind::Video && st.video_kept {
            PlanState { map: st.map.push(StreamMapping::Ignore), ..st }
        } else if s.kind == MediaKind::Audio && st.audio_kept {
            PlanState { map: st.map.push(StreamMapping::Ignore), ..st }
        } else {
            let m = if s.kind == MediaKind::Video && !copy_video {
                StreamMapping::Video { in_idx: i, out_idx: out, gpu_pipeline }
            } else if s.kind == MediaKind::Audio && !copy_audio {
                StreamMapping::Audio { in_idx: i, out_idx: out }
            } else {
                StreamMapping::Copy { in_idx: i, out_idx: out }
            };
            PlanState {
                map: st.map.push(m),
                video_kept: st.video_kept || s.kind == MediaKind::Video,
                audio_kept: st.audio_kept || s.kind == MediaKind::Audio,
                out_count: st.out_count + 1,
            }
        }
    }
}

/// Build the stream mapping for the input streams. A re-encoded video stream
/// stays on the GPU between decoder and encoder when there is a decode
/// device and the encode device runs the chosen encoder
/// (`encoder_on_encode_device`: none without an encode device).
pub fn plan_stream_mapping(
    streams: &Vec<StreamInfo>,
    copy_video: bool,
    copy_audio: bool,
    has_decode_device: bool,
    encoder_on_encode_device: Option<bool>,
) -> (r: StreamAnalysis)
    ensures
        ({
            let gpu = has_decode_device && encoder_on_encode_device == Some(true);
            &&& r.nb_streams == streams.len()
            &&& r.stream_map@ == plan_prefix(streams@, streams.len() as int, copy_video, copy_audio, gpu).map
            &&& r.out_stream_count == plan_prefix(streams@, streams.len() as int, copy_video, copy_audio, gpu).out_count
        }),
{
    let gpu_pipeline = gpu_pipeline(has_decode_device, encoder_on_encode_device);
    let nb_streams = streams.len();
    let mut stream_map: Vec<StreamMapping> = Vec::with_capacity(nb_streams);
    let mut out_stream_count: usize = 0;
    let mut first_video_selected = false;
    let mut first_audio_selected = false;
    let mut i: usize = 0;
    while i < nb_streams
        invariant
            nb_streams == streams.len(),
            i <= nb_streams,
            stream_map@ == plan_prefix(streams@, i as int, copy_video, copy_audio, gpu_pipeline).map,
            out_stream_count == plan_prefix(streams@, i as int, copy_video, copy_audio, gpu_pipeline).out_count,
            first_video_selected == plan_prefix(streams@, i as int, copy_video, copy_audio, gpu_pipeline).video_kept,
            first_audio_selected == plan_prefix(streams@, i as int, copy_video, copy_audio, gpu_pipeline).audio_kept,
            out_stream_count <= i,
        decreases nb_streams - i,
    {
        let s = streams[i];
        let is_video = s.kind == MediaKind::Video;
        let is_audio = s.kind == MediaKind::Audio;
        if s.attached_pic || (!is_video && !is_audio) {
            stream_map.push(StreamMapping::Ignore);
        } else if is_video && first_video_selected {
            stream_map.push(StreamMapping::Ignore);
        } else if is_audio && first_audio_selected {
            stream_map.push(StreamMapping::Ignore);
        } else {
            let m = if is_video && !copy_video {
                StreamMapping::Video { in_idx: i, out_idx: out_stream_count, gpu_pipeline }
            } else if is_audio && !copy_audio {
                StreamMapping::Audio { in_idx: i, out_idx: out_stream_count }
            } else {
                StreamMapping::Copy { in_idx: i, out_idx: out_stream_count }
            };
            stream_map.push(m);
            if is_video {
                first_video_selected = true;
            }
            if is_audio {
                first_audio_selected = true;
            }
            out_stream_count = out_stream_count + 1;
        }
        i = i + 1;
    }
    StreamAnalysis { nb_streams, stream_map, out_stream_count }
}

// ── Laws ────────────────────────────────────────────────────────────────────

/// The stream is kept (not dropped).
pub open spec fn is_kept(m: StreamMapping) -> bool {
    !(m is Ignore)
}

/// Input index of a kept stream.
pub open spec fn in_index(m: StreamMapping) -> int {
    match m {
        StreamMapping::Video { in_idx, .. } => in_idx as int,
        StreamMapping::Audio { in_idx, .. } => in_idx as int,
        StreamMapping::Copy { in_idx, .. } => in_idx as int,
        StreamMapping::Ignore => -1,
    }
}

/// Output index of a kept stream.
pub open spec fn out_index(m: StreamMapping) -> int {
    match m {
        StreamMapping::Video { out_idx, .. } => out_idx as int,
        StreamMapping::Audio { out_idx, .. } => out_idx as int,
        StreamMapping::Copy { out_idx, .. } => out_idx as int,
        StreamMapping::Ignore => -1,
    }
}

/// Number of kept streams among the first `k` mappings.
pub open spec fn kept_count(map: Seq<StreamMapping>, k: int) -> nat
    decreases k,
{
    if k <= 0 {
        0
    } else {
        kept_count(map, k - 1) + if is_kept(map[k - 1]) { 1nat } else { 0nat }
    }
}

proof fn lemma_kept_count_push(map: Seq<StreamMapping>, x: StreamMapping, k: int)
    requires
        0 <= k <= map.len(),
    ensures
        kept_count(map.push(x), k) == kept_count(map, k),
    decreases k,
{
    if k > 0 {
        lemma_kept_count_push(map, x, k - 1);
        assert(map.push(x)[k - 1] == map[k - 1]);
    }
}

/// The shape of the stream selection: one mapping per input stream; a kept
/// stream carries its own input index and, as output index, the number of
/// streams kept before it (so output indices run from 0 in input order); the
/// output count is the number of kept streams; only video and audio streams
/// that are no attached pictures are kept, and no two kept streams are of the
/// same kind, so at most one video and one audio stream are kept; a stream is
/// re-encoded as video only when video is not copied, and is marked as staying
/// on the GPU exactly when the pass runs a GPU pipeline.
pub proof fn lemma_stream_plan_shape(
    streams: Seq<StreamInfo>,
    n: int,
    copy_video: bool,
    copy_audio: bool,
    gpu_pipeline: bool,
)
    requires
        0 <= n <= streams.len(),
        streams.len() <= usize::MAX,
    ensures
        ({
            let st = plan_prefix(streams, n, copy_video, copy_audio, gpu_pipeline);
            &&& st.map.len() == n
            &&& st.out_count == kept_count(st.map, n)
            &&& st.out_count <= n
            &&& forall|i: int|
                0 <= i < n && is_kept(#[trigger] st.map[i]) ==> {
                    &&& in_index(st.map[i]) == i
                    &&& out_index(st.map[i]) == kept_count(st.map, i)
                    &&& !streams[i].attached_pic
                    &&& (streams[i].kind == MediaKind::Video || streams[i].kind == MediaKind::Audio)
                }
            &&& forall|i: int, j: int|
                0 <= i < j < n && is_kept(#[trigger] st.map[i]) && is_kept(#[trigger] st.map[j])
                    ==> streams[i].kind != streams[j].kind
            &&& st.video_kept == exists|k: int|
                0 <= k < n && is_kept(#[trigger] st.map[k]) && streams[k].kind == MediaKind::Video
            &&& st.audio_kept == exists|k: int|
                0 <= k < n && is_kept(#[trigger] st.map[k]) && streams[k].kind == MediaKind::Audio
            &&& forall|i: int|
                0 <= i < n && (#[trigger] st.map[i] is Video) ==> {
                    &&& st.map[i]->gpu_pipeline == gpu_pipeline
                    &&& !copy_video
                    &&& streams[i].kind == MediaKind::Video
                }
        }),
    decreases n,
{
    if n > 0 {
        lemma_stream_plan_shape(streams, n - 1, copy_video, copy_audio, gpu_pipeline);
        let prev = plan_prefix(streams, n - 1, copy_video, copy_audio, gpu_pipeline);
        let st = plan_prefix(streams, n, copy_video, copy_audio, gpu_pipeline);
        let x = st.map[n - 1];
        assert(st.map == prev.map.push(x));
        lemma_kept_count_push(prev.map, x, n - 1);
        assert forall|i: int| 0 <= i < n - 1 implies #[trigger] st.map[i] == prev.map[i] by {}
        assert forall|i: int| 0 <= i < n - 1 implies #[trigger] kept_count(st.map, i) == kept_count(prev.map, i) by {
            lemma_kept_count_push(prev.map, x, i);
        }
        if prev.video_kept {
            let k = choose|k: int|
                0 <= k < n - 1 && is_kept(#[trigger] prev.map[k]) && streams[k].kind == MediaKind::Video;
            assert(st.map[k] == prev.map[k]);
        }
        if prev.audio_kept {
            let k = choose|k: int|
                0 <= k < n - 1 && is_kept(#[trigger] prev.map[k]) && streams[k].kind == MediaKind::Audio;
            assert(st.map[k] == prev.map[k]);
        }
        if st.video_kept && !prev.video_kept {
            assert(is_kept(st.map[n - 1]));
        }
        if st.audio_kept && !prev.audio_kept {
            assert(is_kept(st.map[n - 1]));
        }
    }
}

/// A stream that can be kept as a stream of the given kind: it carries that
/// kind and is no attached picture.
pub open spec fn is_eligible(s: StreamInfo, kind: MediaKind) -> bool {
    s.kind == kind && !s.attached_pic
}

/// Stream `k` is the first stream that can be kept as a stream of `kind`.
pub open spec fn is_first_eligible(streams: Seq<StreamInfo>, k: int, kind: MediaKind) -> bool {
    &&& 0 <= k < streams.len()
    &&& is_eligible(streams[k], kind)
    &&& forall|j: int| 0 <= j < k ==> !is_eligible(#[trigger] streams[j], kind)
}

/// The mapping a kept stream of `kind` gets: copied when that kind is
/// copied, else re-encoded as that kind.
pub open spec fn has_handling(m: StreamMapping, kind: MediaKind, copied: bool) -> bool {
    if copied {
        m is Copy
    } else if kind == MediaKind::Video {
        m is Video
    } else {
        m is Audio
    }
}

/// Whatever is copied or re-encoded, the first video stream and the first
/// audio stream that are no attached pictures are kept: a kind is kept
/// exactly when some stream of it can be kept. A kept video stream is copied
/// exactly when video is copied and is re-encoded as video otherwise; a kept
/// audio stream is copied exactly when audio is copied and is re-encoded as
/// audio otherwise.
pub proof fn lemma_first_of_each_kind_kept(
    streams: Seq<StreamInfo>,
    n: int,
    copy_video: bool,
    copy_audio: bool,
    gpu_pipeline: bool,
)
    requires
        0 <= n <= streams.len(),
        streams.len() <= usize::MAX,
    ensures
        ({
            let st = plan_prefix(streams, n, copy_video, copy_audio, gpu_pipeline);
            &&& st.map.len() == n
            &&& st.video_kept == exists|j: int| 0 <= j < n && is_eligible(#[trigger] streams[j], MediaKind::Video)
            &&& st.audio_kept == exists|j: int| 0 <= j < n && is_eligible(#[trigger] streams[j], MediaKind::Audio)
            &&& forall|k: int|
                0 <= k < n && is_first_eligible(streams, k, MediaKind::Video) ==> is_kept(#[trigger] st.map[k])
            &&& forall|k: int|
                0 <= k < n && is_first_eligible(streams, k, MediaKind::Audio) ==> is_kept(#[trigger] st.map[k])
            &&& forall|k: int|
                0 <= k < n && is_kept(#[trigger] st.map[k]) && streams[k].kind == MediaKind::Video
                    ==> has_handling(st.map[k], MediaKind::Video, copy_video)
            &&& forall|k: int|
                0 <= k < n && is_kept(#[trigger] st.map[k]) && streams[k].kind == MediaKind::Audio
                    ==> has_handling(st.map[k], MediaKind::Audio, copy_audio)
        }),
    decreases n,
{
    if n > 0 {
        lemma_first_of_each_kind_kept(streams, n - 1, copy_video, copy_audio, gpu_pipeline);
        let prev = plan_prefix(streams, n - 1, copy_video, copy_audio, gpu_pipeline);
        let st = plan_prefix(streams, n, copy_video, copy_audio, gpu_pipeline);
        let x = st.map[n - 1];
        assert(st.map == prev.map.push(x));
        assert forall|i: int| 0 <= i < n - 1 implies #[trigger] st.map[i] == prev.map[i] by {}
        let s = streams[n - 1];
        if is_eligible(s, MediaKind::Video) {
            assert(st.video_kept);
        } else if prev.video_kept != st.video_kept {
            assert(false);
        }
        if is_eligible(s, MediaKind::Audio) {
            assert(st.audio_kept);
        } else if prev.audio_kept != st.audio_kept {
            assert(false);
        }
        assert forall|k: int|
            0 <= k < n && is_first_eligible(streams, k, MediaKind::Video) implies is_kept(#[trigger] st.map[k]) by {
            if k == n - 1 {
                if prev.video_kept {
                    let j = choose|j: int| 0 <= j < n - 1 && is_eligible(#[trigger] streams[j], MediaKind::Video);
                    assert(!is_eligible(streams[j], MediaKind::Video));
                }
            } else {
                assert(st.map[k] == prev.map[k]);
            }
        }
        assert forall|k: int|
            0 <= k < n && is_first_eligible(streams, k, MediaKind::Audio) implies is_kept(#[trigger] st.map[k]) by {
            if k == n - 1 {
                if prev.audio_kept {
                    let j = choose|j: int| 0 <= j < n - 1 && is_eligible(#[trigger] streams[j], MediaKind::Audio);
                    assert(!is_eligible(streams[j], MediaKind::Audio));
                }
            } else {
                assert(st.map[k] == prev.map[k]);
            }
        }
        assert forall|k: int|
            0 <= k < n && is_kept(#[trigger] st.map[k]) && streams[k].kind == MediaKind::Video
                implies has_handling(st.map[k], MediaKind::Video, copy_video) by {
            if k < n - 1 {
                assert(st.map[k] == prev.map[k]);
            }
        }
        assert forall|k: int|
            0 <= k < n && is_kept(#[trigger] st.map[k]) && streams[k].kind == MediaKind::Audio
                implies has_handling(st.map[k], MediaKind::Audio, copy_audio) by {
            if k < n - 1 {
                assert(st.map[k] == prev.map[k]);
            }
        }
    }
}

} // verus!
