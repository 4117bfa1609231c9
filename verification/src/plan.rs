//! Routing: from an output extension to a container group, and from
//! probe outcomes to the encoder that the invocation will use.

use vstd::prelude::*;
use crate::strutil::{lower, str_eq_fold};

verus! {

/// The container groups that the argument builder distinguishes.
#[derive(Clone, Copy, Debug, PartialEq, Eq, Structural)]
pub enum Group {
    /// Containers that take H.264 and may use a hardware encoder.
    H264,
    /// WebM: VP9, software only.
    Webm,
    /// Ogg: Theora, software only.
    Ogg,
    /// Animated GIF: its own fixed filter chain.
    Gif,
    /// Anything else: default software settings.
    Other,
}

/// The hardware encoders that may be probed, in priority order.
#[derive(Clone, Copy, Debug, PartialEq, Eq, Structural)]
pub enum HwEncoder {
    Nvenc,
    VideoToolbox,
    Amf,
    Qsv,
}

/// The group an extension belongs to, compared without regard to ASCII
/// case.
pub open spec fn spec_classify(ext: Seq<char>) -> Group {
    let e = lower(ext);
    if e == "mp4"@ || e == "mkv"@ || e == "mov"@ || e == "avi"@ || e == "flv"@ || e == "ts"@
        || e == "m4v"@ || e == "wmv"@ {
        Group::H264
    } else if e == "webm"@ {
        Group::Webm
    } else if e == "ogv"@ || e == "ogg"@ {
        Group::Ogg
    } else if e == "gif"@ {
        Group::Gif
    } else {
        Group::Other
    }
}

/// Classifies an output extension, without regard to ASCII case.
pub fn classify_extension(ext: &str) -> (g: Group)
    ensures
        g == spec_classify(ext@),
{
    proof {
        lemma_literals_lower();
    }
    if str_eq_fold(ext, "mp4") || str_eq_fold(ext, "mkv") || str_eq_fold(ext, "mov")
        || str_eq_fold(ext, "avi") || str_eq_fold(ext, "flv") || str_eq_fold(ext, "ts")
        || str_eq_fold(ext, "m4v") || str_eq_fold(ext, "wmv") {
        Group::H264
    } else if str_eq_fold(ext, "webm") {
        Group::Webm
    } else if str_eq_fold(ext, "ogv") || str_eq_fold(ext, "ogg") {
        Group::Ogg
    } else if str_eq_fold(ext, "gif") {
        Group::Gif
    } else {
        Group::Other
    }
}

/// The extension literals that the classifier compares against are
/// already lower case.
proof fn lemma_literals_lower()
    ensures
        lower("mp4"@) == "mp4"@,
        lower("mkv"@) == "mkv"@,
        lower("mov"@) == "mov"@,
        lower("avi"@) == "avi"@,
        lower("flv"@) == "flv"@,
        lower("ts"@) == "ts"@,
        lower("m4v"@) == "m4v"@,
        lower("wmv"@) == "wmv"@,
        lower("webm"@) == "webm"@,
        lower("ogv"@) == "ogv"@,
        lower("ogg"@) == "ogg"@,
        lower("gif"@) == "gif"@,
{
    reveal_strlit("mp4");
    reveal_strlit("mkv");
    reveal_strlit("mov");
    reveal_strlit("avi");
    reveal_strlit("flv");
    reveal_strlit("ts");
    reveal_strlit("m4v");
    reveal_strlit("wmv");
    reveal_strlit("webm");
    reveal_strlit("ogv");
    reveal_strlit("ogg");
    reveal_strlit("gif");
    assert(lower("mp4"@) =~= "mp4"@);
    assert(lower("mkv"@) =~= "mkv"@);
    assert(lower("mov"@) =~= "mov"@);
    assert(lower("avi"@) =~= "avi"@);
    assert(lower("flv"@) =~= "flv"@);
    assert(lower("ts"@) =~= "ts"@);
    assert(lower("m4v"@) =~= "m4v"@);
    assert(lower("wmv"@) =~= "wmv"@);
    assert(lower("webm"@) =~= "webm"@);
    assert(lower("ogv"@) =~= "ogv"@);
    assert(lower("ogg"@) =~= "ogg"@);
    assert(lower("gif"@) =~= "gif"@);
}

/// The name under which `ffmpeg` knows each hardware encoder.
pub open spec fn spec_encoder_name(e: HwEncoder) -> Seq<char> {
    match e {
        HwEncoder::Nvenc => "h264_nvenc"@,
        HwEncoder::VideoToolbox => "h264_videotoolbox"@,
        HwEncoder::Amf => "h264_amf"@,
        HwEncoder::Qsv => "h264_qsv"@,
    }
}

/// The name under which `ffmpeg` knows the encoder `e`.
pub fn encoder_name(e: HwEncoder) -> (s: String)
    ensures
        s@ == spec_encoder_name(e),
{
    match e {
        HwEncoder::Nvenc => "h264_nvenc".to_owned(),
        HwEncoder::VideoToolbox => "h264_videotoolbox".to_owned(),
        HwEncoder::Amf => "h264_amf".to_owned(),
        HwEncoder::Qsv => "h264_qsv".to_owned(),
    }
}

/// The fixed probe priority: dedicated NVIDIA hardware first, then
/// Apple, then AMD, then Intel.
pub open spec fn spec_candidates() -> Seq<HwEncoder> {
    seq![HwEncoder::Nvenc, HwEncoder::VideoToolbox, HwEncoder::Amf, HwEncoder::Qsv]
}

/// Whether hardware encoders are probed at all: only for containers of
/// the H.264 group, and only when the caller asked for hardware.
pub open spec fn spec_probing(g: Group, auto_gpu: bool) -> bool {
    g == Group::H264 && auto_gpu
}

/// The encoders to probe, in order: all four candidates when probing
/// applies, none otherwise.
pub fn probe_plan(g: Group, auto_gpu: bool) -> (v: Vec<HwEncoder>)
    ensures
        spec_probing(g, auto_gpu) ==> v@ == spec_candidates(),
        !spec_probing(g, auto_gpu) ==> v@ == Seq::<HwEncoder>::empty(),
{
    let mut v: Vec<HwEncoder> = Vec::new();
    if auto_gpu && g == Group::H264 {
        v.push(HwEncoder::Nvenc);
        v.push(HwEncoder::VideoToolbox);
        v.push(HwEncoder::Amf);
        v.push(HwEncoder::Qsv);
        proof {
            assert(v@ =~= spec_candidates());
        }
    }
    v
}

/// Reads a probe's outcome: `None` when the probe could not even run.
/// A probe that failed to run counts the same as one whose encode
/// failed — the encoder is unavailable — and the failure is swallowed,
/// never surfaced.
pub fn probe_supported(outcome: Option<bool>) -> (r: bool)
    ensures
        r == (outcome == Some(true)),
{
    match outcome {
        Some(success) => success,
        None => false,
    }
}

/// The encoder a sequential first-match-wins search selects, given the
/// candidates in priority order and each candidate's probe outcome.
pub open spec fn spec_selected(candidates: Seq<HwEncoder>, supported: Seq<bool>) -> Option<
    HwEncoder,
>
    decreases candidates.len(),
{
    if candidates.len() == 0 || supported.len() == 0 {
        None
    } else if supported[0] {
        Some(candidates[0])
    } else {
        spec_selected(candidates.drop_first(), supported.drop_first())
    }
}

/// When probing reports every candidate unavailable, the search selects
/// no hardware encoder, and the invocation falls back to the software
/// path.
pub proof fn lemma_all_unsupported_selects_none(candidates: Seq<HwEncoder>, supported: Seq<bool>)
    requires
        forall|i: int| 0 <= i < supported.len() ==> !supported[i],
    ensures
        spec_selected(candidates, supported) is None,
    decreases candidates.len(),
{
    if candidates.len() > 0 && supported.len() > 0 {
        lemma_all_unsupported_selects_none(candidates.drop_first(), supported.drop_first());
    }
}

/// Rejecting one more candidate decides the search exactly as
/// `spec_selected` says: the outcome just reported either accepts the
/// candidate at hand or leaves the selection open.
proof fn lemma_selected_step(candidates: Seq<HwEncoder>, rejected: Seq<bool>, outcome: bool)
    requires
        rejected.len() < candidates.len(),
        forall|i: int| 0 <= i < rejected.len() ==> !rejected[i],
    ensures
        spec_selected(candidates, rejected.push(outcome)) == if outcome {
            Some(candidates[rejected.len() as int])
        } else {
            None::<HwEncoder>
        },
    decreases rejected.len(),
{
    if rejected.len() == 0 {
        if !outcome {
            assert(rejected.push(outcome).drop_first().len() == 0);
        }
    } else {
        assert(rejected.push(outcome).drop_first() =~= rejected.drop_first().push(outcome));
        lemma_selected_step(candidates.drop_first(), rejected.drop_first(), outcome);
    }
}

/// A first-match-wins search through the probe candidates. The caller
/// asks for the next encoder to probe, reports the probe's outcome, and
/// stops as soon as one is accepted or none is left.
pub struct HwSearch {
    candidates: Vec<HwEncoder>,
    next: usize,
    rejected: Ghost<Seq<bool>>,
}

impl HwSearch {
    /// The candidates the search walks through.
    pub closed spec fn candidate_seq(&self) -> Seq<HwEncoder> {
        self.candidates@
    }

    /// How many candidates were already rejected.
    pub closed spec fn position(&self) -> int {
        self.next as int
    }

    /// The probe outcomes reported so far by a search still open: one
    /// per rejected candidate.
    pub closed spec fn outcome_seq(&self) -> Seq<bool> {
        self.rejected@
    }

    /// The search position never leaves the candidate list, and every
    /// outcome reported to a search still open was a rejection.
    pub closed spec fn wf(&self) -> bool {
        &&& self.next <= self.candidates.len()
        &&& self.rejected@.len() == self.next
        &&& forall|i: int| 0 <= i < self.rejected@.len() ==> !self.rejected@[i]
    }

    /// Starts a search over the candidates for `g`, in priority order.
    pub fn new(g: Group, auto_gpu: bool) -> (s: HwSearch)
        ensures
            s.wf(),
            s.position() == 0,
            spec_probing(g, auto_gpu) ==> s.candidate_seq() == spec_candidates(),
            !spec_probing(g, auto_gpu) ==> s.candidate_seq() == Seq::<HwEncoder>::empty(),
    {
        HwSearch { candidates: probe_plan(g, auto_gpu), next: 0, rejected: Ghost(Seq::empty()) }
    }

    /// The encoder to probe next, or `None` when every candidate was
    /// rejected — and then the first-match-wins selection over the
    /// reported outcomes selects none either.
    pub fn current(&self) -> (r: Option<HwEncoder>)
        requires
            self.wf(),
        ensures
            self.position() < self.candidate_seq().len() ==> r == Some(
                self.candidate_seq()[self.position()],
            ),
            self.position() >= self.candidate_seq().len() ==> r is None && spec_selected(
                self.candidate_seq(),
                self.outcome_seq(),
            ) is None,
    {
        if self.next < self.candidates.len() {
            Some(self.candidates[self.next])
        } else {
            proof {
                lemma_all_unsupported_selects_none(self.candidates@, self.rejected@);
            }
            None
        }
    }

    /// Takes one probe outcome. A successful probe accepts the current
    /// candidate; a failed one silently moves on to the next. Either
    /// way the answer is the first-match-wins selection over every
    /// outcome reported so far.
    pub fn step(&mut self, supported: bool) -> (r: Option<HwEncoder>)
        requires
            old(self).wf(),
            old(self).position() < old(self).candidate_seq().len(),
        ensures
            final(self).candidate_seq() == old(self).candidate_seq(),
            r == spec_selected(
                old(self).candidate_seq(),
                old(self).outcome_seq().push(supported),
            ),
            supported ==> r == Some(old(self).candidate_seq()[old(self).position()])
                && final(self).position() == old(self).position(),
            !supported ==> final(self).wf() && r is None && final(self).position() == old(
                self,
            ).position() + 1 && final(self).outcome_seq() == old(self).outcome_seq().push(false),
    {
        proof {
            lemma_selected_step(self.candidates@, self.rejected@, supported);
        }
        if supported {
            Some(self.candidates[self.next])
        } else {
            self.rejected = Ghost(self.rejected@.push(false));
            self.next = self.next + 1;
            None
        }
    }
}

} // verus!
