//! Building the exact argument lists handed to the external binary.

use vstd::prelude::*;
use crate::plan::{Group, HwEncoder, spec_encoder_name, encoder_name};

verus! {

/// The character sequences of the strings in `v`, in order.
pub open spec fn arg_views(v: Vec<String>) -> Seq<Seq<char>> {
    v.deep_view()
}

/// Appends one argument.
fn push_arg(v: &mut Vec<String>, s: &str)
    ensures
        arg_views(*final(v)) == arg_views(*old(v)).push(s@),
{
    v.push(s.to_owned());
    proof {
        assert(arg_views(*v) =~= arg_views(*old(v)).push(s@));
    }
}

/// Appends one argument that is already owned.
fn push_arg_string(v: &mut Vec<String>, s: String)
    ensures
        arg_views(*final(v)) == arg_views(*old(v)).push(s@),
{
    v.push(s);
    proof {
        assert(arg_views(*v) =~= arg_views(*old(v)).push(s@));
    }
}

/// The arguments of a throwaway probe encode: a tiny generated colour
/// pattern pushed through the candidate encoder and discarded.
pub open spec fn spec_probe_args(encoder: Seq<char>) -> Seq<Seq<char>> {
    seq![
        "-f"@,
        "lavfi"@,
        "-i"@,
        "color=s=64x64:d=0.1"@,
        "-c:v"@,
        encoder,
        "-f"@,
        "null"@,
        "-"@,
    ]
}

/// Builds the probe invocation for the encoder named `encoder`.
pub fn build_probe_args(encoder: &str) -> (v: Vec<String>)
    ensures
        arg_views(v) == spec_probe_args(encoder@),
{
    let mut v: Vec<String> = Vec::new();
    push_arg(&mut v, "-f");
    push_arg(&mut v, "lavfi");
    push_arg(&mut v, "-i");
    push_arg(&mut v, "color=s=64x64:d=0.1");
    push_arg(&mut v, "-c:v");
    push_arg(&mut v, encoder);
    push_arg(&mut v, "-f");
    push_arg(&mut v, "null");
    push_arg(&mut v, "-");
    proof {
        assert(arg_views(v) =~= spec_probe_args(encoder@));
    }
    v
}

/// The hardware-acceleration arguments that precede `-i`.
pub open spec fn spec_prefix_args(g: Group, hw: Option<HwEncoder>) -> Seq<Seq<char>> {
    if g == Group::H264 {
        match hw {
            Some(HwEncoder::Nvenc) => seq!["-hwaccel"@, "cuda"@],
            Some(HwEncoder::VideoToolbox) => seq!["-hwaccel"@, "videotoolbox"@],
            Some(HwEncoder::Amf) => seq!["-hwaccel"@, "auto"@],
            Some(HwEncoder::Qsv) => seq!["-hwaccel"@, "auto"@],
            None => Seq::empty(),
        }
    } else {
        Seq::empty()
    }
}

/// The video encoder the invocation selects.
pub open spec fn spec_video_encoder(g: Group, hw: Option<HwEncoder>) -> Seq<char> {
    match g {
        Group::H264 => match hw {
            Some(e) => spec_encoder_name(e),
            None => "libx264"@,
        },
        Group::Webm => "libvpx-vp9"@,
        Group::Ogg => "libtheora"@,
        Group::Gif => "libx264"@,
        Group::Other => "libx264"@,
    }
}

/// The audio codec the invocation selects.
pub open spec fn spec_audio_codec(g: Group) -> Seq<char> {
    match g {
        Group::Webm => "libopus"@,
        Group::Ogg => "libvorbis"@,
        _ => "aac"@,
    }
}

/// The `-preset` value, for the encoders that take one.
pub open spec fn spec_preset_args(g: Group, hw: Option<HwEncoder>) -> Seq<Seq<char>> {
    if g == Group::Webm || g == Group::Ogg {
        Seq::empty()
    } else {
        match hw {
            Some(HwEncoder::Nvenc) => if g == Group::H264 {
                seq!["-preset"@, "p4"@]
            } else {
                seq!["-preset"@, "medium"@]
            },
            Some(HwEncoder::VideoToolbox) => if g == Group::H264 {
                Seq::empty()
            } else {
                seq!["-preset"@, "medium"@]
            },
            _ => seq!["-preset"@, "medium"@],
        }
    }
}

/// Extra quality arguments owed to the selected encoder.
pub open spec fn spec_extra_args(g: Group, hw: Option<HwEncoder>) -> Seq<Seq<char>> {
    match g {
        Group::Webm => seq!["-b:v"@, "0"@, "-crf"@, "30"@],
        Group::Ogg => seq!["-q:v"@, "6"@],
        Group::H264 => match hw {
            Some(HwEncoder::VideoToolbox) => seq!["-q:v"@, "55"@],
            Some(HwEncoder::Amf) => seq!["-usage"@, "transcoding"@],
            Some(HwEncoder::Qsv) => seq!["-global_quality"@, "25"@],
            _ => Seq::empty(),
        },
        _ => Seq::empty(),
    }
}

/// The fixed filter chain of the animated-image path.
pub open spec fn spec_gif_args(input: Seq<char>, output: Seq<char>) -> Seq<Seq<char>> {
    seq!["-i"@, input, "-vf"@, "fps=15,scale=480:-1:flags=lanczos"@, "-y"@, output]
}

/// The full argument list of a video invocation: hardware prefix, input,
/// video encoder, preset, quality arguments, audio codec, and the
/// overwritten output. A GIF output takes its own fixed list.
pub open spec fn spec_video_args(
    input: Seq<char>,
    output: Seq<char>,
    g: Group,
    hw: Option<HwEncoder>,
) -> Seq<Seq<char>> {
    if g == Group::Gif {
        spec_gif_args(input, output)
    } else {
        spec_prefix_args(g, hw) + seq!["-i"@, input, "-c:v"@, spec_video_encoder(g, hw)]
            + spec_preset_args(g, hw) + spec_extra_args(g, hw)
            + seq!["-c:a"@, spec_audio_codec(g), "-y"@, output]
    }
}

/// Builds the video invocation for the given routing decision.
pub fn build_video_args(input: &str, output: &str, g: Group, hw: Option<HwEncoder>) -> (v: Vec<
    String,
>)
    ensures
        arg_views(v) == spec_video_args(input@, output@, g, hw),
{
    let mut v: Vec<String> = Vec::new();
    if g == Group::Gif {
        push_arg(&mut v, "-i");
        push_arg(&mut v, input);
        push_arg(&mut v, "-vf");
        push_arg(&mut v, "fps=15,scale=480:-1:flags=lanczos");
        push_arg(&mut v, "-y");
        push_arg(&mut v, output);
        proof {
            assert(arg_views(v) =~= spec_video_args(input@, output@, g, hw));
        }
        return v;
    }
    if g == Group::H264 {
        match hw {
            Some(HwEncoder::Nvenc) => {
                push_arg(&mut v, "-hwaccel");
                push_arg(&mut v, "cuda");
            },
            Some(HwEncoder::VideoToolbox) => {
                push_arg(&mut v, "-hwaccel");
                push_arg(&mut v, "videotoolbox");
            },
            Some(HwEncoder::Amf) => {
                push_arg(&mut v, "-hwaccel");
                push_arg(&mut v, "auto");
            },
            Some(HwEncoder::Qsv) => {
                push_arg(&mut v, "-hwaccel");
                push_arg(&mut v, "auto");
            },
            None => {},
        }
    }
    push_arg(&mut v, "-i");
    push_arg(&mut v, input);
    push_arg(&mut v, "-c:v");
    if g == Group::H264 {
        match hw {
            Some(e) => push_arg_string(&mut v, encoder_name(e)),
            None => push_arg(&mut v, "libx264"),
        }
    } else if g == Group::Webm {
        push_arg(&mut v, "libvpx-vp9");
    } else if g == Group::Ogg {
        push_arg(&mut v, "libtheora");
    } else {
        push_arg(&mut v, "libx264");
    }
    if g == Group::Webm || g == Group::Ogg {
        // no preset for these software encoders
    } else {
        match hw {
            Some(HwEncoder::Nvenc) => {
                if g == Group::H264 {
                    push_arg(&mut v, "-preset");
                    push_arg(&mut v, "p4");
                } else {
                    push_arg(&mut v, "-preset");
                    push_arg(&mut v, "medium");
                }
            },
            Some(HwEncoder::VideoToolbox) => {
                if g != Group::H264 {
                    push_arg(&mut v, "-preset");
                    push_arg(&mut v, "medium");
                }
            },
            _ => {
                push_arg(&mut v, "-preset");
                push_arg(&mut v, "medium");
            },
        }
    }
    if g == Group::Webm {
        push_arg(&mut v, "-b:v");
        push_arg(&mut v, "0");
        push_arg(&mut v, "-crf");
        push_arg(&mut v, "30");
    } else if g == Group::Ogg {
        push_arg(&mut v, "-q:v");
        push_arg(&mut v, "6");
    } else if g == Group::H264 {
        match hw {
            Some(HwEncoder::VideoToolbox) => {
                push_arg(&mut v, "-q:v");
                push_arg(&mut v, "55");
            },
            Some(HwEncoder::Amf) => {
                push_arg(&mut v, "-usage");
                push_arg(&mut v, "transcoding");
            },
            Some(HwEncoder::Qsv) => {
                push_arg(&mut v, "-global_quality");
                push_arg(&mut v, "25");
            },
            _ => {},
        }
    }
    push_arg(&mut v, "-c:a");
    if g == Group::Webm {
        push_arg(&mut v, "libopus");
    } else if g == Group::Ogg {
        push_arg(&mut v, "libvorbis");
    } else {
        push_arg(&mut v, "aac");
    }
    push_arg(&mut v, "-y");
    push_arg(&mut v, output);
    proof {
        assert(arg_views(v) =~= spec_video_args(input@, output@, g, hw));
    }
    v
}

/// Whether an image request asks for scaling: a width of `"0"` or an
/// empty width means the picture keeps its size.
pub open spec fn spec_scaling_requested(w: Seq<char>) -> bool {
    w != "0"@ && w.len() > 0
}

/// The scale filter for an image request: a height of `"0"` or an empty
/// height becomes `-1`, which preserves the aspect ratio.
pub open spec fn spec_scale_filter(w: Seq<char>, h: Seq<char>) -> Seq<char> {
    let hh = if h.len() == 0 || h == "0"@ {
        "-1"@
    } else {
        h
    };
    "scale="@ + w + ":"@ + hh
}

/// The full argument list of an image invocation: the input, the scale
/// filter when scaling was asked for, and the overwritten output.
pub open spec fn spec_image_args(
    input: Seq<char>,
    output: Seq<char>,
    w: Seq<char>,
    h: Seq<char>,
) -> Seq<Seq<char>> {
    if spec_scaling_requested(w) {
        seq!["-i"@, input, "-vf"@, spec_scale_filter(w, h), "-y"@, output]
    } else {
        seq!["-i"@, input, "-y"@, output]
    }
}

/// Builds the image invocation for the given request.
pub fn build_image_args(input: &str, output: &str, width: &str, height: &str) -> (v: Vec<String>)
    ensures
        arg_views(v) == spec_image_args(input@, output@, width@, height@),
{
    let mut v: Vec<String> = Vec::new();
    push_arg(&mut v, "-i");
    push_arg(&mut v, input);
    if !crate::strutil::str_eq(width, "0") && !width.is_empty() {
        let mut filter: String = "scale=".to_owned();
        filter.append(width);
        filter.append(":");
        if height.is_empty() || crate::strutil::str_eq(height, "0") {
            filter.append("-1");
        } else {
            filter.append(height);
        }
        proof {
            assert(filter@ =~= spec_scale_filter(width@, height@));
        }
        push_arg(&mut v, "-vf");
        push_arg_string(&mut v, filter);
    }
    push_arg(&mut v, "-y");
    push_arg(&mut v, output);
    proof {
        assert(arg_views(v) =~= spec_image_args(input@, output@, width@, height@));
    }
    v
}

/// The program that sweeps away every running `ffmpeg` process.
pub open spec fn spec_kill_program(windows: bool) -> Seq<char> {
    if windows {
        "taskkill"@
    } else {
        "pkill"@
    }
}

/// The arguments of the sweep: forceful, by process name, and on
/// Windows the children too.
pub open spec fn spec_kill_args(windows: bool) -> Seq<Seq<char>> {
    if windows {
        seq!["/F"@, "/IM"@, "ffmpeg*"@, "/T"@]
    } else {
        seq!["-f"@, "ffmpeg"@]
    }
}

/// Builds the best-effort cleanup command that terminates every process
/// matching the external binary's name.
pub fn build_kill_command(windows: bool) -> (r: (String, Vec<String>))
    ensures
        r.0@ == spec_kill_program(windows),
        arg_views(r.1) == spec_kill_args(windows),
{
    let mut v: Vec<String> = Vec::new();
    if windows {
        push_arg(&mut v, "/F");
        push_arg(&mut v, "/IM");
        push_arg(&mut v, "ffmpeg*");
        push_arg(&mut v, "/T");
        proof {
            assert(arg_views(v) =~= spec_kill_args(windows));
        }
        ("taskkill".to_owned(), v)
    } else {
        push_arg(&mut v, "-f");
        push_arg(&mut v, "ffmpeg");
        proof {
            assert(arg_views(v) =~= spec_kill_args(windows));
        }
        ("pkill".to_owned(), v)
    }
}

/// With no hardware encoder selected — none requested, or every probe
/// failed — each container group takes its documented software
/// defaults: `libx264`/`aac` with preset `medium` for the H.264 group
/// and for unknown containers, `libvpx-vp9`/`libopus` for WebM, and
/// `libtheora`/`libvorbis` for Ogg.
pub proof fn lemma_software_defaults(input: Seq<char>, output: Seq<char>, g: Group)
    ensures
        g == Group::H264 || g == Group::Other ==> spec_video_args(input, output, g, None) == seq![
            "-i"@,
            input,
            "-c:v"@,
            "libx264"@,
            "-preset"@,
            "medium"@,
            "-c:a"@,
            "aac"@,
            "-y"@,
            output,
        ],
        g == Group::Webm ==> spec_video_args(input, output, g, None) == seq![
            "-i"@,
            input,
            "-c:v"@,
            "libvpx-vp9"@,
            "-b:v"@,
            "0"@,
            "-crf"@,
            "30"@,
            "-c:a"@,
            "libopus"@,
            "-y"@,
            output,
        ],
        g == Group::Ogg ==> spec_video_args(input, output, g, None) == seq![
            "-i"@,
            input,
            "-c:v"@,
            "libtheora"@,
            "-q:v"@,
            "6"@,
            "-c:a"@,
            "libvorbis"@,
            "-y"@,
            output,
        ],
{
    if g == Group::H264 || g == Group::Other {
        assert(spec_video_args(input, output, g, None) =~= seq![
            "-i"@,
            input,
            "-c:v"@,
            "libx264"@,
            "-preset"@,
            "medium"@,
            "-c:a"@,
            "aac"@,
            "-y"@,
            output,
        ]);
    }
    if g == Group::Webm {
        assert(spec_video_args(input, output, g, None) =~= seq![
            "-i"@,
            input,
            "-c:v"@,
            "libvpx-vp9"@,
            "-b:v"@,
            "0"@,
            "-crf"@,
            "30"@,
            "-c:a"@,
            "libopus"@,
            "-y"@,
            output,
        ]);
    }
    if g == Group::Ogg {
        assert(spec_video_args(input, output, g, None) =~= seq![
            "-i"@,
            input,
            "-c:v"@,
            "libtheora"@,
            "-q:v"@,
            "6"@,
            "-c:a"@,
            "libvorbis"@,
            "-y"@,
            output,
        ]);
    }
}

/// A request whose width is `"0"` or empty never carries a scale
/// filter: its arguments are exactly input and output.
pub proof fn lemma_no_scaling(input: Seq<char>, output: Seq<char>, w: Seq<char>, h: Seq<char>)
    requires
        w == "0"@ || w.len() == 0,
    ensures
        spec_image_args(input, output, w, h) == seq!["-i"@, input, "-y"@, output],
{
}

} // verus!
