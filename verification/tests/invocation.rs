use ffplan::args::{build_image_args, build_kill_command, build_probe_args, build_video_args};
use ffplan::pipeline::start_image;
use ffplan::plan::{Group, HwEncoder};

#[test]
fn probe_invocation() {
    let v = build_probe_args("h264_nvenc");
    assert_eq!(
        v,
        ["-f", "lavfi", "-i", "color=s=64x64:d=0.1", "-c:v", "h264_nvenc", "-f", "null", "-"]
    );
}

#[test]
fn software_video_invocation() {
    let v = build_video_args("in.mp4", "out.mp4", Group::H264, None);
    assert_eq!(
        v,
        ["-i", "in.mp4", "-c:v", "libx264", "-preset", "medium", "-c:a", "aac", "-y", "out.mp4"]
    );
}

#[test]
fn unknown_container_uses_software_defaults() {
    let v = build_video_args("in.avi", "out.xyz", Group::Other, None);
    assert_eq!(
        v,
        ["-i", "in.avi", "-c:v", "libx264", "-preset", "medium", "-c:a", "aac", "-y", "out.xyz"]
    );
}

#[test]
fn nvenc_video_invocation() {
    let v = build_video_args("in.mp4", "out.mp4", Group::H264, Some(HwEncoder::Nvenc));
    assert_eq!(
        v,
        [
            "-hwaccel", "cuda", "-i", "in.mp4", "-c:v", "h264_nvenc", "-preset", "p4", "-c:a",
            "aac", "-y", "out.mp4"
        ]
    );
}

#[test]
fn videotoolbox_invocation_has_no_preset() {
    let v = build_video_args("in.mov", "out.mov", Group::H264, Some(HwEncoder::VideoToolbox));
    assert_eq!(
        v,
        [
            "-hwaccel",
            "videotoolbox",
            "-i",
            "in.mov",
            "-c:v",
            "h264_videotoolbox",
            "-q:v",
            "55",
            "-c:a",
            "aac",
            "-y",
            "out.mov"
        ]
    );
}

#[test]
fn amf_invocation() {
    let v = build_video_args("a.mkv", "b.mkv", Group::H264, Some(HwEncoder::Amf));
    assert_eq!(
        v,
        [
            "-hwaccel", "auto", "-i", "a.mkv", "-c:v", "h264_amf", "-preset", "medium", "-usage",
            "transcoding", "-c:a", "aac", "-y", "b.mkv"
        ]
    );
}

#[test]
fn qsv_invocation() {
    let v = build_video_args("a.ts", "b.ts", Group::H264, Some(HwEncoder::Qsv));
    assert_eq!(
        v,
        [
            "-hwaccel",
            "auto",
            "-i",
            "a.ts",
            "-c:v",
            "h264_qsv",
            "-preset",
            "medium",
            "-global_quality",
            "25",
            "-c:a",
            "aac",
            "-y",
            "b.ts"
        ]
    );
}

#[test]
fn webm_invocation() {
    let v = build_video_args("in.mp4", "out.webm", Group::Webm, None);
    assert_eq!(
        v,
        [
            "-i",
            "in.mp4",
            "-c:v",
            "libvpx-vp9",
            "-b:v",
            "0",
            "-crf",
            "30",
            "-c:a",
            "libopus",
            "-y",
            "out.webm"
        ]
    );
}

#[test]
fn ogg_invocation() {
    let v = build_video_args("in.mp4", "out.ogv", Group::Ogg, None);
    assert_eq!(
        v,
        [
            "-i", "in.mp4", "-c:v", "libtheora", "-q:v", "6", "-c:a", "libvorbis", "-y", "out.ogv"
        ]
    );
}

#[test]
fn gif_invocation_is_fixed() {
    let v = build_video_args("clip.mp4", "anim.gif", Group::Gif, None);
    assert_eq!(
        v,
        ["-i", "clip.mp4", "-vf", "fps=15,scale=480:-1:flags=lanczos", "-y", "anim.gif"]
    );
}

#[test]
fn image_invocation_with_both_sizes() {
    let v = build_image_args("p.png", "q.jpg", "800", "600");
    assert_eq!(v, ["-i", "p.png", "-vf", "scale=800:600", "-y", "q.jpg"]);
}

#[test]
fn image_invocation_keeps_aspect_without_height() {
    let v = build_image_args("p.png", "q.jpg", "800", "");
    assert_eq!(v, ["-i", "p.png", "-vf", "scale=800:-1", "-y", "q.jpg"]);
    let w = build_image_args("p.png", "q.jpg", "800", "0");
    assert_eq!(w, ["-i", "p.png", "-vf", "scale=800:-1", "-y", "q.jpg"]);
}

#[test]
fn image_invocation_zero_width_never_scales() {
    let v = build_image_args("p.png", "q.jpg", "0", "600");
    assert_eq!(v, ["-i", "p.png", "-y", "q.jpg"]);
    let w = build_image_args("p.png", "q.jpg", "", "600");
    assert_eq!(w, ["-i", "p.png", "-y", "q.jpg"]);
}

#[test]
fn image_entry_checks_input() {
    let r = start_image(false, "p.png", "q.jpg", "0", "0");
    assert_eq!(r, Err("Input file not found".to_string()));
    let ok = start_image(true, "p.png", "q.jpg", "0", "0");
    assert_eq!(ok, Ok(vec![
        "-i".to_string(),
        "p.png".to_string(),
        "-y".to_string(),
        "q.jpg".to_string(),
    ]));
}

#[test]
fn kill_command_on_windows() {
    let (prog, args) = build_kill_command(true);
    assert_eq!(prog, "taskkill");
    assert_eq!(args, ["/F", "/IM", "ffmpeg*", "/T"]);
}

#[test]
fn kill_command_elsewhere() {
    let (prog, args) = build_kill_command(false);
    assert_eq!(prog, "pkill");
    assert_eq!(args, ["-f", "ffmpeg"]);
}
