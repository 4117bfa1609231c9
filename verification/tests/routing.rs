use ffplan::pathname::output_extension;
use ffplan::pipeline::start_video;
use ffplan::plan::{classify_extension, encoder_name, probe_supported, Group, HwEncoder, HwSearch};

#[test]
fn extension_of_plain_file() {
    assert_eq!(output_extension("movie.mp4"), "mp4");
}

#[test]
fn extension_keeps_case() {
    assert_eq!(output_extension("clip.MP4"), "MP4");
}

#[test]
fn extension_of_nested_path() {
    assert_eq!(output_extension("/home/user/out.webm"), "webm");
}

#[test]
fn extension_of_windows_path() {
    assert_eq!(output_extension("C:\\media\\out.mkv"), "mkv");
}

#[test]
fn extension_takes_last_dot() {
    assert_eq!(output_extension("archive.tar.gz"), "gz");
}

#[test]
fn extension_of_dotfile_is_empty() {
    assert_eq!(output_extension(".gitignore"), "");
}

#[test]
fn extension_of_dotless_name_is_empty() {
    assert_eq!(output_extension("noext"), "");
}

#[test]
fn extension_ignores_dot_in_directory() {
    assert_eq!(output_extension("dir.v1/file"), "");
}

#[test]
fn extension_of_trailing_dot_is_empty_string() {
    assert_eq!(output_extension("foo."), "");
}

#[test]
fn classify_h264_group() {
    for ext in ["mp4", "mkv", "mov", "avi", "flv", "ts", "m4v", "wmv"] {
        assert_eq!(classify_extension(ext), Group::H264);
    }
}

#[test]
fn classify_is_case_insensitive() {
    assert_eq!(classify_extension("MP4"), Group::H264);
    assert_eq!(classify_extension("WebM"), Group::Webm);
    assert_eq!(classify_extension("GIF"), Group::Gif);
}

#[test]
fn classify_webm_ogg_gif() {
    assert_eq!(classify_extension("webm"), Group::Webm);
    assert_eq!(classify_extension("ogv"), Group::Ogg);
    assert_eq!(classify_extension("ogg"), Group::Ogg);
    assert_eq!(classify_extension("gif"), Group::Gif);
}

#[test]
fn classify_unknown_extension() {
    assert_eq!(classify_extension("xyz"), Group::Other);
    assert_eq!(classify_extension(""), Group::Other);
}

#[test]
fn encoder_names() {
    assert_eq!(encoder_name(HwEncoder::Nvenc), "h264_nvenc");
    assert_eq!(encoder_name(HwEncoder::VideoToolbox), "h264_videotoolbox");
    assert_eq!(encoder_name(HwEncoder::Amf), "h264_amf");
    assert_eq!(encoder_name(HwEncoder::Qsv), "h264_qsv");
}

#[test]
fn search_walks_priority_order() {
    let mut s = HwSearch::new(Group::H264, true);
    assert_eq!(s.current(), Some(HwEncoder::Nvenc));
    assert_eq!(s.step(false), None);
    assert_eq!(s.current(), Some(HwEncoder::VideoToolbox));
    assert_eq!(s.step(false), None);
    assert_eq!(s.current(), Some(HwEncoder::Amf));
    assert_eq!(s.step(false), None);
    assert_eq!(s.current(), Some(HwEncoder::Qsv));
    assert_eq!(s.step(false), None);
    assert_eq!(s.current(), None);
}

#[test]
fn search_stops_at_first_success() {
    let mut s = HwSearch::new(Group::H264, true);
    assert_eq!(s.current(), Some(HwEncoder::Nvenc));
    assert_eq!(s.step(false), None);
    assert_eq!(s.step(true), Some(HwEncoder::VideoToolbox));
}

#[test]
fn search_is_empty_without_auto_gpu() {
    let s = HwSearch::new(Group::H264, false);
    assert_eq!(s.current(), None);
}

#[test]
fn search_is_empty_for_software_groups() {
    assert_eq!(HwSearch::new(Group::Webm, true).current(), None);
    assert_eq!(HwSearch::new(Group::Ogg, true).current(), None);
    assert_eq!(HwSearch::new(Group::Other, true).current(), None);
}

#[test]
fn probe_failure_means_unavailable() {
    assert!(probe_supported(Some(true)));
    assert!(!probe_supported(Some(false)));
    assert!(!probe_supported(None));
}

#[test]
fn missing_input_fails_fast() {
    let r = start_video(false, "out.mp4");
    assert_eq!(r, Err("Input file not found".to_string()));
}

#[test]
fn present_input_routes_by_extension() {
    assert_eq!(start_video(true, "out.mp4"), Ok(Group::H264));
    assert_eq!(start_video(true, "out.ogv"), Ok(Group::Ogg));
    assert_eq!(start_video(true, "out"), Ok(Group::Other));
}
