use ffplan::numfmt::{i32_to_string, u32_to_string};
use ffplan::outcome::{gif_terminated, Relay};

#[test]
fn zero_exit_is_success() {
    let relay = Relay::new();
    assert_eq!(relay.on_terminated(Some(0)), Ok(()));
}

#[test]
fn missing_exit_code_is_success() {
    let relay = Relay::new();
    assert_eq!(relay.on_terminated(None), Ok(()));
}

#[test]
fn nonzero_exit_quotes_code_and_default_line() {
    let relay = Relay::new();
    assert_eq!(
        relay.on_terminated(Some(1)),
        Err("FFmpeg Stopped/Crashed (Code 1): Unknown FFmpeg Error".to_string())
    );
}

#[test]
fn nonzero_exit_quotes_last_line() {
    let mut relay = Relay::new();
    relay.on_stderr("frame=  10 fps=0.0");
    relay.on_stderr("Conversion failed!");
    assert_eq!(
        relay.on_terminated(Some(187)),
        Err("FFmpeg Stopped/Crashed (Code 187): Conversion failed!".to_string())
    );
}

#[test]
fn negative_exit_code() {
    let relay = Relay::new();
    assert_eq!(
        relay.on_terminated(Some(-9)),
        Err("FFmpeg Stopped/Crashed (Code -9): Unknown FFmpeg Error".to_string())
    );
}

#[test]
fn gif_zero_exit_is_success() {
    assert_eq!(gif_terminated(Some(0)), Ok(()));
    assert_eq!(gif_terminated(None), Ok(()));
}

#[test]
fn gif_nonzero_exit_quotes_code() {
    assert_eq!(
        gif_terminated(Some(2)),
        Err("GIF conversion failed with exit code: 2".to_string())
    );
}

#[test]
fn relay_tracks_last_line() {
    let mut relay = Relay::new();
    assert_eq!(relay.last_line, "Unknown FFmpeg Error");
    relay.on_stderr("first");
    assert_eq!(relay.last_line, "first");
    relay.on_stderr("second");
    assert_eq!(relay.last_line, "second");
}

#[test]
fn unsigned_decimal_formatting() {
    assert_eq!(u32_to_string(0), "0");
    assert_eq!(u32_to_string(7), "7");
    assert_eq!(u32_to_string(10), "10");
    assert_eq!(u32_to_string(4294967295), "4294967295");
}

#[test]
fn signed_decimal_formatting() {
    assert_eq!(i32_to_string(0), "0");
    assert_eq!(i32_to_string(42), "42");
    assert_eq!(i32_to_string(-1), "-1");
    assert_eq!(i32_to_string(2147483647), "2147483647");
    assert_eq!(i32_to_string(-2147483648), "-2147483648");
}
