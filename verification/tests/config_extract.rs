use neotoaster::config::{ArgCursor, InputFlag, OutputFlag, YololConfig};
use neotoaster::extract::{contains_backtick, extract_input};
use neotoaster::stages::{clamp_pc, timing_text};
use neotoaster::text::{parse_u32, split_lines, u128_to_dec};

fn b(s: &str) -> Vec<u8> {
    s.as_bytes().to_vec()
}

fn toks(list: &[&str]) -> Vec<Vec<u8>> {
    list.iter().map(|s| b(s)).collect()
}

#[test]
fn default_config_values() {
    let c = YololConfig::new();
    assert_eq!(c.input, InputFlag::Yolol);
    assert_eq!(c.output, OutputFlag::Execution);
    assert!(c.time_execution);
    assert_eq!(c.num_ticks, 1000);
}

#[test]
fn flags_of_every_category_apply_once() {
    let mut cursor = ArgCursor::new(toks(&["-ic", "-oy", "-nte", "--ticks", "20", "code"]));
    let c = YololConfig::parse_args(&mut cursor).unwrap();
    assert_eq!(c.input, InputFlag::CylonAst);
    assert_eq!(c.output, OutputFlag::Yolol);
    assert!(!c.time_execution);
    assert_eq!(c.num_ticks, 20);
    assert_eq!(cursor.pos, 5);
}

#[test]
fn later_output_flag_overrides_earlier() {
    let mut cursor = ArgCursor::new(toks(&["-oy", "--output=tokens", "x"]));
    let c = YololConfig::parse_args(&mut cursor).unwrap();
    assert_eq!(c.output, OutputFlag::Tokens);
}

#[test]
fn later_timing_flag_overrides_earlier() {
    let mut cursor = ArgCursor::new(toks(&["-nte", "-te", "x"]));
    let c = YololConfig::parse_args(&mut cursor).unwrap();
    assert!(c.time_execution);
}

#[test]
fn later_ticks_flag_overrides_earlier() {
    let mut cursor = ArgCursor::new(toks(&["--ticks", "7", "--ticks", "9", "x"]));
    let c = YololConfig::parse_args(&mut cursor).unwrap();
    assert_eq!(c.num_ticks, 9);
}

#[test]
fn ticks_not_numeric_is_error() {
    let mut cursor = ArgCursor::new(toks(&["--ticks", "abc", "x"]));
    let e = YololConfig::parse_args(&mut cursor).unwrap_err();
    assert_eq!(
        e,
        b("Ticks were not specified in a way that could be turned into a u32! Please give a real number")
    );
}

#[test]
fn ticks_missing_is_error() {
    let mut cursor = ArgCursor::new(toks(&["--ticks"]));
    let e = YololConfig::parse_args(&mut cursor).unwrap_err();
    assert_eq!(
        e,
        b("Number of ticks not specified after `--ticks` argument! Use it like `--ticks 20`, which would run 20 ticks")
    );
}

#[test]
fn ticks_overflow_is_error() {
    let mut cursor = ArgCursor::new(toks(&["--ticks", "4294967296", "x"]));
    assert!(YololConfig::parse_args(&mut cursor).is_err());
}

#[test]
fn ticks_max_value_is_accepted() {
    let mut cursor = ArgCursor::new(toks(&["--ticks", "4294967295", "x"]));
    let c = YololConfig::parse_args(&mut cursor).unwrap();
    assert_eq!(c.num_ticks, u32::MAX);
}

#[test]
fn empty_argument_stream_is_error() {
    let mut cursor = ArgCursor::new(Vec::new());
    let e = YololConfig::parse_args(&mut cursor).unwrap_err();
    assert_eq!(
        e,
        b("Unable to get an argument! Might not have supplied any args...")
    );
}

#[test]
fn flags_without_payload_are_an_error() {
    let mut cursor = ArgCursor::new(toks(&["-oy"]));
    assert!(YololConfig::parse_args(&mut cursor).is_err());
}

#[test]
fn parse_u32_accepts_plus_and_rejects_junk() {
    assert_eq!(parse_u32(b"+5"), Some(5));
    assert_eq!(parse_u32(b"0007"), Some(7));
    assert_eq!(parse_u32(b""), None);
    assert_eq!(parse_u32(b"+"), None);
    assert_eq!(parse_u32(b"12a"), None);
    assert_eq!(parse_u32(b"-3"), None);
    assert_eq!(parse_u32(b"4294967295"), Some(u32::MAX));
    assert_eq!(parse_u32(b"4294967296"), None);
}

#[test]
fn extract_empty_body() {
    assert_eq!(extract_input(b"```\n```").unwrap(), b(""));
}

#[test]
fn extract_single_line_body() {
    assert_eq!(extract_input(b"```\nabc```").unwrap(), b("abc"));
    assert_eq!(extract_input(b"```\nabc\n```").unwrap(), b("abc\n"));
}

#[test]
fn extract_multi_line_with_language_tag() {
    assert_eq!(
        extract_input(b"```yolol\na=1\nb=2\n```").unwrap(),
        b("a=1\nb=2\n")
    );
}

#[test]
fn extract_allows_leading_newlines() {
    assert_eq!(extract_input(b"\n\n```\nx```").unwrap(), b("x"));
}

#[test]
fn extract_rejects_text_without_fences() {
    let e = extract_input(b"just some text").unwrap_err();
    assert_eq!(
        e,
        b("Your supplied code isn't properly put into a code block. Be sure to surround it with triple backticks!")
    );
}

#[test]
fn extract_rejects_missing_closing_fence() {
    assert!(extract_input(b"```\nabc").is_err());
}

#[test]
fn extract_rejects_trailing_content() {
    assert!(extract_input(b"```\nabc``` more").is_err());
}

#[test]
fn extract_round_trips_wrapped_text() {
    let body = "x = 1\n  some text\n\nmore";
    let mut wrapped = b("```\n");
    wrapped.extend_from_slice(body.as_bytes());
    wrapped.extend_from_slice(b"```");
    assert_eq!(extract_input(&wrapped).unwrap(), b(body));
}

#[test]
fn backtick_scan_finds_backticks() {
    assert!(contains_backtick(b"a`b"));
    assert!(!contains_backtick(b"plain text"));
}

#[test]
fn split_lines_matches_std_lines() {
    for text in ["", "a", "a\n", "a\r\nb\n", "a\n\nb", "\n"] {
        let got = split_lines(text.as_bytes());
        let want: Vec<Vec<u8>> = text.lines().map(|l| l.as_bytes().to_vec()).collect();
        assert_eq!(got, want, "splitting {:?}", text);
    }
}

#[test]
fn decimal_rendering_is_exact() {
    assert_eq!(u128_to_dec(0), b("0"));
    assert_eq!(u128_to_dec(7), b("7"));
    assert_eq!(u128_to_dec(1234567890), b("1234567890"));
}

#[test]
fn timing_text_is_exact() {
    assert_eq!(
        timing_text(1, 2, 3, 4),
        b("1 nanoseconds, 2 microseconds, 3 milliseconds, 4 seconds")
    );
}

#[test]
fn program_counter_out_of_range_resets_to_one() {
    assert_eq!(clamp_pc(0, 3), 1);
    assert_eq!(clamp_pc(-5, 3), 1);
    assert_eq!(clamp_pc(4, 3), 1);
    assert_eq!(clamp_pc(i64::MAX, 3), 1);
}

#[test]
fn program_counter_in_range_is_kept() {
    assert_eq!(clamp_pc(1, 3), 1);
    assert_eq!(clamp_pc(2, 3), 2);
    assert_eq!(clamp_pc(3, 3), 3);
}
