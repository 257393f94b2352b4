use deno_rider::script::{apply_reply_script, parse_runtime_id, runtime_id_script};

#[test]
fn runtime_id_script_of_zero() {
    assert_eq!(runtime_id_script(0), "DenoRider._runtimeId = \"0\"");
}

#[test]
fn runtime_id_script_of_a_single_digit() {
    assert_eq!(runtime_id_script(7), "DenoRider._runtimeId = \"7\"");
}

#[test]
fn runtime_id_script_of_several_digits() {
    assert_eq!(runtime_id_script(1203), "DenoRider._runtimeId = \"1203\"");
}

#[test]
fn runtime_id_script_of_the_largest_id() {
    let expected = format!("DenoRider._runtimeId = \"{}\"", usize::MAX);
    assert_eq!(runtime_id_script(usize::MAX), expected);
}

#[test]
fn apply_reply_script_resolves_with_an_ok() {
    let script = apply_reply_script("7", &Ok(String::from("{\"a\":1}")));
    assert_eq!(script, "DenoRider._applications[\"7\"].resolve({\"a\":1})");
}

#[test]
fn apply_reply_script_rejects_with_an_err() {
    let script = apply_reply_script("abc", &Err(String::from("\"no\"")));
    assert_eq!(script, "DenoRider._applications[\"abc\"].reject(\"no\")");
}

#[test]
fn apply_reply_script_keeps_texts_as_they_are() {
    let script = apply_reply_script("", &Ok(String::new()));
    assert_eq!(script, "DenoRider._applications[\"\"].resolve()");
}

#[test]
fn parse_reads_decimal_digits() {
    assert_eq!(parse_runtime_id("0"), Some(0));
    assert_eq!(parse_runtime_id("5"), Some(5));
    assert_eq!(parse_runtime_id("42"), Some(42));
    assert_eq!(parse_runtime_id("1203"), Some(1203));
}

#[test]
fn parse_takes_leading_zeros_and_a_plus() {
    assert_eq!(parse_runtime_id("007"), Some(7));
    assert_eq!(parse_runtime_id("+7"), Some(7));
    assert_eq!(parse_runtime_id("+0"), Some(0));
}

#[test]
fn parse_refuses_what_is_no_id() {
    assert_eq!(parse_runtime_id(""), None);
    assert_eq!(parse_runtime_id("+"), None);
    assert_eq!(parse_runtime_id("-1"), None);
    assert_eq!(parse_runtime_id("++1"), None);
    assert_eq!(parse_runtime_id("1+"), None);
    assert_eq!(parse_runtime_id(" 1"), None);
    assert_eq!(parse_runtime_id("1 "), None);
    assert_eq!(parse_runtime_id("12a"), None);
    assert_eq!(parse_runtime_id("a12"), None);
    assert_eq!(parse_runtime_id("1.5"), None);
    assert_eq!(parse_runtime_id("0x10"), None);
    assert_eq!(parse_runtime_id("\u{663}"), None);
    assert_eq!(parse_runtime_id("1\u{e9}"), None);
}

#[test]
fn parse_reads_the_largest_id_and_nothing_above() {
    let largest = format!("{}", usize::MAX);
    assert_eq!(parse_runtime_id(&largest), Some(usize::MAX));
    let mut above = format!("{}", usize::MAX);
    above.push('0');
    assert_eq!(parse_runtime_id(&above), None);
    assert_eq!(parse_runtime_id("99999999999999999999999999999999999999999999"), None);
    if usize::MAX as u128 == u64::MAX as u128 {
        assert_eq!(parse_runtime_id("18446744073709551615"), Some(usize::MAX));
        assert_eq!(parse_runtime_id("18446744073709551616"), None);
        assert_eq!(parse_runtime_id("18446744073709551620"), None);
    }
}

#[test]
fn parse_agrees_with_the_standard_library() {
    let texts = [
        "", "+", "-", "0", "+0", "-0", "1", "+1", "01", "10", "123456789", "9999999999",
        "18446744073709551615", "18446744073709551616", "1_000", "1e3", "٣", "1 2", "+-1",
    ];
    for text in texts {
        assert_eq!(parse_runtime_id(text), text.parse::<usize>().ok(), "{:?}", text);
    }
}

#[test]
fn an_id_that_was_written_is_read_back() {
    for id in [0usize, 1, 9, 10, 11, 99, 100, 101, 65535, 4294967295, usize::MAX - 1, usize::MAX] {
        let script = runtime_id_script(id);
        let text = script
            .strip_prefix("DenoRider._runtimeId = \"")
            .and_then(|rest| rest.strip_suffix("\""))
            .expect("the script has its frame");
        assert_eq!(text, id.to_string());
        assert_eq!(parse_runtime_id(text), Some(id));
    }
}
