use book_import::tool::classify_tool_output;

#[test]
fn stdout_text_is_the_result() {
    let r = classify_tool_output(b"<ttFont/>".to_vec(), Vec::new());
    assert_eq!(r, Ok(String::from("<ttFont/>")));
}

#[test]
fn stdout_wins_even_with_stderr_noise() {
    let r = classify_tool_output(b"<ttFont/>".to_vec(), b"warning: something".to_vec());
    assert_eq!(r, Ok(String::from("<ttFont/>")));
}

#[test]
fn invalid_stdout_is_decoded_leniently() {
    let r = classify_tool_output(vec![0xff], Vec::new());
    assert_eq!(r, Ok(String::from("\u{FFFD}")));
}

#[test]
fn stderr_alone_is_the_tool_error() {
    let r = classify_tool_output(Vec::new(), b"no such font".to_vec());
    assert_eq!(r, Err(String::from("no such font")));
}

#[test]
fn invalid_stderr_reports_the_decoding_error() {
    let r = classify_tool_output(Vec::new(), vec![0xff]);
    let msg = r.unwrap_err();
    assert!(msg.contains("invalid utf-8"));
}

#[test]
fn no_output_at_all_is_an_error() {
    let r = classify_tool_output(Vec::new(), Vec::new());
    assert_eq!(r, Err(String::from("ttx produced no output..??")));
}
