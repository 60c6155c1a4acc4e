use webrtc_sendrecv::wire::JsonMsg;

fn sdp(type_: &str, sdp: &str) -> String {
    JsonMsg::Sdp {
        type_: type_.to_string(),
        sdp: sdp.to_string(),
    }
    .to_text()
}

fn ice(candidate: &str, sdp_mline_index: u32) -> String {
    JsonMsg::Ice {
        candidate: candidate.to_string(),
        sdp_mline_index,
    }
    .to_text()
}

#[test]
fn session_descriptions_are_written_with_their_type_first() {
    assert_eq!(
        sdp("offer", "v=0"),
        "{\"sdp\":{\"type\":\"offer\",\"sdp\":\"v=0\"}}"
    );
    assert_eq!(
        sdp("answer", "v=0\r\ns=-\r\n"),
        "{\"sdp\":{\"type\":\"answer\",\"sdp\":\"v=0\\r\\ns=-\\r\\n\"}}"
    );
}

#[test]
fn candidates_are_written_with_the_index_last() {
    assert_eq!(
        ice("candidate:1 1 UDP 2013266431 10.0.0.1 9 typ host", 1),
        "{\"ice\":{\"candidate\":\"candidate:1 1 UDP 2013266431 10.0.0.1 9 typ host\",\"sdpMLineIndex\":1}}"
    );
    assert_eq!(
        ice("", u32::MAX),
        "{\"ice\":{\"candidate\":\"\",\"sdpMLineIndex\":4294967295}}"
    );
}

#[test]
fn special_characters_are_escaped() {
    let all_controls: String = (0u8..32).map(char::from).collect();
    assert_eq!(
        sdp("", &all_controls),
        concat_lines(&[
            "{\"sdp\":{\"type\":\"\",\"sdp\":\"",
            "\\u0000\\u0001\\u0002\\u0003\\u0004\\u0005\\u0006\\u0007",
            "\\b\\t\\n\\u000b\\f\\r\\u000e\\u000f",
            "\\u0010\\u0011\\u0012\\u0013\\u0014\\u0015\\u0016\\u0017",
            "\\u0018\\u0019\\u001a\\u001b\\u001c\\u001d\\u001e\\u001f",
            "\"}}",
        ])
    );
    assert_eq!(
        sdp("a\"b\\c/d", "\u{7f}\u{e9}\u{1f600}"),
        "{\"sdp\":{\"type\":\"a\\\"b\\\\c/d\",\"sdp\":\"\u{7f}\u{e9}\u{1f600}\"}}"
    );
}

fn concat_lines(lines: &[&str]) -> String {
    lines.concat()
}

#[test]
fn what_is_written_is_json_with_the_same_contents() {
    let text = "quote \" backslash \\ newline \n bell \u{7} \u{2028} end";
    let parsed: serde_json::Value = serde_json::from_str(&sdp("offer", text)).unwrap();
    assert_eq!(parsed["sdp"]["type"].as_str(), Some("offer"));
    assert_eq!(parsed["sdp"]["sdp"].as_str(), Some(text));
    assert_eq!(parsed.as_object().unwrap().len(), 1);
    assert_eq!(parsed["sdp"].as_object().unwrap().len(), 2);
    let parsed: serde_json::Value = serde_json::from_str(&ice(text, 3)).unwrap();
    assert_eq!(parsed["ice"]["candidate"].as_str(), Some(text));
    assert_eq!(parsed["ice"]["sdpMLineIndex"].as_u64(), Some(3));
    assert_eq!(parsed.as_object().unwrap().len(), 1);
    assert_eq!(parsed["ice"].as_object().unwrap().len(), 2);
}

#[test]
fn different_messages_are_written_differently() {
    let texts = vec![
        sdp("offer", "a"),
        sdp("answer", "a"),
        sdp("offer", "a\"}}"),
        sdp("offer\",\"sdp\":\"a", ""),
        sdp("", "offer"),
        ice("a", 0),
        ice("a", 10),
        ice("a\",\"sdpMLineIndex\":1", 0),
        ice("", 0),
    ];
    for (i, a) in texts.iter().enumerate() {
        for (j, b) in texts.iter().enumerate() {
            assert_eq!(i == j, a == b);
        }
    }
}
