use prompt_gateway::error::GatewayError;
use prompt_gateway::gateway::extract_content;
use prompt_gateway::gateway::finalize_content;
use prompt_gateway::gateway::prepare_request;
use prompt_gateway::render::render_prompt;
use prompt_gateway::request::build_request_body;
use prompt_gateway::text::str_eq;
use prompt_gateway::text::trim_str;
use prompt_gateway::turn::Turn;

fn turn(role: &str, content: &str) -> Turn {
    Turn { role: Some(role.to_string()), content: Some(content.to_string()) }
}

#[test]
fn empty_history_renders_prompt_and_cue() {
    let r = render_prompt("Hi", &vec![]);
    assert_eq!(r, "User: Hi\nAssistant:");
}

#[test]
fn empty_prompt_still_gets_user_line_and_cue() {
    let r = render_prompt("", &vec![]);
    assert_eq!(r, "User: \nAssistant:");
}

#[test]
fn two_turn_history_renders_in_order() {
    let h = vec![turn("user", "A"), turn("assistant", "B")];
    let r = render_prompt("C", &h);
    assert_eq!(r, "User: A\nAssistant: B\nUser: C\nAssistant:");
}

#[test]
fn one_line_per_valid_turn_in_order() {
    let h = vec![
        turn("user", "first"),
        turn("assistant", "second"),
        turn("user", "third"),
        turn("assistant", "fourth"),
    ];
    let r = render_prompt("fifth", &h);
    assert_eq!(
        r,
        "User: first\nAssistant: second\nUser: third\nAssistant: fourth\nUser: fifth\nAssistant:"
    );
    assert!(!r.ends_with('\n'));
    assert!(r.ends_with("Assistant:"));
}

#[test]
fn invalid_turns_contribute_nothing() {
    let h = vec![
        Turn { role: None, content: Some("no role".to_string()) },
        Turn { role: Some("user".to_string()), content: None },
        Turn { role: None, content: None },
        turn("system", "unrecognized role"),
        turn("user", "kept"),
    ];
    let r = render_prompt("Q", &h);
    assert_eq!(r, "User: kept\nUser: Q\nAssistant:");
}

#[test]
fn content_field_is_trimmed() {
    let r = extract_content("{\"content\": \"  hello  \"}").unwrap();
    assert_eq!(r, "hello");
}

#[test]
fn missing_content_is_empty_not_error() {
    let r = extract_content("{}").unwrap();
    assert_eq!(r, "");
}

#[test]
fn non_string_content_is_empty_not_error() {
    let r = extract_content("{\"content\": 5}").unwrap();
    assert_eq!(r, "");
}

#[test]
fn invalid_json_is_a_decode_error() {
    let e = extract_content("not json").unwrap_err();
    assert!(matches!(e, GatewayError::Decode(_)));
    assert!(e.message().starts_with("JSON parse error: "));
}

#[test]
fn transport_error_message_has_http_prefix() {
    let e = GatewayError::Transport("connection refused".to_string());
    assert_eq!(e.message(), "HTTP error: connection refused");
}

#[test]
fn request_body_is_valid_json_with_fixed_parameters() {
    let body = build_request_body("User: Hi\nAssistant:");
    let v: serde_json::Value = serde_json::from_str(&body).unwrap();
    assert_eq!(v.get("prompt").unwrap().as_str().unwrap(), "User: Hi\nAssistant:");
    assert_eq!(v.get("n_predict").unwrap().as_i64().unwrap(), 512);
    assert_eq!(v.get("temperature").unwrap().as_f64().unwrap(), 0.7);
    assert_eq!(v.get("top_p").unwrap().as_f64().unwrap(), 0.9);
    let stop: Vec<&str> = v
        .get("stop")
        .unwrap()
        .as_array()
        .unwrap()
        .iter()
        .map(|s| s.as_str().unwrap())
        .collect();
    assert_eq!(stop, vec!["User:", "\n\n"]);
}

#[test]
fn escaping_round_trips_through_serde() {
    let nasty = "quote \" backslash \\ newline \n tab \t return \r ctrl \u{1} end";
    let body = build_request_body(nasty);
    let v: serde_json::Value = serde_json::from_str(&body).unwrap();
    assert_eq!(v.get("prompt").unwrap().as_str().unwrap(), nasty);
}

#[test]
fn prepare_request_carries_the_rendered_prompt() {
    let h = vec![turn("user", "A")];
    let body = prepare_request("B", &h);
    let v: serde_json::Value = serde_json::from_str(&body).unwrap();
    assert_eq!(v.get("prompt").unwrap().as_str().unwrap(), "User: A\nUser: B\nAssistant:");
}

#[test]
fn content_is_extracted_not_invented() {
    let r = extract_content("{\"other\":\"x\",\"content\":\"hello world\"}").unwrap();
    assert_eq!(r, "hello world");
    let r = extract_content("{\"content\":\"a\\nb\"}").unwrap();
    assert_eq!(r, "a\nb");
}

#[test]
fn trim_matches_the_standard_library() {
    let samples = [
        "",
        "   ",
        " a ",
        "\u{3000}x\u{a0}",
        "\t\nabc\r\n",
        "a b",
        "  hello  ",
        "\u{2028}mixed\u{205f}\u{1680}",
    ];
    for s in samples {
        assert_eq!(trim_str(s), s.trim(), "trim differs on {:?}", s);
    }
}

#[test]
fn finalize_content_defaults_and_trims() {
    assert_eq!(finalize_content(Some("  x  ".to_string())), "x");
    assert_eq!(finalize_content(Some("\t\n".to_string())), "");
    assert_eq!(finalize_content(None), "");
}

#[test]
fn str_eq_is_character_exact() {
    assert!(str_eq("user", "user"));
    assert!(!str_eq("user", "User"));
    assert!(!str_eq("user", "users"));
    assert!(str_eq("", ""));
}
