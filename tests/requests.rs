use gitlab_duo::duo::{response_json, status_code, DuoRequest, DuoResponse, ResponseJson};
use gitlab_duo::extension::{GitLabDuoExtension, GitLabSettings};
use gitlab_duo::slash::{DuoCommand, FileContext, SlashCommandOutput};
use gitlab_duo::text::{parse_u16, push_decimal};

fn ext() -> GitLabDuoExtension {
    GitLabDuoExtension::new()
}

fn settings(token: Option<&str>) -> GitLabSettings {
    GitLabSettings { base_url: None, token: token.map(|t| t.to_string()) }
}

fn headers(v: &[(&str, &str)]) -> Vec<(String, String)> {
    v.iter().map(|(a, b)| (a.to_string(), b.to_string())).collect()
}

fn response(h: &[(&str, &str)], body: &[u8]) -> Result<DuoResponse, String> {
    Ok(DuoResponse { headers: headers(h), body: body.to_vec() })
}

fn single_section(o: &SlashCommandOutput) -> (usize, usize, String) {
    assert_eq!(o.sections.len(), 1);
    let s = &o.sections[0];
    (s.start, s.end, s.label.clone())
}

#[test]
fn request_needs_a_token() {
    let r = ext().duo_request(&settings(None), DuoCommand::Ask, "hi", None);
    assert_eq!(
        r.err(),
        Some("GitLab token not configured. Please set lsp.gitlab-duo.settings.token in settings.".to_string())
    );
}

#[test]
fn ask_request_carries_the_question() {
    let q: DuoRequest = ext().duo_request(&settings(Some("tok")), DuoCommand::Ask, "say \"hi\"", None).ok().unwrap();
    assert_eq!(q.url, "https://gitlab.com/api/v4/chat/completions");
    assert_eq!(
        q.headers,
        headers(&[("Authorization", "Bearer tok"), ("Content-Type", "application/json")])
    );
    assert_eq!(
        String::from_utf8(q.body).unwrap(),
        r#"{"content":"say \"hi\"","with_clean_history":true}"#
    );
}

#[test]
fn request_goes_to_configured_instance() {
    let s = GitLabSettings { base_url: Some("https://gl.example".to_string()), token: Some("t".to_string()) };
    let q = ext().duo_request(&s, DuoCommand::Ask, "x", None).ok().unwrap();
    assert_eq!(q.url, "https://gl.example/api/v4/chat/completions");
}

#[test]
fn refactor_request_attaches_the_file() {
    let f = FileContext { path: "src/a.rs".to_string(), content: "fn main() {}\n".to_string() };
    let q = ext().duo_request(&settings(Some("tok")), DuoCommand::Refactor, "", Some(&f)).ok().unwrap();
    assert_eq!(
        String::from_utf8(q.body).unwrap(),
        r#"{"additional_context":[{"category":"file","content":"fn main() {}\n","id":"src/a.rs"}],"content":"Please refactor this code to make it more maintainable, efficient, and follow best practices.","with_clean_history":true}"#
    );
}

#[test]
fn generate_tests_request_uses_its_prompt() {
    let f = FileContext { path: "b.rs".to_string(), content: "x".to_string() };
    let q = ext().duo_request(&settings(Some("tok")), DuoCommand::GenerateTests, "", Some(&f)).ok().unwrap();
    let v: zed_extension_api::serde_json::Value =
        zed_extension_api::serde_json::from_slice(&q.body).unwrap();
    assert_eq!(
        v["content"],
        "Please generate comprehensive tests for this code, ensuring good test coverage."
    );
    assert_eq!(v["with_clean_history"], true);
    assert_eq!(v["additional_context"][0]["id"], "b.rs");
    assert_eq!(v["additional_context"][0]["category"], "file");
    assert_eq!(v["additional_context"][0]["content"], "x");
}

#[test]
fn status_comes_from_the_status_header() {
    assert_eq!(status_code(&headers(&[])), 200);
    assert_eq!(status_code(&headers(&[("x", "1"), ("Status", "404")])), 404);
    assert_eq!(status_code(&headers(&[("STATUS", "+201")])), 201);
    assert_eq!(status_code(&headers(&[("status", "abc"), ("status", "500")])), 200);
    assert_eq!(status_code(&headers(&[("status", "70000")])), 200);
}

#[test]
fn parse_u16_follows_from_str() {
    for s in ["", "+", "-1", "12a", "65536", "+65535", "007", "0", "++1", " 1"] {
        assert_eq!(parse_u16(s), s.parse::<u16>().ok(), "{:?}", s);
    }
}

#[test]
fn decimal_is_written_without_leading_zeros() {
    for n in [0u16, 7, 10, 404, 65535] {
        let mut s = "n=".to_string();
        push_decimal(&mut s, n);
        assert_eq!(s, format!("n={}", n));
    }
}

#[test]
fn content_member_is_shown_with_its_label() {
    let o = ext().duo_response_output(DuoCommand::Refactor, response(&[], br#"{"content":"line1\\nline2"}"#));
    assert_eq!(o.text, "line1\nline2");
    assert_eq!(single_section(&o), (0, 11, "GitLab Duo Refactoring".to_string()));
}

#[test]
fn content_is_shown_verbatim() {
    let o = ext().duo_response_output(DuoCommand::Ask, response(&[("status", "200")], r#"{"content":"héllo"}"#.as_bytes()));
    assert_eq!(o.text, "héllo");
    assert_eq!(single_section(&o), (0, 6, "GitLab Duo Response".to_string()));
}

#[test]
fn json_without_content_is_shown_whole() {
    let o = ext().duo_response_output(DuoCommand::GenerateTests, response(&[], br#"{"other":1}"#));
    assert_eq!(o.text, r#"{"other":1}"#);
    assert_eq!(single_section(&o), (0, 11, "GitLab Duo Response".to_string()));
}

#[test]
fn plain_answer_is_shown_with_its_label() {
    let o = ext().duo_response_output(DuoCommand::GenerateTests, response(&[], b"tests:\\tdone"));
    assert_eq!(o.text, "tests:\tdone");
    assert_eq!(single_section(&o), (0, 11, "GitLab Duo Tests".to_string()));
}

#[test]
fn error_status_is_reported() {
    let o = ext().duo_response_output(DuoCommand::Ask, response(&[("Status", "401")], b"unauthorized"));
    assert_eq!(o.text, "Error from GitLab Duo API (401): unauthorized");
    assert!(o.sections.is_empty());
}

#[test]
fn empty_body_is_reported() {
    let o = ext().duo_response_output(DuoCommand::Ask, response(&[], b""));
    assert_eq!(o.text, "Error from GitLab Duo API (200): ");
    assert!(o.sections.is_empty());
}

#[test]
fn invalid_utf8_is_reported() {
    let o = ext().duo_response_output(DuoCommand::Ask, response(&[], &[0xff, b'a']));
    assert_eq!(o.text, "Invalid UTF-8 in response: \u{FFFD}a");
    assert!(o.sections.is_empty());
}

#[test]
fn failed_request_is_reported() {
    let o = ext().duo_response_output(DuoCommand::Ask, Err("connection refused".to_string()));
    assert_eq!(o.text, "Request failed: connection refused");
    assert!(o.sections.is_empty());
}

#[test]
fn response_json_tells_the_cases_apart() {
    assert!(matches!(response_json("not json"), ResponseJson::NotJson));
    assert!(matches!(response_json("[1,2]"), ResponseJson::NoContent));
    assert!(matches!(response_json(r#"{"content":3}"#), ResponseJson::NoContent));
    match response_json(r#"{"content":"c"}"#) {
        ResponseJson::Content(c) => assert_eq!(c, "c"),
        _ => panic!("expected content"),
    }
}

#[test]
fn rendered_text_section_spans_bytes() {
    let o = ext().render_response_text(DuoCommand::Ask, "ignored", &ResponseJson::Content("a\\nb".to_string()));
    assert_eq!(o.text, "a\nb");
    assert_eq!(single_section(&o), (0, 3, "GitLab Duo Response".to_string()));
    let o = ext().render_response_text(DuoCommand::Refactor, "é", &ResponseJson::NotJson);
    assert_eq!(single_section(&o), (0, 2, "GitLab Duo Refactoring".to_string()));
}

#[test]
fn request_body_escapes_control_characters() {
    let q = ext()
        .duo_request(&settings(Some("tok")), DuoCommand::Ask, "a\u{1}b\u{8}\u{c}\r\t\\", None)
        .ok()
        .unwrap();
    assert_eq!(
        String::from_utf8(q.body).unwrap(),
        r#"{"content":"a\u0001b\b\f\r\t\\","with_clean_history":true}"#
    );
}

#[test]
fn request_with_token_always_succeeds() {
    for k in [DuoCommand::Ask, DuoCommand::Refactor, DuoCommand::GenerateTests] {
        assert!(ext().duo_request(&settings(Some("t")), k, "é \u{1f}", None).is_ok());
    }
}
