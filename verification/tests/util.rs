use zeroclaw::util::{
    detect_openclaw_profile, openclaw_candidates, parse_openclaw_profile,
    resolve_openclaw_workspace, truncate_with_ellipsis, ProfileSource,
};

#[test]
fn test_truncate_ascii_no_truncation() {
    assert_eq!(truncate_with_ellipsis("hello", 10), "hello");
    assert_eq!(truncate_with_ellipsis("hello world", 50), "hello world");
}

#[test]
fn test_truncate_ascii_with_truncation() {
    assert_eq!(truncate_with_ellipsis("hello world", 5), "hello...");
    assert_eq!(
        truncate_with_ellipsis("This is a long message", 10),
        "This is a ..."
    );
}

#[test]
fn test_truncate_empty_string() {
    assert_eq!(truncate_with_ellipsis("", 10), "");
}

#[test]
fn test_truncate_at_exact_boundary() {
    assert_eq!(truncate_with_ellipsis("hello", 5), "hello");
}

#[test]
fn test_truncate_emoji_single() {
    let s = "🦀";
    assert_eq!(truncate_with_ellipsis(s, 10), s);
    assert_eq!(truncate_with_ellipsis(s, 1), s);
}

#[test]
fn test_truncate_emoji_multiple() {
    let s = "😀😀😀😀";
    assert_eq!(truncate_with_ellipsis(s, 2), "😀😀...");
    assert_eq!(truncate_with_ellipsis(s, 3), "😀😀😀...");
}

#[test]
fn test_truncate_mixed_ascii_emoji() {
    assert_eq!(truncate_with_ellipsis("Hello 🦀 World", 8), "Hello 🦀 ...");
    assert_eq!(truncate_with_ellipsis("Hi 😊", 10), "Hi 😊");
}

#[test]
fn test_truncate_cjk_characters() {
    let s = "这是一个测试消息用来触发崩溃的中文";
    let result = truncate_with_ellipsis(s, 16);
    assert!(result.ends_with("..."));
    assert!(result.is_char_boundary(result.len() - 1));
}

#[test]
fn test_truncate_accented_characters() {
    let s = "café résumé naïve";
    assert_eq!(truncate_with_ellipsis(s, 10), "café résum...");
}

#[test]
fn test_truncate_unicode_edge_case() {
    let s = "aé你好🦀";
    assert_eq!(truncate_with_ellipsis(s, 3), "aé你...");
}

#[test]
fn test_truncate_long_string() {
    let s = "a".repeat(200);
    let result = truncate_with_ellipsis(&s, 50);
    assert_eq!(result.len(), 53);
    assert!(result.ends_with("..."));
}

#[test]
fn test_truncate_zero_max_chars() {
    assert_eq!(truncate_with_ellipsis("hello", 0), "...");
}

#[test]
fn truncate_keeps_exactly_max_chars_when_no_space_is_cut() {
    let s = "这是一个测试消息用来触发崩溃的中文";
    let result = truncate_with_ellipsis(s, 16);
    assert_eq!(result, "这是一个测试消息用来触发崩溃的中...");
    assert_eq!(result.chars().count(), 19);
}

#[test]
fn truncate_keeps_white_space_before_the_ellipsis() {
    assert_eq!(truncate_with_ellipsis("ab\u{3000}\u{a0}cd", 4), "ab\u{3000}\u{a0}...");
    assert_eq!(truncate_with_ellipsis("   x", 3), "   ...");
    assert_eq!(truncate_with_ellipsis("a\nb", 2), "a\n...");
}

#[test]
fn truncate_counts_exactly_max_chars_and_the_suffix() {
    let texts = ["hello world", "aé你好🦀 and more", "  spaced  out  ", "😀😀😀😀"];
    for text in texts {
        let count = text.chars().count();
        for max_chars in 0..count + 2 {
            let expected = if count <= max_chars {
                text.to_string()
            } else {
                text.chars().take(max_chars).collect::<String>() + "..."
            };
            assert_eq!(truncate_with_ellipsis(text, max_chars), expected);
        }
    }
}

fn sample_config() -> &'static str {
    "{\n  \"agents\": {\"defaults\": {\"workspace\": \"/home/alice/claw\", \"model\": {\"primary\": \"acme/large/v2\"}}},\n  \"models\": {\"providers\": {\"acme\": {\"baseUrl\": \"https://api.example.test\", \"apiKey\": \"k-123\"}}}\n}"
}

#[test]
fn parse_profile_reads_every_field() {
    let profile = parse_openclaw_profile("/home/alice/.openclaw/openclaw.json", sample_config())
        .expect("a JSON document holds a profile");
    assert_eq!(profile.source_path, "/home/alice/.openclaw/openclaw.json");
    assert_eq!(profile.workspace_dir.as_deref(), Some("/home/alice/claw"));
    assert_eq!(profile.provider.as_deref(), Some("acme"));
    assert_eq!(profile.model.as_deref(), Some("large/v2"));
    assert_eq!(profile.api_url.as_deref(), Some("https://api.example.test"));
    assert_eq!(profile.api_key.as_deref(), Some("k-123"));
}

#[test]
fn parse_profile_without_primary_model_names_no_provider() {
    let profile = parse_openclaw_profile("p.json", "{\"agents\": {\"defaults\": {}}}").unwrap();
    assert_eq!(profile.workspace_dir, None);
    assert_eq!(profile.provider, None);
    assert_eq!(profile.model, None);
    assert_eq!(profile.api_url, None);
    assert_eq!(profile.api_key, None);
}

#[test]
fn parse_profile_primary_without_slash_names_no_provider() {
    let content = "{\"agents\": {\"defaults\": {\"model\": {\"primary\": \"large\"}}}}";
    let profile = parse_openclaw_profile("p.json", content).unwrap();
    assert_eq!(profile.provider, None);
    assert_eq!(profile.model, None);
}

#[test]
fn parse_profile_ignores_values_that_are_no_text() {
    let content = "{\"agents\": {\"defaults\": {\"workspace\": 7, \"model\": {\"primary\": \"p/m\"}}}, \"models\": {\"providers\": {\"p\": {\"baseUrl\": null, \"apiKey\": [\"k\"]}}}}";
    let profile = parse_openclaw_profile("p.json", content).unwrap();
    assert_eq!(profile.workspace_dir, None);
    assert_eq!(profile.provider.as_deref(), Some("p"));
    assert_eq!(profile.model.as_deref(), Some("m"));
    assert_eq!(profile.api_url, None);
    assert_eq!(profile.api_key, None);
}

#[test]
fn parse_profile_rejects_what_is_no_json() {
    assert!(parse_openclaw_profile("p.json", "{ not json").is_none());
    assert!(parse_openclaw_profile("p.json", "").is_none());
}

#[test]
fn parse_profile_accepts_a_document_that_is_no_object() {
    let profile = parse_openclaw_profile("p.json", "[1, 2]").unwrap();
    assert_eq!(profile.workspace_dir, None);
    assert_eq!(profile.provider, None);
}

#[test]
fn detect_takes_the_first_source_that_holds_a_profile() {
    let sources = vec![
        ProfileSource { path: "a.json".to_string(), content: None },
        ProfileSource { path: "b.json".to_string(), content: Some("oops".to_string()) },
        ProfileSource { path: "c.json".to_string(), content: Some(sample_config().to_string()) },
        ProfileSource {
            path: "d.json".to_string(),
            content: Some("{\"agents\": {\"defaults\": {\"workspace\": \"other\"}}}".to_string()),
        },
    ];
    let profile = detect_openclaw_profile(&sources).unwrap();
    assert_eq!(profile.source_path, "c.json");
    assert_eq!(
        resolve_openclaw_workspace(&sources).as_deref(),
        Some("/home/alice/claw")
    );
}

#[test]
fn detect_finds_nothing_where_no_source_holds_a_profile() {
    let sources = vec![
        ProfileSource { path: "a.json".to_string(), content: None },
        ProfileSource { path: "b.json".to_string(), content: Some("oops".to_string()) },
    ];
    assert!(detect_openclaw_profile(&sources).is_none());
    assert!(resolve_openclaw_workspace(&sources).is_none());
    assert!(detect_openclaw_profile(&Vec::new()).is_none());
}

#[test]
fn resolve_workspace_is_none_where_the_profile_names_none() {
    let sources = vec![ProfileSource { path: "a.json".to_string(), content: Some("{}".to_string()) }];
    assert!(detect_openclaw_profile(&sources).is_some());
    assert!(resolve_openclaw_workspace(&sources).is_none());
}

#[test]
fn candidates_are_the_two_known_places_in_order() {
    let home = std::path::Path::new("/home/alice");
    let expected = vec![
        home.join(".openclaw").join("openclaw.json").display().to_string(),
        home.join(".clawdbot").join("openclaw.json").display().to_string(),
    ];
    assert_eq!(openclaw_candidates("/home/alice"), expected);
}

#[test]
fn candidates_follow_the_home_directory_that_was_found() {
    assert_eq!(
        zeroclaw::util::openclaw_candidates_below(Some("/home/alice".to_string())),
        Some(openclaw_candidates("/home/alice"))
    );
    assert_eq!(zeroclaw::util::openclaw_candidates_below(None), None);
}
