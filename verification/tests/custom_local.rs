use voxminutes::custom_local::{
    check_connection, check_profile, connection_test, copy_profile, custom_local_delete, custom_local_select,
    custom_local_test, custom_local_upsert, default_timeout, prepare_profile, prepare_profile_as,
    profile, read_answer, transcribe, transcription_reply, translate, translation_reply,
    validate_profile, LocalModelProfile,
};
use voxminutes::endpoint::{check_endpoint, validate_endpoint, UrlHost, UrlParts};

fn sample(id: &str, task: &str) -> LocalModelProfile {
    LocalModelProfile {
        id: id.to_string(),
        name: "My model".to_string(),
        task: task.to_string(),
        endpoint: " http://127.0.0.1:8000/v1/ ".to_string(),
        model: "whisper".to_string(),
        timeout_secs: 120,
    }
}

#[test]
fn endpoints_never_escape_loopback() {
    for bad in [
        "https://127.0.0.1:8000/v1",
        "http://127.0.0.1.evil.com/v1",
        "http://127.0.0.1@evil.com/v1",
        "http://192.168.1.2:8000/v1",
        "http://localhost:8000/v1?next=evil",
        "http://localhost:8000/redirect",
    ] {
        assert!(validate_endpoint(bad).is_err(), "{bad}");
    }
    assert!(validate_endpoint("http://127.0.0.1:8000/v1").is_ok());
    assert!(validate_endpoint("http://[::1]:8000/v1").is_ok());
}

#[test]
fn endpoints_are_told_what_is_wrong() {
    assert_eq!(validate_endpoint(" http://LocalHost:8000// "), Ok("http://LocalHost:8000".to_string()));
    assert_eq!(validate_endpoint("http://127.0.0.1:8000/v1/"), Ok("http://127.0.0.1:8000/v1".to_string()));
    assert_eq!(
        validate_endpoint("localhost"),
        Err("Invalid URL: relative URL without a base".to_string())
    );
    let plain = "Use a plain http://localhost (or 127.0.0.1 / [::1]) endpoint without credentials, query or fragment";
    for bad in [
        "https://localhost",
        "http://user@localhost",
        "http://:secret@localhost",
        "http://localhost/?a",
        "http://localhost/#a",
    ] {
        assert_eq!(validate_endpoint(bad), Err(plain.to_string()), "{bad}");
    }
    let loopback = "Custom model servers must be bound to loopback; LAN/cloud endpoints are not supported here";
    for bad in ["http://127.0.0.2:1", "http://example.com", "http://[::2]", "http://localhost."] {
        assert_eq!(validate_endpoint(bad), Err(loopback.to_string()), "{bad}");
    }
    assert_eq!(
        validate_endpoint("http://localhost/v1/chat/completions"),
        Err("Endpoint must be the server root or /v1 (not a full API method URL)".to_string())
    );
}

#[test]
fn accepted_endpoints_are_accepted_again() {
    for endpoint in [
        " http://LocalHost:8000// ",
        "http://127.0.0.1:8000/v1/",
        "http://[::1]/",
        "http://localhost/v1//",
        "http:localhost/",
        "http:////localhost//",
        "http:\\\\localhost\\/",
        "http://localhost/v1/./",
        "http://localhost/v1/%2e/",
        "http://localhost/v1/x/..//",
        "http://localhost/v1/..///",
        "http://localhost/a b/../",
        "http://localhost/v1\\/",
        "http://LOCALHOST:/",
        "http://localhost:80//",
        "http://@localhost/",
        "http://0x7f.1/",
        "\u{1}http://localhost/",
        "http://localhost/\u{1}",
    ] {
        let accepted = validate_endpoint(endpoint).unwrap();
        assert_eq!(accepted, endpoint.trim().trim_end_matches('/'), "{endpoint}");
        assert_eq!(validate_endpoint(&accepted), Ok(accepted.clone()), "{endpoint}");
    }
    for end in [' ', '\u{b}', '\u{c}', '\u{1}', '\u{85}', '\u{a0}', '\u{2003}', '\u{2028}', '\u{3000}'] {
        assert!(validate_endpoint(&format!("http://localhost{end}/")).is_err());
        assert!(validate_endpoint(&format!("http://localhost:1{end}/")).is_err());
        assert!(validate_endpoint(&format!("http://localhost/v1{end}/")).is_err());
    }
}

#[test]
fn endpoints_are_decided_by_their_parts() {
    let parts = |host: UrlHost, path: &str| {
        Ok(UrlParts {
            scheme: "http".to_string(),
            username: String::new(),
            has_password: false,
            has_query: false,
            has_fragment: false,
            host,
            path: path.to_string(),
        })
    };
    assert!(check_endpoint(&parts(UrlHost::V6(1), "/"), "x/").is_ok());
    assert_eq!(check_endpoint(&parts(UrlHost::V4(0x7f00_0001), "/v1//"), " x/ "), Ok("x".to_string()));
    assert!(check_endpoint(&parts(UrlHost::Missing, "/"), "x").is_err());
    assert!(check_endpoint(&parts(UrlHost::V4(0x7f00_0002), "/"), "x").is_err());
    assert_eq!(check_endpoint(&Err("e".to_string()), "x"), Err("Invalid URL: e".to_string()));
}

#[test]
fn profiles_are_told_what_is_wrong() {
    assert_eq!(default_timeout(), 120);
    assert_eq!(validate_profile(&sample("", "asr")), Ok(()));
    assert_eq!(
        validate_profile(&sample("a", "other")),
        Err("Task must be asr, translation or summary".to_string())
    );
    let names = Err("Model name and model ID must be nonempty and reasonably short".to_string());
    let mut p = sample("a", "asr");
    p.name = "  ".to_string();
    assert_eq!(validate_profile(&p), names);
    let mut p = sample("a", "asr");
    p.name = "语".repeat(43);
    assert_eq!(validate_profile(&p), names);
    p.name = "语".repeat(42);
    assert_eq!(validate_profile(&p), Ok(()));
    p.model = "m".repeat(257);
    assert_eq!(validate_profile(&p), names);
    let id = Err("Invalid profile ID".to_string());
    assert_eq!(validate_profile(&sample("a_b", "asr")), id);
    assert_eq!(validate_profile(&sample(&"a".repeat(81), "asr")), id);
    assert_eq!(validate_profile(&sample("aZ-09", "asr")), Ok(()));
    let mut p = sample("a", "asr");
    p.timeout_secs = 0;
    assert_eq!(validate_profile(&p), Err("Timeout must be 1–3600 seconds".to_string()));
    p.timeout_secs = 3601;
    assert_eq!(validate_profile(&p), Err("Timeout must be 1–3600 seconds".to_string()));
    let mut p = sample("a", "asr");
    p.endpoint = "http://10.0.0.1".to_string();
    assert_eq!(validate_profile(&p), Err(validate_endpoint("http://10.0.0.1").unwrap_err()));
    assert_eq!(check_profile(&p, &Ok("x".to_string())), Ok(()));
}

#[test]
fn prepared_profiles_have_an_identifier_and_a_tidy_address() {
    let p = prepare_profile(&sample("", "asr")).unwrap();
    assert_eq!(p.id.len(), 36);
    assert_eq!(p.id.matches('-').count(), 4);
    assert!(p.id.chars().all(|c| c == '-' || c.is_ascii_digit() || ('a'..='f').contains(&c)));
    assert_eq!(p.endpoint, "http://127.0.0.1:8000/v1");
    assert_ne!(prepare_profile(&sample("", "asr")).unwrap().id, p.id);
    assert_eq!(prepare_profile(&sample("keep", "asr")).unwrap().id, "keep");
    assert_eq!(prepare_profile_as(&sample("", "asr"), "new".to_string()).unwrap().id, "new");
    assert!(prepare_profile(&sample("a_b", "asr")).is_err());
}

#[test]
fn profiles_are_stored_found_and_removed() {
    let mut items = Vec::new();
    assert_eq!(custom_local_upsert(&mut items, &sample("a", "asr")), Ok(()));
    assert_eq!(custom_local_upsert(&mut items, &sample("b", "translation")), Ok(()));
    let mut changed = sample("a", "asr");
    changed.model = "other".to_string();
    assert_eq!(custom_local_upsert(&mut items, &changed), Ok(()));
    assert_eq!(items.len(), 2);
    assert_eq!(profile(&items, "a", "asr").unwrap().model, "other");
    assert_eq!(profile(&items, "b", "translation").unwrap().model, "whisper");
    assert_eq!(
        custom_local_upsert(&mut items, &sample("a", "summary")),
        Err("Cannot change task of an existing profile".to_string())
    );
    assert_eq!(
        profile(&items, "a", "summary").unwrap_err(),
        "No summary profile with ID a"
    );
    let items = custom_local_delete(&items, "a");
    assert_eq!(items.len(), 1);
    assert_eq!(items[0].id, "b");
    assert!(profile(&items, "a", "asr").is_err());
    assert_eq!(copy_profile(&items[0]).task, "translation");
}

#[test]
fn selecting_a_profile_changes_settings() {
    let items = vec![
        sample("a", "asr"),
        sample("t", "translation"),
        sample("s", "summary"),
        sample("x", "other"),
    ];
    let asr = custom_local_select(&items, "a").unwrap();
    assert_eq!(
        asr.settings,
        vec![
            ("transcript.provider".to_string(), "custom-local".to_string()),
            ("transcript.model".to_string(), "a".to_string()),
        ]
    );
    assert!(asr.engine.is_none());
    let translation = custom_local_select(&items, "t").unwrap();
    assert_eq!(translation.engine.as_deref(), Some("custom:t"));
    assert_eq!(
        translation.settings,
        vec![("translation.engine".to_string(), "custom:t".to_string())]
    );
    assert_eq!(
        custom_local_select(&items, "s").unwrap_err(),
        "Select a summary profile in the summary dialog"
    );
    assert_eq!(custom_local_select(&items, "x").unwrap_err(), "Unsupported task");
    assert_eq!(custom_local_select(&items, "q").unwrap_err(), "Profile not found");
}

#[test]
fn connections_are_tested_within_fifteen_seconds() {
    let test = connection_test(&sample("a", "asr")).unwrap();
    assert_eq!(test.url, "http://127.0.0.1:8000/v1/models");
    assert_eq!(test.policy.timeout_secs, Some(15));
    assert_eq!(test.policy.connect_timeout_secs, 5);
    assert!(!test.policy.follow_redirects);
    let mut quick = sample("a", "asr");
    quick.timeout_secs = 3;
    assert_eq!(connection_test(&quick).unwrap().policy.timeout_secs, Some(3));
    assert!(connection_test(&sample("a", "other")).is_err());
    assert_eq!(custom_local_test(204), Ok("Local model endpoint responded successfully".to_string()));
    assert_eq!(check_connection(404), Ok(()));
    assert_eq!(check_connection(405), Ok(()));
    assert_eq!(check_connection(200), Ok(()));
    assert_eq!(
        check_connection(403),
        Err("GET /models returned HTTP 403 Forbidden".to_string())
    );
    assert_eq!(custom_local_test(404), Err("GET /models returned HTTP 404 Not Found".to_string()));
    assert_eq!(
        custom_local_test(599),
        Err("GET /models returned HTTP 599 <unknown status code>".to_string())
    );
}

#[test]
fn transcriptions_are_asked_for_and_read() {
    let req = transcribe(&sample("a", "asr"), &[0, 1], Some("zh".to_string())).unwrap();
    assert_eq!(req.url, "http://127.0.0.1:8000/v1/audio/transcriptions");
    assert_eq!(req.wav.len(), 48);
    assert_eq!(req.model, "whisper");
    assert_eq!(req.language.as_deref(), Some("zh"));
    assert_eq!(req.policy.timeout_secs, Some(120));
    assert!(transcribe(&sample("a", "asr"), &[], Some(String::new())).unwrap().language.is_none());
    let mut far = sample("a", "asr");
    far.endpoint = "http://example.com".to_string();
    assert!(transcribe(&far, &[], None).is_err());
    assert_eq!(
        transcription_reply(200, "{\"text\":\"你好，世界\"}".as_bytes()),
        Ok("你好，世界".to_string())
    );
    assert_eq!(
        transcription_reply(200, b"{\"text\":1}"),
        Err("ASR response has no text field".to_string())
    );
    assert_eq!(
        transcription_reply(500, b"oops \xff"),
        Err("ASR HTTP 500 Internal Server Error: oops \u{fffd}".to_string())
    );
    let long = "x".repeat(400);
    let shown = transcription_reply(404, long.as_bytes()).unwrap_err();
    assert_eq!(shown, format!("ASR HTTP 404 Not Found: {}", "x".repeat(300)));
    assert_eq!(
        transcription_reply(200, b"no").unwrap_err(),
        serde_json::from_slice::<serde_json::Value>(b"no").unwrap_err().to_string()
    );
}

#[test]
fn translations_are_asked_for_and_read() {
    let req = translate(&sample("a", "translation"), "早", "zh", "en").unwrap();
    assert_eq!(req.url, "http://127.0.0.1:8000/v1/chat/completions");
    assert_eq!(
        req.system,
        ["Translate", "from zh to en. Return only the translation, with no commentary."].join(" ")
    );
    assert_eq!(req.user, "早");
    assert!(!req.stream);
    assert_eq!(req.temperature, 0);
    let body = b"{\"choices\":[{\"message\":{\"content\":\"Morning\"}}]}";
    assert_eq!(translation_reply(200, body), Ok("Morning".to_string()));
    assert_eq!(
        translation_reply(200, b"{\"choices\":[]}"),
        Err("Chat response has no message content".to_string())
    );
    assert_eq!(translation_reply(401, b"no"), Err("Translation HTTP 401 Unauthorized: no".to_string()));
    assert_eq!(read_answer(None, None, "m"), Err("m".to_string()));
    assert_eq!(read_answer(Some("e".to_string()), None, "m"), Err("e".to_string()));
    assert_eq!(read_answer(None, Some("t".to_string()), "m"), Ok("t".to_string()));
}
