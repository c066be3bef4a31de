use voxminutes::http::status_ok;
use voxminutes::sse::{decide_payload, parse_sse_data, SseAction, SsePayload, SseStream, StreamEnd};
use voxminutes::summary_client::{
    apply_auth, base_url, completion_request, http_error, kind_name, models_request, named_models,
    snippet, summary_cancel, summary_generate, summary_list_models, summary_test_connection,
    CancelTable, EventKind, Generation, ModelsReply, StreamInput, SummaryApiConfig,
    SummaryStreamEvent, TemperatureField,
};
use voxminutes::summary_local::{
    custom_summary_config, model_family, resolve_model_dir, summary_local_generate,
    wrap_chat_prompt, LocalAction, LocalEvent, LocalOutcome, LocalRoute, LocalRun, LocalStage,
    SummaryModel,
};
use voxminutes::custom_local::LocalModelProfile;

fn config(protocol: &str) -> SummaryApiConfig {
    SummaryApiConfig {
        protocol: protocol.to_string(),
        endpoint: "https://api.example.com//".to_string(),
        api_key: "k".to_string(),
        model: "m".to_string(),
    }
}

fn shown(events: &[SummaryStreamEvent]) -> Vec<(String, String)> {
    events.iter().map(|e| (kind_name(e.kind), e.text.clone())).collect()
}

fn told(kind: &str, text: &str) -> (String, String) {
    (kind.to_string(), text.to_string())
}

#[test]
fn requests_fit_the_protocol() {
    assert_eq!(base_url(&config("openai")), "https://api.example.com");
    let openai = models_request(&config("openai"));
    assert_eq!(openai.url, "https://api.example.com/models");
    assert_eq!(openai.headers, vec![told("Authorization", "Bearer k")]);
    assert_eq!(openai.policy.timeout_secs, Some(15));
    assert!(!openai.policy.follow_redirects);
    let anthropic = models_request(&config("anthropic"));
    assert_eq!(anthropic.url, "https://api.example.com/v1/models");
    assert_eq!(
        anthropic.headers,
        vec![told("x-api-key", "k"), told("anthropic-version", "2023-06-01")]
    );
    let mut keyless = config("openai");
    keyless.api_key = String::new();
    assert!(apply_auth(&keyless).is_empty());

    let req = completion_request(&config("openai"), "p", None, false);
    assert_eq!(req.url, "https://api.example.com/chat/completions");
    assert_eq!((req.max_tokens, req.temperature), (4096, TemperatureField::Default));
    assert!(req.stream);
    assert_eq!(req.policy.timeout_secs, None);
    let req = completion_request(&config("anthropic"), "p", Some(9), false);
    assert_eq!(req.url, "https://api.example.com/v1/messages");
    assert_eq!((req.max_tokens, req.temperature), (9, TemperatureField::Omitted));
    let req = completion_request(&config("anthropic"), "p", None, true);
    assert_eq!(req.temperature, TemperatureField::Given);
}

#[test]
fn error_bodies_are_cut() {
    assert_eq!(snippet("  no  "), "no");
    assert_eq!(snippet(&"语".repeat(300)), "语".repeat(300));
    assert_eq!(snippet(&"语".repeat(301)), "语".repeat(300) + "…");
    assert_eq!(http_error(401, " bad key \n"), "HTTP 401: bad key");
    assert!(status_ok(200) && status_ok(299) && !status_ok(199) && !status_ok(300));
}

#[test]
fn models_are_listed() {
    let body = br#"{"data":[{"id":"a"},{"name":"b"},{"id":"c"},7]}"#.to_vec();
    let reply = ModelsReply::Answered(body);
    assert_eq!(summary_list_models(&reply), Ok(vec!["a".to_string(), "c".to_string()]));
    assert_eq!(
        summary_test_connection(&reply),
        Ok("Connection OK (2 models available)".to_string())
    );
    assert_eq!(summary_list_models(&ModelsReply::Answered(b"{}".to_vec())), Ok(vec![]));
    assert_eq!(
        summary_list_models(&ModelsReply::Answered(b"<html>".to_vec())),
        Err("Invalid response: error decoding response body".to_string())
    );
    assert_eq!(
        summary_test_connection(&ModelsReply::SendFailed("refused".to_string())),
        Err("Network error: refused".to_string())
    );
    assert_eq!(
        summary_list_models(&ModelsReply::Refused { status: 500, body: "x".to_string() }),
        Err("HTTP 500: x".to_string())
    );
    assert_eq!(
        summary_list_models(&ModelsReply::Unprepared("e".to_string())),
        Err("e".to_string())
    );
    assert_eq!(
        summary_list_models(&ModelsReply::Interrupted("e".to_string())),
        Err("Invalid response: e".to_string())
    );
    assert_eq!(
        named_models(&vec![None, Some("x".to_string()), None]),
        vec!["x".to_string()]
    );
}

fn action(data: &str, openai: bool) -> Result<String, String> {
    parse_sse_data(data, openai).map(|a| match a {
        SseAction::Skip => "skip".to_string(),
        SseAction::Stop => "stop".to_string(),
        SseAction::Token(t) => format!("token {t}"),
    })
}

#[test]
fn stream_payloads_are_read() {
    assert_eq!(action("[DONE]", true), Ok("stop".to_string()));
    assert_eq!(action("[DONE]", false), Ok("skip".to_string()));
    assert_eq!(action("keepalive", true), Ok("skip".to_string()));
    assert_eq!(
        action(r#"{"choices":[{"delta":{"content":"hi"}}]}"#, true),
        Ok("token hi".to_string())
    );
    assert_eq!(
        action(r#"{"choices":[{"delta":{"content":""}}]}"#, true),
        Ok("skip".to_string())
    );
    assert_eq!(
        action(r#"{"error":{"message":"quota"}}"#, true),
        Err("Provider error: quota".to_string())
    );
    assert_eq!(
        action(r#"{"error":"quota"}"#, false),
        Err("Provider error: unknown provider error".to_string())
    );
    assert_eq!(
        action(r#"{"error":null,"choices":[{"delta":{"content":"a"}}]}"#, true),
        Ok("token a".to_string())
    );
    assert_eq!(
        action(r#"{"type":"content_block_delta","delta":{"text":"b"}}"#, false),
        Ok("token b".to_string())
    );
    assert_eq!(action(r#"{"type":"message_stop"}"#, false), Ok("stop".to_string()));
    assert_eq!(action(r#"{"type":"ping"}"#, false), Ok("skip".to_string()));
}

#[test]
fn payloads_are_decided_by_what_was_read() {
    let empty = || SsePayload {
        error_null: None,
        error_message: None,
        openai_delta: None,
        kind: None,
        anthropic_delta: None,
    };
    assert!(matches!(decide_payload(empty(), true), Ok(SseAction::Skip)));
    let mut stop = empty();
    stop.kind = Some("message_stop".to_string());
    assert!(matches!(decide_payload(stop, false), Ok(SseAction::Stop)));
    let mut failed = empty();
    failed.error_null = Some(false);
    assert!(decide_payload(failed, true).is_err());
}

#[test]
fn pieces_of_a_stream_do_not_matter() {
    let whole = "data: {\"choices\":[{\"delta\":{\"content\":\"你\"}}]}\r\n\n: note\ndata: {\"choices\":[{\"delta\":{\"content\":\"好\"}}]}\ndata: [DONE]\ndata: x\n";
    let mut at_once = SseStream::new(true);
    let (tokens, end) = at_once.feed(whole.as_bytes());
    assert_eq!(tokens, vec!["你".to_string(), "好".to_string()]);
    assert!(matches!(end, StreamEnd::Stopped));
    assert_eq!(at_once.accumulated, "你好");

    let mut bytewise = SseStream::new(true);
    let mut all = Vec::new();
    for b in whole.as_bytes() {
        let (tokens, end) = bytewise.feed(&[*b]);
        all.extend(tokens);
        if !matches!(end, StreamEnd::Open) {
            break;
        }
    }
    assert_eq!(all, tokens);
    assert_eq!(bytewise.accumulated, "你好");
}

fn token_line(text: &str) -> StreamInput {
    StreamInput::Chunk(
        format!("data: {{\"choices\":[{{\"delta\":{{\"content\":\"{text}\"}}}}]}}\n").into_bytes(),
    )
}

#[test]
fn generations_report_one_terminal_event() {
    let mut g = Generation::new("r", &config("openai"));
    assert_eq!(shown(&g.step(token_line("a"), false)), vec![told("token", "a")]);
    assert_eq!(shown(&g.step(token_line("b"), false)), vec![told("token", "b")]);
    let last = g.step(StreamInput::Chunk(b"data: [DONE]\n".to_vec()), false);
    assert_eq!(shown(&last), vec![told("done", "ab")]);
    assert_eq!(last[0].request_id, "r");
    assert_eq!(last[0].kind, EventKind::Done);
    assert!(g.step(StreamInput::Closed, false).is_empty());

    let mut g = Generation::new("r", &config("openai"));
    g.step(token_line("a"), false);
    assert_eq!(shown(&g.step(token_line("b"), true)), vec![told("done", "a")]);

    let mut g = Generation::new("r", &config("openai"));
    g.step(token_line("a"), false);
    assert_eq!(shown(&g.step(StreamInput::Closed, true)), vec![told("done", "a")]);
}

#[test]
fn cut_answers_give_the_same_events() {
    let whole = "data: {\"choices\":[{\"delta\":{\"content\":\"你\"}}]}\ndata: {\"choices\":[{\"delta\":{\"content\":\"好\"}}]}\ndata: [DONE]\n";
    let mut at_once = Generation::new("r", &config("openai"));
    let events = at_once.step(StreamInput::Chunk(whole.as_bytes().to_vec()), false);
    assert_eq!(shown(&events), vec![told("token", "你"), told("token", "好"), told("done", "你好")]);

    let mut cut = Generation::new("r", &config("openai"));
    let mut all = Vec::new();
    for piece in whole.as_bytes().chunks(7) {
        all.extend(cut.step(StreamInput::Chunk(piece.to_vec()), false));
    }
    assert_eq!(shown(&all), shown(&events));
}

#[test]
fn generations_report_their_failures() {
    let fresh = || Generation::new("r", &config("openai"));
    let failure = |input: StreamInput, cancelled: bool| shown(&fresh().step(input, cancelled));
    assert_eq!(failure(StreamInput::Unprepared("e".to_string()), false), vec![told("error", "e")]);
    assert_eq!(
        failure(StreamInput::SendFailed("e".to_string()), true),
        vec![told("error", "Network error: e")]
    );
    assert_eq!(
        failure(StreamInput::Refused { status: 429, body: "slow".to_string() }, false),
        vec![told("error", "HTTP 429: slow")]
    );
    assert_eq!(
        failure(StreamInput::Interrupted("e".to_string()), false),
        vec![told("error", "Stream interrupted: e")]
    );
    assert_eq!(
        failure(StreamInput::Interrupted("e".to_string()), true),
        vec![told("done", "")]
    );
    assert_eq!(
        failure(StreamInput::Chunk(b"data: {\"error\":{\"message\":\"m\"}}\n".to_vec()), false),
        vec![told("error", "Provider error: m")]
    );
}

#[test]
fn running_generations_can_be_cancelled() {
    let mut table = CancelTable::new();
    assert_eq!(summary_cancel(&table, "a"), None);
    let a = summary_generate(&mut table, "a", &config("openai")).unwrap().ticket;
    let b = summary_generate(&mut table, "b", &config("anthropic")).unwrap().ticket;
    assert_ne!(a, b);
    assert_eq!(summary_cancel(&table, "a"), Some(a));
    let again = summary_generate(&mut table, "a", &config("openai")).unwrap().ticket;
    assert_eq!(summary_cancel(&table, "a"), Some(again));
    table.remove("a");
    assert_eq!(summary_cancel(&table, "a"), None);
    assert_eq!(summary_cancel(&table, "b"), Some(b));
    assert_eq!(
        summary_generate(&mut table, "c", &config("other")).unwrap_err(),
        "Unknown summary protocol: other"
    );
    assert_eq!(summary_cancel(&table, "c"), None);
}

fn catalog() -> Vec<SummaryModel> {
    vec![
        SummaryModel { id: "qwen".to_string(), dir: Some("qwen3-4b".to_string()), installed: false },
        SummaryModel { id: "gemma".to_string(), dir: Some("gemma-3-4b-it".to_string()), installed: true },
        SummaryModel { id: "odd".to_string(), dir: None, installed: true },
    ]
}

#[test]
fn local_models_are_chosen() {
    assert_eq!(resolve_model_dir(&catalog(), Some("qwen")), Ok("qwen3-4b".to_string()));
    assert_eq!(resolve_model_dir(&catalog(), None), Ok("gemma-3-4b-it".to_string()));
    let unknown = |id: &str| Err(format!("未知的本地总结模型: {id}"));
    assert_eq!(resolve_model_dir(&catalog(), Some("x")), unknown("x"));
    assert_eq!(resolve_model_dir(&catalog(), Some("odd")), unknown("odd"));
    assert_eq!(
        resolve_model_dir(&vec![], None),
        Err("本地总结模型未下载，请先在设置页下载".to_string())
    );
    assert_eq!(model_family("gemma-3-4b-it"), "gemma");
    assert_eq!(model_family("qwen2.5-3b-instruct"), "qwen");
    let (prompt, stops) = wrap_chat_prompt("gemma-3-4b-it", "P");
    assert_eq!(prompt, "<start_of_turn>user\nP<end_of_turn>\n<start_of_turn>model\n");
    assert_eq!(stops, vec!["<end_of_turn>".to_string()]);
    let (prompt, stops) = wrap_chat_prompt("other", "P");
    assert_eq!(
        prompt,
        "<|im_start|>system\nYou are a helpful assistant.<|im_end|>\n<|im_start|>user\nP<|im_end|>\n<|im_start|>assistant\n"
    );
    assert_eq!(stops, vec!["<|im_end|>".to_string()]);
}

fn reported(action: LocalAction) -> (Vec<(String, String)>, bool) {
    match action {
        LocalAction::Report { events, kill_helper } => (shown(&events), kill_helper),
        other => panic!("{other:?}"),
    }
}

fn running() -> LocalRun {
    let (mut run, first) = LocalRun::start("r", "P", None, &catalog(), None);
    assert!(matches!(first, LocalAction::FindModel(d) if d == "gemma-3-4b-it"));
    let next = run.advance(LocalEvent::ModelFile(Some("/m.gguf".to_string())));
    assert!(matches!(next, LocalAction::FindHelper));
    match run.advance(LocalEvent::Helper { found: true, cancelled: false }) {
        LocalAction::Generate(params) => {
            assert_eq!(params.model_path, "/m.gguf");
            assert!(params.prompt.contains("user\nP<end"));
            assert_eq!((params.max_tokens, params.context_size, params.top_k), (2048, 8192, 40));
            assert!(!params.stream);
        }
        other => panic!("{other:?}"),
    }
    run
}

#[test]
fn local_generations_end_once() {
    let mut run = running();
    let wait = run.advance(LocalEvent::Poll { cancelled: false, outcome: None });
    assert!(matches!(wait, LocalAction::Wait));
    let outcome = Some(LocalOutcome::Text("T".to_string()));
    let end = run.advance(LocalEvent::Poll { cancelled: false, outcome });
    assert_eq!(reported(end), (vec![told("token", "T"), told("done", "T")], false));
    assert_eq!(run.stage, LocalStage::Ended);
    let after = run.advance(LocalEvent::Poll { cancelled: true, outcome: None });
    assert!(matches!(after, LocalAction::Nothing));

    let end = running().advance(LocalEvent::Poll {
        cancelled: true,
        outcome: Some(LocalOutcome::Text("T".to_string())),
    });
    assert_eq!(reported(end), (vec![told("done", "")], true));
    let end = running().advance(LocalEvent::Poll {
        cancelled: false,
        outcome: Some(LocalOutcome::Failed("e".to_string())),
    });
    assert_eq!(reported(end), (vec![told("error", "e")], false));
    let end = running().advance(LocalEvent::Poll {
        cancelled: false,
        outcome: Some(LocalOutcome::Lost("e".to_string())),
    });
    assert_eq!(reported(end), (vec![told("error", "本地总结任务失败: e")], false));
}

#[test]
fn local_generations_need_a_model_and_a_helper() {
    let (run, first) = LocalRun::start("r", "P", Some(5), &catalog(), Some("x"));
    assert_eq!(run.stage, LocalStage::Ended);
    assert_eq!(reported(first), (vec![told("error", "未知的本地总结模型: x")], false));
    let start = || LocalRun::start("r", "P", None, &catalog(), None).0;
    assert_eq!(
        reported(start().advance(LocalEvent::ModelFile(None))),
        (vec![told("error", "本地总结模型未下载，请先在设置页下载")], false)
    );
    let mut run = start();
    run.advance(LocalEvent::ModelFile(Some("f".to_string())));
    assert_eq!(
        reported(run.advance(LocalEvent::Helper { found: false, cancelled: true })),
        (vec![told("error", "本地总结引擎（llama-helper）未找到，请重新安装应用")], false)
    );
    let mut run = start();
    run.advance(LocalEvent::ModelFile(Some("f".to_string())));
    assert_eq!(
        reported(run.advance(LocalEvent::Helper { found: true, cancelled: true })),
        (vec![told("done", "")], false)
    );
}

#[test]
fn custom_summaries_go_to_the_profile() {
    assert!(matches!(summary_local_generate(Some("custom:p1")), LocalRoute::Custom(id) if id == "p1"));
    assert!(matches!(summary_local_generate(Some("qwen")), LocalRoute::Helper));
    assert!(matches!(summary_local_generate(None), LocalRoute::Helper));
    let mut profile = LocalModelProfile {
        id: "p1".to_string(),
        name: "n".to_string(),
        task: "summary".to_string(),
        endpoint: "http://localhost:1/v1/".to_string(),
        model: "m".to_string(),
        timeout_secs: 1,
    };
    let config = custom_summary_config(&profile).unwrap();
    assert_eq!(config.protocol, "openai");
    assert_eq!(config.endpoint, "http://localhost:1/v1");
    assert_eq!((config.api_key.as_str(), config.model.as_str()), ("", "m"));
    profile.endpoint = "http://example.com".to_string();
    assert!(custom_summary_config(&profile).is_err());
}
