use voxminutes::settings::{preload_plan, restore_translation};
use voxminutes::translation::{
    current_engine, default_target_for_home, detect_source_lang, get_engine, home_lang,
    is_chinese_dominant, is_model_installed, model_dir, resolve_direction, target_lang,
    unload_opus_engines, EngineSlots, OpusDirection, TranslationSettings,
};
use voxminutes::translation_queue::{
    finish_translation, kick_translation_worker, queue_translation, reset_translation_session,
    translation_route, translation_seen, PartialTranslation, TranslationJob, TranslationQueue,
    TranslationRoute,
};

fn supported() -> Vec<String> {
    ["zh", "en", "ja", "ko", "fr", "de", "es", "pt", "it", "ru", "ar", "th", "vi"]
        .iter()
        .map(|s| s.to_string())
        .collect()
}

fn with_engine_home(engine: &str, home: &str, text: &str, target: &str) -> Option<(String, String, String)> {
    resolve_direction(engine, home, &supported(), text, target)
}

fn way(direction: &str, from: &str, to: &str) -> Option<(String, String, String)> {
    Some((direction.to_string(), from.to_string(), to.to_string()))
}

#[test]
fn detect_source_lang_hangul_is_ko() {
    assert_eq!(detect_source_lang("안녕하세요, hello"), "ko");
    assert_eq!(detect_source_lang("한국어"), "ko");
}

#[test]
fn detect_source_lang_kana_is_ja() {
    assert_eq!(detect_source_lang("これはテストです"), "ja");
    assert_eq!(detect_source_lang("カタカナ"), "ja");
}

#[test]
fn detect_source_lang_hanzi_dominant_is_zh() {
    assert_eq!(detect_source_lang("今天天气真不错，我们出去走走"), "zh");
}

#[test]
fn detect_source_lang_latin_is_en() {
    assert_eq!(detect_source_lang("Hello, this is a test."), "en");
    assert_eq!(detect_source_lang("Bonjour le monde"), "en");
    assert_eq!(detect_source_lang("abcdefgh 中"), "en");
}

#[test]
fn order_and_spaces_do_not_change_the_language() {
    assert_eq!(detect_source_lang("中文字啊 abcdef"), "zh");
    assert_eq!(detect_source_lang("a 中b\t文c字 d啊ef"), "zh");
    assert_eq!(detect_source_lang("中文字 abcdefg"), "en");
    assert_eq!(detect_source_lang("g 字f文e中dcba"), "en");
}

#[test]
fn joined_texts_have_the_language_of_their_parts() {
    assert_eq!(detect_source_lang("hello 한국어"), "ko");
    assert_eq!(detect_source_lang("カタカナ한국어"), "ko");
    assert_eq!(detect_source_lang("helloカタカナ"), "ja");
    assert_eq!(detect_source_lang("你好世界"), "zh");
}

#[test]
fn resolve_direction_source_equals_target_skips() {
    assert_eq!(with_engine_home("hymt2", "zh", "Hello, this is a test.", "en"), None);
    assert_eq!(with_engine_home("hymt2", "zh", "今天天气真不错，我们出去走走", "zh"), None);
}

#[test]
fn resolve_direction_translates_to_target() {
    let r = with_engine_home("hymt2", "zh", "今天天气真不错，我们出去走走", "en");
    assert_eq!(r, way("zh-en", "zh", "en"));
    let r = with_engine_home("hymt2", "zh", "これはテストです", "en");
    assert_eq!(r, way("ja-en", "ja", "en"));
    let r = with_engine_home("hymt2", "en", "Hello, this is a test.", "zh");
    assert_eq!(r, way("en-zh", "en", "zh"));
}

#[test]
fn resolve_direction_legacy_auto_uses_default_target() {
    assert_eq!(with_engine_home("hymt2", "zh", "Hello, this is a test.", "auto"), None);
    let r = with_engine_home("hymt2", "zh", "今天天气真不错，我们出去走走", "auto");
    assert_eq!(r, way("zh-en", "zh", "en"));
    assert_eq!(with_engine_home("hymt2", "en", "今天天气真不错，我们出去走走", "auto"), None);
    let r = with_engine_home("hymt2", "en", "Hello, this is a test.", "auto");
    assert_eq!(r, way("en-zh", "en", "zh"));
}

#[test]
fn default_target_for_home_rules() {
    assert_eq!(default_target_for_home("zh"), "en");
    assert_eq!(default_target_for_home("ja"), "en");
    assert_eq!(default_target_for_home("ko"), "en");
    assert_eq!(default_target_for_home("en"), "zh");
}

#[test]
fn chinese_is_counted_without_white_space() {
    assert!(!is_chinese_dominant(""));
    assert!(!is_chinese_dominant("  \u{3000} "));
    // Three of ten is not more than three tenths; four of ten is.
    assert!(!is_chinese_dominant("中文字 abcdefg"));
    assert!(is_chinese_dominant("中文字啊 abcdef"));
    assert!(is_chinese_dominant("\u{3400}"));
    assert_eq!(detect_source_lang("\u{1100}"), "ko");
}

#[test]
fn the_built_in_engine_knows_two_languages() {
    assert_eq!(with_engine_home("opus", "en", "你好", "auto"), way("zh-en", "zh", "en"));
    assert_eq!(with_engine_home("opus", "zh", "hello", "auto"), way("en-zh", "en", "zh"));
    assert_eq!(with_engine_home("opus", "zh", "hello", "fr"), None);
    assert_eq!(with_engine_home("opus", "zh", "hello", "en"), None);
    assert_eq!(with_engine_home("opus", "zh", "これは", "zh"), way("en-zh", "en", "zh"));
    assert_eq!(with_engine_home("custom:p", "zh", "hello", "fr"), way("en-fr", "en", "fr"));
    assert_eq!(with_engine_home("custom:p", "zh", "hello", "xx"), None);
}

#[test]
fn settings_have_defaults() {
    let settings = TranslationSettings::new();
    assert!(!settings.enabled);
    assert_eq!(current_engine(Some(&settings)), "opus");
    assert_eq!(target_lang(Some(&settings)), "en");
    assert_eq!(home_lang(Some(&settings)), "zh");
    assert_eq!(current_engine(None), "opus");
    assert_eq!(target_lang(None), "en");
    assert_eq!(home_lang(None), "zh");
}

#[test]
fn engines_are_loaded_once_and_let_go() {
    let mut slots: EngineSlots<u32> = EngineSlots::new();
    assert_eq!(slots.model_to_load("zh-en"), Ok(Some("opus-mt-zh-en".to_string())));
    assert_eq!(
        slots.model_to_load("en-fr"),
        Err("不支持的翻译方向: en-fr".to_string())
    );
    assert_eq!(get_engine(&mut slots, "zh-en", Some(Err("gone".to_string()))), Err("gone".to_string()));
    assert_eq!(get_engine(&mut slots, "zh-en", Some(Ok(7))), Ok(OpusDirection::ZhEn));
    assert_eq!(slots.model_to_load("zh-en"), Ok(None));
    assert_eq!(get_engine(&mut slots, "zh-en", None), Ok(OpusDirection::ZhEn));
    assert_eq!(slots.zh_en, Some(7));
    assert_eq!(slots.en_zh, None);
    assert_eq!(
        get_engine(&mut slots, "xx", None),
        Err("不支持的翻译方向: xx".to_string())
    );
    unload_opus_engines(&mut slots);
    assert_eq!(slots.zh_en, None);
}

#[test]
fn models_are_installed_where_all_files_are_there() {
    let required = vec!["a".to_string(), "b".to_string()];
    assert!(is_model_installed("en-zh", &required, &vec!["b".to_string(), "a".to_string()]));
    assert!(!is_model_installed("en-zh", &required, &vec!["a".to_string()]));
    assert!(!is_model_installed("en-fr", &vec![], &vec![]));
    assert_eq!(model_dir("en-zh").as_deref(), Some("opus-mt-en-zh"));
    assert_eq!(model_dir("fr"), None);
}

fn enabled(engine: &str) -> TranslationSettings {
    TranslationSettings {
        enabled: true,
        target: "en".to_string(),
        home: "zh".to_string(),
        engine: engine.to_string(),
    }
}

#[test]
fn segments_are_queued_and_taken_in_order() {
    let mut queue = TranslationQueue::new();
    let settings = enabled("opus");
    assert!(!queue_translation(&mut queue, &TranslationSettings::new(), &supported(), "你好", 1));
    assert!(!queue_translation(&mut queue, &settings, &supported(), "  ", 1));
    assert!(!queue_translation(&mut queue, &settings, &supported(), "hello", 1));
    assert!(!translation_seen(&queue, 1));
    assert!(queue_translation(&mut queue, &settings, &supported(), " 你好 ", 1));
    assert!(!queue_translation(&mut queue, &settings, &supported(), "再见", 2));
    assert!(!kick_translation_worker(&mut queue, &settings));
    assert!(translation_seen(&queue, 1) && translation_seen(&queue, 2));

    let target = queue.begin_pass(&settings).unwrap();
    let job = queue.next_translation(&settings, &supported(), &target).unwrap();
    assert_eq!((job.text.as_str(), job.sequence_id, job.direction.as_str()), ("你好", 1, "zh-en"));
    assert!(matches!(job.route, TranslationRoute::Opus));
    assert!(!queue.end_worker());
    // With another target the second segment has nothing to translate any more.
    assert!(queue.next_translation(&settings, &supported(), "zh").is_none());
    assert!(queue.end_worker());
    assert!(translation_seen(&queue, 2));
    assert!(kick_translation_worker(&mut queue, &settings));
    reset_translation_session(&mut queue);
    assert!(!translation_seen(&queue, 2));
}

#[test]
fn switching_translation_off_drops_what_waits() {
    let mut queue = TranslationQueue::new();
    queue_translation(&mut queue, &enabled("opus"), &supported(), "你好", 1);
    assert!(queue.begin_pass(&TranslationSettings::new()).is_none());
    assert!(queue.end_worker());
    assert!(!kick_translation_worker(&mut queue, &TranslationSettings::new()));
}

fn job() -> TranslationJob {
    TranslationJob {
        text: "你好".to_string(),
        sequence_id: 4,
        direction: "zh-en".to_string(),
        source_lang: "zh".to_string(),
        target_lang: "en".to_string(),
        route: translation_route("hymt2"),
    }
}

#[test]
fn translations_are_shown_in_parts_and_whole() {
    let mut partial = PartialTranslation::new();
    for _ in 0..7 {
        assert!(partial.push(&job(), "ab", 0).is_none());
    }
    let shown = partial.push(&job(), "c", 0).unwrap();
    assert_eq!(shown.translated_text, "ababababababab".to_string() + "c");
    assert!(shown.is_partial);
    assert_eq!(shown.sequence_id, 4);
    assert!(partial.push(&job(), "d", 249).is_none());
    assert!(partial.push(&job(), "e", 250).unwrap().translated_text.ends_with("cde"));
    let done = finish_translation(&job(), Ok("Hello".to_string())).unwrap();
    assert_eq!((done.original_text.as_str(), done.translated_text.as_str()), ("你好", "Hello"));
    assert_eq!((done.source_lang.as_str(), done.target_lang.as_str()), ("zh", "en"));
    assert!(!done.is_partial);
    assert!(finish_translation(&job(), Err("no".to_string())).is_none());
}

#[test]
fn engines_tell_who_translates() {
    assert!(matches!(translation_route("custom:p1"), TranslationRoute::Custom(id) if id == "p1"));
    assert!(matches!(translation_route("hymt2"), TranslationRoute::Hymt2));
    assert!(matches!(translation_route("opus"), TranslationRoute::Opus));
}

fn restored(engine: &str, target: &str, home: &str) -> TranslationSettings {
    let mut settings = TranslationSettings::new();
    restore_translation(
        &mut settings,
        Some(engine.to_string()),
        Some(target.to_string()),
        Some(home.to_string()),
        &supported(),
    );
    settings
}

#[test]
fn selections_survive_a_restart() {
    let settings = restored("custom:p1", "fr", "ja");
    assert_eq!(settings.engine, "custom:p1");
    assert_eq!(settings.target, "fr");
    assert_eq!(settings.home, "ja");
    let settings = restored("other", "auto", "en");
    assert_eq!(settings.engine, "opus");
    assert_eq!(settings.target, "zh");
    assert_eq!(restored("hymt2", "auto", "fr").home, "zh");
    let mut untouched = TranslationSettings::new();
    restore_translation(&mut untouched, None, None, None, &supported());
    assert_eq!(untouched.target, "en");
}

#[test]
fn installed_models_are_got_ready_in_advance() {
    let plan = preload_plan("hymt2", true, true, true);
    assert!(plan.hymt2 && !plan.zh_en && !plan.en_zh);
    let plan = preload_plan("custom:p", true, true, false);
    assert!(!plan.hymt2 && plan.zh_en && !plan.en_zh);
}
