//! Settings that outlive a session, and small requests of the user interface.

use vstd::prelude::*;
#[allow(unused_imports)]
use vstd::string::StringExecFns;

use crate::text;
use crate::text::{concat2, concat3, decimal, listed, lowercase, same, starts_with};
use crate::translation;
use crate::translation::{default_target_for_home, SettingsView, TranslationSettings};

verus! {

/// Whether a stored engine can be used again: a built-in one, or the server of a profile.
pub open spec fn is_engine(engine: Seq<char>) -> bool {
    engine == "opus"@ || engine == "hymt2"@ || "custom:"@.is_prefix_of(engine)
}

/// Whether a stored language can be the one that the user works in.
pub open spec fn is_home(home: Seq<char>) -> bool {
    home == "en"@ || home == "zh"@ || home == "ko"@ || home == "ja"@
}

/// The settings after those that were stored are read back. What cannot be used is passed over;
/// a target language that cannot, such as the former `auto`, becomes the default for the language
/// that the user works in.
pub open spec fn restored(
    settings: SettingsView,
    engine: Option<Seq<char>>,
    target: Option<Seq<char>>,
    home: Option<Seq<char>>,
    supported: Seq<Seq<char>>,
) -> SettingsView {
    let new_home = match home {
        Some(h) if is_home(h) => h,
        _ => settings.home,
    };
    SettingsView {
        enabled: settings.enabled,
        engine: match engine {
            Some(e) if is_engine(e) => e,
            _ => settings.engine,
        },
        home: new_home,
        target: match target {
            Some(t) => if supported.contains(t) {
                t
            } else {
                translation::default_target(new_home)
            },
            None => settings.target,
        },
    }
}

/// Reads back the settings that were stored.
pub fn restore_translation(
    settings: &mut TranslationSettings,
    engine: Option<String>,
    target: Option<String>,
    home: Option<String>,
    supported: &Vec<String>,
)
    ensures
        final(settings)@ == restored(
            old(settings)@,
            text::opt_text(engine),
            text::opt_text(target),
            text::opt_text(home),
            text::texts(supported@),
        ),
{
    match engine {
        Some(e) => {
            if same(e.as_str(), "opus") || same(e.as_str(), "hymt2") || starts_with(
                e.as_str(),
                "custom:",
            ) {
                settings.engine = e;
            }
        },
        None => {},
    }
    match home {
        Some(h) => {
            if same(h.as_str(), "en") || same(h.as_str(), "zh") || same(h.as_str(), "ko") || same(
                h.as_str(),
                "ja",
            ) {
                settings.home = h;
            }
        },
        None => {},
    }
    match target {
        Some(t) => {
            settings.target = if listed(supported, t.as_str()) {
                t
            } else {
                default_target_for_home(settings.home.as_str())
            };
        },
        None => {},
    }
}

/// What was chosen before a restart is chosen after it: settings that can be used are read back
/// as they were, whatever the settings were before.
pub proof fn choices_survive_a_restart(
    before: SettingsView,
    chosen: SettingsView,
    supported: Seq<Seq<char>>,
)
    requires
        is_engine(chosen.engine),
        is_home(chosen.home),
        supported.contains(chosen.target),
    ensures
        restored(
            before,
            Some(chosen.engine),
            Some(chosen.target),
            Some(chosen.home),
            supported,
        ) == (SettingsView { enabled: before.enabled, ..chosen }),
{
}

/// Settings that were read back can be used: they are sound where they were so before.
pub proof fn restored_settings_are_sound(
    before: SettingsView,
    engine: Option<Seq<char>>,
    target: Option<Seq<char>>,
    home: Option<Seq<char>>,
    supported: Seq<Seq<char>>,
)
    requires
        is_engine(before.engine),
        is_home(before.home),
        supported.contains(before.target),
        supported.contains("zh"@),
        supported.contains("en"@),
    ensures
        ({
            let after = restored(before, engine, target, home, supported);
            is_engine(after.engine) && is_home(after.home) && supported.contains(after.target)
        }),
{
}

/// What is got ready in advance, so that the first translation does not wait.
#[derive(Clone, Copy, Debug, PartialEq, Eq, Structural)]
pub struct Preload {
    pub hymt2: bool,
    pub zh_en: bool,
    pub en_zh: bool,
}

/// What is got ready in advance for an engine: of the models that it uses, those that are
/// installed.
pub fn preload_plan(
    engine: &str,
    hymt2_installed: bool,
    zh_en_installed: bool,
    en_zh_installed: bool,
) -> (r: Preload)
    ensures
        r == (if engine@ == "hymt2"@ {
            Preload { hymt2: hymt2_installed, zh_en: false, en_zh: false }
        } else {
            Preload { hymt2: false, zh_en: zh_en_installed, en_zh: en_zh_installed }
        }),
{
    if same(engine, "hymt2") {
        Preload { hymt2: hymt2_installed, zh_en: false, en_zh: false }
    } else {
        Preload { hymt2: false, zh_en: zh_en_installed, en_zh: en_zh_installed }
    }
}

/// The language that speech is recognized in, `auto` until the user chooses one.
#[derive(Debug)]
pub struct LanguagePreference {
    pub language: String,
}

impl LanguagePreference {
    /// The language is found out by itself.
    pub fn new() -> (r: Self)
        ensures
            r.language@ == "auto"@,
    {
        LanguagePreference { language: "auto".to_owned() }
    }

    /// Sets the language.
    pub fn set_language_preference(&mut self, language: String)
        ensures
            final(self).language@ == language@,
    {
        self.language = language;
    }
}

/// The language that speech is recognized in; nothing where it cannot be read.
pub fn get_language_preference_internal(preference: Option<&LanguagePreference>) -> (r: Option<
    String,
>)
    ensures
        text::opt_text(r) == (match preference {
            Some(p) => Some(p.language@),
            None => None,
        }),
{
    match preference {
        Some(p) => Some(p.language.clone()),
        None => None,
    }
}

/// How grave a log message is.
#[derive(Clone, Copy, Debug, PartialEq, Eq, Structural)]
pub enum LogLevel {
    Trace,
    Debug,
    Info,
    Warn,
    Error,
}

/// The gravity that a name in lower case stands for; an unknown one is for information.
pub open spec fn level_of(name: Seq<char>) -> LogLevel {
    if name == "trace"@ {
        LogLevel::Trace
    } else if name == "debug"@ {
        LogLevel::Debug
    } else if name == "warn"@ {
        LogLevel::Warn
    } else if name == "error"@ {
        LogLevel::Error
    } else {
        LogLevel::Info
    }
}

/// The gravity that a name in lower case stands for.
pub fn log_level(name: &str) -> (r: LogLevel)
    ensures
        r == level_of(name@),
        r == LogLevel::Trace <==> name@ == "trace"@,
        r == LogLevel::Debug <==> name@ == "debug"@,
        r == LogLevel::Warn <==> name@ == "warn"@,
        r == LogLevel::Error <==> name@ == "error"@,
{
    proof {
        reveal_strlit("trace");
        reveal_strlit("debug");
        reveal_strlit("warn");
        reveal_strlit("error");
        assert("trace"@[0] == 't' && "debug"@[0] == 'd' && "warn"@[0] == 'w' && "error"@[0] == 'e');
    }
    if same(name, "trace") {
        LogLevel::Trace
    } else if same(name, "debug") {
        LogLevel::Debug
    } else if same(name, "warn") {
        LogLevel::Warn
    } else if same(name, "error") {
        LogLevel::Error
    } else {
        LogLevel::Info
    }
}

/// A message with the place that it comes from.
pub open spec fn located(message: Seq<char>, file: Option<Seq<char>>, line: Option<u32>) -> Seq<
    char,
> {
    match (file, line) {
        (Some(f), Some(l)) => "["@ + f + (":"@ + text::numeral(l as nat) + "] "@) + message,
        (Some(f), None) => "["@ + f + "] "@ + message,
        _ => message,
    }
}

/// A message of the user interface as it goes into the log: how grave it is, and its text with
/// the place that it comes from.
pub fn frontend_log(level: &str, message: &str, file: Option<String>, line: Option<u32>) -> (r: (
    LogLevel,
    String,
))
    ensures
        r.0 == level_of(text::lowercase_text(level@)),
        r.1@ == located(message@, text::opt_text(file), line),
{
    let full: String = match (file, line) {
        (Some(f), Some(l)) => {
            let place: String = concat3(
                "[",
                f.as_str(),
                concat3(":", decimal(l as u64).as_str(), "] ").as_str(),
            );
            concat2(place.as_str(), message)
        },
        (Some(f), None) => concat2(concat3("[", f.as_str(), "] ").as_str(), message),
        _ => message.to_owned(),
    };
    (log_level(lowercase(level).as_str()), full)
}

/// Which treatments audio gets.
#[derive(Clone, Copy, Debug, PartialEq, Eq, Structural)]
pub struct AudioFlags {
    pub agc: bool,
    pub rnnoise: bool,
    pub ebu: bool,
}

/// Sets the treatments that are named and leaves the others.
pub fn set_audio_processing_flags(
    flags: &mut AudioFlags,
    agc: Option<bool>,
    rnnoise: Option<bool>,
    ebu: Option<bool>,
)
    ensures
        *final(flags) == (AudioFlags {
            agc: match agc {
                Some(v) => v,
                None => old(flags).agc,
            },
            rnnoise: match rnnoise {
                Some(v) => v,
                None => old(flags).rnnoise,
            },
            ebu: match ebu {
                Some(v) => v,
                None => old(flags).ebu,
            },
        }),
{
    match agc {
        Some(v) => {
            flags.agc = v;
        },
        None => {},
    }
    match rnnoise {
        Some(v) => {
            flags.rnnoise = v;
        },
        None => {},
    }
    match ebu {
        Some(v) => {
            flags.ebu = v;
        },
        None => {},
    }
}

/// Of what was stored, a known engine and a known language are taken over, and anything else in
/// their place is passed over. A target is taken over where it is supported; one that is not gives
/// way to Chinese for those who work in English and to English for all others.
pub proof fn stored_settings_are_taken_over(
    before: SettingsView,
    engine: Option<Seq<char>>,
    target: Option<Seq<char>>,
    home: Option<Seq<char>>,
    supported: Seq<Seq<char>>,
)
    ensures
        ({
            let after = restored(before, engine, target, home, supported);
            let engine_known = engine is Some && (engine->0 == "opus"@ || engine->0 == "hymt2"@
                || "custom:"@.is_prefix_of(engine->0));
            let home_known = home is Some && (home->0 == "en"@ || home->0 == "zh"@ || home->0
                == "ko"@ || home->0 == "ja"@);
            &&& after.enabled == before.enabled
            &&& engine_known ==> after.engine == engine->0
            &&& !engine_known ==> after.engine == before.engine
            &&& home_known ==> after.home == home->0
            &&& !home_known ==> after.home == before.home
            &&& target is None ==> after.target == before.target
            &&& target is Some && supported.contains(target->0) ==> after.target == target->0
            &&& target is Some && !supported.contains(target->0) && after.home == "en"@
                ==> after.target == "zh"@
            &&& target is Some && !supported.contains(target->0) && after.home != "en"@
                ==> after.target == "en"@
        }),
{
}

/// A message is logged behind the place that it comes from, in brackets: the file, and the line
/// where both are known. Without a file it is logged as it is.
pub proof fn messages_are_logged_with_their_place(
    message: Seq<char>,
    file: Seq<char>,
    line: u32,
)
    ensures
        located(message, Some(file), Some(line)) == "["@ + file + ":"@ + text::numeral(line as nat)
            + "] "@ + message,
        located(message, Some(file), None) == "["@ + file + "] "@ + message,
        located(message, None, Some(line)) == message,
        located(message, None, None) == message,
{
    assert(located(message, Some(file), Some(line)) =~= "["@ + file + ":"@ + text::numeral(
        line as nat,
    ) + "] "@ + message);
}

} // verus!
