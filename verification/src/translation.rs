//! Translation of transcripts: which language a text is in, which way it is translated, and
//! which engine does it.

use vstd::prelude::*;
#[allow(unused_imports)]
use vstd::string::StringExecFns;

use crate::text;
use crate::text::{chars_of, concat2, concat3, listed, same, starts_with};

verus! {

/// The directory of the model that translates Chinese to English.
pub const MODEL_DIR_ZH_EN: &'static str = "opus-mt-zh-en";

/// The directory of the model that translates English to Chinese.
pub const MODEL_DIR_EN_ZH: &'static str = "opus-mt-en-zh";

/// How transcripts are translated.
#[derive(Debug)]
pub struct TranslationSettings {
    /// Whether segments are translated as they come.
    pub enabled: bool,
    /// The language to translate to.
    pub target: String,
    /// The language that the user works in: `en`, `zh`, `ko` or `ja`.
    pub home: String,
    /// `opus`, `hymt2`, or `custom:` and the identifier of a profile.
    pub engine: String,
}

/// The settings as a mathematical value.
pub struct SettingsView {
    pub enabled: bool,
    pub target: Seq<char>,
    pub home: Seq<char>,
    pub engine: Seq<char>,
}

impl View for TranslationSettings {
    type V = SettingsView;

    open spec fn view(&self) -> SettingsView {
        SettingsView {
            enabled: self.enabled,
            target: self.target@,
            home: self.home@,
            engine: self.engine@,
        }
    }
}

impl TranslationSettings {
    /// The settings before the user has made any: off, from Chinese to English, with the built-in
    /// engine.
    pub fn new() -> (r: Self)
        ensures
            r@ == (SettingsView { enabled: false, target: "en"@, home: "zh"@, engine: "opus"@ }),
    {
        TranslationSettings {
            enabled: false,
            target: "en".to_owned(),
            home: "zh".to_owned(),
            engine: "opus".to_owned(),
        }
    }
}

/// The engine in use; `opus` where the settings cannot be read.
pub fn current_engine(settings: Option<&TranslationSettings>) -> (r: String)
    ensures
        r@ == (match settings {
            Some(s) => s@.engine,
            None => "opus"@,
        }),
{
    match settings {
        Some(s) => s.engine.clone(),
        None => "opus".to_owned(),
    }
}

/// The language to translate to; `en` where the settings cannot be read.
pub fn target_lang(settings: Option<&TranslationSettings>) -> (r: String)
    ensures
        r@ == (match settings {
            Some(s) => s@.target,
            None => "en"@,
        }),
{
    match settings {
        Some(s) => s.target.clone(),
        None => "en".to_owned(),
    }
}

/// The language that the user works in; `zh` where the settings cannot be read.
pub fn home_lang(settings: Option<&TranslationSettings>) -> (r: String)
    ensures
        r@ == (match settings {
            Some(s) => s@.home,
            None => "zh"@,
        }),
{
    match settings {
        Some(s) => s.home.clone(),
        None => "zh".to_owned(),
    }
}

/// The language that someone who works in `home` translates to by default.
pub open spec fn default_target(home: Seq<char>) -> Seq<char> {
    if home == "en"@ {
        "zh"@
    } else {
        "en"@
    }
}

/// The language that someone who works in `home` translates to by default.
pub fn default_target_for_home(home: &str) -> (r: String)
    ensures
        r@ == default_target(home@),
        r@ == (if home@ == "en"@ {
            "zh"@
        } else {
            "en"@
        }),
{
    if same(home, "en") {
        "zh".to_owned()
    } else {
        "en".to_owned()
    }
}

/// How many characters of a text are of a kind.
pub open spec fn count_of(s: Seq<char>, kind: spec_fn(char) -> bool) -> nat
    decreases s.len(),
{
    if s.len() == 0 {
        0
    } else {
        count_of(s.drop_last(), kind) + (if kind(s.last()) {
            1nat
        } else {
            0nat
        })
    }
}

/// Whether a character is Chinese.
pub open spec fn is_hanzi(c: char) -> bool {
    0x4E00 <= c as u32 <= 0x9FFF || 0x3400 <= c as u32 <= 0x4DBF
}

/// Whether a character is Korean.
pub open spec fn is_hangul(c: char) -> bool {
    0xAC00 <= c as u32 <= 0xD7AF || 0x1100 <= c as u32 <= 0x11FF
}

/// Whether a character is Japanese kana.
pub open spec fn is_kana(c: char) -> bool {
    0x3040 <= c as u32 <= 0x30FF
}

/// Whether Chinese characters make up more than three tenths of a text, not counting white space.
pub open spec fn mostly_hanzi(s: Seq<char>) -> bool {
    count_of(s, |c: char| is_hanzi(c)) * 10 > count_of(s, |c: char| !text::is_white_space(c)) * 3
}

/// Whether a text has a character of a kind.
pub open spec fn has_kind(s: Seq<char>, kind: spec_fn(char) -> bool) -> bool {
    exists|i: int| 0 <= i < s.len() && kind(#[trigger] s[i])
}

/// The language of a text, as far as its characters tell.
pub open spec fn source_lang(s: Seq<char>) -> Seq<char> {
    if has_kind(s, |c: char| is_hangul(c)) {
        "ko"@
    } else if has_kind(s, |c: char| is_kana(c)) {
        "ja"@
    } else if mostly_hanzi(s) {
        "zh"@
    } else {
        "en"@
    }
}

proof fn hanzi_are_no_white_space(s: Seq<char>)
    ensures
        count_of(s, |c: char| is_hanzi(c)) <= count_of(s, |c: char| !text::is_white_space(c)),
    decreases s.len(),
{
    if s.len() > 0 {
        hanzi_are_no_white_space(s.drop_last());
    }
}

/// Whether Chinese characters make up more than three tenths of a text, not counting white space.
pub fn is_chinese_dominant(text: &str) -> (r: bool)
    ensures
        r == mostly_hanzi(text@),
{
    let chars: Vec<char> = chars_of(text);
    let ghost hanzi_kind = |c: char| is_hanzi(c);
    let ghost word_kind = |c: char| !text::is_white_space(c);
    let mut total: usize = 0;
    let mut hanzi: usize = 0;
    let mut i: usize = 0;
    while i < chars.len()
        invariant
            chars@ == text@,
            0 <= i <= chars@.len(),
            total <= i,
            hanzi <= i,
            hanzi_kind == (|c: char| is_hanzi(c)),
            word_kind == (|c: char| !text::is_white_space(c)),
            total == count_of(text@.take(i as int), word_kind),
            hanzi == count_of(text@.take(i as int), hanzi_kind),
        decreases chars@.len() - i,
    {
        let c: char = chars[i];
        assert(text@.take(i + 1).drop_last() =~= text@.take(i as int));
        assert(text@.take(i + 1).last() == c);
        if !c.is_whitespace() {
            total += 1;
        }
        let u: u32 = c as u32;
        if (0x4E00 <= u && u <= 0x9FFF) || (0x3400 <= u && u <= 0x4DBF) {
            hanzi += 1;
        }
        i += 1;
    }
    assert(text@.take(i as int) =~= text@);
    proof {
        hanzi_are_no_white_space(text@);
    }
    if total == 0 {
        return false;
    }
    hanzi as u128 * 10 > total as u128 * 3
}

/// The language of a text, as far as its characters tell: Korean where it has hangul, Japanese
/// where it has kana, Chinese where Chinese characters make up more than three tenths of it, and
/// English otherwise.
pub fn detect_source_lang(text: &str) -> (r: &'static str)
    ensures
        r@ == source_lang(text@),
{
    let chars: Vec<char> = chars_of(text);
    let ghost hangul_kind = |c: char| is_hangul(c);
    let ghost kana_kind = |c: char| is_kana(c);
    let mut has_hangul: bool = false;
    let mut has_kana: bool = false;
    let mut i: usize = 0;
    while i < chars.len()
        invariant
            chars@ == text@,
            0 <= i <= chars@.len(),
            hangul_kind == (|c: char| is_hangul(c)),
            kana_kind == (|c: char| is_kana(c)),
            has_hangul == has_kind(text@.take(i as int), hangul_kind),
            has_kana == has_kind(text@.take(i as int), kana_kind),
        decreases chars@.len() - i,
    {
        let u: u32 = chars[i] as u32;
        let ghost before = text@.take(i as int);
        let ghost after = text@.take(i + 1);
        let hangul: bool = (0xAC00 <= u && u <= 0xD7AF) || (0x1100 <= u && u <= 0x11FF);
        let kana: bool = 0x3040 <= u && u <= 0x30FF;
        proof {
            one_more_char(before, after, hangul_kind);
            one_more_char(before, after, kana_kind);
        }
        if hangul {
            has_hangul = true;
        } else if kana {
            has_kana = true;
        }
        i += 1;
    }
    assert(text@.take(i as int) =~= text@);
    if has_hangul {
        "ko"
    } else if has_kana {
        "ja"
    } else if is_chinese_dominant(text) {
        "zh"
    } else {
        "en"
    }
}

proof fn one_more_char(before: Seq<char>, after: Seq<char>, kind: spec_fn(char) -> bool)
    requires
        after.len() == before.len() + 1,
        forall|i: int| 0 <= i < before.len() ==> #[trigger] after[i] == before[i],
    ensures
        has_kind(after, kind) == (has_kind(before, kind) || kind(after.last())),
{
    if has_kind(before, kind) {
        let i = choose|i: int| 0 <= i < before.len() && kind(#[trigger] before[i]);
        assert(kind(after[i]));
    }
    if kind(after.last()) {
        assert(kind(after[after.len() - 1]));
    }
    if has_kind(after, kind) && !kind(after.last()) {
        let i = choose|i: int| 0 <= i < after.len() && kind(#[trigger] after[i]);
        assert(kind(before[i]));
    }
}

/// The characters of a text that are not white space.
pub open spec fn letters(s: Seq<char>) -> Seq<char> {
    s.filter(|c: char| !text::is_white_space(c))
}

proof fn counts_go_by_letters(s: Seq<char>, kind: spec_fn(char) -> bool)
    requires
        forall|c: char| #[trigger] kind(c) ==> !text::is_white_space(c),
    ensures
        count_of(s, kind) == letters(s).to_multiset().filter(kind).len(),
    decreases s.len(),
{
    broadcast use vstd::multiset::group_multiset_axioms;
    reveal(Seq::filter);
    if s.len() == 0 {
        letters(s).to_multiset_ensures();
        assert(letters(s).to_multiset() =~= vstd::multiset::Multiset::empty());
        assert(letters(s).to_multiset().filter(kind) =~= vstd::multiset::Multiset::empty());
    } else {
        let rest = s.drop_last();
        let c = s.last();
        counts_go_by_letters(rest, kind);
        letters(rest).to_multiset_ensures();
        let m = letters(rest).to_multiset();
        if !text::is_white_space(c) {
            assert(letters(s) =~= letters(rest).push(c));
            if kind(c) {
                assert(m.insert(c).filter(kind) =~= m.filter(kind).insert(c));
            } else {
                assert(m.insert(c).filter(kind) =~= m.filter(kind));
            }
        } else {
            assert(letters(s) =~= letters(rest));
        }
    }
}

proof fn kinds_are_counted(s: Seq<char>, kind: spec_fn(char) -> bool)
    ensures
        has_kind(s, kind) == (count_of(s, kind) > 0),
    decreases s.len(),
{
    if s.len() > 0 {
        kinds_are_counted(s.drop_last(), kind);
        one_more_char(s.drop_last(), s, kind);
    }
}

proof fn counts_add_up(a: Seq<char>, b: Seq<char>, kind: spec_fn(char) -> bool)
    ensures
        count_of(a + b, kind) == count_of(a, kind) + count_of(b, kind),
    decreases b.len(),
{
    if b.len() == 0 {
        assert(a + b =~= a);
    } else {
        counts_add_up(a, b.drop_last(), kind);
        assert((a + b).drop_last() =~= a + b.drop_last());
    }
}

/// Neither the order of the characters nor white space matters to the language of a text.
pub proof fn order_and_spaces_do_not_matter(a: Seq<char>, b: Seq<char>)
    requires
        letters(a).to_multiset() == letters(b).to_multiset(),
    ensures
        source_lang(a) == source_lang(b),
        mostly_hanzi(a) == mostly_hanzi(b),
{
    let hangul = |c: char| is_hangul(c);
    let kana = |c: char| is_kana(c);
    let hanzi = |c: char| is_hanzi(c);
    let word = |c: char| !text::is_white_space(c);
    counts_go_by_letters(a, hangul);
    counts_go_by_letters(b, hangul);
    counts_go_by_letters(a, kana);
    counts_go_by_letters(b, kana);
    counts_go_by_letters(a, hanzi);
    counts_go_by_letters(b, hanzi);
    counts_go_by_letters(a, word);
    counts_go_by_letters(b, word);
    kinds_are_counted(a, hangul);
    kinds_are_counted(b, hangul);
    kinds_are_counted(a, kana);
    kinds_are_counted(b, kana);
}

/// The language of two texts joined: Korean where either is; Japanese where either is and none is
/// Korean; and where both have the same language, that one.
pub proof fn joined_texts_keep_their_language(a: Seq<char>, b: Seq<char>)
    ensures
        source_lang(a + b) == "ko"@ <==> source_lang(a) == "ko"@ || source_lang(b) == "ko"@,
        source_lang(a + b) == "ja"@ <==> source_lang(a) != "ko"@ && source_lang(b) != "ko"@ && (
        source_lang(a) == "ja"@ || source_lang(b) == "ja"@),
        source_lang(a) == source_lang(b) ==> source_lang(a + b) == source_lang(a),
{
    let hangul = |c: char| is_hangul(c);
    let kana = |c: char| is_kana(c);
    let hanzi = |c: char| is_hanzi(c);
    let word = |c: char| !text::is_white_space(c);
    counts_add_up(a, b, hangul);
    counts_add_up(a, b, kana);
    counts_add_up(a, b, hanzi);
    counts_add_up(a, b, word);
    kinds_are_counted(a, hangul);
    kinds_are_counted(b, hangul);
    kinds_are_counted(a + b, hangul);
    kinds_are_counted(a, kana);
    kinds_are_counted(b, kana);
    kinds_are_counted(a + b, kana);
    reveal_strlit("ko");
    reveal_strlit("ja");
    reveal_strlit("zh");
    reveal_strlit("en");
    assert("ko"@[0] == 'k' && "ja"@[0] == 'j' && "zh"@[0] == 'z' && "en"@[0] == 'e');
}

/// Whether an engine translates between many languages, rather than Chinese and English alone.
pub open spec fn is_multilingual(engine: Seq<char>) -> bool {
    engine == "hymt2"@ || "custom:"@.is_prefix_of(engine)
}

/// A way to translate: its name, the language it is from and the one it is to.
pub open spec fn way(from: Seq<char>, to: Seq<char>) -> (Seq<char>, Seq<char>, Seq<char>) {
    (from + "-"@ + to, from, to)
}

/// The language to translate to, where the stored target may be `auto`.
pub open spec fn effective_target(
    engine: Seq<char>,
    home: Seq<char>,
    source: Seq<char>,
    target: Seq<char>,
) -> Seq<char> {
    if target != "auto"@ {
        target
    } else if is_multilingual(engine) {
        default_target(home)
    } else if source == "zh"@ {
        "en"@
    } else {
        "zh"@
    }
}

/// The language of a text, as an engine sees it.
pub open spec fn source_for(engine: Seq<char>, s: Seq<char>) -> Seq<char> {
    if is_multilingual(engine) {
        source_lang(s)
    } else if mostly_hanzi(s) {
        "zh"@
    } else {
        "en"@
    }
}

/// Whether an engine translates to a language.
pub open spec fn reaches(engine: Seq<char>, supported: Seq<Seq<char>>, to: Seq<char>) -> bool {
    if is_multilingual(engine) {
        supported.contains(to)
    } else {
        to == "zh"@ || to == "en"@
    }
}

/// Which way a text is translated; `None` where there is nothing to do: it is in the target
/// language already, or the engine does not translate to that language.
pub open spec fn direction_of(
    engine: Seq<char>,
    home: Seq<char>,
    supported: Seq<Seq<char>>,
    s: Seq<char>,
    target: Seq<char>,
) -> Option<(Seq<char>, Seq<char>, Seq<char>)> {
    let from = source_for(engine, s);
    let to = effective_target(engine, home, from, target);
    if from == to || !reaches(engine, supported, to) {
        None
    } else {
        Some(way(from, to))
    }
}

/// The view of a way to translate.
pub open spec fn way_view(r: Option<(String, String, String)>) -> Option<
    (Seq<char>, Seq<char>, Seq<char>),
> {
    match r {
        Some(w) => Some((w.0@, w.1@, w.2@)),
        None => None,
    }
}

/// Which way a text is translated: the name of the direction, the language it is from and the
/// language it is to. `supported` are the languages that the multilingual engines translate to.
pub fn resolve_direction(
    engine: &str,
    home: &str,
    supported: &Vec<String>,
    text: &str,
    target: &str,
) -> (r: Option<(String, String, String)>)
    ensures
        way_view(r) == direction_of(engine@, home@, text::texts(supported@), text@, target@),
{
    proof {
        reveal_strlit("zh");
        reveal_strlit("en");
        reveal_strlit("zh-en");
        reveal_strlit("en-zh");
        reveal_strlit("-");
        reveal_strlit("auto");
        assert("zh"@[0] != "en"@[0]);
    }
    if same(engine, "hymt2") || starts_with(engine, "custom:") {
        let source: &'static str = detect_source_lang(text);
        let to: String = if same(target, "auto") {
            default_target_for_home(home)
        } else {
            target.to_owned()
        };
        if same(source, to.as_str()) || !listed(supported, to.as_str()) {
            return None;
        }
        Some((concat3(source, "-", to.as_str()), source.to_owned(), to))
    } else {
        if !same(target, "auto") && !same(target, "zh") && !same(target, "en") {
            return None;
        }
        let chinese: bool = is_chinese_dominant(text);
        let source: &str = if chinese {
            "zh"
        } else {
            "en"
        };
        let to: &str = if same(target, "auto") {
            if chinese {
                "en"
            } else {
                "zh"
            }
        } else {
            target
        };
        if same(source, to) {
            None
        } else {
            Some((concat3(source, "-", to), source.to_owned(), to.to_owned()))
        }
    }
}

/// A text is never translated into the language that it is in, and never into one that the
/// engine does not translate to; the direction names both languages.
pub proof fn directions_are_sensible(
    engine: Seq<char>,
    home: Seq<char>,
    supported: Seq<Seq<char>>,
    s: Seq<char>,
    target: Seq<char>,
)
    ensures
        direction_of(engine, home, supported, s, target) matches Some(w) ==> {
            &&& w.1 == source_for(engine, s)
            &&& w.1 != w.2
            &&& reaches(engine, supported, w.2)
            &&& w.0 == w.1 + "-"@ + w.2
            &&& target != "auto"@ ==> w.2 == target
        },
{
}

/// The language that the user works in matters only where the target is left open.
pub proof fn home_matters_only_for_auto(
    engine: Seq<char>,
    home: Seq<char>,
    other: Seq<char>,
    supported: Seq<Seq<char>>,
    s: Seq<char>,
    target: Seq<char>,
)
    requires
        target != "auto"@ || !is_multilingual(engine),
    ensures
        direction_of(engine, home, supported, s, target) == direction_of(
            engine,
            other,
            supported,
            s,
            target,
        ),
{
}

/// The two ways that the built-in engine translates.
#[derive(Clone, Copy, Debug, PartialEq, Eq, Structural)]
pub enum OpusDirection {
    ZhEn,
    EnZh,
}

/// The built-in way that a direction names.
pub open spec fn opus_direction(direction: Seq<char>) -> Option<OpusDirection> {
    if direction == "zh-en"@ {
        Some(OpusDirection::ZhEn)
    } else if direction == "en-zh"@ {
        Some(OpusDirection::EnZh)
    } else {
        None
    }
}

fn opus_named(direction: &str) -> (r: Option<OpusDirection>)
    ensures
        r == opus_direction(direction@),
{
    if same(direction, "zh-en") {
        Some(OpusDirection::ZhEn)
    } else if same(direction, "en-zh") {
        Some(OpusDirection::EnZh)
    } else {
        None
    }
}

/// The directory of the model for one of the built-in ways.
pub open spec fn opus_dir(direction: OpusDirection) -> Seq<char> {
    match direction {
        OpusDirection::ZhEn => MODEL_DIR_ZH_EN@,
        OpusDirection::EnZh => MODEL_DIR_EN_ZH@,
    }
}

fn opus_dir_name(direction: OpusDirection) -> (r: String)
    ensures
        r@ == opus_dir(direction),
{
    match direction {
        OpusDirection::ZhEn => MODEL_DIR_ZH_EN.to_owned(),
        OpusDirection::EnZh => MODEL_DIR_EN_ZH.to_owned(),
    }
}

/// The built-in engines that are loaded, at most one for each way.
#[derive(Debug)]
pub struct EngineSlots<E> {
    pub zh_en: Option<E>,
    pub en_zh: Option<E>,
}

impl<E> EngineSlots<E> {
    /// The engine loaded for one of the built-in ways.
    pub open spec fn slot(&self, direction: OpusDirection) -> Option<E> {
        match direction {
            OpusDirection::ZhEn => self.zh_en,
            OpusDirection::EnZh => self.en_zh,
        }
    }

    /// No engine loaded.
    pub fn new() -> (r: Self)
        ensures
            forall|d: OpusDirection| #[trigger] r.slot(d) is None,
    {
        EngineSlots { zh_en: None, en_zh: None }
    }

    fn is_loaded(&self, direction: OpusDirection) -> (r: bool)
        ensures
            r == self.slot(direction) is Some,
    {
        match direction {
            OpusDirection::ZhEn => self.zh_en.is_some(),
            OpusDirection::EnZh => self.en_zh.is_some(),
        }
    }

    /// The model to load before a text can be translated in a direction, or `None` where its
    /// engine is there already.
    pub fn model_to_load(&self, direction: &str) -> (r: Result<Option<String>, String>)
        ensures
            match opus_direction(direction@) {
                Some(d) => r matches Ok(dir) && text::opt_text(dir) == (if self.slot(d) is Some {
                    None
                } else {
                    Some(opus_dir(d))
                }),
                None => r matches Err(e) && e@ == "不支持的翻译方向: "@ + direction@,
            },
    {
        match opus_named(direction) {
            Some(d) => {
                if self.is_loaded(d) {
                    Ok(None)
                } else {
                    Ok(Some(opus_dir_name(d)))
                }
            },
            None => Err(concat2("不支持的翻译方向: ", direction)),
        }
    }
}

/// Makes the engine for a direction available, and says which slot it is in. `loaded` is what
/// came of loading its model, where that was needed; an engine that is there already is kept.
pub fn get_engine<E>(
    slots: &mut EngineSlots<E>,
    direction: &str,
    loaded: Option<Result<E, String>>,
) -> (r: Result<OpusDirection, String>)
    requires
        opus_direction(direction@) matches Some(d) ==> old(slots).slot(d) is Some || loaded is Some,
    ensures
        match opus_direction(direction@) {
            None => *final(slots) == *old(slots) && (r matches Err(e) && e@
                == "不支持的翻译方向: "@ + direction@),
            Some(d) => {
                &&& forall|o: OpusDirection| o != d ==> #[trigger] final(slots).slot(o) == old(
                    slots,
                ).slot(o)
                &&& if old(slots).slot(d) is Some {
                    r == Ok::<OpusDirection, String>(d) && final(slots).slot(d) == old(slots).slot(
                        d,
                    )
                } else {
                    match loaded->0 {
                        Ok(engine) => r == Ok::<OpusDirection, String>(d) && final(slots).slot(d)
                            == Some(engine),
                        Err(e) => r == Err::<OpusDirection, String>(e) && final(slots).slot(
                            d,
                        ) is None,
                    }
                }
            },
        },
{
    let d: OpusDirection = match opus_named(direction) {
        Some(d) => d,
        None => return Err(concat2("不支持的翻译方向: ", direction)),
    };
    if slots.is_loaded(d) {
        return Ok(d);
    }
    match loaded {
        Some(Ok(engine)) => {
            match d {
                OpusDirection::ZhEn => {
                    slots.zh_en = Some(engine);
                },
                OpusDirection::EnZh => {
                    slots.en_zh = Some(engine);
                },
            }
            Ok(d)
        },
        Some(Err(e)) => Err(e),
        None => Ok(d),
    }
}

/// Lets go of the built-in engines, for both ways.
pub fn unload_opus_engines<E>(slots: &mut EngineSlots<E>)
    ensures
        forall|d: OpusDirection| #[trigger] final(slots).slot(d) is None,
{
    slots.zh_en = None;
    slots.en_zh = None;
}

/// Whether the model for a direction is complete: `present` are the names of the files in its
/// directory, `required` those that a model has.
pub fn is_model_installed(direction: &str, required: &Vec<String>, present: &Vec<String>) -> (r:
    bool)
    ensures
        r == (opus_direction(direction@) is Some && forall|i: int|
            0 <= i < required@.len() ==> text::texts(present@).contains(
                (#[trigger] required@[i])@,
            )),
{
    if opus_named(direction).is_none() {
        return false;
    }
    let mut i: usize = 0;
    while i < required.len()
        invariant
            0 <= i <= required@.len(),
            forall|k: int|
                0 <= k < i ==> text::texts(present@).contains((#[trigger] required@[k])@),
        decreases required@.len() - i,
    {
        if !listed(present, required[i].as_str()) {
            return false;
        }
        i += 1;
    }
    true
}

/// The directory in which the model for a direction is looked for.
pub fn model_dir(direction: &str) -> (r: Option<String>)
    ensures
        text::opt_text(r) == (match opus_direction(direction@) {
            Some(d) => Some(opus_dir(d)),
            None => None,
        }),
{
    match opus_named(direction) {
        Some(d) => Some(opus_dir_name(d)),
        None => None,
    }
}

/// Whether a text has a character in one of two ranges.
pub open spec fn has_char_in(s: Seq<char>, a: u32, b: u32, c: u32, d: u32) -> bool {
    exists|i: int|
        0 <= i < s.len() && (a <= (#[trigger] s[i]) as u32 <= b || c <= s[i] as u32 <= d)
}

/// How many characters of a text are Chinese, and how many are not white space.
pub open spec fn hanzi_share(s: Seq<char>) -> (nat, nat) {
    (
        s.filter(
            |c: char| 0x4E00 <= c as u32 <= 0x9FFF || 0x3400 <= c as u32 <= 0x4DBF,
        ).len(),
        s.filter(|c: char| !text::is_white_space(c)).len(),
    )
}

proof fn counting_is_filtering(s: Seq<char>, kind: spec_fn(char) -> bool)
    ensures
        count_of(s, kind) == s.filter(kind).len(),
    decreases s.len(),
{
    reveal(Seq::filter);
    if s.len() > 0 {
        counting_is_filtering(s.drop_last(), kind);
    }
}

/// What the language of a text is told by: Korean where it has a hangul syllable or jamo; else
/// Japanese where it has kana; else Chinese where more than three tenths of its characters, not
/// counting white space, are Chinese; and else English.
pub proof fn languages_are_told_by_their_characters(s: Seq<char>)
    ensures
        mostly_hanzi(s) <==> hanzi_share(s).0 * 10 > hanzi_share(s).1 * 3,
        source_lang(s) == (if has_char_in(s, 0xAC00, 0xD7AF, 0x1100, 0x11FF) {
            "ko"@
        } else if has_char_in(s, 0x3040, 0x30FF, 0x3040, 0x30FF) {
            "ja"@
        } else if hanzi_share(s).0 * 10 > hanzi_share(s).1 * 3 {
            "zh"@
        } else {
            "en"@
        }),
{
    let hanzi = |c: char| is_hanzi(c);
    let plain = |c: char| 0x4E00 <= c as u32 <= 0x9FFF || 0x3400 <= c as u32 <= 0x4DBF;
    assert(hanzi =~= plain);
    counting_is_filtering(s, hanzi);
    counting_is_filtering(s, |c: char| !text::is_white_space(c));
    let hangul = |c: char| is_hangul(c);
    let kana = |c: char| is_kana(c);
    if has_kind(s, hangul) {
        let i = choose|i: int| 0 <= i < s.len() && hangul(#[trigger] s[i]);
        assert(is_hangul(s[i]));
    }
    if has_char_in(s, 0xAC00, 0xD7AF, 0x1100, 0x11FF) {
        let i = choose|i: int|
            0 <= i < s.len() && (0xAC00 <= (#[trigger] s[i]) as u32 <= 0xD7AF || 0x1100
                <= s[i] as u32 <= 0x11FF);
        assert(hangul(s[i]));
    }
    if has_kind(s, kana) {
        let i = choose|i: int| 0 <= i < s.len() && kana(#[trigger] s[i]);
        assert(is_kana(s[i]));
    }
    if has_char_in(s, 0x3040, 0x30FF, 0x3040, 0x30FF) {
        let i = choose|i: int|
            0 <= i < s.len() && (0x3040 <= (#[trigger] s[i]) as u32 <= 0x30FF || 0x3040
                <= s[i] as u32 <= 0x30FF);
        assert(kana(s[i]));
    }
}

/// Every multilingual engine, Hy-MT2 as well as any custom server, translates from the language
/// that is detected in the text, and to every language that is supported and is another one. A
/// target left open is English, and Chinese for someone who works in English.
pub proof fn multilingual_engines_translate_between_all(
    engine: Seq<char>,
    home: Seq<char>,
    supported: Seq<Seq<char>>,
    s: Seq<char>,
    target: Seq<char>,
)
    requires
        engine == "hymt2"@ || exists|id: Seq<char>| engine == #[trigger] ("custom:"@ + id),
    ensures
        ({
            let from = source_lang(s);
            let to = if target != "auto"@ {
                target
            } else if home == "en"@ {
                "zh"@
            } else {
                "en"@
            };
            &&& from != to && supported.contains(to) ==> direction_of(
                engine,
                home,
                supported,
                s,
                target,
            ) == Some((from + "-"@ + to, from, to))
            &&& from == to || !supported.contains(to) ==> direction_of(
                engine,
                home,
                supported,
                s,
                target,
            ) is None
        }),
{
    if engine != "hymt2"@ {
        let id = choose|id: Seq<char>| engine == #[trigger] ("custom:"@ + id);
        assert("custom:"@.is_prefix_of("custom:"@ + id));
    }
}

/// Any other engine translates between Chinese and English alone: a text with more than three
/// tenths of Chinese characters to English, any other to Chinese, where that is what is wanted or
/// the target is left open.
pub proof fn the_built_in_engine_translates_between_two(
    engine: Seq<char>,
    home: Seq<char>,
    supported: Seq<Seq<char>>,
    s: Seq<char>,
    target: Seq<char>,
)
    requires
        engine != "hymt2"@,
        !"custom:"@.is_prefix_of(engine),
    ensures
        ({
            let chinese = hanzi_share(s).0 * 10 > hanzi_share(s).1 * 3;
            direction_of(engine, home, supported, s, target) == (if chinese && (target == "en"@
                || target == "auto"@) {
                Some(("zh-en"@, "zh"@, "en"@))
            } else if !chinese && (target == "zh"@ || target == "auto"@) {
                Some(("en-zh"@, "en"@, "zh"@))
            } else {
                None
            })
        }),
{
    languages_are_told_by_their_characters(s);
    reveal_strlit("zh");
    reveal_strlit("en");
    reveal_strlit("zh-en");
    reveal_strlit("en-zh");
    reveal_strlit("-");
    reveal_strlit("auto");
    assert("zh"@[0] != "en"@[0]);
    assert("auto"@.len() == 4 && "zh"@.len() == 2 && "en"@.len() == 2);
    assert("zh"@ + "-"@ + "en"@ =~= "zh-en"@);
    assert("en"@ + "-"@ + "zh"@ =~= "en-zh"@);
}

/// Each way of the built-in engine has a model of its own, in the directory that is named after
/// it; there is none for anything else.
pub proof fn each_way_has_its_model(direction: Seq<char>)
    ensures
        opus_direction(direction) is Some <==> direction == "zh-en"@ || direction == "en-zh"@,
        opus_direction(direction) matches Some(d) ==> opus_dir(d) == "opus-mt-"@ + direction,
{
    reveal_strlit("zh-en");
    reveal_strlit("en-zh");
    reveal_strlit("opus-mt-");
    reveal_strlit("opus-mt-zh-en");
    reveal_strlit("opus-mt-en-zh");
    assert("opus-mt-"@ + "zh-en"@ =~= "opus-mt-zh-en"@);
    assert("opus-mt-"@ + "en-zh"@ =~= "opus-mt-en-zh"@);
}

/// An engine is kept in the slot of its own way.
pub proof fn slots_are_kept_apart<E>(slots: EngineSlots<E>)
    ensures
        opus_direction("zh-en"@) matches Some(d) && slots.slot(d) == slots.zh_en,
        opus_direction("en-zh"@) matches Some(d) && slots.slot(d) == slots.en_zh,
{
    reveal_strlit("zh-en");
    reveal_strlit("en-zh");
    assert("zh-en"@[0] != "en-zh"@[0]);
}

} // verus!
