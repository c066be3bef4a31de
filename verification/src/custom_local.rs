//! Model servers that the user runs: their profiles, and what is asked of them.

use vstd::prelude::*;
#[allow(unused_imports)]
use vstd::string::StringExecFns;
#[allow(unused_imports)]
use vstd::utf8;

use crate::endpoint;
use crate::endpoint::validate_endpoint;
use crate::http;
use crate::http::{status_line, status_ok, ClientPolicy};
use crate::json;
#[allow(unused_imports)]
use crate::summary_client;
use crate::text;
use crate::text::{concat2, concat3, from_utf8_lossy, same, take_chars, trim};
use crate::wav;
use crate::wav::wav16;

verus! {

/// Characters of an error body that are shown.
pub const SHOWN_CHARS: usize = 300;

/// The time limit of a profile that names none.
pub const DEFAULT_TIMEOUT_SECS: u64 = 120;

/// A model on a server that the user runs.
#[derive(Debug)]
pub struct LocalModelProfile {
    pub id: String,
    pub name: String,
    /// `asr`, `translation` or `summary`
    pub task: String,
    /// The root of an OpenAI-compatible service, such as `http://127.0.0.1:8000/v1`
    pub endpoint: String,
    pub model: String,
    pub timeout_secs: u64,
}

/// A profile as a mathematical value.
pub struct ProfileView {
    pub id: Seq<char>,
    pub name: Seq<char>,
    pub task: Seq<char>,
    pub endpoint: Seq<char>,
    pub model: Seq<char>,
    pub timeout_secs: u64,
}

impl View for LocalModelProfile {
    type V = ProfileView;

    open spec fn view(&self) -> ProfileView {
        ProfileView {
            id: self.id@,
            name: self.name@,
            task: self.task@,
            endpoint: self.endpoint@,
            model: self.model@,
            timeout_secs: self.timeout_secs,
        }
    }
}

/// The views of a list of profiles.
pub open spec fn profile_views(items: Seq<LocalModelProfile>) -> Seq<ProfileView> {
    items.map_values(|p: LocalModelProfile| p@)
}

/// The time limit of a profile that names none.
pub fn default_timeout() -> (r: u64)
    ensures
        r == DEFAULT_TIMEOUT_SECS,
        r == 120,
{
    DEFAULT_TIMEOUT_SECS
}

/// A copy of a profile.
pub fn copy_profile(p: &LocalModelProfile) -> (r: LocalModelProfile)
    ensures
        r@ == p@,
{
    LocalModelProfile {
        id: p.id.clone(),
        name: p.name.clone(),
        task: p.task.clone(),
        endpoint: p.endpoint.clone(),
        model: p.model.clone(),
        timeout_secs: p.timeout_secs,
    }
}

/// How many bytes a text takes.
pub open spec fn byte_len(s: Seq<char>) -> nat {
    utf8::encode_utf8(s).len()
}

fn bytes_in(s: &str) -> (r: usize)
    ensures
        r == byte_len(s@),
{
    s.as_bytes().len()
}

/// Whether a character may stand in a profile's identifier.
pub open spec fn is_id_char(c: char) -> bool {
    'a' <= c <= 'z' || 'A' <= c <= 'Z' || '0' <= c <= '9' || c == '-'
}

/// Whether a text may be a profile's identifier; the empty one stands for a new profile.
pub open spec fn is_profile_id(id: Seq<char>) -> bool {
    byte_len(id) <= 80 && forall|i: int| 0 <= i < id.len() ==> is_id_char(#[trigger] id[i])
}

/// Whether a task is one of those that profiles are for.
pub open spec fn is_task(task: Seq<char>) -> bool {
    task == "asr"@ || task == "translation"@ || task == "summary"@
}

/// Whether a profile's name and model are given and short.
pub open spec fn has_short_names(p: ProfileView) -> bool {
    text::trimmed(p.name).len() > 0 && byte_len(p.name) <= 128 && text::trimmed(p.model).len() > 0
        && byte_len(p.model) <= 256
}

/// What a profile is told, given what becomes of its address.
pub open spec fn profile_verdict(
    p: ProfileView,
    address: Result<Seq<char>, Seq<char>>,
) -> Result<(), Seq<char>> {
    if !is_task(p.task) {
        Err("Task must be asr, translation or summary"@)
    } else if !has_short_names(p) {
        Err("Model name and model ID must be nonempty and reasonably short"@)
    } else if !is_profile_id(p.id) {
        Err("Invalid profile ID"@)
    } else if !(1 <= p.timeout_secs <= 3600) {
        Err("Timeout must be 1–3600 seconds"@)
    } else {
        match address {
            Ok(_) => Ok(()),
            Err(e) => Err(e),
        }
    }
}

/// Whether a profile can be used.
pub open spec fn profile_result(p: ProfileView) -> Result<(), Seq<char>> {
    profile_verdict(p, endpoint::endpoint_result(p.endpoint))
}

fn id_chars_only(id: &str) -> (r: bool)
    ensures
        r == (forall|i: int| 0 <= i < id@.len() ==> is_id_char(#[trigger] id@[i])),
{
    let chars: Vec<char> = text::chars_of(id);
    let mut i: usize = 0;
    while i < chars.len()
        invariant
            chars@ == id@,
            0 <= i <= chars@.len(),
            forall|k: int| 0 <= k < i ==> is_id_char(#[trigger] id@[k]),
        decreases chars@.len() - i,
    {
        let c: char = chars[i];
        if !(('a' <= c && c <= 'z') || ('A' <= c && c <= 'Z') || ('0' <= c && c <= '9') || c
            == '-') {
            assert(!is_id_char(id@[i as int]));
            return false;
        }
        i += 1;
    }
    true
}

/// Decides on a profile, given what became of its address.
pub fn check_profile(p: &LocalModelProfile, address: &Result<String, String>) -> (r: Result<
    (),
    String,
>)
    ensures
        text::unit_result(r) == profile_verdict(p@, text::result_text(*address)),
{
    if !same(p.task.as_str(), "asr") && !same(p.task.as_str(), "translation") && !same(
        p.task.as_str(),
        "summary",
    ) {
        return Err("Task must be asr, translation or summary".to_owned());
    }
    if trim(p.name.as_str()).as_str().is_empty() || bytes_in(p.name.as_str()) > 128 || trim(
        p.model.as_str(),
    ).as_str().is_empty() || bytes_in(p.model.as_str()) > 256 {
        return Err("Model name and model ID must be nonempty and reasonably short".to_owned());
    }
    if bytes_in(p.id.as_str()) > 80 || !id_chars_only(p.id.as_str()) {
        return Err("Invalid profile ID".to_owned());
    }
    if p.timeout_secs < 1 || p.timeout_secs > 3600 {
        return Err("Timeout must be 1–3600 seconds".to_owned());
    }
    match address {
        Ok(_) => Ok(()),
        Err(e) => Err(e.clone()),
    }
}

/// Whether a profile can be used; otherwise the first thing that is wrong with it.
pub fn validate_profile(p: &LocalModelProfile) -> (r: Result<(), String>)
    ensures
        text::unit_result(r) == profile_result(p@),
{
    let address: Result<String, String> = validate_endpoint(p.endpoint.as_str());
    check_profile(p, &address)
}

/// A profile that can be used has an address on this computer and nowhere else.
pub proof fn valid_profiles_are_local(p: ProfileView)
    requires
        profile_result(p) is Ok,
    ensures
        endpoint::parsed_url(text::trimmed(p.endpoint)) is Ok,
        endpoint::is_local_service(endpoint::parsed_url(text::trimmed(p.endpoint))->Ok_0),
{
    endpoint::accepted_endpoints_are_local(
        endpoint::parsed_url(text::trimmed(p.endpoint)),
        p.endpoint,
    );
}

/// How requests to a server are made: without following redirects.
pub open spec fn client_policy(timeout: u64) -> ClientPolicy {
    ClientPolicy {
        connect_timeout_secs: 5,
        timeout_secs: Some(timeout),
        follow_redirects: false,
    }
}

/// How requests to a server are made: without following redirects, so that nothing is sent on to
/// another address.
pub fn client(timeout: u64) -> (r: ClientPolicy)
    ensures
        r == client_policy(timeout),
        r.connect_timeout_secs == 5 && r.timeout_secs == Some(timeout) && !r.follow_redirects,
{
    ClientPolicy {
        connect_timeout_secs: 5,
        timeout_secs: Some(timeout),
        follow_redirects: false,
    }
}

/// Whether a character is a lower-case hexadecimal digit.
pub open spec fn is_hex_char(c: char) -> bool {
    '0' <= c <= '9' || 'a' <= c <= 'f'
}

/// Whether a text is a UUID in its usual form, hexadecimal digits in five groups.
pub open spec fn is_uuid_text(s: Seq<char>) -> bool {
    s.len() == 36 && forall|i: int|
        0 <= i < 36 ==> if i == 8 || i == 13 || i == 18 || i == 23 {
            #[trigger] s[i] == '-'
        } else {
            is_hex_char(s[i])
        }
}

/// `uuid::Uuid::new_v4` and the `Display` of what it gives: 36 characters, lower-case
/// hexadecimal digits in groups of 8, 4, 4, 4 and 12 with hyphens between them. Which digits they
/// are is left to chance. The call panics where the system has no source of randomness.
#[verifier::external_body]
fn new_uuid() -> (r: String)
    ensures
        is_uuid_text(r@),
{
    uuid::Uuid::new_v4().to_string()
}

/// The profile as it is to be stored: the address tidied, and an identifier where it had none.
pub open spec fn stored_profile(p: ProfileView, fresh_id: Seq<char>) -> ProfileView {
    ProfileView {
        id: if p.id.len() == 0 {
            fresh_id
        } else {
            p.id
        },
        endpoint: endpoint::tidy_endpoint(p.endpoint),
        ..p
    }
}

/// The profile as it is to be stored, with `fresh_id` for one that has no identifier yet, or
/// what is wrong with it.
pub fn prepare_profile_as(p: &LocalModelProfile, fresh_id: String) -> (r: Result<
    LocalModelProfile,
    String,
>)
    ensures
        match r {
            Ok(stored) => profile_result(p@) is Ok && stored@ == stored_profile(p@, fresh_id@),
            Err(e) => profile_result(p@) == Err::<(), Seq<char>>(e@),
        },
{
    match validate_profile(p) {
        Err(e) => Err(e),
        Ok(_) => match validate_endpoint(p.endpoint.as_str()) {
            Err(e) => Err(e),
            Ok(address) => {
                let mut stored: LocalModelProfile = copy_profile(p);
                stored.endpoint = address;
                if p.id.as_str().is_empty() {
                    stored.id = fresh_id;
                }
                Ok(stored)
            },
        },
    }
}

/// A fresh identifier is one that a profile may have.
pub proof fn uuids_are_profile_ids(id: Seq<char>)
    requires
        is_uuid_text(id),
    ensures
        is_profile_id(id),
        id.len() > 0,
{
    assert forall|i: int| 0 <= i < id.len() implies is_id_char(#[trigger] id[i]) by {}
    assert(byte_len(id) == 36) by {
        utf8::is_ascii_chars_encode_utf8(id);
    }
}

/// The profile as it is to be stored, with an identifier of its own, or what is wrong with it.
pub fn prepare_profile(p: &LocalModelProfile) -> (r: Result<LocalModelProfile, String>)
    ensures
        match r {
            Ok(stored) => {
                &&& profile_result(p@) is Ok
                &&& stored@ == stored_profile(p@, stored@.id)
                &&& p@.id.len() == 0 ==> is_uuid_text(stored@.id)
                &&& stored@.id.len() > 0
                &&& is_profile_id(stored@.id)
            },
            Err(e) => profile_result(p@) == Err::<(), Seq<char>>(e@),
        },
{
    let fresh_id: String = new_uuid();
    proof {
        uuids_are_profile_ids(fresh_id@);
    }
    prepare_profile_as(p, fresh_id)
}

/// The place of the first profile with an identifier.
pub open spec fn place_of(items: Seq<ProfileView>, id: Seq<char>) -> Option<int>
    decreases items.len(),
{
    if items.len() == 0 {
        None
    } else if items.first().id == id {
        Some(0)
    } else {
        match place_of(items.drop_first(), id) {
            Some(i) => Some(i + 1),
            None => None,
        }
    }
}

/// A profile's place is the first one with its identifier.
pub proof fn place_of_is_first(items: Seq<ProfileView>, id: Seq<char>)
    ensures
        match place_of(items, id) {
            Some(i) => 0 <= i < items.len() && items[i].id == id && forall|k: int|
                0 <= k < i ==> (#[trigger] items[k]).id != id,
            None => forall|k: int| 0 <= k < items.len() ==> (#[trigger] items[k]).id != id,
        },
    decreases items.len(),
{
    if items.len() > 0 && items.first().id != id {
        let rest = items.drop_first();
        place_of_is_first(rest, id);
        match place_of(rest, id) {
            Some(i) => {
                assert forall|k: int| 0 <= k < i + 1 implies (#[trigger] items[k]).id != id by {
                    if k > 0 {
                        assert(rest[k - 1] == items[k]);
                    }
                }
            },
            None => {
                assert forall|k: int| 0 <= k < items.len() implies (#[trigger] items[k]).id
                    != id by {
                    if k > 0 {
                        assert(rest[k - 1] == items[k]);
                    }
                }
            },
        }
    }
}

proof fn first_place_is_place(items: Seq<ProfileView>, id: Seq<char>, i: int)
    requires
        0 <= i < items.len(),
        items[i].id == id,
        forall|k: int| 0 <= k < i ==> (#[trigger] items[k]).id != id,
    ensures
        place_of(items, id) == Some(i),
{
    place_of_is_first(items, id);
}

fn find_place(items: &Vec<LocalModelProfile>, id: &str) -> (r: Option<usize>)
    ensures
        match r {
            Some(i) => place_of(profile_views(items@), id@) == Some(i as int) && i < items@.len(),
            None => place_of(profile_views(items@), id@) is None,
        },
{
    let ghost views = profile_views(items@);
    let mut i: usize = 0;
    while i < items.len()
        invariant
            0 <= i <= items@.len(),
            views == profile_views(items@),
            forall|k: int| 0 <= k < i ==> (#[trigger] views[k]).id != id@,
        decreases items@.len() - i,
    {
        if same(items[i].id.as_str(), id) {
            proof {
                first_place_is_place(views, id@, i as int);
            }
            return Some(i);
        }
        assert(views[i as int].id != id@);
        i += 1;
    }
    proof {
        place_of_is_first(views, id@);
    }
    None
}

/// The profile with an identifier and a task: the first such.
pub open spec fn profile_for(items: Seq<ProfileView>, id: Seq<char>, task: Seq<char>) -> Option<
    ProfileView,
>
    decreases items.len(),
{
    if items.len() == 0 {
        None
    } else if items.first().id == id && items.first().task == task {
        Some(items.first())
    } else {
        profile_for(items.drop_first(), id, task)
    }
}

/// The profile with an identifier and a task.
pub fn profile(items: &Vec<LocalModelProfile>, id: &str, task: &str) -> (r: Result<
    LocalModelProfile,
    String,
>)
    ensures
        match r {
            Ok(p) => profile_for(profile_views(items@), id@, task@) == Some(p@),
            Err(e) => profile_for(profile_views(items@), id@, task@) is None && e@ == "No "@ + task@
                + (" profile with ID "@ + id@),
        },
{
    let ghost views = profile_views(items@);
    let mut i: usize = 0;
    assert(views.skip(0) =~= views);
    while i < items.len()
        invariant
            0 <= i <= items@.len(),
            views == profile_views(items@),
            profile_for(views, id@, task@) == profile_for(views.skip(i as int), id@, task@),
        decreases items@.len() - i,
    {
        if same(items[i].id.as_str(), id) && same(items[i].task.as_str(), task) {
            return Ok(copy_profile(&items[i]));
        }
        assert(views.skip(i as int).drop_first() =~= views.skip(i + 1));
        i += 1;
    }
    Err(concat3("No ", task, concat2(" profile with ID ", id).as_str()))
}

/// The profiles after one is stored: in the place of the one with its identifier, or at the end.
pub open spec fn with_profile(items: Seq<ProfileView>, p: ProfileView) -> Seq<ProfileView> {
    match place_of(items, p.id) {
        Some(i) => items.update(i, p),
        None => items.push(p),
    }
}

/// Whether a profile would change the task of a stored one.
pub open spec fn changes_task(items: Seq<ProfileView>, p: ProfileView) -> bool {
    match place_of(items, p.id) {
        Some(i) => items[i].task != p.task,
        None => false,
    }
}

/// Stores a prepared profile: in the place of the one with its identifier, or at the end. The
/// task of a stored profile cannot be changed.
pub fn custom_local_upsert(items: &mut Vec<LocalModelProfile>, p: &LocalModelProfile) -> (r: Result<
    (),
    String,
>)
    ensures
        match r {
            Ok(_) => !changes_task(profile_views(old(items)@), p@) && profile_views(final(items)@)
                == with_profile(profile_views(old(items)@), p@),
            Err(e) => changes_task(profile_views(old(items)@), p@) && *final(items) == *old(items)
                && e@ == "Cannot change task of an existing profile"@,
        },
{
    let ghost before = profile_views(items@);
    match find_place(items, p.id.as_str()) {
        Some(i) => {
            if !same(items[i].task.as_str(), p.task.as_str()) {
                return Err("Cannot change task of an existing profile".to_owned());
            }
            items.set(i, copy_profile(p));
            assert(profile_views(items@) =~= before.update(i as int, p@));
        },
        None => {
            items.push(copy_profile(p));
            assert(profile_views(items@) =~= before.push(p@));
        },
    }
    Ok(())
}

/// The profiles without those with an identifier.
pub open spec fn without_profile(items: Seq<ProfileView>, id: Seq<char>) -> Seq<ProfileView> {
    items.filter(|p: ProfileView| p.id != id)
}

/// Removes the profiles with an identifier.
pub fn custom_local_delete(items: &Vec<LocalModelProfile>, id: &str) -> (r: Vec<LocalModelProfile>)
    ensures
        profile_views(r@) == without_profile(profile_views(items@), id@),
{
    let ghost views = profile_views(items@);
    let ghost keep = |p: ProfileView| p.id != id@;
    let mut kept: Vec<LocalModelProfile> = Vec::new();
    let mut i: usize = 0;
    proof {
        reveal(Seq::filter);
        assert(profile_views(kept@) =~= views.take(0).filter(keep));
    }
    while i < items.len()
        invariant
            0 <= i <= items@.len(),
            views == profile_views(items@),
            keep == (|p: ProfileView| p.id != id@),
            profile_views(kept@) == views.take(i as int).filter(keep),
        decreases items@.len() - i,
    {
        let ghost before = profile_views(kept@);
        proof {
            reveal(Seq::filter);
            assert(views.take(i + 1).drop_last() =~= views.take(i as int));
        }
        if !same(items[i].id.as_str(), id) {
            kept.push(copy_profile(&items[i]));
            assert(profile_views(kept@) =~= before.push(views[i as int]));
        }
        i += 1;
    }
    assert(views.take(views.len() as int) =~= views);
    kept
}

/// What selecting a profile changes: settings to be stored, and the translation engine in use
/// where it is another one.
#[derive(Debug)]
pub struct Selection {
    pub settings: Vec<(String, String)>,
    pub engine: Option<String>,
}

/// The views of a list of settings.
pub open spec fn setting_views(settings: Seq<(String, String)>) -> Seq<(Seq<char>, Seq<char>)> {
    settings.map_values(|s: (String, String)| (s.0@, s.1@))
}

/// Selects a profile: for recordings, or for translations. A summary profile is chosen with each
/// summary instead.
pub fn custom_local_select(items: &Vec<LocalModelProfile>, id: &str) -> (r: Result<
    Selection,
    String,
>)
    ensures
        match place_of(profile_views(items@), id@) {
            None => r matches Err(e) && e@ == "Profile not found"@,
            Some(i) => {
                let task = profile_views(items@)[i].task;
                if task == "asr"@ {
                    r matches Ok(s) && s.engine is None && setting_views(s.settings@) == seq![
                        ("transcript.provider"@, "custom-local"@),
                        ("transcript.model"@, id@),
                    ]
                } else if task == "translation"@ {
                    r matches Ok(s) && text::opt_text(s.engine) == Some("custom:"@ + id@)
                        && setting_views(s.settings@) == seq![
                        ("translation.engine"@, "custom:"@ + id@),
                    ]
                } else if task == "summary"@ {
                    r matches Err(e) && e@ == "Select a summary profile in the summary dialog"@
                } else {
                    r matches Err(e) && e@ == "Unsupported task"@
                }
            },
        },
{
    match find_place(items, id) {
        None => Err("Profile not found".to_owned()),
        Some(i) => {
            let task: &str = items[i].task.as_str();
            let mut settings: Vec<(String, String)> = Vec::new();
            if same(task, "asr") {
                settings.push(("transcript.provider".to_owned(), "custom-local".to_owned()));
                settings.push(("transcript.model".to_owned(), id.to_owned()));
                assert(setting_views(settings@) =~= seq![
                    ("transcript.provider"@, "custom-local"@),
                    ("transcript.model"@, id@),
                ]);
                Ok(Selection { settings, engine: None })
            } else if same(task, "translation") {
                let engine: String = concat2("custom:", id);
                settings.push(("translation.engine".to_owned(), engine.clone()));
                assert(setting_views(settings@) =~= seq![
                    ("translation.engine"@, "custom:"@ + id@),
                ]);
                Ok(Selection { settings, engine: Some(engine) })
            } else if same(task, "summary") {
                Err("Select a summary profile in the summary dialog".to_owned())
            } else {
                Err("Unsupported task".to_owned())
            }
        },
    }
}

/// A profile that is stored is found again under its identifier and task, as it was stored.
pub proof fn stored_profiles_are_found(items: Seq<ProfileView>, p: ProfileView)
    requires
        !changes_task(items, p),
    ensures
        profile_for(with_profile(items, p), p.id, p.task) == Some(p),
{
    place_of_is_first(items, p.id);
    let after = with_profile(items, p);
    let i: int = match place_of(items, p.id) {
        Some(i) => i,
        None => items.len() as int,
    };
    first_match_is_found(after, p.id, p.task, i);
}

proof fn first_match_is_found(items: Seq<ProfileView>, id: Seq<char>, task: Seq<char>, i: int)
    requires
        0 <= i < items.len(),
        items[i].id == id && items[i].task == task,
        forall|k: int| 0 <= k < i ==> (#[trigger] items[k]).id != id,
    ensures
        profile_for(items, id, task) == Some(items[i]),
    decreases i,
{
    if i > 0 {
        assert(items[0].id != id);
        let rest = items.drop_first();
        assert forall|k: int| 0 <= k < i - 1 implies (#[trigger] rest[k]).id != id by {
            assert(rest[k] == items[k + 1]);
        }
        first_match_is_found(rest, id, task, i - 1);
    }
}

/// Storing a profile leaves every other one as it was.
pub proof fn storing_keeps_the_others(
    items: Seq<ProfileView>,
    p: ProfileView,
    id: Seq<char>,
    task: Seq<char>,
)
    requires
        id != p.id,
    ensures
        profile_for(with_profile(items, p), id, task) == profile_for(items, id, task),
    decreases items.len(),
{
    let after = with_profile(items, p);
    if items.len() == 0 {
        assert(after.drop_first() =~= Seq::empty());
        assert(profile_for(after.drop_first(), id, task) is None);
    } else if items.first().id == p.id {
        assert(after.drop_first() =~= items.drop_first());
    } else {
        storing_keeps_the_others(items.drop_first(), p, id, task);
        place_of_is_first(items.drop_first(), p.id);
        assert(after.drop_first() =~= with_profile(items.drop_first(), p));
        assert(after.first() == items.first());
    }
}

/// Whether no two profiles have the same identifier.
pub open spec fn ids_distinct(items: Seq<ProfileView>) -> bool {
    forall|i: int, j: int|
        0 <= i < j < items.len() ==> (#[trigger] items[i]).id != (#[trigger] items[j]).id
}

/// Storing and removing profiles keeps their identifiers distinct.
pub proof fn identifiers_stay_distinct(items: Seq<ProfileView>, p: ProfileView, id: Seq<char>)
    requires
        ids_distinct(items),
    ensures
        ids_distinct(with_profile(items, p)),
        ids_distinct(without_profile(items, id)),
{
    place_of_is_first(items, p.id);
    let after = with_profile(items, p);
    assert forall|i: int, j: int| 0 <= i < j < after.len() implies (#[trigger] after[i]).id != (
    #[trigger] after[j]).id by {
        match place_of(items, p.id) {
            Some(k) => {
                assert(items[i].id != items[j].id);
            },
            None => {},
        }
    }
    filtered_identifiers_are_distinct(items, id);
}

proof fn filtered_identifiers_are_distinct(items: Seq<ProfileView>, id: Seq<char>)
    requires
        ids_distinct(items),
    ensures
        ids_distinct(without_profile(items, id)),
    decreases items.len(),
{
    reveal(Seq::filter);
    if items.len() > 0 {
        let shorter = items.drop_last();
        filtered_identifiers_are_distinct(shorter, id);
        let kept = without_profile(shorter, id);
        filtered_profiles_were_there(shorter, id);
        if items.last().id != id {
            let after = kept.push(items.last());
            assert(without_profile(items, id) =~= after);
            assert forall|i: int, j: int| 0 <= i < j < after.len() implies (#[trigger] after[i]).id
                != (#[trigger] after[j]).id by {
                if j == kept.len() {
                    assert(shorter.contains(kept[i]));
                }
            }
        }
    }
}

proof fn filtered_profiles_were_there(items: Seq<ProfileView>, id: Seq<char>)
    ensures
        forall|i: int|
            0 <= i < without_profile(items, id).len() ==> items.contains(
                #[trigger] without_profile(items, id)[i],
            ) && without_profile(items, id)[i].id != id,
    decreases items.len(),
{
    reveal(Seq::filter);
    if items.len() > 0 {
        let shorter = items.drop_last();
        filtered_profiles_were_there(shorter, id);
        let kept = without_profile(shorter, id);
        let after = without_profile(items, id);
        assert forall|i: int| 0 <= i < after.len() implies items.contains(#[trigger] after[i])
            && after[i].id != id by {
            if i < kept.len() {
                assert(after[i] == kept[i]);
                assert(shorter.contains(kept[i]));
                let k = choose|k: int| 0 <= k < shorter.len() && shorter[k] == kept[i];
                assert(items[k] == kept[i]);
            } else {
                assert(items[items.len() - 1] == after[i]);
            }
        }
    }
}

/// A removed profile is no longer found, whatever task it had.
pub proof fn removed_profiles_are_gone(items: Seq<ProfileView>, id: Seq<char>, task: Seq<char>)
    ensures
        profile_for(without_profile(items, id), id, task) is None,
        place_of(without_profile(items, id), id) is None,
{
    let after = without_profile(items, id);
    filtered_profiles_were_there(items, id);
    place_of_is_first(after, id);
    nothing_is_found(after, id, task);
}

proof fn nothing_is_found(items: Seq<ProfileView>, id: Seq<char>, task: Seq<char>)
    requires
        forall|k: int| 0 <= k < items.len() ==> (#[trigger] items[k]).id != id,
    ensures
        profile_for(items, id, task) is None,
    decreases items.len(),
{
    if items.len() > 0 {
        let rest = items.drop_first();
        assert forall|k: int| 0 <= k < rest.len() implies (#[trigger] rest[k]).id != id by {
            assert(rest[k] == items[k + 1]);
        }
        assert(items[0].id != id);
        nothing_is_found(rest, id, task);
    }
}

/// A connection test to be made.
#[derive(Debug)]
pub struct ConnectionTest {
    pub url: String,
    pub policy: ClientPolicy,
}

/// How the connection to a profile's server is tested: its models are asked for, within fifteen
/// seconds at most. A profile that cannot be used is not tested.
pub fn connection_test(p: &LocalModelProfile) -> (r: Result<ConnectionTest, String>)
    ensures
        match r {
            Ok(test) => {
                &&& profile_result(p@) is Ok
                &&& test.url@ == endpoint::tidy_endpoint(p@.endpoint) + "/models"@
                &&& test.policy == client_policy(
                    if p.timeout_secs < 15 {
                        p.timeout_secs
                    } else {
                        15
                    },
                )
            },
            Err(e) => profile_result(p@) == Err::<(), Seq<char>>(e@),
        },
{
    match validate_profile(p) {
        Err(e) => Err(e),
        Ok(_) => match validate_endpoint(p.endpoint.as_str()) {
            Err(e) => Err(e),
            Ok(address) => {
                let limit: u64 = if p.timeout_secs < 15 {
                    p.timeout_secs
                } else {
                    15
                };
                Ok(ConnectionTest { url: concat2(address.as_str(), "/models"), policy: client(limit) })
            },
        },
    }
}

/// What a connection test reports for the status of the answer.
pub fn custom_local_test(status: u16) -> (r: Result<String, String>)
    requires
        http::is_status(status),
    ensures
        text::result_text(r) == (if http::is_success(status) {
            Ok("Local model endpoint responded successfully"@)
        } else {
            Err("GET /models returned HTTP "@ + http::status_line_text(status))
        }),
{
    if !status_ok(status) {
        return Err(concat2("GET /models returned HTTP ", status_line(status).as_str()));
    }
    Ok("Local model endpoint responded successfully".to_owned())
}

/// A transcription to be asked for: a file `audio.wav` of type `audio/wav`, with the model and
/// where it is known the language.
#[derive(Debug)]
pub struct TranscriptionRequest {
    pub url: String,
    pub wav: Vec<u8>,
    pub model: String,
    pub language: Option<String>,
    pub policy: ClientPolicy,
}

/// The language to ask for: one that is given and not empty.
pub open spec fn asked_language(language: Option<Seq<char>>) -> Option<Seq<char>> {
    match language {
        Some(l) => if l.len() == 0 {
            None
        } else {
            Some(l)
        },
        None => None,
    }
}

/// What is asked of a server to transcribe samples of 16 kHz mono audio.
pub fn transcribe(p: &LocalModelProfile, samples: &[i16], language: Option<String>) -> (r: Result<
    TranscriptionRequest,
    String,
>)
    requires
        wav::wav16_defined(samples@.len()),
    ensures
        match endpoint::endpoint_result(p@.endpoint) {
            Err(e) => r matches Err(m) && m@ == e,
            Ok(address) => if wav::wav16_fits(samples@.len()) {
                r matches Ok(req) && {
                    &&& req.url@ == address + "/audio/transcriptions"@
                    &&& req.wav@ == wav::wav16_bytes(samples@)
                    &&& req.model@ == p@.model
                    &&& text::opt_text(req.language) == asked_language(text::opt_text(language))
                    &&& req.policy == client_policy(p.timeout_secs)
                }
            } else {
                r matches Err(m) && m@ == "Audio is too long"@
            },
        },
{
    let address: String = match validate_endpoint(p.endpoint.as_str()) {
        Ok(a) => a,
        Err(e) => return Err(e),
    };
    let file: Vec<u8> = match wav16(samples) {
        Ok(f) => f,
        Err(e) => return Err(e),
    };
    let asked: Option<String> = match language {
        Some(l) => {
            if l.as_str().is_empty() {
                None
            } else {
                Some(l)
            }
        },
        None => None,
    };
    Ok(
        TranscriptionRequest {
            url: concat2(address.as_str(), "/audio/transcriptions"),
            wav: file,
            model: p.model.clone(),
            language: asked,
            policy: client(p.timeout_secs),
        },
    )
}

/// Whether an answer to the connection test shows that the server can be reached: one that reports
/// success, or one that says that the server does not offer the list of models.
pub open spec fn shows_connection(status: u16) -> bool {
    http::is_success(status) || status == 404 || status == 405
}

/// Checks by the status of the answer to the connection test that a server can be reached.
pub fn check_connection(status: u16) -> (r: Result<(), String>)
    requires
        http::is_status(status),
    ensures
        text::unit_result(r) == connection_result(status),
{
    if status == 404 || status == 405 {
        return Ok(());
    }
    match custom_local_test(status) {
        Ok(_) => Ok(()),
        Err(e) => Err(e),
    }
}

/// What the status of the answer to the connection test says of a server.
pub open spec fn connection_result(status: u16) -> Result<(), Seq<char>> {
    if shows_connection(status) {
        Ok(())
    } else {
        Err("GET /models returned HTTP "@ + http::status_line_text(status))
    }
}

/// The start of an error body.
pub open spec fn shown_body(body: Seq<u8>) -> Seq<char> {
    let words = text::lossy_text(body);
    if words.len() > SHOWN_CHARS {
        words.take(SHOWN_CHARS as int)
    } else {
        words
    }
}

/// The text that an answer brings: `failure` says why the answer is not JSON, `found` is the text
/// where it belongs.
pub open spec fn answer_text(
    failure: Option<Seq<char>>,
    found: Option<Seq<char>>,
    missing: Seq<char>,
) -> Result<Seq<char>, Seq<char>> {
    match failure {
        Some(e) => Err(e),
        None => match found {
            Some(t) => Ok(t),
            None => Err(missing),
        },
    }
}

/// The text that an answer brings, or why it brings none.
pub fn read_answer(failure: Option<String>, found: Option<String>, missing: &str) -> (r: Result<
    String,
    String,
>)
    ensures
        text::result_text(r) == answer_text(
            text::opt_text(failure),
            text::opt_text(found),
            missing@,
        ),
{
    match failure {
        Some(e) => Err(e),
        None => match found {
            Some(t) => Ok(t),
            None => Err(missing.to_owned()),
        },
    }
}

/// What an answer amounts to: the text at a place of it, where the status reports success.
pub open spec fn reply_text(
    status: u16,
    body: Seq<u8>,
    task: Seq<char>,
    place: Seq<char>,
    missing: Seq<char>,
) -> Result<Seq<char>, Seq<char>> {
    if http::is_success(status) {
        answer_text(json::json_failure(body), json::json_text(body, place), missing)
    } else {
        Err(task + " HTTP "@ + (http::status_line_text(status) + ": "@ + shown_body(body)))
    }
}

fn read_reply(status: u16, body: &[u8], task: &str, place: &str, missing: &str) -> (r: Result<
    String,
    String,
>)
    requires
        http::is_status(status),
    ensures
        text::result_text(r) == reply_text(status, body@, task@, place@, missing@),
{
    if !status_ok(status) {
        let shown: String = take_chars(from_utf8_lossy(body).as_str(), SHOWN_CHARS);
        return Err(
            concat3(
                task,
                " HTTP ",
                concat3(status_line(status).as_str(), ": ", shown.as_str()).as_str(),
            ),
        );
    }
    read_answer(json::parse_failure(body), json::text_at(body, place), missing)
}

/// The transcript that a server's answer brings.
pub fn transcription_reply(status: u16, body: &[u8]) -> (r: Result<String, String>)
    requires
        http::is_status(status),
    ensures
        text::result_text(r) == reply_text(
            status,
            body@,
            "ASR"@,
            "/text"@,
            "ASR response has no text field"@,
        ),
{
    read_reply(status, body, "ASR", "/text", "ASR response has no text field")
}

/// A translation to be asked for, in one piece: a system message and a user message.
#[derive(Debug)]
pub struct ChatRequest {
    pub url: String,
    pub model: String,
    pub stream: bool,
    pub temperature: u32,
    pub system: String,
    pub user: String,
    pub policy: ClientPolicy,
}

/// What a server is told to do with a text, for the languages it is from and to.
pub open spec fn instruction(src: Seq<char>, tgt: Seq<char>) -> Seq<char> {
    "Translate "@ + ("from "@ + src + (" to "@ + tgt))
        + ". Return only the translation, with no commentary."@
}

/// What is asked of a server to translate a text.
pub fn translate(p: &LocalModelProfile, text: &str, src: &str, tgt: &str) -> (r: Result<
    ChatRequest,
    String,
>)
    ensures
        match endpoint::endpoint_result(p@.endpoint) {
            Err(e) => r matches Err(m) && m@ == e,
            Ok(address) => r matches Ok(req) && {
                &&& req.url@ == address + "/chat/completions"@
                &&& req.model@ == p@.model
                &&& !req.stream
                &&& req.temperature == 0
                &&& req.system@ == instruction(src@, tgt@)
                &&& req.user@ == text@
                &&& req.policy == client_policy(p.timeout_secs)
            },
        },
{
    let address: String = match validate_endpoint(p.endpoint.as_str()) {
        Ok(a) => a,
        Err(e) => return Err(e),
    };
    let languages: String = concat3("from ", src, concat2(" to ", tgt).as_str());
    let system: String = concat3(
        "Translate ",
        languages.as_str(),
        ". Return only the translation, with no commentary.",
    );
    Ok(
        ChatRequest {
            url: concat2(address.as_str(), "/chat/completions"),
            model: p.model.clone(),
            stream: false,
            temperature: 0,
            system,
            user: text.to_owned(),
            policy: client(p.timeout_secs),
        },
    )
}

/// The translation that a server's answer brings.
pub fn translation_reply(status: u16, body: &[u8]) -> (r: Result<String, String>)
    requires
        http::is_status(status),
    ensures
        text::result_text(r) == reply_text(
            status,
            body@,
            "Translation"@,
            "/choices/0/message/content"@,
            "Chat response has no message content"@,
        ),
{
    read_reply(
        status,
        body,
        "Translation",
        "/choices/0/message/content",
        "Chat response has no message content",
    )
}

/// Every request that a profile leads to, a summary too, stays on this computer: the address it is
/// made to is the profile's own, that one is accepted only where it is local, and no answer can
/// send the request elsewhere.
pub proof fn requests_stay_local(p: ProfileView, address: Seq<char>)
    requires
        endpoint::endpoint_result(p.endpoint) == Ok::<Seq<char>, Seq<char>>(address),
    ensures
        address == endpoint::tidy_endpoint(p.endpoint),
        endpoint::parsed_url(text::trimmed(p.endpoint)) is Ok,
        endpoint::is_local_service(endpoint::parsed_url(text::trimmed(p.endpoint))->Ok_0),
        forall|timeout: u64| !(#[trigger] client_policy(timeout)).follow_redirects,
        forall|timeout: Option<u64>| !(
        #[trigger] summary_client::client_policy(timeout)).follow_redirects,
{
    endpoint::accepted_endpoints_are_local(
        endpoint::parsed_url(text::trimmed(p.endpoint)),
        p.endpoint,
    );
}

/// A failed request is reported and never passed off as a result: an answer gives a text only
/// where its status reports success, it is JSON, and that text is in it.
pub proof fn failures_are_reported(
    status: u16,
    body: Seq<u8>,
    task: Seq<char>,
    place: Seq<char>,
    missing: Seq<char>,
)
    ensures
        reply_text(status, body, task, place, missing) matches Ok(t) ==> {
            &&& http::is_success(status)
            &&& json::json_failure(body) is None
            &&& json::json_text(body, place) == Some(t)
        },
{
}

/// A profile can be used exactly where its task is a known one, its name and model are there and
/// take no more than 128 and 256 bytes, its identifier is at most 80 letters, digits and hyphens,
/// its time limit is between a second and an hour, and its address is accepted. It is refused for
/// the first of these that fails.
pub proof fn profiles_are_checked(p: ProfileView)
    ensures
        ({
            let told = |words: Seq<char>| profile_result(p) == Err::<(), Seq<char>>(words);
            let bytes = |s: Seq<char>| utf8::encode_utf8(s).len();
            let may_stand = |c: char|
                97 <= c as int <= 122 || 65 <= c as int <= 90 || 48 <= c as int <= 57 || c as int
                    == 45;
            if p.task != "asr"@ && p.task != "translation"@ && p.task != "summary"@ {
                told("Task must be asr, translation or summary"@)
            } else if text::trimmed(p.name).len() == 0 || bytes(p.name) > 128 || text::trimmed(
                p.model,
            ).len() == 0 || bytes(p.model) > 256 {
                told("Model name and model ID must be nonempty and reasonably short"@)
            } else if bytes(p.id) > 80 || exists|i: int|
                0 <= i < p.id.len() && !may_stand(#[trigger] p.id[i]) {
                told("Invalid profile ID"@)
            } else if p.timeout_secs == 0 || p.timeout_secs > 3600 {
                told("Timeout must be 1–3600 seconds"@)
            } else {
                match endpoint::endpoint_result(p.endpoint) {
                    Ok(_) => profile_result(p) is Ok,
                    Err(e) => told(e),
                }
            }
        }),
{
}

/// A profile is stored as it was given, but for its address, which is the accepted one, and for
/// the identifier of a new profile.
pub proof fn profiles_are_stored_as_given(p: ProfileView, fresh_id: Seq<char>)
    requires
        profile_result(p) is Ok,
    ensures
        ({
            let stored = stored_profile(p, fresh_id);
            &&& stored.name == p.name && stored.task == p.task && stored.model == p.model
            &&& stored.timeout_secs == p.timeout_secs
            &&& endpoint::endpoint_result(p.endpoint) == Ok::<Seq<char>, Seq<char>>(stored.endpoint)
            &&& p.id.len() > 0 ==> stored.id == p.id
            &&& p.id.len() == 0 ==> stored.id == fresh_id
        }),
{
}

/// What is looked up by identifier and task is the first profile with both, and nothing is found
/// only where no profile has both.
pub proof fn profiles_are_looked_up(items: Seq<ProfileView>, id: Seq<char>, task: Seq<char>)
    ensures
        match profile_for(items, id, task) {
            Some(p) => {
                &&& p.id == id && p.task == task
                &&& exists|i: int|
                    0 <= i < items.len() && #[trigger] items[i] == p && forall|k: int|
                        0 <= k < i ==> (#[trigger] items[k]).id != id || items[k].task != task
            },
            None => forall|k: int|
                0 <= k < items.len() ==> (#[trigger] items[k]).id != id || items[k].task != task,
        },
    decreases items.len(),
{
    if items.len() > 0 {
        if items.first().id == id && items.first().task == task {
            assert(items[0] == items.first());
        } else {
            let rest = items.drop_first();
            profiles_are_looked_up(rest, id, task);
            match profile_for(rest, id, task) {
                Some(p) => {
                    let i = choose|i: int|
                        0 <= i < rest.len() && #[trigger] rest[i] == p && forall|k: int|
                            0 <= k < i ==> (#[trigger] rest[k]).id != id || rest[k].task != task;
                    assert(items[i + 1] == p);
                    assert forall|k: int| 0 <= k < i + 1 implies (#[trigger] items[k]).id != id
                        || items[k].task != task by {
                        if k > 0 {
                            assert(rest[k - 1] == items[k]);
                        }
                    }
                },
                None => {
                    assert forall|k: int| 0 <= k < items.len() implies (#[trigger] items[k]).id
                        != id || items[k].task != task by {
                        if k > 0 {
                            assert(rest[k - 1] == items[k]);
                        }
                    }
                },
            }
        }
    }
}

/// A profile takes the place of the first one with its identifier, whose task it cannot change;
/// without such a one it comes last. Every other profile keeps its place.
pub proof fn profiles_take_their_place(items: Seq<ProfileView>, p: ProfileView)
    ensures
        ({
            let after = with_profile(items, p);
            &&& (forall|k: int| 0 <= k < items.len() ==> (#[trigger] items[k]).id != p.id) ==> after
                == items.push(p) && !changes_task(items, p)
            &&& forall|i: int|
                0 <= i < items.len() && (#[trigger] items[i]).id == p.id && (forall|k: int|
                    0 <= k < i ==> (#[trigger] items[k]).id != p.id) ==> {
                    &&& after.len() == items.len()
                    &&& after[i] == p
                    &&& forall|k: int|
                        0 <= k < items.len() && k != i ==> #[trigger] after[k] == items[k]
                    &&& changes_task(items, p) <==> items[i].task != p.task
                }
        }),
{
    place_of_is_first(items, p.id);
}

/// Profiles are removed one by one: those with the identifier go, the others stay in order.
pub proof fn profiles_are_removed_one_by_one(
    items: Seq<ProfileView>,
    p: ProfileView,
    id: Seq<char>,
)
    ensures
        without_profile(Seq::empty(), id).len() == 0,
        p.id == id ==> without_profile(items.push(p), id) == without_profile(items, id),
        p.id != id ==> without_profile(items.push(p), id) == without_profile(items, id).push(p),
{
    reveal(Seq::filter);
    assert(items.push(p).drop_last() =~= items);
}

/// A server can be reached where its answer is one of success, or says that it has no list of
/// models; any other answer is told with its status.
pub proof fn connections_are_judged_by_status(status: u16)
    ensures
        200 <= status <= 299 || status == 404 || status == 405 ==> connection_result(status) is Ok,
        !(200 <= status <= 299) && status != 404 && status != 405 ==> connection_result(status)
            == Err::<(), Seq<char>>("GET /models returned HTTP "@ + http::status_line_text(status)),
{
}

/// The language is asked for where it is given.
pub proof fn given_languages_are_asked_for(language: Option<Seq<char>>)
    ensures
        asked_language(language) is Some <==> language is Some && language->0.len() > 0,
        asked_language(language) is Some ==> asked_language(language) == language,
{
}

/// What a server is told to do names both languages, the one it is from first.
pub proof fn instructions_name_both_languages(src: Seq<char>, tgt: Seq<char>)
    ensures
        instruction(src, tgt) == "Translate "@ + "from "@ + src + " to "@ + tgt
            + ". Return only the translation, with no commentary."@,
{
    assert(instruction(src, tgt) =~= "Translate "@ + "from "@ + src + " to "@ + tgt
        + ". Return only the translation, with no commentary."@);
}

/// What a server's answer amounts to: its text where the status is one of success and the text is
/// in it; else why it is not JSON, or that the text is missing; and for any other status the
/// status and the first three hundred characters of the body.
pub proof fn answers_are_judged_by_status(
    status: u16,
    body: Seq<u8>,
    task: Seq<char>,
    place: Seq<char>,
    missing: Seq<char>,
)
    ensures
        ({
            let reply = reply_text(status, body, task, place, missing);
            let told = |words: Seq<char>| reply == Err::<Seq<char>, Seq<char>>(words);
            let words = text::lossy_text(body);
            let shown = words.take(
                if words.len() < 300 {
                    words.len() as int
                } else {
                    300
                },
            );
            if 200 <= status <= 299 {
                match (json::json_failure(body), json::json_text(body, place)) {
                    (Some(e), _) => told(e),
                    (None, None) => told(missing),
                    (None, Some(t)) => reply == Ok::<Seq<char>, Seq<char>>(t),
                }
            } else {
                told(task + " HTTP "@ + http::status_line_text(status) + ": "@ + shown)
            }
        }),
{
    let words = text::lossy_text(body);
    let shown = words.take(
        if words.len() < 300 {
            words.len() as int
        } else {
            300
        },
    );
    assert(shown =~= shown_body(body));
    let line = http::status_line_text(status);
    assert(task + " HTTP "@ + (line + ": "@ + shown) =~= task + " HTTP "@ + line + ": "@ + shown);
}

} // verus!
