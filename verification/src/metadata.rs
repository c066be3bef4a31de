//! What is written beside a recording once it has been transcribed again.

use vstd::prelude::*;
#[allow(unused_imports)]
use vstd::string::StringExecFns;
#[allow(unused_imports)]
use vstd::utf8;

use crate::clock;
use crate::clock::utc_stamp;
use crate::json;
use crate::json::with_texts;
use crate::text;

verus! {

/// The file that the new transcript is written to; the first one is kept.
pub const OFFLINE_TRANSCRIPT: &'static str = "transcripts_offline.json";

/// The name that a recording's audio has where its file is not known.
pub const DEFAULT_AUDIO: &'static str = "audio.mp4";

/// The text of a member of a document.
pub open spec fn member(document: Seq<char>, name: Seq<char>) -> Option<Seq<char>> {
    json::json_text(utf8::encode_utf8(document), "/"@ + name)
}

/// The members that change in the description of a recording that was transcribed again.
pub open spec fn changed_members(now: Seq<char>) -> Seq<(Seq<char>, Seq<char>)> {
    seq![
        ("retranscribed_at"@, now),
        ("status"@, "completed"@),
        ("transcript_file"@, OFFLINE_TRANSCRIPT@),
        ("source"@, "offline_asr"@),
    ]
}

/// Whether a description says that the recording was transcribed again.
pub open spec fn says_retranscribed(document: Seq<char>, now: Seq<char>) -> bool {
    &&& member(document, "retranscribed_at"@) == Some(now)
    &&& member(document, "status"@) == Some("completed"@)
    &&& member(document, "transcript_file"@) == Some(OFFLINE_TRANSCRIPT@)
    &&& member(document, "source"@) == Some("offline_asr"@)
}

/// Whether two descriptions have the same texts but for some members.
pub open spec fn same_but_for(
    a: Seq<char>,
    b: Seq<char>,
    members: Seq<(Seq<char>, Seq<char>)>,
) -> bool {
    forall|name: Seq<char>|
        json::is_plain_name(name) && !json::is_named(members, 0, name) ==> #[trigger] member(
            a,
            name,
        ) == member(b, name)
}

proof fn names_differ()
    ensures
        "retranscribed_at"@ != "status"@,
        "retranscribed_at"@ != "transcript_file"@,
        "retranscribed_at"@ != "source"@,
        "status"@ != "transcript_file"@,
        "status"@ != "source"@,
        "transcript_file"@ != "source"@,
        json::is_plain_name("retranscribed_at"@),
        json::is_plain_name("status"@),
        json::is_plain_name("transcript_file"@),
        json::is_plain_name("source"@),
{
    reveal_strlit("retranscribed_at");
    reveal_strlit("status");
    reveal_strlit("transcript_file");
    reveal_strlit("source");
    assert("retranscribed_at"@.len() == 16);
    assert("transcript_file"@.len() == 15);
    assert("status"@[1] == 't');
    assert("source"@[1] == 'o');
}

/// The description of a recording that was transcribed again at a time: the old one, with the
/// members that change; and whether it is an object, and so has members. A description that is
/// not JSON is an error.
pub fn updated_metadata(existing: &str, now: &str) -> (r: Result<(String, bool), String>)
    ensures
        json::document_view(r) == json::json_with_texts(existing@, changed_members(now@)),
        r is Err <==> json::json_failure(utf8::encode_utf8(existing@)) is Some,
        r matches Ok(d) ==> same_but_for(d.0@, existing@, changed_members(now@)),
        r matches Ok(d) ==> (d.1 ==> says_retranscribed(d.0@, now@)),
        r matches Ok(d) ==> (d.1 ==> {
            &&& member(d.0@, "retranscribed_at"@) == Some(now@)
            &&& member(d.0@, "status"@) == Some("completed"@)
            &&& member(d.0@, "transcript_file"@) == Some("transcripts_offline.json"@)
            &&& member(d.0@, "source"@) == Some("offline_asr"@)
        }),
        r matches Ok(d) ==> forall|name: Seq<char>|
            json::is_plain_name(name) && name != "retranscribed_at"@ && name != "status"@ && name
                != "transcript_file"@ && name != "source"@ ==> #[trigger] member(d.0@, name)
                == member(existing@, name),
{
    let mut members: Vec<(String, String)> = Vec::new();
    members.push(("retranscribed_at".to_owned(), now.to_owned()));
    members.push(("status".to_owned(), "completed".to_owned()));
    members.push(("transcript_file".to_owned(), OFFLINE_TRANSCRIPT.to_owned()));
    members.push(("source".to_owned(), "offline_asr".to_owned()));
    let ghost views = json::member_views(members@);
    assert(views =~= changed_members(now@));
    let r: Result<(String, bool), String> = with_texts(existing, &members);
    proof {
        names_differ();
        assert(views[0].0 == "retranscribed_at"@);
        assert(views[1].0 == "status"@);
        assert(views[2].0 == "transcript_file"@);
        assert(views[3].0 == "source"@);
        assert(!json::is_named(views, 1, members@[0].0@));
        assert(!json::is_named(views, 2, members@[1].0@));
        assert(!json::is_named(views, 3, members@[2].0@));
        assert(!json::is_named(views, 4, members@[3].0@));
    }
    r
}

/// The description of a recording that was transcribed again just now.
pub fn write_retranscription_metadata(existing: &str) -> (r: Result<(String, bool), String>)
    ensures
        r is Err <==> json::json_failure(utf8::encode_utf8(existing@)) is Some,
        r matches Ok(d) ==> exists|now: Seq<char>| #[trigger]
            clock::is_utc_stamp(now) && json::document_view(r) == json::json_with_texts(
                existing@,
                changed_members(now),
            ) && same_but_for(d.0@, existing@, changed_members(now)) && (d.1 ==> says_retranscribed(
                d.0@,
                now,
            )),
{
    let now: String = utc_stamp();
    assert(clock::is_utc_stamp(now@));
    updated_metadata(existing, now.as_str())
}

/// The texts that describe a recording without a description, at a time. Its length is written
/// beside them.
pub open spec fn fresh_members(meeting_id: Seq<char>, audio: Seq<char>, now: Seq<char>) -> Seq<
    (Seq<char>, Seq<char>),
> {
    seq![
        ("version"@, "1.0"@),
        ("meeting_id"@, meeting_id),
        ("created_at"@, now),
        ("completed_at"@, now),
        ("retranscribed_at"@, now),
        ("audio_file"@, audio),
        ("transcript_file"@, OFFLINE_TRANSCRIPT@),
        ("status"@, "completed"@),
        ("source"@, "retranscription"@),
    ]
}

/// The texts that describe a recording without a description, at a time.
pub fn fresh_metadata_at(meeting_id: &str, audio: &str, now: &str) -> (r: Vec<(String, String)>)
    ensures
        json::member_views(r@) == fresh_members(meeting_id@, audio@, now@),
        r@.len() == 9,
        r@[0].0@ == "version"@ && r@[0].1@ == "1.0"@,
        r@[1].0@ == "meeting_id"@ && r@[1].1@ == meeting_id@,
        r@[2].0@ == "created_at"@ && r@[2].1@ == now@,
        r@[3].0@ == "completed_at"@ && r@[3].1@ == now@,
        r@[4].0@ == "retranscribed_at"@ && r@[4].1@ == now@,
        r@[5].0@ == "audio_file"@ && r@[5].1@ == audio@,
        r@[6].0@ == "transcript_file"@ && r@[6].1@ == "transcripts_offline.json"@,
        r@[7].0@ == "status"@ && r@[7].1@ == "completed"@,
        r@[8].0@ == "source"@ && r@[8].1@ == "retranscription"@,
{
    let mut members: Vec<(String, String)> = Vec::new();
    members.push(("version".to_owned(), "1.0".to_owned()));
    members.push(("meeting_id".to_owned(), meeting_id.to_owned()));
    members.push(("created_at".to_owned(), now.to_owned()));
    members.push(("completed_at".to_owned(), now.to_owned()));
    members.push(("retranscribed_at".to_owned(), now.to_owned()));
    members.push(("audio_file".to_owned(), audio.to_owned()));
    members.push(("transcript_file".to_owned(), OFFLINE_TRANSCRIPT.to_owned()));
    members.push(("status".to_owned(), "completed".to_owned()));
    members.push(("source".to_owned(), "retranscription".to_owned()));
    assert(json::member_views(members@) =~= fresh_members(meeting_id@, audio@, now@));
    members
}

/// The texts that describe a recording without a description, just now; `audio` is the name of
/// its audio file, where that is known.
pub fn fresh_metadata(meeting_id: &str, audio: Option<&str>) -> (r: Vec<(String, String)>)
    ensures
        exists|now: Seq<char>| #[trigger]
            clock::is_utc_stamp(now) && json::member_views(r@) == fresh_members(
                meeting_id@,
                match audio {
                    Some(a) => a@,
                    None => DEFAULT_AUDIO@,
                },
                now,
            ),
        r@.len() == 9 && r@[5].1@ == (match audio {
            Some(a) => a@,
            None => "audio.mp4"@,
        }),
{
    let name: &str = match audio {
        Some(a) => a,
        None => DEFAULT_AUDIO,
    };
    let now: String = utc_stamp();
    assert(clock::is_utc_stamp(now@));
    fresh_metadata_at(meeting_id, name, now.as_str())
}

/// A text and the time it was spoken at, in milliseconds.
#[derive(Debug)]
pub struct TimedText {
    pub text: String,
    pub start_ms: u64,
    pub end_ms: u64,
}

/// A segment of a transcript, with its times in milliseconds.
#[derive(Debug)]
pub struct TranscriptSegment {
    pub text: String,
    pub sequence_id: usize,
    pub audio_start_ms: Option<u64>,
    pub audio_end_ms: Option<u64>,
    pub duration_ms: Option<i128>,
}

/// The segments of a transcript, one for each text, in order and numbered from zero.
pub fn create_transcript_segments(transcripts: &Vec<TimedText>) -> (r: Vec<TranscriptSegment>)
    ensures
        r@.len() == transcripts@.len(),
        forall|i: int|
            0 <= i < r@.len() ==> {
                &&& (#[trigger] r@[i]).text@ == transcripts@[i].text@
                &&& r@[i].sequence_id == i
                &&& r@[i].audio_start_ms == Some(transcripts@[i].start_ms)
                &&& r@[i].audio_end_ms == Some(transcripts@[i].end_ms)
                &&& r@[i].duration_ms matches Some(d) && d == transcripts@[i].end_ms
                    - transcripts@[i].start_ms
            },
{
    let mut out: Vec<TranscriptSegment> = Vec::new();
    let mut i: usize = 0;
    while i < transcripts.len()
        invariant
            0 <= i <= transcripts@.len(),
            out@.len() == i,
            forall|k: int|
                0 <= k < i ==> {
                    &&& (#[trigger] out@[k]).text@ == transcripts@[k].text@
                    &&& out@[k].sequence_id == k
                    &&& out@[k].audio_start_ms == Some(transcripts@[k].start_ms)
                    &&& out@[k].audio_end_ms == Some(transcripts@[k].end_ms)
                    &&& out@[k].duration_ms matches Some(d) && d == transcripts@[k].end_ms
                        - transcripts@[k].start_ms
                },
        decreases transcripts@.len() - i,
    {
        let t: &TimedText = &transcripts[i];
        out.push(
            TranscriptSegment {
                text: t.text.clone(),
                sequence_id: i,
                audio_start_ms: Some(t.start_ms),
                audio_end_ms: Some(t.end_ms),
                duration_ms: Some(t.end_ms as i128 - t.start_ms as i128),
            },
        );
        i += 1;
    }
    out
}

/// A recording that was transcribed again says when, that it is complete, where its transcript is
/// and that it was made offline; those are the members that change.
pub proof fn retranscriptions_are_described(document: Seq<char>, now: Seq<char>)
    ensures
        ({
            let changed = changed_members(now);
            &&& says_retranscribed(document, now) <==> forall|i: int|
                0 <= i < changed.len() ==> member(document, (#[trigger] changed[i]).0) == Some(
                    changed[i].1,
                )
            &&& changed.len() == 4
            &&& changed.contains(("retranscribed_at"@, now))
            &&& changed.contains(("status"@, "completed"@))
            &&& changed.contains(("transcript_file"@, "transcripts_offline.json"@))
            &&& changed.contains(("source"@, "offline_asr"@))
        }),
{
    let changed = changed_members(now);
    assert(changed[0] == ("retranscribed_at"@, now));
    assert(changed[1] == ("status"@, "completed"@));
    assert(changed[2] == ("transcript_file"@, "transcripts_offline.json"@));
    assert(changed[3] == ("source"@, "offline_asr"@));
}

/// A recording that had no description gets one with its meeting and its audio file, in which all
/// times are the present one.
pub proof fn new_descriptions_name_the_meeting(
    meeting_id: Seq<char>,
    audio: Seq<char>,
    now: Seq<char>,
)
    ensures
        ({
            let members = fresh_members(meeting_id, audio, now);
            &&& members.len() == 9
            &&& members.contains(("version"@, "1.0"@))
            &&& members.contains(("meeting_id"@, meeting_id))
            &&& members.contains(("audio_file"@, audio))
            &&& members.contains(("created_at"@, now)) && members.contains(("completed_at"@, now))
            &&& members.contains(("retranscribed_at"@, now))
            &&& members.contains(("transcript_file"@, "transcripts_offline.json"@))
            &&& members.contains(("status"@, "completed"@))
            &&& members.contains(("source"@, "retranscription"@))
        }),
{
    let members = fresh_members(meeting_id, audio, now);
    assert(members[0] == ("version"@, "1.0"@));
    assert(members[1] == ("meeting_id"@, meeting_id));
    assert(members[2] == ("created_at"@, now));
    assert(members[3] == ("completed_at"@, now));
    assert(members[4] == ("retranscribed_at"@, now));
    assert(members[5] == ("audio_file"@, audio));
    assert(members[6] == ("transcript_file"@, "transcripts_offline.json"@));
    assert(members[7] == ("status"@, "completed"@));
    assert(members[8] == ("source"@, "retranscription"@));
}

} // verus!
