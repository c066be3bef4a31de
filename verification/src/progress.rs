//! What callers are told of the progress of an offline transcription.

use vstd::prelude::*;
#[allow(unused_imports)]
use vstd::string::StringExecFns;

use crate::chunk_plan::SAMPLE_RATE;
use crate::text;
use crate::text::{concat2, concat3, decimal};

verus! {

/// What callers are told of the progress: the stage, how far it is in hundredths, a message, and
/// while chunks are transcribed how many there are and how many are done.
#[derive(Debug)]
pub struct ProgressNote {
    pub stage: String,
    pub percent: u32,
    pub message: String,
    pub chunks_total: Option<usize>,
    pub chunks_processed: Option<usize>,
}

/// What callers are told of the progress, as a mathematical value.
pub struct NoteView {
    pub stage: Seq<char>,
    pub percent: u32,
    pub message: Seq<char>,
    pub chunks_total: Option<usize>,
    pub chunks_processed: Option<usize>,
}

impl View for ProgressNote {
    type V = NoteView;

    open spec fn view(&self) -> NoteView {
        NoteView {
            stage: self.stage@,
            percent: self.percent,
            message: self.message@,
            chunks_total: self.chunks_total,
            chunks_processed: self.chunks_processed,
        }
    }
}

/// A moment at which callers are told of the progress.
#[derive(Clone, Copy, Debug, PartialEq, Eq, Structural)]
pub enum Moment {
    Decoding,
    Decoded,
    DetectingSpeech,
    /// Speech is being detected: so many hundredths done, so many segments found.
    SpeechFound { percent: u32, segments: usize },
    /// The chunks are known, and the recognizer is got ready.
    LoadingEngine { streaming: bool, chunks: usize },
    /// So many chunks are transcribed, the last of so many samples.
    Transcribed { streaming: bool, done: usize, chunks: usize, samples: usize },
    Saving,
    WritingFiles,
}

/// So many samples in seconds, rounded; a half is rounded to the even side.
pub open spec fn rounded_seconds(samples: int) -> nat {
    let whole = samples / (SAMPLE_RATE as int);
    let rest = samples % (SAMPLE_RATE as int);
    if rest * 2 < SAMPLE_RATE || (rest * 2 == SAMPLE_RATE && whole % 2 == 0) {
        whole as nat
    } else {
        (whole + 1) as nat
    }
}

fn seconds_of(samples: usize) -> (r: u64)
    ensures
        r == rounded_seconds(samples as int),
{
    let whole: usize = samples / SAMPLE_RATE;
    let rest: usize = samples % SAMPLE_RATE;
    if rest * 2 < SAMPLE_RATE || (rest * 2 == SAMPLE_RATE && whole % 2 == 0) {
        whole as u64
    } else {
        whole as u64 + 1
    }
}

/// A number in decimal.
pub open spec fn num(n: int) -> Seq<char> {
    text::numeral(n as nat)
}

/// A note without chunks.
pub open spec fn plain_note(stage: Seq<char>, percent: u32, message: Seq<char>) -> NoteView {
    NoteView { stage, percent, message, chunks_total: None, chunks_processed: None }
}

/// What callers are told at a moment.
pub open spec fn note_for(moment: Moment) -> NoteView {
    match moment {
        Moment::Decoding => plain_note("decoding"@, 0, "解码音频文件..."@),
        Moment::Decoded => plain_note("decoding"@, 100, "预处理完成"@),
        Moment::DetectingSpeech => plain_note("vad"@, 0, "VAD: 过滤静音, 检测语音段落..."@),
        Moment::SpeechFound { percent, segments } => plain_note(
            "vad"@,
            percent,
            "Detecting speech segments... "@ + num(percent as int) + ("% ("@ + num(segments as int)
                + " found)"@),
        ),
        Moment::LoadingEngine { streaming, chunks } => NoteView {
            stage: "transcribing"@,
            percent: 0,
            message: if streaming {
                "X-ASR: "@ + num(chunks as int) + " 个大段, 准备发送..."@
            } else {
                "加载识别引擎... ("@ + num(chunks as int) + " 个大段)"@
            },
            chunks_total: Some(chunks),
            chunks_processed: Some(0),
        },
        Moment::Transcribed { streaming, done, chunks, samples } => NoteView {
            stage: "transcribing"@,
            percent: 0,
            message: (if streaming {
                "X-ASR 转写中 "@
            } else {
                "转写中 "@
            }) + (num(done as int) + "/"@ + num(chunks as int)) + (" ("@ + text::numeral(
                rounded_seconds(samples as int),
            ) + "s 音频)..."@),
            chunks_total: Some(chunks),
            chunks_processed: Some(done),
        },
        Moment::Saving => plain_note("saving"@, 0, "保存转录结果到数据库..."@),
        Moment::WritingFiles => plain_note("saving"@, 50, "写入转录文件..."@),
    }
}

fn note(stage: &str, percent: u32, message: String) -> (r: ProgressNote)
    ensures
        r@ == plain_note(stage@, percent, message@),
{
    ProgressNote {
        stage: stage.to_owned(),
        percent,
        message,
        chunks_total: None,
        chunks_processed: None,
    }
}

/// What callers are told at a moment.
pub fn progress_note(moment: Moment) -> (r: ProgressNote)
    ensures
        r@ == note_for(moment),
{
    match moment {
        Moment::Decoding => note("decoding", 0, "解码音频文件...".to_owned()),
        Moment::Decoded => note("decoding", 100, "预处理完成".to_owned()),
        Moment::DetectingSpeech => note("vad", 0, "VAD: 过滤静音, 检测语音段落...".to_owned()),
        Moment::SpeechFound { percent, segments } => {
            let found: String = concat3("% (", decimal(segments as u64).as_str(), " found)");
            let message: String = concat3(
                "Detecting speech segments... ",
                decimal(percent as u64).as_str(),
                found.as_str(),
            );
            note("vad", percent, message)
        },
        Moment::LoadingEngine { streaming, chunks } => {
            let count: String = decimal(chunks as u64);
            let message: String = if streaming {
                concat3("X-ASR: ", count.as_str(), " 个大段, 准备发送...")
            } else {
                concat3("加载识别引擎... (", count.as_str(), " 个大段)")
            };
            ProgressNote {
                stage: "transcribing".to_owned(),
                percent: 0,
                message,
                chunks_total: Some(chunks),
                chunks_processed: Some(0),
            }
        },
        Moment::Transcribed { streaming, done, chunks, samples } => {
            let start: String = if streaming {
                "X-ASR 转写中 ".to_owned()
            } else {
                "转写中 ".to_owned()
            };
            let counts: String = concat3(
                decimal(done as u64).as_str(),
                "/",
                decimal(chunks as u64).as_str(),
            );
            let length: String = concat3(" (", decimal(seconds_of(samples)).as_str(), "s 音频)...");
            ProgressNote {
                stage: "transcribing".to_owned(),
                percent: 0,
                message: concat2(concat2(start.as_str(), counts.as_str()).as_str(), length.as_str()),
                chunks_total: Some(chunks),
                chunks_processed: Some(done),
            }
        },
        Moment::Saving => note("saving", 0, "保存转录结果到数据库...".to_owned()),
        Moment::WritingFiles => note("saving", 50, "写入转录文件...".to_owned()),
    }
}

/// Samples are told in whole seconds, the nearest; of two that are as near, the even one.
pub proof fn seconds_are_the_nearest(samples: int)
    requires
        samples >= 0,
    ensures
        ({
            let told = rounded_seconds(samples) as int;
            &&& -8000 <= samples - 16000 * told <= 8000
            &&& samples - 16000 * told == 8000 || samples - 16000 * told == -8000 ==> told % 2 == 0
        }),
{
}

/// At every moment the stage is told under its name, with how far it is, and what is being done;
/// once the chunks are known, with how many there are and how many of them are done.
pub proof fn moments_are_told(
    percent: u32,
    segments: usize,
    streaming: bool,
    done: usize,
    chunks: usize,
    samples: usize,
)
    ensures
        ({
            let told = |m: Moment, stage: Seq<char>, hundredths: u32, message: Seq<char>|
                {
                    let note = note_for(m);
                    &&& note.stage == stage && note.percent == hundredths && note.message == message
                    &&& note.chunks_total is None && note.chunks_processed is None
                };
            let loading = note_for(Moment::LoadingEngine { streaming, chunks });
            let transcribed = note_for(Moment::Transcribed { streaming, done, chunks, samples });
            let count = text::numeral(chunks as nat);
            &&& told(Moment::Decoding, "decoding"@, 0, "解码音频文件..."@)
            &&& told(Moment::Decoded, "decoding"@, 100, "预处理完成"@)
            &&& told(Moment::DetectingSpeech, "vad"@, 0, "VAD: 过滤静音, 检测语音段落..."@)
            &&& told(
                Moment::SpeechFound { percent, segments },
                "vad"@,
                percent,
                "Detecting speech segments... "@ + text::numeral(percent as nat) + "% ("@
                    + text::numeral(segments as nat) + " found)"@,
            )
            &&& told(Moment::Saving, "saving"@, 0, "保存转录结果到数据库..."@)
            &&& told(Moment::WritingFiles, "saving"@, 50, "写入转录文件..."@)
            &&& loading.stage == "transcribing"@ && transcribed.stage == "transcribing"@
            &&& loading.percent == 0 && transcribed.percent == 0
            &&& loading.chunks_total == Some(chunks) && transcribed.chunks_total == Some(chunks)
            &&& loading.chunks_processed == Some(0usize)
            &&& transcribed.chunks_processed == Some(done)
            &&& streaming ==> loading.message == "X-ASR: "@ + count + " 个大段, 准备发送..."@
            &&& !streaming ==> loading.message == "加载识别引擎... ("@ + count + " 个大段)"@
            &&& transcribed.message == (if streaming {
                "X-ASR 转写中 "@
            } else {
                "转写中 "@
            }) + text::numeral(done as nat) + "/"@ + count + " ("@ + text::numeral(
                rounded_seconds(samples as int),
            ) + "s 音频)..."@
        }),
{
    let found = note_for(Moment::SpeechFound { percent, segments });
    assert(found.message =~= "Detecting speech segments... "@ + text::numeral(percent as nat)
        + "% ("@ + text::numeral(segments as nat) + " found)"@);
    let transcribed = note_for(Moment::Transcribed { streaming, done, chunks, samples });
    let start = if streaming {
        "X-ASR 转写中 "@
    } else {
        "转写中 "@
    };
    assert(transcribed.message =~= start + text::numeral(done as nat) + "/"@ + text::numeral(
        chunks as nat,
    ) + " ("@ + text::numeral(rounded_seconds(samples as int)) + "s 音频)..."@);
}

} // verus!
