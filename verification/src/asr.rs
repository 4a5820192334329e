//! The speech-recognition layer's plain data and decisions: languages,
//! transcripts, errors, which engine serves which language, and what a
//! recognizer's raw output becomes. Loading models and running inference
//! on audio samples is the application's part.

use vstd::prelude::*;
use vstd::string::StringExecFns;

use crate::text::{trim_white, trim_whitespace};

verus! {

/// A language SpeechX can dictate in.
#[derive(Debug, Clone, Copy, PartialEq, Eq, Hash, Structural)]
pub enum LanguageCode {
    En,
    Hi,
    Bn,
}

/// The ISO 639-1 code of a language, as Whisper expects it.
pub open spec fn spec_whisper_code(code: LanguageCode) -> Seq<char> {
    match code {
        LanguageCode::En => "en"@,
        LanguageCode::Hi => "hi"@,
        LanguageCode::Bn => "bn"@,
    }
}

impl LanguageCode {
    pub fn whisper_code(self) -> (r: &'static str)
        ensures
            r@ == spec_whisper_code(self),
    {
        match self {
            LanguageCode::En => "en",
            LanguageCode::Hi => "hi",
            LanguageCode::Bn => "bn",
        }
    }
}

#[derive(Debug, Clone)]
pub struct Transcript {
    pub text: String,
    pub language: LanguageCode,
    pub duration_ms: u64,
}

#[derive(Debug, Clone, Copy, PartialEq, Eq, Structural)]
pub struct AsrOptions {
    pub language_hint: Option<LanguageCode>,
}

impl Default for AsrOptions {
    fn default() -> (r: Self)
        ensures
            r.language_hint is None,
    {
        AsrOptions { language_hint: None }
    }
}

#[derive(Debug, Clone)]
pub enum AsrError {
    /// A model file is missing; holds its path.
    ModelMissing(String),
    RecognizerInit,
    Poisoned,
    Empty,
}

pub open spec fn spec_asr_error_message(e: AsrError) -> Seq<char> {
    match e {
        AsrError::ModelMissing(path) => "model files missing: "@ + path@,
        AsrError::RecognizerInit => "failed to create recognizer"@,
        AsrError::Poisoned => "asr engine mutex poisoned by a prior panic"@,
        AsrError::Empty => "transcription produced no result"@,
    }
}

impl AsrError {
    /// The error's message for logs and display.
    pub fn message(&self) -> (r: String)
        ensures
            r@ == spec_asr_error_message(*self),
    {
        match self {
            AsrError::ModelMissing(path) => String::from_str("model files missing: ").concat(
                path.as_str(),
            ),
            AsrError::RecognizerInit => String::from_str("failed to create recognizer"),
            AsrError::Poisoned => String::from_str("asr engine mutex poisoned by a prior panic"),
            AsrError::Empty => String::from_str("transcription produced no result"),
        }
    }
}

/// The language a transcript is labelled with: the caller's hint if it
/// gave one, else the language the engine was loaded for.
pub open spec fn spec_transcript_language(
    hint: Option<LanguageCode>,
    loaded_language: LanguageCode,
) -> LanguageCode {
    match hint {
        Some(l) => l,
        None => loaded_language,
    }
}

/// Turns a recognizer's raw result into a transcript: the text trimmed of
/// surrounding white space; no result, or nothing left after trimming,
/// is `AsrError::Empty`.
pub fn transcript_from_result(
    raw_text: Option<String>,
    opts: &AsrOptions,
    loaded_language: LanguageCode,
    duration_ms: u64,
) -> (r: Result<Transcript, AsrError>)
    ensures
        match raw_text {
            None => r matches Err(AsrError::Empty),
            Some(t) => if trim_white(t@).len() == 0 {
                r matches Err(AsrError::Empty)
            } else {
                r matches Ok(tr) && tr.text@ == trim_white(t@) && tr.language
                    == spec_transcript_language(opts.language_hint, loaded_language)
                    && tr.duration_ms == duration_ms
            },
        },
{
    match raw_text {
        None => Err(AsrError::Empty),
        Some(t) => {
            let text = trim_whitespace(t.as_str());
            if text.as_str().is_empty() {
                return Err(AsrError::Empty);
            }
            let language = match opts.language_hint {
                Some(l) => l,
                None => loaded_language,
            };
            Ok(Transcript { text, language, duration_ms })
        },
    }
}

/// The speech-recognition engines SpeechX runs.
#[derive(Debug, Clone, Copy, PartialEq, Eq, Structural)]
pub enum EngineKind {
    /// Whisper base (multilingual), loaded for one language: the language
    /// is fixed when the recognizer is created.
    Whisper(LanguageCode),
    /// The dedicated streaming Bengali Zipformer model.
    BengaliZipformer,
}

pub open spec fn spec_engine_id(e: EngineKind) -> Seq<char> {
    match e {
        EngineKind::Whisper(_) => "whisper-base"@,
        EngineKind::BengaliZipformer => "zipformer-bn-vosk"@,
    }
}

/// The language an engine was loaded for.
pub open spec fn spec_engine_language(e: EngineKind) -> LanguageCode {
    match e {
        EngineKind::Whisper(l) => l,
        EngineKind::BengaliZipformer => LanguageCode::Bn,
    }
}

/// An engine transcribes exactly the language it was loaded for.
pub open spec fn spec_supports(e: EngineKind, lang: LanguageCode) -> bool {
    lang == spec_engine_language(e)
}

pub open spec fn spec_memory_estimate_mb(e: EngineKind) -> usize {
    match e {
        EngineKind::Whisper(_) => 120,
        EngineKind::BengaliZipformer => 100,
    }
}

impl EngineKind {
    pub fn id(self) -> (r: &'static str)
        ensures
            r@ == spec_engine_id(self),
    {
        match self {
            EngineKind::Whisper(_) => "whisper-base",
            EngineKind::BengaliZipformer => "zipformer-bn-vosk",
        }
    }

    pub fn loaded_language(self) -> (r: LanguageCode)
        ensures
            r == spec_engine_language(self),
    {
        match self {
            EngineKind::Whisper(l) => l,
            EngineKind::BengaliZipformer => LanguageCode::Bn,
        }
    }

    pub fn supports(self, lang: LanguageCode) -> (r: bool)
        ensures
            r == spec_supports(self, lang),
    {
        lang == self.loaded_language()
    }

    /// Approximate resident memory of the loaded engine, in MB.
    pub fn memory_estimate_mb(self) -> (r: usize)
        ensures
            r == spec_memory_estimate_mb(self),
    {
        match self {
            EngineKind::Whisper(_) => 120,
            EngineKind::BengaliZipformer => 100,
        }
    }
}

/// The engine that dictates in `language`: the dedicated Bengali model
/// for Bengali, Whisper loaded for the language otherwise.
pub open spec fn spec_dictate_engine_kind(language: LanguageCode) -> EngineKind {
    match language {
        LanguageCode::Bn => EngineKind::BengaliZipformer,
        _ => EngineKind::Whisper(language),
    }
}

pub fn dictate_engine_kind(language: LanguageCode) -> (r: EngineKind)
    ensures
        r == spec_dictate_engine_kind(language),
{
    match language {
        LanguageCode::Bn => EngineKind::BengaliZipformer,
        LanguageCode::En => EngineKind::Whisper(LanguageCode::En),
        LanguageCode::Hi => EngineKind::Whisper(LanguageCode::Hi),
    }
}

/// The engine that hears language names in Command mode: Whisper loaded
/// for English, resident for good so that switching the dictation
/// language never affects hearing the next switch command.
pub fn command_engine_kind() -> (r: EngineKind)
    ensures
        r == EngineKind::Whisper(LanguageCode::En),
{
    EngineKind::Whisper(LanguageCode::En)
}

/// Whether the resident Whisper dictation model (loaded for `resident`,
/// if any) must be replaced to dictate in `wanted`: at most one is kept,
/// and it is reused while the language stays the same.
pub fn whisper_reload_needed(resident: Option<LanguageCode>, wanted: LanguageCode) -> (r: bool)
    ensures
        r == (resident != Some(wanted)),
{
    match resident {
        Some(l) => l != wanted,
        None => true,
    }
}

/// Every language is dictated by an engine that supports it.
pub proof fn lemma_dictate_engine_supports_its_language(language: LanguageCode)
    ensures
        spec_supports(spec_dictate_engine_kind(language), language),
{
}

} // verus!
