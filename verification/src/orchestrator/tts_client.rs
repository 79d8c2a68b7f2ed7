//! The orchestrator's dealings with the speech synthesis service: where a request
//! goes and what a response amounts to.

use crate::orchestrator::config::TtsMode;
use vstd::prelude::*;
use vstd::string::*;

verus! {

/// The sample rate asked of the service, in hertz.
pub const SAMPLE_RATE_HZ: u32 = 48000;

/// The bytes that `base64::Engine::decode` of the standard engine gives for `input`:
/// standard alphabet, padding required. `None` where the input is not valid.
pub uninterp spec fn base64_decoded(input: Seq<u8>) -> Option<Seq<u8>>;

/// Decodes `input` with `base64::engine::general_purpose::STANDARD`. Trusted: the
/// result depends on the input alone.
#[verifier::external_body]
fn base64_decode(input: &[u8]) -> (r: Option<Vec<u8>>)
    ensures
        match base64_decoded(input@) {
            Some(b) => r is Some && r->0@ == b,
            None => r is None,
        },
{
    match base64::Engine::decode(&base64::engine::general_purpose::STANDARD, input) {
        Ok(bytes) => Some(bytes),
        Err(_) => None,
    }
}

/// Whether an HTTP status code means success.
pub open spec fn is_success(status: u16) -> bool {
    200 <= status < 300
}

pub fn status_is_success(status: u16) -> (r: bool)
    ensures
        r == is_success(status),
{
    200 <= status && status < 300
}

/// Synthesised speech, with the service's own timings where it reports them.
#[derive(Debug)]
pub struct SynthResult {
    pub wav_bytes: Vec<u8>,
    pub ttft_ms: Option<u64>,
    pub total_ms: Option<u64>,
}

/// The mathematical value of a `SynthResult`.
pub struct SynthResultView {
    pub wav_bytes: Seq<u8>,
    pub ttft_ms: Option<u64>,
    pub total_ms: Option<u64>,
}

impl View for SynthResult {
    type V = SynthResultView;

    open spec fn view(&self) -> SynthResultView {
        SynthResultView { wav_bytes: self.wav_bytes@, ttft_ms: self.ttft_ms, total_ms: self.total_ms }
    }
}

impl Clone for SynthResult {
    fn clone(&self) -> (r: Self)
        ensures
            r@ == self@,
    {
        SynthResult { wav_bytes: self.wav_bytes.clone(), ttft_ms: self.ttft_ms, total_ms: self.total_ms }
    }
}

/// Why a response of the service yields no speech.
#[derive(Clone, Copy, Debug, PartialEq, Eq, Structural)]
pub enum TtsError {
    /// The service answered with this status, which is not a success.
    Status(u16),
    /// The audio in the response is not valid Base64.
    BadAudio,
}

/// What a response to a plain request amounts to.
pub open spec fn wav_outcome(status: u16, body: Seq<u8>) -> Result<SynthResultView, TtsError> {
    if is_success(status) {
        Ok(SynthResultView { wav_bytes: body, ttft_ms: None, total_ms: None })
    } else {
        Err(TtsError::Status(status))
    }
}

/// What a response to a request with timings amounts to, `audio` being what decoding
/// its audio field gave.
pub open spec fn meta_outcome(ttft_ms: u64, total_ms: u64, audio: Option<Seq<u8>>) -> Result<
    SynthResultView,
    TtsError,
> {
    match audio {
        Some(wav) => Ok(SynthResultView { wav_bytes: wav, ttft_ms: Some(ttft_ms), total_ms: Some(total_ms) }),
        None => Err(TtsError::BadAudio),
    }
}

/// The client of the speech synthesis service.
#[derive(Debug)]
pub struct TtsClient {
    base_url: String,
}

impl View for TtsClient {
    type V = Seq<char>;

    closed spec fn view(&self) -> Seq<char> {
        self.base_url@
    }
}

/// The path of the call for mode `mode`.
pub open spec fn tts_path(mode: TtsMode) -> Seq<char> {
    match mode {
        TtsMode::WavOnly => "/v1/tts"@,
        TtsMode::WithMeta => "/v1/tts_with_meta"@,
    }
}

impl TtsClient {
    /// A client of the service at `base_url`.
    pub fn new(base_url: String) -> (c: Self)
        ensures
            c@ == base_url@,
    {
        Self { base_url }
    }

    /// The URL a request in mode `mode` is posted to.
    pub fn request_url(&self, mode: TtsMode) -> (url: String)
        ensures
            url@ == self@ + tts_path(mode),
    {
        let mut url = self.base_url.clone();
        match mode {
            TtsMode::WavOnly => url.append("/v1/tts"),
            TtsMode::WithMeta => url.append("/v1/tts_with_meta"),
        }
        url
    }

    /// Turns the response to a plain request into speech: the body is the audio.
    pub fn synthesize_wav_only(status: u16, body: Vec<u8>) -> (r: Result<SynthResult, TtsError>)
        ensures
            match wav_outcome(status, body@) {
                Ok(s) => r is Ok && r->Ok_0@ == s,
                Err(e) => r is Err && r->Err_0 == e,
            },
    {
        if !status_is_success(status) {
            return Err(TtsError::Status(status));
        }
        Ok(SynthResult { wav_bytes: body, ttft_ms: None, total_ms: None })
    }

    /// Turns the fields of a response with timings into speech, the audio field
    /// having been decoded already.
    pub fn synthesize_with_decoded(ttft_ms: u64, total_ms: u64, audio: Option<Vec<u8>>) -> (r: Result<
        SynthResult,
        TtsError,
    >)
        ensures
            match meta_outcome(
                ttft_ms,
                total_ms,
                match audio {
                    Some(a) => Some(a@),
                    None => None,
                },
            ) {
                Ok(s) => r is Ok && r->Ok_0@ == s,
                Err(e) => r is Err && r->Err_0 == e,
            },
    {
        match audio {
            Some(wav) => Ok(SynthResult { wav_bytes: wav, ttft_ms: Some(ttft_ms), total_ms: Some(total_ms) }),
            None => Err(TtsError::BadAudio),
        }
    }

    /// Turns the response to a request with timings into speech: the audio arrives as
    /// Base64 text.
    pub fn synthesize_with_meta(status: u16, ttft_ms: u64, total_ms: u64, audio_wav_base64: &str) -> (r: Result<
        SynthResult,
        TtsError,
    >)
        ensures
            !is_success(status) ==> r is Err && r->Err_0 == TtsError::Status(status),
            is_success(status) ==> match meta_outcome(
                ttft_ms,
                total_ms,
                base64_decoded(vstd::utf8::encode_utf8(audio_wav_base64@)),
            ) {
                Ok(s) => r is Ok && r->Ok_0@ == s,
                Err(e) => r is Err && r->Err_0 == e,
            },
    {
        if !status_is_success(status) {
            return Err(TtsError::Status(status));
        }
        let audio = base64_decode(audio_wav_base64.as_bytes());
        Self::synthesize_with_decoded(ttft_ms, total_ms, audio)
    }
}

} // verus!
