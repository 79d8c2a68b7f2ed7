//! The orchestrator's configuration and the rules it must meet.

use crate::text::str_eq;
use crate::text::{is_blank, str_is_blank};
use vstd::prelude::*;

verus! {

/// Everything the orchestrator is configured with.
#[derive(Clone, Debug)]
pub struct OrchestratorConfig {
    pub bridge_url: String,
    pub agent_id: String,
    pub client_version: String,
    pub primary_game_agent_id: String,
    pub tts_url: String,
    pub subtitle_url: String,
    pub tts_mode: String,
    pub silence_gap_ms: u64,
    pub state_tick_ms: u64,
    pub duplicate_cooldown_ms: u64,
    pub queue_max_p0: usize,
    pub queue_max_p1: usize,
    pub queue_max_p2: usize,
    pub chat_deadline_ms: u64,
    pub filler_deadline_ms: u64,
    pub action_ack_timeout_ms: u64,
    pub action_result_timeout_ms: u64,
    pub audio_output_dir: String,
    pub fallback_wav_path: String,
    pub metrics_jsonl_path: String,
    pub tls: TlsConfig,
}

/// Where the orchestrator finds its client certificate, its key and the server CA bundle.
#[derive(Clone, Debug)]
pub struct TlsConfig {
    pub client_cert_pem: String,
    pub client_key_pem: String,
    pub ca_cert_pem: String,
}

/// Which of the two speech synthesis calls to make.
#[derive(Clone, Copy, Debug, PartialEq, Eq, Structural)]
pub enum TtsMode {
    WavOnly,
    WithMeta,
}

/// The first rule that a configuration breaks.
#[derive(Clone, Copy, Debug, PartialEq, Eq, Structural)]
pub enum OrchestratorConfigError {
    EmptyBridgeUrl,
    EmptyAgentId,
    EmptyClientVersion,
    EmptyPrimaryGameAgentId,
    EmptyTtsUrl,
    EmptySubtitleUrl,
    ZeroSilenceGap,
    ZeroStateTick,
    ZeroQueueCapacity,
    ZeroSpeechDeadline,
    ZeroActionTimeout,
    EmptyAudioOutputDir,
    EmptyFallbackWavPath,
    EmptyMetricsPath,
}

impl OrchestratorConfigError {
    pub open spec fn spec_message(self) -> Seq<char> {
        match self {
            OrchestratorConfigError::EmptyBridgeUrl => "bridge_url must not be empty"@,
            OrchestratorConfigError::EmptyAgentId => "agent_id must not be empty"@,
            OrchestratorConfigError::EmptyClientVersion => "client_version must not be empty"@,
            OrchestratorConfigError::EmptyPrimaryGameAgentId => "primary_game_agent_id must not be empty"@,
            OrchestratorConfigError::EmptyTtsUrl => "tts_url must not be empty"@,
            OrchestratorConfigError::EmptySubtitleUrl => "subtitle_url must not be empty"@,
            OrchestratorConfigError::ZeroSilenceGap => "silence_gap_ms must be > 0"@,
            OrchestratorConfigError::ZeroStateTick => "state_tick_ms must be > 0"@,
            OrchestratorConfigError::ZeroQueueCapacity => "queue_max_p0/p1/p2 must be > 0"@,
            OrchestratorConfigError::ZeroSpeechDeadline => "chat_deadline_ms and filler_deadline_ms must be > 0"@,
            OrchestratorConfigError::ZeroActionTimeout => "action_ack_timeout_ms and action_result_timeout_ms must be > 0"@,
            OrchestratorConfigError::EmptyAudioOutputDir => "audio_output_dir must not be empty"@,
            OrchestratorConfigError::EmptyFallbackWavPath => "fallback_wav_path must not be empty"@,
            OrchestratorConfigError::EmptyMetricsPath => "metrics_jsonl_path must not be empty"@,
        }
    }

    /// The text that explains the broken rule.
    pub fn message(self) -> (r: &'static str)
        ensures
            r@ == self.spec_message(),
    {
        match self {
            OrchestratorConfigError::EmptyBridgeUrl => "bridge_url must not be empty",
            OrchestratorConfigError::EmptyAgentId => "agent_id must not be empty",
            OrchestratorConfigError::EmptyClientVersion => "client_version must not be empty",
            OrchestratorConfigError::EmptyPrimaryGameAgentId => "primary_game_agent_id must not be empty",
            OrchestratorConfigError::EmptyTtsUrl => "tts_url must not be empty",
            OrchestratorConfigError::EmptySubtitleUrl => "subtitle_url must not be empty",
            OrchestratorConfigError::ZeroSilenceGap => "silence_gap_ms must be > 0",
            OrchestratorConfigError::ZeroStateTick => "state_tick_ms must be > 0",
            OrchestratorConfigError::ZeroQueueCapacity => "queue_max_p0/p1/p2 must be > 0",
            OrchestratorConfigError::ZeroSpeechDeadline => "chat_deadline_ms and filler_deadline_ms must be > 0",
            OrchestratorConfigError::ZeroActionTimeout => "action_ack_timeout_ms and action_result_timeout_ms must be > 0",
            OrchestratorConfigError::EmptyAudioOutputDir => "audio_output_dir must not be empty",
            OrchestratorConfigError::EmptyFallbackWavPath => "fallback_wav_path must not be empty",
            OrchestratorConfigError::EmptyMetricsPath => "metrics_jsonl_path must not be empty",
        }
    }
}

impl OrchestratorConfig {
    /// The first rule this configuration breaks, in the order in which the rules are
    /// checked, or `None` where it breaks none.
    pub open spec fn violation(&self) -> Option<OrchestratorConfigError> {
        if is_blank(self.bridge_url@) {
            Some(OrchestratorConfigError::EmptyBridgeUrl)
        } else if is_blank(self.agent_id@) {
            Some(OrchestratorConfigError::EmptyAgentId)
        } else if is_blank(self.client_version@) {
            Some(OrchestratorConfigError::EmptyClientVersion)
        } else if is_blank(self.primary_game_agent_id@) {
            Some(OrchestratorConfigError::EmptyPrimaryGameAgentId)
        } else if is_blank(self.tts_url@) {
            Some(OrchestratorConfigError::EmptyTtsUrl)
        } else if is_blank(self.subtitle_url@) {
            Some(OrchestratorConfigError::EmptySubtitleUrl)
        } else if self.silence_gap_ms == 0 {
            Some(OrchestratorConfigError::ZeroSilenceGap)
        } else if self.state_tick_ms == 0 {
            Some(OrchestratorConfigError::ZeroStateTick)
        } else if self.queue_max_p0 == 0 || self.queue_max_p1 == 0 || self.queue_max_p2 == 0 {
            Some(OrchestratorConfigError::ZeroQueueCapacity)
        } else if self.chat_deadline_ms == 0 || self.filler_deadline_ms == 0 {
            Some(OrchestratorConfigError::ZeroSpeechDeadline)
        } else if self.action_ack_timeout_ms == 0 || self.action_result_timeout_ms == 0 {
            Some(OrchestratorConfigError::ZeroActionTimeout)
        } else if is_blank(self.audio_output_dir@) {
            Some(OrchestratorConfigError::EmptyAudioOutputDir)
        } else if is_blank(self.fallback_wav_path@) {
            Some(OrchestratorConfigError::EmptyFallbackWavPath)
        } else if is_blank(self.metrics_jsonl_path@) {
            Some(OrchestratorConfigError::EmptyMetricsPath)
        } else {
            None
        }
    }

    /// Checks the configuration against its rules.
    pub fn validate(&self) -> (r: Result<(), OrchestratorConfigError>)
        ensures
            match self.violation() {
                Some(e) => r == Err::<(), OrchestratorConfigError>(e),
                None => r is Ok,
            },
    {
        if str_is_blank(self.bridge_url.as_str()) {
            return Err(OrchestratorConfigError::EmptyBridgeUrl);
        }
        if str_is_blank(self.agent_id.as_str()) {
            return Err(OrchestratorConfigError::EmptyAgentId);
        }
        if str_is_blank(self.client_version.as_str()) {
            return Err(OrchestratorConfigError::EmptyClientVersion);
        }
        if str_is_blank(self.primary_game_agent_id.as_str()) {
            return Err(OrchestratorConfigError::EmptyPrimaryGameAgentId);
        }
        if str_is_blank(self.tts_url.as_str()) {
            return Err(OrchestratorConfigError::EmptyTtsUrl);
        }
        if str_is_blank(self.subtitle_url.as_str()) {
            return Err(OrchestratorConfigError::EmptySubtitleUrl);
        }
        if self.silence_gap_ms == 0 {
            return Err(OrchestratorConfigError::ZeroSilenceGap);
        }
        if self.state_tick_ms == 0 {
            return Err(OrchestratorConfigError::ZeroStateTick);
        }
        if self.queue_max_p0 == 0 || self.queue_max_p1 == 0 || self.queue_max_p2 == 0 {
            return Err(OrchestratorConfigError::ZeroQueueCapacity);
        }
        if self.chat_deadline_ms == 0 || self.filler_deadline_ms == 0 {
            return Err(OrchestratorConfigError::ZeroSpeechDeadline);
        }
        if self.action_ack_timeout_ms == 0 || self.action_result_timeout_ms == 0 {
            return Err(OrchestratorConfigError::ZeroActionTimeout);
        }
        if str_is_blank(self.audio_output_dir.as_str()) {
            return Err(OrchestratorConfigError::EmptyAudioOutputDir);
        }
        if str_is_blank(self.fallback_wav_path.as_str()) {
            return Err(OrchestratorConfigError::EmptyFallbackWavPath);
        }
        if str_is_blank(self.metrics_jsonl_path.as_str()) {
            return Err(OrchestratorConfigError::EmptyMetricsPath);
        }
        Ok(())
    }

    /// The mode named by `tts_mode`: `with_meta` selects the call that also returns
    /// timings; any other text selects the plain one.
    pub open spec fn spec_tts_mode(&self) -> TtsMode {
        if self.tts_mode@ == "with_meta"@ {
            TtsMode::WithMeta
        } else {
            TtsMode::WavOnly
        }
    }

    pub fn tts_mode(&self) -> (mode: TtsMode)
        ensures
            mode == self.spec_tts_mode(),
    {
        if str_eq(self.tts_mode.as_str(), "with_meta") {
            TtsMode::WithMeta
        } else {
            TtsMode::WavOnly
        }
    }
}

/// The mathematical value of a `TlsConfig`.
pub struct TlsConfigView {
    pub client_cert_pem: Seq<char>,
    pub client_key_pem: Seq<char>,
    pub ca_cert_pem: Seq<char>,
}

impl View for TlsConfig {
    type V = TlsConfigView;

    open spec fn view(&self) -> TlsConfigView {
        TlsConfigView {
            client_cert_pem: self.client_cert_pem@,
            client_key_pem: self.client_key_pem@,
            ca_cert_pem: self.ca_cert_pem@,
        }
    }
}

/// The mathematical value of an `OrchestratorConfig`.
pub struct OrchestratorConfigView {
    pub bridge_url: Seq<char>,
    pub agent_id: Seq<char>,
    pub client_version: Seq<char>,
    pub primary_game_agent_id: Seq<char>,
    pub tts_url: Seq<char>,
    pub subtitle_url: Seq<char>,
    pub tts_mode: Seq<char>,
    pub silence_gap_ms: u64,
    pub state_tick_ms: u64,
    pub duplicate_cooldown_ms: u64,
    pub queue_max_p0: usize,
    pub queue_max_p1: usize,
    pub queue_max_p2: usize,
    pub chat_deadline_ms: u64,
    pub filler_deadline_ms: u64,
    pub action_ack_timeout_ms: u64,
    pub action_result_timeout_ms: u64,
    pub audio_output_dir: Seq<char>,
    pub fallback_wav_path: Seq<char>,
    pub metrics_jsonl_path: Seq<char>,
    pub tls: TlsConfigView,
}

impl View for OrchestratorConfig {
    type V = OrchestratorConfigView;

    open spec fn view(&self) -> OrchestratorConfigView {
        OrchestratorConfigView {
            bridge_url: self.bridge_url@,
            agent_id: self.agent_id@,
            client_version: self.client_version@,
            primary_game_agent_id: self.primary_game_agent_id@,
            tts_url: self.tts_url@,
            subtitle_url: self.subtitle_url@,
            tts_mode: self.tts_mode@,
            silence_gap_ms: self.silence_gap_ms,
            state_tick_ms: self.state_tick_ms,
            duplicate_cooldown_ms: self.duplicate_cooldown_ms,
            queue_max_p0: self.queue_max_p0,
            queue_max_p1: self.queue_max_p1,
            queue_max_p2: self.queue_max_p2,
            chat_deadline_ms: self.chat_deadline_ms,
            filler_deadline_ms: self.filler_deadline_ms,
            action_ack_timeout_ms: self.action_ack_timeout_ms,
            action_result_timeout_ms: self.action_result_timeout_ms,
            audio_output_dir: self.audio_output_dir@,
            fallback_wav_path: self.fallback_wav_path@,
            metrics_jsonl_path: self.metrics_jsonl_path@,
            tls: self.tls@,
        }
    }
}

} // verus!
