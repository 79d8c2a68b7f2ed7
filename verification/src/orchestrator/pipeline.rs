//! What one run of the speech pipeline amounts to, once subtitle, synthesis and
//! playback have been attempted.

use crate::orchestrator::subtitle_client::{SubtitleError, SubtitleResponse, SubtitleResponseView};
use crate::orchestrator::tts_client::{SynthResult, SynthResultView};
use vstd::prelude::*;
use vstd::string::*;

verus! {

/// The outcome of one run of the pipeline, the subtitle's display time and the path
/// of the audio file aside.
#[derive(Debug)]
pub struct PipelineOutcome {
    pub ttft_ms: u64,
    pub tts_total_ms: u64,
    pub subtitle_request_id: String,
    pub subtitle_visible_chars: u64,
    pub subtitle_wrapped: String,
    pub pipeline_latency_ms: u64,
}

/// The mathematical value of a `PipelineOutcome`.
pub struct PipelineOutcomeView {
    pub ttft_ms: u64,
    pub tts_total_ms: u64,
    pub subtitle_request_id: Seq<char>,
    pub subtitle_visible_chars: u64,
    pub subtitle_wrapped: Seq<char>,
    pub pipeline_latency_ms: u64,
}

impl View for PipelineOutcome {
    type V = PipelineOutcomeView;

    open spec fn view(&self) -> PipelineOutcomeView {
        PipelineOutcomeView {
            ttft_ms: self.ttft_ms,
            tts_total_ms: self.tts_total_ms,
            subtitle_request_id: self.subtitle_request_id@,
            subtitle_visible_chars: self.subtitle_visible_chars,
            subtitle_wrapped: self.subtitle_wrapped@,
            pipeline_latency_ms: self.pipeline_latency_ms,
        }
    }
}

/// The outcome of a run: the synthesis service's own timings where it reported them,
/// the measured ones where it did not; the subtitle's data where the subtitle was
/// shown, nothing where it was not.
pub open spec fn pipeline_outcome(
    subtitle: Option<SubtitleResponseView>,
    synth: SynthResultView,
    measured_ttft_ms: u64,
    pipeline_latency_ms: u64,
) -> PipelineOutcomeView {
    PipelineOutcomeView {
        ttft_ms: match synth.ttft_ms {
            Some(t) => t,
            None => measured_ttft_ms,
        },
        tts_total_ms: match synth.total_ms {
            Some(t) => t,
            None => pipeline_latency_ms,
        },
        subtitle_request_id: match subtitle {
            Some(s) => s.request_id,
            None => Seq::empty(),
        },
        subtitle_visible_chars: match subtitle {
            Some(s) => s.visible_chars,
            None => 0,
        },
        subtitle_wrapped: match subtitle {
            Some(s) => s.wrapped,
            None => Seq::empty(),
        },
        pipeline_latency_ms,
    }
}

/// Sums up one run of the pipeline. A subtitle that failed leaves its fields empty;
/// it does not fail the run.
pub fn run_pipeline(
    subtitle: Result<SubtitleResponse, SubtitleError>,
    synth: &SynthResult,
    measured_ttft_ms: u64,
    pipeline_latency_ms: u64,
) -> (out: PipelineOutcome)
    ensures
        out@ == pipeline_outcome(
            match subtitle {
                Ok(s) => Some(s@),
                Err(_) => None,
            },
            synth@,
            measured_ttft_ms,
            pipeline_latency_ms,
        ),
{
    let (subtitle_request_id, subtitle_wrapped, subtitle_visible_chars) = match subtitle {
        Ok(body) => (body.request_id, body.wrapped, body.visible_chars),
        Err(_) => (String::new(), String::new(), 0),
    };
    PipelineOutcome {
        ttft_ms: match synth.ttft_ms {
            Some(t) => t,
            None => measured_ttft_ms,
        },
        tts_total_ms: match synth.total_ms {
            Some(t) => t,
            None => pipeline_latency_ms,
        },
        subtitle_request_id,
        subtitle_visible_chars,
        subtitle_wrapped,
        pipeline_latency_ms,
    }
}

} // verus!
