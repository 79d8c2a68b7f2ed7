//! The records the orchestrator writes to its metrics file: one for every job spoken
//! and one for every job dropped.

use crate::orchestrator::pipeline::{PipelineOutcome, PipelineOutcomeView};
use crate::orchestrator::speech_queue::{DroppedSpeechJob, DroppedSpeechJobView, SpeechJob, SpeechJobView};
use vstd::prelude::*;
use vstd::string::*;

verus! {

/// The value of one field of a record.
#[derive(Debug)]
pub enum MetricValue {
    Text(String),
    Number(u64),
}

/// The mathematical value of a `MetricValue`.
pub enum MetricValueView {
    Text(Seq<char>),
    Number(u64),
}

impl View for MetricValue {
    type V = MetricValueView;

    open spec fn view(&self) -> MetricValueView {
        match self {
            MetricValue::Text(s) => MetricValueView::Text(s@),
            MetricValue::Number(n) => MetricValueView::Number(*n),
        }
    }
}

/// One field of a record: its name and its value.
#[derive(Debug)]
pub struct MetricField {
    pub name: &'static str,
    pub value: MetricValue,
}

/// The mathematical value of a `MetricField`.
pub struct MetricFieldView {
    pub name: Seq<char>,
    pub value: MetricValueView,
}

impl View for MetricField {
    type V = MetricFieldView;

    open spec fn view(&self) -> MetricFieldView {
        MetricFieldView { name: self.name@, value: self.value@ }
    }
}

/// The views of the given fields.
pub open spec fn metric_views(fs: Seq<MetricField>) -> Seq<MetricFieldView> {
    fs.map_values(|f: MetricField| f@)
}

/// A field that holds a text.
pub open spec fn text_field(name: Seq<char>, value: Seq<char>) -> MetricFieldView {
    MetricFieldView { name, value: MetricValueView::Text(value) }
}

/// A field that holds a number.
pub open spec fn number_field(name: Seq<char>, value: u64) -> MetricFieldView {
    MetricFieldView { name, value: MetricValueView::Number(value) }
}

/// The fields that every record of a job starts with, under the event name `event`.
pub open spec fn job_fields(event: Seq<char>, job: SpeechJobView) -> Seq<MetricFieldView> {
    seq![
        text_field("event"@, event),
        text_field("job_id"@, job.job_id),
        text_field("text"@, job.text),
        text_field("priority"@, job.priority.spec_as_str()),
        text_field("source"@, job.source.spec_as_str()),
    ]
}

/// The record of a job that was dropped.
pub open spec fn speech_dropped_record(d: DroppedSpeechJobView) -> Seq<MetricFieldView> {
    job_fields("speech_dropped"@, d.job).push(text_field("dropped_reason"@, d.reason))
}

/// The record of a job that was spoken, the subtitle's display time aside.
pub open spec fn speech_pipeline_record(
    job: SpeechJobView,
    outcome: PipelineOutcomeView,
    silence_gap_ms: u64,
    queue_wait_ms: u64,
    audio_path: Seq<char>,
) -> Seq<MetricFieldView> {
    job_fields("speech_pipeline"@, job) + seq![
        number_field("ttft_ms"@, outcome.ttft_ms),
        number_field("tts_total_ms"@, outcome.tts_total_ms),
        text_field("subtitle_request_id"@, outcome.subtitle_request_id),
        number_field("subtitle_visible_chars"@, outcome.subtitle_visible_chars),
        text_field("subtitle_wrapped"@, outcome.subtitle_wrapped),
        number_field("silence_gap_ms"@, silence_gap_ms),
        number_field("queue_wait_ms"@, queue_wait_ms),
        number_field("pipeline_latency_ms"@, outcome.pipeline_latency_ms),
        text_field("audio_path"@, audio_path),
    ]
}

fn text(name: &'static str, value: &str) -> (f: MetricField)
    ensures
        f@ == text_field(name@, value@),
{
    MetricField { name, value: MetricValue::Text(String::from_str(value)) }
}

fn number(name: &'static str, value: u64) -> (f: MetricField)
    ensures
        f@ == number_field(name@, value),
{
    MetricField { name, value: MetricValue::Number(value) }
}

fn job_record(event: &'static str, job: &SpeechJob) -> (r: Vec<MetricField>)
    ensures
        metric_views(r@) == job_fields(event@, job@),
{
    let mut r: Vec<MetricField> = Vec::new();
    r.push(text("event", event));
    r.push(text("job_id", job.job_id.as_str()));
    r.push(text("text", job.text.as_str()));
    r.push(text("priority", job.priority.as_str()));
    r.push(text("source", job.source.as_str()));
    proof {
        assert(metric_views(r@) =~= job_fields(event@, job@));
    }
    r
}

/// Builds the record of a job that was dropped.
pub fn speech_dropped(d: &DroppedSpeechJob) -> (r: Vec<MetricField>)
    ensures
        metric_views(r@) == speech_dropped_record(d@),
{
    let mut r = job_record("speech_dropped", &d.job);
    r.push(text("dropped_reason", d.reason));
    proof {
        assert(metric_views(r@) =~= speech_dropped_record(d@));
    }
    r
}

/// Builds the record of a job that was spoken. The subtitle's display time is for the
/// caller to add.
pub fn speech_pipeline(
    job: &SpeechJob,
    outcome: &PipelineOutcome,
    silence_gap_ms: u64,
    queue_wait_ms: u64,
    audio_path: &str,
) -> (r: Vec<MetricField>)
    ensures
        metric_views(r@) == speech_pipeline_record(job@, outcome@, silence_gap_ms, queue_wait_ms, audio_path@),
{
    let mut r = job_record("speech_pipeline", job);
    r.push(number("ttft_ms", outcome.ttft_ms));
    r.push(number("tts_total_ms", outcome.tts_total_ms));
    r.push(text("subtitle_request_id", outcome.subtitle_request_id.as_str()));
    r.push(number("subtitle_visible_chars", outcome.subtitle_visible_chars));
    r.push(text("subtitle_wrapped", outcome.subtitle_wrapped.as_str()));
    r.push(number("silence_gap_ms", silence_gap_ms));
    r.push(number("queue_wait_ms", queue_wait_ms));
    r.push(number("pipeline_latency_ms", outcome.pipeline_latency_ms));
    r.push(text("audio_path", audio_path));
    proof {
        assert(metric_views(r@) =~= speech_pipeline_record(
            job@,
            outcome@,
            silence_gap_ms,
            queue_wait_ms,
            audio_path@,
        ));
    }
    r
}

} // verus!
