//! Decides which lines are worth saying: one per telemetry frame, a filler after a
//! long silence, and never the same line twice in quick succession.

use crate::proto::{Dimension, TelemetryFrame, TelemetryFrameView};
use crate::text::{decimal, str_eq, u64_to_decimal};
use crate::time::saturating_diff;
use vstd::prelude::*;
use vstd::string::*;

verus! {

/// How the policy names a dimension when it speaks.
pub open spec fn spoken_dimension(dimension: i32) -> Seq<char> {
    match Dimension::spec_from_i32(dimension) {
        Some(Dimension::DimensionOverworld) => "オーバーワールド"@,
        Some(Dimension::DimensionNether) => "ネザー"@,
        Some(Dimension::DimensionEnd) => "エンド"@,
        Some(Dimension::DimensionOther) => "特殊ディメンション"@,
        _ => "不明な場所"@,
    }
}

/// The line that reports a telemetry frame.
pub open spec fn spoken_telemetry_line(t: TelemetryFrameView) -> Seq<char> {
    "いま"@ + spoken_dimension(t.dimension) + "、体力"@ + decimal(t.hp as nat) + "で空腹"@ + decimal(t.hunger as nat)
        + "。足元を確認しながら行くよ。"@
}

/// The line spoken to break a long silence.
pub open spec fn spoken_filler_line() -> Seq<char> {
    "えっと、次の一手を考えてる。安全第一で進むね。"@
}

/// The mathematical value of a `SpeechPolicy`.
pub struct SpeechPolicyView {
    pub silence_gap_ms: u64,
    pub duplicate_cooldown_ms: u64,
    pub last_line: Option<Seq<char>>,
    pub last_line_ms: u64,
}

impl SpeechPolicyView {
    /// Whether `line` at `now_ms` repeats the last accepted line within the cooldown.
    pub open spec fn suppresses(self, now_ms: u64, line: Seq<char>) -> bool {
        self.last_line == Some(line) && saturating_diff(now_ms, self.last_line_ms) < self.duplicate_cooldown_ms
    }

    /// The policy after `line` was accepted at `now_ms`.
    pub open spec fn after_accept(self, now_ms: u64, line: Seq<char>) -> SpeechPolicyView {
        SpeechPolicyView { last_line: Some(line), last_line_ms: now_ms, ..self }
    }

    /// Whether the silence since `last_spoken_ms` calls for a filler at `now_ms`.
    pub open spec fn wants_filler(self, now_ms: u64, last_spoken_ms: u64) -> bool {
        saturating_diff(now_ms, last_spoken_ms) >= self.silence_gap_ms
    }
}

/// The speaking policy and its memory of the last accepted line.
pub struct SpeechPolicy {
    silence_gap_ms: u64,
    duplicate_cooldown_ms: u64,
    last_line: Option<String>,
    last_line_ms: u64,
}

impl View for SpeechPolicy {
    type V = SpeechPolicyView;

    closed spec fn view(&self) -> SpeechPolicyView {
        SpeechPolicyView {
            silence_gap_ms: self.silence_gap_ms,
            duplicate_cooldown_ms: self.duplicate_cooldown_ms,
            last_line: match self.last_line {
                Some(s) => Some(s@),
                None => None,
            },
            last_line_ms: self.last_line_ms,
        }
    }
}

fn spoken_dimension_name(dimension: i32) -> (r: &'static str)
    ensures
        r@ == spoken_dimension(dimension),
{
    match Dimension::from_i32(dimension) {
        Some(Dimension::DimensionOverworld) => "オーバーワールド",
        Some(Dimension::DimensionNether) => "ネザー",
        Some(Dimension::DimensionEnd) => "エンド",
        Some(Dimension::DimensionOther) => "特殊ディメンション",
        _ => "不明な場所",
    }
}

impl SpeechPolicy {
    /// A policy that has accepted no line yet.
    pub fn new(silence_gap_ms: u64, duplicate_cooldown_ms: u64) -> (p: Self)
        ensures
            p@ == (SpeechPolicyView { silence_gap_ms, duplicate_cooldown_ms, last_line: None, last_line_ms: 0 }),
    {
        Self { silence_gap_ms, duplicate_cooldown_ms, last_line: None, last_line_ms: 0 }
    }

    /// Composes the line for a telemetry frame and offers it to the policy.
    pub fn line_from_telemetry(&mut self, now_ms: u64, telemetry: &TelemetryFrame) -> (r: Option<String>)
        ensures
            old(self)@.suppresses(now_ms, spoken_telemetry_line(telemetry@)) ==> r is None && final(self)@ == old(
                self,
            )@,
            !old(self)@.suppresses(now_ms, spoken_telemetry_line(telemetry@)) ==> r is Some && r->0@
                == spoken_telemetry_line(telemetry@) && final(self)@ == old(self)@.after_accept(
                now_ms,
                spoken_telemetry_line(telemetry@),
            ),
    {
        let mut line = String::from_str("いま");
        line.append(spoken_dimension_name(telemetry.dimension));
        line.append("、体力");
        line.append(u64_to_decimal(telemetry.hp as u64).as_str());
        line.append("で空腹");
        line.append(u64_to_decimal(telemetry.hunger as u64).as_str());
        line.append("。足元を確認しながら行くよ。");
        self.accept_line(now_ms, line)
    }

    /// Offers the filler line to the policy if nothing was spoken for the configured
    /// silence gap.
    pub fn filler_if_needed(&mut self, now_ms: u64, last_spoken_ms: u64) -> (r: Option<String>)
        ensures
            old(self)@.wants_filler(now_ms, last_spoken_ms) && !old(self)@.suppresses(now_ms, spoken_filler_line())
                ==> r is Some && r->0@ == spoken_filler_line() && final(self)@ == old(self)@.after_accept(
                now_ms,
                spoken_filler_line(),
            ),
            !(old(self)@.wants_filler(now_ms, last_spoken_ms) && !old(self)@.suppresses(
                now_ms,
                spoken_filler_line(),
            )) ==> r is None && final(self)@ == old(self)@,
    {
        if now_ms.saturating_sub(last_spoken_ms) < self.silence_gap_ms {
            return None;
        }
        self.accept_line(now_ms, String::from_str("えっと、次の一手を考えてる。安全第一で進むね。"))
    }

    /// Accepts `line` unless it repeats the last accepted line within the cooldown.
    pub fn accept_line(&mut self, now_ms: u64, line: String) -> (r: Option<String>)
        ensures
            old(self)@.suppresses(now_ms, line@) ==> r is None && final(self)@ == old(self)@,
            !old(self)@.suppresses(now_ms, line@) ==> r is Some && r->0@ == line@ && final(self)@ == old(
                self,
            )@.after_accept(now_ms, line@),
    {
        if let Some(last) = &self.last_line {
            if str_eq(last.as_str(), line.as_str()) && now_ms.saturating_sub(self.last_line_ms)
                < self.duplicate_cooldown_ms {
                return None;
            }
        }
        self.last_line = Some(line.clone());
        self.last_line_ms = now_ms;
        Some(line)
    }
}

} // verus!
