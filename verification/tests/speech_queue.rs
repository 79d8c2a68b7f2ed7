use miqbot_relay::orchestrator::speech_queue::{SpeechJob, SpeechPriority, SpeechQueue, SpeechSource};

fn job(id: &str, p: SpeechPriority, deadline_ms: u64) -> SpeechJob {
    SpeechJob {
        job_id: id.to_string(),
        text: id.to_string(),
        priority: p,
        source: SpeechSource::Telemetry,
        enqueued_ms: 0,
        deadline_ms,
        dedupe_key: id.to_string(),
    }
}

#[test]
fn keeps_priority_order() {
    let mut q = SpeechQueue::new(8, 8, 8);
    q.push(job("p2", SpeechPriority::P2Commentary, 10));
    q.push(job("p0", SpeechPriority::P0Safety, 10));
    q.push(job("p1", SpeechPriority::P1ChatReply, 10));

    assert_eq!(q.pop_next(0).unwrap().job_id, "p0");
    assert_eq!(q.pop_next(0).unwrap().job_id, "p1");
    assert_eq!(q.pop_next(0).unwrap().job_id, "p2");
}

#[test]
fn drops_expired_non_p0() {
    let mut q = SpeechQueue::new(8, 8, 8);
    q.push(job("p2", SpeechPriority::P2Commentary, 1));
    q.push(job("p0", SpeechPriority::P0Safety, 1));
    let dropped = q.drop_expired(2);
    assert_eq!(dropped.len(), 1);
    assert_eq!(dropped[0].job.job_id, "p2");
    assert_eq!(q.pop_next(2).unwrap().job_id, "p0");
}

#[test]
fn overflow_evicts_oldest_of_the_tier() {
    let mut q = SpeechQueue::new(8, 8, 2);
    assert!(q.push(job("a", SpeechPriority::P2Commentary, 100)).is_none());
    assert!(q.push(job("b", SpeechPriority::P2Commentary, 100)).is_none());
    let dropped = q.push(job("c", SpeechPriority::P2Commentary, 100)).unwrap();
    assert_eq!(dropped.job.job_id, "a");
    assert_eq!(dropped.reason, "queue_overflow");
    assert_eq!(q.pop_next(0).unwrap().job_id, "b");
    assert_eq!(q.pop_next(0).unwrap().job_id, "c");
    assert!(q.pop_next(0).is_none());
}

#[test]
fn zero_capacity_tier_holds_one_job() {
    let mut q = SpeechQueue::new(0, 0, 0);
    assert!(q.push(job("a", SpeechPriority::P1ChatReply, 5)).is_none());
    let dropped = q.push(job("b", SpeechPriority::P1ChatReply, 5)).unwrap();
    assert_eq!(dropped.job.job_id, "a");
    assert_eq!(q.pop_next(0).unwrap().job_id, "b");
}

#[test]
fn pop_skips_stale_jobs_and_discards_them() {
    let mut q = SpeechQueue::new(8, 8, 8);
    q.push(job("stale1", SpeechPriority::P1ChatReply, 5));
    q.push(job("live1", SpeechPriority::P1ChatReply, 10));
    q.push(job("stale2", SpeechPriority::P2Commentary, 9));
    q.push(job("live2", SpeechPriority::P2Commentary, 11));
    assert_eq!(q.pop_next(10).unwrap().job_id, "live1");
    assert_eq!(q.pop_next(10).unwrap().job_id, "live2");
    assert!(q.pop_next(10).is_none());
    assert!(q.drop_expired(1000).is_empty());
}

#[test]
fn safety_lines_ignore_deadlines_on_pop_and_sweep() {
    let mut q = SpeechQueue::new(8, 8, 8);
    q.push(job("s1", SpeechPriority::P0Safety, 0));
    q.push(job("s2", SpeechPriority::P0Safety, 0));
    assert!(q.drop_expired(u64::MAX).is_empty());
    assert_eq!(q.pop_next(u64::MAX).unwrap().job_id, "s1");
    assert_eq!(q.pop_next(u64::MAX).unwrap().job_id, "s2");
}

#[test]
fn sweep_reports_tiers_in_order_and_keeps_the_rest() {
    let mut q = SpeechQueue::new(8, 8, 8);
    q.push(job("c1", SpeechPriority::P2Commentary, 1));
    q.push(job("r1", SpeechPriority::P1ChatReply, 1));
    q.push(job("c2", SpeechPriority::P2Commentary, 50));
    q.push(job("r2", SpeechPriority::P1ChatReply, 2));
    let dropped = q.drop_expired(3);
    let ids: Vec<String> = dropped.iter().map(|d| d.job.job_id.clone()).collect();
    assert_eq!(ids, vec!["r1".to_string(), "r2".to_string(), "c1".to_string()]);
    assert!(dropped.iter().all(|d| d.reason == "deadline_expired"));
    assert_eq!(q.pop_next(3).unwrap().job_id, "c2");
}

#[test]
fn deadline_equal_to_now_is_still_live() {
    let mut q = SpeechQueue::new(8, 8, 8);
    q.push(job("edge", SpeechPriority::P2Commentary, 7));
    assert!(q.drop_expired(7).is_empty());
    assert_eq!(q.pop_next(7).unwrap().job_id, "edge");
}

#[test]
fn priority_and_source_names() {
    assert_eq!(SpeechPriority::P0Safety.as_str(), "p0_safety");
    assert_eq!(SpeechPriority::P1ChatReply.as_str(), "p1_chat_reply");
    assert_eq!(SpeechPriority::P2Commentary.as_str(), "p2_commentary");
    assert_eq!(SpeechSource::Telemetry.as_str(), "telemetry");
    assert_eq!(SpeechSource::Filler.as_str(), "filler");
    assert_eq!(SpeechSource::ActionSafety.as_str(), "action_safety");
}
