//! Building the action requests that the orchestrator may issue.

use crate::ids::{fresh_uuid, is_uuid_text, lemma_uuid_text_not_blank};
use crate::text::is_blank;
use crate::proto::{ActionRequest, ActionRequestView, ActionType, BaritoneGoto, BaritoneGotoView};
use crate::time::saturating_sum;
use vstd::prelude::*;
use vstd::string::*;

verus! {

/// How far a path-finding action may go, in blocks.
pub const GOTO_MAX_DISTANCE: u32 = 200;

/// How long a path-finding action may take, in milliseconds.
pub const GOTO_TIMEOUT_MS: u64 = 15000;

/// How long a path-finding action may stand still before it is given up, in
/// milliseconds.
pub const GOTO_STUCK_TIMEOUT_MS: u64 = 5000;

/// The action types the orchestrator is allowed to send.
pub open spec fn spec_is_allowlisted(action_type: ActionType) -> bool {
    action_type == ActionType::ActionTypeStopAll || action_type == ActionType::ActionTypeBaritoneGoto
}

pub fn is_allowlisted(action_type: ActionType) -> (r: bool)
    ensures
        r == spec_is_allowlisted(action_type),
{
    match action_type {
        ActionType::ActionTypeStopAll => true,
        ActionType::ActionTypeBaritoneGoto => true,
        ActionType::ActionTypeUnspecified => false,
    }
}

/// The request that asks `target` to stop everything, valid until `ttl_ms` after
/// `now_unix_ms`, under the given identifiers.
pub open spec fn stop_all_request(
    request_id: Seq<char>,
    idempotency_key: Seq<char>,
    target: Seq<char>,
    now_unix_ms: u64,
    ttl_ms: u64,
) -> ActionRequestView {
    ActionRequestView {
        request_id,
        expected_state_version: 0,
        action_type: ActionType::ActionTypeStopAll.spec_to_i32(),
        expires_at_unix_ms: saturating_sum(now_unix_ms, ttl_ms),
        idempotency_key,
        target_agent_id: target,
        baritone_goto: None,
    }
}

/// The request that asks `target` to walk to the given coordinates, valid until
/// `ttl_ms` after `now_unix_ms`, under the given identifiers.
pub open spec fn baritone_goto_request(
    request_id: Seq<char>,
    idempotency_key: Seq<char>,
    target: Seq<char>,
    now_unix_ms: u64,
    ttl_ms: u64,
    x_bits: u64,
    y_bits: u64,
    z_bits: u64,
) -> ActionRequestView {
    ActionRequestView {
        request_id,
        expected_state_version: 0,
        action_type: ActionType::ActionTypeBaritoneGoto.spec_to_i32(),
        expires_at_unix_ms: saturating_sum(now_unix_ms, ttl_ms),
        idempotency_key,
        target_agent_id: target,
        baritone_goto: Some(
            BaritoneGotoView {
                x_bits,
                y_bits,
                z_bits,
                max_distance: GOTO_MAX_DISTANCE,
                timeout_ms: GOTO_TIMEOUT_MS,
                stuck_timeout_ms: GOTO_STUCK_TIMEOUT_MS,
            },
        ),
    }
}

/// Builds a stop-everything request under identifiers chosen by the caller.
pub fn stop_all_request_with_ids(
    request_id: String,
    idempotency_key: String,
    target_agent_id: &str,
    now_unix_ms: u64,
    ttl_ms: u64,
) -> (req: ActionRequest)
    ensures
        req@ == stop_all_request(request_id@, idempotency_key@, target_agent_id@, now_unix_ms, ttl_ms),
{
    ActionRequest {
        request_id,
        expected_state_version: 0,
        action_type: ActionType::ActionTypeStopAll.to_i32(),
        expires_at_unix_ms: now_unix_ms.saturating_add(ttl_ms),
        idempotency_key,
        target_agent_id: String::from_str(target_agent_id),
        baritone_goto: None,
    }
}

/// Builds a path-finding request under identifiers chosen by the caller. The
/// coordinates are given as the bit patterns of IEEE-754 doubles.
pub fn baritone_goto_request_with_ids(
    request_id: String,
    idempotency_key: String,
    target_agent_id: &str,
    now_unix_ms: u64,
    ttl_ms: u64,
    x_bits: u64,
    y_bits: u64,
    z_bits: u64,
) -> (req: ActionRequest)
    ensures
        req@ == baritone_goto_request(
            request_id@,
            idempotency_key@,
            target_agent_id@,
            now_unix_ms,
            ttl_ms,
            x_bits,
            y_bits,
            z_bits,
        ),
{
    ActionRequest {
        request_id,
        expected_state_version: 0,
        action_type: ActionType::ActionTypeBaritoneGoto.to_i32(),
        expires_at_unix_ms: now_unix_ms.saturating_add(ttl_ms),
        idempotency_key,
        target_agent_id: String::from_str(target_agent_id),
        baritone_goto: Some(
            BaritoneGoto {
                x_bits,
                y_bits,
                z_bits,
                max_distance: GOTO_MAX_DISTANCE,
                timeout_ms: GOTO_TIMEOUT_MS,
                stuck_timeout_ms: GOTO_STUCK_TIMEOUT_MS,
            },
        ),
    }
}

/// Builds a stop-everything request for `target_agent_id` under two fresh random
/// identifiers.
pub fn build_stop_all_request(target_agent_id: &str, now_unix_ms: u64, ttl_ms: u64) -> (req: ActionRequest)
    ensures
        is_uuid_text(req@.request_id),
        is_uuid_text(req@.idempotency_key),
        !is_blank(req@.request_id),
        req@ == stop_all_request(
            req@.request_id,
            req@.idempotency_key,
            target_agent_id@,
            now_unix_ms,
            ttl_ms,
        ),
{
    let request_id = fresh_uuid();
    let idempotency_key = fresh_uuid();
    proof {
        lemma_uuid_text_not_blank(request_id@);
    }
    stop_all_request_with_ids(request_id, idempotency_key, target_agent_id, now_unix_ms, ttl_ms)
}

/// Builds a path-finding request for `target_agent_id` under two fresh random
/// identifiers. The coordinates are given as the bit patterns of IEEE-754 doubles.
pub fn build_baritone_goto_request(
    target_agent_id: &str,
    now_unix_ms: u64,
    ttl_ms: u64,
    x_bits: u64,
    y_bits: u64,
    z_bits: u64,
) -> (req: ActionRequest)
    ensures
        is_uuid_text(req@.request_id),
        is_uuid_text(req@.idempotency_key),
        !is_blank(req@.request_id),
        req@ == baritone_goto_request(
            req@.request_id,
            req@.idempotency_key,
            target_agent_id@,
            now_unix_ms,
            ttl_ms,
            x_bits,
            y_bits,
            z_bits,
        ),
{
    let request_id = fresh_uuid();
    let idempotency_key = fresh_uuid();
    proof {
        lemma_uuid_text_not_blank(request_id@);
    }
    baritone_goto_request_with_ids(
        request_id,
        idempotency_key,
        target_agent_id,
        now_unix_ms,
        ttl_ms,
        x_bits,
        y_bits,
        z_bits,
    )
}

} // verus!
