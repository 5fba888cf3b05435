//! Debug trace lookups, the dispatch slot, and the enqueue retry rule.

use valence_platform::deletion::debug::{
    bare_valence_deletion_run_id, constant_time_eq, find_boson_job_by_idempotency,
    no_run_for_id, no_run_for_record, runs_for_deletion_run, step_idempotency_keys, trace_target,
    unavailable_sources, DebugDenial, OverviewQuery, TraceQuery, TraceTarget, RECORD_FORMAT_ERROR,
    ROOT_RECORD_ID_REQUIRED, ROOT_TABLE_REQUIRED,
};
use valence_platform::deletion::boson_setup::VALENCE_DELETION_STEP_WORKER_TASK;
use valence_platform::enqueue::{
    enqueue_step, idempotency_key, next_backoff, EnqueueOutcome, EnqueueStep,
    RATE_LIMIT_BACKOFF_MAX_MS, RATE_LIMIT_BACKOFF_START_MS,
};
use valence_platform::model::PlatformError;
use valence_platform::registration::{job_not_found, run_now_failed, ChrononSlot};

#[test]
fn run_ids_lose_their_table_prefix() {
    assert_eq!(bare_valence_deletion_run_id("valence_deletion_run:abc"), "abc");
    assert_eq!(bare_valence_deletion_run_id("abc"), "abc");
    assert_eq!(no_run_for_id("x1"), "no valence_deletion_run for id x1");
    assert_eq!(
        no_run_for_record("widget", "w1"),
        "no valence_deletion_run for root_table=widget root_record_id=w1"
    );
}

#[test]
fn trace_targets() {
    let q = TraceQuery {
        deletion_run_id: Some(" valence_deletion_run:r9 ".to_string()),
        record: Some("widget:w1".to_string()),
        ..Default::default()
    };
    match trace_target(&q).unwrap() {
        TraceTarget::RunId { raw, bare } => {
            assert_eq!(raw, "valence_deletion_run:r9");
            assert_eq!(bare, "r9");
        }
        _ => panic!("run id wins"),
    }
    let q = TraceQuery { record: Some("widget:w:1".to_string()), ..Default::default() };
    match trace_target(&q).unwrap() {
        TraceTarget::Record { table, bare } => {
            assert_eq!(table, "widget");
            assert_eq!(bare, "w:1");
        }
        _ => panic!("record"),
    }
    let q = TraceQuery { record: Some("widget".to_string()), ..Default::default() };
    assert_eq!(trace_target(&q).unwrap_err(), RECORD_FORMAT_ERROR);
    let q = TraceQuery {
        root_table: Some("widget".to_string()),
        root_record_id: Some(" w1 ".to_string()),
        ..Default::default()
    };
    match trace_target(&q).unwrap() {
        TraceTarget::Record { table, bare } => {
            assert_eq!(table, "widget");
            assert_eq!(bare, "w1");
        }
        _ => panic!("root fields"),
    }
    let q = TraceQuery { root_record_id: Some("w1".to_string()), ..Default::default() };
    assert_eq!(trace_target(&q).unwrap_err(), ROOT_TABLE_REQUIRED);
    let q = TraceQuery {
        root_table: Some("widget".to_string()),
        root_record_id: Some("  ".to_string()),
        ..Default::default()
    };
    assert_eq!(trace_target(&q).unwrap_err(), ROOT_RECORD_ID_REQUIRED);
}

#[test]
fn overview_limit_clamps() {
    assert_eq!(OverviewQuery { limit: None }.effective_limit(), 50);
    assert_eq!(OverviewQuery { limit: Some(0) }.effective_limit(), 1);
    assert_eq!(OverviewQuery { limit: Some(75) }.effective_limit(), 75);
    assert_eq!(OverviewQuery { limit: Some(5000) }.effective_limit(), 200);
}

#[test]
fn denial_messages() {
    assert_eq!(
        DebugDenial::NotEnabled.message(),
        "deletion debug disabled; set VALENCE_DEBUG_DELETIONS=1"
    );
    assert_eq!(
        DebugDenial::TokenUnconfigured.message(),
        "deletion debug requires non-empty VALENCE_DEBUG_ADMIN_TOKEN"
    );
    assert_eq!(DebugDenial::TokenRejected.message(), "invalid or missing x-valence-debug-token");
    assert_eq!(DebugDenial::TokenRejected.status_code(), 401);
}

#[test]
fn constant_time_comparison() {
    assert!(constant_time_eq(b"secret", b"secret"));
    assert!(!constant_time_eq(b"secret", b"secreT"));
    assert!(!constant_time_eq(b"secret", b"secret!"));
    assert!(constant_time_eq(b"", b""));
}

#[test]
fn step_jobs_and_keys() {
    let jobs = vec![
        ("other_task".to_string(), Some("r1:s1".to_string())),
        (VALENCE_DELETION_STEP_WORKER_TASK.to_string(), None),
        (VALENCE_DELETION_STEP_WORKER_TASK.to_string(), Some("r1:s1".to_string())),
        (VALENCE_DELETION_STEP_WORKER_TASK.to_string(), Some("r1:s1".to_string())),
    ];
    assert_eq!(find_boson_job_by_idempotency(&jobs, "r1:s1"), Some(2));
    assert_eq!(find_boson_job_by_idempotency(&jobs, "r1:s2"), None);
    let keys =
        step_idempotency_keys("r1", &vec![Some("s1".to_string()), None, Some("s3".to_string())]);
    assert_eq!(keys, vec!["r1:s1".to_string(), "r1:s3".to_string()]);
    assert_eq!(unavailable_sources(true, true), Vec::<&str>::new());
    assert_eq!(unavailable_sources(false, true), vec!["chronon"]);
    assert_eq!(unavailable_sources(false, false), vec!["chronon", "boson"]);
    assert_eq!(unavailable_sources(true, false), vec!["boson"]);
}

#[test]
fn scheduler_runs_for_a_deletion_run_in_schedule_order() {
    let runs = vec![
        (Some("r1".to_string()), 30),
        (Some("r2".to_string()), 5),
        (None, 1),
        (Some("r1".to_string()), 10),
        (Some("r1".to_string()), 30),
        (Some("r1".to_string()), 20),
    ];
    assert_eq!(runs_for_deletion_run(&runs, "r1"), vec![3, 5, 0, 4]);
    assert_eq!(runs_for_deletion_run(&runs, "r2"), vec![1]);
    assert!(runs_for_deletion_run(&runs, "r3").is_empty());
}

#[test]
fn enqueue_retries_only_rate_limits() {
    assert!(matches!(enqueue_step(EnqueueOutcome::Accepted, 1000), EnqueueStep::Done));
    match enqueue_step(EnqueueOutcome::RateLimited, RATE_LIMIT_BACKOFF_START_MS) {
        EnqueueStep::RetryAfter { sleep_ms, next_backoff } => {
            assert_eq!(sleep_ms, 1000);
            assert_eq!(next_backoff, 2000);
        }
        _ => panic!("rate limit retries"),
    }
    assert!(matches!(
        enqueue_step(EnqueueOutcome::Failed("nope".to_string()), 1000),
        EnqueueStep::Fail(m) if m == "nope"
    ));
    let mut b = RATE_LIMIT_BACKOFF_START_MS;
    let mut seen = Vec::new();
    for _ in 0..8 {
        seen.push(b);
        b = next_backoff(b);
    }
    assert_eq!(seen, vec![1000, 2000, 4000, 8000, 16000, 30000, 30000, 30000]);
    assert_eq!(next_backoff(RATE_LIMIT_BACKOFF_MAX_MS), RATE_LIMIT_BACKOFF_MAX_MS);
    assert_eq!(idempotency_key("r1", "row7"), "r1:row7");
}

#[test]
fn dispatch_slot_first_registration_wins() {
    let mut slot: ChrononSlot<u32> = ChrononSlot::new();
    assert!(!slot.is_registered());
    assert!(matches!(
        slot.run_now_request("job", "r1", "not registered"),
        Err(PlatformError::Internal(m)) if m == "not registered"
    ));
    assert!(slot.register(7));
    assert!(!slot.register(8));
    assert!(slot.is_registered());
    let req = slot.run_now_request("job", "r1", "not registered").unwrap();
    assert_eq!(*req.backend, 7);
    assert_eq!(req.job_name, "job");
    assert_eq!(req.run_id, "r1");
    slot.force_unregistered_for_tests(true);
    assert!(!slot.is_registered());
    assert!(slot.run_now_request("job", "r1", "not registered").is_err());
    slot.force_unregistered_for_tests(false);
    assert!(slot.is_registered());
    assert!(matches!(
        job_not_found("valence-iter-orchestrator"),
        PlatformError::Internal(m) if m == "Chronon job valence-iter-orchestrator not found"
    ));
    assert!(matches!(run_now_failed("busy".to_string()), PlatformError::Internal(m) if m == "busy"));
}
