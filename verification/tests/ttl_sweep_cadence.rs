//! Cadence constants and the fair per-table share of the TTL sweeper.

use valence_platform::ttl::sweep::{fair_table_limit, DEFAULT_TTL_SWEEP_CAP, TTL_SWEEP_CRON};

#[test]
fn fair_table_limit_unit() {
    assert_eq!(valence_platform::ttl::sweep::fair_table_limit(32, 3), 11);
    assert_eq!(valence_platform::ttl::sweep::fair_table_limit(1, 10), 1);
}

#[test]
fn fair_table_limit_ceil_share() {
    assert_eq!(fair_table_limit(32, 3), 11);
    assert_eq!(fair_table_limit(32, 1), 32);
    assert_eq!(fair_table_limit(0, 5), 0);
    assert_eq!(fair_table_limit(5, 0), 0);
}

#[test]
fn ttl_sweep_cap_and_cron_constants() {
    assert_eq!(
        DEFAULT_TTL_SWEEP_CAP, 32,
        "TTL sweep should queue at most 32 deletes per tick"
    );
    assert_eq!(TTL_SWEEP_CRON, "*/30 * * * * *");
}

#[test]
fn fair_table_limit_exact_division_and_huge_table_count() {
    assert_eq!(fair_table_limit(30, 3), 10);
    assert_eq!(fair_table_limit(31, 3), 11);
    assert_eq!(fair_table_limit(u32::MAX, usize::MAX), 1);
    assert_eq!(fair_table_limit(u32::MAX, 1), u32::MAX);
}
