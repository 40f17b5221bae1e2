use signaly::report::{choose_tier, report_outcome, Tier, SUSPENSION_DAYS};
use signaly::propagate::{Command, Endpoint};
use signaly::scorer::{report_floor, required_reports, ESCALATE_MULTIPLIER, SUSPEND_MULTIPLIER};
use signaly::report::report_count;

/// The saturating growth curve in thousandths of a report.
fn growth_milli(followers: u32) -> u32 {
    ((1.0 - (-0.0000021_f64 * followers as f64).exp()) * 30000.0 * 1000.0) as u32
}

fn required(followers: u32, multiplier: u32) -> u32 {
    required_reports(followers, multiplier, growth_milli(followers))
}

#[test]
fn zero_followers_need_the_floor() {
    assert_eq!(growth_milli(0), 0);
    assert_eq!(required(0, SUSPEND_MULTIPLIER), 1);
    assert_eq!(required(0, ESCALATE_MULTIPLIER), 1);
}

#[test]
fn small_accounts_get_protective_floor() {
    for f in 1..=20u32 {
        assert!(required(f, SUSPEND_MULTIPLIER) >= 100);
        assert!(required(f, ESCALATE_MULTIPLIER) >= 10);
        assert_eq!(required(f, SUSPEND_MULTIPLIER), 100);
        assert_eq!(required(f, ESCALATE_MULTIPLIER), 10);
    }
    for f in [21u32, 50, 1000, 100000, u32::MAX] {
        assert!(required(f, SUSPEND_MULTIPLIER) >= 1);
        assert!(required(f, ESCALATE_MULTIPLIER) >= 1);
    }
}

#[test]
fn floor_values() {
    assert_eq!(report_floor(0, 10), 1);
    assert_eq!(report_floor(1, 10), 100);
    assert_eq!(report_floor(20, 10), 100);
    assert_eq!(report_floor(20, 2), 10);
    assert_eq!(report_floor(21, 10), 1);
    assert_eq!(report_floor(5, 7), 10);
}

#[test]
fn scaled_curve_exact_values() {
    // 5681.1 reports of curve, times 2 and times 10, truncated.
    assert_eq!(required_reports(100000, 2, 5_681_100), 11362);
    assert_eq!(required_reports(100000, 10, 5_681_100), 56811);
    assert_eq!(required_reports(21, 10, 1_323), 13);
    assert_eq!(required_reports(21, 2, 1_323), 2);
    assert_eq!(required_reports(u32::MAX, u32::MAX, u32::MAX), u32::MAX);
}

#[test]
fn suspend_threshold_not_below_escalate() {
    for f in [0u32, 1, 10, 20, 21, 100, 5000, 100000, 1_000_000, u32::MAX] {
        assert!(required(f, SUSPEND_MULTIPLIER) >= required(f, ESCALATE_MULTIPLIER));
    }
}

#[test]
fn monotonic_within_band() {
    let mut last = 0;
    for f in (21..200000u32).step_by(997) {
        let r = required(f, SUSPEND_MULTIPLIER);
        assert!(r >= last);
        last = r;
    }
    // Crossing from the small-account band lowers the requirement.
    assert!(required(21, SUSPEND_MULTIPLIER) < required(20, SUSPEND_MULTIPLIER));
}

#[test]
fn zero_followers_over_threshold_suspends() {
    let threshold = required(0, SUSPEND_MULTIPLIER);
    // The existing count reaches threshold + 1; the new report adds one more.
    let total = threshold + 1 + 1;
    let tier = choose_tier(total, 0, growth_milli(0));
    assert_eq!(tier, Tier::Suspend);
    let subject = "mallory".to_string();
    let outcome = report_outcome(
        tier,
        &subject,
        &"alice".to_string(),
        &"gravitalia".to_string(),
        &"Other".to_string(),
        19000,
    );
    let suspension = outcome.suspension.expect("a suspension is created");
    assert_eq!(suspension.subject, "mallory");
    assert_eq!(suspension.platform, "gravitalia");
    assert_eq!(suspension.expire_day, 19000 + SUSPENSION_DAYS);
    assert!(outcome.notice.mention);
    assert_eq!(outcome.notice.action, "Suspended account, check if it is a false-positive");
    assert_eq!(outcome.calls.len(), 1);
    assert_eq!(outcome.calls[0].command, Command::Suspend);
    assert_eq!(outcome.calls[0].subject, "mallory");
    assert!(matches!(&outcome.calls[0].endpoint, Endpoint::Platform(p) if p == "gravitalia"));
}

#[test]
fn escalate_band_alerts_without_suspension() {
    let f = 100000u32;
    let g = growth_milli(f);
    let escalate = required_reports(f, ESCALATE_MULTIPLIER, g);
    let suspend = required_reports(f, SUSPEND_MULTIPLIER, g);
    assert!(escalate + 1 < suspend);
    for total in [escalate + 1, suspend] {
        let tier = choose_tier(total, f, g);
        assert_eq!(tier, Tier::Escalate);
        let outcome = report_outcome(
            tier,
            &"mallory".to_string(),
            &"alice".to_string(),
            &"gravitalia".to_string(),
            &"Spam".to_string(),
            19000,
        );
        assert!(outcome.suspension.is_none());
        assert!(outcome.calls.is_empty());
        assert!(outcome.notice.mention);
        assert_eq!(outcome.notice.action, "Alerting support: too many reports");
    }
}

#[test]
fn zero_followers_thresholds_coincide() {
    // At zero followers both thresholds are 1, so no count lies strictly
    // between them: one report logs, two suspend.
    assert_eq!(choose_tier(1, 0, 0), Tier::Log);
    assert_eq!(choose_tier(2, 0, 0), Tier::Suspend);
}

#[test]
fn below_thresholds_only_logs() {
    let tier = choose_tier(5, 10, growth_milli(10));
    assert_eq!(tier, Tier::Log);
    let outcome = report_outcome(
        tier,
        &"mallory".to_string(),
        &"alice".to_string(),
        &"gravitalia".to_string(),
        &"Other".to_string(),
        1,
    );
    assert!(outcome.suspension.is_none());
    assert!(!outcome.notice.mention);
    assert_eq!(outcome.notice.action, "/");
    assert_eq!(outcome.notice.actor, "alice");
    assert_eq!(outcome.notice.subject, "mallory");
    assert_eq!(outcome.notice.reason, "Other");
}

#[test]
fn report_count_decoding() {
    assert_eq!(report_count(&vec![]), 0);
    assert_eq!(report_count(&vec![0, 0, 0, 0, 0, 0, 0, 7]), 7);
    assert_eq!(report_count(&vec![0, 0, 1, 2]), 258);
    assert_eq!(report_count(&vec![0, 0, 0, 1, 0, 0, 0, 0]), u32::MAX);
    assert_eq!(report_count(&vec![0xff, 0xff, 0xff, 0xff]), u32::MAX);
}
