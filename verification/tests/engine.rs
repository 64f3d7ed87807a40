use zero_trust::decision::{AccessDecision, DenyReason};
use zero_trust::directory::{DeviceDirectory, ThreatIntelligenceFeed, TimePolicyTable, UserDirectory};
use zero_trust::engine::{refusal, PolicyEngine};
use zero_trust::entity::{AccessRequest, DevicePosture, InvalidInput, PatchStatus, UserIdentity};
use zero_trust::risk::RiskLevel;

fn judge(engine: &PolicyEngine, user: &str, device: &str, ip: &str, resource: &str, hour: u8) -> AccessDecision {
    let request = AccessRequest::new(user, device, ip, resource, hour).unwrap();
    engine.process_access_request(&request)
}

fn denied(gate: DenyReason) -> AccessDecision {
    AccessDecision::Denied { reason: gate.message().to_string() }
}

fn permitted(token: &str, risk: RiskLevel) -> AccessDecision {
    AccessDecision::Permitted { session_token: token.to_string(), effective_risk: risk }
}

fn engine_with(score: u8, max_risk: RiskLevel, device_risk: RiskLevel, window: Option<(u8, u8)>) -> PolicyEngine {
    let mut users = UserDirectory::new();
    users.insert(UserIdentity::new("dana", "Ops", max_risk, &vec!["VAULT", "WIKI"], score).unwrap());
    let mut devices = DeviceDirectory::new();
    devices.insert(DevicePosture::new("LAPTOP", true, PatchStatus::Latest, device_risk));
    let mut threats = ThreatIntelligenceFeed::new();
    threats.insert("10.1.1.1", RiskLevel::Low);
    threats.insert("198.51.100.7", RiskLevel::High);
    let mut windows = TimePolicyTable::new();
    if let Some((start, end)) = window {
        windows.insert("Ops", start, end);
    }
    PolicyEngine::with_directories(users, devices, threats, windows)
}

#[test]
fn alice_is_permitted_in_working_hours() {
    let engine = PolicyEngine::new();
    let decision = judge(&engine, "alice", "D_A_123", "10.0.0.50", "GIT_REPO", 10);
    assert_eq!(decision, permitted("alice-GIT_REPO-Low-10", RiskLevel::Low));
    assert!(decision.is_permitted());
}

#[test]
fn carol_is_permitted_at_her_limit() {
    let engine = PolicyEngine::new();
    let decision = judge(&engine, "carol", "D_C_789", "10.0.0.50", "FINANCE_DB", 11);
    assert_eq!(decision, permitted("carol-FINANCE_DB-High-11", RiskLevel::High));
}

#[test]
fn alice_is_denied_at_night() {
    let engine = PolicyEngine::new();
    let decision = judge(&engine, "alice", "D_A_123", "10.0.0.50", "API_DEV_V1", 23);
    assert_eq!(decision, denied(DenyReason::TimeWindowViolation));
    assert_eq!(
        decision,
        AccessDecision::Denied { reason: "time-of-access violates role window".to_string() }
    );
    assert!(!decision.is_permitted());
}

#[test]
fn bob_is_denied_for_risk() {
    let engine = PolicyEngine::new();
    let decision = judge(&engine, "bob", "D_B_456", "172.16.20.100", "CRM_PROD", 14);
    assert_eq!(decision, denied(DenyReason::RiskExceeded));
    assert_eq!(
        decision,
        AccessDecision::Denied { reason: "aggregate risk exceeds permitted maximum".to_string() }
    );
}

#[test]
fn same_request_gives_same_decision() {
    let engine = PolicyEngine::new();
    let first = judge(&engine, "alice", "D_A_123", "10.0.0.50", "GIT_REPO", 10);
    let second = judge(&engine, "alice", "D_A_123", "10.0.0.50", "GIT_REPO", 10);
    assert_eq!(first, second);
    let other_engine = PolicyEngine::new();
    assert_eq!(first, judge(&other_engine, "alice", "D_A_123", "10.0.0.50", "GIT_REPO", 10));
    let refused = judge(&engine, "bob", "D_B_456", "172.16.20.100", "CRM_PROD", 14);
    assert_eq!(refused, judge(&engine, "bob", "D_B_456", "172.16.20.100", "CRM_PROD", 14));
}

#[test]
fn unknown_user_is_reported_before_anything_else() {
    let engine = PolicyEngine::new();
    let decision = judge(&engine, "mallory", "D_X_000", "203.0.113.42", "NOTHING", 3);
    assert_eq!(decision, denied(DenyReason::UnknownUser));
    assert_eq!(decision, AccessDecision::Denied { reason: "unknown user identity".to_string() });
    assert_eq!(judge(&engine, "", "D_A_123", "10.0.0.50", "GIT_REPO", 10), denied(DenyReason::UnknownUser));
}

#[test]
fn unknown_device_is_reported_before_later_gates() {
    let engine = PolicyEngine::new();
    let decision = judge(&engine, "alice", "D_X_000", "203.0.113.42", "NOTHING", 3);
    assert_eq!(decision, denied(DenyReason::UnknownDevice));
    assert_eq!(decision, AccessDecision::Denied { reason: "device not managed/unknown".to_string() });
}

#[test]
fn resource_is_reported_before_time_and_risk() {
    let engine = PolicyEngine::new();
    let decision = judge(&engine, "alice", "D_A_123", "203.0.113.42", "FINANCE_DB", 3);
    assert_eq!(decision, denied(DenyReason::ResourceNotAllowed));
    assert_eq!(decision, AccessDecision::Denied { reason: "resource not permitted for role".to_string() });
}

#[test]
fn time_is_reported_before_risk() {
    let engine = PolicyEngine::new();
    let decision = judge(&engine, "alice", "D_A_123", "203.0.113.42", "GIT_REPO", 3);
    assert_eq!(decision, denied(DenyReason::TimeWindowViolation));
}

#[test]
fn critical_origin_is_refused_for_risk() {
    let engine = PolicyEngine::new();
    let decision = judge(&engine, "alice", "D_A_123", "203.0.113.42", "GIT_REPO", 10);
    assert_eq!(decision, denied(DenyReason::RiskExceeded));
}

#[test]
fn unknown_origin_counts_as_medium() {
    let engine = PolicyEngine::new();
    let device = DevicePosture::new("D", true, PatchStatus::Latest, RiskLevel::Low);
    assert_eq!(engine.evaluate_total_risk(&device, "192.0.2.1", RiskLevel::Low), RiskLevel::Medium);
    assert_eq!(engine.evaluate_total_risk(&device, "", RiskLevel::Low), RiskLevel::Medium);
    let decision = judge(&engine, "alice", "D_A_123", "192.0.2.1", "GIT_REPO", 10);
    assert_eq!(decision, permitted("alice-GIT_REPO-Medium-10", RiskLevel::Medium));
    let carol = judge(&engine, "carol", "D_C_789", "192.0.2.1", "HR_PORTAL", 9);
    assert_eq!(carol, permitted("carol-HR_PORTAL-High-9", RiskLevel::High));
}

#[test]
fn feed_defaults_to_medium() {
    let mut feed = ThreatIntelligenceFeed::new();
    assert_eq!(feed.threat_level("10.0.0.50"), RiskLevel::Medium);
    feed.insert("10.0.0.50", RiskLevel::Low);
    feed.insert("203.0.113.42", RiskLevel::Critical);
    assert_eq!(feed.threat_level("10.0.0.50"), RiskLevel::Low);
    assert_eq!(feed.threat_level("203.0.113.42"), RiskLevel::Critical);
    assert_eq!(feed.threat_level("10.0.0.51"), RiskLevel::Medium);
    feed.insert("10.0.0.50", RiskLevel::High);
    assert_eq!(feed.threat_level("10.0.0.50"), RiskLevel::High);
}

#[test]
fn window_includes_start_and_excludes_end() {
    let engine = PolicyEngine::new();
    assert_eq!(engine._check_time_policy("Developer", 8), Ok(()));
    assert_eq!(engine._check_time_policy("Developer", 17), Ok(()));
    assert_eq!(
        engine._check_time_policy("Developer", 18),
        Err("time-of-access violates role window".to_string())
    );
    assert_eq!(
        engine._check_time_policy("Developer", 7),
        Err(DenyReason::TimeWindowViolation.message().to_string())
    );
    assert_eq!(engine._check_time_policy("Finance", 9), Ok(()));
    assert!(engine._check_time_policy("Finance", 8).is_err());
    assert_eq!(engine._check_time_policy("Finance", 16), Ok(()));
    assert!(engine._check_time_policy("Finance", 17).is_err());
    assert!(engine._check_time_policy("Developer", 0).is_err());
    assert!(engine._check_time_policy("Developer", 23).is_err());
}

#[test]
fn window_boundaries_decide_requests() {
    let engine = PolicyEngine::new();
    assert_eq!(
        judge(&engine, "alice", "D_A_123", "10.0.0.50", "GIT_REPO", 8),
        permitted("alice-GIT_REPO-Low-8", RiskLevel::Low)
    );
    assert_eq!(
        judge(&engine, "alice", "D_A_123", "10.0.0.50", "GIT_REPO", 17),
        permitted("alice-GIT_REPO-Low-17", RiskLevel::Low)
    );
    assert_eq!(
        judge(&engine, "alice", "D_A_123", "10.0.0.50", "GIT_REPO", 18),
        denied(DenyReason::TimeWindowViolation)
    );
    assert_eq!(
        judge(&engine, "alice", "D_A_123", "10.0.0.50", "GIT_REPO", 7),
        denied(DenyReason::TimeWindowViolation)
    );
}

#[test]
fn role_without_window_is_never_restricted() {
    let engine = PolicyEngine::new();
    assert_eq!(engine._check_time_policy("Sales", 0), Ok(()));
    assert_eq!(engine._check_time_policy("Sales", 23), Ok(()));
    assert_eq!(engine._check_time_policy("Nobody", 12), Ok(()));
    let free = engine_with(90, RiskLevel::Low, RiskLevel::Low, None);
    assert_eq!(judge(&free, "dana", "LAPTOP", "10.1.1.1", "VAULT", 0), permitted("dana-VAULT-Low-0", RiskLevel::Low));
    assert_eq!(
        judge(&free, "dana", "LAPTOP", "10.1.1.1", "WIKI", 23),
        permitted("dana-WIKI-Low-23", RiskLevel::Low)
    );
}

#[test]
fn empty_window_refuses_every_hour() {
    let shut = engine_with(90, RiskLevel::Critical, RiskLevel::Low, Some((5, 5)));
    assert!(shut._check_time_policy("Ops", 5).is_err());
    assert!(shut._check_time_policy("Ops", 4).is_err());
    assert_eq!(judge(&shut, "dana", "LAPTOP", "10.1.1.1", "VAULT", 5), denied(DenyReason::TimeWindowViolation));
}

#[test]
fn behavioral_thresholds() {
    let engine = PolicyEngine::new();
    assert_eq!(engine._check_behavioral_risk(29), RiskLevel::Critical);
    assert_eq!(engine._check_behavioral_risk(30), RiskLevel::High);
    assert_eq!(engine._check_behavioral_risk(49), RiskLevel::High);
    assert_eq!(engine._check_behavioral_risk(50), RiskLevel::Low);
    assert_eq!(engine._check_behavioral_risk(0), RiskLevel::Critical);
    assert_eq!(engine._check_behavioral_risk(100), RiskLevel::Low);
    assert_eq!(engine._check_behavioral_risk(85), RiskLevel::Low);
}

#[test]
fn behavioral_score_drives_the_decision() {
    let critical = engine_with(29, RiskLevel::High, RiskLevel::Low, None);
    assert_eq!(judge(&critical, "dana", "LAPTOP", "10.1.1.1", "VAULT", 12), denied(DenyReason::RiskExceeded));
    let high = engine_with(30, RiskLevel::High, RiskLevel::Low, None);
    assert_eq!(
        judge(&high, "dana", "LAPTOP", "10.1.1.1", "VAULT", 12),
        permitted("dana-VAULT-High-12", RiskLevel::High)
    );
    let low = engine_with(50, RiskLevel::Low, RiskLevel::Low, None);
    assert_eq!(judge(&low, "dana", "LAPTOP", "10.1.1.1", "VAULT", 12), permitted("dana-VAULT-Low-12", RiskLevel::Low));
    let all_allowed = engine_with(0, RiskLevel::Critical, RiskLevel::Low, None);
    assert_eq!(
        judge(&all_allowed, "dana", "LAPTOP", "10.1.1.1", "VAULT", 12),
        permitted("dana-VAULT-Critical-12", RiskLevel::Critical)
    );
}

#[test]
fn total_risk_is_the_highest_signal() {
    let engine = PolicyEngine::new();
    let low = DevicePosture::new("L", true, PatchStatus::Latest, RiskLevel::Low);
    let high = DevicePosture::new("H", false, PatchStatus::Outdated, RiskLevel::High);
    assert_eq!(engine.evaluate_total_risk(&low, "10.0.0.50", RiskLevel::Low), RiskLevel::Low);
    assert_eq!(engine.evaluate_total_risk(&high, "10.0.0.50", RiskLevel::Low), RiskLevel::High);
    assert_eq!(engine.evaluate_total_risk(&low, "203.0.113.42", RiskLevel::Low), RiskLevel::Critical);
    assert_eq!(engine.evaluate_total_risk(&low, "10.0.0.50", RiskLevel::Critical), RiskLevel::Critical);
    assert_eq!(engine.evaluate_total_risk(&low, "172.16.20.100", RiskLevel::Low), RiskLevel::Medium);
    assert_eq!(engine.evaluate_total_risk(&high, "172.16.20.100", RiskLevel::Low), RiskLevel::High);
    assert_eq!(engine.evaluate_total_risk(&high, "172.16.20.100", RiskLevel::Critical), RiskLevel::Critical);
}

#[test]
fn device_risk_alone_can_refuse() {
    let engine = engine_with(90, RiskLevel::Medium, RiskLevel::High, None);
    assert_eq!(judge(&engine, "dana", "LAPTOP", "10.1.1.1", "VAULT", 12), denied(DenyReason::RiskExceeded));
    let engine = engine_with(90, RiskLevel::High, RiskLevel::High, None);
    assert_eq!(
        judge(&engine, "dana", "LAPTOP", "10.1.1.1", "VAULT", 12),
        permitted("dana-VAULT-High-12", RiskLevel::High)
    );
}

#[test]
fn empty_engine_knows_nobody() {
    let engine = PolicyEngine::with_directories(
        UserDirectory::new(),
        DeviceDirectory::new(),
        ThreatIntelligenceFeed::new(),
        TimePolicyTable::new(),
    );
    assert_eq!(judge(&engine, "alice", "D_A_123", "10.0.0.50", "GIT_REPO", 10), denied(DenyReason::UnknownUser));
}

#[test]
fn refusal_carries_the_text_of_its_gate() {
    assert_eq!(refusal(DenyReason::UnknownUser), denied(DenyReason::UnknownUser));
    assert_eq!(
        refusal(DenyReason::RiskExceeded),
        AccessDecision::Denied { reason: "aggregate risk exceeds permitted maximum".to_string() }
    );
    assert!(!refusal(DenyReason::UnknownDevice).is_permitted());
}

#[test]
fn gate_texts_are_distinct() {
    let gates = [
        DenyReason::UnknownUser,
        DenyReason::UnknownDevice,
        DenyReason::ResourceNotAllowed,
        DenyReason::TimeWindowViolation,
        DenyReason::RiskExceeded,
    ];
    for (i, a) in gates.iter().enumerate() {
        for (j, b) in gates.iter().enumerate() {
            assert_eq!(a.message() == b.message(), i == j);
        }
    }
    assert_eq!(DenyReason::UnknownUser.message(), "unknown user identity");
    assert_eq!(DenyReason::UnknownDevice.message(), "device not managed/unknown");
    assert_eq!(DenyReason::ResourceNotAllowed.message(), "resource not permitted for role");
    assert_eq!(DenyReason::TimeWindowViolation.message(), "time-of-access violates role window");
    assert_eq!(DenyReason::RiskExceeded.message(), "aggregate risk exceeds permitted maximum");
}

#[test]
fn hour_out_of_range_is_no_request() {
    assert_eq!(AccessRequest::new("alice", "D_A_123", "10.0.0.50", "GIT_REPO", 24).err(), Some(InvalidInput::HourOutOfRange));
    assert_eq!(AccessRequest::new("alice", "D_A_123", "10.0.0.50", "GIT_REPO", 255).err(), Some(InvalidInput::HourOutOfRange));
    assert!(AccessRequest::new("alice", "D_A_123", "10.0.0.50", "GIT_REPO", 23).is_ok());
    assert!(AccessRequest::new("alice", "D_A_123", "10.0.0.50", "GIT_REPO", 0).is_ok());
}
