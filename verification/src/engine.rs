//! The policy engine: the directories it consults and the judgement of a
//! request against them.

use crate::decision::{AccessDecision, DecisionView, DenyReason};
use crate::directory::{
    threat_of, window_of, DeviceDirectory, ThreatIntelligenceFeed, TimePolicyTable, UserDirectory,
};
use crate::entity::{AccessRequest, DevicePosture, DeviceRecord, PatchStatus, UserIdentity, UserRecord, resource_set};
use crate::policy::{
    behavioral_risk, decide, total_risk, window_permits, Directories, CRITICAL_SCORE_BOUND, HIGH_SCORE_BOUND,
};
use crate::risk::RiskLevel;
use crate::token::session_token;
use vstd::prelude::*;
use vstd::string::StringExecFns;

verus! {

/// The users of the sample deployment: a developer, a salesman and an
/// accountant.
pub open spec fn sample_users() -> Map<Seq<char>, UserRecord> {
    Map::<Seq<char>, UserRecord>::empty().insert(
        "alice"@,
        UserRecord {
            user_id: "alice"@,
            role: "Developer"@,
            max_risk: RiskLevel::Medium,
            allowed_resources: resource_set(seq!["API_DEV_V1", "GIT_REPO", "LOG_SERVER"]),
            behavioral_score: 85,
        },
    ).insert(
        "bob"@,
        UserRecord {
            user_id: "bob"@,
            role: "Sales"@,
            max_risk: RiskLevel::Low,
            allowed_resources: resource_set(seq!["CRM_PROD", "SALES_REPORTS"]),
            behavioral_score: 72,
        },
    ).insert(
        "carol"@,
        UserRecord {
            user_id: "carol"@,
            role: "Finance"@,
            max_risk: RiskLevel::High,
            allowed_resources: resource_set(seq!["FINANCE_DB", "HR_PORTAL"]),
            behavioral_score: 45,
        },
    )
}

/// The devices of the sample deployment.
pub open spec fn sample_devices() -> Map<Seq<char>, DeviceRecord> {
    Map::<Seq<char>, DeviceRecord>::empty().insert(
        "D_A_123"@,
        DeviceRecord {
            device_id: "D_A_123"@,
            is_encrypted: true,
            patch_status: PatchStatus::Latest,
            risk: RiskLevel::Low,
        },
    ).insert(
        "D_B_456"@,
        DeviceRecord {
            device_id: "D_B_456"@,
            is_encrypted: false,
            patch_status: PatchStatus::Outdated,
            risk: RiskLevel::Medium,
        },
    ).insert(
        "D_C_789"@,
        DeviceRecord {
            device_id: "D_C_789"@,
            is_encrypted: true,
            patch_status: PatchStatus::MinorPatch,
            risk: RiskLevel::Low,
        },
    )
}

/// The network origins that the sample deployment has on record.
pub open spec fn sample_threats() -> Map<Seq<char>, RiskLevel> {
    Map::<Seq<char>, RiskLevel>::empty().insert("203.0.113.42"@, RiskLevel::Critical).insert(
        "10.0.0.50"@,
        RiskLevel::Low,
    ).insert("172.16.20.100"@, RiskLevel::Medium)
}

/// The time windows of the sample deployment: developers from 8 to 18,
/// finance from 9 to 17, nobody else restricted.
pub open spec fn sample_windows() -> Map<Seq<char>, (u8, u8)> {
    Map::<Seq<char>, (u8, u8)>::empty().insert("Developer"@, (8u8, 18u8)).insert("Finance"@, (9u8, 17u8))
}

/// The directories of the sample deployment.
pub open spec fn sample_directories() -> Directories {
    Directories {
        users: sample_users(),
        devices: sample_devices(),
        threats: sample_threats(),
        windows: sample_windows(),
    }
}

/// The policy-decision point. It holds the four directories and judges each
/// request against them, keeping no record of what it decided.
pub struct PolicyEngine {
    user_database: UserDirectory,
    device_database: DeviceDirectory,
    threat_intel: ThreatIntelligenceFeed,
    time_policies: TimePolicyTable,
}

impl View for PolicyEngine {
    type V = Directories;

    closed spec fn view(&self) -> Directories {
        Directories {
            users: self.user_database@,
            devices: self.device_database@,
            threats: self.threat_intel@,
            windows: self.time_policies@,
        }
    }
}

fn sample_user_database() -> (users: UserDirectory)
    ensures
        users@ == sample_users(),
{
    let mut users = UserDirectory::new();
    let alice_resources: Vec<&str> = vec!["API_DEV_V1", "GIT_REPO", "LOG_SERVER"];
    assert(alice_resources@ =~= seq!["API_DEV_V1", "GIT_REPO", "LOG_SERVER"]);
    let alice = UserIdentity::new("alice", "Developer", RiskLevel::Medium, &alice_resources, 85).unwrap();
    users.insert(alice);
    let bob_resources: Vec<&str> = vec!["CRM_PROD", "SALES_REPORTS"];
    assert(bob_resources@ =~= seq!["CRM_PROD", "SALES_REPORTS"]);
    let bob = UserIdentity::new("bob", "Sales", RiskLevel::Low, &bob_resources, 72).unwrap();
    users.insert(bob);
    let carol_resources: Vec<&str> = vec!["FINANCE_DB", "HR_PORTAL"];
    assert(carol_resources@ =~= seq!["FINANCE_DB", "HR_PORTAL"]);
    let carol = UserIdentity::new("carol", "Finance", RiskLevel::High, &carol_resources, 45).unwrap();
    users.insert(carol);
    users
}

fn sample_device_database() -> (devices: DeviceDirectory)
    ensures
        devices@ == sample_devices(),
{
    let mut devices = DeviceDirectory::new();
    devices.insert(DevicePosture::new("D_A_123", true, PatchStatus::Latest, RiskLevel::Low));
    devices.insert(DevicePosture::new("D_B_456", false, PatchStatus::Outdated, RiskLevel::Medium));
    devices.insert(DevicePosture::new("D_C_789", true, PatchStatus::MinorPatch, RiskLevel::Low));
    devices
}

impl PolicyEngine {
    /// The engine of the sample deployment, with its three users, three
    /// devices, three known network origins and two time windows.
    pub fn new() -> (engine: PolicyEngine)
        ensures
            engine@ == sample_directories(),
    {
        let mut threat_intel = ThreatIntelligenceFeed::new();
        threat_intel.insert("203.0.113.42", RiskLevel::Critical);
        threat_intel.insert("10.0.0.50", RiskLevel::Low);
        threat_intel.insert("172.16.20.100", RiskLevel::Medium);
        let mut time_policies = TimePolicyTable::new();
        time_policies.insert("Developer", 8, 18);
        time_policies.insert("Finance", 9, 17);
        PolicyEngine {
            user_database: sample_user_database(),
            device_database: sample_device_database(),
            threat_intel,
            time_policies,
        }
    }

    /// An engine over the four directories handed in.
    pub fn with_directories(
        user_database: UserDirectory,
        device_database: DeviceDirectory,
        threat_intel: ThreatIntelligenceFeed,
        time_policies: TimePolicyTable,
    ) -> (engine: PolicyEngine)
        ensures
            engine@ == (Directories {
                users: user_database@,
                devices: device_database@,
                threats: threat_intel@,
                windows: time_policies@,
            }),
    {
        PolicyEngine { user_database, device_database, threat_intel, time_policies }
    }

    /// The time-window gate. A role with a window is let through from the
    /// window's first hour up to, but not including, the hour at which it
    /// ends; a role without a window is always let through. A refusal
    /// carries the text of this gate.
    pub fn _check_time_policy(&self, user_role: &str, access_hour: u8) -> (checked: Result<(), String>)
        ensures
            checked is Ok <==> window_permits(window_of(self@.windows, user_role@), access_hour),
            checked is Err ==> checked->Err_0@ == DenyReason::TimeWindowViolation.message_spec(),
    {
        match self.time_policies.time_window(user_role) {
            Some((start_h, end_h)) => {
                if access_hour < start_h || access_hour >= end_h {
                    return Err(String::from_str(DenyReason::TimeWindowViolation.message()));
                }
                Ok(())
            },
            None => Ok(()),
        }
    }

    /// The risk that a behavioral score stands for: critical below 30, high
    /// below 50, low from there on.
    pub fn _check_behavioral_risk(&self, behavioral_score: u8) -> (level: RiskLevel)
        ensures
            level == behavioral_risk(behavioral_score),
    {
        if behavioral_score < CRITICAL_SCORE_BOUND {
            RiskLevel::Critical
        } else if behavioral_score < HIGH_SCORE_BOUND {
            RiskLevel::High
        } else {
            RiskLevel::Low
        }
    }

    /// The aggregated risk of a request: the most severe of the device's
    /// risk, the threat level of the network origin (`Medium` where the
    /// origin is unknown) and the behavioral risk.
    pub fn evaluate_total_risk(&self, device: &DevicePosture, source_ip: &str, behavioral_risk: RiskLevel) -> (level:
        RiskLevel)
        ensures
            level == total_risk(device@.risk, threat_of(self@.threats, source_ip@), behavioral_risk),
    {
        let ip_risk = self.threat_intel.threat_level(source_ip);
        device.risk().max(ip_risk).max(behavioral_risk)
    }

    /// Judges one request. The gates are passed in their order: identity,
    /// device, least privilege, time window, aggregated risk. The first one
    /// that fails decides the refusal and its text; where none fails, access
    /// is granted under the aggregated risk, with the session token written
    /// from the user, the resource, that risk and the hour.
    pub fn process_access_request(&self, request: &AccessRequest) -> (decision: AccessDecision)
        ensures
            decision@ == decide(self@, request@),
    {
        let user = match self.user_database.lookup_user(request.user_id()) {
            Some(user) => user,
            None => {
                return refusal(DenyReason::UnknownUser);
            },
        };
        let device = match self.device_database.lookup_device(request.device_id()) {
            Some(device) => device,
            None => {
                return refusal(DenyReason::UnknownDevice);
            },
        };
        if !user.is_allowed(request.resource()) {
            return refusal(DenyReason::ResourceNotAllowed);
        }
        match self._check_time_policy(user.role(), request.access_hour()) {
            Err(reason) => {
                return AccessDecision::Denied { reason };
            },
            Ok(_) => {},
        }
        let behavioral_risk = self._check_behavioral_risk(user.behavioral_score());
        let total_risk = self.evaluate_total_risk(device, request.source_ip(), behavioral_risk);
        if total_risk.exceeds(user.max_risk()) {
            return refusal(DenyReason::RiskExceeded);
        }
        let session_token = session_token(request.user_id(), request.resource(), total_risk, request.access_hour());
        AccessDecision::Permitted { session_token, effective_risk: total_risk }
    }
}

/// The refusal that a gate gives.
pub fn refusal(gate: DenyReason) -> (decision: AccessDecision)
    ensures
        decision@ == (DecisionView::Denied { reason: gate.message_spec() }),
{
    AccessDecision::Denied { reason: String::from_str(gate.message()) }
}

/// Judging is a function of the directories and the request: two decisions
/// on the same request against the same directories are the same, token
/// included.
pub proof fn lemma_decision_is_deterministic(
    engine: PolicyEngine,
    request: AccessRequest,
    first: AccessDecision,
    second: AccessDecision,
)
    requires
        first@ == decide(engine@, request@),
        second@ == decide(engine@, request@),
    ensures
        first@ == second@,
{
}

} // verus!
