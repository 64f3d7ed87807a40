//! The rules of the decision, stated over mathematical values: the gates in
//! their order, the aggregation of risk, and the laws that follow.

use crate::decision::{lemma_messages_are_distinct, DecisionView, DenyReason};
use crate::directory::{threat_of, window_of};
use crate::entity::{DeviceRecord, RequestView, UserRecord};
use crate::risk::{highest_of, lemma_highest_ignores_order, RiskLevel};
use crate::token::token_spec;
use vstd::prelude::*;

verus! {

/// The contents of the four directories at one moment.
pub struct Directories {
    pub users: Map<Seq<char>, UserRecord>,
    pub devices: Map<Seq<char>, DeviceRecord>,
    pub threats: Map<Seq<char>, RiskLevel>,
    pub windows: Map<Seq<char>, (u8, u8)>,
}

/// A score below this is classified as critical.
pub const CRITICAL_SCORE_BOUND: u8 = 30;

/// A score below this, and not critical, is classified as high.
pub const HIGH_SCORE_BOUND: u8 = 50;

/// Whether a role with the given window may ask for access at the given
/// hour. The window is half-open: its first hour is inside, the hour at
/// which it ends is outside. Without a window every hour is permitted.
pub open spec fn window_permits(window: Option<(u8, u8)>, access_hour: u8) -> bool {
    match window {
        Some((start_hour, end_hour)) => start_hour <= access_hour < end_hour,
        None => true,
    }
}

/// The risk that a behavioral score stands for: critical below 30, high
/// from 30 up to 49, low from 50 on.
pub open spec fn behavioral_risk(behavioral_score: u8) -> RiskLevel {
    if behavioral_score < CRITICAL_SCORE_BOUND {
        RiskLevel::Critical
    } else if behavioral_score < HIGH_SCORE_BOUND {
        RiskLevel::High
    } else {
        RiskLevel::Low
    }
}

/// The aggregated risk of a request: the most severe of the three signals.
pub open spec fn total_risk(device_risk: RiskLevel, origin_risk: RiskLevel, behavioral: RiskLevel) -> RiskLevel {
    device_risk.max_spec(origin_risk).max_spec(behavioral)
}

/// The aggregated risk of a request whose user and device are known.
pub open spec fn contextual_risk(directories: Directories, request: RequestView) -> RiskLevel
    recommends
        directories.users.contains_key(request.user_id),
        directories.devices.contains_key(request.device_id),
{
    total_risk(
        directories.devices[request.device_id].risk,
        threat_of(directories.threats, request.source_ip),
        behavioral_risk(directories.users[request.user_id].behavioral_score),
    )
}

/// Whether one gate, taken by itself, turns the request away. A gate that
/// reads the user's or the device's record turns nothing away while that
/// record is missing: the missing record is the business of an earlier gate.
pub open spec fn gate_rejects(gate: DenyReason, directories: Directories, request: RequestView) -> bool {
    let known_user = directories.users.contains_key(request.user_id);
    let known_device = directories.devices.contains_key(request.device_id);
    let user = directories.users[request.user_id];
    match gate {
        DenyReason::UnknownUser => !known_user,
        DenyReason::UnknownDevice => !known_device,
        DenyReason::ResourceNotAllowed => known_user && !user.allowed_resources.contains(request.resource),
        DenyReason::TimeWindowViolation => known_user && !window_permits(
            window_of(directories.windows, user.role),
            request.access_hour,
        ),
        DenyReason::RiskExceeded => known_user && known_device && contextual_risk(
            directories,
            request,
        ).exceeds_spec(user.max_risk),
    }
}

/// The first gate, in the order of the pipeline, that turns the request
/// away; `None` where every gate lets it pass.
pub open spec fn first_refusal(directories: Directories, request: RequestView) -> Option<DenyReason> {
    if gate_rejects(DenyReason::UnknownUser, directories, request) {
        Some(DenyReason::UnknownUser)
    } else if gate_rejects(DenyReason::UnknownDevice, directories, request) {
        Some(DenyReason::UnknownDevice)
    } else if gate_rejects(DenyReason::ResourceNotAllowed, directories, request) {
        Some(DenyReason::ResourceNotAllowed)
    } else if gate_rejects(DenyReason::TimeWindowViolation, directories, request) {
        Some(DenyReason::TimeWindowViolation)
    } else if gate_rejects(DenyReason::RiskExceeded, directories, request) {
        Some(DenyReason::RiskExceeded)
    } else {
        None
    }
}

/// The decision on a request: the refusal of the first gate that turns it
/// away, or else access under the aggregated risk, with the token that
/// belongs to it.
pub open spec fn decide(directories: Directories, request: RequestView) -> DecisionView {
    match first_refusal(directories, request) {
        Some(gate) => DecisionView::Denied { reason: gate.message_spec() },
        None => DecisionView::Permitted {
            session_token: token_spec(
                request.user_id,
                request.resource,
                contextual_risk(directories, request),
                request.access_hour,
            ),
            effective_risk: contextual_risk(directories, request),
        },
    }
}

/// A window that is not empty permits its first hour and refuses the hour
/// at which it ends.
pub proof fn lemma_window_is_half_open(start_hour: u8, end_hour: u8)
    requires
        start_hour < end_hour,
    ensures
        window_permits(Some((start_hour, end_hour)), start_hour),
        !window_permits(Some((start_hour, end_hour)), end_hour),
{
}

/// The hour at which a window ends is refused whatever the window; a window
/// that ends no later than it starts refuses every hour; a role without a
/// window is never refused.
pub proof fn lemma_window_edges(start_hour: u8, end_hour: u8, access_hour: u8)
    ensures
        !window_permits(Some((start_hour, end_hour)), end_hour),
        start_hour >= end_hour ==> !window_permits(Some((start_hour, end_hour)), access_hour),
        window_permits(None, access_hour),
{
}

/// The three classes of behavioral risk and the scores that fall in each.
/// No score is classified as medium.
pub proof fn lemma_behavioral_classes(behavioral_score: u8)
    ensures
        behavioral_risk(behavioral_score) == RiskLevel::Critical <==> behavioral_score < 30,
        behavioral_risk(behavioral_score) == RiskLevel::High <==> 30 <= behavioral_score < 50,
        behavioral_risk(behavioral_score) == RiskLevel::Low <==> 50 <= behavioral_score,
        behavioral_risk(behavioral_score) != RiskLevel::Medium,
{
}

/// The aggregated risk is the most severe of the three signals: it is one of
/// them, none of them is above it, and it is the same in whatever order the
/// signals are taken.
pub proof fn lemma_total_risk_is_highest(a: RiskLevel, b: RiskLevel, c: RiskLevel)
    ensures
        total_risk(a, b, c) == highest_of(seq![a, b, c]),
        total_risk(a, b, c) == a || total_risk(a, b, c) == b || total_risk(a, b, c) == c,
        a.rank_spec() <= total_risk(a, b, c).rank_spec(),
        b.rank_spec() <= total_risk(a, b, c).rank_spec(),
        c.rank_spec() <= total_risk(a, b, c).rank_spec(),
        total_risk(a, b, c) == total_risk(a, c, b),
        total_risk(a, b, c) == total_risk(b, a, c),
        total_risk(a, b, c) == total_risk(b, c, a),
        total_risk(a, b, c) == total_risk(c, a, b),
        total_risk(a, b, c) == total_risk(c, b, a),
{
    let s = seq![a, b, c];
    reveal_with_fuel(highest_of, 4);
    assert(s.last() == c);
    assert(s.drop_last() =~= seq![a, b]);
    assert(seq![a, b].last() == b);
    assert(seq![a, b].drop_last() =~= seq![a]);
    assert(seq![a].last() == a);
    assert(seq![a].drop_last() =~= Seq::<RiskLevel>::empty());
}

/// A request is refused at a gate exactly when that gate turns it away and
/// no earlier gate does.
pub proof fn lemma_refusal_is_first_failing_gate(directories: Directories, request: RequestView, gate: DenyReason)
    ensures
        first_refusal(directories, request) == Some(gate) <==> (gate_rejects(gate, directories, request)
            && forall|earlier: DenyReason|
            earlier.order() < gate.order() ==> !#[trigger] gate_rejects(earlier, directories, request)),
{
    if first_refusal(directories, request) == Some(gate) {
        assert forall|earlier: DenyReason| earlier.order() < gate.order() implies !#[trigger] gate_rejects(
            earlier,
            directories,
            request,
        ) by {}
    }
    if gate_rejects(gate, directories, request) && (forall|earlier: DenyReason|
        earlier.order() < gate.order() ==> !#[trigger] gate_rejects(earlier, directories, request)) {
        assert(DenyReason::UnknownUser.order() == 1);
        assert(DenyReason::UnknownDevice.order() == 2);
        assert(DenyReason::ResourceNotAllowed.order() == 3);
        assert(DenyReason::TimeWindowViolation.order() == 4);
        if gate.order() > 1 {
            assert(!gate_rejects(DenyReason::UnknownUser, directories, request));
        }
        if gate.order() > 2 {
            assert(!gate_rejects(DenyReason::UnknownDevice, directories, request));
        }
        if gate.order() > 3 {
            assert(!gate_rejects(DenyReason::ResourceNotAllowed, directories, request));
        }
        if gate.order() > 4 {
            assert(!gate_rejects(DenyReason::TimeWindowViolation, directories, request));
        }
    }
}

/// A refusal carries the text of the first failing gate and of no other:
/// what later gates would have said does not show in the decision. Two
/// requests that fail first at the same gate get the same decision, whatever
/// else differs between them.
pub proof fn lemma_refusal_shows_one_gate(directories: Directories, request: RequestView, gate: DenyReason)
    ensures
        decide(directories, request) == (DecisionView::Denied { reason: gate.message_spec() }) <==> first_refusal(
            directories,
            request,
        ) == Some(gate),
        decide(directories, request) is Permitted <==> first_refusal(directories, request) is None,
{
    match first_refusal(directories, request) {
        Some(first) => {
            lemma_messages_are_distinct(first, gate);
        },
        None => {},
    }
}

/// A request from an unknown user is refused as such, whatever the device,
/// the resource, the hour and the risk are.
pub proof fn lemma_unknown_user_comes_first(directories: Directories, request: RequestView)
    requires
        !directories.users.contains_key(request.user_id),
    ensures
        decide(directories, request) == (DecisionView::Denied {
            reason: DenyReason::UnknownUser.message_spec(),
        }),
{
}

/// Access is granted only under a risk that the user's maximum admits, and
/// the risk reported is the aggregated one.
pub proof fn lemma_permitted_is_within_limit(directories: Directories, request: RequestView)
    requires
        decide(directories, request) is Permitted,
    ensures
        directories.users.contains_key(request.user_id),
        directories.devices.contains_key(request.device_id),
        directories.users[request.user_id].allowed_resources.contains(request.resource),
        decide(directories, request)->effective_risk == contextual_risk(directories, request),
        contextual_risk(directories, request).rank_spec() <= directories.users[request.user_id].max_risk.rank_spec(),
{
}

/// The aggregated risk of a request does not depend on the order in which
/// the three signals are listed.
pub proof fn lemma_total_risk_ignores_order(signals: Seq<RiskLevel>, a: RiskLevel, b: RiskLevel, c: RiskLevel)
    requires
        signals.to_multiset() == seq![a, b, c].to_multiset(),
    ensures
        highest_of(signals) == total_risk(a, b, c),
{
    lemma_total_risk_is_highest(a, b, c);
    lemma_highest_ignores_order(signals, seq![a, b, c]);
}

} // verus!
