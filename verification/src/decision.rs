//! The outcome of judging one request.

use crate::risk::RiskLevel;
use vstd::prelude::*;

verus! {

/// Where a request was refused: one variant for each gate. The variants stand in the order
/// in which the gates are passed.
#[derive(Debug, Clone, Copy, PartialEq, Eq, Hash, Structural)]
pub enum DenyReason {
    /// The user is absent from the identity directory.
    UnknownUser,
    /// The device is absent from the device directory.
    UnknownDevice,
    /// The resource is not among those granted to the user.
    ResourceNotAllowed,
    /// The hour of access lies outside the window of the user's role.
    TimeWindowViolation,
    /// The aggregated risk is above the user's permitted maximum.
    RiskExceeded,
}

impl DenyReason {
    /// The place of this gate among the five, counted from 1.
    pub open spec fn order(self) -> nat {
        match self {
            DenyReason::UnknownUser => 1,
            DenyReason::UnknownDevice => 2,
            DenyReason::ResourceNotAllowed => 3,
            DenyReason::TimeWindowViolation => 4,
            DenyReason::RiskExceeded => 5,
        }
    }

    /// The text that a refusal at this gate carries.
    pub open spec fn message_spec(self) -> Seq<char> {
        match self {
            DenyReason::UnknownUser => "unknown user identity"@,
            DenyReason::UnknownDevice => "device not managed/unknown"@,
            DenyReason::ResourceNotAllowed => "resource not permitted for role"@,
            DenyReason::TimeWindowViolation => "time-of-access violates role window"@,
            DenyReason::RiskExceeded => "aggregate risk exceeds permitted maximum"@,
        }
    }

    /// The text that a refusal at this gate carries.
    pub fn message(self) -> (text: &'static str)
        ensures
            text@ == self.message_spec(),
    {
        match self {
            DenyReason::UnknownUser => "unknown user identity",
            DenyReason::UnknownDevice => "device not managed/unknown",
            DenyReason::ResourceNotAllowed => "resource not permitted for role",
            DenyReason::TimeWindowViolation => "time-of-access violates role window",
            DenyReason::RiskExceeded => "aggregate risk exceeds permitted maximum",
        }
    }
}

/// Two different gates never refuse with the same text.
pub proof fn lemma_messages_are_distinct(a: DenyReason, b: DenyReason)
    ensures
        a.message_spec() == b.message_spec() <==> a == b,
{
    reveal_strlit("unknown user identity");
    reveal_strlit("device not managed/unknown");
    reveal_strlit("resource not permitted for role");
    reveal_strlit("time-of-access violates role window");
    reveal_strlit("aggregate risk exceeds permitted maximum");
    assert(DenyReason::UnknownUser.message_spec().len() == 21);
    assert(DenyReason::UnknownDevice.message_spec().len() == 26);
    assert(DenyReason::ResourceNotAllowed.message_spec().len() == 31);
    assert(DenyReason::TimeWindowViolation.message_spec().len() == 35);
    assert(DenyReason::RiskExceeded.message_spec().len() == 40);
}

/// What an [`AccessDecision`] says, as mathematical values.
pub enum DecisionView {
    Permitted { session_token: Seq<char>, effective_risk: RiskLevel },
    Denied { reason: Seq<char> },
}

/// The outcome of judging one request: access with a session token and the
/// risk under which it was granted, or a refusal with its reason.
#[derive(Debug, PartialEq, Eq)]
pub enum AccessDecision {
    Permitted { session_token: String, effective_risk: RiskLevel },
    Denied { reason: String },
}

impl View for AccessDecision {
    type V = DecisionView;

    open spec fn view(&self) -> DecisionView {
        match self {
            AccessDecision::Permitted { session_token, effective_risk } => DecisionView::Permitted {
                session_token: session_token@,
                effective_risk: *effective_risk,
            },
            AccessDecision::Denied { reason } => DecisionView::Denied { reason: reason@ },
        }
    }
}

impl AccessDecision {
    /// Whether access was granted.
    pub fn is_permitted(&self) -> (permitted: bool)
        ensures
            permitted == (self@ is Permitted),
    {
        match self {
            AccessDecision::Permitted { .. } => true,
            AccessDecision::Denied { .. } => false,
        }
    }
}

} // verus!
