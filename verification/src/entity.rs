//! The records that the directories hold, and the request that is judged
//! against them.

use crate::risk::RiskLevel;
use vstd::hash_set::StringHashSet;
use vstd::prelude::*;
use vstd::string::StringExecFns;

verus! {

/// Why a record or a request could not be built: a field was outside its
/// range. This is distinct from a refusal of access.
#[derive(Debug, Clone, Copy, PartialEq, Eq, Structural)]
pub enum InvalidInput {
    /// A behavioral score above 100.
    ScoreOutOfRange,
    /// An hour of access above 23.
    HourOutOfRange,
}

/// How far a device is behind on its updates.
#[derive(Debug, Clone, Copy, PartialEq, Eq, Structural)]
pub enum PatchStatus {
    Latest,
    MinorPatch,
    Outdated,
}

/// What a [`UserIdentity`] says, as mathematical values.
pub struct UserRecord {
    pub user_id: Seq<char>,
    pub role: Seq<char>,
    pub max_risk: RiskLevel,
    pub allowed_resources: Set<Seq<char>>,
    pub behavioral_score: u8,
}

/// What a [`DevicePosture`] says, as mathematical values.
pub struct DeviceRecord {
    pub device_id: Seq<char>,
    pub is_encrypted: bool,
    pub patch_status: PatchStatus,
    pub risk: RiskLevel,
}

/// What an [`AccessRequest`] says, as mathematical values.
pub struct RequestView {
    pub user_id: Seq<char>,
    pub device_id: Seq<char>,
    pub source_ip: Seq<char>,
    pub resource: Seq<char>,
    pub access_hour: u8,
}

/// The highest behavioral score.
pub const MAX_BEHAVIORAL_SCORE: u8 = 100;

/// The last hour of the day.
pub const MAX_ACCESS_HOUR: u8 = 23;

/// The set of the resource identifiers that a list names.
pub open spec fn resource_set(names: Seq<&str>) -> Set<Seq<char>> {
    Set::new(|r: Seq<char>| exists|i: int| 0 <= i < names.len() && (#[trigger] names[i])@ == r)
}

/// A user: role, the most risk the user may act under, the resources granted
/// and a behavioral score from 0 to 100.
pub struct UserIdentity {
    user_id: String,
    role: String,
    max_risk: RiskLevel,
    allowed_resources: StringHashSet,
    behavioral_score: u8,
}

impl View for UserIdentity {
    type V = UserRecord;

    closed spec fn view(&self) -> UserRecord {
        UserRecord {
            user_id: self.user_id@,
            role: self.role@,
            max_risk: self.max_risk,
            allowed_resources: self.allowed_resources@,
            behavioral_score: self.behavioral_score,
        }
    }
}

impl UserIdentity {
    #[verifier::type_invariant]
    spec fn score_in_range(&self) -> bool {
        self.behavioral_score <= MAX_BEHAVIORAL_SCORE
    }

    /// Builds a user record. A score above 100 is rejected; any other input
    /// gives the record that holds exactly the values handed in.
    pub fn new(
        user_id: &str,
        role: &str,
        max_risk: RiskLevel,
        allowed_resources: &Vec<&str>,
        behavioral_score: u8,
    ) -> (made: Result<UserIdentity, InvalidInput>)
        ensures
            behavioral_score > MAX_BEHAVIORAL_SCORE ==> made == Err::<UserIdentity, InvalidInput>(
                InvalidInput::ScoreOutOfRange,
            ),
            behavioral_score <= MAX_BEHAVIORAL_SCORE ==> made is Ok && made->Ok_0@ == (UserRecord {
                user_id: user_id@,
                role: role@,
                max_risk,
                allowed_resources: resource_set(allowed_resources@),
                behavioral_score,
            }),
    {
        if behavioral_score > MAX_BEHAVIORAL_SCORE {
            return Err(InvalidInput::ScoreOutOfRange);
        }
        let mut granted = StringHashSet::new();
        let mut i: usize = 0;
        while i < allowed_resources.len()
            invariant
                i <= allowed_resources.len(),
                granted@ =~= resource_set(allowed_resources@.take(i as int)),
            decreases allowed_resources.len() - i,
        {
            let ghost before = granted@;
            granted.insert(String::from_str(allowed_resources[i]));
            proof {
                let names = allowed_resources@;
                let shorter = names.take(i as int);
                let longer = names.take(i + 1);
                assert forall|r: Seq<char>| #[trigger]
                    before.insert(names[i as int]@).contains(r) <==> resource_set(longer).contains(r) by {
                    if resource_set(shorter).contains(r) {
                        let j = choose|j: int| 0 <= j < shorter.len() && (#[trigger] shorter[j])@ == r;
                        assert(longer[j]@ == r);
                    }
                    if names[i as int]@ == r {
                        assert(longer[i as int]@ == r);
                    }
                    if resource_set(longer).contains(r) {
                        let j = choose|j: int| 0 <= j < longer.len() && (#[trigger] longer[j])@ == r;
                        if j < i {
                            assert(shorter[j]@ == r);
                        }
                    }
                }
            }
            i += 1;
        }
        assert(allowed_resources@.take(i as int) =~= allowed_resources@);
        Ok(
            UserIdentity {
                user_id: String::from_str(user_id),
                role: String::from_str(role),
                max_risk,
                allowed_resources: granted,
                behavioral_score,
            },
        )
    }

    /// The key under which the user is known.
    pub fn user_id(&self) -> (id: &str)
        ensures
            id@ == self@.user_id,
    {
        self.user_id.as_str()
    }

    /// The user's role.
    pub fn role(&self) -> (role: &str)
        ensures
            role@ == self@.role,
    {
        self.role.as_str()
    }

    /// The most severe risk under which the user may still be served.
    pub fn max_risk(&self) -> (level: RiskLevel)
        ensures
            level == self@.max_risk,
    {
        self.max_risk
    }

    /// The user's behavioral score, which is at most 100.
    pub fn behavioral_score(&self) -> (score: u8)
        ensures
            score == self@.behavioral_score,
            score <= MAX_BEHAVIORAL_SCORE,
    {
        proof {
            use_type_invariant(self);
        }
        self.behavioral_score
    }

    /// Whether the resource is among those granted to the user.
    pub fn is_allowed(&self, resource: &str) -> (allowed: bool)
        ensures
            allowed == self@.allowed_resources.contains(resource@),
    {
        self.allowed_resources.contains(resource)
    }
}

/// The security posture of a managed device.
pub struct DevicePosture {
    device_id: String,
    is_encrypted: bool,
    patch_status: PatchStatus,
    risk: RiskLevel,
}

impl View for DevicePosture {
    type V = DeviceRecord;

    closed spec fn view(&self) -> DeviceRecord {
        DeviceRecord {
            device_id: self.device_id@,
            is_encrypted: self.is_encrypted,
            patch_status: self.patch_status,
            risk: self.risk,
        }
    }
}

impl DevicePosture {
    /// Builds the record that holds exactly the values handed in.
    pub fn new(device_id: &str, is_encrypted: bool, patch_status: PatchStatus, risk: RiskLevel) -> (made:
        DevicePosture)
        ensures
            made@ == (DeviceRecord { device_id: device_id@, is_encrypted, patch_status, risk }),
    {
        DevicePosture { device_id: String::from_str(device_id), is_encrypted, patch_status, risk }
    }

    /// The key under which the device is known.
    pub fn device_id(&self) -> (id: &str)
        ensures
            id@ == self@.device_id,
    {
        self.device_id.as_str()
    }

    /// Whether the device's storage is encrypted.
    pub fn is_encrypted(&self) -> (encrypted: bool)
        ensures
            encrypted == self@.is_encrypted,
    {
        self.is_encrypted
    }

    /// How far the device is behind on its updates.
    pub fn patch_status(&self) -> (status: PatchStatus)
        ensures
            status == self@.patch_status,
    {
        self.patch_status
    }

    /// The risk that the device itself brings to a request.
    pub fn risk(&self) -> (level: RiskLevel)
        ensures
            level == self@.risk,
    {
        self.risk
    }
}

/// One request for access: who asks, from which device and network origin,
/// for which resource, at which hour of the day (0 to 23).
#[derive(Debug, Clone, Copy)]
pub struct AccessRequest<'a> {
    user_id: &'a str,
    device_id: &'a str,
    source_ip: &'a str,
    resource: &'a str,
    access_hour: u8,
}

impl<'a> View for AccessRequest<'a> {
    type V = RequestView;

    closed spec fn view(&self) -> RequestView {
        RequestView {
            user_id: self.user_id@,
            device_id: self.device_id@,
            source_ip: self.source_ip@,
            resource: self.resource@,
            access_hour: self.access_hour,
        }
    }
}

impl<'a> AccessRequest<'a> {
    #[verifier::type_invariant]
    spec fn hour_in_range(&self) -> bool {
        self.access_hour <= MAX_ACCESS_HOUR
    }

    /// Builds a request. An hour above 23 is rejected; any other input gives
    /// the request that holds exactly the values handed in.
    pub fn new(user_id: &'a str, device_id: &'a str, source_ip: &'a str, resource: &'a str, access_hour: u8) -> (made:
        Result<AccessRequest<'a>, InvalidInput>)
        ensures
            access_hour > MAX_ACCESS_HOUR ==> made == Err::<AccessRequest<'a>, InvalidInput>(
                InvalidInput::HourOutOfRange,
            ),
            access_hour <= MAX_ACCESS_HOUR ==> made is Ok && made->Ok_0@ == (RequestView {
                user_id: user_id@,
                device_id: device_id@,
                source_ip: source_ip@,
                resource: resource@,
                access_hour,
            }),
    {
        if access_hour > MAX_ACCESS_HOUR {
            return Err(InvalidInput::HourOutOfRange);
        }
        Ok(AccessRequest { user_id, device_id, source_ip, resource, access_hour })
    }

    /// The user who asks.
    pub fn user_id(&self) -> (id: &'a str)
        ensures
            id@ == self@.user_id,
    {
        self.user_id
    }

    /// The device from which the request comes.
    pub fn device_id(&self) -> (id: &'a str)
        ensures
            id@ == self@.device_id,
    {
        self.device_id
    }

    /// The network origin of the request.
    pub fn source_ip(&self) -> (ip: &'a str)
        ensures
            ip@ == self@.source_ip,
    {
        self.source_ip
    }

    /// The resource asked for.
    pub fn resource(&self) -> (resource: &'a str)
        ensures
            resource@ == self@.resource,
    {
        self.resource
    }

    /// The hour of the day at which access is asked, which is at most 23.
    pub fn access_hour(&self) -> (hour: u8)
        ensures
            hour == self@.access_hour,
            hour <= MAX_ACCESS_HOUR,
    {
        proof {
            use_type_invariant(self);
        }
        self.access_hour
    }
}

} // verus!
