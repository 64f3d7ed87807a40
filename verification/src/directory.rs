//! The four read-only lookups that the engine consults: users, devices,
//! threat intelligence and the time windows of roles.

use crate::entity::{DevicePosture, DeviceRecord, UserIdentity, UserRecord};
use crate::risk::RiskLevel;
use vstd::hash_map::StringHashMap;
use vstd::prelude::*;
use vstd::string::StringExecFns;

verus! {

/// The threat level of a network origin: the one on record, and `Medium` for
/// an origin that the feed does not know.
pub open spec fn threat_of(feed: Map<Seq<char>, RiskLevel>, source_ip: Seq<char>) -> RiskLevel {
    if feed.contains_key(source_ip) {
        feed[source_ip]
    } else {
        RiskLevel::Medium
    }
}

/// An origin that the feed does not know is rated `Medium`: never `Low`, as
/// a trusted origin would be, and never `Critical`.
pub proof fn lemma_unknown_origin_is_medium(feed: Map<Seq<char>, RiskLevel>, source_ip: Seq<char>)
    requires
        !feed.contains_key(source_ip),
    ensures
        threat_of(feed, source_ip) == RiskLevel::Medium,
        threat_of(feed, source_ip) != RiskLevel::Low,
        threat_of(feed, source_ip) != RiskLevel::Critical,
{
}

/// The time window of a role, as the pair of its first hour and the hour at
/// which it ends; `None` for a role without restriction.
pub open spec fn window_of(table: Map<Seq<char>, (u8, u8)>, role: Seq<char>) -> Option<(u8, u8)> {
    if table.contains_key(role) {
        Some(table[role])
    } else {
        None
    }
}

/// The identity directory: users by their id.
pub struct UserDirectory {
    records: StringHashMap<UserIdentity>,
}

impl View for UserDirectory {
    type V = Map<Seq<char>, UserRecord>;

    closed spec fn view(&self) -> Map<Seq<char>, UserRecord> {
        self.records@.map_values(|user: UserIdentity| user@)
    }
}

impl UserDirectory {
    /// The directory that knows nobody.
    pub fn new() -> (directory: UserDirectory)
        ensures
            directory@ == Map::<Seq<char>, UserRecord>::empty(),
    {
        let directory = UserDirectory { records: StringHashMap::new() };
        assert(directory@ =~= Map::<Seq<char>, UserRecord>::empty());
        directory
    }

    /// Files the user under its own id, in place of any earlier record with
    /// that id.
    pub fn insert(&mut self, user: UserIdentity)
        ensures
            final(self)@ == old(self)@.insert(user@.user_id, user@),
    {
        let key = String::from_str(user.user_id());
        self.records.insert(key, user);
        assert(self@ =~= old(self)@.insert(user@.user_id, user@));
    }

    /// The record of a user, if the directory has one.
    pub fn lookup_user(&self, user_id: &str) -> (found: Option<&UserIdentity>)
        ensures
            found is Some <==> self@.contains_key(user_id@),
            found is Some ==> found->Some_0@ == self@[user_id@],
    {
        self.records.get(user_id)
    }
}

/// The device directory: managed devices by their id.
pub struct DeviceDirectory {
    records: StringHashMap<DevicePosture>,
}

impl View for DeviceDirectory {
    type V = Map<Seq<char>, DeviceRecord>;

    closed spec fn view(&self) -> Map<Seq<char>, DeviceRecord> {
        self.records@.map_values(|device: DevicePosture| device@)
    }
}

impl DeviceDirectory {
    /// The directory that manages no device.
    pub fn new() -> (directory: DeviceDirectory)
        ensures
            directory@ == Map::<Seq<char>, DeviceRecord>::empty(),
    {
        let directory = DeviceDirectory { records: StringHashMap::new() };
        assert(directory@ =~= Map::<Seq<char>, DeviceRecord>::empty());
        directory
    }

    /// Files the device under its own id, in place of any earlier record
    /// with that id.
    pub fn insert(&mut self, device: DevicePosture)
        ensures
            final(self)@ == old(self)@.insert(device@.device_id, device@),
    {
        let key = String::from_str(device.device_id());
        self.records.insert(key, device);
        assert(self@ =~= old(self)@.insert(device@.device_id, device@));
    }

    /// The record of a device, if the directory has one.
    pub fn lookup_device(&self, device_id: &str) -> (found: Option<&DevicePosture>)
        ensures
            found is Some <==> self@.contains_key(device_id@),
            found is Some ==> found->Some_0@ == self@[device_id@],
    {
        self.records.get(device_id)
    }
}

/// The threat-intelligence feed: risk levels of known network origins.
pub struct ThreatIntelligenceFeed {
    levels: StringHashMap<RiskLevel>,
}

impl View for ThreatIntelligenceFeed {
    type V = Map<Seq<char>, RiskLevel>;

    closed spec fn view(&self) -> Map<Seq<char>, RiskLevel> {
        self.levels@
    }
}

impl ThreatIntelligenceFeed {
    /// The feed that knows no origin.
    pub fn new() -> (feed: ThreatIntelligenceFeed)
        ensures
            feed@ == Map::<Seq<char>, RiskLevel>::empty(),
    {
        ThreatIntelligenceFeed { levels: StringHashMap::new() }
    }

    /// Records the level of an origin, in place of any earlier one.
    pub fn insert(&mut self, source_ip: &str, level: RiskLevel)
        ensures
            final(self)@ == old(self)@.insert(source_ip@, level),
    {
        self.levels.insert(String::from_str(source_ip), level);
    }

    /// The threat level of an origin. An origin that the feed does not know
    /// counts as `Medium`: neither trusted nor distrusted to the utmost.
    pub fn threat_level(&self, source_ip: &str) -> (level: RiskLevel)
        ensures
            level == threat_of(self@, source_ip@),
            !self@.contains_key(source_ip@) ==> level == RiskLevel::Medium,
    {
        match self.levels.get(source_ip) {
            Some(level) => *level,
            None => RiskLevel::Medium,
        }
    }
}

/// The time-policy table: for each restricted role the hours in which it may
/// ask for access.
pub struct TimePolicyTable {
    windows: StringHashMap<(u8, u8)>,
}

impl View for TimePolicyTable {
    type V = Map<Seq<char>, (u8, u8)>;

    closed spec fn view(&self) -> Map<Seq<char>, (u8, u8)> {
        self.windows@
    }
}

impl TimePolicyTable {
    /// The table that restricts no role.
    pub fn new() -> (table: TimePolicyTable)
        ensures
            table@ == Map::<Seq<char>, (u8, u8)>::empty(),
    {
        TimePolicyTable { windows: StringHashMap::new() }
    }

    /// Restricts a role to the hours from `start_hour` up to, but not
    /// including, `end_hour`, in place of any earlier window of that role.
    pub fn insert(&mut self, role: &str, start_hour: u8, end_hour: u8)
        ensures
            final(self)@ == old(self)@.insert(role@, (start_hour, end_hour)),
    {
        self.windows.insert(String::from_str(role), (start_hour, end_hour));
    }

    /// The window of a role; `None` where the role is not restricted.
    pub fn time_window(&self, role: &str) -> (window: Option<(u8, u8)>)
        ensures
            window == window_of(self@, role@),
    {
        match self.windows.get(role) {
            Some(window) => Some(*window),
            None => None,
        }
    }
}

} // verus!
