use vstd::prelude::*;

verus! {

/// A user that the join gate links to an identity in some other system.
#[derive(Clone, Debug)]
pub struct KeyedUser {
    pub user_id: u64,
    pub foreign_id: String,
    pub foreign_id_type: i32,
}

/// A role of a guild and the bot-managed attributes that go with it.
#[derive(Clone, Debug)]
pub struct RoleData {
    pub id: u64,
    pub can_join: bool,
    pub name: String,
    pub commanders: Vec<u64>,
}

/// The join-gate policy of a guild, with its keyed users.
#[derive(Clone, Debug)]
pub struct GateData {
    pub allow_rejoin: bool,
    pub gate_enabled: bool,
    pub key_role_id: u64,
    pub keyed_users: Vec<KeyedUser>,
}

/// The whole configuration tree of one guild.
#[derive(Clone, Debug)]
pub struct Guild {
    pub id: u64,
    pub welcome_message: String,
    pub gate_data: GateData,
    pub role_data: Vec<RoleData>,
}

/// The role ids of a role list, as a set.
pub open spec fn role_ids(roles: Seq<RoleData>) -> Set<u64> {
    Set::new(|id: u64| exists|i: int| 0 <= i < roles.len() && roles[i].id == id)
}

/// No two roles of the list share an id.
pub open spec fn distinct_role_ids(roles: Seq<RoleData>) -> bool {
    forall|i: int, j: int| 0 <= i < roles.len() && 0 <= j < roles.len() && i != j ==> roles[i].id != roles[j].id
}

/// No two keyed users of the list share a user id.
pub open spec fn distinct_user_ids(users: Seq<KeyedUser>) -> bool {
    forall|i: int, j: int|
        0 <= i < users.len() && 0 <= j < users.len() && i != j ==> users[i].user_id != users[j].user_id
}

impl GateData {
    /// A gate that is switched off, with no key role and no keyed users.
    pub fn empty() -> (r: GateData)
        ensures
            !r.allow_rejoin,
            !r.gate_enabled,
            r.key_role_id == 0,
            r.keyed_users@.len() == 0,
    {
        GateData { allow_rejoin: false, gate_enabled: false, key_role_id: 0, keyed_users: Vec::new() }
    }
}

impl Guild {
    /// A guild with nothing configured yet.
    pub fn empty(id: u64) -> (r: Guild)
        ensures
            r.id == id,
            r.welcome_message@.len() == 0,
            !r.gate_data.allow_rejoin,
            !r.gate_data.gate_enabled,
            r.gate_data.key_role_id == 0,
            r.gate_data.keyed_users@.len() == 0,
            r.role_data@.len() == 0,
    {
        Guild { id, welcome_message: String::new(), gate_data: GateData::empty(), role_data: Vec::new() }
    }
}

} // verus!
