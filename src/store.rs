use vstd::prelude::*;

use crate::model::{GateData, Guild, KeyedUser, RoleData, role_ids};

verus! {

/// One write against the relational store. Upserts insert the row or, where
/// its primary key is taken, overwrite the non-key columns they carry.
#[derive(Clone, Debug)]
pub enum StoreOp {
    UpsertGuild { guild_id: u64, welcome_message: String },
    UpsertGate { guild_id: u64, allow_rejoin: bool, gate_enabled: bool, key_role_id: u64 },
    DeleteKeyedUsers { guild_id: u64 },
    UpsertKeyedUser { guild_id: u64, user_id: u64, foreign_id: String, foreign_id_type: i32 },
    UpsertRole { role_id: u64, guild_id: u64, can_join: bool, name: String },
    DeleteCommanders { role_id: u64 },
    InsertCommanders { role_id: u64, user_ids: Vec<u64> },
    DeleteRole { role_id: u64 },
}

/// The mathematical content of a `StoreOp`.
pub enum OpV {
    UpsertGuild { guild_id: u64, welcome_message: Seq<char> },
    UpsertGate { guild_id: u64, allow_rejoin: bool, gate_enabled: bool, key_role_id: u64 },
    DeleteKeyedUsers { guild_id: u64 },
    UpsertKeyedUser { guild_id: u64, user_id: u64, foreign_id: Seq<char>, foreign_id_type: i32 },
    UpsertRole { role_id: u64, guild_id: u64, can_join: bool, name: Seq<char> },
    DeleteCommanders { role_id: u64 },
    InsertCommanders { role_id: u64, user_ids: Seq<u64> },
    DeleteRole { role_id: u64 },
}

impl View for StoreOp {
    type V = OpV;

    open spec fn view(&self) -> OpV {
        match self {
            StoreOp::UpsertGuild { guild_id, welcome_message } => OpV::UpsertGuild {
                guild_id: *guild_id,
                welcome_message: welcome_message@,
            },
            StoreOp::UpsertGate { guild_id, allow_rejoin, gate_enabled, key_role_id } => OpV::UpsertGate {
                guild_id: *guild_id,
                allow_rejoin: *allow_rejoin,
                gate_enabled: *gate_enabled,
                key_role_id: *key_role_id,
            },
            StoreOp::DeleteKeyedUsers { guild_id } => OpV::DeleteKeyedUsers { guild_id: *guild_id },
            StoreOp::UpsertKeyedUser { guild_id, user_id, foreign_id, foreign_id_type } => OpV::UpsertKeyedUser {
                guild_id: *guild_id,
                user_id: *user_id,
                foreign_id: foreign_id@,
                foreign_id_type: *foreign_id_type,
            },
            StoreOp::UpsertRole { role_id, guild_id, can_join, name } => OpV::UpsertRole {
                role_id: *role_id,
                guild_id: *guild_id,
                can_join: *can_join,
                name: name@,
            },
            StoreOp::DeleteCommanders { role_id } => OpV::DeleteCommanders { role_id: *role_id },
            StoreOp::InsertCommanders { role_id, user_ids } => OpV::InsertCommanders {
                role_id: *role_id,
                user_ids: user_ids@,
            },
            StoreOp::DeleteRole { role_id } => OpV::DeleteRole { role_id: *role_id },
        }
    }
}

/// The views of a list of operations.
pub open spec fn ops_view(ops: Seq<StoreOp>) -> Seq<OpV> {
    ops.map_values(|o: StoreOp| o@)
}

/// A row of the guild table (the join-gate settings live in it too).
pub struct GuildRow {
    pub welcome_message: Seq<char>,
    pub allow_rejoin: bool,
    pub gate_enabled: bool,
    pub key_role_id: u64,
}

/// A row of the keyed-user table, keyed by (guild id, user id).
pub struct KeyedRow {
    pub foreign_id: Seq<char>,
    pub foreign_id_type: i32,
}

/// A row of the role table, keyed by role id.
pub struct RoleRow {
    pub guild_id: u64,
    pub can_join: bool,
    pub name: Seq<char>,
}

/// The contents of the store: four tables. `commanders` holds
/// (role id, user id) pairs.
pub struct Tables {
    pub guilds: Map<u64, GuildRow>,
    pub keyed_users: Map<(u64, u64), KeyedRow>,
    pub roles: Map<u64, RoleRow>,
    pub commanders: Set<(u64, u64)>,
}

/// A store that holds nothing.
pub open spec fn empty_tables() -> Tables {
    Tables { guilds: Map::empty(), keyed_users: Map::empty(), roles: Map::empty(), commanders: Set::empty() }
}

/// The keyed users of every guild but `guild_id`.
pub open spec fn keyed_users_without(m: Map<(u64, u64), KeyedRow>, guild_id: u64) -> Map<(u64, u64), KeyedRow> {
    Map::new(|k: (u64, u64)| m.dom().contains(k) && k.0 != guild_id, |k: (u64, u64)| m[k])
}

/// The commander pairs of every role but `role_id`.
pub open spec fn commanders_without(s: Set<(u64, u64)>, role_id: u64) -> Set<(u64, u64)> {
    Set::new(|p: (u64, u64)| s.contains(p) && p.0 != role_id)
}

/// The commander pairs that name `role_id` and one of `user_ids`.
pub open spec fn commander_pairs(role_id: u64, user_ids: Seq<u64>) -> Set<(u64, u64)> {
    Set::new(|p: (u64, u64)| p.0 == role_id && user_ids.contains(p.1))
}

/// What one operation does to the store. A guild row that an upsert creates
/// starts from empty or off columns where the operation carries none.
pub open spec fn apply_op(t: Tables, op: OpV) -> Tables {
    match op {
        OpV::UpsertGuild { guild_id, welcome_message } => Tables {
            guilds: t.guilds.insert(
                guild_id,
                if t.guilds.dom().contains(guild_id) {
                    GuildRow { welcome_message, ..t.guilds[guild_id] }
                } else {
                    GuildRow { welcome_message, allow_rejoin: false, gate_enabled: false, key_role_id: 0 }
                },
            ),
            ..t
        },
        OpV::UpsertGate { guild_id, allow_rejoin, gate_enabled, key_role_id } => Tables {
            guilds: t.guilds.insert(
                guild_id,
                GuildRow {
                    welcome_message: if t.guilds.dom().contains(guild_id) {
                        t.guilds[guild_id].welcome_message
                    } else {
                        Seq::empty()
                    },
                    allow_rejoin,
                    gate_enabled,
                    key_role_id,
                },
            ),
            ..t
        },
        OpV::DeleteKeyedUsers { guild_id } => Tables {
            keyed_users: keyed_users_without(t.keyed_users, guild_id),
            ..t
        },
        OpV::UpsertKeyedUser { guild_id, user_id, foreign_id, foreign_id_type } => Tables {
            keyed_users: t.keyed_users.insert((guild_id, user_id), KeyedRow { foreign_id, foreign_id_type }),
            ..t
        },
        OpV::UpsertRole { role_id, guild_id, can_join, name } => Tables {
            roles: t.roles.insert(role_id, RoleRow { guild_id, can_join, name }),
            ..t
        },
        OpV::DeleteCommanders { role_id } => Tables { commanders: commanders_without(t.commanders, role_id), ..t },
        OpV::InsertCommanders { role_id, user_ids } => Tables {
            commanders: t.commanders.union(commander_pairs(role_id, user_ids)),
            ..t
        },
        OpV::DeleteRole { role_id } => Tables { roles: t.roles.remove(role_id), ..t },
    }
}

/// What a list of operations does, applied in order.
pub open spec fn apply_ops(t: Tables, ops: Seq<OpV>) -> Tables
    decreases ops.len(),
{
    if ops.len() == 0 {
        t
    } else {
        apply_op(apply_ops(t, ops.drop_last()), ops.last())
    }
}

// ----- the plans that the store operations of the model follow -----

/// Saving one keyed user of a guild.
pub open spec fn keyed_user_op(u: KeyedUser, guild_id: u64) -> OpV {
    OpV::UpsertKeyedUser {
        guild_id,
        user_id: u.user_id,
        foreign_id: u.foreign_id@,
        foreign_id_type: u.foreign_id_type,
    }
}

/// Saving join-gate data: upsert the join-gate columns, then replace the keyed users.
pub open spec fn gate_plan(gate: GateData, guild_id: u64) -> Seq<OpV> {
    seq![
        OpV::UpsertGate {
            guild_id,
            allow_rejoin: gate.allow_rejoin,
            gate_enabled: gate.gate_enabled,
            key_role_id: gate.key_role_id,
        },
        OpV::DeleteKeyedUsers { guild_id },
    ] + gate.keyed_users@.map_values(|u: KeyedUser| keyed_user_op(u, guild_id))
}

/// Saving a role: upsert its row and, unless `skip_commanders`, replace its
/// commanders.
pub open spec fn role_plan(role: RoleData, guild_id: u64, skip_commanders: bool) -> Seq<OpV> {
    let upsert = OpV::UpsertRole { role_id: role.id, guild_id, can_join: role.can_join, name: role.name@ };
    if skip_commanders {
        seq![upsert]
    } else if role.commanders@.len() == 0 {
        seq![upsert, OpV::DeleteCommanders { role_id: role.id }]
    } else {
        seq![
            upsert,
            OpV::DeleteCommanders { role_id: role.id },
            OpV::InsertCommanders { role_id: role.id, user_ids: role.commanders@ },
        ]
    }
}

/// Saving each role of a list in turn, commanders included.
pub open spec fn roles_plan(roles: Seq<RoleData>, guild_id: u64) -> Seq<OpV>
    decreases roles.len(),
{
    if roles.len() == 0 {
        Seq::empty()
    } else {
        roles_plan(roles.drop_last(), guild_id) + role_plan(roles.last(), guild_id, false)
    }
}

/// Saving a guild: its row, then its gate data, then each of its roles.
pub open spec fn guild_plan(g: Guild) -> Seq<OpV> {
    seq![OpV::UpsertGuild { guild_id: g.id, welcome_message: g.welcome_message@ }] + gate_plan(g.gate_data, g.id)
        + roles_plan(g.role_data@, g.id)
}

/// Deleting a role: its commanders, then its row.
pub open spec fn delete_role_plan(role_id: u64) -> Seq<OpV> {
    seq![OpV::DeleteCommanders { role_id }, OpV::DeleteRole { role_id }]
}

/// Deleting each of a list of roles in turn.
pub open spec fn delete_roles_plan(role_ids: Seq<u64>) -> Seq<OpV>
    decreases role_ids.len(),
{
    if role_ids.len() == 0 {
        Seq::empty()
    } else {
        delete_roles_plan(role_ids.drop_last()) + delete_role_plan(role_ids.last())
    }
}

// ----- building the plans -----

impl KeyedUser {
    /// The write that saves this keyed user under `guild_id`.
    pub fn save(&self, guild_id: u64) -> (op: StoreOp)
        ensures
            op@ == keyed_user_op(*self, guild_id),
    {
        StoreOp::UpsertKeyedUser {
            guild_id,
            user_id: self.user_id,
            foreign_id: self.foreign_id.clone(),
            foreign_id_type: self.foreign_id_type,
        }
    }
}

impl GateData {
    /// The writes that save this gate data under `guild_id`, appended to
    /// `ops`: the join-gate columns, then a full replacement of the keyed users.
    pub fn save(&self, guild_id: u64, ops: &mut Vec<StoreOp>)
        ensures
            ops_view(final(ops)@) == ops_view(old(ops)@) + gate_plan(*self, guild_id),
    {
        let ghost start = ops_view(ops@);
        ops.push(
            StoreOp::UpsertGate {
                guild_id,
                allow_rejoin: self.allow_rejoin,
                gate_enabled: self.gate_enabled,
                key_role_id: self.key_role_id,
            },
        );
        ops.push(StoreOp::DeleteKeyedUsers { guild_id });
        let ghost head = seq![
            OpV::UpsertGate {
                guild_id,
                allow_rejoin: self.allow_rejoin,
                gate_enabled: self.gate_enabled,
                key_role_id: self.key_role_id,
            },
            OpV::DeleteKeyedUsers { guild_id },
        ];
        assert(ops_view(ops@) =~= start + head);
        let n = self.keyed_users.len();
        for i in 0..n
            invariant
                n == self.keyed_users@.len(),
                ops_view(ops@) == start + head + self.keyed_users@.take(i as int).map_values(
                    |u: KeyedUser| keyed_user_op(u, guild_id),
                ),
        {
            let op = self.keyed_users[i].save(guild_id);
            let ghost before = ops@;
            ops.push(op);
            assert(ops_view(ops@) =~= ops_view(before).push(op@));
            assert(self.keyed_users@.take(i + 1) =~= self.keyed_users@.take(i as int).push(self.keyed_users@[i as int]));
            assert(ops_view(ops@) =~= start + head + self.keyed_users@.take(i + 1).map_values(
                |u: KeyedUser| keyed_user_op(u, guild_id),
            ));
        }
        assert(self.keyed_users@.take(n as int) =~= self.keyed_users@);
        assert(ops_view(ops@) =~= ops_view(old(ops)@) + gate_plan(*self, guild_id));
    }
}

impl RoleData {
    /// The writes that save this role under `guild_id`, appended to `ops`:
    /// its row and, unless `skip_commanders` is `Some(true)`, a full
    /// replacement of its commanders.
    pub fn save(&self, guild_id: u64, skip_commanders: Option<bool>, ops: &mut Vec<StoreOp>)
        ensures
            ops_view(final(ops)@) == ops_view(old(ops)@) + role_plan(
                *self,
                guild_id,
                skip_commanders == Some(true),
            ),
    {
        let skip = match skip_commanders {
            Some(b) => b,
            None => false,
        };
        let ghost start = ops@;
        ops.push(
            StoreOp::UpsertRole {
                role_id: self.id,
                guild_id,
                can_join: self.can_join,
                name: self.name.clone(),
            },
        );
        if !skip {
            ops.push(StoreOp::DeleteCommanders { role_id: self.id });
            if self.commanders.len() > 0 {
                ops.push(StoreOp::InsertCommanders { role_id: self.id, user_ids: self.commanders.clone() });
            }
        }
        assert(ops_view(ops@) =~= ops_view(start) + role_plan(*self, guild_id, skip_commanders == Some(true)));
    }

    /// The writes that delete role `role_id`: its commanders, then its row.
    /// Deleting a role that is not stored changes nothing.
    pub fn delete(role_id: u64) -> (ops: Vec<StoreOp>)
        ensures
            ops_view(ops@) == delete_role_plan(role_id),
    {
        let mut ops: Vec<StoreOp> = Vec::new();
        ops.push(StoreOp::DeleteCommanders { role_id });
        ops.push(StoreOp::DeleteRole { role_id });
        assert(ops_view(ops@) =~= delete_role_plan(role_id));
        ops
    }
}

impl Guild {
    /// The writes that save this guild: its row, then its gate data, then
    /// each of its roles with their commanders.
    pub fn save(&self) -> (ops: Vec<StoreOp>)
        ensures
            ops_view(ops@) == guild_plan(*self),
    {
        let mut ops: Vec<StoreOp> = Vec::new();
        ops.push(StoreOp::UpsertGuild { guild_id: self.id, welcome_message: self.welcome_message.clone() });
        let ghost head = seq![OpV::UpsertGuild { guild_id: self.id, welcome_message: self.welcome_message@ }];
        assert(ops_view(ops@) =~= head);
        self.gate_data.save(self.id, &mut ops);
        let ghost mid = ops_view(ops@);
        let n = self.role_data.len();
        for i in 0..n
            invariant
                n == self.role_data@.len(),
                mid == head + gate_plan(self.gate_data, self.id),
                ops_view(ops@) == mid + roles_plan(self.role_data@.take(i as int), self.id),
        {
            self.role_data[i].save(self.id, Some(false), &mut ops);
            assert(self.role_data@.take(i + 1).drop_last() =~= self.role_data@.take(i as int));
            assert(ops_view(ops@) =~= mid + roles_plan(self.role_data@.take(i + 1), self.id));
        }
        assert(self.role_data@.take(n as int) =~= self.role_data@);
        assert(ops_view(ops@) =~= guild_plan(*self));
        ops
    }
}

/// The writes that delete each role of `role_ids` in turn.
pub fn delete_roles(role_ids: &Vec<u64>) -> (ops: Vec<StoreOp>)
    ensures
        ops_view(ops@) == delete_roles_plan(role_ids@),
{
    let mut ops: Vec<StoreOp> = Vec::new();
    let n = role_ids.len();
    for i in 0..n
        invariant
            n == role_ids@.len(),
            ops_view(ops@) == delete_roles_plan(role_ids@.take(i as int)),
    {
        let ghost before = ops@;
        ops.push(StoreOp::DeleteCommanders { role_id: role_ids[i] });
        ops.push(StoreOp::DeleteRole { role_id: role_ids[i] });
        assert(role_ids@.take(i + 1).drop_last() =~= role_ids@.take(i as int));
        assert(ops_view(ops@) =~= ops_view(before) + delete_role_plan(role_ids@[i as int]));
        assert(ops_view(ops@) =~= delete_roles_plan(role_ids@.take(i + 1)));
    }
    assert(role_ids@.take(n as int) =~= role_ids@);
    ops
}

} // verus!
