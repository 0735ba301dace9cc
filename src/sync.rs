use vstd::prelude::*;

use crate::model::{GateData, Guild, KeyedUser, RoleData};
use crate::store::{
    OpV, StoreOp, delete_roles, delete_roles_plan, ops_view, role_plan,
};

verus! {

/// A role as the chat platform currently reports it.
#[derive(Clone, Debug)]
pub struct LiveRole {
    pub id: u64,
    pub name: String,
}

/// What the store holds of a role: its row and its commanders.
#[derive(Clone, Debug)]
pub struct StoredRole {
    pub can_join: bool,
    pub name: String,
    pub commanders: Vec<u64>,
}

/// What the store holds in a guild's row.
#[derive(Clone, Debug)]
pub struct GuildRecord {
    pub welcome_message: String,
    pub allow_rejoin: bool,
    pub gate_enabled: bool,
    pub key_role_id: u64,
}

/// The outcome of reconciling one live role with what the store holds of it
/// (`None`: nothing). The platform's name wins; join flag and commanders come
/// from the store, or are off and empty for a role the store lacks. A role
/// the store lacks, or holds under another name, is written back without
/// touching its commanders; one that matches is not written.
pub open spec fn synced_role(
    guild_id: u64,
    live: LiveRole,
    stored: Option<StoredRole>,
    role: RoleData,
    ops: Seq<OpV>,
) -> bool {
    &&& role.id == live.id
    &&& role.name@ == live.name@
    &&& match stored {
        None => {
            &&& !role.can_join
            &&& role.commanders@.len() == 0
            &&& ops == role_plan(role, guild_id, true)
        },
        Some(s) => {
            &&& role.can_join == s.can_join
            &&& role.commanders@ == s.commanders@
            &&& ops == if s.name@ == live.name@ {
                Seq::<OpV>::empty()
            } else {
                role_plan(role, guild_id, true)
            }
        },
    }
}

/// The ids of `stored` that no role of `roster` has, in their order.
pub open spec fn orphans(stored: Seq<u64>, roster: Seq<LiveRole>) -> Seq<u64> {
    stored.filter(|id: u64| !roster_has(roster, id))
}

/// Some role of `roster` has id `id`.
pub open spec fn roster_has(roster: Seq<LiveRole>, id: u64) -> bool {
    exists|i: int| 0 <= i < roster.len() && roster[i].id == id
}

impl RoleData {
    /// Reconciles one live role of guild `guild_id` with what a lookup in the
    /// store found of it, and gives the role and the writes to make.
    pub fn new(guild_id: u64, live: &LiveRole, stored: Option<StoredRole>) -> (r: (RoleData, Vec<StoreOp>))
        ensures
            synced_role(guild_id, *live, stored, r.0, ops_view(r.1@)),
    {
        let (can_join, commanders, should_save) = match stored {
            None => (false, Vec::new(), true),
            Some(s) => {
                let renamed = !(s.name == live.name);
                (s.can_join, s.commanders, renamed)
            },
        };
        let role = RoleData { id: live.id, can_join, name: live.name.clone(), commanders };
        let mut ops: Vec<StoreOp> = Vec::new();
        if should_save {
            role.save(guild_id, Some(true), &mut ops);
        }
        proof {
            if !should_save {
                assert(ops_view(ops@) =~= Seq::<OpV>::empty());
            } else {
                assert(ops_view(Seq::<StoreOp>::empty()) =~= Seq::<OpV>::empty());
                assert(ops_view(ops@) =~= role_plan(role, guild_id, true));
            }
        }
        (role, ops)
    }
}

/// The ids among `stored` that no role of `roster` has: the roles that the
/// platform no longer knows.
pub fn orphan_role_ids(stored: &Vec<u64>, roster: &Vec<LiveRole>) -> (r: Vec<u64>)
    ensures
        r@ == orphans(stored@, roster@),
{
    let mut r: Vec<u64> = Vec::new();
    let n = stored.len();
    for i in 0..n
        invariant
            n == stored@.len(),
            r@ == orphans(stored@.take(i as int), roster@),
    {
        let id = stored[i];
        let mut found = false;
        let m = roster.len();
        for j in 0..m
            invariant
                m == roster@.len(),
                found == exists|k: int| 0 <= k < j && roster@[k].id == id,
        {
            if roster[j].id == id {
                found = true;
            }
        }
        assert(stored@.take(i + 1).drop_last() =~= stored@.take(i as int));
        reveal(Seq::filter);
        if !found {
            r.push(id);
        }
        assert(r@ =~= orphans(stored@.take(i + 1), roster@));
    }
    assert(stored@.take(n as int) =~= stored@);
    r
}

/// The writes that end reconciliation: with `cleanup`, deleting every stored
/// role of the guild (`stored`) that the roster lacks; without, none. Only a
/// complete roster may come with `cleanup`.
pub fn cleanup_ops(stored: &Vec<u64>, roster: &Vec<LiveRole>, cleanup: bool) -> (ops: Vec<StoreOp>)
    ensures
        ops_view(ops@) == if cleanup {
            delete_roles_plan(orphans(stored@, roster@))
        } else {
            Seq::<OpV>::empty()
        },
{
    if cleanup {
        let orphaned = orphan_role_ids(stored, roster);
        delete_roles(&orphaned)
    } else {
        let ops: Vec<StoreOp> = Vec::new();
        assert(ops_view(ops@) =~= Seq::<OpV>::empty());
        ops
    }
}

impl Guild {
    /// Assembles a guild from what the store holds of it (`None`: no row) and
    /// its reconciled roles. Without a row the guild has defaults and no
    /// keyed users.
    pub fn new(id: u64, record: Option<GuildRecord>, keyed_users: Vec<KeyedUser>, roles: Vec<RoleData>) -> (g: Guild)
        ensures
            g.id == id,
            g.role_data@ == roles@,
            match record {
                None => {
                    &&& g.welcome_message@.len() == 0
                    &&& !g.gate_data.allow_rejoin
                    &&& !g.gate_data.gate_enabled
                    &&& g.gate_data.key_role_id == 0
                    &&& g.gate_data.keyed_users@.len() == 0
                },
                Some(rec) => {
                    &&& g.welcome_message@ == rec.welcome_message@
                    &&& g.gate_data.allow_rejoin == rec.allow_rejoin
                    &&& g.gate_data.gate_enabled == rec.gate_enabled
                    &&& g.gate_data.key_role_id == rec.key_role_id
                    &&& g.gate_data.keyed_users@ == keyed_users@
                },
            },
    {
        match record {
            None => Guild { role_data: roles, ..Guild::empty(id) },
            Some(rec) => Guild {
                id,
                welcome_message: rec.welcome_message,
                gate_data: GateData {
                    allow_rejoin: rec.allow_rejoin,
                    gate_enabled: rec.gate_enabled,
                    key_role_id: rec.key_role_id,
                    keyed_users,
                },
                role_data: roles,
            },
        }
    }
}

} // verus!
