use vstd::prelude::*;

use crate::import::{ImportError, imported};
use crate::json::Json;
use crate::sync::{LiveRole, StoredRole, orphans, roster_has, synced_role};
use crate::model::{GateData, Guild, KeyedUser, RoleData, distinct_role_ids, distinct_user_ids, role_ids};
use crate::store::{
    GuildRow, KeyedRow, OpV, RoleRow, Tables, apply_op, apply_ops, commander_pairs, commanders_without, gate_plan,
    empty_tables, keyed_user_op, keyed_users_without, role_plan, roles_plan, guild_plan, delete_role_plan, delete_roles_plan,
};

verus! {

/// The keyed-user rows that saving `users` in order leaves, the last save of
/// a user id winning.
pub open spec fn keyed_rows(users: Seq<KeyedUser>, guild_id: u64) -> Map<(u64, u64), KeyedRow>
    decreases users.len(),
{
    if users.len() == 0 {
        Map::empty()
    } else {
        keyed_rows(users.drop_last(), guild_id).insert(
            (guild_id, users.last().user_id),
            KeyedRow { foreign_id: users.last().foreign_id@, foreign_id_type: users.last().foreign_id_type },
        )
    }
}

/// The role rows that saving `roles` in order leaves.
pub open spec fn role_rows(roles: Seq<RoleData>, guild_id: u64) -> Map<u64, RoleRow>
    decreases roles.len(),
{
    if roles.len() == 0 {
        Map::empty()
    } else {
        role_rows(roles.drop_last(), guild_id).insert(
            roles.last().id,
            RoleRow { guild_id, can_join: roles.last().can_join, name: roles.last().name@ },
        )
    }
}

/// The commander pairs that saving `roles` in order leaves for their ids.
pub open spec fn role_commanders(roles: Seq<RoleData>) -> Set<(u64, u64)>
    decreases roles.len(),
{
    if roles.len() == 0 {
        Set::empty()
    } else {
        commanders_without(role_commanders(roles.drop_last()), roles.last().id).union(
            commander_pairs(roles.last().id, roles.last().commanders@),
        )
    }
}

/// The store after saving `g`: its guild row is overwritten, its keyed users
/// replaced, its roles upserted and their commanders replaced; the rest
/// stays.
pub open spec fn after_save_guild(t: Tables, g: Guild) -> Tables {
    Tables {
        guilds: t.guilds.insert(
            g.id,
            GuildRow {
                welcome_message: g.welcome_message@,
                allow_rejoin: g.gate_data.allow_rejoin,
                gate_enabled: g.gate_data.gate_enabled,
                key_role_id: g.gate_data.key_role_id,
            },
        ),
        keyed_users: keyed_users_without(t.keyed_users, g.id).union_prefer_right(
            keyed_rows(g.gate_data.keyed_users@, g.id),
        ),
        roles: t.roles.union_prefer_right(role_rows(g.role_data@, g.id)),
        commanders: Set::new(|p: (u64, u64)| t.commanders.contains(p) && !role_ids(g.role_data@).contains(p.0)).union(
            role_commanders(g.role_data@),
        ),
    }
}

/// Applying two lists of operations one after the other is applying their
/// concatenation.
pub proof fn lemma_apply_ops_append(t: Tables, a: Seq<OpV>, b: Seq<OpV>)
    ensures
        apply_ops(t, a + b) == apply_ops(apply_ops(t, a), b),
    decreases b.len(),
{
    if b.len() == 0 {
        assert(a + b =~= a);
    } else {
        assert((a + b).drop_last() =~= a + b.drop_last());
        assert((a + b).last() == b.last());
        lemma_apply_ops_append(t, a, b.drop_last());
    }
}

proof fn lemma_keyed_user_ops(t: Tables, users: Seq<KeyedUser>, guild_id: u64)
    ensures
        apply_ops(t, users.map_values(|u: KeyedUser| keyed_user_op(u, guild_id))) == (Tables {
            keyed_users: t.keyed_users.union_prefer_right(keyed_rows(users, guild_id)),
            ..t
        }),
    decreases users.len(),
{
    let ops = users.map_values(|u: KeyedUser| keyed_user_op(u, guild_id));
    if users.len() == 0 {
        assert(t.keyed_users.union_prefer_right(keyed_rows(users, guild_id)) =~= t.keyed_users);
    } else {
        assert(ops.drop_last() =~= users.drop_last().map_values(|u: KeyedUser| keyed_user_op(u, guild_id)));
        lemma_keyed_user_ops(t, users.drop_last(), guild_id);
        assert(t.keyed_users.union_prefer_right(keyed_rows(users, guild_id)) =~= apply_ops(t, ops).keyed_users);
    }
}

/// What saving join-gate data does: the guild row takes the join-gate columns, and the
/// guild's keyed users become exactly the ones supplied.
pub proof fn lemma_save_gate_data(t: Tables, gate: GateData, guild_id: u64)
    ensures
        apply_ops(t, gate_plan(gate, guild_id)) == (Tables {
            guilds: t.guilds.insert(
                guild_id,
                GuildRow {
                    welcome_message: if t.guilds.dom().contains(guild_id) {
                        t.guilds[guild_id].welcome_message
                    } else {
                        Seq::empty()
                    },
                    allow_rejoin: gate.allow_rejoin,
                    gate_enabled: gate.gate_enabled,
                    key_role_id: gate.key_role_id,
                },
            ),
            keyed_users: keyed_users_without(t.keyed_users, guild_id).union_prefer_right(
                keyed_rows(gate.keyed_users@, guild_id),
            ),
            ..t
        }),
{
    let head = seq![
        OpV::UpsertGate {
            guild_id,
            allow_rejoin: gate.allow_rejoin,
            gate_enabled: gate.gate_enabled,
            key_role_id: gate.key_role_id,
        },
        OpV::DeleteKeyedUsers { guild_id },
    ];
    let tail = gate.keyed_users@.map_values(|u: KeyedUser| keyed_user_op(u, guild_id));
    lemma_apply_ops_append(t, head, tail);
    assert(head.drop_last() =~= seq![head[0]]);
    assert(seq![head[0]].drop_last() =~= Seq::<OpV>::empty());
    let t1 = apply_op(t, head[0]);
    let t2 = apply_op(t1, head[1]);
    assert(apply_ops(t, Seq::<OpV>::empty()) == t);
    assert(apply_ops(t, seq![head[0]]) == t1);
    assert(apply_ops(t, head) == t2);
    lemma_keyed_user_ops(t2, gate.keyed_users@, guild_id);
}

/// Saving gate data whose keyed-user collection is empty leaves no keyed
/// user of that guild in the store, and those of other guilds as they were.
pub proof fn lemma_empty_keyed_users_clear_guild(t: Tables, gate: GateData, guild_id: u64)
    requires
        gate.keyed_users@.len() == 0,
    ensures
        forall|k: (u64, u64)| k.0 == guild_id ==> !apply_ops(t, gate_plan(gate, guild_id)).keyed_users.dom().contains(k),
        forall|k: (u64, u64)| k.0 != guild_id ==> (#[trigger] apply_ops(t, gate_plan(gate, guild_id)).keyed_users.dom().contains(k) <==> t.keyed_users.dom().contains(k)),
{
    lemma_save_gate_data(t, gate, guild_id);
    assert(keyed_rows(gate.keyed_users@, guild_id) =~= Map::empty());
}

proof fn lemma_role_ids_drop_last(roles: Seq<RoleData>)
    requires
        roles.len() > 0,
    ensures
        forall|x: u64| #[trigger] role_ids(roles).contains(x) <==> (role_ids(roles.drop_last()).contains(x) || x == roles.last().id),
{
    let dl = roles.drop_last();
    assert forall|x: u64| #[trigger] role_ids(roles).contains(x) implies (role_ids(dl).contains(x) || x == roles.last().id) by {
        let i = choose|i: int| 0 <= i < roles.len() && roles[i].id == x;
        if i < roles.len() - 1 {
            assert(dl[i] == roles[i]);
        }
    }
    assert forall|x: u64| (role_ids(dl).contains(x) || x == roles.last().id) implies #[trigger] role_ids(roles).contains(x) by {
        if role_ids(dl).contains(x) {
            let i = choose|i: int| 0 <= i < dl.len() && dl[i].id == x;
            assert(roles[i] == dl[i]);
        } else {
            assert(roles[roles.len() - 1].id == x);
        }
    }
}

/// Applies the writes of one role with commanders replaced, step by step.
proof fn lemma_role_plan(t: Tables, role: RoleData, guild_id: u64)
    ensures
        apply_ops(t, role_plan(role, guild_id, false)) == (Tables {
            roles: t.roles.insert(role.id, RoleRow { guild_id, can_join: role.can_join, name: role.name@ }),
            commanders: commanders_without(t.commanders, role.id).union(commander_pairs(role.id, role.commanders@)),
            ..t
        }),
{
    let p = role_plan(role, guild_id, false);
    let t1 = apply_op(t, p[0]);
    let t2 = apply_op(t1, p[1]);
    assert(p.take(1).drop_last() =~= Seq::<OpV>::empty());
    assert(p.take(2).drop_last() =~= p.take(1));
    assert(apply_ops(t, Seq::<OpV>::empty()) == t);
    assert(apply_ops(t, p.take(1)) == t1);
    assert(apply_ops(t, p.take(2)) == t2);
    if role.commanders@.len() == 0 {
        assert(p.take(2) =~= p);
        assert(commander_pairs(role.id, role.commanders@) =~= Set::empty());
        assert(t2.commanders =~= commanders_without(t.commanders, role.id).union(
            commander_pairs(role.id, role.commanders@),
        ));
    } else {
        assert(p.drop_last() =~= p.take(2));
    }
}

/// What saving a list of roles does: their rows are upserted, and the
/// commander pairs of their ids become those the list gives.
pub proof fn lemma_save_roles(t: Tables, roles: Seq<RoleData>, guild_id: u64)
    ensures
        apply_ops(t, roles_plan(roles, guild_id)) == (Tables {
            roles: t.roles.union_prefer_right(role_rows(roles, guild_id)),
            commanders: Set::new(|p: (u64, u64)| t.commanders.contains(p) && !role_ids(roles).contains(p.0)).union(
                role_commanders(roles),
            ),
            ..t
        }),
    decreases roles.len(),
{
    if roles.len() == 0 {
        assert(t.roles.union_prefer_right(role_rows(roles, guild_id)) =~= t.roles);
        assert(Set::new(|p: (u64, u64)| t.commanders.contains(p) && !role_ids(roles).contains(p.0)).union(
            role_commanders(roles),
        ) =~= t.commanders);
    } else {
        let dl = roles.drop_last();
        let r = roles.last();
        lemma_save_roles(t, dl, guild_id);
        lemma_apply_ops_append(t, roles_plan(dl, guild_id), role_plan(r, guild_id, false));
        let x = apply_ops(t, roles_plan(dl, guild_id));
        lemma_role_plan(x, r, guild_id);
        lemma_role_ids_drop_last(roles);
        assert(apply_ops(t, roles_plan(roles, guild_id)).roles =~= t.roles.union_prefer_right(
            role_rows(roles, guild_id),
        ));
        assert(apply_ops(t, roles_plan(roles, guild_id)).commanders =~= Set::new(
            |p: (u64, u64)| t.commanders.contains(p) && !role_ids(roles).contains(p.0),
        ).union(role_commanders(roles)));
    }
}

/// What saving a guild does, from any prior store: the guild row, keyed
/// users, roles and commanders as `after_save_guild` gives them.
pub proof fn lemma_save_guild(t: Tables, g: Guild)
    ensures
        apply_ops(t, guild_plan(g)) == after_save_guild(t, g),
{
    let head = seq![OpV::UpsertGuild { guild_id: g.id, welcome_message: g.welcome_message@ }];
    let gate = gate_plan(g.gate_data, g.id);
    let roles = roles_plan(g.role_data@, g.id);
    lemma_apply_ops_append(t, head + gate, roles);
    lemma_apply_ops_append(t, head, gate);
    assert(head.drop_last() =~= Seq::<OpV>::empty());
    assert(apply_ops(t, Seq::<OpV>::empty()) == t);
    let t1 = apply_ops(t, head);
    lemma_save_gate_data(t1, g.gate_data, g.id);
    let t2 = apply_ops(t1, gate);
    lemma_save_roles(t2, g.role_data@, g.id);
    assert(keyed_users_without(t1.keyed_users, g.id) == keyed_users_without(t.keyed_users, g.id));
    assert(apply_ops(t, guild_plan(g)).guilds =~= after_save_guild(t, g).guilds);
}

proof fn lemma_keyed_rows_facts(users: Seq<KeyedUser>, guild_id: u64)
    ensures
        forall|k: (u64, u64)| #[trigger] keyed_rows(users, guild_id).dom().contains(k) <==> (k.0 == guild_id && exists|i: int|
            0 <= i < users.len() && users[i].user_id == k.1),
        distinct_user_ids(users) ==> forall|i: int| 0 <= i < users.len() ==> #[trigger] keyed_rows(users, guild_id)[(guild_id, users[i].user_id)] == (KeyedRow {
            foreign_id: users[i].foreign_id@,
            foreign_id_type: users[i].foreign_id_type,
        }),
    decreases users.len(),
{
    if users.len() > 0 {
        let dl = users.drop_last();
        lemma_keyed_rows_facts(dl, guild_id);
        assert forall|k: (u64, u64)| #[trigger] keyed_rows(users, guild_id).dom().contains(k) implies (k.0 == guild_id && exists|i: int|
            0 <= i < users.len() && users[i].user_id == k.1) by {
            if k != (guild_id, users.last().user_id) {
                assert(keyed_rows(dl, guild_id).dom().contains(k));
                let i = choose|i: int| 0 <= i < dl.len() && dl[i].user_id == k.1;
                assert(users[i] == dl[i]);
            } else {
                assert(users[users.len() - 1].user_id == k.1);
            }
        }
        assert forall|k: (u64, u64)| (k.0 == guild_id && exists|i: int| 0 <= i < users.len() && users[i].user_id == k.1) implies #[trigger] keyed_rows(users, guild_id).dom().contains(k) by {
            let i = choose|i: int| 0 <= i < users.len() && users[i].user_id == k.1;
            if i < users.len() - 1 {
                assert(dl[i] == users[i]);
                assert(keyed_rows(dl, guild_id).dom().contains(k));
            }
        }
        if distinct_user_ids(users) {
            assert(distinct_user_ids(dl)) by {
                assert forall|i: int, j: int| 0 <= i < dl.len() && 0 <= j < dl.len() && i != j implies dl[i].user_id != dl[j].user_id by {
                    assert(dl[i] == users[i] && dl[j] == users[j]);
                }
            }
            assert forall|i: int| 0 <= i < users.len() implies #[trigger] keyed_rows(users, guild_id)[(guild_id, users[i].user_id)] == (KeyedRow {
                foreign_id: users[i].foreign_id@,
                foreign_id_type: users[i].foreign_id_type,
            }) by {
                if i < users.len() - 1 {
                    assert(dl[i] == users[i]);
                    assert(users[i].user_id != users[users.len() - 1].user_id);
                    assert(keyed_rows(dl, guild_id)[(guild_id, dl[i].user_id)] == (KeyedRow {
                        foreign_id: dl[i].foreign_id@,
                        foreign_id_type: dl[i].foreign_id_type,
                    }));
                }
            }
        }
    }
}

proof fn lemma_role_rows_facts(roles: Seq<RoleData>, guild_id: u64)
    ensures
        role_rows(roles, guild_id).dom() =~= role_ids(roles),
        distinct_role_ids(roles) ==> forall|i: int| 0 <= i < roles.len() ==> #[trigger] role_rows(roles, guild_id)[roles[i].id] == (RoleRow {
            guild_id,
            can_join: roles[i].can_join,
            name: roles[i].name@,
        }),
    decreases roles.len(),
{
    if roles.len() > 0 {
        let dl = roles.drop_last();
        lemma_role_rows_facts(dl, guild_id);
        lemma_role_ids_drop_last(roles);
        if distinct_role_ids(roles) {
            assert(distinct_role_ids(dl)) by {
                assert forall|i: int, j: int| 0 <= i < dl.len() && 0 <= j < dl.len() && i != j implies dl[i].id != dl[j].id by {
                    assert(dl[i] == roles[i] && dl[j] == roles[j]);
                }
            }
            assert forall|i: int| 0 <= i < roles.len() implies #[trigger] role_rows(roles, guild_id)[roles[i].id] == (RoleRow {
                guild_id,
                can_join: roles[i].can_join,
                name: roles[i].name@,
            }) by {
                if i < roles.len() - 1 {
                    assert(dl[i] == roles[i]);
                    assert(roles[i].id != roles[roles.len() - 1].id);
                }
            }
        }
    }
}

proof fn lemma_role_commanders_facts(roles: Seq<RoleData>)
    ensures
        forall|p: (u64, u64)| #[trigger] role_commanders(roles).contains(p) ==> role_ids(roles).contains(p.0),
        distinct_role_ids(roles) ==> forall|p: (u64, u64)| #[trigger] role_commanders(roles).contains(p) <==> exists|i: int|
            0 <= i < roles.len() && roles[i].id == p.0 && roles[i].commanders@.contains(p.1),
    decreases roles.len(),
{
    if roles.len() > 0 {
        let dl = roles.drop_last();
        let last = roles.last();
        lemma_role_commanders_facts(dl);
        lemma_role_ids_drop_last(roles);
        assert forall|p: (u64, u64)| #[trigger] role_commanders(roles).contains(p) implies role_ids(roles).contains(p.0) by {
            if p.0 != last.id {
                assert(role_commanders(dl).contains(p));
            }
        }
        if distinct_role_ids(roles) {
            assert(distinct_role_ids(dl)) by {
                assert forall|i: int, j: int| 0 <= i < dl.len() && 0 <= j < dl.len() && i != j implies dl[i].id != dl[j].id by {
                    assert(dl[i] == roles[i] && dl[j] == roles[j]);
                }
            }
            assert forall|p: (u64, u64)| #[trigger] role_commanders(roles).contains(p) implies exists|i: int|
                0 <= i < roles.len() && roles[i].id == p.0 && roles[i].commanders@.contains(p.1) by {
                if p.0 == last.id {
                    assert(roles[roles.len() - 1] == last);
                } else {
                    assert(role_commanders(dl).contains(p));
                    let i = choose|i: int| 0 <= i < dl.len() && dl[i].id == p.0 && dl[i].commanders@.contains(p.1);
                    assert(roles[i] == dl[i]);
                }
            }
            assert forall|p: (u64, u64)| (exists|i: int|
                0 <= i < roles.len() && roles[i].id == p.0 && roles[i].commanders@.contains(p.1)) implies #[trigger] role_commanders(roles).contains(p) by {
                let i = choose|i: int| 0 <= i < roles.len() && roles[i].id == p.0 && roles[i].commanders@.contains(p.1);
                if i < roles.len() - 1 {
                    assert(dl[i] == roles[i]);
                    assert(roles[i].id != roles[roles.len() - 1].id);
                    assert(role_commanders(dl).contains(p));
                }
            }
        }
    }
}

/// Saving a guild into a store that holds nothing leaves exactly that guild:
/// its row, each keyed user, each role, and each role's commanders, read back
/// as they were given (commanders as a set). User ids and role ids are
/// distinct within the guild, as the data model asks.
pub proof fn lemma_save_guild_round_trip(g: Guild)
    requires
        distinct_user_ids(g.gate_data.keyed_users@),
        distinct_role_ids(g.role_data@),
    ensures
        ({
            let s = apply_ops(empty_tables(), guild_plan(g));
            let users = g.gate_data.keyed_users@;
            let roles = g.role_data@;
            &&& s.guilds == map![g.id => GuildRow {
                welcome_message: g.welcome_message@,
                allow_rejoin: g.gate_data.allow_rejoin,
                gate_enabled: g.gate_data.gate_enabled,
                key_role_id: g.gate_data.key_role_id,
            }]
            &&& forall|k: (u64, u64)| #[trigger] s.keyed_users.dom().contains(k) <==> (k.0 == g.id && exists|i: int|
                0 <= i < users.len() && users[i].user_id == k.1)
            &&& forall|i: int| 0 <= i < users.len() ==> #[trigger] s.keyed_users[(g.id, users[i].user_id)] == (KeyedRow {
                foreign_id: users[i].foreign_id@,
                foreign_id_type: users[i].foreign_id_type,
            })
            &&& s.roles.dom() == role_ids(roles)
            &&& forall|i: int| 0 <= i < roles.len() ==> #[trigger] s.roles[roles[i].id] == (RoleRow {
                guild_id: g.id,
                can_join: roles[i].can_join,
                name: roles[i].name@,
            })
            &&& forall|p: (u64, u64)| #[trigger] s.commanders.contains(p) <==> exists|i: int|
                0 <= i < roles.len() && roles[i].id == p.0 && roles[i].commanders@.contains(p.1)
        }),
{
    let t = empty_tables();
    lemma_save_guild(t, g);
    lemma_keyed_rows_facts(g.gate_data.keyed_users@, g.id);
    lemma_role_rows_facts(g.role_data@, g.id);
    lemma_role_commanders_facts(g.role_data@);
    let s = apply_ops(t, guild_plan(g));
    assert(s.guilds =~= map![g.id => GuildRow {
        welcome_message: g.welcome_message@,
        allow_rejoin: g.gate_data.allow_rejoin,
        gate_enabled: g.gate_data.gate_enabled,
        key_role_id: g.gate_data.key_role_id,
    }]);
    assert(s.keyed_users =~= keyed_rows(g.gate_data.keyed_users@, g.id));
    assert(s.roles =~= role_rows(g.role_data@, g.id));
    assert(s.commanders =~= role_commanders(g.role_data@));
}

/// Saving the same guild twice leaves the store as saving it once does: no
/// keyed-user or commander row is doubled, and nothing else moves.
pub proof fn lemma_save_guild_idempotent(t: Tables, g: Guild)
    ensures
        apply_ops(apply_ops(t, guild_plan(g)), guild_plan(g)) == apply_ops(t, guild_plan(g)),
{
    let once = apply_ops(t, guild_plan(g));
    lemma_save_guild(t, g);
    lemma_save_guild(once, g);
    lemma_keyed_rows_facts(g.gate_data.keyed_users@, g.id);
    lemma_role_commanders_facts(g.role_data@);
    let twice = after_save_guild(once, g);
    assert(keyed_users_without(once.keyed_users, g.id) =~= keyed_users_without(t.keyed_users, g.id));
    assert(twice.keyed_users =~= once.keyed_users);
    assert(twice.roles =~= once.roles);
    assert(twice.commanders =~= once.commanders);
    assert(twice.guilds =~= once.guilds);
}

proof fn lemma_role_plan_skip(t: Tables, role: RoleData, guild_id: u64)
    ensures
        apply_ops(t, role_plan(role, guild_id, true)) == (Tables {
            roles: t.roles.insert(role.id, RoleRow { guild_id, can_join: role.can_join, name: role.name@ }),
            ..t
        }),
{
    let p = role_plan(role, guild_id, true);
    assert(p.drop_last() =~= Seq::<OpV>::empty());
    assert(apply_ops(t, Seq::<OpV>::empty()) == t);
}

/// A live role that the store lacks is stored, after reconciliation, with
/// its live name, under the guild, joinable by nobody, and with no
/// commanders: none are written, so none appear where none were.
pub proof fn lemma_sync_adds_missing_role(t: Tables, guild_id: u64, live: LiveRole, role: RoleData, ops: Seq<OpV>)
    requires
        synced_role(guild_id, live, None, role, ops),
    ensures
        !role.can_join,
        role.commanders@.len() == 0,
        apply_ops(t, ops).roles[live.id] == (RoleRow { guild_id, can_join: false, name: live.name@ }),
        apply_ops(t, ops).commanders == t.commanders,
        forall|p: (u64, u64)| (forall|q: (u64, u64)| t.commanders.contains(q) ==> q.0 != live.id) ==> #[trigger] apply_ops(t, ops).commanders.contains(p) ==> p.0 != live.id,
{
    lemma_role_plan_skip(t, role, guild_id);
}

/// A stored role that the platform reports under a new name takes that name
/// in the store; its join flag and its commanders stay as they were. One
/// whose name did not change is not written at all.
pub proof fn lemma_sync_renames_role(
    t: Tables,
    guild_id: u64,
    live: LiveRole,
    stored: StoredRole,
    role: RoleData,
    ops: Seq<OpV>,
)
    requires
        synced_role(guild_id, live, Some(stored), role, ops),
        t.roles.dom().contains(live.id),
        t.roles[live.id] == (RoleRow { guild_id, can_join: stored.can_join, name: stored.name@ }),
    ensures
        role.can_join == stored.can_join,
        role.commanders@ == stored.commanders@,
        apply_ops(t, ops).roles[live.id] == (RoleRow { guild_id, can_join: stored.can_join, name: live.name@ }),
        apply_ops(t, ops).commanders == t.commanders,
        stored.name@ == live.name@ ==> apply_ops(t, ops) == t,
{
    if stored.name@ == live.name@ {
        assert(apply_ops(t, ops) == t);
    } else {
        lemma_role_plan_skip(t, role, guild_id);
    }
}

/// What deleting a list of roles does: their rows and commander pairs go,
/// everything else stays.
pub proof fn lemma_delete_roles(t: Tables, ids: Seq<u64>)
    ensures
        apply_ops(t, delete_roles_plan(ids)) == (Tables {
            roles: Map::new(|k: u64| t.roles.dom().contains(k) && !ids.contains(k), |k: u64| t.roles[k]),
            commanders: Set::new(|p: (u64, u64)| t.commanders.contains(p) && !ids.contains(p.0)),
            ..t
        }),
    decreases ids.len(),
{
    if ids.len() == 0 {
        assert(Map::new(|k: u64| t.roles.dom().contains(k) && !ids.contains(k), |k: u64| t.roles[k]) =~= t.roles);
        assert(Set::new(|p: (u64, u64)| t.commanders.contains(p) && !ids.contains(p.0)) =~= t.commanders);
    } else {
        let dl = ids.drop_last();
        lemma_delete_roles(t, dl);
        lemma_apply_ops_append(t, delete_roles_plan(dl), delete_role_plan(ids.last()));
        let x = apply_ops(t, delete_roles_plan(dl));
        let p = delete_role_plan(ids.last());
        assert(p.drop_last().drop_last() =~= Seq::<OpV>::empty());
        assert(apply_ops(x, Seq::<OpV>::empty()) == x);
        assert(apply_ops(x, p.drop_last()) == apply_op(x, p[0]));
        assert forall|k: u64| ids.contains(k) <==> (dl.contains(k) || k == ids.last()) by {
            if ids.contains(k) {
                let i = choose|i: int| 0 <= i < ids.len() && ids[i] == k;
                if i < ids.len() - 1 {
                    assert(dl[i] == k);
                }
            }
            if dl.contains(k) {
                let i = choose|i: int| 0 <= i < dl.len() && dl[i] == k;
                assert(ids[i] == k);
            }
            if k == ids.last() {
                assert(ids[ids.len() - 1] == k);
            }
        }
        assert(apply_ops(t, delete_roles_plan(ids)).roles =~= Map::new(
            |k: u64| t.roles.dom().contains(k) && !ids.contains(k),
            |k: u64| t.roles[k],
        ));
        assert(apply_ops(t, delete_roles_plan(ids)).commanders =~= Set::new(
            |p: (u64, u64)| t.commanders.contains(p) && !ids.contains(p.0),
        ));
    }
}

/// Orphan cleanup: with `cleanup`, every stored role id that the roster
/// lacks loses its row and its commanders, and every role of the roster
/// keeps both; without `cleanup` the store does not change.
pub proof fn lemma_cleanup_removes_orphans(t: Tables, stored: Seq<u64>, roster: Seq<LiveRole>, cleanup: bool)
    ensures
        !cleanup ==> apply_ops(t, if cleanup { delete_roles_plan(orphans(stored, roster)) } else { Seq::empty() }) == t,
        cleanup ==> ({
            let s = apply_ops(t, delete_roles_plan(orphans(stored, roster)));
            &&& forall|id: u64| #[trigger] stored.contains(id) && !roster_has(roster, id) ==> !s.roles.dom().contains(id)
            &&& forall|p: (u64, u64)| #[trigger] s.commanders.contains(p) ==> t.commanders.contains(p) && (!stored.contains(p.0) || roster_has(roster, p.0))
            &&& forall|id: u64| #[trigger] roster_has(roster, id) ==> (s.roles.dom().contains(id) == t.roles.dom().contains(id))
            &&& forall|id: u64| #[trigger] roster_has(roster, id) && t.roles.dom().contains(id) ==> s.roles[id] == t.roles[id]
            &&& forall|p: (u64, u64)| roster_has(roster, p.0) ==> (#[trigger] s.commanders.contains(p) == t.commanders.contains(p))
        }),
{
    let ids = orphans(stored, roster);
    if cleanup {
        lemma_delete_roles(t, ids);
        let pred = |x: u64| !roster_has(roster, x);
        assert forall|id: u64| ids.contains(id) <==> (stored.contains(id) && !roster_has(roster, id)) by {
            if ids.contains(id) {
                stored.lemma_filter_contains_rev(pred, id);
                let i = choose|i: int| 0 <= i < ids.len() && ids[i] == id;
                stored.lemma_filter_pred(pred, i);
            }
            if stored.contains(id) && !roster_has(roster, id) {
                let i = choose|i: int| 0 <= i < stored.len() && stored[i] == id;
                stored.lemma_filter_contains(pred, i);
            }
        }
        let s = apply_ops(t, delete_roles_plan(ids));
        assert forall|id: u64| #[trigger] roster_has(roster, id) implies (s.roles.dom().contains(id) == t.roles.dom().contains(id)) && (t.roles.dom().contains(id) ==> s.roles[id] == t.roles[id]) by {
            assert(!ids.contains(id));
        }
    } else {
        assert(apply_ops(t, Seq::<OpV>::empty()) == t);
    }
}

/// A document whose top level is no object (an array, say) is a parse
/// error as a whole, so no guild of it reaches the store.
pub proof fn lemma_non_object_is_parse_error(j: Json, r: Result<Vec<Guild>, ImportError>)
    requires
        imported(j, r),
        !(j is Object),
    ensures
        r == Err::<Vec<Guild>, ImportError>(ImportError::ParseError),
{
}

} // verus!
