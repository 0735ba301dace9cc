use std::collections::{BTreeMap, BTreeSet};

use jarvis::model::{GateData, Guild, KeyedUser, RoleData};
use jarvis::store::{delete_roles, StoreOp};
use jarvis::sync::{cleanup_ops, LiveRole, StoredRole};

#[derive(Debug, Default, PartialEq, Clone)]
struct Db {
    guilds: BTreeMap<u64, (String, bool, bool, u64)>,
    keyed_users: BTreeMap<(u64, u64), (String, i32)>,
    roles: BTreeMap<u64, (u64, bool, String)>,
    commanders: BTreeSet<(u64, u64)>,
}

impl Db {
    fn apply(&mut self, ops: &[StoreOp]) {
        for op in ops {
            match op {
                StoreOp::UpsertGuild { guild_id, welcome_message } => {
                    let row = self.guilds.entry(*guild_id).or_insert((String::new(), false, false, 0));
                    row.0 = welcome_message.clone();
                }
                StoreOp::UpsertGate { guild_id, allow_rejoin, gate_enabled, key_role_id } => {
                    let row = self.guilds.entry(*guild_id).or_insert((String::new(), false, false, 0));
                    row.1 = *allow_rejoin;
                    row.2 = *gate_enabled;
                    row.3 = *key_role_id;
                }
                StoreOp::DeleteKeyedUsers { guild_id } => self.keyed_users.retain(|k, _| k.0 != *guild_id),
                StoreOp::UpsertKeyedUser { guild_id, user_id, foreign_id, foreign_id_type } => {
                    self.keyed_users.insert((*guild_id, *user_id), (foreign_id.clone(), *foreign_id_type));
                }
                StoreOp::UpsertRole { role_id, guild_id, can_join, name } => {
                    self.roles.insert(*role_id, (*guild_id, *can_join, name.clone()));
                }
                StoreOp::DeleteCommanders { role_id } => self.commanders.retain(|p| p.0 != *role_id),
                StoreOp::InsertCommanders { role_id, user_ids } => {
                    for u in user_ids {
                        self.commanders.insert((*role_id, *u));
                    }
                }
                StoreOp::DeleteRole { role_id } => {
                    self.roles.remove(role_id);
                }
            }
        }
    }
}

fn sample_guild() -> Guild {
    Guild {
        id: 10,
        welcome_message: String::from("hello"),
        gate_data: GateData {
            allow_rejoin: true,
            gate_enabled: true,
            key_role_id: 77,
            keyed_users: vec![
                KeyedUser { user_id: 1, foreign_id: String::from("abc"), foreign_id_type: 1 },
                KeyedUser { user_id: 2, foreign_id: String::from("42"), foreign_id_type: 1 },
            ],
        },
        role_data: vec![
            RoleData { id: 100, can_join: true, name: String::from("red"), commanders: vec![5, 6] },
            RoleData { id: 101, can_join: false, name: String::from("blue"), commanders: vec![] },
        ],
    }
}

#[test]
fn save_guild_into_empty_store_reads_back() {
    let g = sample_guild();
    let mut db = Db::default();
    db.apply(&g.save());
    assert_eq!(db.guilds.len(), 1);
    assert_eq!(db.guilds[&10], (String::from("hello"), true, true, 77));
    assert_eq!(db.keyed_users.len(), 2);
    assert_eq!(db.keyed_users[&(10, 1)], (String::from("abc"), 1));
    assert_eq!(db.keyed_users[&(10, 2)], (String::from("42"), 1));
    assert_eq!(db.roles.len(), 2);
    assert_eq!(db.roles[&100], (10, true, String::from("red")));
    assert_eq!(db.roles[&101], (10, false, String::from("blue")));
    let expected: BTreeSet<(u64, u64)> = [(100, 5), (100, 6)].into_iter().collect();
    assert_eq!(db.commanders, expected);
}

#[test]
fn save_guild_twice_is_save_once() {
    let g = sample_guild();
    let mut once = Db::default();
    once.apply(&g.save());
    let mut twice = once.clone();
    twice.apply(&g.save());
    assert_eq!(once, twice);
}

#[test]
fn save_guild_plan_order() {
    let g = sample_guild();
    let ops = g.save();
    assert_eq!(ops.len(), 1 + 2 + 2 + 3 + 2);
    assert!(matches!(&ops[0], StoreOp::UpsertGuild { guild_id: 10, welcome_message } if welcome_message == "hello"));
    assert!(matches!(
        &ops[1],
        StoreOp::UpsertGate { guild_id: 10, allow_rejoin: true, gate_enabled: true, key_role_id: 77 }
    ));
    assert!(matches!(&ops[2], StoreOp::DeleteKeyedUsers { guild_id: 10 }));
    assert!(matches!(&ops[5], StoreOp::UpsertRole { role_id: 100, guild_id: 10, can_join: true, .. }));
    assert!(matches!(&ops[6], StoreOp::DeleteCommanders { role_id: 100 }));
    assert!(matches!(&ops[7], StoreOp::InsertCommanders { role_id: 100, user_ids } if user_ids == &vec![5, 6]));
    assert!(matches!(&ops[9], StoreOp::DeleteCommanders { role_id: 101 }));
}

#[test]
fn empty_keyed_users_clear_the_guild() {
    let mut db = Db::default();
    db.apply(&sample_guild().save());
    db.keyed_users.insert((11, 1), (String::from("other"), 1));
    let gate = GateData { allow_rejoin: false, gate_enabled: false, key_role_id: 0, keyed_users: vec![] };
    let mut ops = Vec::new();
    gate.save(10, &mut ops);
    db.apply(&ops);
    assert!(db.keyed_users.keys().all(|k| k.0 != 10));
    assert_eq!(db.keyed_users.len(), 1);
    assert_eq!(db.guilds[&10], (String::from("hello"), false, false, 0));
}

#[test]
fn save_role_skipping_commanders_leaves_them() {
    let mut db = Db::default();
    db.apply(&sample_guild().save());
    let role = RoleData { id: 100, can_join: false, name: String::from("crimson"), commanders: vec![] };
    let mut ops = Vec::new();
    role.save(10, Some(true), &mut ops);
    assert_eq!(ops.len(), 1);
    db.apply(&ops);
    assert_eq!(db.roles[&100], (10, false, String::from("crimson")));
    assert!(db.commanders.contains(&(100, 5)) && db.commanders.contains(&(100, 6)));
}

#[test]
fn save_role_replaces_commanders() {
    let mut db = Db::default();
    db.apply(&sample_guild().save());
    let role = RoleData { id: 100, can_join: true, name: String::from("red"), commanders: vec![9] };
    let mut ops = Vec::new();
    role.save(10, None, &mut ops);
    db.apply(&ops);
    let expected: BTreeSet<(u64, u64)> = [(100, 9)].into_iter().collect();
    assert_eq!(db.commanders, expected);
}

#[test]
fn delete_role_removes_row_and_commanders() {
    let mut db = Db::default();
    db.apply(&sample_guild().save());
    db.apply(&RoleData::delete(100));
    assert!(!db.roles.contains_key(&100));
    assert!(db.commanders.iter().all(|p| p.0 != 100));
    assert!(db.roles.contains_key(&101));
}

#[test]
fn delete_absent_role_changes_nothing() {
    let mut db = Db::default();
    db.apply(&sample_guild().save());
    let before = db.clone();
    db.apply(&delete_roles(&vec![555, 556]));
    assert_eq!(db, before);
}

#[test]
fn keyed_user_save_op() {
    let ku = KeyedUser { user_id: 3, foreign_id: String::from("x"), foreign_id_type: 2 };
    let op = ku.save(8);
    assert!(matches!(op, StoreOp::UpsertKeyedUser { guild_id: 8, user_id: 3, foreign_id, foreign_id_type: 2 } if foreign_id == "x"));
}

#[test]
fn sync_adds_missing_role_to_store() {
    let mut db = Db::default();
    db.apply(&sample_guild().save());
    let live = LiveRole { id: 200, name: String::from("green") };
    let (_, ops) = RoleData::new(10, &live, None);
    db.apply(&ops);
    assert_eq!(db.roles[&200], (10, false, String::from("green")));
    assert!(db.commanders.iter().all(|p| p.0 != 200));
}

#[test]
fn sync_renamed_role_in_store_keeps_commanders() {
    let mut db = Db::default();
    db.apply(&sample_guild().save());
    let before = db.commanders.clone();
    let stored = StoredRole { can_join: true, name: String::from("red"), commanders: vec![5, 6] };
    let live = LiveRole { id: 100, name: String::from("scarlet") };
    let (role, ops) = RoleData::new(10, &live, Some(stored));
    db.apply(&ops);
    assert_eq!(db.roles[&100], (10, true, String::from("scarlet")));
    assert_eq!(db.commanders, before);
    assert_eq!(role.commanders, vec![5, 6]);
}

#[test]
fn cleanup_in_store_removes_orphan_and_its_commanders() {
    let mut g = sample_guild();
    g.role_data.push(RoleData { id: 102, can_join: true, name: String::from("c"), commanders: vec![9] });
    let mut db = Db::default();
    db.apply(&g.save());
    let roster = vec![LiveRole { id: 100, name: String::from("red") }, LiveRole { id: 101, name: String::from("blue") }];
    let stored: Vec<u64> = db.roles.keys().copied().collect();

    let mut untouched = db.clone();
    untouched.apply(&cleanup_ops(&stored, &roster, false));
    assert_eq!(untouched, db);

    db.apply(&cleanup_ops(&stored, &roster, true));
    assert!(!db.roles.contains_key(&102));
    assert!(db.commanders.iter().all(|p| p.0 != 102));
    assert!(db.roles.contains_key(&100) && db.roles.contains_key(&101));
    assert!(db.commanders.contains(&(100, 5)));
}
