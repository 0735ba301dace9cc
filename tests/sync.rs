use jarvis::model::{GateData, Guild, KeyedUser, RoleData};
use jarvis::store::StoreOp;
use jarvis::sync::{cleanup_ops, orphan_role_ids, GuildRecord, LiveRole, StoredRole};

fn live(id: u64, name: &str) -> LiveRole {
    LiveRole { id, name: String::from(name) }
}

#[test]
fn sync_adds_missing_role() {
    let (role, ops) = RoleData::new(7, &live(100, "red"), None);
    assert_eq!(role.id, 100);
    assert!(!role.can_join);
    assert!(role.commanders.is_empty());
    assert_eq!(role.name, "red");
    assert_eq!(ops.len(), 1);
    assert!(matches!(&ops[0], StoreOp::UpsertRole { role_id: 100, guild_id: 7, can_join: false, name } if name == "red"));
}

#[test]
fn sync_renamed_role_keeps_join_and_commanders() {
    let stored = StoredRole { can_join: true, name: String::from("old"), commanders: vec![5, 6] };
    let (role, ops) = RoleData::new(7, &live(100, "new"), Some(stored));
    assert!(role.can_join);
    assert_eq!(role.commanders, vec![5, 6]);
    assert_eq!(role.name, "new");
    assert_eq!(ops.len(), 1);
    assert!(matches!(&ops[0], StoreOp::UpsertRole { role_id: 100, guild_id: 7, can_join: true, name } if name == "new"));
}

#[test]
fn sync_unchanged_role_writes_nothing() {
    let stored = StoredRole { can_join: true, name: String::from("same"), commanders: vec![1] };
    let (role, ops) = RoleData::new(7, &live(100, "same"), Some(stored));
    assert!(ops.is_empty());
    assert!(role.can_join);
    assert_eq!(role.commanders, vec![1]);
}

#[test]
fn cleanup_deletes_orphans() {
    let roster = vec![live(1, "a"), live(2, "b")];
    let stored = vec![1, 2, 3];
    assert_eq!(orphan_role_ids(&stored, &roster), vec![3]);
    let ops = cleanup_ops(&stored, &roster, true);
    assert_eq!(ops.len(), 2);
    assert!(matches!(ops[0], StoreOp::DeleteCommanders { role_id: 3 }));
    assert!(matches!(ops[1], StoreOp::DeleteRole { role_id: 3 }));
}

#[test]
fn no_cleanup_leaves_orphans() {
    let roster = vec![live(1, "a"), live(2, "b")];
    let ops = cleanup_ops(&vec![1, 2, 3], &roster, false);
    assert!(ops.is_empty());
}

#[test]
fn orphans_keep_stored_order() {
    let roster = vec![live(4, "d")];
    assert_eq!(orphan_role_ids(&vec![9, 4, 2, 9], &roster), vec![9, 2, 9]);
    assert!(orphan_role_ids(&vec![], &roster).is_empty());
}

#[test]
fn guild_without_row_has_defaults() {
    let roles = vec![RoleData { id: 1, can_join: false, name: String::from("r"), commanders: vec![] }];
    let g = Guild::new(5, None, vec![KeyedUser { user_id: 1, foreign_id: String::new(), foreign_id_type: 1 }], roles);
    assert_eq!(g.id, 5);
    assert_eq!(g.welcome_message, "");
    assert!(!g.gate_data.gate_enabled && !g.gate_data.allow_rejoin);
    assert_eq!(g.gate_data.key_role_id, 0);
    assert!(g.gate_data.keyed_users.is_empty());
    assert_eq!(g.role_data.len(), 1);
}

#[test]
fn guild_from_row() {
    let rec = GuildRecord { welcome_message: String::from("hi"), allow_rejoin: true, gate_enabled: false, key_role_id: 3 };
    let g = Guild::new(5, Some(rec), vec![KeyedUser { user_id: 1, foreign_id: String::from("f"), foreign_id_type: 1 }], vec![]);
    assert_eq!(g.welcome_message, "hi");
    assert!(g.gate_data.allow_rejoin);
    assert_eq!(g.gate_data.key_role_id, 3);
    assert_eq!(g.gate_data.keyed_users.len(), 1);
    let empty = GateData::empty();
    assert!(empty.keyed_users.is_empty());
}
