use jarvis::import::{import_guilds_from_file, tally, ImportError, ImportReport};

const DOC: &str = r#"{
  "1": {
    "greeting_message": "welcome one",
    "gate_data": {
      "allow_rejoin": true, "gate_enabled": false, "key_role_id": 44,
      "keyed_users": { "11": "steam-a", "12": -5, "13": true }
    },
    "role_data": {
      "100": { "can_join": true, "name": "red", "commanders": [7, 8] },
      "101": { "can_join": false, "name": "blue", "commanders": [] }
    }
  },
  "2": {
    "greeting_message": "",
    "gate_data": { "allow_rejoin": false, "gate_enabled": true, "key_role_id": 0, "keyed_users": {} },
    "role_data": {}
  }
}"#;

#[test]
fn import_reads_every_guild() {
    let gs = import_guilds_from_file(&String::from(DOC)).unwrap();
    assert_eq!(gs.len(), 2);
    let g = &gs[0];
    assert_eq!(g.id, 1);
    assert_eq!(g.welcome_message, "welcome one");
    assert!(g.gate_data.allow_rejoin);
    assert!(!g.gate_data.gate_enabled);
    assert_eq!(g.gate_data.key_role_id, 44);
    let ku = &g.gate_data.keyed_users;
    assert_eq!(ku.len(), 3);
    assert_eq!((ku[0].user_id, ku[0].foreign_id.as_str(), ku[0].foreign_id_type), (11, "steam-a", 1));
    assert_eq!((ku[1].user_id, ku[1].foreign_id.as_str()), (12, "-5"));
    assert_eq!((ku[2].user_id, ku[2].foreign_id.as_str()), (13, ""));
    assert_eq!(g.role_data.len(), 2);
    assert_eq!(g.role_data[0].id, 100);
    assert!(g.role_data[0].can_join);
    assert_eq!(g.role_data[0].name, "red");
    assert_eq!(g.role_data[0].commanders, vec![7, 8]);
    assert_eq!(g.role_data[1].id, 101);
    assert!(g.role_data[1].commanders.is_empty());
    assert_eq!(gs[1].id, 2);
    assert!(gs[1].gate_data.gate_enabled);
    assert!(gs[1].role_data.is_empty());
}

#[test]
fn import_of_array_is_parse_error() {
    let r = import_guilds_from_file(&String::from("[1, 2, 3]"));
    assert_eq!(r.unwrap_err(), ImportError::ParseError);
}

#[test]
fn import_of_malformed_text_is_parse_error() {
    let r = import_guilds_from_file(&String::from("{\"1\": "));
    assert_eq!(r.unwrap_err(), ImportError::ParseError);
}

#[test]
fn import_with_missing_field_is_parse_error() {
    let doc = r#"{"1": {"gate_data": {"allow_rejoin": true, "gate_enabled": true, "key_role_id": 1, "keyed_users": {}}, "role_data": {}}}"#;
    assert_eq!(import_guilds_from_file(&String::from(doc)).unwrap_err(), ImportError::ParseError);
}

#[test]
fn import_with_bad_guild_id_is_parse_error() {
    let doc = r#"{"x1": {"greeting_message": "", "gate_data": {"allow_rejoin": true, "gate_enabled": true, "key_role_id": 1, "keyed_users": {}}, "role_data": {}}}"#;
    assert_eq!(import_guilds_from_file(&String::from(doc)).unwrap_err(), ImportError::ParseError);
}

#[test]
fn import_with_fractional_foreign_id_is_parse_error() {
    let doc = r#"{"1": {"greeting_message": "", "gate_data": {"allow_rejoin": true, "gate_enabled": true, "key_role_id": 1, "keyed_users": {"3": 1.5}}, "role_data": {}}}"#;
    assert_eq!(import_guilds_from_file(&String::from(doc)).unwrap_err(), ImportError::ParseError);
}

#[test]
fn import_with_bad_commander_is_parse_error() {
    let doc = r#"{"1": {"greeting_message": "", "gate_data": {"allow_rejoin": true, "gate_enabled": true, "key_role_id": 1, "keyed_users": {}}, "role_data": {"5": {"can_join": true, "name": "n", "commanders": ["7"]}}}}"#;
    assert_eq!(import_guilds_from_file(&String::from(doc)).unwrap_err(), ImportError::ParseError);
}

#[test]
fn import_of_empty_object_is_no_guilds() {
    assert!(import_guilds_from_file(&String::from("{}")).unwrap().is_empty());
}

#[test]
fn partial_failure_counts_the_rest() {
    let r = tally(&vec![1, 2, 3], &vec![true, false, true]);
    assert_eq!(r.success_count, 2);
    assert_eq!(r.failed, vec![2]);
}

#[test]
fn report_records_outcomes() {
    let mut r = ImportReport::new();
    r.record(4, false);
    r.record(5, true);
    r.record(6, false);
    assert_eq!(r.success_count, 1);
    assert_eq!(r.failed, vec![4, 6]);
}
