use vstd::prelude::*;

use crate::json::{Json, as_array, as_bool, as_object, as_str, as_u64, find_member, member, parse_json, parsed_json};
use crate::model::{GateData, Guild, KeyedUser, RoleData};
use crate::text::{decimal_text, decimal_u64, i64_text, parse_u64};

verus! {

/// Why a bulk import stopped before saving anything.
#[derive(Debug, PartialEq, Eq, Structural)]
pub enum ImportError {
    /// The text is no JSON object of guilds, or an entry lacks a field or
    /// holds one of the wrong kind.
    ParseError,
}

/// The foreign id that a keyed-user value gives: a string as it is, an
/// integer that fits `i64` in decimal, nothing for any other number, and an
/// empty id for any other value.
pub open spec fn foreign_id_of(v: Json) -> Option<Seq<char>> {
    match v {
        Json::Str(s) => Some(s@),
        Json::Number { as_i64, .. } => match as_i64 {
            Some(i) => Some(decimal_text(i as int)),
            None => None,
        },
        _ => Some(Seq::empty()),
    }
}

/// A keyed-user member (user id → foreign id) can be read.
pub open spec fn keyed_entry_ok(e: (String, Json)) -> bool {
    decimal_u64(e.0@) is Some && foreign_id_of(e.1) is Some
}

/// `u` is what a keyed-user member reads as; imported keyed users are all of
/// classifier 1.
pub open spec fn keyed_user_from(e: (String, Json), u: KeyedUser) -> bool {
    &&& decimal_u64(e.0@) == Some(u.user_id)
    &&& foreign_id_of(e.1) == Some(u.foreign_id@)
    &&& u.foreign_id_type == 1
}

/// A number's value as a `u64`, where it has one.
pub open spec fn user_id_of(e: Json) -> u64 {
    as_u64(Some(e))->0
}

/// The user ids of an array in which every element is a `u64`.
pub open spec fn commanders_of(v: Option<Json>) -> Option<Seq<u64>> {
    match as_array(v) {
        Some(a) => if forall|i: int| 0 <= i < a.len() ==> #[trigger] as_u64(Some(a[i])) is Some {
            Some(a.map_values(|e: Json| user_id_of(e)))
        } else {
            None
        },
        None => None,
    }
}

/// A role member (role id → its fields) can be read.
pub open spec fn role_entry_ok(e: (String, Json)) -> bool {
    let m = as_object(Some(e.1))->0;
    &&& decimal_u64(e.0@) is Some
    &&& as_object(Some(e.1)) is Some
    &&& commanders_of(member(m, "commanders"@)) is Some
    &&& as_bool(member(m, "can_join"@)) is Some
    &&& as_str(member(m, "name"@)) is Some
}

/// `r` is what a role member reads as.
pub open spec fn role_from(e: (String, Json), r: RoleData) -> bool {
    let m = as_object(Some(e.1))->0;
    &&& decimal_u64(e.0@) == Some(r.id)
    &&& as_object(Some(e.1)) is Some
    &&& commanders_of(member(m, "commanders"@)) == Some(r.commanders@)
    &&& as_bool(member(m, "can_join"@)) == Some(r.can_join)
    &&& as_str(member(m, "name"@)) == Some(r.name@)
}

/// Every keyed-user member can be read.
pub open spec fn keyed_entries_ok(ku: Seq<(String, Json)>) -> bool {
    forall|i: int| 0 <= i < ku.len() ==> #[trigger] keyed_entry_ok(ku[i])
}

/// `us` is what the keyed-user members read as, one for one.
pub open spec fn keyed_users_read(ku: Seq<(String, Json)>, us: Seq<KeyedUser>) -> bool {
    us.len() == ku.len() && forall|i: int| 0 <= i < ku.len() ==> #[trigger] keyed_user_from(ku[i], us[i])
}

/// Every role member can be read.
pub open spec fn role_entries_ok(rd: Seq<(String, Json)>) -> bool {
    forall|i: int| 0 <= i < rd.len() ==> #[trigger] role_entry_ok(rd[i])
}

/// `rs` is what the role members read as, one for one.
pub open spec fn roles_read(rd: Seq<(String, Json)>, rs: Seq<RoleData>) -> bool {
    rs.len() == rd.len() && forall|i: int| 0 <= i < rd.len() ==> #[trigger] role_from(rd[i], rs[i])
}

/// Every guild member can be read.
pub open spec fn guild_entries_ok(m: Seq<(String, Json)>) -> bool {
    forall|i: int| 0 <= i < m.len() ==> #[trigger] guild_entry_ok(m[i])
}

/// `gs` is what the guild members read as, one for one.
pub open spec fn guilds_read(m: Seq<(String, Json)>, gs: Seq<Guild>) -> bool {
    gs.len() == m.len() && forall|i: int| 0 <= i < m.len() ==> #[trigger] guild_from(m[i], gs[i])
}

/// The members of the join-gate object of a guild's members.
pub open spec fn gate_of(m: Seq<(String, Json)>) -> Option<Seq<(String, Json)>> {
    as_object(member(m, "gate_data"@))
}

/// A guild member (guild id → its configuration) can be read.
pub open spec fn guild_entry_ok(e: (String, Json)) -> bool {
    let m = as_object(Some(e.1))->0;
    let gm = gate_of(m)->0;
    let ku = as_object(member(gm, "keyed_users"@))->0;
    let rd = as_object(member(m, "role_data"@))->0;
    &&& decimal_u64(e.0@) is Some
    &&& as_object(Some(e.1)) is Some
    &&& as_str(member(m, "greeting_message"@)) is Some
    &&& gate_of(m) is Some
    &&& as_bool(member(gm, "allow_rejoin"@)) is Some
    &&& as_bool(member(gm, "gate_enabled"@)) is Some
    &&& as_u64(member(gm, "key_role_id"@)) is Some
    &&& as_object(member(gm, "keyed_users"@)) is Some
    &&& keyed_entries_ok(ku)
    &&& as_object(member(m, "role_data"@)) is Some
    &&& role_entries_ok(rd)
}

/// `g` is what a guild member reads as: keyed users and roles in the order
/// of their members.
pub open spec fn guild_from(e: (String, Json), g: Guild) -> bool {
    let m = as_object(Some(e.1))->0;
    let gm = gate_of(m)->0;
    let ku = as_object(member(gm, "keyed_users"@))->0;
    let rd = as_object(member(m, "role_data"@))->0;
    &&& decimal_u64(e.0@) == Some(g.id)
    &&& as_object(Some(e.1)) is Some
    &&& as_str(member(m, "greeting_message"@)) == Some(g.welcome_message@)
    &&& gate_of(m) is Some
    &&& as_bool(member(gm, "allow_rejoin"@)) == Some(g.gate_data.allow_rejoin)
    &&& as_bool(member(gm, "gate_enabled"@)) == Some(g.gate_data.gate_enabled)
    &&& as_u64(member(gm, "key_role_id"@)) == Some(g.gate_data.key_role_id)
    &&& as_object(member(gm, "keyed_users"@)) is Some
    &&& keyed_users_read(ku, g.gate_data.keyed_users@)
    &&& as_object(member(m, "role_data"@)) is Some
    &&& roles_read(rd, g.role_data@)
}

/// What importing a document gives: for an object whose every member reads
/// as a guild, those guilds in member order; for anything else, a parse
/// error.
pub open spec fn imported(j: Json, r: Result<Vec<Guild>, ImportError>) -> bool {
    match j {
        Json::Object(m) => if guild_entries_ok(m@) {
            r matches Ok(gs) && guilds_read(m@, gs@)
        } else {
            r == Err::<Vec<Guild>, ImportError>(ImportError::ParseError)
        },
        _ => r == Err::<Vec<Guild>, ImportError>(ImportError::ParseError),
    }
}

/// The members of object member `key`.
fn get_object<'a>(m: &'a Vec<(String, Json)>, key: &str) -> (r: Option<&'a Vec<(String, Json)>>)
    ensures
        match r {
            Some(o) => as_object(member(m@, key@)) == Some(o@),
            None => as_object(member(m@, key@)) is None,
        },
{
    match find_member(m, key) {
        Some(i) => match &m[i].1 {
            Json::Object(o) => Some(o),
            _ => None,
        },
        None => None,
    }
}

/// Boolean member `key`.
fn get_bool(m: &Vec<(String, Json)>, key: &str) -> (r: Option<bool>)
    ensures
        r == as_bool(member(m@, key@)),
{
    match find_member(m, key) {
        Some(i) => match &m[i].1 {
            Json::Bool(b) => Some(*b),
            _ => None,
        },
        None => None,
    }
}

/// Member `key` as a `u64`.
fn get_u64(m: &Vec<(String, Json)>, key: &str) -> (r: Option<u64>)
    ensures
        r == as_u64(member(m@, key@)),
{
    match find_member(m, key) {
        Some(i) => match &m[i].1 {
            Json::Number { as_u64, .. } => *as_u64,
            _ => None,
        },
        None => None,
    }
}

/// String member `key`.
fn get_str(m: &Vec<(String, Json)>, key: &str) -> (r: Option<String>)
    ensures
        match r {
            Some(s) => as_str(member(m@, key@)) == Some(s@),
            None => as_str(member(m@, key@)) is None,
        },
{
    match find_member(m, key) {
        Some(i) => match &m[i].1 {
            Json::Str(s) => Some(s.clone()),
            _ => None,
        },
        None => None,
    }
}

/// Reads one keyed-user member.
pub fn keyed_user_from_entry(e: &(String, Json)) -> (r: Option<KeyedUser>)
    ensures
        r is Some == keyed_entry_ok(*e),
        r matches Some(u) ==> keyed_user_from(*e, u),
{
    let user_id = match parse_u64(e.0.as_str()) {
        Some(u) => u,
        None => return None,
    };
    let foreign_id = match &e.1 {
        Json::Str(s) => s.clone(),
        Json::Number { as_i64, .. } => match as_i64 {
            Some(i) => i64_text(*i),
            None => return None,
        },
        _ => String::new(),
    };
    Some(KeyedUser { user_id, foreign_id, foreign_id_type: 1 })
}

/// Member `key` as an array of user ids.
fn get_user_ids(m: &Vec<(String, Json)>, key: &str) -> (r: Option<Vec<u64>>)
    ensures
        match r {
            Some(c) => commanders_of(member(m@, key@)) == Some(c@),
            None => commanders_of(member(m@, key@)) is None,
        },
{
    let a = match find_member(m, key) {
        Some(i) => match &m[i].1 {
            Json::Array(a) => a,
            _ => return None,
        },
        None => return None,
    };
    let mut out: Vec<u64> = Vec::new();
    let n = a.len();
    for i in 0..n
        invariant
            n == a@.len(),
            as_array(member(m@, key@)) == Some(a@),
            forall|k: int| 0 <= k < i ==> #[trigger] as_u64(Some(a@[k])) is Some,
            out@ == a@.take(i as int).map_values(|e: Json| user_id_of(e)),
    {
        match &a[i] {
            Json::Number { as_u64: Some(u), .. } => {
                out.push(*u);
                assert(as_u64(Some(a@[i as int])) == Some(*u));
                assert(a@.take(i + 1).map_values(|e: Json| user_id_of(e)) =~= a@.take(i as int).map_values(|e: Json| user_id_of(e)).push(*u));
            },
            _ => {
                assert(as_u64(Some(a@[i as int])) is None);
                return None;
            },
        }
    }
    assert(a@.take(n as int) =~= a@);
    Some(out)
}

/// Reads one role member.
pub fn role_from_entry(e: &(String, Json)) -> (r: Option<RoleData>)
    ensures
        r is Some == role_entry_ok(*e),
        r matches Some(role) ==> role_from(*e, role),
{
    let id = match parse_u64(e.0.as_str()) {
        Some(u) => u,
        None => return None,
    };
    let m = match &e.1 {
        Json::Object(m) => m,
        _ => return None,
    };
    let commanders = match get_user_ids(m, "commanders") {
        Some(c) => c,
        None => return None,
    };
    let can_join = match get_bool(m, "can_join") {
        Some(b) => b,
        None => return None,
    };
    let name = match get_str(m, "name") {
        Some(n) => n,
        None => return None,
    };
    Some(RoleData { id, can_join, name, commanders })
}

/// Reads every keyed-user member of an object, in order; `None` if one
/// cannot be read.
fn keyed_users_from(ku: &Vec<(String, Json)>) -> (r: Option<Vec<KeyedUser>>)
    ensures
        r is Some == keyed_entries_ok(ku@),
        r matches Some(us) ==> keyed_users_read(ku@, us@),
{
    let mut out: Vec<KeyedUser> = Vec::new();
    let n = ku.len();
    for i in 0..n
        invariant
            n == ku@.len(),
            out@.len() == i,
            forall|k: int| 0 <= k < i ==> #[trigger] keyed_entry_ok(ku@[k]),
            forall|k: int| 0 <= k < i ==> #[trigger] keyed_user_from(ku@[k], out@[k]),
    {
        match keyed_user_from_entry(&ku[i]) {
            Some(u) => out.push(u),
            None => return None,
        }
    }
    Some(out)
}

/// Reads every role member of an object, in order; `None` if one cannot be
/// read.
fn roles_from(rd: &Vec<(String, Json)>) -> (r: Option<Vec<RoleData>>)
    ensures
        r is Some == role_entries_ok(rd@),
        r matches Some(rs) ==> roles_read(rd@, rs@),
{
    let mut out: Vec<RoleData> = Vec::new();
    let n = rd.len();
    for i in 0..n
        invariant
            n == rd@.len(),
            out@.len() == i,
            forall|k: int| 0 <= k < i ==> #[trigger] role_entry_ok(rd@[k]),
            forall|k: int| 0 <= k < i ==> #[trigger] role_from(rd@[k], out@[k]),
    {
        match role_from_entry(&rd[i]) {
            Some(role) => out.push(role),
            None => return None,
        }
    }
    Some(out)
}

/// Reads one guild member: its id from the member name, and its greeting,
/// gate data, keyed users and roles from the fields.
pub fn guild_from_entry(e: &(String, Json)) -> (r: Option<Guild>)
    ensures
        r is Some == guild_entry_ok(*e),
        r matches Some(g) ==> guild_from(*e, g),
{
    let id = match parse_u64(e.0.as_str()) {
        Some(u) => u,
        None => return None,
    };
    let m = match &e.1 {
        Json::Object(m) => m,
        _ => return None,
    };
    let gm = match get_object(m, "gate_data") {
        Some(o) => o,
        None => return None,
    };
    let ku = match get_object(gm, "keyed_users") {
        Some(o) => o,
        None => return None,
    };
    let keyed_users = match keyed_users_from(ku) {
        Some(us) => us,
        None => return None,
    };
    let allow_rejoin = match get_bool(gm, "allow_rejoin") {
        Some(b) => b,
        None => return None,
    };
    let gate_enabled = match get_bool(gm, "gate_enabled") {
        Some(b) => b,
        None => return None,
    };
    let key_role_id = match get_u64(gm, "key_role_id") {
        Some(u) => u,
        None => return None,
    };
    let rd = match get_object(m, "role_data") {
        Some(o) => o,
        None => return None,
    };
    let role_data = match roles_from(rd) {
        Some(rs) => rs,
        None => return None,
    };
    let welcome_message = match get_str(m, "greeting_message") {
        Some(s) => s,
        None => return None,
    };
    Some(Guild {
        id,
        welcome_message,
        gate_data: GateData { allow_rejoin, gate_enabled, key_role_id, keyed_users },
        role_data,
    })
}

/// Reads a document of guilds: an object from guild id to configuration.
/// Anything else, or any member that cannot be read, is a parse error for
/// the whole document.
pub fn guilds_from_json(j: &Json) -> (r: Result<Vec<Guild>, ImportError>)
    ensures
        imported(*j, r),
{
    let m = match j {
        Json::Object(m) => m,
        _ => return Err(ImportError::ParseError),
    };
    let mut out: Vec<Guild> = Vec::new();
    let n = m.len();
    for i in 0..n
        invariant
            n == m@.len(),
            *j == Json::Object(*m),
            out@.len() == i,
            forall|k: int| 0 <= k < i ==> #[trigger] guild_entry_ok(m@[k]),
            forall|k: int| 0 <= k < i ==> #[trigger] guild_from(m@[k], out@[k]),
    {
        match guild_from_entry(&m[i]) {
            Some(g) => out.push(g),
            None => {
                assert(!guild_entry_ok(m@[i as int]));
                return Err(ImportError::ParseError);
            },
        }
    }
    Ok(out)
}

/// Parses the text of a bulk import into the guilds to save, in member
/// order. Text that is no JSON is a parse error too. Nothing is written
/// here: a parse error comes before any save.
pub fn import_guilds_from_file(buffer: &String) -> (r: Result<Vec<Guild>, ImportError>)
    ensures
        match parsed_json(buffer@) {
            Some(j) => imported(j, r),
            None => r == Err::<Vec<Guild>, ImportError>(ImportError::ParseError),
        },
{
    match parse_json(buffer.as_str()) {
        Some(j) => guilds_from_json(&j),
        None => Err(ImportError::ParseError),
    }
}

/// How a bulk import went: how many guilds were saved, and the ids of those
/// whose save failed, in the order they came.
#[derive(Debug)]
pub struct ImportReport {
    pub success_count: u64,
    pub failed: Vec<u64>,
}

/// How many of the outcomes are successes.
pub open spec fn saved_count(saved: Seq<bool>) -> nat
    decreases saved.len(),
{
    if saved.len() == 0 {
        0
    } else {
        saved_count(saved.drop_last()) + if saved.last() { 1nat } else { 0nat }
    }
}

/// The ids whose outcome is a failure, in order.
pub open spec fn failed_ids(ids: Seq<u64>, saved: Seq<bool>) -> Seq<u64>
    decreases ids.len(),
{
    if ids.len() == 0 || saved.len() == 0 {
        Seq::empty()
    } else if saved.last() {
        failed_ids(ids.drop_last(), saved.drop_last())
    } else {
        failed_ids(ids.drop_last(), saved.drop_last()).push(ids.last())
    }
}

impl ImportReport {
    /// A report of an import that has saved nothing yet.
    pub fn new() -> (r: ImportReport)
        ensures
            r.success_count == 0,
            r.failed@.len() == 0,
    {
        ImportReport { success_count: 0, failed: Vec::new() }
    }

    /// Records the outcome of saving guild `guild_id`: a success counts, a
    /// failure is listed; neither stops the import.
    pub fn record(&mut self, guild_id: u64, saved: bool)
        requires
            old(self).success_count < u64::MAX,
        ensures
            final(self).success_count == old(self).success_count + if saved { 1int } else { 0int },
            final(self).failed@ == if saved { old(self).failed@ } else { old(self).failed@.push(guild_id) },
    {
        if saved {
            self.success_count = self.success_count + 1;
        } else {
            self.failed.push(guild_id);
        }
    }
}

/// The report of an import whose guilds `ids` were saved with outcomes
/// `saved`, one for one.
pub fn tally(ids: &Vec<u64>, saved: &Vec<bool>) -> (r: ImportReport)
    requires
        ids@.len() == saved@.len(),
    ensures
        r.success_count == saved_count(saved@),
        r.failed@ == failed_ids(ids@, saved@),
        r.success_count + r.failed@.len() == ids@.len(),
{
    let mut r = ImportReport::new();
    let n = ids.len();
    for i in 0..n
        invariant
            n == ids@.len(),
            n == saved@.len(),
            r.success_count == saved_count(saved@.take(i as int)),
            r.failed@ == failed_ids(ids@.take(i as int), saved@.take(i as int)),
            r.success_count + r.failed@.len() == i,
    {
        assert(saved@.take(i + 1).drop_last() =~= saved@.take(i as int));
        assert(ids@.take(i + 1).drop_last() =~= ids@.take(i as int));
        r.record(ids[i], saved[i]);
    }
    assert(saved@.take(n as int) =~= saved@);
    assert(ids@.take(n as int) =~= ids@);
    r
}

} // verus!
