//! Roles and role-based permission checks.
use vstd::prelude::*;

use crate::error::{message, AppError, ErrorKind};
use crate::text::{chars_of, str_eq};

verus! {

/// The role of a user.
#[derive(Clone, Copy, Debug, PartialEq, Eq, Structural)]
pub enum UserRole {
    Admin,
    Accountant,
    Auditor,
    User,
}

pub open spec fn role_of(name: Seq<char>) -> UserRole {
    if name == "admin"@ {
        UserRole::Admin
    } else if name == "accountant"@ {
        UserRole::Accountant
    } else if name == "auditor"@ {
        UserRole::Auditor
    } else {
        UserRole::User
    }
}

/// The role that a role name stands for; unknown names are plain users.
pub fn parse_role(name: &str) -> (r: UserRole)
    ensures
        r == role_of(name@),
{
    if str_eq(name, "admin") {
        UserRole::Admin
    } else if str_eq(name, "accountant") {
        UserRole::Accountant
    } else if str_eq(name, "auditor") {
        UserRole::Auditor
    } else {
        UserRole::User
    }
}

/// A top-level JSON value as far as the permission check reads it.
pub enum JsonScalar {
    Bool(bool),
    Other,
}

/// The top level of a JSON document: an object's entries, or anything else.
pub enum JsonTop {
    Object(Vec<(String, JsonScalar)>),
    NotObject,
}

/// An object's entries as `(key, Some(b))` for a boolean value `b` and
/// `(key, None)` for any other value; `None` for a document that is not an
/// object.
pub type JsonTopView = Option<Seq<(Seq<char>, Option<bool>)>>;

pub open spec fn scalar_view(s: JsonScalar) -> Option<bool> {
    match s {
        JsonScalar::Bool(b) => Some(b),
        JsonScalar::Other => None,
    }
}

impl View for JsonTop {
    type V = JsonTopView;

    open spec fn view(&self) -> JsonTopView {
        match self {
            JsonTop::Object(entries) => Some(
                entries@.map_values(|e: (String, JsonScalar)| (e.0@, scalar_view(e.1))),
            ),
            JsonTop::NotObject => None,
        }
    }
}

/// What `serde_json` parses from a text: the top level's entries, or the
/// text of the parse error.
pub uninterp spec fn json_top(text: Seq<char>) -> Result<JsonTopView, Seq<char>>;

/// Parses `text` with `serde_json::from_str::<Value>`: the entries of a
/// top-level object (booleans kept, other values marked), `NotObject` for
/// any other document, or the `Display` text of the error. The result is
/// named `json_top` of the text; nothing more is claimed of it.
#[verifier::external_body]
fn read_json_top(text: &str) -> (r: Result<JsonTop, String>)
    ensures
        match r {
            Ok(t) => json_top(text@) == Ok::<JsonTopView, Seq<char>>(t@),
            Err(m) => json_top(text@) == Err::<JsonTopView, Seq<char>>(m@),
        },
{
    match serde_json::from_str::<serde_json::Value>(text) {
        Ok(serde_json::Value::Object(map)) => Ok(
            JsonTop::Object(
                map.into_iter().map(|(k, v)| match v {
                    serde_json::Value::Bool(b) => (k, JsonScalar::Bool(b)),
                    _ => (k, JsonScalar::Other),
                }).collect(),
            ),
        ),
        Ok(_) => Ok(JsonTop::NotObject),
        Err(e) => Err(e.to_string()),
    }
}

/// `value.get(key).and_then(as_bool).unwrap_or(false)`: whether the first
/// entry named `key` is the boolean `true`.
pub open spec fn flag_in(entries: Seq<(Seq<char>, Option<bool>)>, key: Seq<char>) -> bool
    decreases entries.len(),
{
    if entries.len() == 0 {
        false
    } else if entries[0].0 == key {
        entries[0].1 == Some(true)
    } else {
        flag_in(entries.skip(1), key)
    }
}

pub open spec fn flag(top: JsonTopView, key: Seq<char>) -> bool {
    match top {
        Some(entries) => flag_in(entries, key),
        None => false,
    }
}

pub open spec fn starts_with(s: Seq<char>, prefix: Seq<char>) -> bool {
    prefix.len() <= s.len() && s.take(prefix.len() as int) == prefix
}

/// Whether a role with these permissions has `permission`: "all" grants
/// everything, "read_all" grants every permission whose name starts with
/// "read", and otherwise the permission's own flag decides.
pub open spec fn granted(top: JsonTopView, permission: Seq<char>) -> bool {
    flag(top, "all"@) || (starts_with(permission, "read"@) && flag(top, "read_all"@)) || flag(
        top,
        permission,
    )
}

/// Whether the JSON permissions of a role grant `permission`; an
/// unreadable document is an internal error.
pub fn has_permission(permissions_json: &str, permission: &str) -> (r: Result<bool, AppError>)
    ensures
        match json_top(permissions_json@) {
            Ok(top) => r == Ok::<bool, AppError>(granted(top, permission@)),
            Err(m) => r matches Err(e) && e.kind_and_message() == (
                ErrorKind::Internal,
                "Invalid permissions JSON: "@ + m,
            ),
        },
{
    match read_json_top(permissions_json) {
        Ok(top) => Ok(permission_granted(&top, permission)),
        Err(m) => Err(AppError::Internal(message("Invalid permissions JSON: ", m.as_str()))),
    }
}

/// The permission decision on read permissions.
pub fn permission_granted(top: &JsonTop, permission: &str) -> (b: bool)
    ensures
        b == granted(top@, permission@),
{
    if json_flag(top, "all") {
        return true;
    }
    if starts_with_read(permission) && json_flag(top, "read_all") {
        return true;
    }
    json_flag(top, permission)
}

fn starts_with_read(s: &str) -> (b: bool)
    ensures
        b == starts_with(s@, "read"@),
{
    let v = chars_of(s);
    let p = chars_of("read");
    if v.len() < p.len() {
        return false;
    }
    let mut i: usize = 0;
    while i < p.len()
        invariant
            i <= p.len() <= v.len(),
            p@ == "read"@,
            v@ == s@,
            forall|j: int| 0 <= j < i ==> v@[j] == p@[j],
        decreases p.len() - i,
    {
        if v[i] != p[i] {
            assert(v@.take(p@.len() as int)[i as int] != p@[i as int]);
            return false;
        }
        i = i + 1;
    }
    assert(v@.take(p@.len() as int) =~= p@);
    true
}

/// Whether the first entry named `key` is the boolean `true`.
fn json_flag(top: &JsonTop, key: &str) -> (b: bool)
    ensures
        b == flag(top@, key@),
{
    match top {
        JsonTop::Object(entries) => {
            let ghost ev = top@->0;
            let mut i: usize = 0;
            assert(ev.skip(0) =~= ev);
            while i < entries.len()
                invariant
                    i <= entries.len(),
                    ev == entries@.map_values(
                        |e: (String, JsonScalar)| (e.0@, scalar_view(e.1)),
                    ),
                    flag_in(ev, key@) == flag_in(ev.skip(i as int), key@),
                    top@ == Some(ev),
                decreases entries.len() - i,
            {
                assert(ev.skip(i as int)[0] == ev[i as int]);
                assert(ev[i as int] == (entries@[i as int].0@, scalar_view(entries@[i as int].1)));
                assert(ev.skip(i as int).skip(1) =~= ev.skip(i + 1));
                if str_eq(entries[i].0.as_str(), key) {
                    return match entries[i].1 {
                        JsonScalar::Bool(b) => b,
                        JsonScalar::Other => false,
                    };
                }
                i = i + 1;
            }
            false
        },
        JsonTop::NotObject => false,
    }
}

/// A role with the permission "all" is granted every permission, and one
/// with "read_all" every permission whose name starts with "read".
pub proof fn lemma_all_grants_everything(top: JsonTopView, permission: Seq<char>)
    ensures
        flag(top, "all"@) ==> granted(top, permission),
        flag(top, "read_all"@) && starts_with(permission, "read"@) ==> granted(top, permission),
        !flag(top, "all"@) && !flag(top, "read_all"@) ==> granted(top, permission) == flag(
            top,
            permission,
        ),
{
}

} // verus!
