//! Terraform adapter: turn a `terraform show -json` plan document into the IR.
//!
//! Only the cost-relevant slice of the schema is read; other members are ignored. See
//! <https://developer.hashicorp.com/terraform/internals/json-format>.
//!
//! The schema read here:
//! - the document is a record (see [`record_shaped`]) of `format_version`, a string (or
//!   absent / null), and `resource_changes`, an array (or absent / null);
//! - each resource change is a record of the strings `address`, `type`, `name` and `mode`,
//!   and `change`: a record of `actions`, an array of strings, and the optional `before`,
//!   `after` and `after_unknown`.
//!
//! A record is read as an object by member names, where other members are ignored and a
//! read member may not repeat, or as an array by position.

use vstd::prelude::*;
use crate::ir::{Action, Attributes, ResourceChange};
use crate::json::{field, record_fields, record_shaped, JsonValue};
use crate::text::str_eq;

verus! {

/// Errors that can occur while reading a Terraform plan document.
#[derive(Debug, PartialEq)]
pub enum ParseError {
    /// The input is not JSON, or its structure does not follow the plan schema.
    Json(String),
    /// The input is not a terraform plan (missing `format_version` or `resource_changes`).
    NotAPlan,
    /// The plan's `format_version` has a major version other than 1.
    UnsupportedFormat { found: String },
}

/// The plan format versions accepted: major version 1 (Terraform 1.1+), i.e. the text
/// before the first `.` is exactly `1`.
pub open spec fn supported_format(version: Seq<char>) -> bool {
    &&& version.len() >= 1
    &&& version[0] == '1'
    &&& (version.len() == 1 || version[1] == '.')
}

/// The action a list of Terraform action names stands for; `None` for actions without a
/// cost impact (`no-op`, `read`) and anything unrecognized.
pub open spec fn action_for(names: Seq<Seq<char>>) -> Option<Action> {
    if names == seq!["create"@] {
        Some(Action::Create)
    } else if names == seq!["update"@] {
        Some(Action::Update)
    } else if names == seq!["delete"@] {
        Some(Action::Delete)
    } else if names == seq!["create"@, "delete"@] || names == seq!["delete"@, "create"@] {
        Some(Action::Replace)
    } else {
        None
    }
}

/// The string held by an optional member.
pub open spec fn string_of(v: Option<JsonValue>) -> Option<String> {
    match v {
        Some(JsonValue::Str(s)) => Some(s),
        _ => None,
    }
}

/// A plan-side value as attributes: an object becomes attributes, anything else none.
pub open spec fn attributes_of(v: Option<JsonValue>) -> Option<Attributes> {
    match v {
        Some(JsonValue::Object(entries)) => Some(Attributes { entries }),
        _ => None,
    }
}

/// Every element is a string.
pub open spec fn all_strings(items: Seq<JsonValue>) -> bool {
    forall|i: int| 0 <= i < items.len() ==> (#[trigger] items[i]) is Str
}

/// The strings held by a sequence of string values.
pub open spec fn names_of(items: Seq<JsonValue>) -> Seq<Seq<char>> {
    items.map_values(|v: JsonValue| match v {
        JsonValue::Str(s) => s@,
        _ => Seq::<char>::empty(),
    })
}

/// The members of a plan document that the schema reads.
pub open spec fn plan_keys() -> Seq<Seq<char>> {
    seq!["format_version"@, "resource_changes"@]
}

/// The members of a resource change that the schema reads.
pub open spec fn change_keys() -> Seq<Seq<char>> {
    seq!["address"@, "type"@, "name"@, "mode"@, "change"@]
}

/// The members of a resource change's `change` object that the schema reads.
pub open spec fn detail_keys() -> Seq<Seq<char>> {
    seq!["actions"@, "before"@, "after"@, "after_unknown"@]
}

/// A resource change follows the schema: it is a record of its five fields (an object in
/// which none of them is repeated, or an array of exactly five elements), with string
/// `address`, `type`, `name` and `mode`, and a `change` that is a record of its four fields
/// (an object, or an array of one to four elements) whose `actions` is an array of strings.
pub open spec fn change_well_formed(v: JsonValue) -> bool {
    &&& record_shaped(v, change_keys(), 5)
    &&& string_of(field(v, 0, "address"@)) is Some
    &&& string_of(field(v, 1, "type"@)) is Some
    &&& string_of(field(v, 2, "name"@)) is Some
    &&& string_of(field(v, 3, "mode"@)) is Some
    &&& match field(v, 4, "change"@) {
        Some(d) => record_shaped(d, detail_keys(), 1) && match field(d, 0, "actions"@) {
            Some(JsonValue::Array(items)) => all_strings(items@),
            _ => false,
        },
        None => false,
    }
}

/// The IR for one resource change of the plan: present only for a managed resource
/// whose actions have a cost impact.
pub open spec fn normalized_change(v: JsonValue) -> Option<ResourceChange> {
    match field(v, 4, "change"@) {
        Some(d) => match field(d, 0, "actions"@) {
            Some(JsonValue::Array(items)) => {
                let mode = string_of(field(v, 3, "mode"@));
                if mode is Some && mode->0@ == "managed"@ && action_for(names_of(items@)) is Some {
                    Some(ResourceChange {
                        address: string_of(field(v, 0, "address"@))->0,
                        rtype: string_of(field(v, 1, "type"@))->0,
                        name: string_of(field(v, 2, "name"@))->0,
                        action: action_for(names_of(items@))->0,
                        before: attributes_of(field(d, 1, "before"@)),
                        after: attributes_of(field(d, 2, "after"@)),
                        after_unknown: attributes_of(field(d, 3, "after_unknown"@)),
                    })
                } else {
                    None
                }
            },
            _ => None,
        },
        None => None,
    }
}

/// The IR for a plan's resource changes, in plan order: the changes that
/// [`normalized_change`] keeps.
pub open spec fn kept_changes(items: Seq<JsonValue>) -> Seq<ResourceChange>
    decreases items.len(),
{
    if items.len() == 0 {
        Seq::empty()
    } else {
        let rest = kept_changes(items.drop_last());
        match normalized_change(items.last()) {
            Some(rc) => rest.push(rc),
            None => rest,
        }
    }
}

/// The plan document follows the schema: it is a record of its two fields (an object in
/// which neither is repeated, or an array of exactly two elements), whose
/// `format_version` is a string or null or absent, and whose `resource_changes` is an
/// array of well-formed resource changes, or null, or absent.
pub open spec fn plan_well_formed(doc: JsonValue) -> bool {
    &&& record_shaped(doc, plan_keys(), 2)
    &&& match field(doc, 0, "format_version"@) {
        None | Some(JsonValue::Null) | Some(JsonValue::Str(_)) => true,
        _ => false,
    }
    &&& match field(doc, 1, "resource_changes"@) {
        None | Some(JsonValue::Null) => true,
        Some(JsonValue::Array(items)) => forall|i: int|
            0 <= i < items@.len() ==> change_well_formed(#[trigger] items@[i]),
        _ => false,
    }
}

/// The plan's `format_version`, when it is a string.
pub open spec fn plan_format_version(doc: JsonValue) -> Option<String> {
    string_of(field(doc, 0, "format_version"@))
}

/// The plan's `resource_changes`, when it is an array.
pub open spec fn plan_change_items(doc: JsonValue) -> Option<Seq<JsonValue>> {
    match field(doc, 1, "resource_changes"@) {
        Some(JsonValue::Array(items)) => Some(items@),
        _ => None,
    }
}

/// What reading a plan document gives: a malformed document is a `Json` error; a missing
/// `format_version` or `resource_changes` is `NotAPlan`, never zero changes; a major
/// version other than 1 is `UnsupportedFormat`.
pub open spec fn plan_outcome_ok(doc: JsonValue, r: Result<Vec<ResourceChange>, ParseError>) -> bool {
    if !plan_well_formed(doc) {
        r matches Err(ParseError::Json(_))
    } else {
        match plan_format_version(doc) {
            None => r matches Err(ParseError::NotAPlan),
            Some(v) => if !supported_format(v@) {
                r matches Err(ParseError::UnsupportedFormat { found }) && found@ == v@
            } else {
                match plan_change_items(doc) {
                    None => r matches Err(ParseError::NotAPlan),
                    Some(items) => r matches Ok(changes) && changes@ == kept_changes(items),
                }
            },
        }
    }
}

/// A `Json` error whose message is `what`.
fn malformed(what: &str) -> (r: ParseError)
    ensures
        r matches ParseError::Json(msg) && msg@ == what@,
{
    ParseError::Json(what.to_owned())
}

/// Confirm the document is a Terraform plan we understand: `format_version` must be present
/// (otherwise it isn't a plan at all) and its major version must be supported.
pub fn check_format(format_version: Option<&str>) -> (r: Result<(), ParseError>)
    ensures
        match format_version {
            None => r matches Err(ParseError::NotAPlan),
            Some(v) => if supported_format(v@) {
                r is Ok
            } else {
                r matches Err(ParseError::UnsupportedFormat { found }) && found@ == v@
            },
        },
{
    match format_version {
        None => Err(ParseError::NotAPlan),
        Some(version) => {
            let n = version.unicode_len();
            if n >= 1 && version.get_char(0) == '1' && (n == 1 || version.get_char(1) == '.') {
                Ok(())
            } else {
                Err(ParseError::UnsupportedFormat { found: version.to_owned() })
            }
        },
    }
}

/// [`action_for`], element by element.
proof fn lemma_action_for(names: Seq<Seq<char>>)
    ensures
        action_for(names) == (if names.len() == 1 {
            if names[0] == "create"@ {
                Some(Action::Create)
            } else if names[0] == "update"@ {
                Some(Action::Update)
            } else if names[0] == "delete"@ {
                Some(Action::Delete)
            } else {
                None
            }
        } else if names.len() == 2 && ((names[0] == "create"@ && names[1] == "delete"@) || (
        names[0] == "delete"@ && names[1] == "create"@)) {
            Some(Action::Replace)
        } else {
            None
        }),
{
    reveal_strlit("create");
    reveal_strlit("update");
    reveal_strlit("delete");
    let c = seq!["create"@];
    let u = seq!["update"@];
    let d = seq!["delete"@];
    let cd = seq!["create"@, "delete"@];
    let dc = seq!["delete"@, "create"@];
    assert(c.len() == 1 && u.len() == 1 && d.len() == 1 && cd.len() == 2 && dc.len() == 2);
    if names.len() == 1 {
        if names[0] == "create"@ {
            assert(names =~= c);
        } else if names[0] == "update"@ {
            assert(names =~= u);
            assert(names != c) by {
                assert(names[0][0] != c[0][0]);
            }
        } else if names[0] == "delete"@ {
            assert(names =~= d);
            assert(names != c) by {
                assert(names[0][0] != c[0][0]);
            }
            assert(names != u) by {
                assert(names[0][0] != u[0][0]);
            }
        } else {
            assert(names != c) by {
                assert(names[0] != c[0]);
            }
            assert(names != u) by {
                assert(names[0] != u[0]);
            }
            assert(names != d) by {
                assert(names[0] != d[0]);
            }
        }
    } else if names.len() == 2 {
        if names[0] == "create"@ && names[1] == "delete"@ {
            assert(names =~= cd);
        } else if names[0] == "delete"@ && names[1] == "create"@ {
            assert(names =~= dc);
        } else {
            assert(names != cd) by {
                if names == cd {
                    assert(names[0] == cd[0] && names[1] == cd[1]);
                }
            }
            assert(names != dc) by {
                if names == dc {
                    assert(names[0] == dc[0] && names[1] == dc[1]);
                }
            }
        }
    }
}

/// Map Terraform's `change.actions` array to an [`Action`].
///
/// Returns `None` for actions with no cost impact (`no-op`, `read`). Replacement is encoded
/// by Terraform as either ordering of create+delete; both normalize to [`Action::Replace`].
pub fn map_action(actions: &[String]) -> (r: Option<Action>)
    ensures
        r == action_for(actions@.map_values(|a: String| a@)),
{
    let ghost names = actions@.map_values(|a: String| a@);
    proof {
        reveal_strlit("create");
        reveal_strlit("update");
        reveal_strlit("delete");
        lemma_action_for(names);
    }
    if actions.len() == 1 {
        let a = actions[0].as_str();
        assert(names[0] == a@);
        if str_eq(a, "create") {
            Some(Action::Create)
        } else if str_eq(a, "update") {
            Some(Action::Update)
        } else if str_eq(a, "delete") {
            Some(Action::Delete)
        } else {
            None
        }
    } else if actions.len() == 2 {
        let a = actions[0].as_str();
        let b = actions[1].as_str();
        assert(names[0] == a@ && names[1] == b@);
        if (str_eq(a, "create") && str_eq(b, "delete")) || (str_eq(a, "delete") && str_eq(b, "create")) {
            Some(Action::Replace)
        } else {
            None
        }
    } else {
        None
    }
}

/// Convert a plan-side value (a JSON object, or anything else) into [`Attributes`].
pub fn as_attributes(value: Option<JsonValue>) -> (r: Option<Attributes>)
    ensures
        r == attributes_of(value),
{
    match value {
        Some(JsonValue::Object(entries)) => Some(Attributes { entries }),
        _ => None,
    }
}

/// Read one resource change of the plan: `Ok(None)` for a data source or a change
/// without cost impact; an error when the change does not follow the schema.
fn decode_change(v: JsonValue) -> (r: Result<Option<ResourceChange>, ParseError>)
    ensures
        change_well_formed(v) ==> r == Ok::<Option<ResourceChange>, ParseError>(normalized_change(v)),
        !change_well_formed(v) ==> r matches Err(ParseError::Json(_)),
{
    let ghost v0 = v;
    proof {
        reveal_strlit("address");
        reveal_strlit("type");
        reveal_strlit("name");
        reveal_strlit("mode");
        reveal_strlit("change");
        reveal_strlit("actions");
        reveal_strlit("before");
        reveal_strlit("after");
        reveal_strlit("after_unknown");
        reveal_strlit("managed");
    }
    let keys: Vec<&str> = vec!["address", "type", "name", "mode", "change"];
    assert(forall|i: int, j: int| 0 <= i < j < keys@.len() ==> keys@[i]@[0] != keys@[j]@[0]);
    assert(keys@.map_values(|k: &str| k@) =~= change_keys());
    let mut taken = match record_fields(v, &keys, 5) {
        Some(f) => f,
        None => return Err(malformed("a resource change is not a record of its five fields")),
    };
    assert(taken@[4] == field(v0, 4, "change"@));
    assert(taken@[3] == field(v0, 3, "mode"@));
    assert(taken@[2] == field(v0, 2, "name"@));
    assert(taken@[1] == field(v0, 1, "type"@));
    assert(taken@[0] == field(v0, 0, "address"@));
    let change = taken.pop().unwrap();
    let mode = taken.pop().unwrap();
    let name = taken.pop().unwrap();
    let rtype = taken.pop().unwrap();
    let address = taken.pop().unwrap();
    let address = match address {
        Some(JsonValue::Str(s)) => s,
        _ => return Err(malformed("a resource change has no string `address`")),
    };
    let rtype = match rtype {
        Some(JsonValue::Str(s)) => s,
        _ => return Err(malformed("a resource change has no string `type`")),
    };
    let name = match name {
        Some(JsonValue::Str(s)) => s,
        _ => return Err(malformed("a resource change has no string `name`")),
    };
    let mode = match mode {
        Some(JsonValue::Str(s)) => s,
        _ => return Err(malformed("a resource change has no string `mode`")),
    };
    let delta = match change {
        Some(c) => c,
        None => return Err(malformed("a resource change has no `change`")),
    };
    let ghost d0 = delta;
    let keys: Vec<&str> = vec!["actions", "before", "after", "after_unknown"];
    assert(keys@[0]@[1] != keys@[2]@[1]);
    assert(keys@[2]@.len() != keys@[3]@.len());
    assert(keys@[0]@[1] != keys@[3]@[1]);
    assert(forall|i: int, j: int| 0 <= i < j < keys@.len() ==> keys@[i]@ != keys@[j]@);
    assert(keys@.map_values(|k: &str| k@) =~= detail_keys());
    let mut taken = match record_fields(delta, &keys, 1) {
        Some(f) => f,
        None => return Err(malformed("a resource change's `change` is not a record of its fields")),
    };
    assert(taken@[3] == field(d0, 3, "after_unknown"@));
    assert(taken@[2] == field(d0, 2, "after"@));
    assert(taken@[1] == field(d0, 1, "before"@));
    assert(taken@[0] == field(d0, 0, "actions"@));
    let after_unknown = taken.pop().unwrap();
    let after = taken.pop().unwrap();
    let before = taken.pop().unwrap();
    let actions = taken.pop().unwrap();
    let items = match actions {
        Some(JsonValue::Array(items)) => items,
        _ => return Err(malformed("a resource change has no array `change.actions`")),
    };
    let mut names: Vec<String> = Vec::new();
    let mut i: usize = 0;
    #[verifier::loop_isolation(false)]
    while i < items.len()
        invariant
            i <= items@.len(),
            names@.len() == i,
            forall|j: int| 0 <= j < i ==> (#[trigger] items@[j]) is Str && names@[j]@ == items@[j]->Str_0@,
        decreases items@.len() - i,
    {
        match &items[i] {
            JsonValue::Str(s) => names.push(s.clone()),
            _ => {
                assert(!all_strings(items@));
                return Err(malformed("`change.actions` holds a value that is not a string"));
            },
        }
        i = i + 1;
    }
    assert(names@.map_values(|a: String| a@) =~= names_of(items@));
    let action = map_action(names.as_slice());
    if str_eq(mode.as_str(), "managed") {
        match action {
            Some(a) => Ok(Some(ResourceChange {
                address,
                rtype,
                name,
                action: a,
                before: as_attributes(before),
                after: as_attributes(after),
                after_unknown: as_attributes(after_unknown),
            })),
            None => Ok(None),
        }
    } else {
        Ok(None)
    }
}

/// Read a plan's resource changes, keeping those with a cost impact, in plan order.
fn decode_changes(items: Vec<JsonValue>) -> (r: Result<Vec<ResourceChange>, ParseError>)
    ensures
        (forall|i: int| 0 <= i < items@.len() ==> change_well_formed(#[trigger] items@[i]))
            ==> (r matches Ok(changes) && changes@ == kept_changes(items@)),
        !(forall|i: int| 0 <= i < items@.len() ==> change_well_formed(#[trigger] items@[i]))
            ==> r matches Err(ParseError::Json(_)),
{
    let ghost all = items@;
    let mut rest = items;
    let mut out: Vec<ResourceChange> = Vec::new();
    let ghost mut k: int = 0;
    assert(all.take(0) =~= Seq::<JsonValue>::empty());
    assert(all.skip(0) =~= all);
    #[verifier::loop_isolation(false)]
    while rest.len() > 0
        invariant
            0 <= k <= all.len(),
            rest@ == all.skip(k),
            forall|j: int| 0 <= j < k ==> change_well_formed(#[trigger] all[j]),
            out@ == kept_changes(all.take(k)),
        decreases rest@.len(),
    {
        let v = rest.remove(0);
        assert(v == all[k]);
        assert(all.take(k + 1).drop_last() =~= all.take(k));
        assert(all.take(k + 1).last() == all[k]);
        match decode_change(v) {
            Err(e) => {
                assert(!change_well_formed(all[k]));
                return Err(e);
            },
            Ok(Some(rc)) => {
                out.push(rc);
            },
            Ok(None) => {},
        }
        proof {
            k = k + 1;
            assert(rest@ =~= all.skip(k));
        }
    }
    assert(all.take(k) =~= all);
    Ok(out)
}

/// Read a `terraform show -json` plan document into normalized resource changes.
///
/// Returns only cost-relevant entries: **managed** resources (data sources cost nothing)
/// with a real action. No-ops and data reads are dropped.
pub fn parse_plan(doc: JsonValue) -> (r: Result<Vec<ResourceChange>, ParseError>)
    ensures
        plan_outcome_ok(doc, r),
{
    let ghost d0 = doc;
    proof {
        reveal_strlit("format_version");
        reveal_strlit("resource_changes");
    }
    let keys: Vec<&str> = vec!["format_version", "resource_changes"];
    assert(keys@[0]@[0] != keys@[1]@[0]);
    assert(keys@.map_values(|k: &str| k@) =~= plan_keys());
    let mut taken = match record_fields(doc, &keys, 2) {
        Some(f) => f,
        None => return Err(malformed("the plan document is not a record of its fields")),
    };
    assert(taken@[1] == field(d0, 1, "resource_changes"@));
    assert(taken@[0] == field(d0, 0, "format_version"@));
    let changes_value = taken.pop().unwrap();
    let version_value = taken.pop().unwrap();
    let version: Option<String> = match version_value {
        None => None,
        Some(JsonValue::Null) => None,
        Some(JsonValue::Str(s)) => Some(s),
        Some(_) => return Err(malformed("`format_version` is not a string")),
    };
    let changes: Option<Vec<ResourceChange>> = match changes_value {
        None => None,
        Some(JsonValue::Null) => None,
        Some(JsonValue::Array(items)) => match decode_changes(items) {
            Ok(c) => Some(c),
            Err(e) => return Err(e),
        },
        Some(_) => return Err(malformed("`resource_changes` is not an array")),
    };
    let checked = match &version {
        Some(v) => check_format(Some(v.as_str())),
        None => check_format(None),
    };
    if let Err(e) = checked {
        return Err(e);
    }
    match changes {
        None => Err(ParseError::NotAPlan),
        Some(c) => Ok(c),
    }
}

} // verus!
