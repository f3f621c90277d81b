//! Responses from a service.
//!
//! Each response shape is decoded from a [`Json`] document. For every shape
//! `T` there is a pair of spec functions: `..._decodable` says exactly
//! which documents decode, and `..._matches` pins every field of the
//! decoded value to the document.

use vstd::prelude::*;
use crate::v1::json::{
    as_str_v, jget, jv, jv_seq, lemma_jv_seq, parse_i64, spec_int_of, Json, JsonV,
};
use crate::v1::types::task::{Executor, Input, Output, Resources, State};

pub mod service;
pub mod service_info;
pub mod task;

pub use service_info::ServiceInfo;

verus! {

/// Whether a text is an RFC 3339 timestamp.
pub uninterp spec fn rfc3339_ok(s: Seq<char>) -> bool;

/// Relies on chrono's `DateTime::parse_from_rfc3339`: whether a text is an
/// RFC 3339 timestamp depends on the text alone.
#[verifier::external_body]
pub(crate) fn parse_rfc3339_ok(s: &str) -> (r: bool)
    ensures
        r == rfc3339_ok(s@),
{
    chrono::DateTime::parse_from_rfc3339(s).is_ok()
}

/// The view of an optional string.
pub open spec fn ovs(v: Option<String>) -> Option<Seq<char>> {
    match v {
        Some(s) => Some(s@),
        None => None,
    }
}

/// An object's field, with an absent field and a `null` field alike
/// standing for "not there".
pub open spec fn opt_field(j: JsonV, k: Seq<char>) -> Option<JsonV> {
    match jget(j, k) {
        None => None,
        Some(JsonV::Null) => None,
        Some(v) => Some(v),
    }
}

/// Whether an optional string field is well-shaped.
pub open spec fn opt_str_ok(j: JsonV, k: Seq<char>) -> bool {
    match opt_field(j, k) {
        None => true,
        Some(v) => v is Str,
    }
}

/// The text of an optional string field.
pub open spec fn opt_str_val(j: JsonV, k: Seq<char>) -> Option<Seq<char>> {
    match opt_field(j, k) {
        Some(JsonV::Str(s)) => Some(s),
        _ => None,
    }
}

/// Whether a required string field is present and well-shaped.
pub open spec fn req_str_ok(j: JsonV, k: Seq<char>) -> bool {
    jget(j, k) matches Some(v) && v is Str
}

/// The text of a required string field.
pub open spec fn req_str_val(j: JsonV, k: Seq<char>) -> Seq<char> {
    match jget(j, k) {
        Some(JsonV::Str(s)) => s,
        _ => Seq::empty(),
    }
}

/// Whether an optional boolean field is well-shaped.
pub open spec fn opt_bool_ok(j: JsonV, k: Seq<char>) -> bool {
    match opt_field(j, k) {
        None => true,
        Some(v) => v is Bool,
    }
}

/// The value of an optional boolean field.
pub open spec fn opt_bool_val(j: JsonV, k: Seq<char>) -> Option<bool> {
    match opt_field(j, k) {
        Some(JsonV::Bool(b)) => Some(b),
        _ => None,
    }
}

/// Whether a number literal holds an integer that fits 32 signed bits.
pub open spec fn num_i32_ok(t: Seq<char>) -> bool {
    spec_int_of(t) matches Some(v) && -0x8000_0000 <= v <= 0x7FFF_FFFF
}

/// Whether an optional 32-bit integer field is well-shaped.
pub open spec fn opt_i32_ok(j: JsonV, k: Seq<char>) -> bool {
    match opt_field(j, k) {
        None => true,
        Some(JsonV::Num(t)) => num_i32_ok(t),
        Some(_) => false,
    }
}

/// The value of an optional 32-bit integer field.
pub open spec fn opt_i32_val(j: JsonV, k: Seq<char>) -> Option<int> {
    match opt_field(j, k) {
        Some(JsonV::Num(t)) => spec_int_of(t),
        _ => None,
    }
}

/// Whether a required 32-bit integer field is present and well-shaped.
pub open spec fn req_i32_ok(j: JsonV, k: Seq<char>) -> bool {
    jget(j, k) matches Some(v) && v matches JsonV::Num(t) && num_i32_ok(t)
}

/// The value of a required 32-bit integer field.
pub open spec fn req_i32_val(j: JsonV, k: Seq<char>) -> int {
    match jget(j, k) {
        Some(JsonV::Num(t)) => match spec_int_of(t) {
            Some(v) => v,
            None => 0,
        },
        _ => 0,
    }
}

/// Whether an optional timestamp field holds an RFC 3339 text, where
/// present.
pub open spec fn opt_ts_ok(j: JsonV, k: Seq<char>) -> bool {
    match opt_field(j, k) {
        None => true,
        Some(JsonV::Str(s)) => rfc3339_ok(s),
        Some(_) => false,
    }
}

/// Reads an optional string field: `None` where the document is not
/// well-shaped at that field.
pub fn get_opt_str(j: &Json, k: &str) -> (r: Option<Option<String>>)
    ensures
        r is Some <==> opt_str_ok(j@, k@),
        r matches Some(v) ==> ovs(v) == opt_str_val(j@, k@),
{
    match crate::v1::json::obj_get(j, k) {
        None => Some(None),
        Some(v) => match v {
            Json::Null => Some(None),
            Json::Str(s) => Some(Some(s.clone())),
            _ => None,
        },
    }
}

/// Reads a required string field.
pub fn get_req_str(j: &Json, k: &str) -> (r: Option<String>)
    ensures
        r is Some <==> req_str_ok(j@, k@),
        r matches Some(s) ==> s@ == req_str_val(j@, k@),
{
    match crate::v1::json::obj_get(j, k) {
        None => None,
        Some(v) => match v {
            Json::Str(s) => Some(s.clone()),
            _ => None,
        },
    }
}

/// Reads an optional boolean field.
pub fn get_opt_bool(j: &Json, k: &str) -> (r: Option<Option<bool>>)
    ensures
        r is Some <==> opt_bool_ok(j@, k@),
        r matches Some(v) ==> v == opt_bool_val(j@, k@),
{
    match crate::v1::json::obj_get(j, k) {
        None => Some(None),
        Some(v) => match v {
            Json::Null => Some(None),
            Json::Bool(b) => Some(Some(*b)),
            _ => None,
        },
    }
}

/// Reads an optional 32-bit integer field.
pub fn get_opt_i32(j: &Json, k: &str) -> (r: Option<Option<i32>>)
    ensures
        r is Some <==> opt_i32_ok(j@, k@),
        r matches Some(v) ==> (match v {
            Some(n) => opt_i32_val(j@, k@) == Some(n as int),
            None => opt_i32_val(j@, k@) is None,
        }),
{
    match crate::v1::json::obj_get(j, k) {
        None => Some(None),
        Some(v) => match v {
            Json::Null => Some(None),
            Json::Num(t) => match parse_i64(t.as_str()) {
                Some(n) => {
                    if -0x8000_0000i64 <= n && n <= 0x7FFF_FFFFi64 {
                        Some(Some(n as i32))
                    } else {
                        None
                    }
                },
                None => None,
            },
            _ => None,
        },
    }
}

/// Reads a required 32-bit integer field.
pub fn get_req_i32(j: &Json, k: &str) -> (r: Option<i32>)
    ensures
        r is Some <==> req_i32_ok(j@, k@),
        r matches Some(n) ==> req_i32_val(j@, k@) == n as int,
{
    match crate::v1::json::obj_get(j, k) {
        None => None,
        Some(v) => match v {
            Json::Num(t) => match parse_i64(t.as_str()) {
                Some(n) => {
                    if -0x8000_0000i64 <= n && n <= 0x7FFF_FFFFi64 {
                        Some(n as i32)
                    } else {
                        None
                    }
                },
                None => None,
            },
            _ => None,
        },
    }
}

/// Reads an optional timestamp field, holding its text.
pub fn get_opt_ts(j: &Json, k: &str) -> (r: Option<Option<String>>)
    ensures
        r is Some <==> opt_ts_ok(j@, k@),
        r matches Some(v) ==> ovs(v) == opt_str_val(j@, k@),
{
    match crate::v1::json::obj_get(j, k) {
        None => Some(None),
        Some(v) => match v {
            Json::Null => Some(None),
            Json::Str(s) => {
                if parse_rfc3339_ok(s.as_str()) {
                    Some(Some(s.clone()))
                } else {
                    None
                }
            },
            _ => None,
        },
    }
}

/// The views of a sequence of strings.
pub open spec fn str_views(s: Seq<String>) -> Seq<Seq<char>> {
    Seq::new(s.len(), |i: int| s[i]@)
}

/// Whether every item of an array value is a string.
pub open spec fn str_arr_ok(items: Seq<JsonV>) -> bool {
    forall|i: int| 0 <= i < items.len() ==> (#[trigger] items[i]) is Str
}

/// The texts of an array of strings.
pub open spec fn str_arr_val(items: Seq<JsonV>) -> Seq<Seq<char>> {
    Seq::new(items.len(), |i: int| as_str_v(items[i]) -> 0)
}

/// Whether an optional string-array field is well-shaped.
pub open spec fn opt_str_arr_ok(j: JsonV, k: Seq<char>) -> bool {
    match opt_field(j, k) {
        None => true,
        Some(JsonV::Arr(items)) => str_arr_ok(items),
        Some(_) => false,
    }
}

/// The texts of an optional string-array field.
pub open spec fn opt_str_arr_val(j: JsonV, k: Seq<char>) -> Option<Seq<Seq<char>>> {
    match opt_field(j, k) {
        Some(JsonV::Arr(items)) => Some(str_arr_val(items)),
        _ => None,
    }
}

/// The view of an optional string vector.
pub open spec fn ovsv(v: Option<Vec<String>>) -> Option<Seq<Seq<char>>> {
    match v {
        Some(items) => Some(str_views(items@)),
        None => None,
    }
}

/// Reads an optional array-of-strings field.
#[verifier::loop_isolation(false)]
pub fn get_opt_str_arr(j: &Json, k: &str) -> (r: Option<Option<Vec<String>>>)
    ensures
        r is Some <==> opt_str_arr_ok(j@, k@),
        r matches Some(v) ==> ovsv(v) == opt_str_arr_val(j@, k@),
{
    match crate::v1::json::obj_get(j, k) {
        None => Some(None),
        Some(v) => match v {
            Json::Null => Some(None),
            Json::Arr(items) => {
                let ghost itemsv = jv_seq(items@);
                proof {
                    lemma_jv_seq(items@);
                }
                let n = items.len();
                let mut out: Vec<String> = Vec::new();
                let mut i: usize = 0;
                while i < n
                    invariant
                        i <= n,
                        n == items@.len(),
                        itemsv == jv_seq(items@),
                        out@.len() == i,
                        forall|m: int| 0 <= m < i ==> (#[trigger] itemsv[m]) is Str,
                        forall|m: int|
                            0 <= m < i ==> (#[trigger] out@[m])@ == as_str_v(itemsv[m]) -> 0,
                    decreases n - i,
                {
                    match &items[i] {
                        Json::Str(s) => {
                            out.push(s.clone());
                        },
                        _ => {
                            return None;
                        },
                    }
                    i = i + 1;
                }
                proof {
                    assert(str_views(out@) =~= str_arr_val(itemsv));
                }
                Some(Some(out))
            },
            _ => None,
        },
    }
}

/// The views of a sequence of string pairs.
pub open spec fn pair_views(s: Seq<(String, String)>) -> Seq<(Seq<char>, Seq<char>)> {
    Seq::new(s.len(), |i: int| (s[i].0@, s[i].1@))
}

/// Whether every member of an object value holds a string.
pub open spec fn str_obj_ok(ms: Seq<(Seq<char>, JsonV)>) -> bool {
    forall|i: int| 0 <= i < ms.len() ==> (#[trigger] ms[i]).1 is Str
}

/// The key/text pairs of an object of strings.
pub open spec fn str_obj_val(ms: Seq<(Seq<char>, JsonV)>) -> Seq<(Seq<char>, Seq<char>)> {
    Seq::new(ms.len(), |i: int| (ms[i].0, as_str_v(ms[i].1) -> 0))
}

/// Whether an optional object-of-strings field is well-shaped.
pub open spec fn opt_str_obj_ok(j: JsonV, k: Seq<char>) -> bool {
    match opt_field(j, k) {
        None => true,
        Some(JsonV::Obj(ms)) => str_obj_ok(ms),
        Some(_) => false,
    }
}

/// The pairs of an optional object-of-strings field.
pub open spec fn opt_str_obj_val(j: JsonV, k: Seq<char>) -> Option<Seq<(Seq<char>, Seq<char>)>> {
    match opt_field(j, k) {
        Some(JsonV::Obj(ms)) => Some(str_obj_val(ms)),
        _ => None,
    }
}

/// The view of optional string pairs.
pub open spec fn ovsp(v: Option<Vec<(String, String)>>) -> Option<Seq<(Seq<char>, Seq<char>)>> {
    match v {
        Some(items) => Some(pair_views(items@)),
        None => None,
    }
}

/// Reads an optional object-of-strings field, as key/value pairs in
/// document order.
#[verifier::loop_isolation(false)]
pub fn get_opt_str_pairs(j: &Json, k: &str) -> (r: Option<Option<Vec<(String, String)>>>)
    ensures
        r is Some <==> opt_str_obj_ok(j@, k@),
        r matches Some(v) ==> ovsp(v) == opt_str_obj_val(j@, k@),
{
    match crate::v1::json::obj_get(j, k) {
        None => Some(None),
        Some(v) => match v {
            Json::Null => Some(None),
            Json::Obj(members) => {
                let ghost memv = crate::v1::json::jv_members(members@);
                proof {
                    crate::v1::json::lemma_jv_members(members@);
                }
                let n = members.len();
                let mut out: Vec<(String, String)> = Vec::new();
                let mut i: usize = 0;
                while i < n
                    invariant
                        i <= n,
                        n == members@.len(),
                        memv == crate::v1::json::jv_members(members@),
                        out@.len() == i,
                        forall|m: int| 0 <= m < i ==> (#[trigger] memv[m]).1 is Str,
                        forall|m: int|
                            0 <= m < i ==> (#[trigger] out@[m]).0@ == memv[m].0 && out@[m].1@
                                == as_str_v(memv[m].1) -> 0,
                    decreases n - i,
                {
                    match &members[i].1 {
                        Json::Str(s) => {
                            out.push((members[i].0.clone(), s.clone()));
                        },
                        _ => {
                            return None;
                        },
                    }
                    i = i + 1;
                }
                proof {
                    assert(pair_views(out@) =~= str_obj_val(memv));
                }
                Some(Some(out))
            },
            _ => None,
        },
    }
}

/// Whether an optional number field is well-shaped.
pub open spec fn opt_num_ok(j: JsonV, k: Seq<char>) -> bool {
    match opt_field(j, k) {
        None => true,
        Some(v) => v is Num,
    }
}

/// The literal text of an optional number field.
pub open spec fn opt_num_val(j: JsonV, k: Seq<char>) -> Option<Seq<char>> {
    match opt_field(j, k) {
        Some(JsonV::Num(t)) => Some(t),
        _ => None,
    }
}

/// Reads an optional number field, keeping its literal text.
pub fn get_opt_num(j: &Json, k: &str) -> (r: Option<Option<String>>)
    ensures
        r is Some <==> opt_num_ok(j@, k@),
        r matches Some(v) ==> ovs(v) == opt_num_val(j@, k@),
{
    match crate::v1::json::obj_get(j, k) {
        None => Some(None),
        Some(v) => match v {
            Json::Null => Some(None),
            Json::Num(t) => Some(Some(t.clone())),
            _ => None,
        },
    }
}

/// Whether a required string-array field is present and well-shaped.
pub open spec fn req_str_arr_ok(j: JsonV, k: Seq<char>) -> bool {
    jget(j, k) matches Some(v) && v matches JsonV::Arr(items) && str_arr_ok(items)
}

/// The texts of a required string-array field.
pub open spec fn req_str_arr_val(j: JsonV, k: Seq<char>) -> Seq<Seq<char>> {
    match jget(j, k) {
        Some(JsonV::Arr(items)) => str_arr_val(items),
        _ => Seq::empty(),
    }
}

/// Reads a required array-of-strings field.
#[verifier::loop_isolation(false)]
pub fn get_req_str_arr(j: &Json, k: &str) -> (r: Option<Vec<String>>)
    ensures
        r is Some <==> req_str_arr_ok(j@, k@),
        r matches Some(v) ==> str_views(v@) == req_str_arr_val(j@, k@),
{
    match crate::v1::json::obj_get(j, k) {
        None => None,
        Some(v) => match v {
            Json::Arr(items) => {
                let ghost itemsv = jv_seq(items@);
                proof {
                    lemma_jv_seq(items@);
                }
                let n = items.len();
                let mut out: Vec<String> = Vec::new();
                let mut i: usize = 0;
                while i < n
                    invariant
                        i <= n,
                        n == items@.len(),
                        itemsv == jv_seq(items@),
                        out@.len() == i,
                        forall|m: int| 0 <= m < i ==> (#[trigger] itemsv[m]) is Str,
                        forall|m: int|
                            0 <= m < i ==> (#[trigger] out@[m])@ == as_str_v(itemsv[m]) -> 0,
                    decreases n - i,
                {
                    match &items[i] {
                        Json::Str(s) => {
                            out.push(s.clone());
                        },
                        _ => {
                            return None;
                        },
                    }
                    i = i + 1;
                }
                proof {
                    assert(str_views(out@) =~= str_arr_val(itemsv));
                }
                Some(out)
            },
            _ => None,
        },
    }
}

/// Whether a required field is present and holds an array.
pub open spec fn req_arr_ok(j: JsonV, k: Seq<char>) -> bool {
    jget(j, k) matches Some(v) && v is Arr
}

/// The items of a required array field.
pub open spec fn arr_field(j: JsonV, k: Seq<char>) -> Seq<JsonV> {
    match jget(j, k) {
        Some(JsonV::Arr(items)) => items,
        _ => Seq::empty(),
    }
}

/// Whether the keys of a pair list are distinct, as the protocol's maps
/// demand.
pub open spec fn distinct_keys(ps: Seq<(Seq<char>, Seq<char>)>) -> bool {
    forall|i: int, j: int| 0 <= i < j < ps.len() ==> (#[trigger] ps[i]).0 != (#[trigger] ps[j]).0
}

/// Whether the keys of an object's members are distinct.
pub open spec fn distinct_member_keys(ms: Seq<(Seq<char>, JsonV)>) -> bool {
    forall|i: int, j: int| 0 <= i < j < ms.len() ==> (#[trigger] ms[i]).0 != (#[trigger] ms[j]).0
}

/// The views of raw members held as string/document pairs.
pub open spec fn raw_member_views(s: Seq<(String, Json)>) -> Seq<(Seq<char>, JsonV)> {
    Seq::new(s.len(), |i: int| (s[i].0@, jv(s[i].1)))
}

/// The view of optional raw members.
pub open spec fn ovraw(v: Option<Vec<(String, Json)>>) -> Option<Seq<(Seq<char>, JsonV)>> {
    match v {
        Some(items) => Some(raw_member_views(items@)),
        None => None,
    }
}

/// Whether an optional raw-object field is well-shaped: absent, `null`, or
/// any object.
pub open spec fn opt_obj_ok(j: JsonV, k: Seq<char>) -> bool {
    match opt_field(j, k) {
        None => true,
        Some(v) => v is Obj,
    }
}

/// The members of an optional raw-object field.
pub open spec fn opt_obj_val(j: JsonV, k: Seq<char>) -> Option<Seq<(Seq<char>, JsonV)>> {
    match opt_field(j, k) {
        Some(JsonV::Obj(ms)) => Some(ms),
        _ => None,
    }
}

/// Reads an optional raw-object field, keeping each member's document.
#[verifier::loop_isolation(false)]
pub fn get_opt_obj_pairs(j: &Json, k: &str) -> (r: Option<Option<Vec<(String, Json)>>>)
    ensures
        r is Some <==> opt_obj_ok(j@, k@),
        r matches Some(v) ==> ovraw(v) == opt_obj_val(j@, k@),
{
    match crate::v1::json::obj_get(j, k) {
        None => Some(None),
        Some(v) => match v {
            Json::Null => Some(None),
            Json::Obj(members) => {
                let ghost memv = crate::v1::json::jv_members(members@);
                proof {
                    crate::v1::json::lemma_jv_members(members@);
                }
                let n = members.len();
                let mut out: Vec<(String, Json)> = Vec::new();
                let mut i: usize = 0;
                while i < n
                    invariant
                        i <= n,
                        n == members@.len(),
                        memv == crate::v1::json::jv_members(members@),
                        out@.len() == i,
                        forall|m: int|
                            0 <= m < i ==> ((#[trigger] out@[m]).0@, jv(out@[m].1)) == memv[m],
                    decreases n - i,
                {
                    let val = members[i].1.clone_json();
                    out.push((members[i].0.clone(), val));
                    i = i + 1;
                }
                proof {
                    assert(raw_member_views(out@) =~= memv);
                }
                Some(Some(out))
            },
            _ => None,
        },
    }
}

/// The state a `state` field denotes, where it does.
pub open spec fn spec_state_of(t: Seq<char>) -> Option<State> {
    if t == "UNKNOWN"@ {
        Some(State::Unknown)
    } else if t == "QUEUED"@ {
        Some(State::Queued)
    } else if t == "INITIALIZING"@ {
        Some(State::Initializing)
    } else if t == "RUNNING"@ {
        Some(State::Running)
    } else if t == "PAUSED"@ {
        Some(State::Paused)
    } else if t == "COMPLETE"@ {
        Some(State::Complete)
    } else if t == "EXECUTOR_ERROR"@ {
        Some(State::ExecutorError)
    } else if t == "SYSTEM_ERROR"@ {
        Some(State::SystemError)
    } else if t == "CANCELED"@ {
        Some(State::Canceled)
    } else if t == "CANCELING"@ {
        Some(State::Canceling)
    } else if t == "PREEMPTED"@ {
        Some(State::Preempted)
    } else {
        None
    }
}

/// Reads a state token.
pub fn state_of_token(t: &str) -> (r: Option<State>)
    ensures
        r == spec_state_of(t@),
{
    if crate::v1::json::str_eq(t, "UNKNOWN") {
        Some(State::Unknown)
    } else if crate::v1::json::str_eq(t, "QUEUED") {
        Some(State::Queued)
    } else if crate::v1::json::str_eq(t, "INITIALIZING") {
        Some(State::Initializing)
    } else if crate::v1::json::str_eq(t, "RUNNING") {
        Some(State::Running)
    } else if crate::v1::json::str_eq(t, "PAUSED") {
        Some(State::Paused)
    } else if crate::v1::json::str_eq(t, "COMPLETE") {
        Some(State::Complete)
    } else if crate::v1::json::str_eq(t, "EXECUTOR_ERROR") {
        Some(State::ExecutorError)
    } else if crate::v1::json::str_eq(t, "SYSTEM_ERROR") {
        Some(State::SystemError)
    } else if crate::v1::json::str_eq(t, "CANCELED") {
        Some(State::Canceled)
    } else if crate::v1::json::str_eq(t, "CANCELING") {
        Some(State::Canceling)
    } else if crate::v1::json::str_eq(t, "PREEMPTED") {
        Some(State::Preempted)
    } else {
        None
    }
}

/// Whether an optional state field is well-shaped: absent, `null`, or a
/// known state token.
pub open spec fn opt_state_ok(j: JsonV, k: Seq<char>) -> bool {
    match opt_field(j, k) {
        None => true,
        Some(JsonV::Str(t)) => spec_state_of(t) is Some,
        Some(_) => false,
    }
}

/// The state of an optional state field.
pub open spec fn opt_state_val(j: JsonV, k: Seq<char>) -> Option<State> {
    match opt_field(j, k) {
        Some(JsonV::Str(t)) => spec_state_of(t),
        _ => None,
    }
}

/// Reads an optional state field.
pub fn get_opt_state(j: &Json, k: &str) -> (r: Option<Option<State>>)
    ensures
        r is Some <==> opt_state_ok(j@, k@),
        r matches Some(v) ==> v == opt_state_val(j@, k@),
{
    match crate::v1::json::obj_get(j, k) {
        None => Some(None),
        Some(v) => match v {
            Json::Null => Some(None),
            Json::Str(t) => match state_of_token(t.as_str()) {
                Some(st) => Some(Some(st)),
                None => None,
            },
            _ => None,
        },
    }
}

/// A response from the create-task endpoint.
#[derive(Clone, Debug, Default, Eq, PartialEq)]
pub struct CreatedTask {
    /// The ID of the created task.
    pub id: String,
}

/// Whether a document decodes into a [`CreatedTask`].
pub open spec fn created_task_decodable(j: JsonV) -> bool {
    j is Obj && req_str_ok(j, "id"@)
}

/// Whether a [`CreatedTask`] holds what the document says.
pub open spec fn created_task_matches(t: CreatedTask, j: JsonV) -> bool {
    t.id@ == req_str_val(j, "id"@)
}

impl CreatedTask {
    /// Decodes a created-task response.
    pub fn from_json(j: &Json) -> (r: Option<CreatedTask>)
        ensures
            r is Some <==> created_task_decodable(j@),
            r matches Some(t) ==> created_task_matches(t, j@),
    {
        if !matches!(j, Json::Obj(_)) {
            return None;
        }
        let id = get_req_str(j, "id")?;
        Some(CreatedTask { id })
    }
}

/// The response from the list-tasks endpoint.
#[derive(Clone, Debug, Default, Eq, PartialEq)]
pub struct ListTasks<Task> {
    /// The tasks in this page of results.
    pub tasks: Vec<Task>,

    /// The token for the next page of results, where more exist.
    pub next_page_token: Option<String>,
}

/// A task output file.
#[derive(Clone, Debug, Default, Eq, PartialEq)]
pub struct OutputFile {
    /// The URL.
    pub url: String,

    /// The path within the container.
    pub path: String,

    /// The size in bytes.
    pub size_bytes: String,
}

/// Whether a document decodes into an [`OutputFile`].
pub open spec fn output_file_decodable(j: JsonV) -> bool {
    j is Obj && req_str_ok(j, "url"@) && req_str_ok(j, "path"@) && req_str_ok(j, "size_bytes"@)
}

/// Whether an [`OutputFile`] holds what the document says.
pub open spec fn output_file_matches(t: OutputFile, j: JsonV) -> bool {
    &&& t.url@ == req_str_val(j, "url"@)
    &&& t.path@ == req_str_val(j, "path"@)
    &&& t.size_bytes@ == req_str_val(j, "size_bytes"@)
}

impl OutputFile {
    /// Decodes an output file.
    pub fn from_json(j: &Json) -> (r: Option<OutputFile>)
        ensures
            r is Some <==> output_file_decodable(j@),
            r matches Some(t) ==> output_file_matches(t, j@),
    {
        if !matches!(j, Json::Obj(_)) {
            return None;
        }
        let url = get_req_str(j, "url")?;
        let path = get_req_str(j, "path")?;
        let size_bytes = get_req_str(j, "size_bytes")?;
        Some(OutputFile { url, path, size_bytes })
    }
}

/// A log for an [`Executor`].
#[derive(Clone, Debug, Default, Eq, PartialEq)]
pub struct ExecutorLog {
    /// The start time, as an RFC 3339 text.
    pub start_time: Option<String>,

    /// The end time, as an RFC 3339 text.
    pub end_time: Option<String>,

    /// The value of the standard output stream.
    pub stdout: Option<String>,

    /// The value of the standard error stream.
    pub stderr: Option<String>,

    /// The exit code.
    pub exit_code: i32,
}

/// Whether a document decodes into an [`ExecutorLog`].
pub open spec fn executor_log_decodable(j: JsonV) -> bool {
    &&& j is Obj
    &&& opt_ts_ok(j, "start_time"@)
    &&& opt_ts_ok(j, "end_time"@)
    &&& opt_str_ok(j, "stdout"@)
    &&& opt_str_ok(j, "stderr"@)
    &&& req_i32_ok(j, "exit_code"@)
}

/// Whether an [`ExecutorLog`] holds what the document says.
pub open spec fn executor_log_matches(t: ExecutorLog, j: JsonV) -> bool {
    &&& ovs(t.start_time) == opt_str_val(j, "start_time"@)
    &&& ovs(t.end_time) == opt_str_val(j, "end_time"@)
    &&& ovs(t.stdout) == opt_str_val(j, "stdout"@)
    &&& ovs(t.stderr) == opt_str_val(j, "stderr"@)
    &&& t.exit_code as int == req_i32_val(j, "exit_code"@)
}

impl ExecutorLog {
    /// Decodes an executor log.
    pub fn from_json(j: &Json) -> (r: Option<ExecutorLog>)
        ensures
            r is Some <==> executor_log_decodable(j@),
            r matches Some(t) ==> executor_log_matches(t, j@),
    {
        if !matches!(j, Json::Obj(_)) {
            return None;
        }
        let start_time = get_opt_ts(j, "start_time")?;
        let end_time = get_opt_ts(j, "end_time")?;
        let stdout = get_opt_str(j, "stdout")?;
        let stderr = get_opt_str(j, "stderr")?;
        let exit_code = get_req_i32(j, "exit_code")?;
        Some(ExecutorLog { start_time, end_time, stdout, stderr, exit_code })
    }
}

/// A task log.
#[derive(Clone, Debug, Default, Eq, PartialEq)]
pub struct TaskLog {
    /// The executor logs.
    pub logs: Vec<ExecutorLog>,

    /// The log metadata, as an arbitrary document.
    pub metadata: Option<Json>,

    /// The start time, as an RFC 3339 text.
    pub start_time: Option<String>,

    /// The end time, as an RFC 3339 text.
    pub end_time: Option<String>,

    /// The output files.
    pub outputs: Vec<OutputFile>,

    /// The system logs.
    pub system_logs: Option<Vec<String>>,
}

/// The view of an optional document.
pub open spec fn ojv(v: Option<Json>) -> Option<JsonV> {
    match v {
        Some(j) => Some(jv(j)),
        None => None,
    }
}

/// Whether a document decodes into a [`TaskLog`].
pub open spec fn task_log_decodable(j: JsonV) -> bool {
    &&& j is Obj
    &&& req_arr_ok(j, "logs"@)
    &&& (forall|i: int|
        0 <= i < arr_field(j, "logs"@).len() ==> executor_log_decodable(
            #[trigger] arr_field(j, "logs"@)[i],
        ))
    &&& opt_ts_ok(j, "start_time"@)
    &&& opt_ts_ok(j, "end_time"@)
    &&& req_arr_ok(j, "outputs"@)
    &&& (forall|i: int|
        0 <= i < arr_field(j, "outputs"@).len() ==> output_file_decodable(
            #[trigger] arr_field(j, "outputs"@)[i],
        ))
    &&& opt_str_arr_ok(j, "system_logs"@)
}

/// Whether a [`TaskLog`] holds what the document says.
pub open spec fn task_log_matches(t: TaskLog, j: JsonV) -> bool {
    &&& t.logs@.len() == arr_field(j, "logs"@).len()
    &&& (forall|i: int|
        0 <= i < arr_field(j, "logs"@).len() ==> executor_log_matches(
            #[trigger] t.logs@[i],
            arr_field(j, "logs"@)[i],
        ))
    &&& ojv(t.metadata) == opt_field(j, "metadata"@)
    &&& ovs(t.start_time) == opt_str_val(j, "start_time"@)
    &&& ovs(t.end_time) == opt_str_val(j, "end_time"@)
    &&& t.outputs@.len() == arr_field(j, "outputs"@).len()
    &&& (forall|i: int|
        0 <= i < arr_field(j, "outputs"@).len() ==> output_file_matches(
            #[trigger] t.outputs@[i],
            arr_field(j, "outputs"@)[i],
        ))
    &&& ovsv(t.system_logs) == opt_str_arr_val(j, "system_logs"@)
}

impl TaskLog {
    /// Decodes a task log.
    #[verifier::loop_isolation(false)]
    #[verifier::rlimit(50)]
    pub fn from_json(j: &Json) -> (r: Option<TaskLog>)
        ensures
            r is Some <==> task_log_decodable(j@),
            r matches Some(t) ==> task_log_matches(t, j@),
    {
        if !matches!(j, Json::Obj(_)) {
            return None;
        }
        let logs_j = match crate::v1::json::obj_get(j, "logs") {
            Some(v) => v,
            None => {
                return None;
            },
        };
        let logs = match logs_j {
            Json::Arr(items) => {
                let ghost itemsv = jv_seq(items@);
                proof {
                    lemma_jv_seq(items@);
                }
                let n = items.len();
                let mut out: Vec<ExecutorLog> = Vec::new();
                let mut i: usize = 0;
                while i < n
                    invariant
                        i <= n,
                        n == items@.len(),
                        itemsv == jv_seq(items@),
                        out@.len() == i,
                        forall|m: int| 0 <= m < i ==> executor_log_decodable(#[trigger] itemsv[m]),
                        forall|m: int|
                            0 <= m < i ==> executor_log_matches(#[trigger] out@[m], itemsv[m]),
                    decreases n - i,
                {
                    match ExecutorLog::from_json(&items[i]) {
                        Some(el) => {
                            out.push(el);
                        },
                        None => {
                            proof {
                                assert(arr_field(j@, "logs"@) == itemsv);
                                assert(!executor_log_decodable(arr_field(j@, "logs"@)[i as int]));
                            }
                            return None;
                        },
                    }
                    i = i + 1;
                }
                out
            },
            _ => {
                return None;
            },
        };
        let metadata = match crate::v1::json::obj_get(j, "metadata") {
            None => None,
            Some(v) => match v {
                Json::Null => None,
                other => Some(other.clone_json()),
            },
        };
        let start_time = get_opt_ts(j, "start_time")?;
        let end_time = get_opt_ts(j, "end_time")?;
        let outputs_j = match crate::v1::json::obj_get(j, "outputs") {
            Some(v) => v,
            None => {
                return None;
            },
        };
        let outputs = match outputs_j {
            Json::Arr(items) => {
                let ghost itemsv = jv_seq(items@);
                proof {
                    lemma_jv_seq(items@);
                }
                let n = items.len();
                let mut out: Vec<OutputFile> = Vec::new();
                let mut i: usize = 0;
                while i < n
                    invariant
                        i <= n,
                        n == items@.len(),
                        itemsv == jv_seq(items@),
                        out@.len() == i,
                        forall|m: int| 0 <= m < i ==> output_file_decodable(#[trigger] itemsv[m]),
                        forall|m: int|
                            0 <= m < i ==> output_file_matches(#[trigger] out@[m], itemsv[m]),
                    decreases n - i,
                {
                    match OutputFile::from_json(&items[i]) {
                        Some(of) => {
                            out.push(of);
                        },
                        None => {
                            proof {
                                assert(arr_field(j@, "outputs"@) == itemsv);
                                assert(!output_file_decodable(arr_field(j@, "outputs"@)[i as int]));
                            }
                            return None;
                        },
                    }
                    i = i + 1;
                }
                out
            },
            _ => {
                return None;
            },
        };
        let system_logs = get_opt_str_arr(j, "system_logs")?;
        Some(TaskLog { logs, metadata, start_time, end_time, outputs, system_logs })
    }
}

/// A "minimal" task representation.
#[derive(Clone, Debug, Default, Eq, PartialEq)]
pub struct MinimalTask {
    /// The ID.
    pub id: String,

    /// The current state.
    pub state: Option<State>,
}

/// Whether a document decodes into a [`MinimalTask`].
pub open spec fn minimal_task_decodable(j: JsonV) -> bool {
    j is Obj && req_str_ok(j, "id"@) && opt_state_ok(j, "state"@)
}

/// Whether a [`MinimalTask`] holds what the document says.
pub open spec fn minimal_task_matches(t: MinimalTask, j: JsonV) -> bool {
    t.id@ == req_str_val(j, "id"@) && t.state == opt_state_val(j, "state"@)
}

impl MinimalTask {
    /// Decodes a minimal task. Only the `id` and `state` fields are read;
    /// anything else the payload holds is ignored.
    pub fn from_json(j: &Json) -> (r: Option<MinimalTask>)
        ensures
            r is Some <==> minimal_task_decodable(j@),
            r matches Some(t) ==> minimal_task_matches(t, j@),
    {
        if !matches!(j, Json::Obj(_)) {
            return None;
        }
        let id = get_req_str(j, "id")?;
        let state = get_opt_state(j, "state")?;
        Some(MinimalTask { id, state })
    }
}


/// Whether an optional array field is well-shaped at the outside: absent,
/// `null`, or an array.
pub open spec fn opt_arr_shape_ok(j: JsonV, k: Seq<char>) -> bool {
    match opt_field(j, k) {
        None => true,
        Some(v) => v is Arr,
    }
}

/// The items of an optional array field.
pub open spec fn opt_arr_items(j: JsonV, k: Seq<char>) -> Seq<JsonV> {
    match opt_field(j, k) {
        Some(JsonV::Arr(items)) => items,
        _ => Seq::empty(),
    }
}

/// Reads an optional array of inputs.
#[verifier::loop_isolation(false)]
pub fn get_opt_inputs(j: &Json, k: &str) -> (r: Option<Option<Vec<Input>>>)
    ensures
        r is Some <==> (opt_arr_shape_ok(j@, k@) && (forall|i: int|
            0 <= i < opt_arr_items(j@, k@).len() ==> crate::v1::types::task::input_decodable(
                #[trigger] opt_arr_items(j@, k@)[i],
            ))),
        r matches Some(v) ==> (match v {
            Some(xs) => opt_field(j@, k@) is Some && xs@.len() == opt_arr_items(j@, k@).len() && (
            forall|i: int|
                0 <= i < xs@.len() ==> crate::v1::types::task::input_matches(
                    #[trigger] xs@[i],
                    opt_arr_items(j@, k@)[i],
                )),
            None => opt_field(j@, k@) is None,
        }),
{
    match crate::v1::json::obj_get(j, k) {
        None => Some(None),
        Some(v) => match v {
            Json::Null => Some(None),
            Json::Arr(items) => {
                let ghost itemsv = jv_seq(items@);
                proof {
                    lemma_jv_seq(items@);
                    assert(opt_arr_items(j@, k@) == itemsv);
                }
                let n = items.len();
                let mut out: Vec<Input> = Vec::new();
                let mut i: usize = 0;
                while i < n
                    invariant
                        i <= n,
                        n == items@.len(),
                        itemsv == jv_seq(items@),
                        out@.len() == i,
                        forall|m: int|
                            0 <= m < i ==> crate::v1::types::task::input_decodable(
                                #[trigger] itemsv[m],
                            ),
                        forall|m: int|
                            0 <= m < i ==> crate::v1::types::task::input_matches(
                                #[trigger] out@[m],
                                itemsv[m],
                            ),
                    decreases n - i,
                {
                    match Input::from_json(&items[i]) {
                        Some(x) => {
                            out.push(x);
                        },
                        None => {
                            proof {
                                assert(!crate::v1::types::task::input_decodable(
                                    opt_arr_items(j@, k@)[i as int],
                                ));
                            }
                            return None;
                        },
                    }
                    i = i + 1;
                }
                Some(Some(out))
            },
            _ => None,
        },
    }
}

/// Reads an optional array of outputs.
#[verifier::loop_isolation(false)]
pub fn get_opt_outputs(j: &Json, k: &str) -> (r: Option<Option<Vec<Output>>>)
    ensures
        r is Some <==> (opt_arr_shape_ok(j@, k@) && (forall|i: int|
            0 <= i < opt_arr_items(j@, k@).len() ==> crate::v1::types::task::output_decodable(
                #[trigger] opt_arr_items(j@, k@)[i],
            ))),
        r matches Some(v) ==> (match v {
            Some(xs) => opt_field(j@, k@) is Some && xs@.len() == opt_arr_items(j@, k@).len() && (
            forall|i: int|
                0 <= i < xs@.len() ==> crate::v1::types::task::output_matches(
                    #[trigger] xs@[i],
                    opt_arr_items(j@, k@)[i],
                )),
            None => opt_field(j@, k@) is None,
        }),
{
    match crate::v1::json::obj_get(j, k) {
        None => Some(None),
        Some(v) => match v {
            Json::Null => Some(None),
            Json::Arr(items) => {
                let ghost itemsv = jv_seq(items@);
                proof {
                    lemma_jv_seq(items@);
                    assert(opt_arr_items(j@, k@) == itemsv);
                }
                let n = items.len();
                let mut out: Vec<Output> = Vec::new();
                let mut i: usize = 0;
                while i < n
                    invariant
                        i <= n,
                        n == items@.len(),
                        itemsv == jv_seq(items@),
                        out@.len() == i,
                        forall|m: int|
                            0 <= m < i ==> crate::v1::types::task::output_decodable(
                                #[trigger] itemsv[m],
                            ),
                        forall|m: int|
                            0 <= m < i ==> crate::v1::types::task::output_matches(
                                #[trigger] out@[m],
                                itemsv[m],
                            ),
                    decreases n - i,
                {
                    match Output::from_json(&items[i]) {
                        Some(x) => {
                            out.push(x);
                        },
                        None => {
                            proof {
                                assert(!crate::v1::types::task::output_decodable(
                                    opt_arr_items(j@, k@)[i as int],
                                ));
                            }
                            return None;
                        },
                    }
                    i = i + 1;
                }
                Some(Some(out))
            },
            _ => None,
        },
    }
}

/// Reads an optional array of task logs.
#[verifier::loop_isolation(false)]
pub fn get_opt_task_logs(j: &Json, k: &str) -> (r: Option<Option<Vec<TaskLog>>>)
    ensures
        r is Some <==> (opt_arr_shape_ok(j@, k@) && (forall|i: int|
            0 <= i < opt_arr_items(j@, k@).len() ==> task_log_decodable(
                #[trigger] opt_arr_items(j@, k@)[i],
            ))),
        r matches Some(v) ==> (match v {
            Some(xs) => opt_field(j@, k@) is Some && xs@.len() == opt_arr_items(j@, k@).len() && (
            forall|i: int|
                0 <= i < xs@.len() ==> task_log_matches(
                    #[trigger] xs@[i],
                    opt_arr_items(j@, k@)[i],
                )),
            None => opt_field(j@, k@) is None,
        }),
{
    match crate::v1::json::obj_get(j, k) {
        None => Some(None),
        Some(v) => match v {
            Json::Null => Some(None),
            Json::Arr(items) => {
                let ghost itemsv = jv_seq(items@);
                proof {
                    lemma_jv_seq(items@);
                    assert(opt_arr_items(j@, k@) == itemsv);
                }
                let n = items.len();
                let mut out: Vec<TaskLog> = Vec::new();
                let mut i: usize = 0;
                while i < n
                    invariant
                        i <= n,
                        n == items@.len(),
                        itemsv == jv_seq(items@),
                        out@.len() == i,
                        forall|m: int| 0 <= m < i ==> task_log_decodable(#[trigger] itemsv[m]),
                        forall|m: int|
                            0 <= m < i ==> task_log_matches(#[trigger] out@[m], itemsv[m]),
                    decreases n - i,
                {
                    match TaskLog::from_json(&items[i]) {
                        Some(x) => {
                            out.push(x);
                        },
                        None => {
                            proof {
                                assert(!task_log_decodable(opt_arr_items(j@, k@)[i as int]));
                            }
                            return None;
                        },
                    }
                    i = i + 1;
                }
                Some(Some(out))
            },
            _ => None,
        },
    }
}

/// Reads a required array of executors.
#[verifier::loop_isolation(false)]
pub fn get_req_executors(j: &Json, k: &str) -> (r: Option<Vec<Executor>>)
    ensures
        r is Some <==> (req_arr_ok(j@, k@) && (forall|i: int|
            0 <= i < arr_field(j@, k@).len() ==> crate::v1::types::task::executor_decodable(
                #[trigger] arr_field(j@, k@)[i],
            ))),
        r matches Some(xs) ==> xs@.len() == arr_field(j@, k@).len() && (forall|i: int|
            0 <= i < xs@.len() ==> crate::v1::types::task::executor_matches(
                #[trigger] xs@[i],
                arr_field(j@, k@)[i],
            )),
{
    match crate::v1::json::obj_get(j, k) {
        None => None,
        Some(v) => match v {
            Json::Arr(items) => {
                let ghost itemsv = jv_seq(items@);
                proof {
                    lemma_jv_seq(items@);
                    assert(arr_field(j@, k@) == itemsv);
                }
                let n = items.len();
                let mut out: Vec<Executor> = Vec::new();
                let mut i: usize = 0;
                while i < n
                    invariant
                        i <= n,
                        n == items@.len(),
                        itemsv == jv_seq(items@),
                        out@.len() == i,
                        forall|m: int|
                            0 <= m < i ==> crate::v1::types::task::executor_decodable(
                                #[trigger] itemsv[m],
                            ),
                        forall|m: int|
                            0 <= m < i ==> crate::v1::types::task::executor_matches(
                                #[trigger] out@[m],
                                itemsv[m],
                            ),
                    decreases n - i,
                {
                    match Executor::from_json(&items[i]) {
                        Some(x) => {
                            out.push(x);
                        },
                        None => {
                            proof {
                                assert(!crate::v1::types::task::executor_decodable(
                                    arr_field(j@, k@)[i as int],
                                ));
                            }
                            return None;
                        },
                    }
                    i = i + 1;
                }
                Some(out)
            },
            _ => None,
        },
    }
}

/// A "basic" or "full" task representation.
///
/// A basic representation should always have the stdout and stderr of
/// executor logs, the content of inputs, and the system logs absent: the
/// server, not the client, is responsible for omitting them.
#[derive(Clone, Debug, Default, PartialEq)]
pub struct Task {
    /// The ID.
    pub id: Option<String>,

    /// The current state.
    pub state: Option<State>,

    /// The user-provided name.
    pub name: Option<String>,

    /// The user-provided description.
    pub description: Option<String>,

    /// The inputs.
    pub inputs: Option<Vec<Input>>,

    /// The outputs.
    pub outputs: Option<Vec<Output>>,

    /// The requested resources.
    pub resources: Option<Resources>,

    /// The executors of the task.
    pub executors: Vec<Executor>,

    /// The volumes of the task.
    pub volumes: Option<Vec<String>>,

    /// The tags of the task, as key/value pairs.
    pub tags: Option<Vec<(String, String)>>,

    /// The logs of the task.
    pub logs: Option<Vec<TaskLog>>,

    /// The time of creation, as an RFC 3339 text.
    pub creation_time: Option<String>,
}

/// Whether a document decodes into a [`Task`].
pub open spec fn task_decodable(j: JsonV) -> bool {
    &&& j is Obj
    &&& opt_str_ok(j, "id"@)
    &&& opt_state_ok(j, "state"@)
    &&& opt_str_ok(j, "name"@)
    &&& opt_str_ok(j, "description"@)
    &&& opt_arr_shape_ok(j, "inputs"@)
    &&& (forall|i: int|
        0 <= i < opt_arr_items(j, "inputs"@).len() ==> crate::v1::types::task::input_decodable(
            #[trigger] opt_arr_items(j, "inputs"@)[i],
        ))
    &&& opt_arr_shape_ok(j, "outputs"@)
    &&& (forall|i: int|
        0 <= i < opt_arr_items(j, "outputs"@).len() ==> crate::v1::types::task::output_decodable(
            #[trigger] opt_arr_items(j, "outputs"@)[i],
        ))
    &&& (match opt_field(j, "resources"@) {
        None => true,
        Some(v) => crate::v1::types::task::resources_decodable(v),
    })
    &&& req_arr_ok(j, "executors"@)
    &&& (forall|i: int|
        0 <= i < arr_field(j, "executors"@).len() ==> crate::v1::types::task::executor_decodable(
            #[trigger] arr_field(j, "executors"@)[i],
        ))
    &&& opt_str_arr_ok(j, "volumes"@)
    &&& opt_str_obj_ok(j, "tags"@)
    &&& opt_arr_shape_ok(j, "logs"@)
    &&& (forall|i: int|
        0 <= i < opt_arr_items(j, "logs"@).len() ==> task_log_decodable(
            #[trigger] opt_arr_items(j, "logs"@)[i],
        ))
    &&& opt_ts_ok(j, "creation_time"@)
}

/// Whether a [`Task`] holds what the document says.
pub open spec fn task_matches(t: Task, j: JsonV) -> bool {
    &&& ovs(t.id) == opt_str_val(j, "id"@)
    &&& t.state == opt_state_val(j, "state"@)
    &&& ovs(t.name) == opt_str_val(j, "name"@)
    &&& ovs(t.description) == opt_str_val(j, "description"@)
    &&& (match t.inputs {
        None => opt_field(j, "inputs"@) is None,
        Some(xs) => opt_field(j, "inputs"@) is Some && xs@.len() == opt_arr_items(
            j,
            "inputs"@,
        ).len() && (forall|i: int|
            0 <= i < xs@.len() ==> crate::v1::types::task::input_matches(
                #[trigger] xs@[i],
                opt_arr_items(j, "inputs"@)[i],
            )),
    })
    &&& (match t.outputs {
        None => opt_field(j, "outputs"@) is None,
        Some(xs) => opt_field(j, "outputs"@) is Some && xs@.len() == opt_arr_items(
            j,
            "outputs"@,
        ).len() && (forall|i: int|
            0 <= i < xs@.len() ==> crate::v1::types::task::output_matches(
                #[trigger] xs@[i],
                opt_arr_items(j, "outputs"@)[i],
            )),
    })
    &&& (match t.resources {
        None => opt_field(j, "resources"@) is None,
        Some(res) => opt_field(j, "resources"@) matches Some(v)
            && crate::v1::types::task::resources_matches(res, v),
    })
    &&& t.executors@.len() == arr_field(j, "executors"@).len()
    &&& (forall|i: int|
        0 <= i < t.executors@.len() ==> crate::v1::types::task::executor_matches(
            #[trigger] t.executors@[i],
            arr_field(j, "executors"@)[i],
        ))
    &&& ovsv(t.volumes) == opt_str_arr_val(j, "volumes"@)
    &&& ovsp(t.tags) == opt_str_obj_val(j, "tags"@)
    &&& (match t.logs {
        None => opt_field(j, "logs"@) is None,
        Some(xs) => opt_field(j, "logs"@) is Some && xs@.len() == opt_arr_items(
            j,
            "logs"@,
        ).len() && (forall|i: int|
            0 <= i < xs@.len() ==> task_log_matches(#[trigger] xs@[i], opt_arr_items(
                j,
                "logs"@,
            )[i])),
    })
    &&& ovs(t.creation_time) == opt_str_val(j, "creation_time"@)
}

impl Task {
    /// Decodes a basic or full task representation.
    #[verifier::rlimit(100)]
    pub fn from_json(j: &Json) -> (r: Option<Task>)
        ensures
            r is Some <==> task_decodable(j@),
            r matches Some(t) ==> task_matches(t, j@),
    {
        if !matches!(j, Json::Obj(_)) {
            return None;
        }
        let id = get_opt_str(j, "id")?;
        let state = get_opt_state(j, "state")?;
        let name = get_opt_str(j, "name")?;
        let description = get_opt_str(j, "description")?;
        let inputs = get_opt_inputs(j, "inputs")?;
        let outputs = get_opt_outputs(j, "outputs")?;
        let resources = match crate::v1::json::obj_get(j, "resources") {
            None => None,
            Some(v) => match v {
                Json::Null => None,
                other => match Resources::from_json(other) {
                    Some(res) => Some(res),
                    None => {
                        return None;
                    },
                },
            },
        };
        let executors = get_req_executors(j, "executors")?;
        let volumes = get_opt_str_arr(j, "volumes")?;
        let tags = get_opt_str_pairs(j, "tags")?;
        let logs = get_opt_task_logs(j, "logs")?;
        let creation_time = get_opt_ts(j, "creation_time")?;
        Some(
            Task {
                id,
                state,
                name,
                description,
                inputs,
                outputs,
                resources,
                executors,
                volumes,
                tags,
                logs,
                creation_time,
            },
        )
    }
}

/// A generalized representation of a task, tagged by the view that was
/// requested. The tag always comes from the caller's own request, never
/// from inspecting the payload.
#[derive(Clone, Debug, PartialEq)]
pub enum TaskResponse {
    /// A response for when a minimal task representation was requested.
    Minimal(MinimalTask),

    /// A response for when a basic task representation was requested.
    Basic(Task),

    /// A response for when a full task representation was requested.
    Full(Task),
}

impl TaskResponse {
    /// Retrieves a reference to the inner [`MinimalTask`] response if the
    /// variant is [`TaskResponse::Minimal`].
    pub fn as_minimal(&self) -> (r: Option<&MinimalTask>)
        ensures
            match *self {
                TaskResponse::Minimal(t) => r matches Some(x) && *x == t,
                _ => r is None,
            },
    {
        match self {
            TaskResponse::Minimal(task) => Some(task),
            _ => None,
        }
    }

    /// Consumes `self` and returns the inner [`MinimalTask`] response if
    /// the variant is [`TaskResponse::Minimal`].
    pub fn into_minimal(self) -> (r: Option<MinimalTask>)
        ensures
            match self {
                TaskResponse::Minimal(t) => r == Some(t),
                _ => r is None,
            },
    {
        match self {
            TaskResponse::Minimal(task) => Some(task),
            _ => None,
        }
    }

    /// Retrieves a reference to the inner [`Task`] response if the variant
    /// is [`TaskResponse::Basic`] or [`TaskResponse::Full`].
    pub fn as_task(&self) -> (r: Option<&Task>)
        ensures
            match *self {
                TaskResponse::Basic(t) => r matches Some(x) && *x == t,
                TaskResponse::Full(t) => r matches Some(x) && *x == t,
                _ => r is None,
            },
    {
        match self {
            TaskResponse::Basic(task) | TaskResponse::Full(task) => Some(task),
            _ => None,
        }
    }

    /// Consumes `self` and returns the inner [`Task`] response if the
    /// variant is [`TaskResponse::Basic`] or [`TaskResponse::Full`].
    pub fn into_task(self) -> (r: Option<Task>)
        ensures
            match self {
                TaskResponse::Basic(t) => r == Some(t),
                TaskResponse::Full(t) => r == Some(t),
                _ => r is None,
            },
    {
        match self {
            TaskResponse::Basic(task) | TaskResponse::Full(task) => Some(task),
            _ => None,
        }
    }
}

/// Whether a task document decodes under the given view.
pub open spec fn task_response_decodable(
    view: crate::v1::types::requests::View,
    j: JsonV,
) -> bool {
    match view {
        crate::v1::types::requests::View::Minimal => minimal_task_decodable(j),
        _ => task_decodable(j),
    }
}

/// Whether a tagged response holds what the document says under the given
/// view: the tag matches the view, and the payload matches the document.
pub open spec fn task_response_matches(
    view: crate::v1::types::requests::View,
    tr: TaskResponse,
    j: JsonV,
) -> bool {
    match view {
        crate::v1::types::requests::View::Minimal => tr matches TaskResponse::Minimal(t)
            && minimal_task_matches(t, j),
        crate::v1::types::requests::View::Basic => tr matches TaskResponse::Basic(t)
            && task_matches(t, j),
        crate::v1::types::requests::View::Full => tr matches TaskResponse::Full(t)
            && task_matches(t, j),
    }
}

impl TaskResponse {
    /// Decodes a task document into the shape the given view asks for, and
    /// wraps it with the matching tag. The payload is never inspected to
    /// choose the shape.
    pub fn from_json(view: crate::v1::types::requests::View, j: &Json) -> (r: Option<
        TaskResponse,
    >)
        ensures
            r is Some <==> task_response_decodable(view, j@),
            r matches Some(tr) ==> task_response_matches(view, tr, j@),
    {
        match view {
            crate::v1::types::requests::View::Minimal => match MinimalTask::from_json(j) {
                Some(t) => Some(TaskResponse::Minimal(t)),
                None => None,
            },
            crate::v1::types::requests::View::Basic => match Task::from_json(j) {
                Some(t) => Some(TaskResponse::Basic(t)),
                None => None,
            },
            crate::v1::types::requests::View::Full => match Task::from_json(j) {
                Some(t) => Some(TaskResponse::Full(t)),
                None => None,
            },
        }
    }
}

/// Whether a list-tasks document decodes under the given view: a required
/// `tasks` array whose every item decodes for the view, and an optional
/// `next_page_token` string.
pub open spec fn list_tasks_decodable(
    view: crate::v1::types::requests::View,
    j: JsonV,
) -> bool {
    &&& j is Obj
    &&& req_arr_ok(j, "tasks"@)
    &&& (forall|i: int|
        0 <= i < arr_field(j, "tasks"@).len() ==> task_response_decodable(
            view,
            #[trigger] arr_field(j, "tasks"@)[i],
        ))
    &&& opt_str_ok(j, "next_page_token"@)
}

/// Whether a decoded page holds what the document says under the given
/// view.
pub open spec fn list_tasks_matches(
    view: crate::v1::types::requests::View,
    r: ListTasks<TaskResponse>,
    j: JsonV,
) -> bool {
    &&& r.tasks@.len() == arr_field(j, "tasks"@).len()
    &&& (forall|i: int|
        0 <= i < r.tasks@.len() ==> task_response_matches(
            view,
            #[trigger] r.tasks@[i],
            arr_field(j, "tasks"@)[i],
        ))
    &&& ovs(r.next_page_token) == opt_str_val(j, "next_page_token"@)
}

impl ListTasks<TaskResponse> {
    /// Decodes one page of list results for the given view, wrapping each
    /// task with the tag the view asks for.
    #[verifier::loop_isolation(false)]
    pub fn from_json(view: crate::v1::types::requests::View, j: &Json) -> (r: Option<
        ListTasks<TaskResponse>,
    >)
        ensures
            r is Some <==> list_tasks_decodable(view, j@),
            r matches Some(page) ==> list_tasks_matches(view, page, j@),
    {
        if !matches!(j, Json::Obj(_)) {
            return None;
        }
        let tasks_j = match crate::v1::json::obj_get(j, "tasks") {
            Some(v) => v,
            None => {
                return None;
            },
        };
        let tasks = match tasks_j {
            Json::Arr(items) => {
                let ghost itemsv = jv_seq(items@);
                proof {
                    lemma_jv_seq(items@);
                    assert(arr_field(j@, "tasks"@) == itemsv);
                }
                let n = items.len();
                let mut out: Vec<TaskResponse> = Vec::new();
                let mut i: usize = 0;
                while i < n
                    invariant
                        i <= n,
                        n == items@.len(),
                        itemsv == jv_seq(items@),
                        out@.len() == i,
                        forall|m: int|
                            0 <= m < i ==> task_response_decodable(view, #[trigger] itemsv[m]),
                        forall|m: int|
                            0 <= m < i ==> task_response_matches(
                                view,
                                #[trigger] out@[m],
                                itemsv[m],
                            ),
                    decreases n - i,
                {
                    match TaskResponse::from_json(view, &items[i]) {
                        Some(tr) => {
                            out.push(tr);
                        },
                        None => {
                            proof {
                                assert(!task_response_decodable(
                                    view,
                                    arr_field(j@, "tasks"@)[i as int],
                                ));
                            }
                            return None;
                        },
                    }
                    i = i + 1;
                }
                out
            },
            _ => {
                return None;
            },
        };
        let next_page_token = get_opt_str(j, "next_page_token")?;
        Some(ListTasks { tasks, next_page_token })
    }
}

} // verus!
