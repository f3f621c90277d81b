//! Tasks submitted to a service.

use vstd::prelude::*;
use crate::v1::json::{jv, jv_members, lemma_jv_members_push, spec_i64_str, Json, JsonV};
use crate::v1::types::responses::{
    distinct_keys, distinct_member_keys, opt_bool_ok, opt_bool_val, opt_i32_ok, opt_i32_val,
    opt_num_ok, opt_num_val, opt_obj_ok, opt_obj_val, opt_str_arr_ok, opt_str_arr_val,
    opt_str_obj_ok, opt_str_obj_val, opt_str_ok, opt_str_val, ovraw, ovs, ovsp, ovsv, pair_views,
    raw_member_views, req_str_arr_ok, req_str_arr_val, req_str_ok, req_str_val, str_views,
};

pub mod executor;
pub mod file;

verus! {

/// A type of an input or output.
#[derive(Copy, Clone, Debug, Eq, PartialEq, Structural)]
pub enum IoType {
    /// A file.
    File,

    /// A directory.
    Directory,
}

impl Default for IoType {
    /// The default kind is a file.
    fn default() -> (r: Self)
        ensures
            r == IoType::File,
    {
        IoType::File
    }
}

impl IoType {
    /// The wire token of the kind.
    pub open spec fn spec_token(&self) -> Seq<char> {
        match *self {
            IoType::File => "FILE"@,
            IoType::Directory => "DIRECTORY"@,
        }
    }

    /// The wire token of the kind.
    pub fn token(&self) -> (r: String)
        ensures
            r@ == self.spec_token(),
    {
        match *self {
            IoType::File => String::from_str("FILE"),
            IoType::Directory => String::from_str("DIRECTORY"),
        }
    }
}

/// The kind a `type` field denotes, where it does.
pub open spec fn spec_iotype_of(t: Seq<char>) -> Option<IoType> {
    if t == "FILE"@ {
        Some(IoType::File)
    } else if t == "DIRECTORY"@ {
        Some(IoType::Directory)
    } else {
        None
    }
}

/// Reads a kind token.
pub fn iotype_of_token(t: &str) -> (r: Option<IoType>)
    ensures
        r == spec_iotype_of(t@),
{
    if crate::v1::json::str_eq(t, "FILE") {
        Some(IoType::File)
    } else if crate::v1::json::str_eq(t, "DIRECTORY") {
        Some(IoType::Directory)
    } else {
        None
    }
}

/// Whether a required kind field is present and holds a kind token.
pub open spec fn req_iotype_ok(j: JsonV, k: Seq<char>) -> bool {
    crate::v1::json::jget(j, k) matches Some(v) && v matches JsonV::Str(t) && spec_iotype_of(t)
        is Some
}

/// The kind of a required kind field.
pub open spec fn req_iotype_val(j: JsonV, k: Seq<char>) -> IoType {
    match crate::v1::json::jget(j, k) {
        Some(JsonV::Str(t)) => match spec_iotype_of(t) {
            Some(v) => v,
            None => IoType::File,
        },
        _ => IoType::File,
    }
}

/// Reads a required kind field.
pub fn get_req_iotype(j: &Json, k: &str) -> (r: Option<IoType>)
    ensures
        r is Some <==> req_iotype_ok(j@, k@),
        r matches Some(v) ==> v == req_iotype_val(j@, k@),
{
    match crate::v1::json::obj_get(j, k) {
        None => None,
        Some(v) => match v {
            Json::Str(t) => iotype_of_token(t.as_str()),
            _ => None,
        },
    }
}

/// One member, always emitted.
pub open spec fn m_one(k: Seq<char>, v: JsonV) -> Seq<(Seq<char>, JsonV)> {
    seq![(k, v)]
}

/// One member where the value is there, nothing where it is not.
pub open spec fn m_opt(k: Seq<char>, o: Option<JsonV>) -> Seq<(Seq<char>, JsonV)> {
    match o {
        Some(v) => seq![(k, v)],
        None => Seq::empty(),
    }
}

/// One member, `null` where the value is not there.
pub open spec fn m_null(k: Seq<char>, o: Option<JsonV>) -> Seq<(Seq<char>, JsonV)> {
    match o {
        Some(v) => seq![(k, v)],
        None => seq![(k, JsonV::Null)],
    }
}

/// An optional text as an optional string value.
pub open spec fn jstr(o: Option<Seq<char>>) -> Option<JsonV> {
    match o {
        Some(s) => Some(JsonV::Str(s)),
        None => None,
    }
}

/// An optional flag as an optional boolean value.
pub open spec fn jbool(o: Option<bool>) -> Option<JsonV> {
    match o {
        Some(b) => Some(JsonV::Bool(b)),
        None => None,
    }
}

/// Texts as an array of string values.
pub open spec fn str_arr_jv(s: Seq<Seq<char>>) -> JsonV {
    JsonV::Arr(Seq::new(s.len(), |i: int| JsonV::Str(s[i])))
}

/// Text pairs as an object of string values.
pub open spec fn str_obj_jv(ps: Seq<(Seq<char>, Seq<char>)>) -> JsonV {
    JsonV::Obj(Seq::new(ps.len(), |i: int| (ps[i].0, JsonV::Str(ps[i].1))))
}

/// An object of strings keeps exactly the pair keys: distinct pairs give
/// an object with distinct keys, as the protocol's maps demand.
pub proof fn lemma_str_obj_jv_distinct(ps: Seq<(Seq<char>, Seq<char>)>)
    requires
        distinct_keys(ps),
    ensures
        distinct_member_keys(str_obj_jv(ps)->Obj_0),
{
    let ms = str_obj_jv(ps)->Obj_0;
    assert forall|i: int, j: int| 0 <= i < j < ms.len() implies (#[trigger] ms[i]).0 != (
    #[trigger] ms[j]).0 by {
        assert(ms[i].0 == ps[i].0);
        assert(ms[j].0 == ps[j].0);
    }
}

/// Appends one member, keeping its view.
pub fn push_member(ms: &mut Vec<(String, Json)>, k: &str, v: Json)
    ensures
        jv_members(final(ms)@) == jv_members(old(ms)@).push((k@, jv(v))),
{
    let key = k.to_owned();
    proof {
        lemma_jv_members_push(ms@, key, v);
    }
    ms.push((key, v));
}

/// Texts as an array-of-strings document.
#[verifier::loop_isolation(false)]
pub fn str_vec_to_json(v: &Vec<String>) -> (r: Json)
    ensures
        jv(r) == str_arr_jv(str_views(v@)),
{
    let n = v.len();
    let mut out: Vec<Json> = Vec::new();
    let mut i: usize = 0;
    while i < n
        invariant
            i <= n,
            n == v@.len(),
            out@.len() == i,
            forall|m: int| 0 <= m < i ==> jv(#[trigger] out@[m]) == JsonV::Str(v@[m]@),
        decreases n - i,
    {
        out.push(Json::Str(v[i].clone()));
        i = i + 1;
    }
    proof {
        crate::v1::json::lemma_jv_seq(out@);
        assert forall|m: int| 0 <= m < n implies crate::v1::json::jv_seq(out@)[m] == str_arr_jv(
            str_views(v@),
        )->Arr_0[m] by {
            assert(crate::v1::json::jv_seq(out@)[m] == jv(out@[m]));
        }
        assert(crate::v1::json::jv_seq(out@) =~= str_arr_jv(str_views(v@))->Arr_0);
    }
    Json::Arr(out)
}

/// Text pairs as an object-of-strings document.
#[verifier::loop_isolation(false)]
pub fn str_pairs_to_json(v: &Vec<(String, String)>) -> (r: Json)
    ensures
        jv(r) == str_obj_jv(pair_views(v@)),
{
    let n = v.len();
    let mut out: Vec<(String, Json)> = Vec::new();
    let mut i: usize = 0;
    while i < n
        invariant
            i <= n,
            n == v@.len(),
            out@.len() == i,
            forall|m: int|
                0 <= m < i ==> ((#[trigger] out@[m]).0@, jv(out@[m].1)) == (
                    v@[m].0@,
                    JsonV::Str(v@[m].1@),
                ),
        decreases n - i,
    {
        out.push((v[i].0.clone(), Json::Str(v[i].1.clone())));
        i = i + 1;
    }
    proof {
        crate::v1::json::lemma_jv_members(out@);
        assert forall|m: int| 0 <= m < n implies jv_members(out@)[m] == str_obj_jv(
            pair_views(v@),
        )->Obj_0[m] by {
            assert(jv_members(out@)[m] == (out@[m].0@, jv(out@[m].1)));
        }
        assert(jv_members(out@) =~= str_obj_jv(pair_views(v@))->Obj_0);
    }
    Json::Obj(out)
}

/// Raw members as an object document.
#[verifier::loop_isolation(false)]
pub fn raw_pairs_to_json(v: &Vec<(String, Json)>) -> (r: Json)
    ensures
        jv(r) == JsonV::Obj(raw_member_views(v@)),
{
    let n = v.len();
    let mut out: Vec<(String, Json)> = Vec::new();
    let mut i: usize = 0;
    while i < n
        invariant
            i <= n,
            n == v@.len(),
            out@.len() == i,
            forall|m: int|
                0 <= m < i ==> ((#[trigger] out@[m]).0@, jv(out@[m].1)) == (
                    v@[m].0@,
                    jv(v@[m].1),
                ),
        decreases n - i,
    {
        let c = v[i].1.clone_json();
        out.push((v[i].0.clone(), c));
        i = i + 1;
    }
    proof {
        crate::v1::json::lemma_jv_members(out@);
        assert forall|m: int| 0 <= m < n implies jv_members(out@)[m] == raw_member_views(v@)[m] by {
            assert(jv_members(out@)[m] == (out@[m].0@, jv(out@[m].1)));
        }
        assert(jv_members(out@) =~= raw_member_views(v@));
    }
    Json::Obj(out)
}

/// Task state as reported by the server.
#[derive(Copy, Clone, Debug, Eq, PartialEq)]
pub enum State {
    /// The state of the task is unknown.
    Unknown,

    /// The task is queued and awaiting resources to begin computing.
    Queued,

    /// The task has been assigned to a worker and is preparing to run.
    Initializing,

    /// The task is running.
    Running,

    /// The task is paused.
    Paused,

    /// The task has completed running.
    Complete,

    /// The task encountered an error in one of the executor processes.
    ExecutorError,

    /// The task was stopped due to a system error, not an executor error.
    SystemError,

    /// The task was canceled and downstream resources have been deleted.
    Canceled,

    /// The task was canceled but resources are still awaiting deletion.
    Canceling,

    /// The task was stopped (preempted) by the system.
    Preempted,
}

impl Default for State {
    /// The safe default: a missing state field does not imply any
    /// particular state, so an unknown one.
    fn default() -> (r: Self)
        ensures
            r == State::Unknown,
    {
        State::Unknown
    }
}

impl State {
    /// Whether the task has not yet finished: it is either waiting to run,
    /// preparing to run, running, paused, or in an unknown state.
    pub open spec fn spec_is_executing(&self) -> bool {
        match *self {
            State::Unknown | State::Queued | State::Initializing | State::Running
                | State::Paused => true,
            _ => false,
        }
    }

    /// The wire token of the state, as the protocol spells it.
    pub open spec fn spec_token(&self) -> Seq<char> {
        match *self {
            State::Unknown => "UNKNOWN"@,
            State::Queued => "QUEUED"@,
            State::Initializing => "INITIALIZING"@,
            State::Running => "RUNNING"@,
            State::Paused => "PAUSED"@,
            State::Complete => "COMPLETE"@,
            State::ExecutorError => "EXECUTOR_ERROR"@,
            State::SystemError => "SYSTEM_ERROR"@,
            State::Canceled => "CANCELED"@,
            State::Canceling => "CANCELING"@,
            State::Preempted => "PREEMPTED"@,
        }
    }

    /// The wire token of the state, as the protocol spells it.
    pub fn token(&self) -> (r: String)
        ensures
            r@ == self.spec_token(),
    {
        match *self {
            State::Unknown => String::from_str("UNKNOWN"),
            State::Queued => String::from_str("QUEUED"),
            State::Initializing => String::from_str("INITIALIZING"),
            State::Running => String::from_str("RUNNING"),
            State::Paused => String::from_str("PAUSED"),
            State::Complete => String::from_str("COMPLETE"),
            State::ExecutorError => String::from_str("EXECUTOR_ERROR"),
            State::SystemError => String::from_str("SYSTEM_ERROR"),
            State::Canceled => String::from_str("CANCELED"),
            State::Canceling => String::from_str("CANCELING"),
            State::Preempted => String::from_str("PREEMPTED"),
        }
    }

    /// Returns whether a task is still executing or not.
    pub fn is_executing(&self) -> (r: bool)
        ensures
            r == self.spec_is_executing(),
    {
        match *self {
            State::Unknown | State::Queued | State::Initializing | State::Running
                | State::Paused => true,
            _ => false,
        }
    }
}


/// An input for a task.
#[derive(Clone, Debug, Default, Eq, PartialEq)]
pub struct Input {
    /// An optional name.
    pub name: Option<String>,

    /// An optional description.
    pub description: Option<String>,

    /// An optional URL.
    pub url: Option<String>,

    /// Where the input will be mounted within the container.
    pub path: String,

    /// The type.
    pub ty: IoType,

    /// The content.
    pub content: Option<String>,

    /// Whether or not the input is streamable.
    pub streamable: Option<bool>,
}

/// The document an [`Input`] is written as: present optional fields and
/// the required ones, in field order.
pub open spec fn input_jv(t: Input) -> JsonV {
    JsonV::Obj(
        m_opt("name"@, jstr(ovs(t.name))) + m_opt("description"@, jstr(ovs(t.description)))
            + m_opt("url"@, jstr(ovs(t.url))) + m_one("path"@, JsonV::Str(t.path@)) + m_one(
            "type"@,
            JsonV::Str(t.ty.spec_token()),
        ) + m_opt("content"@, jstr(ovs(t.content))) + m_opt("streamable"@, jbool(t.streamable)),
    )
}

/// Whether a document decodes into an [`Input`].
pub open spec fn input_decodable(j: JsonV) -> bool {
    &&& j is Obj
    &&& opt_str_ok(j, "name"@)
    &&& opt_str_ok(j, "description"@)
    &&& opt_str_ok(j, "url"@)
    &&& req_str_ok(j, "path"@)
    &&& req_iotype_ok(j, "type"@)
    &&& opt_str_ok(j, "content"@)
    &&& opt_bool_ok(j, "streamable"@)
}

/// Whether an [`Input`] holds what the document says.
pub open spec fn input_matches(t: Input, j: JsonV) -> bool {
    &&& ovs(t.name) == opt_str_val(j, "name"@)
    &&& ovs(t.description) == opt_str_val(j, "description"@)
    &&& ovs(t.url) == opt_str_val(j, "url"@)
    &&& t.path@ == req_str_val(j, "path"@)
    &&& t.ty == req_iotype_val(j, "type"@)
    &&& ovs(t.content) == opt_str_val(j, "content"@)
    &&& t.streamable == opt_bool_val(j, "streamable"@)
}

impl Input {
    /// Decodes an input.
    pub fn from_json(j: &Json) -> (r: Option<Input>)
        ensures
            r is Some <==> input_decodable(j@),
            r matches Some(t) ==> input_matches(t, j@),
    {
        if !matches!(j, Json::Obj(_)) {
            return None;
        }
        let name = crate::v1::types::responses::get_opt_str(j, "name")?;
        let description = crate::v1::types::responses::get_opt_str(j, "description")?;
        let url = crate::v1::types::responses::get_opt_str(j, "url")?;
        let path = crate::v1::types::responses::get_req_str(j, "path")?;
        let ty = get_req_iotype(j, "type")?;
        let content = crate::v1::types::responses::get_opt_str(j, "content")?;
        let streamable = crate::v1::types::responses::get_opt_bool(j, "streamable")?;
        Some(Input { name, description, url, path, ty, content, streamable })
    }

    /// Writes the input as a document.
    #[verifier::rlimit(100)]
    pub fn to_json(&self) -> (r: Json)
        ensures
            jv(r) == input_jv(*self),
    {
        let mut ms: Vec<(String, Json)> = Vec::new();
        proof {
            assert(jv_members(ms@) =~= Seq::<(Seq<char>, JsonV)>::empty());
        }
        if let Some(v) = &self.name {
            push_member(&mut ms, "name", Json::Str(v.clone()));
        }
        if let Some(v) = &self.description {
            push_member(&mut ms, "description", Json::Str(v.clone()));
        }
        if let Some(v) = &self.url {
            push_member(&mut ms, "url", Json::Str(v.clone()));
        }
        push_member(&mut ms, "path", Json::Str(self.path.clone()));
        let tok = self.ty.token();
        push_member(&mut ms, "type", Json::Str(tok));
        if let Some(v) = &self.content {
            push_member(&mut ms, "content", Json::Str(v.clone()));
        }
        if let Some(v) = &self.streamable {
            push_member(&mut ms, "streamable", Json::Bool(*v));
        }
        proof {
            assert(jv_members(ms@) =~= input_jv(*self)->Obj_0);
        }
        Json::Obj(ms)
    }
}

/// An output for a task.
#[derive(Clone, Debug, Default, Eq, PartialEq)]
pub struct Output {
    /// An optional name.
    pub name: Option<String>,

    /// An optional description.
    pub description: Option<String>,

    /// The URL where the result will be stored.
    pub url: String,

    /// The path to the output within the container.
    pub path: String,

    /// The prefix to be removed from matching outputs if `path` contains
    /// wildcards.
    pub path_prefix: Option<String>,

    /// The type of the output.
    pub ty: IoType,
}

/// The document an [`Output`] is written as.
pub open spec fn output_jv(t: Output) -> JsonV {
    JsonV::Obj(
        m_opt("name"@, jstr(ovs(t.name))) + m_opt("description"@, jstr(ovs(t.description)))
            + m_one("url"@, JsonV::Str(t.url@)) + m_one("path"@, JsonV::Str(t.path@)) + m_opt(
            "path_prefix"@,
            jstr(ovs(t.path_prefix)),
        ) + m_one("type"@, JsonV::Str(t.ty.spec_token())),
    )
}

/// Whether a document decodes into an [`Output`].
pub open spec fn output_decodable(j: JsonV) -> bool {
    &&& j is Obj
    &&& opt_str_ok(j, "name"@)
    &&& opt_str_ok(j, "description"@)
    &&& req_str_ok(j, "url"@)
    &&& req_str_ok(j, "path"@)
    &&& opt_str_ok(j, "path_prefix"@)
    &&& req_iotype_ok(j, "type"@)
}

/// Whether an [`Output`] holds what the document says.
pub open spec fn output_matches(t: Output, j: JsonV) -> bool {
    &&& ovs(t.name) == opt_str_val(j, "name"@)
    &&& ovs(t.description) == opt_str_val(j, "description"@)
    &&& t.url@ == req_str_val(j, "url"@)
    &&& t.path@ == req_str_val(j, "path"@)
    &&& ovs(t.path_prefix) == opt_str_val(j, "path_prefix"@)
    &&& t.ty == req_iotype_val(j, "type"@)
}

impl Output {
    /// Decodes an output.
    pub fn from_json(j: &Json) -> (r: Option<Output>)
        ensures
            r is Some <==> output_decodable(j@),
            r matches Some(t) ==> output_matches(t, j@),
    {
        if !matches!(j, Json::Obj(_)) {
            return None;
        }
        let name = crate::v1::types::responses::get_opt_str(j, "name")?;
        let description = crate::v1::types::responses::get_opt_str(j, "description")?;
        let url = crate::v1::types::responses::get_req_str(j, "url")?;
        let path = crate::v1::types::responses::get_req_str(j, "path")?;
        let path_prefix = crate::v1::types::responses::get_opt_str(j, "path_prefix")?;
        let ty = get_req_iotype(j, "type")?;
        Some(Output { name, description, url, path, path_prefix, ty })
    }

    /// Writes the output as a document.
    #[verifier::rlimit(100)]
    pub fn to_json(&self) -> (r: Json)
        ensures
            jv(r) == output_jv(*self),
    {
        let mut ms: Vec<(String, Json)> = Vec::new();
        proof {
            assert(jv_members(ms@) =~= Seq::<(Seq<char>, JsonV)>::empty());
        }
        if let Some(v) = &self.name {
            push_member(&mut ms, "name", Json::Str(v.clone()));
        }
        if let Some(v) = &self.description {
            push_member(&mut ms, "description", Json::Str(v.clone()));
        }
        push_member(&mut ms, "url", Json::Str(self.url.clone()));
        push_member(&mut ms, "path", Json::Str(self.path.clone()));
        if let Some(v) = &self.path_prefix {
            push_member(&mut ms, "path_prefix", Json::Str(v.clone()));
        }
        let tok = self.ty.token();
        push_member(&mut ms, "type", Json::Str(tok));
        proof {
            assert(jv_members(ms@) =~= output_jv(*self)->Obj_0);
        }
        Json::Obj(ms)
    }
}

/// Requested resources for a task.
///
/// The memory and disk sizes keep the number literal the document held, so
/// that writing a decoded value reproduces it exactly.
#[derive(Clone, Debug, Default, Eq, PartialEq)]
pub struct Resources {
    /// The number of CPU cores.
    pub cpu_cores: Option<i32>,

    /// Whether or not the task prefers to be preemptible.
    pub preemptible: Option<bool>,

    /// The amount of RAM (in gigabytes), as a number literal.
    pub ram_gb: Option<String>,

    /// The amount of disk space (in gigabytes), as a number literal.
    pub disk_gb: Option<String>,

    /// The requested compute zones for the task.
    pub zones: Option<Vec<String>>,

    /// The optional backend parameters for the task, in document order.
    pub backend_parameters: Option<Vec<(String, Json)>>,

    /// If set, backends should fail the task if any backend parameters are
    /// unsupported.
    pub backend_parameters_strict: Option<bool>,
}

/// An optional integer as an optional number value.
pub open spec fn jnum_i32(o: Option<i32>) -> Option<JsonV> {
    match o {
        Some(n) => Some(JsonV::Num(spec_i64_str(n as int))),
        None => None,
    }
}

/// An optional number literal as an optional number value.
pub open spec fn jnum_lit(o: Option<Seq<char>>) -> Option<JsonV> {
    match o {
        Some(t) => Some(JsonV::Num(t)),
        None => None,
    }
}

/// The document a [`Resources`] is written as.
pub open spec fn resources_jv(t: Resources) -> JsonV {
    JsonV::Obj(
        m_opt("cpu_cores"@, jnum_i32(t.cpu_cores)) + m_opt("preemptible"@, jbool(t.preemptible))
            + m_opt("ram_gb"@, jnum_lit(ovs(t.ram_gb))) + m_opt(
            "disk_gb"@,
            jnum_lit(ovs(t.disk_gb)),
        ) + m_opt(
            "zones"@,
            match t.zones {
                Some(z) => Some(str_arr_jv(str_views(z@))),
                None => None,
            },
        ) + m_opt(
            "backend_parameters"@,
            match t.backend_parameters {
                Some(ps) => Some(JsonV::Obj(raw_member_views(ps@))),
                None => None,
            },
        ) + m_opt("backend_parameters_strict"@, jbool(t.backend_parameters_strict)),
    )
}

/// Whether a document decodes into a [`Resources`].
pub open spec fn resources_decodable(j: JsonV) -> bool {
    &&& j is Obj
    &&& opt_i32_ok(j, "cpu_cores"@)
    &&& opt_bool_ok(j, "preemptible"@)
    &&& opt_num_ok(j, "ram_gb"@)
    &&& opt_num_ok(j, "disk_gb"@)
    &&& opt_str_arr_ok(j, "zones"@)
    &&& opt_obj_ok(j, "backend_parameters"@)
    &&& opt_bool_ok(j, "backend_parameters_strict"@)
}

/// Whether a [`Resources`] holds what the document says.
pub open spec fn resources_matches(t: Resources, j: JsonV) -> bool {
    &&& (match t.cpu_cores {
        Some(n) => opt_i32_val(j, "cpu_cores"@) == Some(n as int),
        None => opt_i32_val(j, "cpu_cores"@) is None,
    })
    &&& t.preemptible == opt_bool_val(j, "preemptible"@)
    &&& ovs(t.ram_gb) == opt_num_val(j, "ram_gb"@)
    &&& ovs(t.disk_gb) == opt_num_val(j, "disk_gb"@)
    &&& ovsv(t.zones) == opt_str_arr_val(j, "zones"@)
    &&& ovraw(t.backend_parameters) == opt_obj_val(j, "backend_parameters"@)
    &&& t.backend_parameters_strict == opt_bool_val(j, "backend_parameters_strict"@)
}

impl Resources {
    /// Well-formedness: the backend parameters are a map, so their keys
    /// are distinct. The type does not enforce this on construction; a
    /// well-formed request encodes them as an object with distinct keys.
    pub open spec fn wf(&self) -> bool {
        match self.backend_parameters {
            Some(ps) => distinct_member_keys(raw_member_views(ps@)),
            None => true,
        }
    }

    /// Decodes a resources request.
    pub fn from_json(j: &Json) -> (r: Option<Resources>)
        ensures
            r is Some <==> resources_decodable(j@),
            r matches Some(t) ==> resources_matches(t, j@),
    {
        if !matches!(j, Json::Obj(_)) {
            return None;
        }
        let cpu_cores = crate::v1::types::responses::get_opt_i32(j, "cpu_cores")?;
        let preemptible = crate::v1::types::responses::get_opt_bool(j, "preemptible")?;
        let ram_gb = crate::v1::types::responses::get_opt_num(j, "ram_gb")?;
        let disk_gb = crate::v1::types::responses::get_opt_num(j, "disk_gb")?;
        let zones = crate::v1::types::responses::get_opt_str_arr(j, "zones")?;
        let backend_parameters = crate::v1::types::responses::get_opt_obj_pairs(
            j,
            "backend_parameters",
        )?;
        let backend_parameters_strict = crate::v1::types::responses::get_opt_bool(
            j,
            "backend_parameters_strict",
        )?;
        Some(
            Resources {
                cpu_cores,
                preemptible,
                ram_gb,
                disk_gb,
                zones,
                backend_parameters,
                backend_parameters_strict,
            },
        )
    }

    /// Writes the resources request as a document.
    #[verifier::rlimit(100)]
    pub fn to_json(&self) -> (r: Json)
        ensures
            jv(r) == resources_jv(*self),
    {
        let ghost g1 = m_opt("cpu_cores"@, jnum_i32(self.cpu_cores));
        let ghost g2 = m_opt("preemptible"@, jbool(self.preemptible));
        let ghost g3 = m_opt("ram_gb"@, jnum_lit(ovs(self.ram_gb)));
        let ghost g4 = m_opt("disk_gb"@, jnum_lit(ovs(self.disk_gb)));
        let ghost g5 = m_opt(
            "zones"@,
            match self.zones {
                Some(ref z) => Some(str_arr_jv(str_views(z@))),
                None => None,
            },
        );
        let ghost g6 = m_opt(
            "backend_parameters"@,
            match self.backend_parameters {
                Some(ref ps) => Some(JsonV::Obj(raw_member_views(ps@))),
                None => None,
            },
        );
        let ghost g7 = m_opt("backend_parameters_strict"@, jbool(self.backend_parameters_strict));
        let mut ms: Vec<(String, Json)> = Vec::new();
        proof {
            assert(jv_members(ms@) =~= Seq::<(Seq<char>, JsonV)>::empty());
        }
        if let Some(n) = &self.cpu_cores {
            let text = crate::v1::json::i64_to_string(*n as i64);
            push_member(&mut ms, "cpu_cores", Json::Num(text));
        }
        assert(jv_members(ms@) =~= g1);
        if let Some(b) = &self.preemptible {
            push_member(&mut ms, "preemptible", Json::Bool(*b));
        }
        assert(jv_members(ms@) =~= g1 + g2);
        if let Some(t) = &self.ram_gb {
            push_member(&mut ms, "ram_gb", Json::Num(t.clone()));
        }
        assert(jv_members(ms@) =~= (g1 + g2) + g3);
        if let Some(t) = &self.disk_gb {
            push_member(&mut ms, "disk_gb", Json::Num(t.clone()));
        }
        assert(jv_members(ms@) =~= ((g1 + g2) + g3) + g4);
        if let Some(z) = &self.zones {
            let arr = str_vec_to_json(z);
            push_member(&mut ms, "zones", arr);
        }
        assert(jv_members(ms@) =~= (((g1 + g2) + g3) + g4) + g5);
        if let Some(ps) = &self.backend_parameters {
            let obj = raw_pairs_to_json(ps);
            push_member(&mut ms, "backend_parameters", obj);
        }
        assert(jv_members(ms@) =~= ((((g1 + g2) + g3) + g4) + g5) + g6);
        if let Some(b) = &self.backend_parameters_strict {
            push_member(&mut ms, "backend_parameters_strict", Json::Bool(*b));
        }
        assert(jv_members(ms@) =~= (((((g1 + g2) + g3) + g4) + g5) + g6) + g7);
        proof {
            assert(resources_jv(*self)->Obj_0 =~= (((((g1 + g2) + g3) + g4) + g5) + g6) + g7);
        }
        Json::Obj(ms)
    }
}

/// An executor: a single command run in a container image. Executors run
/// sequentially as they are given in the task.
#[derive(Clone, Debug, Default, Eq, PartialEq)]
pub struct Executor {
    /// The image.
    pub image: String,

    /// The command.
    pub command: Vec<String>,

    /// The working directory.
    pub workdir: Option<String>,

    /// The path from which to pipe the standard input stream.
    pub stdin: Option<String>,

    /// The path to pipe the standard output stream to.
    pub stdout: Option<String>,

    /// The path to pipe the standard error stream to.
    pub stderr: Option<String>,

    /// The environment variables, as name/value pairs.
    pub env: Option<Vec<(String, String)>>,

    /// If set, the runner records error exit codes but continues on to the
    /// next executor instead of stopping at the first error.
    pub ignore_error: Option<bool>,
}

/// The document an [`Executor`] is written as: every field is emitted, the
/// absent ones as `null`.
pub open spec fn executor_jv(t: Executor) -> JsonV {
    JsonV::Obj(
        m_one("image"@, JsonV::Str(t.image@)) + m_one(
            "command"@,
            str_arr_jv(str_views(t.command@)),
        ) + m_null("workdir"@, jstr(ovs(t.workdir))) + m_null("stdin"@, jstr(ovs(t.stdin)))
            + m_null("stdout"@, jstr(ovs(t.stdout))) + m_null("stderr"@, jstr(ovs(t.stderr)))
            + m_null(
            "env"@,
            match t.env {
                Some(ps) => Some(str_obj_jv(pair_views(ps@))),
                None => None,
            },
        ) + m_null("ignore_error"@, jbool(t.ignore_error)),
    )
}

/// Whether a document decodes into an [`Executor`].
pub open spec fn executor_decodable(j: JsonV) -> bool {
    &&& j is Obj
    &&& req_str_ok(j, "image"@)
    &&& req_str_arr_ok(j, "command"@)
    &&& opt_str_ok(j, "workdir"@)
    &&& opt_str_ok(j, "stdin"@)
    &&& opt_str_ok(j, "stdout"@)
    &&& opt_str_ok(j, "stderr"@)
    &&& opt_str_obj_ok(j, "env"@)
    &&& opt_bool_ok(j, "ignore_error"@)
}

/// Whether an [`Executor`] holds what the document says.
pub open spec fn executor_matches(t: Executor, j: JsonV) -> bool {
    &&& t.image@ == req_str_val(j, "image"@)
    &&& str_views(t.command@) == req_str_arr_val(j, "command"@)
    &&& ovs(t.workdir) == opt_str_val(j, "workdir"@)
    &&& ovs(t.stdin) == opt_str_val(j, "stdin"@)
    &&& ovs(t.stdout) == opt_str_val(j, "stdout"@)
    &&& ovs(t.stderr) == opt_str_val(j, "stderr"@)
    &&& ovsp(t.env) == opt_str_obj_val(j, "env"@)
    &&& t.ignore_error == opt_bool_val(j, "ignore_error"@)
}

impl Executor {
    /// Well-formedness: the environment is a map, so its keys are
    /// distinct. The type does not enforce this on construction; a
    /// well-formed executor encodes its environment as an object with
    /// distinct keys (see [`lemma_str_obj_jv_distinct`]).
    pub open spec fn wf(&self) -> bool {
        match self.env {
            Some(ps) => distinct_keys(pair_views(ps@)),
            None => true,
        }
    }

    /// Decodes an executor.
    pub fn from_json(j: &Json) -> (r: Option<Executor>)
        ensures
            r is Some <==> executor_decodable(j@),
            r matches Some(t) ==> executor_matches(t, j@),
    {
        if !matches!(j, Json::Obj(_)) {
            return None;
        }
        let image = crate::v1::types::responses::get_req_str(j, "image")?;
        let command = crate::v1::types::responses::get_req_str_arr(j, "command")?;
        let workdir = crate::v1::types::responses::get_opt_str(j, "workdir")?;
        let stdin = crate::v1::types::responses::get_opt_str(j, "stdin")?;
        let stdout = crate::v1::types::responses::get_opt_str(j, "stdout")?;
        let stderr = crate::v1::types::responses::get_opt_str(j, "stderr")?;
        let env = crate::v1::types::responses::get_opt_str_pairs(j, "env")?;
        let ignore_error = crate::v1::types::responses::get_opt_bool(j, "ignore_error")?;
        Some(Executor { image, command, workdir, stdin, stdout, stderr, env, ignore_error })
    }

    /// Writes the executor as a document.
    #[verifier::rlimit(100)]
    pub fn to_json(&self) -> (r: Json)
        ensures
            jv(r) == executor_jv(*self),
    {
        let mut ms: Vec<(String, Json)> = Vec::new();
        proof {
            assert(jv_members(ms@) =~= Seq::<(Seq<char>, JsonV)>::empty());
        }
        push_member(&mut ms, "image", Json::Str(self.image.clone()));
        let cmd = str_vec_to_json(&self.command);
        push_member(&mut ms, "command", cmd);
        match &self.workdir {
            Some(v) => push_member(&mut ms, "workdir", Json::Str(v.clone())),
            None => push_member(&mut ms, "workdir", Json::Null),
        }
        match &self.stdin {
            Some(v) => push_member(&mut ms, "stdin", Json::Str(v.clone())),
            None => push_member(&mut ms, "stdin", Json::Null),
        }
        match &self.stdout {
            Some(v) => push_member(&mut ms, "stdout", Json::Str(v.clone())),
            None => push_member(&mut ms, "stdout", Json::Null),
        }
        match &self.stderr {
            Some(v) => push_member(&mut ms, "stderr", Json::Str(v.clone())),
            None => push_member(&mut ms, "stderr", Json::Null),
        }
        match &self.env {
            Some(ps) => {
                let obj = str_pairs_to_json(ps);
                push_member(&mut ms, "env", obj);
            },
            None => push_member(&mut ms, "env", Json::Null),
        }
        match &self.ignore_error {
            Some(b) => push_member(&mut ms, "ignore_error", Json::Bool(*b)),
            None => push_member(&mut ms, "ignore_error", Json::Null),
        }
        proof {
            assert(jv_members(ms@) =~= executor_jv(*self)->Obj_0);
        }
        Json::Obj(ms)
    }
}

} // verus!
