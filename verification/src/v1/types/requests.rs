//! Requests to a service.

use vstd::prelude::*;
use vstd::utf8::encode_utf8;
use vstd::view::View as _;
use crate::v1::json::{hex_digit, jv, jv_members, spec_u64_str, u64_to_string, Json, JsonV};
use crate::v1::types::responses::{distinct_keys, ovs, pair_views, str_views};
use crate::v1::types::task::{
    executor_jv, input_jv, jstr, m_one, m_opt, output_jv, push_member, resources_jv,
    str_arr_jv, str_obj_jv, str_pairs_to_json, str_vec_to_json, Executor, Input, Output,
    Resources, State,
};

verus! {

/// The default number of tasks in a page of list results. A request does
/// not send it: the server supplies its own default.
pub const DEFAULT_PAGE_SIZE: u16 = 256;

/// The exclusive maximum number of tasks in a page of list results.
pub const MAX_PAGE_SIZE: u16 = 2048;

/// A requested view of tasks.
#[derive(Copy, Clone, Debug, Eq, PartialEq, Hash, Structural)]
pub enum View {
    /// The `MINIMAL` view.
    Minimal,

    /// The `BASIC` view.
    Basic,

    /// The `FULL` view.
    Full,
}

impl Default for View {
    /// The default view is `MINIMAL`.
    fn default() -> (r: Self)
        ensures
            r == View::Minimal,
    {
        View::Minimal
    }
}

impl View {
    /// The value sent in the `view` query parameter.
    pub open spec fn spec_query_value(&self) -> Seq<char> {
        match *self {
            View::Minimal => "MINIMAL"@,
            View::Basic => "BASIC"@,
            View::Full => "FULL"@,
        }
    }

    /// The value sent in the `view` query parameter.
    pub fn query_value(&self) -> (r: String)
        ensures
            r@ == self.spec_query_value(),
    {
        match *self {
            View::Minimal => String::from_str("MINIMAL"),
            View::Basic => String::from_str("BASIC"),
            View::Full => String::from_str("FULL"),
        }
    }
}

/// Whether a byte stands for itself in a form-encoded query string:
/// letters, digits, and `*`, `-`, `.`, `_`.
pub open spec fn form_unchanged(b: u8) -> bool {
    b == 0x2A || b == 0x2D || b == 0x2E || (0x30 <= b <= 0x39) || (0x41 <= b <= 0x5A) || b == 0x5F
        || (0x61 <= b <= 0x7A)
}

/// A hexadecimal digit in upper case, as percent escapes spell them.
pub open spec fn hex_upper(n: int) -> char {
    if n == 10 { 'A' } else if n == 11 { 'B' } else if n == 12 { 'C' } else if n == 13 { 'D' }
    else if n == 14 { 'E' } else if n == 15 { 'F' } else { hex_digit(n) }
}

/// The form encoding of one byte: itself where allowed, `+` for a space,
/// and a percent escape otherwise.
pub open spec fn form_enc_byte(b: u8) -> Seq<char> {
    if form_unchanged(b) {
        seq![b as char]
    } else if b == 0x20 {
        seq!['+']
    } else {
        seq!['%', hex_upper(b as int / 16), hex_upper(b as int % 16)]
    }
}

/// The form encoding of a byte string.
pub open spec fn spec_form_enc(bs: Seq<u8>) -> Seq<char>
    decreases bs.len(),
{
    if bs.len() == 0 {
        Seq::empty()
    } else {
        form_enc_byte(bs[0]) + spec_form_enc(bs.subrange(1, bs.len() as int))
    }
}

/// Appending a byte extends the form encoding by that byte's encoding.
proof fn lemma_form_enc_push(bs: Seq<u8>, b: u8)
    ensures
        spec_form_enc(bs.push(b)) == spec_form_enc(bs) + form_enc_byte(b),
    decreases bs.len(),
{
    if bs.len() == 0 {
        assert(bs.push(b) =~= seq![b]);
        assert(seq![b].subrange(1, 1) =~= Seq::<u8>::empty());
        assert(spec_form_enc(seq![b]) == form_enc_byte(b) + spec_form_enc(seq![b].subrange(1, 1)));
        assert(spec_form_enc(bs) + form_enc_byte(b) =~= form_enc_byte(b));
        assert(form_enc_byte(b) + Seq::<char>::empty() =~= form_enc_byte(b));
    } else {
        let rest = bs.subrange(1, bs.len() as int);
        lemma_form_enc_push(rest, b);
        assert(bs.push(b).subrange(1, bs.push(b).len() as int) =~= rest.push(b));
        assert(bs.push(b)[0] == bs[0]);
        assert((form_enc_byte(bs[0]) + (spec_form_enc(rest) + form_enc_byte(b))) =~= ((form_enc_byte(
            bs[0],
        ) + spec_form_enc(rest)) + form_enc_byte(b)));
    }
}

/// A hexadecimal digit in upper case.
fn hex_upper_exec(n: u8) -> (c: char)
    requires
        n < 16,
    ensures
        c == hex_upper(n as int),
{
    match n {
        0 => '0',
        1 => '1',
        2 => '2',
        3 => '3',
        4 => '4',
        5 => '5',
        6 => '6',
        7 => '7',
        8 => '8',
        9 => '9',
        10 => 'A',
        11 => 'B',
        12 => 'C',
        13 => 'D',
        14 => 'E',
        _ => 'F',
    }
}

/// Appends the form encoding of the text's UTF-8 bytes.
#[verifier::loop_isolation(false)]
fn push_form_enc(out: &mut Vec<char>, s: &str)
    ensures
        final(out)@ == old(out)@ + spec_form_enc(encode_utf8(s@)),
{
    let bytes = s.as_bytes_vec();
    let n = bytes.len();
    let mut i: usize = 0;
    while i < n
        invariant
            n == bytes@.len(),
            bytes@ == encode_utf8(s@),
            i <= n,
            out@ =~= old(out)@ + spec_form_enc(bytes@.subrange(0, i as int)),
        decreases n - i,
    {
        let b = bytes[i];
        proof {
            lemma_form_enc_push(bytes@.subrange(0, i as int), b);
            assert(bytes@.subrange(0, i as int).push(b) =~= bytes@.subrange(0, i as int + 1));
        }
        if b == 0x2A || b == 0x2D || b == 0x2E || (0x30 <= b && b <= 0x39) || (0x41 <= b && b
            <= 0x5A) || b == 0x5F || (0x61 <= b && b <= 0x7A) {
            out.push(b as char);
        } else if b == 0x20 {
            out.push('+');
        } else {
            out.push('%');
            out.push(hex_upper_exec(b / 16));
            out.push(hex_upper_exec(b % 16));
        }
        assert(out@ =~= old(out)@ + spec_form_enc(bytes@.subrange(0, i as int + 1)));
        i = i + 1;
    }
    assert(bytes@.subrange(0, n as int) =~= bytes@);
}

/// One `key=value` pair of a query string, the value form-encoded.
pub open spec fn spec_pair(key: Seq<char>, value: Seq<char>) -> Seq<char> {
    key + seq!['='] + spec_form_enc(encode_utf8(value))
}

/// Query-string pairs joined by `&`.
pub open spec fn spec_join_pairs(pairs: Seq<Seq<char>>) -> Seq<char>
    decreases pairs.len(),
{
    if pairs.len() == 0 {
        Seq::empty()
    } else if pairs.len() == 1 {
        pairs[0]
    } else {
        pairs[0] + seq!['&'] + spec_join_pairs(pairs.subrange(1, pairs.len() as int))
    }
}

/// Appending a pair on the right extends the joined string on the right.
proof fn lemma_join_pairs_push(pairs: Seq<Seq<char>>, p: Seq<char>)
    ensures
        spec_join_pairs(pairs.push(p)) == if pairs.len() == 0 {
            p
        } else {
            spec_join_pairs(pairs) + seq!['&'] + p
        },
    decreases pairs.len(),
{
    if pairs.len() == 0 {
        assert(pairs.push(p) =~= seq![p]);
    } else {
        let rest = pairs.subrange(1, pairs.len() as int);
        lemma_join_pairs_push(rest, p);
        assert(pairs.push(p).subrange(1, pairs.push(p).len() as int) =~= rest.push(p));
        assert(pairs.push(p)[0] == pairs[0]);
        if pairs.len() == 1 {
            assert(rest.len() == 0);
        } else {
            assert((pairs[0] + seq!['&'] + (spec_join_pairs(rest) + seq!['&'] + p)) =~= ((pairs[0]
                + seq!['&'] + spec_join_pairs(rest)) + seq!['&'] + p));
        }
    }
}

/// The views of a sequence of strings.
pub open spec fn views_of_strings(s: Seq<String>) -> Seq<Seq<char>> {
    Seq::new(s.len(), |i: int| s[i]@)
}

/// Appending a string on the right maps through `views_of_strings`.
proof fn lemma_views_push(prev: Seq<String>, x: String)
    ensures
        views_of_strings(prev.push(x)) == views_of_strings(prev).push(x@),
{
    assert forall|k: int| 0 <= k < prev.push(x).len() implies views_of_strings(prev.push(x))[k]
        == views_of_strings(prev).push(x@)[k] by {
        if k < prev.len() {
            assert(prev.push(x)[k] == prev[k]);
        } else {
            assert(prev.push(x)[k] == x);
        }
    }
    assert(views_of_strings(prev.push(x)) =~= views_of_strings(prev).push(x@));
}

/// Appends one pair, keeping its view.
fn push_pair(pairs: &mut Vec<String>, p: String)
    ensures
        views_of_strings(final(pairs)@) == views_of_strings(old(pairs)@).push(p@),
{
    proof {
        lemma_views_push(pairs@, p);
    }
    pairs.push(p);
}

/// Builds one `key=value` pair, the value form-encoded.
fn make_pair(key: &str, value: &str) -> (r: String)
    ensures
        r@ == spec_pair(key@, value@),
{
    let mut out: Vec<char> = Vec::new();
    crate::v1::json::push_chars(&mut out, key);
    out.push('=');
    push_form_enc(&mut out, value);
    crate::v1::json::chars_to_string(&out)
}

/// Joins pairs with `&`.
#[verifier::loop_isolation(false)]
fn join_pairs(pairs: &Vec<String>) -> (r: String)
    ensures
        r@ == spec_join_pairs(views_of_strings(pairs@)),
{
    let ghost pv = views_of_strings(pairs@);
    let mut out: Vec<char> = Vec::new();
    let mut i: usize = 0;
    while i < pairs.len()
        invariant
            i <= pairs@.len(),
            pv == views_of_strings(pairs@),
            out@ =~= spec_join_pairs(pv.subrange(0, i as int)),
        decreases pairs@.len() - i,
    {
        if i > 0 {
            out.push('&');
        }
        proof {
            lemma_join_pairs_push(pv.subrange(0, i as int), pv[i as int]);
            assert(pv.subrange(0, i as int).push(pv[i as int]) =~= pv.subrange(0, i as int + 1));
        }
        crate::v1::json::push_chars(&mut out, pairs[i].as_str());
        assert(out@ =~= spec_join_pairs(pv.subrange(0, i as int + 1)));
        i = i + 1;
    }
    assert(pv.subrange(0, pv.len() as int) =~= pv);
    crate::v1::json::chars_to_string(&out)
}

/// The query parameters for the get-task endpoint.
#[derive(Copy, Clone, Debug, Default)]
pub struct GetTaskParams {
    /// The view of the returned task.
    pub view: View,
}

impl GetTaskParams {
    /// The query string the parameters stand for: the single `view` pair.
    pub open spec fn spec_query(self) -> Seq<char> {
        spec_pair("view"@, self.view.spec_query_value())
    }

    /// Writes the parameters as a query string.
    pub fn query_string(&self) -> (r: String)
        ensures
            r@ == self.spec_query(),
    {
        let value = self.view.query_value();
        make_pair("view", value.as_str())
    }
}

/// The query parameters for the list-tasks endpoint.
#[derive(Clone, Debug, Default)]
pub struct ListTasksParams {
    /// The filter for task name (prefixed). If absent, no name filtering is
    /// requested.
    pub name_prefix: Option<String>,
    /// The filter for task state. If absent, no state filtering is
    /// requested.
    pub state: Option<State>,
    /// The filter for task tag keys, zipped with `tag_values`.
    pub tag_keys: Option<Vec<String>>,
    /// The filter for task tag values, zipped with `tag_keys`. An empty
    /// value matches every value.
    pub tag_values: Option<Vec<String>>,
    /// The number of tasks in one page. Must be less than
    /// [`MAX_PAGE_SIZE`]; when absent the server chooses, defaulting to
    /// [`DEFAULT_PAGE_SIZE`].
    pub page_size: Option<u16>,
    /// The token for the next page of results, from the last response's
    /// `next_page_token`. When absent the first page is requested.
    pub page_token: Option<String>,
    /// The view of the returned tasks.
    pub view: Option<View>,
}

/// The pairs a repeated tag parameter stands for: one per value, in order.
pub open spec fn spec_tag_pairs(key: Seq<char>, vals: Seq<String>) -> Seq<Seq<char>> {
    Seq::new(vals.len(), |i: int| spec_pair(key, vals[i]@))
}

/// The pairs an optional field contributes: none where absent.
pub open spec fn spec_opt_pair(key: Seq<char>, val: Option<Seq<char>>) -> Seq<Seq<char>> {
    match val {
        Some(v) => seq![spec_pair(key, v)],
        None => Seq::empty(),
    }
}

impl ListTasksParams {
    /// The query-string pairs the parameters stand for, in the protocol's
    /// field order, absent fields omitted.
    pub open spec fn spec_pairs(self) -> Seq<Seq<char>> {
        spec_opt_pair(
            "name_prefix"@,
            match self.name_prefix {
                Some(s) => Some(s@),
                None => None,
            },
        ) + spec_opt_pair(
            "state"@,
            match self.state {
                Some(st) => Some(st.spec_token()),
                None => None,
            },
        ) + (match self.tag_keys {
            Some(ks) => spec_tag_pairs("tag_key"@, ks@),
            None => Seq::empty(),
        }) + (match self.tag_values {
            Some(vs) => spec_tag_pairs("tag_value"@, vs@),
            None => Seq::empty(),
        }) + spec_opt_pair(
            "page_size"@,
            match self.page_size {
                Some(n) => Some(spec_u64_str(n as int)),
                None => None,
            },
        ) + spec_opt_pair(
            "page_token"@,
            match self.page_token {
                Some(s) => Some(s@),
                None => None,
            },
        ) + spec_opt_pair(
            "view"@,
            match self.view {
                Some(v) => Some(v.spec_query_value()),
                None => None,
            },
        )
    }

    /// The query string the parameters stand for: the pairs joined by `&`.
    pub open spec fn spec_query(self) -> Seq<char> {
        spec_join_pairs(self.spec_pairs())
    }

    /// Writes the parameters as a query string: present fields in the
    /// protocol's order, values form-encoded, repeated `tag_key` and
    /// `tag_value` pairs for the tag filters.
    #[verifier::loop_isolation(false)]
    #[verifier::rlimit(100)]
    pub fn query_string(&self) -> (r: String)
        ensures
            r@ == self.spec_query(),
    {
        let ghost g1 = spec_opt_pair(
            "name_prefix"@,
            match self.name_prefix {
                Some(ref t) => Some(t@),
                None => None,
            },
        );
        let ghost g2 = spec_opt_pair(
            "state"@,
            match self.state {
                Some(st) => Some(st.spec_token()),
                None => None,
            },
        );
        let ghost g3 = match self.tag_keys {
            Some(ref ks) => spec_tag_pairs("tag_key"@, ks@),
            None => Seq::empty(),
        };
        let ghost g4 = match self.tag_values {
            Some(ref vs) => spec_tag_pairs("tag_value"@, vs@),
            None => Seq::empty(),
        };
        let ghost g5 = spec_opt_pair(
            "page_size"@,
            match self.page_size {
                Some(n) => Some(spec_u64_str(n as int)),
                None => None,
            },
        );
        let ghost g6 = spec_opt_pair(
            "page_token"@,
            match self.page_token {
                Some(ref t) => Some(t@),
                None => None,
            },
        );
        let ghost g7 = spec_opt_pair(
            "view"@,
            match self.view {
                Some(v) => Some(v.spec_query_value()),
                None => None,
            },
        );
        let mut pairs: Vec<String> = Vec::new();
        proof {
            assert(views_of_strings(pairs@) =~= Seq::<Seq<char>>::empty());
        }
        if let Some(t) = &self.name_prefix {
            push_pair(&mut pairs, make_pair("name_prefix", t.as_str()));
        }
        assert(views_of_strings(pairs@) =~= g1);
        if let Some(st) = &self.state {
            let tok = st.token();
            push_pair(&mut pairs, make_pair("state", tok.as_str()));
        }
        assert(views_of_strings(pairs@) =~= g1 + g2);
        if let Some(ks) = &self.tag_keys {
            let ghost base = pairs@;
            let mut i: usize = 0;
            while i < ks.len()
                invariant
                    i <= ks@.len(),
                    views_of_strings(pairs@) =~= views_of_strings(base) + spec_tag_pairs(
                        "tag_key"@,
                        ks@,
                    ).subrange(0, i as int),
                decreases ks@.len() - i,
            {
                push_pair(&mut pairs, make_pair("tag_key", ks[i].as_str()));
                assert(views_of_strings(pairs@) =~= views_of_strings(base) + spec_tag_pairs(
                    "tag_key"@,
                    ks@,
                ).subrange(0, i as int + 1));
                i = i + 1;
            }
            assert(spec_tag_pairs("tag_key"@, ks@).subrange(0, ks@.len() as int) =~= g3);
        }
        assert(views_of_strings(pairs@) =~= (g1 + g2) + g3);
        if let Some(vs) = &self.tag_values {
            let ghost base = pairs@;
            let mut i: usize = 0;
            while i < vs.len()
                invariant
                    i <= vs@.len(),
                    views_of_strings(pairs@) =~= views_of_strings(base) + spec_tag_pairs(
                        "tag_value"@,
                        vs@,
                    ).subrange(0, i as int),
                decreases vs@.len() - i,
            {
                push_pair(&mut pairs, make_pair("tag_value", vs[i].as_str()));
                assert(views_of_strings(pairs@) =~= views_of_strings(base) + spec_tag_pairs(
                    "tag_value"@,
                    vs@,
                ).subrange(0, i as int + 1));
                i = i + 1;
            }
            assert(spec_tag_pairs("tag_value"@, vs@).subrange(0, vs@.len() as int) =~= g4);
        }
        assert(views_of_strings(pairs@) =~= ((g1 + g2) + g3) + g4);
        if let Some(n) = &self.page_size {
            let text = u64_to_string(*n as u64);
            push_pair(&mut pairs, make_pair("page_size", text.as_str()));
        }
        assert(views_of_strings(pairs@) =~= (((g1 + g2) + g3) + g4) + g5);
        if let Some(t) = &self.page_token {
            push_pair(&mut pairs, make_pair("page_token", t.as_str()));
        }
        assert(views_of_strings(pairs@) =~= ((((g1 + g2) + g3) + g4) + g5) + g6);
        if let Some(v) = &self.view {
            let value = v.query_value();
            push_pair(&mut pairs, make_pair("view", value.as_str()));
        }
        assert(views_of_strings(pairs@) =~= (((((g1 + g2) + g3) + g4) + g5) + g6) + g7);
        proof {
            assert(self.spec_pairs() =~= (((((g1 + g2) + g3) + g4) + g5) + g6) + g7);
        }
        join_pairs(&pairs)
    }
}


/// Represents the request body of the create-task endpoint.
#[derive(Clone, Debug, Default, Eq, PartialEq)]
pub struct Task {
    /// The user-provided name.
    pub name: Option<String>,

    /// The user-provided description.
    pub description: Option<String>,

    /// The inputs.
    pub inputs: Option<Vec<Input>>,

    /// The outputs.
    pub outputs: Option<Vec<Output>>,

    /// The requested resources.
    pub resources: Option<Resources>,

    /// The executors of the task.
    pub executors: Vec<Executor>,

    /// The volumes of the task.
    pub volumes: Option<Vec<String>>,

    /// The tags of the task, as key/value pairs.
    pub tags: Option<Vec<(String, String)>>,
}

/// Inputs as an array of documents.
pub open spec fn inputs_jv(xs: Seq<Input>) -> JsonV {
    JsonV::Arr(Seq::new(xs.len(), |i: int| input_jv(xs[i])))
}

/// Outputs as an array of documents.
pub open spec fn outputs_jv(xs: Seq<Output>) -> JsonV {
    JsonV::Arr(Seq::new(xs.len(), |i: int| output_jv(xs[i])))
}

/// Executors as an array of documents.
pub open spec fn executors_jv(xs: Seq<Executor>) -> JsonV {
    JsonV::Arr(Seq::new(xs.len(), |i: int| executor_jv(xs[i])))
}

/// The document a [`Task`] request body is written as: present optional
/// fields and the executors, in field order.
pub open spec fn task_body_jv(t: Task) -> JsonV {
    JsonV::Obj(
        m_opt("name"@, jstr(ovs(t.name))) + m_opt("description"@, jstr(ovs(t.description)))
            + m_opt(
            "inputs"@,
            match t.inputs {
                Some(xs) => Some(inputs_jv(xs@)),
                None => None,
            },
        ) + m_opt(
            "outputs"@,
            match t.outputs {
                Some(xs) => Some(outputs_jv(xs@)),
                None => None,
            },
        ) + m_opt(
            "resources"@,
            match t.resources {
                Some(res) => Some(resources_jv(res)),
                None => None,
            },
        ) + m_one("executors"@, executors_jv(t.executors@)) + m_opt(
            "volumes"@,
            match t.volumes {
                Some(v) => Some(str_arr_jv(str_views(v@))),
                None => None,
            },
        ) + m_opt(
            "tags"@,
            match t.tags {
                Some(ps) => Some(str_obj_jv(pair_views(ps@))),
                None => None,
            },
        ),
    )
}

/// Inputs as an array document.
#[verifier::loop_isolation(false)]
fn inputs_to_json(xs: &Vec<Input>) -> (r: Json)
    ensures
        jv(r) == inputs_jv(xs@),
{
    let n = xs.len();
    let mut out: Vec<Json> = Vec::new();
    let mut i: usize = 0;
    while i < n
        invariant
            i <= n,
            n == xs@.len(),
            out@.len() == i,
            forall|m: int| 0 <= m < i ==> jv(#[trigger] out@[m]) == input_jv(xs@[m]),
        decreases n - i,
    {
        let d = xs[i].to_json();
        out.push(d);
        i = i + 1;
    }
    proof {
        crate::v1::json::lemma_jv_seq(out@);
        assert forall|m: int| 0 <= m < n implies crate::v1::json::jv_seq(out@)[m] == inputs_jv(
            xs@,
        )->Arr_0[m] by {
            assert(crate::v1::json::jv_seq(out@)[m] == jv(out@[m]));
        }
        assert(crate::v1::json::jv_seq(out@) =~= inputs_jv(xs@)->Arr_0);
    }
    Json::Arr(out)
}

/// Outputs as an array document.
#[verifier::loop_isolation(false)]
fn outputs_to_json(xs: &Vec<Output>) -> (r: Json)
    ensures
        jv(r) == outputs_jv(xs@),
{
    let n = xs.len();
    let mut out: Vec<Json> = Vec::new();
    let mut i: usize = 0;
    while i < n
        invariant
            i <= n,
            n == xs@.len(),
            out@.len() == i,
            forall|m: int| 0 <= m < i ==> jv(#[trigger] out@[m]) == output_jv(xs@[m]),
        decreases n - i,
    {
        let d = xs[i].to_json();
        out.push(d);
        i = i + 1;
    }
    proof {
        crate::v1::json::lemma_jv_seq(out@);
        assert forall|m: int| 0 <= m < n implies crate::v1::json::jv_seq(out@)[m] == outputs_jv(
            xs@,
        )->Arr_0[m] by {
            assert(crate::v1::json::jv_seq(out@)[m] == jv(out@[m]));
        }
        assert(crate::v1::json::jv_seq(out@) =~= outputs_jv(xs@)->Arr_0);
    }
    Json::Arr(out)
}

/// Executors as an array document.
#[verifier::loop_isolation(false)]
fn executors_to_json(xs: &Vec<Executor>) -> (r: Json)
    ensures
        jv(r) == executors_jv(xs@),
{
    let n = xs.len();
    let mut out: Vec<Json> = Vec::new();
    let mut i: usize = 0;
    while i < n
        invariant
            i <= n,
            n == xs@.len(),
            out@.len() == i,
            forall|m: int| 0 <= m < i ==> jv(#[trigger] out@[m]) == executor_jv(xs@[m]),
        decreases n - i,
    {
        let d = xs[i].to_json();
        out.push(d);
        i = i + 1;
    }
    proof {
        crate::v1::json::lemma_jv_seq(out@);
        assert forall|m: int| 0 <= m < n implies crate::v1::json::jv_seq(out@)[m] == executors_jv(
            xs@,
        )->Arr_0[m] by {
            assert(crate::v1::json::jv_seq(out@)[m] == jv(out@[m]));
        }
        assert(crate::v1::json::jv_seq(out@) =~= executors_jv(xs@)->Arr_0);
    }
    Json::Arr(out)
}

impl Task {
    /// Well-formedness: the tags are a map, so their keys are distinct,
    /// and the nested parts are well-formed in turn. The type does not
    /// enforce this on construction; a well-formed body encodes its maps
    /// as objects with distinct keys.
    pub open spec fn wf(&self) -> bool {
        &&& (match self.tags {
            Some(ref ps) => distinct_keys(pair_views(ps@)),
            None => true,
        })
        &&& (forall|i: int| 0 <= i < self.executors@.len() ==> (#[trigger] self.executors@[i]).wf())
        &&& (match self.resources {
            Some(ref res) => res.wf(),
            None => true,
        })
    }

    /// Writes the request body as a document.
    #[verifier::rlimit(100)]
    pub fn to_json(&self) -> (r: Json)
        ensures
            jv(r) == task_body_jv(*self),
    {
        let mut ms: Vec<(String, Json)> = Vec::new();
        proof {
            assert(jv_members(ms@) =~= Seq::<(Seq<char>, JsonV)>::empty());
        }
        if let Some(v) = &self.name {
            push_member(&mut ms, "name", Json::Str(v.clone()));
        }
        if let Some(v) = &self.description {
            push_member(&mut ms, "description", Json::Str(v.clone()));
        }
        if let Some(xs) = &self.inputs {
            let arr = inputs_to_json(xs);
            push_member(&mut ms, "inputs", arr);
        }
        if let Some(xs) = &self.outputs {
            let arr = outputs_to_json(xs);
            push_member(&mut ms, "outputs", arr);
        }
        if let Some(res) = &self.resources {
            let obj = res.to_json();
            push_member(&mut ms, "resources", obj);
        }
        let arr = executors_to_json(&self.executors);
        push_member(&mut ms, "executors", arr);
        if let Some(v) = &self.volumes {
            let arr = str_vec_to_json(v);
            push_member(&mut ms, "volumes", arr);
        }
        if let Some(ps) = &self.tags {
            let obj = str_pairs_to_json(ps);
            push_member(&mut ms, "tags", obj);
        }
        proof {
            assert(jv_members(ms@) =~= task_body_jv(*self)->Obj_0);
        }
        Json::Obj(ms)
    }

    /// Writes the request body as JSON text, in the compact form.
    pub fn body_string(&self) -> (r: String)
        ensures
            r@ == crate::v1::json::spec_enc(task_body_jv(*self)),
    {
        let d = self.to_json();
        crate::v1::json::encode_json(&d)
    }
}

} // verus!
