//! The JSON wire format used by the service protocol.
//!
//! Documents are modelled by [`Json`], whose mathematical counterpart is
//! [`JsonV`]. Encoding is specified by [`spec_enc`]; parsing is specified by
//! [`spec_parse`]. The executable encoder and parser are proved to agree with
//! those definitions exactly.

use vstd::prelude::*;

verus! {

/// The mathematical model of a JSON document.
///
/// Numbers keep their literal text: the protocol only ever reads integral
/// fields out of them, and keeping the text makes encoding after decoding
/// reproduce the document exactly.
pub enum JsonV {
    /// The `null` literal.
    Null,
    /// A boolean literal.
    Bool(bool),
    /// A number, as its literal text.
    Num(Seq<char>),
    /// A string, after unescaping.
    Str(Seq<char>),
    /// An array of values, in document order.
    Arr(Seq<JsonV>),
    /// An object: key/value pairs in document order.
    Obj(Seq<(Seq<char>, JsonV)>),
}

/// A JSON document.
#[derive(Debug, PartialEq, Eq)]
pub enum Json {
    /// The `null` literal.
    Null,
    /// A boolean literal.
    Bool(bool),
    /// A number, as its literal text.
    Num(String),
    /// A string, after unescaping.
    Str(String),
    /// An array of values, in document order.
    Arr(Vec<Json>),
    /// An object: key/value pairs in document order.
    Obj(Vec<(String, Json)>),
}

/// The mathematical value of a document.
pub open spec fn jv(j: Json) -> JsonV
    decreases j,
    via jv_decreases
{
    match j {
        Json::Null => JsonV::Null,
        Json::Bool(b) => JsonV::Bool(b),
        Json::Num(s) => JsonV::Num(s@),
        Json::Str(s) => JsonV::Str(s@),
        Json::Arr(items) => JsonV::Arr(jv_seq(items@)),
        Json::Obj(members) => JsonV::Obj(jv_members(members@)),
    }
}

/// The mathematical values of a sequence of documents.
pub open spec fn jv_seq(items: Seq<Json>) -> Seq<JsonV>
    decreases items,
{
    if items.len() == 0 {
        Seq::empty()
    } else {
        seq![jv(items[0])] + jv_seq(items.subrange(1, items.len() as int))
    }
}

/// The mathematical values of a sequence of object members.
pub open spec fn jv_members(members: Seq<(String, Json)>) -> Seq<(Seq<char>, JsonV)>
    decreases members,
{
    if members.len() == 0 {
        Seq::empty()
    } else {
        seq![(members[0].0@, jv(members[0].1))] + jv_members(
            members.subrange(1, members.len() as int),
        )
    }
}

#[via_fn]
proof fn jv_decreases(j: Json) {
    match j {
        Json::Arr(items) => {
            assert(decreases_to!(j => items));
            assert(decreases_to!(items => items@));
        },
        Json::Obj(members) => {
            assert(decreases_to!(j => members));
            assert(decreases_to!(members => members@));
        },
        _ => {},
    }
}

/// `jv_seq` maps `jv` over the sequence, element by element.
pub proof fn lemma_jv_seq(items: Seq<Json>)
    ensures
        jv_seq(items).len() == items.len(),
        forall|i: int| 0 <= i < items.len() ==> jv_seq(items)[i] == jv(#[trigger] items[i]),
    decreases items.len(),
{
    if items.len() > 0 {
        let rest = items.subrange(1, items.len() as int);
        lemma_jv_seq(rest);
        assert forall|i: int| 0 <= i < items.len() implies jv_seq(items)[i] == jv(
            #[trigger] items[i],
        ) by {
            if i > 0 {
                assert(jv_seq(items)[i] == jv_seq(rest)[i - 1]);
                assert(rest[i - 1] == items[i]);
            }
        }
    }
}

/// `jv_members` maps views over the members, element by element.
pub proof fn lemma_jv_members(members: Seq<(String, Json)>)
    ensures
        jv_members(members).len() == members.len(),
        forall|i: int| 0 <= i < members.len() ==> jv_members(members)[i] == (
        (#[trigger] members[i]).0@,
            jv(members[i].1),
        ),
    decreases members.len(),
{
    if members.len() > 0 {
        let rest = members.subrange(1, members.len() as int);
        lemma_jv_members(rest);
        assert forall|i: int| 0 <= i < members.len() implies jv_members(members)[i] == (
        (#[trigger] members[i]).0@,
            jv(members[i].1),
        ) by {
            if i > 0 {
                assert(jv_members(members)[i] == jv_members(rest)[i - 1]);
                assert(rest[i - 1] == members[i]);
            }
        }
    }
}

impl View for Json {
    type V = JsonV;

    open spec fn view(&self) -> JsonV {
        jv(*self)
    }
}

/// The view of an optional parse result.
pub open spec fn opt_view(r: Option<Json>) -> Option<JsonV> {
    match r {
        Some(j) => Some(j@),
        None => None,
    }
}

/// A hexadecimal digit in lower case, for `\u00..` escapes.
pub open spec fn hex_digit(n: int) -> char {
    if n == 0 { '0' } else if n == 1 { '1' } else if n == 2 { '2' } else if n == 3 { '3' }
    else if n == 4 { '4' } else if n == 5 { '5' } else if n == 6 { '6' } else if n == 7 { '7' }
    else if n == 8 { '8' } else if n == 9 { '9' } else if n == 10 { 'a' } else if n == 11 { 'b' }
    else if n == 12 { 'c' } else if n == 13 { 'd' } else if n == 14 { 'e' } else { 'f' }
}

/// How a single character is written inside a JSON string: quotes and
/// backslashes get a two-character escape, control characters get their
/// short escape where one exists and a `\u00..` escape otherwise, and every
/// other character stands for itself.
pub open spec fn esc_char(c: char) -> Seq<char> {
    if c == '"' {
        seq!['\\', '"']
    } else if c == '\\' {
        seq!['\\', '\\']
    } else if c == '\u{08}' {
        seq!['\\', 'b']
    } else if c == '\u{0c}' {
        seq!['\\', 'f']
    } else if c == '\n' {
        seq!['\\', 'n']
    } else if c == '\r' {
        seq!['\\', 'r']
    } else if c == '\t' {
        seq!['\\', 't']
    } else if (c as u32) < 0x20 {
        seq!['\\', 'u', '0', '0', hex_digit((c as u32) as int / 16), hex_digit((c as u32) as int % 16)]
    } else {
        seq![c]
    }
}

/// The escaped form of a string's characters.
pub open spec fn spec_escape(s: Seq<char>) -> Seq<char>
    decreases s.len(),
{
    if s.len() == 0 {
        Seq::empty()
    } else {
        esc_char(s[0]) + spec_escape(s.subrange(1, s.len() as int))
    }
}

/// The encoding of a value: the compact form, with no whitespace, members
/// and items in order.
pub open spec fn spec_enc(j: JsonV) -> Seq<char>
    decreases j,
{
    match j {
        JsonV::Null => seq!['n', 'u', 'l', 'l'],
        JsonV::Bool(b) => if b {
            seq!['t', 'r', 'u', 'e']
        } else {
            seq!['f', 'a', 'l', 's', 'e']
        },
        JsonV::Num(s) => s,
        JsonV::Str(s) => seq!['"'] + spec_escape(s) + seq!['"'],
        JsonV::Arr(items) => seq!['['] + spec_enc_items(items) + seq![']'],
        JsonV::Obj(members) => seq!['{'] + spec_enc_members(members) + seq!['}'],
    }
}

/// The encoding of an array's items, separated by commas.
pub open spec fn spec_enc_items(items: Seq<JsonV>) -> Seq<char>
    decreases items,
{
    if items.len() == 0 {
        Seq::empty()
    } else if items.len() == 1 {
        spec_enc(items[0])
    } else {
        spec_enc(items[0]) + seq![','] + spec_enc_items(items.subrange(1, items.len() as int))
    }
}

/// The encoding of an object's members, separated by commas.
pub open spec fn spec_enc_members(members: Seq<(Seq<char>, JsonV)>) -> Seq<char>
    decreases members,
{
    if members.len() == 0 {
        Seq::empty()
    } else {
        let head = seq!['"'] + spec_escape(members[0].0) + seq!['"', ':'] + spec_enc(members[0].1);
        if members.len() == 1 {
            head
        } else {
            head + seq![','] + spec_enc_members(members.subrange(1, members.len() as int))
        }
    }
}

/// Appending an item on the right extends the encoded item list on the right.
pub proof fn lemma_enc_items_push(items: Seq<JsonV>, j: JsonV)
    ensures
        spec_enc_items(items.push(j)) == if items.len() == 0 {
            spec_enc(j)
        } else {
            spec_enc_items(items) + seq![','] + spec_enc(j)
        },
    decreases items.len(),
{
    if items.len() == 0 {
        assert(items.push(j) =~= seq![j]);
        assert(spec_enc_items(seq![j]) == spec_enc(j));
    } else {
        let rest = items.subrange(1, items.len() as int);
        lemma_enc_items_push(rest, j);
        assert(items.push(j).subrange(1, items.push(j).len() as int) =~= rest.push(j));
        assert(items.push(j)[0] == items[0]);
        if items.len() == 1 {
            assert(rest.len() == 0);
            assert(spec_enc_items(items) == spec_enc(items[0]));
            assert(spec_enc_items(items.push(j)) == spec_enc(items[0]) + seq![','] + spec_enc_items(rest.push(j)));
        } else {
            assert(spec_enc_items(items.push(j)) == spec_enc(items[0]) + seq![','] + spec_enc_items(rest.push(j)));
            assert(spec_enc_items(items) == spec_enc(items[0]) + seq![','] + spec_enc_items(rest));
            assert((spec_enc(items[0]) + seq![','] + (spec_enc_items(rest) + seq![','] + spec_enc(j)))
                =~= ((spec_enc(items[0]) + seq![','] + spec_enc_items(rest)) + seq![','] + spec_enc(j)));
        }
    }
}

/// Appending a member on the right extends the encoded member list on the
/// right.
pub proof fn lemma_enc_members_push(members: Seq<(Seq<char>, JsonV)>, k: Seq<char>, v: JsonV)
    ensures
        spec_enc_members(members.push((k, v))) == if members.len() == 0 {
            seq!['"'] + spec_escape(k) + seq!['"', ':'] + spec_enc(v)
        } else {
            spec_enc_members(members) + seq![','] + (seq!['"'] + spec_escape(k) + seq!['"', ':']
                + spec_enc(v))
        },
    decreases members.len(),
{
    let one = seq!['"'] + spec_escape(k) + seq!['"', ':'] + spec_enc(v);
    if members.len() == 0 {
        assert(members.push((k, v)) =~= seq![(k, v)]);
    } else {
        let rest = members.subrange(1, members.len() as int);
        lemma_enc_members_push(rest, k, v);
        assert(members.push((k, v)).subrange(1, members.push((k, v)).len() as int) =~= rest.push(
            (k, v),
        ));
        let head = seq!['"'] + spec_escape(members[0].0) + seq!['"', ':'] + spec_enc(members[0].1);
        if members.len() == 1 {
            assert(rest.len() == 0);
        } else {
            assert((head + seq![','] + (spec_enc_members(rest) + seq![','] + one)) =~= ((head
                + seq![','] + spec_enc_members(rest)) + seq![','] + one));
        }
    }
}

/// Appending a character extends the escaped text by that character's escape.
pub proof fn lemma_escape_push(s: Seq<char>, c: char)
    ensures
        spec_escape(s.push(c)) == spec_escape(s) + esc_char(c),
    decreases s.len(),
{
    if s.len() == 0 {
        assert(s.push(c) =~= seq![c]);
        assert(seq![c].subrange(1, 1) =~= Seq::<char>::empty());
        assert(spec_escape(seq![c]) == esc_char(c) + spec_escape(Seq::empty()));
        assert(esc_char(c) + Seq::empty() =~= esc_char(c));
        assert(spec_escape(s) + esc_char(c) =~= esc_char(c));
    } else {
        let rest = s.subrange(1, s.len() as int);
        lemma_escape_push(rest, c);
        assert(s.push(c).subrange(1, s.push(c).len() as int) =~= rest.push(c));
        assert(s.push(c)[0] == s[0]);
        assert((esc_char(s[0]) + (spec_escape(rest) + esc_char(c))) =~= ((esc_char(s[0])
            + spec_escape(rest)) + esc_char(c)));
    }
}

/// Relies on `String`'s `FromIterator<char>` implementation: collecting
/// characters yields the string with exactly those characters.
#[verifier::external_body]
pub(crate) fn chars_to_string(v: &Vec<char>) -> (s: String)
    ensures
        s@ == v@,
{
    v.iter().collect()
}

/// The characters of a string slice, as a vector.
pub fn chars_of(s: &str) -> (v: Vec<char>)
    ensures
        v@ == s@,
{
    let n = s.unicode_len();
    let mut v: Vec<char> = Vec::new();
    let mut i: usize = 0;
    while i < n
        invariant
            n == s@.len(),
            i <= n,
            v@ =~= s@.subrange(0, i as int),
        decreases n - i,
    {
        v.push(s.get_char(i));
        i = i + 1;
    }
    assert(v@ =~= s@);
    v
}

/// Appends the characters of `s` to `out`.
pub fn push_chars(out: &mut Vec<char>, s: &str)
    ensures
        final(out)@ == old(out)@ + s@,
{
    let n = s.unicode_len();
    let mut i: usize = 0;
    while i < n
        invariant
            n == s@.len(),
            i <= n,
            out@ =~= old(out)@ + s@.subrange(0, i as int),
        decreases n - i,
    {
        out.push(s.get_char(i));
        i = i + 1;
    }
    assert(out@ =~= old(out)@ + s@);
}

/// A hexadecimal digit in lower case.
fn hex_digit_exec(n: u32) -> (c: char)
    requires
        n < 16,
    ensures
        c == hex_digit(n as int),
{
    match n {
        0 => '0',
        1 => '1',
        2 => '2',
        3 => '3',
        4 => '4',
        5 => '5',
        6 => '6',
        7 => '7',
        8 => '8',
        9 => '9',
        10 => 'a',
        11 => 'b',
        12 => 'c',
        13 => 'd',
        14 => 'e',
        _ => 'f',
    }
}

/// Appends one character's escaped form to `out`.
fn push_escaped_char(out: &mut Vec<char>, c: char)
    ensures
        final(out)@ == old(out)@ + esc_char(c),
{
    if c == '"' {
        out.push('\\');
        out.push('"');
    } else if c == '\\' {
        out.push('\\');
        out.push('\\');
    } else if c == '\u{08}' {
        out.push('\\');
        out.push('b');
    } else if c == '\u{0c}' {
        out.push('\\');
        out.push('f');
    } else if c == '\n' {
        out.push('\\');
        out.push('n');
    } else if c == '\r' {
        out.push('\\');
        out.push('r');
    } else if c == '\t' {
        out.push('\\');
        out.push('t');
    } else if (c as u32) < 0x20 {
        out.push('\\');
        out.push('u');
        out.push('0');
        out.push('0');
        out.push(hex_digit_exec((c as u32) / 16));
        out.push(hex_digit_exec((c as u32) % 16));
    } else {
        out.push(c);
    }
    assert(out@ =~= old(out)@ + esc_char(c));
}

/// Appends the escaped form of `s`, without the surrounding quotes.
fn push_escaped(out: &mut Vec<char>, s: &str)
    ensures
        final(out)@ == old(out)@ + spec_escape(s@),
{
    let n = s.unicode_len();
    let mut i: usize = 0;
    while i < n
        invariant
            n == s@.len(),
            i <= n,
            out@ =~= old(out)@ + spec_escape(s@.subrange(0, i as int)),
        decreases n - i,
    {
        let c = s.get_char(i);
        proof {
            lemma_escape_push(s@.subrange(0, i as int), s@[i as int]);
            assert(s@.subrange(0, i as int).push(s@[i as int]) =~= s@.subrange(0, i as int + 1));
        }
        push_escaped_char(out, c);
        i = i + 1;
    }
    assert(s@.subrange(0, n as int) =~= s@);
}

/// Appends the encoding of `j` to `out`.
#[verifier::loop_isolation(false)]
#[verifier::rlimit(50)]
fn enc_into(j: &Json, out: &mut Vec<char>)
    ensures
        final(out)@ == old(out)@ + spec_enc(j@),
    decreases j,
{
    match j {
        Json::Null => {
            out.push('n');
            out.push('u');
            out.push('l');
            out.push('l');
            assert(out@ =~= old(out)@ + spec_enc(j@));
        },
        Json::Bool(b) => {
            if *b {
                out.push('t');
                out.push('r');
                out.push('u');
                out.push('e');
            } else {
                out.push('f');
                out.push('a');
                out.push('l');
                out.push('s');
                out.push('e');
            }
            assert(out@ =~= old(out)@ + spec_enc(j@));
        },
        Json::Num(s) => {
            push_chars(out, s.as_str());
        },
        Json::Str(s) => {
            out.push('"');
            push_escaped(out, s.as_str());
            out.push('"');
            assert(out@ =~= old(out)@ + spec_enc(j@));
        },
        Json::Arr(items) => {
            let ghost itemsv = jv_seq(items@);
            proof {
                lemma_jv_seq(items@);
                assert(j@ == JsonV::Arr(itemsv));
            }
            out.push('[');
            let mut i: usize = 0;
            while i < items.len()
                invariant
                    i <= items.len(),
                    out@ =~= old(out)@ + seq!['['] + spec_enc_items(itemsv.subrange(0, i as int)),
                decreases items.len() - i,
            {
                if i > 0 {
                    out.push(',');
                }
                proof {
                    lemma_enc_items_push(itemsv.subrange(0, i as int), itemsv[i as int]);
                    assert(itemsv.subrange(0, i as int).push(itemsv[i as int]) =~= itemsv.subrange(
                        0,
                        i as int + 1,
                    ));
                    assert(decreases_to!(*j => j->Arr_0));
                    assert(decreases_to!(j->Arr_0 => j->Arr_0@));
                    assert(decreases_to!(j->Arr_0@ => j->Arr_0@[i as int]));
                    assert(items@[i as int] == j->Arr_0@[i as int]);
                    assert(itemsv[i as int] == jv(items@[i as int]));
                }
                enc_into(&items[i], out);
                assert(out@ =~= old(out)@ + seq!['['] + spec_enc_items(
                    itemsv.subrange(0, i as int + 1),
                ));
                i = i + 1;
            }
            out.push(']');
            assert(itemsv.subrange(0, itemsv.len() as int) =~= itemsv);
            assert(out@ =~= old(out)@ + spec_enc(j@));
        },
        Json::Obj(members) => {
            let ghost memv = jv_members(members@);
            proof {
                lemma_jv_members(members@);
                assert(j@ == JsonV::Obj(memv));
            }
            out.push('{');
            let mut i: usize = 0;
            while i < members.len()
                invariant
                    i <= members.len(),
                    out@ =~= old(out)@ + seq!['{'] + spec_enc_members(memv.subrange(0, i as int)),
                decreases members.len() - i,
            {
                if i > 0 {
                    out.push(',');
                }
                proof {
                    lemma_enc_members_push(
                        memv.subrange(0, i as int),
                        memv[i as int].0,
                        memv[i as int].1,
                    );
                    assert(memv.subrange(0, i as int).push(memv[i as int]) =~= memv.subrange(
                        0,
                        i as int + 1,
                    ));
                    assert(decreases_to!(*j => j->Obj_0));
                    assert(decreases_to!(j->Obj_0 => j->Obj_0@));
                    assert(decreases_to!(j->Obj_0@ => j->Obj_0@[i as int]));
                    assert(decreases_to!(j->Obj_0@[i as int] => j->Obj_0@[i as int].1));
                    assert(members@[i as int].1 == j->Obj_0@[i as int].1);
                    assert(memv[i as int] == (members@[i as int].0@, jv(members@[i as int].1)));
                }
                out.push('"');
                push_escaped(out, members[i].0.as_str());
                out.push('"');
                out.push(':');
                enc_into(&members[i].1, out);
                assert(out@ =~= old(out)@ + seq!['{'] + spec_enc_members(
                    memv.subrange(0, i as int + 1),
                ));
                i = i + 1;
            }
            out.push('}');
            assert(memv.subrange(0, memv.len() as int) =~= memv);
            assert(out@ =~= old(out)@ + spec_enc(j@));
        },
    }
}

/// Encodes a value: the compact form, with no whitespace.
pub fn encode_json(j: &Json) -> (r: String)
    ensures
        r@ == spec_enc(j@),
{
    let mut out: Vec<char> = Vec::new();
    enc_into(j, &mut out);
    chars_to_string(&out)
}


/// Whitespace accepted between tokens.
pub open spec fn is_ws(c: char) -> bool {
    c == ' ' || c == '\t' || c == '\n' || c == '\r'
}

/// A decimal digit.
pub open spec fn is_digit(c: char) -> bool {
    0x30 <= (c as u32) <= 0x39
}

/// The value of a hexadecimal digit, or 16 where the character is not one.
pub open spec fn spec_hex_val(c: char) -> u32 {
    let u = c as u32;
    if 0x30 <= u <= 0x39 {
        (u - 0x30) as u32
    } else if 0x61 <= u <= 0x66 {
        (u - 0x61 + 10) as u32
    } else if 0x41 <= u <= 0x46 {
        (u - 0x41 + 10) as u32
    } else {
        16
    }
}

/// The result of an escape character other than `u`, if it is allowed.
pub open spec fn spec_unesc(e: char) -> Option<char> {
    if e == '"' {
        Some('"')
    } else if e == '\\' {
        Some('\\')
    } else if e == '/' {
        Some('/')
    } else if e == 'b' {
        Some('\u{08}')
    } else if e == 'f' {
        Some('\u{0c}')
    } else if e == 'n' {
        Some('\n')
    } else if e == 'r' {
        Some('\r')
    } else if e == 't' {
        Some('\t')
    } else {
        None
    }
}

/// The first position at or after `pos` that does not hold whitespace.
pub open spec fn spec_skip_ws(s: Seq<char>, pos: int) -> int
    decreases s.len() - pos,
{
    if 0 <= pos < s.len() && is_ws(s[pos]) {
        spec_skip_ws(s, pos + 1)
    } else {
        pos
    }
}

/// The end of the run of decimal digits starting at `pos`.
pub open spec fn spec_scan_digits(s: Seq<char>, pos: int) -> int
    decreases s.len() - pos,
{
    if 0 <= pos < s.len() && is_digit(s[pos]) {
        spec_scan_digits(s, pos + 1)
    } else {
        pos
    }
}

/// Parses the body of a string literal. `pos` stands just after the opening
/// quote; on success the result holds the unescaped text and the position
/// just after the closing quote. A `\u` escape must name a scalar value:
/// surrogate halves are refused.
pub open spec fn spec_parse_str(s: Seq<char>, pos: int) -> Option<(Seq<char>, int)>
    decreases s.len() - pos,
{
    if !(0 <= pos < s.len()) {
        None
    } else {
        let c = s[pos];
        if c == '"' {
            Some((Seq::empty(), pos + 1))
        } else if c == '\\' {
            if pos + 1 >= s.len() {
                None
            } else {
                let e = s[pos + 1];
                if e == 'u' {
                    if pos + 6 > s.len() {
                        None
                    } else {
                        let h0 = spec_hex_val(s[pos + 2]);
                        let h1 = spec_hex_val(s[pos + 3]);
                        let h2 = spec_hex_val(s[pos + 4]);
                        let h3 = spec_hex_val(s[pos + 5]);
                        if h0 == 16 || h1 == 16 || h2 == 16 || h3 == 16 {
                            None
                        } else {
                            let code = (h0 * 4096 + h1 * 256 + h2 * 16 + h3) as u32;
                            if 0xD800 <= code < 0xE000 {
                                None
                            } else {
                                match spec_parse_str(s, pos + 6) {
                                    Some((rest, p)) => Some((seq![code as char] + rest, p)),
                                    None => None,
                                }
                            }
                        }
                    }
                } else {
                    match spec_unesc(e) {
                        Some(u) => match spec_parse_str(s, pos + 2) {
                            Some((rest, p)) => Some((seq![u] + rest, p)),
                            None => None,
                        },
                        None => None,
                    }
                }
            }
        } else if (c as u32) < 0x20 {
            None
        } else {
            match spec_parse_str(s, pos + 1) {
                Some((rest, p)) => Some((seq![c] + rest, p)),
                None => None,
            }
        }
    }
}

/// Parses the exponent part of a number, if present, and closes the literal
/// that started at `start` and whose mantissa ends at `p`.
pub open spec fn spec_parse_num_exp(s: Seq<char>, start: int, p: int) -> Option<(Seq<char>, int)> {
    if p < s.len() && (s[p] == 'e' || s[p] == 'E') {
        let ps = if p + 1 < s.len() && (s[p + 1] == '+' || s[p + 1] == '-') {
            p + 2
        } else {
            p + 1
        };
        let p4 = spec_scan_digits(s, ps);
        if p4 == ps {
            None
        } else {
            Some((s.subrange(start, p4), p4))
        }
    } else {
        Some((s.subrange(start, p), p))
    }
}

/// Parses a number literal at `pos`: an optional minus sign, an integer part
/// with no needless leading zero, an optional fraction, and an optional
/// exponent. The result holds the literal text.
pub open spec fn spec_parse_num(s: Seq<char>, pos: int) -> Option<(Seq<char>, int)> {
    let p1 = if pos < s.len() && s[pos] == '-' {
        pos + 1
    } else {
        pos
    };
    if !(p1 < s.len() && is_digit(s[p1])) {
        None
    } else {
        let p2 = if s[p1] == '0' {
            p1 + 1
        } else {
            spec_scan_digits(s, p1)
        };
        if p2 < s.len() && s[p2] == '.' {
            let p3 = spec_scan_digits(s, p2 + 1);
            if p3 == p2 + 1 {
                None
            } else {
                spec_parse_num_exp(s, pos, p3)
            }
        } else {
            spec_parse_num_exp(s, pos, p2)
        }
    }
}

/// Parses a value at `pos`, skipping leading whitespace. `fuel` falls on
/// every nested call and bounds the work; the entry point supplies more than
/// any document of the accepted length can use.
pub open spec fn spec_parse_val(s: Seq<char>, pos: int, fuel: nat) -> Option<(JsonV, int)>
    decreases fuel,
{
    if fuel == 0 {
        None
    } else {
        let p = spec_skip_ws(s, pos);
        if !(p < s.len()) {
            None
        } else {
            let c = s[p];
            if c == 'n' {
                if p + 4 <= s.len() && s[p + 1] == 'u' && s[p + 2] == 'l' && s[p + 3] == 'l' {
                    Some((JsonV::Null, p + 4))
                } else {
                    None
                }
            } else if c == 't' {
                if p + 4 <= s.len() && s[p + 1] == 'r' && s[p + 2] == 'u' && s[p + 3] == 'e' {
                    Some((JsonV::Bool(true), p + 4))
                } else {
                    None
                }
            } else if c == 'f' {
                if p + 5 <= s.len() && s[p + 1] == 'a' && s[p + 2] == 'l' && s[p + 3] == 's' && s[p
                    + 4] == 'e' {
                    Some((JsonV::Bool(false), p + 5))
                } else {
                    None
                }
            } else if c == '"' {
                match spec_parse_str(s, p + 1) {
                    Some((t, p2)) => Some((JsonV::Str(t), p2)),
                    None => None,
                }
            } else if c == '[' {
                let p1 = spec_skip_ws(s, p + 1);
                if p1 < s.len() && s[p1] == ']' {
                    Some((JsonV::Arr(Seq::empty()), p1 + 1))
                } else {
                    spec_parse_items(s, p + 1, Seq::empty(), (fuel - 1) as nat)
                }
            } else if c == '{' {
                let p1 = spec_skip_ws(s, p + 1);
                if p1 < s.len() && s[p1] == '}' {
                    Some((JsonV::Obj(Seq::empty()), p1 + 1))
                } else {
                    spec_parse_members(s, p + 1, Seq::empty(), (fuel - 1) as nat)
                }
            } else if c == '-' || is_digit(c) {
                match spec_parse_num(s, p) {
                    Some((t, p2)) => Some((JsonV::Num(t), p2)),
                    None => None,
                }
            } else {
                None
            }
        }
    }
}

/// Parses the items of a non-empty array, the ones already read standing in
/// `acc`, and closes at `]`.
pub open spec fn spec_parse_items(s: Seq<char>, pos: int, acc: Seq<JsonV>, fuel: nat) -> Option<
    (JsonV, int),
>
    decreases fuel,
{
    if fuel == 0 {
        None
    } else {
        match spec_parse_val(s, pos, (fuel - 1) as nat) {
            None => None,
            Some((v, p)) => {
                let p2 = spec_skip_ws(s, p);
                if p2 < s.len() && s[p2] == ',' {
                    spec_parse_items(s, p2 + 1, acc.push(v), (fuel - 1) as nat)
                } else if p2 < s.len() && s[p2] == ']' {
                    Some((JsonV::Arr(acc.push(v)), p2 + 1))
                } else {
                    None
                }
            },
        }
    }
}

/// Parses the members of a non-empty object, the ones already read standing
/// in `acc`, and closes at `}`.
pub open spec fn spec_parse_members(
    s: Seq<char>,
    pos: int,
    acc: Seq<(Seq<char>, JsonV)>,
    fuel: nat,
) -> Option<(JsonV, int)>
    decreases fuel,
{
    if fuel == 0 {
        None
    } else {
        let pk = spec_skip_ws(s, pos);
        if !(pk < s.len() && s[pk] == '"') {
            None
        } else {
            match spec_parse_str(s, pk + 1) {
                None => None,
                Some((key, p1)) => {
                    let pc = spec_skip_ws(s, p1);
                    if !(pc < s.len() && s[pc] == ':') {
                        None
                    } else {
                        match spec_parse_val(s, pc + 1, (fuel - 1) as nat) {
                            None => None,
                            Some((v, p2)) => {
                                let p3 = spec_skip_ws(s, p2);
                                if p3 < s.len() && s[p3] == ',' {
                                    spec_parse_members(s, p3 + 1, acc.push((key, v)), (fuel - 1) as nat)
                                } else if p3 < s.len() && s[p3] == '}' {
                                    Some((JsonV::Obj(acc.push((key, v))), p3 + 1))
                                } else {
                                    None
                                }
                            },
                        }
                    }
                },
            }
        }
    }
}

/// The longest document the parser accepts, in characters.
pub const MAX_DOC_LEN: usize = 0x1000_0000;

/// The fuel handed to the parser for a document of the given length: ample
/// for any document the length bound admits.
pub open spec fn spec_fuel(len: int) -> nat {
    (3 * len + 16) as nat
}

/// The document denoted by a text: the value parsed from it, provided the
/// text is no longer than [`MAX_DOC_LEN`] and nothing but whitespace follows
/// the value.
pub open spec fn spec_parse(s: Seq<char>) -> Option<JsonV> {
    if s.len() > MAX_DOC_LEN {
        None
    } else {
        match spec_parse_val(s, 0, spec_fuel(s.len() as int)) {
            Some((j, p)) => if spec_skip_ws(s, p) == s.len() {
                Some(j)
            } else {
                None
            },
            None => None,
        }
    }
}

/// The view of an optional value-and-position pair.
pub open spec fn pv(r: Option<(Json, usize)>) -> Option<(JsonV, int)> {
    match r {
        Some((j, p)) => Some((j@, p as int)),
        None => None,
    }
}

/// Appending a document on the right maps through `jv_seq`.
pub proof fn lemma_jv_seq_push(items: Seq<Json>, j: Json)
    ensures
        jv_seq(items.push(j)) == jv_seq(items).push(jv(j)),
{
    lemma_jv_seq(items.push(j));
    lemma_jv_seq(items);
    assert forall|i: int| 0 <= i < items.push(j).len() implies jv_seq(items.push(j))[i] == jv_seq(
        items,
    ).push(jv(j))[i] by {
        assert(jv_seq(items.push(j))[i] == jv(items.push(j)[i]));
        if i < items.len() {
            assert(items.push(j)[i] == items[i]);
            assert(jv_seq(items)[i] == jv(items[i]));
        } else {
            assert(items.push(j)[i] == j);
        }
    }
    assert(jv_seq(items.push(j)) =~= jv_seq(items).push(jv(j)));
}

/// Appending a member on the right maps through `jv_members`.
pub proof fn lemma_jv_members_push(members: Seq<(String, Json)>, k: String, v: Json)
    ensures
        jv_members(members.push((k, v))) == jv_members(members).push((k@, jv(v))),
{
    lemma_jv_members(members.push((k, v)));
    lemma_jv_members(members);
    assert forall|i: int| 0 <= i < members.push((k, v)).len() implies jv_members(
        members.push((k, v)),
    )[i] == jv_members(members).push((k@, jv(v)))[i] by {
        assert(jv_members(members.push((k, v)))[i] == (
            members.push((k, v))[i].0@,
            jv(members.push((k, v))[i].1),
        ));
        if i < members.len() {
            assert(members.push((k, v))[i] == members[i]);
            assert(jv_members(members)[i] == (members[i].0@, jv(members[i].1)));
        } else {
            assert(members.push((k, v))[i] == (k, v));
        }
    }
    assert(jv_members(members.push((k, v))) =~= jv_members(members).push((k@, jv(v))));
}

/// Relies on `char::from_u32`: it returns the character with the given code
/// exactly when the code is a Unicode scalar value, that is, not a surrogate
/// and at most `0x10FFFF`.
#[verifier::external_body]
fn char_from_code(v: u32) -> (r: Option<char>)
    ensures
        r == if (v < 0xD800 || (0xE000 <= v && v <= 0x10FFFF)) {
            Some(v as char)
        } else {
            None::<char>
        },
{
    char::from_u32(v)
}

/// The first position at or after `pos` that does not hold whitespace.
#[verifier::loop_isolation(false)]
fn skip_ws(s: &Vec<char>, pos: usize) -> (r: usize)
    requires
        pos <= s@.len(),
    ensures
        r as int == spec_skip_ws(s@, pos as int),
        pos <= r <= s@.len(),
{
    let mut cur: usize = pos;
    loop
        invariant
            pos <= cur <= s@.len(),
            spec_skip_ws(s@, pos as int) == spec_skip_ws(s@, cur as int),
        decreases s@.len() - cur,
    {
        if cur < s.len() {
            let c = s[cur];
            if c == ' ' || c == '\t' || c == '\n' || c == '\r' {
                cur = cur + 1;
                continue;
            }
        }
        return cur;
    }
}

/// The end of the run of decimal digits starting at `pos`.
#[verifier::loop_isolation(false)]
fn scan_digits(s: &Vec<char>, pos: usize) -> (r: usize)
    requires
        pos <= s@.len(),
    ensures
        r as int == spec_scan_digits(s@, pos as int),
        pos <= r <= s@.len(),
{
    let mut cur: usize = pos;
    loop
        invariant
            pos <= cur <= s@.len(),
            spec_scan_digits(s@, pos as int) == spec_scan_digits(s@, cur as int),
        decreases s@.len() - cur,
    {
        if cur < s.len() {
            let c = s[cur];
            if 0x30 <= (c as u32) && (c as u32) <= 0x39 {
                cur = cur + 1;
                continue;
            }
        }
        return cur;
    }
}

/// The value of a hexadecimal digit, or 16 where the character is not one.
fn hex_val(c: char) -> (r: u32)
    ensures
        r == spec_hex_val(c),
{
    let u = c as u32;
    if 0x30 <= u && u <= 0x39 {
        u - 0x30
    } else if 0x61 <= u && u <= 0x66 {
        u - 0x61 + 10
    } else if 0x41 <= u && u <= 0x46 {
        u - 0x41 + 10
    } else {
        16
    }
}

/// Parses the body of a string literal; see [`spec_parse_str`].
#[verifier::loop_isolation(false)]
#[verifier::rlimit(50)]
fn parse_str(s: &Vec<char>, pos: usize) -> (r: Option<(String, usize)>)
    requires
        pos <= s@.len(),
        s@.len() <= MAX_DOC_LEN,
    ensures
        match r {
            Some((t, p)) => spec_parse_str(s@, pos as int) == Some((t@, p as int)) && pos <= p
                <= s@.len(),
            None => spec_parse_str(s@, pos as int) is None,
        },
{
    let mut acc: Vec<char> = Vec::new();
    let mut cur: usize = pos;
    loop
        invariant
            pos <= cur <= s@.len(),
            spec_parse_str(s@, pos as int) == (match spec_parse_str(s@, cur as int) {
                Some((rest, p)) => Some((acc@ + rest, p)),
                None => None::<(Seq<char>, int)>,
            }),
        decreases s@.len() - cur,
    {
        if cur >= s.len() {
            return None;
        }
        let c = s[cur];
        if c == '"' {
            let t = chars_to_string(&acc);
            proof {
                assert(acc@ + Seq::<char>::empty() =~= acc@);
            }
            return Some((t, cur + 1));
        } else if c == '\\' {
            if cur + 1 >= s.len() {
                return None;
            }
            let e = s[cur + 1];
            if e == 'u' {
                if cur + 6 > s.len() {
                    return None;
                }
                let h0 = hex_val(s[cur + 2]);
                let h1 = hex_val(s[cur + 3]);
                let h2 = hex_val(s[cur + 4]);
                let h3 = hex_val(s[cur + 5]);
                if h0 == 16 || h1 == 16 || h2 == 16 || h3 == 16 {
                    return None;
                }
                let code: u32 = h0 * 4096 + h1 * 256 + h2 * 16 + h3;
                if 0xD800 <= code && code < 0xE000 {
                    return None;
                }
                let ch = match char_from_code(code) {
                    Some(ch) => ch,
                    None => {
                        return None;
                    },
                };
                proof {
                    let ghost prev = acc@;
                    match spec_parse_str(s@, cur as int + 6) {
                        Some((rest, _p)) => {
                            assert((prev + (seq![ch] + rest)) =~= (prev.push(ch) + rest));
                        },
                        None => {},
                    }
                }
                acc.push(ch);
                cur = cur + 6;
            } else {
                let ch = if e == '"' {
                    '"'
                } else if e == '\\' {
                    '\\'
                } else if e == '/' {
                    '/'
                } else if e == 'b' {
                    '\u{08}'
                } else if e == 'f' {
                    '\u{0c}'
                } else if e == 'n' {
                    '\n'
                } else if e == 'r' {
                    '\r'
                } else if e == 't' {
                    '\t'
                } else {
                    return None;
                };
                proof {
                    let ghost prev = acc@;
                    match spec_parse_str(s@, cur as int + 2) {
                        Some((rest, _p)) => {
                            assert((prev + (seq![ch] + rest)) =~= (prev.push(ch) + rest));
                        },
                        None => {},
                    }
                }
                acc.push(ch);
                cur = cur + 2;
            }
        } else if (c as u32) < 0x20 {
            return None;
        } else {
            proof {
                let ghost prev = acc@;
                match spec_parse_str(s@, cur as int + 1) {
                    Some((rest, _p)) => {
                        assert((prev + (seq![c] + rest)) =~= (prev.push(c) + rest));
                    },
                    None => {},
                }
            }
            acc.push(c);
            cur = cur + 1;
        }
    }
}

/// Copies `s[from..to]` into a string.
#[verifier::loop_isolation(false)]
fn copy_range(s: &Vec<char>, from: usize, to: usize) -> (r: String)
    requires
        from <= to <= s@.len(),
    ensures
        r@ == s@.subrange(from as int, to as int),
{
    let mut acc: Vec<char> = Vec::new();
    let mut k: usize = from;
    while k < to
        invariant
            from <= k <= to,
            acc@ =~= s@.subrange(from as int, k as int),
        decreases to - k,
    {
        acc.push(s[k]);
        k = k + 1;
    }
    assert(acc@ =~= s@.subrange(from as int, to as int));
    chars_to_string(&acc)
}

/// Parses a number literal at `pos`; see [`spec_parse_num`].
fn parse_num(s: &Vec<char>, pos: usize) -> (r: Option<(String, usize)>)
    requires
        pos <= s@.len(),
        s@.len() <= MAX_DOC_LEN,
    ensures
        match r {
            Some((t, p)) => spec_parse_num(s@, pos as int) == Some((t@, p as int)) && pos <= p
                <= s@.len(),
            None => spec_parse_num(s@, pos as int) is None,
        },
{
    let p1 = if pos < s.len() && s[pos] == '-' {
        pos + 1
    } else {
        pos
    };
    if !(p1 < s.len() && {
        let c = s[p1];
        0x30 <= (c as u32) && (c as u32) <= 0x39
    }) {
        return None;
    }
    let p2 = if s[p1] == '0' {
        p1 + 1
    } else {
        scan_digits(s, p1)
    };
    let p3 = if p2 < s.len() && s[p2] == '.' {
        let d = scan_digits(s, p2 + 1);
        if d == p2 + 1 {
            return None;
        }
        d
    } else {
        p2
    };
    if p3 < s.len() && (s[p3] == 'e' || s[p3] == 'E') {
        let ps = if p3 + 1 < s.len() && (s[p3 + 1] == '+' || s[p3 + 1] == '-') {
            p3 + 2
        } else {
            p3 + 1
        };
        let p4 = scan_digits(s, ps);
        if p4 == ps {
            return None;
        }
        Some((copy_range(s, pos, p4), p4))
    } else {
        Some((copy_range(s, pos, p3), p3))
    }
}

/// Parses a value at `pos`; see [`spec_parse_val`].
#[verifier::rlimit(50)]
fn parse_val(s: &Vec<char>, pos: usize, fuel: u64) -> (r: Option<(Json, usize)>)
    requires
        pos <= s@.len(),
        s@.len() <= MAX_DOC_LEN,
    ensures
        pv(r) == spec_parse_val(s@, pos as int, fuel as nat),
        r matches Some((j, p)) ==> p <= s@.len(),
    decreases fuel,
{
    if fuel == 0 {
        return None;
    }
    let p = skip_ws(s, pos);
    if p >= s.len() {
        return None;
    }
    let c = s[p];
    if c == 'n' {
        if p + 4 <= s.len() && s[p + 1] == 'u' && s[p + 2] == 'l' && s[p + 3] == 'l' {
            Some((Json::Null, p + 4))
        } else {
            None
        }
    } else if c == 't' {
        if p + 4 <= s.len() && s[p + 1] == 'r' && s[p + 2] == 'u' && s[p + 3] == 'e' {
            Some((Json::Bool(true), p + 4))
        } else {
            None
        }
    } else if c == 'f' {
        if p + 5 <= s.len() && s[p + 1] == 'a' && s[p + 2] == 'l' && s[p + 3] == 's' && s[p + 4]
            == 'e' {
            Some((Json::Bool(false), p + 5))
        } else {
            None
        }
    } else if c == '"' {
        match parse_str(s, p + 1) {
            Some((t, p2)) => Some((Json::Str(t), p2)),
            None => None,
        }
    } else if c == '[' {
        let p1 = skip_ws(s, p + 1);
        if p1 < s.len() && s[p1] == ']' {
            let r = Some((Json::Arr(Vec::new()), p1 + 1));
            proof {
                assert(jv_seq(Seq::<Json>::empty()) =~= Seq::<JsonV>::empty());
            }
            r
        } else {
            let acc: Vec<Json> = Vec::new();
            proof {
                assert(jv_seq(acc@) =~= Seq::<JsonV>::empty());
            }
            parse_items(s, p + 1, acc, fuel - 1)
        }
    } else if c == '{' {
        let p1 = skip_ws(s, p + 1);
        if p1 < s.len() && s[p1] == '}' {
            let r = Some((Json::Obj(Vec::new()), p1 + 1));
            proof {
                assert(jv_members(Seq::<(String, Json)>::empty()) =~= Seq::<
                    (Seq<char>, JsonV),
                >::empty());
            }
            r
        } else {
            let acc: Vec<(String, Json)> = Vec::new();
            proof {
                assert(jv_members(acc@) =~= Seq::<(Seq<char>, JsonV)>::empty());
            }
            parse_members(s, p + 1, acc, fuel - 1)
        }
    } else if c == '-' || (0x30 <= (c as u32) && (c as u32) <= 0x39) {
        match parse_num(s, p) {
            Some((t, p2)) => Some((Json::Num(t), p2)),
            None => None,
        }
    } else {
        None
    }
}

/// Parses the items of a non-empty array; see [`spec_parse_items`].
#[verifier::rlimit(50)]
fn parse_items(s: &Vec<char>, pos: usize, acc: Vec<Json>, fuel: u64) -> (r: Option<(Json, usize)>)
    requires
        pos <= s@.len(),
        s@.len() <= MAX_DOC_LEN,
    ensures
        pv(r) == spec_parse_items(s@, pos as int, jv_seq(acc@), fuel as nat),
        r matches Some((j, p)) ==> p <= s@.len(),
    decreases fuel,
{
    if fuel == 0 {
        return None;
    }
    match parse_val(s, pos, fuel - 1) {
        None => None,
        Some((v, p)) => {
            let p2 = skip_ws(s, p);
            if p2 < s.len() && s[p2] == ',' {
                let ghost accv = jv_seq(acc@);
                let mut acc = acc;
                proof {
                    lemma_jv_seq_push(acc@, v);
                }
                acc.push(v);
                parse_items(s, p2 + 1, acc, fuel - 1)
            } else if p2 < s.len() && s[p2] == ']' {
                let ghost accv = jv_seq(acc@);
                let mut acc = acc;
                proof {
                    lemma_jv_seq_push(acc@, v);
                }
                acc.push(v);
                Some((Json::Arr(acc), p2 + 1))
            } else {
                None
            }
        },
    }
}

/// Parses the members of a non-empty object; see [`spec_parse_members`].
#[verifier::rlimit(50)]
fn parse_members(s: &Vec<char>, pos: usize, acc: Vec<(String, Json)>, fuel: u64) -> (r: Option<
    (Json, usize),
>)
    requires
        pos <= s@.len(),
        s@.len() <= MAX_DOC_LEN,
    ensures
        pv(r) == spec_parse_members(s@, pos as int, jv_members(acc@), fuel as nat),
        r matches Some((j, p)) ==> p <= s@.len(),
    decreases fuel,
{
    if fuel == 0 {
        return None;
    }
    let pk = skip_ws(s, pos);
    if !(pk < s.len() && s[pk] == '"') {
        return None;
    }
    match parse_str(s, pk + 1) {
        None => None,
        Some((key, p1)) => {
            let pc = skip_ws(s, p1);
            if !(pc < s.len() && s[pc] == ':') {
                return None;
            }
            match parse_val(s, pc + 1, fuel - 1) {
                None => None,
                Some((v, p2)) => {
                    let p3 = skip_ws(s, p2);
                    if p3 < s.len() && s[p3] == ',' {
                        let mut acc = acc;
                        proof {
                            lemma_jv_members_push(acc@, key, v);
                        }
                        acc.push((key, v));
                        parse_members(s, p3 + 1, acc, fuel - 1)
                    } else if p3 < s.len() && s[p3] == '}' {
                        let mut acc = acc;
                        proof {
                            lemma_jv_members_push(acc@, key, v);
                        }
                        acc.push((key, v));
                        Some((Json::Obj(acc), p3 + 1))
                    } else {
                        None
                    }
                },
            }
        },
    }
}

/// Parses a document: the value denoted by the text, provided the text is no
/// longer than [`MAX_DOC_LEN`] and nothing but whitespace follows the value.
pub fn parse_json(text: &str) -> (r: Option<Json>)
    ensures
        opt_view(r) == spec_parse(text@),
{
    let chars = chars_of(text);
    if chars.len() > MAX_DOC_LEN {
        return None;
    }
    let fuel: u64 = 3 * (chars.len() as u64) + 16;
    proof {
        assert(fuel as nat == spec_fuel(chars@.len() as int));
    }
    match parse_val(&chars, 0, fuel) {
        Some((j, p)) => {
            let p2 = skip_ws(&chars, p);
            if p2 == chars.len() {
                Some(j)
            } else {
                None
            }
        },
        None => None,
    }
}


/// The decimal digits of a non-negative integer, empty for zero.
pub open spec fn spec_dec_digits(n: int) -> Seq<char>
    decreases n,
{
    if n <= 0 {
        Seq::empty()
    } else {
        spec_dec_digits(n / 10).push(hex_digit(n % 10))
    }
}

/// The decimal text of a non-negative integer.
pub open spec fn spec_u64_str(n: int) -> Seq<char> {
    if n == 0 {
        seq!['0']
    } else {
        spec_dec_digits(n)
    }
}

/// The decimal text of an integer, with a leading minus sign if negative.
pub open spec fn spec_i64_str(n: int) -> Seq<char> {
    if n < 0 {
        seq!['-'] + spec_u64_str(-n)
    } else {
        spec_u64_str(n)
    }
}

/// The decimal text of a non-negative integer.
#[verifier::loop_isolation(false)]
pub fn u64_to_string(n: u64) -> (r: String)
    ensures
        r@ == spec_u64_str(n as int),
{
    if n == 0 {
        let r = String::from_str("0");
        proof {
            reveal_strlit("0");
        }
        return r;
    }
    let mut out: Vec<char> = Vec::new();
    let mut m: u64 = n;
    while m > 0
        invariant
            spec_dec_digits(n as int) =~= spec_dec_digits(m as int) + out@,
        decreases m,
    {
        let d: u64 = m % 10;
        proof {
            let ghost prev = out@;
            assert(spec_dec_digits(m as int) == spec_dec_digits(m as int / 10).push(
                hex_digit(m as int % 10),
            ));
            assert((spec_dec_digits(m as int / 10).push(hex_digit(m as int % 10)) + prev) =~= (
            spec_dec_digits(m as int / 10) + (seq![hex_digit(m as int % 10)] + prev)));
        }
        out.insert(0, hex_digit_exec(d as u32));
        m = m / 10;
    }
    chars_to_string(&out)
}

/// The decimal text of an integer.
pub fn i64_to_string(n: i64) -> (r: String)
    ensures
        r@ == spec_i64_str(n as int),
{
    if n >= 0 {
        u64_to_string(n as u64)
    } else {
        let mag: u64 = (-(n as i128)) as u64;
        let tail = u64_to_string(mag);
        let mut out: Vec<char> = Vec::new();
        out.push('-');
        push_chars(&mut out, tail.as_str());
        proof {
            assert(out@ =~= seq!['-'] + spec_u64_str(mag as int));
        }
        chars_to_string(&out)
    }
}

/// Whether every character is a decimal digit.
pub open spec fn all_digits(s: Seq<char>) -> bool {
    forall|i: int| 0 <= i < s.len() ==> is_digit(#[trigger] s[i])
}

/// The value of a non-empty digit string.
pub open spec fn spec_digits_val(s: Seq<char>) -> int
    decreases s.len(),
{
    if s.len() == 0 {
        0
    } else {
        spec_digits_val(s.drop_last()) * 10 + ((s.last() as u32) - 0x30)
    }
}

/// The integer denoted by a text: an optional minus sign followed by one or
/// more decimal digits, and nothing else.
pub open spec fn spec_int_of(s: Seq<char>) -> Option<int> {
    if s.len() > 0 && s[0] == '-' {
        let d = s.subrange(1, s.len() as int);
        if d.len() > 0 && all_digits(d) {
            Some(-spec_digits_val(d))
        } else {
            None
        }
    } else {
        if s.len() > 0 && all_digits(s) {
            Some(spec_digits_val(s))
        } else {
            None
        }
    }
}

/// The value of a non-empty digit string grows left to right.
proof fn lemma_digits_val_snoc(s: Seq<char>, i: int)
    requires
        0 <= i < s.len(),
    ensures
        spec_digits_val(s.subrange(0, i + 1)) == spec_digits_val(s.subrange(0, i)) * 10 + ((s[i]
            as u32) - 0x30),
{
    let t = s.subrange(0, i + 1);
    assert(t.drop_last() =~= s.subrange(0, i));
    assert(t.last() == s[i]);
}

/// The digit values of a non-negative digit string stay non-negative.
proof fn lemma_digits_val_nonneg(s: Seq<char>)
    requires
        all_digits(s),
    ensures
        spec_digits_val(s) >= 0,
    decreases s.len(),
{
    if s.len() > 0 {
        assert(all_digits(s.drop_last())) by {
            assert(forall|i: int|
                0 <= i < s.drop_last().len() ==> #[trigger] s.drop_last()[i] == s[i]);
        }
        lemma_digits_val_nonneg(s.drop_last());
    }
}

/// Reads an integer from a text: an optional minus sign followed by decimal
/// digits and nothing else, provided its value fits the result type.
#[verifier::loop_isolation(false)]
#[verifier::rlimit(50)]
pub fn parse_i64(s: &str) -> (r: Option<i64>)
    ensures
        match r {
            Some(v) => spec_int_of(s@) == Some(v as int),
            None => match spec_int_of(s@) {
                Some(v) => v < i64::MIN || v > i64::MAX,
                None => true,
            },
        },
{
    let n = s.unicode_len();
    if n == 0 {
        return None;
    }
    let neg = s.get_char(0) == '-';
    let start: usize = if neg {
        1
    } else {
        0
    };
    if start >= n {
        return None;
    }
    let ghost d = s@.subrange(start as int, n as int);
    let mut acc: u64 = 0;
    let mut i: usize = start;
    while i < n
        invariant
            start <= i <= n,
            n == s@.len(),
            start < n,
            d == s@.subrange(start as int, n as int),
            all_digits(s@.subrange(start as int, i as int)),
            acc as int == spec_digits_val(s@.subrange(start as int, i as int)),
            acc <= 0x8000_0000_0000_0000u64,
        decreases n - i,
    {
        let c = s.get_char(i);
        let u = c as u32;
        if !(0x30 <= u && u <= 0x39) {
            proof {
                assert(s@.subrange(start as int, n as int)[i - start] == s@[i as int]);
                assert(!all_digits(d));
            }
            return None;
        }
        let dv: u64 = (u - 0x30) as u64;
        if acc > 0x0CCC_CCCC_CCCC_CCCCu64 || (acc == 0x0CCC_CCCC_CCCC_CCCCu64 && dv > 8) {
            // The value no longer fits a 64-bit integer of either sign.
            proof {
                let pre = s@.subrange(start as int, i as int);
                let ext = s@.subrange(start as int, i as int + 1);
                assert(forall|k: int| 0 <= k < i + 1 - start ==> #[trigger] ext[k] == s@[start + k]);
                assert(forall|k: int| 0 <= k < i - start ==> #[trigger] pre[k] == s@[start + k]);
                assert(all_digits(ext));
                lemma_digits_val_grows(s@, start as int, i as int, n as int);
                let full = s@.subrange(start as int, n as int);
                assert(all_digits(full) ==> spec_digits_val(full) >= acc * 10 + dv);
                assert(acc * 10 + dv >= 0x8000_0000_0000_0001);
                if neg {
                    assert(s@[0] == '-');
                } else {
                    assert(full =~= s@);
                }
            }
            return None;
        }
        proof {
            lemma_digits_val_snoc(s@.subrange(start as int, n as int), i - start);
            assert(s@.subrange(start as int, n as int).subrange(0, i - start + 1) =~= s@.subrange(
                start as int,
                i as int + 1,
            ));
            assert(s@.subrange(start as int, n as int).subrange(0, i - start) =~= s@.subrange(
                start as int,
                i as int,
            ));
            assert(forall|k: int|
                0 <= k < i + 1 - start ==> #[trigger] s@.subrange(start as int, i as int + 1)[k]
                    == s@[start + k]);
        }
        acc = acc * 10 + dv;
        i = i + 1;
    }
    proof {
        assert(s@.subrange(start as int, i as int) =~= d);
    }
    if neg {
        proof {
            assert(s@[0] == '-');
            assert(d == s@.subrange(1, s@.len() as int));
            assert(spec_int_of(s@) == Some(-spec_digits_val(d)));
        }
        if acc > 0x8000_0000_0000_0000u64 {
            return None;
        }
        let v: i64 = (-(acc as i128)) as i64;
        proof {
            assert(v as int == -(acc as int));
        }
        Some(v)
    } else {
        proof {
            assert(s@[0] != '-');
            assert(d =~= s@);
            assert(spec_int_of(s@) == Some(spec_digits_val(s@)));
        }
        if acc > 0x7FFF_FFFF_FFFF_FFFFu64 {
            return None;
        }
        Some(acc as i64)
    }
}

/// A digit string's value is at least what a strict prefix denotes, scaled
/// by ten for each further digit: used to show that once the accumulator
/// leaves the representable range the whole literal does too.
proof fn lemma_digits_val_grows(s: Seq<char>, start: int, i: int, n: int)
    requires
        0 <= start <= i < n <= s.len(),
        all_digits(s.subrange(start, i + 1)),
    ensures
        all_digits(s.subrange(start, n)) ==> spec_digits_val(s.subrange(start, n))
            >= spec_digits_val(s.subrange(start, i)) * 10 + ((s[i] as u32) - 0x30),
    decreases n - i,
{
    if all_digits(s.subrange(start, n)) {
        lemma_digits_val_snoc(s.subrange(start, n), i - start);
        assert(s.subrange(start, n).subrange(0, i - start + 1) =~= s.subrange(start, i + 1));
        assert(s.subrange(start, n).subrange(0, i - start) =~= s.subrange(start, i));
        assert(s.subrange(start, n)[i - start] == s[i]);
        if i + 1 == n {
            assert(s.subrange(start, n) =~= s.subrange(start, i + 1));
            lemma_digits_val_snoc(s.subrange(start, n), i - start);
        } else {
            assert(all_digits(s.subrange(start, i + 2))) by {
                assert(forall|k: int|
                    0 <= k < i + 2 - start ==> #[trigger] s.subrange(start, i + 2)[k] == s.subrange(
                        start,
                        n,
                    )[k]);
            }
            lemma_digits_val_grows(s, start, i + 1, n);
            lemma_digits_val_snoc(s.subrange(start, n), i + 1 - start);
            assert(s.subrange(start, n).subrange(0, i + 1 - start) =~= s.subrange(start, i + 1));
            lemma_digits_val_nonneg(s.subrange(start, i + 1));
            assert(spec_digits_val(s.subrange(start, i + 1)) * 10 + ((s[i + 1] as u32) - 0x30)
                >= spec_digits_val(s.subrange(start, i + 1))) by (nonlinear_arith)
                requires
                    spec_digits_val(s.subrange(start, i + 1)) >= 0,
                    ((s[i + 1] as u32) - 0x30) >= 0,
            ;
        }
    }
}


/// Whether two texts hold the same characters.
#[verifier::loop_isolation(false)]
pub fn str_eq(a: &str, b: &str) -> (r: bool)
    ensures
        r == (a@ == b@),
{
    let na = a.unicode_len();
    let nb = b.unicode_len();
    if na != nb {
        return false;
    }
    let mut i: usize = 0;
    while i < na
        invariant
            i <= na,
            na == a@.len(),
            na == b@.len(),
            a@.subrange(0, i as int) =~= b@.subrange(0, i as int),
        decreases na - i,
    {
        if a.get_char(i) != b.get_char(i) {
            return false;
        }
        assert(a@.subrange(0, i as int + 1) =~= b@.subrange(0, i as int + 1));
        i = i + 1;
    }
    proof {
        assert(a@.subrange(0, na as int) =~= a@);
        assert(b@.subrange(0, na as int) =~= b@);
    }
    true
}

/// The value of the first member with the given key, if any.
pub open spec fn obj_lookup(ms: Seq<(Seq<char>, JsonV)>, k: Seq<char>) -> Option<JsonV>
    decreases ms.len(),
{
    if ms.len() == 0 {
        None
    } else if ms[0].0 == k {
        Some(ms[0].1)
    } else {
        obj_lookup(ms.subrange(1, ms.len() as int), k)
    }
}

/// The value of an object's field: `None` where the value is no object or
/// has no member with the given key.
pub open spec fn jget(j: JsonV, k: Seq<char>) -> Option<JsonV> {
    match j {
        JsonV::Obj(ms) => obj_lookup(ms, k),
        _ => None,
    }
}

/// Looks a field up in an object document; see [`jget`].
#[verifier::loop_isolation(false)]
pub fn obj_get<'a>(j: &'a Json, k: &str) -> (r: Option<&'a Json>)
    ensures
        match r {
            Some(v) => jget(j@, k@) == Some(v@),
            None => jget(j@, k@) is None,
        },
{
    match j {
        Json::Obj(members) => {
            let ghost memv = jv_members(members@);
            proof {
                lemma_jv_members(members@);
            }
            let n = members.len();
            proof {
                assert(memv.subrange(0, n as int) =~= memv);
            }
            let mut i: usize = 0;
            while i < n
                invariant
                    i <= n,
                    n == members@.len(),
                    memv == jv_members(members@),
                    obj_lookup(memv, k@) == obj_lookup(memv.subrange(i as int, n as int), k@),
                decreases n - i,
            {
                proof {
                    assert(memv.subrange(i as int, n as int)[0] == memv[i as int]);
                    assert(memv.subrange(i as int, n as int).subrange(
                        1,
                        memv.subrange(i as int, n as int).len() as int,
                    ) =~= memv.subrange(i as int + 1, n as int));
                }
                if str_eq(members[i].0.as_str(), k) {
                    return Some(&members[i].1);
                }
                i = i + 1;
            }
            proof {
                assert(memv.subrange(n as int, n as int) =~= Seq::<(Seq<char>, JsonV)>::empty());
            }
            None
        },
        _ => None,
    }
}

/// The text of a string value.
pub open spec fn as_str_v(j: JsonV) -> Option<Seq<char>> {
    match j {
        JsonV::Str(s) => Some(s),
        _ => None,
    }
}


impl Clone for Json {
    /// A copy of the document, denoting the same value.
    fn clone(&self) -> (r: Self)
        ensures
            r@ == self@,
    {
        self.clone_json()
    }
}

impl Json {
    /// A copy of the document.
    #[verifier::loop_isolation(false)]
    #[verifier::rlimit(50)]
    pub fn clone_json(&self) -> (r: Json)
        ensures
            r@ == self@,
        decreases self,
    {
        match self {
            Json::Null => Json::Null,
            Json::Bool(b) => Json::Bool(*b),
            Json::Num(s) => Json::Num(s.clone()),
            Json::Str(s) => Json::Str(s.clone()),
            Json::Arr(items) => {
                let ghost itemsv = jv_seq(items@);
                proof {
                    lemma_jv_seq(items@);
                }
                let n = items.len();
                let mut out: Vec<Json> = Vec::new();
                let mut i: usize = 0;
                while i < n
                    invariant
                        i <= n,
                        n == items@.len(),
                        itemsv == jv_seq(items@),
                        out@.len() == i,
                        forall|m: int| 0 <= m < i ==> jv(#[trigger] out@[m]) == itemsv[m],
                    decreases n - i,
                {
                    proof {
                        assert(decreases_to!(*self => self->Arr_0));
                        assert(decreases_to!(self->Arr_0 => self->Arr_0@));
                        assert(decreases_to!(self->Arr_0@ => self->Arr_0@[i as int]));
                        assert(items@[i as int] == self->Arr_0@[i as int]);
                    }
                    let c = items[i].clone_json();
                    out.push(c);
                    i = i + 1;
                }
                proof {
                    lemma_jv_seq(out@);
                    assert forall|m: int| 0 <= m < out@.len() implies jv_seq(out@)[m]
                        == itemsv[m] by {
                        assert(jv_seq(out@)[m] == jv(out@[m]));
                    }
                    assert(jv_seq(out@) =~= itemsv);
                }
                Json::Arr(out)
            },
            Json::Obj(members) => {
                let ghost memv = jv_members(members@);
                proof {
                    lemma_jv_members(members@);
                }
                let n = members.len();
                let mut out: Vec<(String, Json)> = Vec::new();
                let mut i: usize = 0;
                while i < n
                    invariant
                        i <= n,
                        n == members@.len(),
                        memv == jv_members(members@),
                        out@.len() == i,
                        forall|m: int|
                            0 <= m < i ==> ((#[trigger] out@[m]).0@, jv(out@[m].1)) == memv[m],
                    decreases n - i,
                {
                    proof {
                        assert(decreases_to!(*self => self->Obj_0));
                        assert(decreases_to!(self->Obj_0 => self->Obj_0@));
                        assert(decreases_to!(self->Obj_0@ => self->Obj_0@[i as int]));
                        assert(decreases_to!(self->Obj_0@[i as int] => self->Obj_0@[i as int].1));
                        assert(members@[i as int].1 == self->Obj_0@[i as int].1);
                    }
                    let c = members[i].1.clone_json();
                    out.push((members[i].0.clone(), c));
                    i = i + 1;
                }
                proof {
                    lemma_jv_members(out@);
                    assert forall|m: int| 0 <= m < out@.len() implies jv_members(out@)[m]
                        == memv[m] by {
                        assert(jv_members(out@)[m] == (out@[m].0@, jv(out@[m].1)));
                    }
                    assert(jv_members(out@) =~= memv);
                }
                Json::Obj(out)
            },
        }
    }
}


/// Hexadecimal digits read back as their value.
proof fn lemma_hex_val_digit(d: int)
    requires
        0 <= d < 16,
    ensures
        spec_hex_val(hex_digit(d)) == d,
{
    if d == 0 {
        assert(spec_hex_val('0') == 0);
    } else if d == 1 {
        assert(spec_hex_val('1') == 1);
    } else if d == 2 {
        assert(spec_hex_val('2') == 2);
    } else if d == 3 {
        assert(spec_hex_val('3') == 3);
    } else if d == 4 {
        assert(spec_hex_val('4') == 4);
    } else if d == 5 {
        assert(spec_hex_val('5') == 5);
    } else if d == 6 {
        assert(spec_hex_val('6') == 6);
    } else if d == 7 {
        assert(spec_hex_val('7') == 7);
    } else if d == 8 {
        assert(spec_hex_val('8') == 8);
    } else if d == 9 {
        assert(spec_hex_val('9') == 9);
    } else if d == 10 {
        assert(spec_hex_val('a') == 10);
    } else if d == 11 {
        assert(spec_hex_val('b') == 11);
    } else if d == 12 {
        assert(spec_hex_val('c') == 12);
    } else if d == 13 {
        assert(spec_hex_val('d') == 13);
    } else if d == 14 {
        assert(spec_hex_val('e') == 14);
    } else {
        assert(spec_hex_val('f') == 15);
    }
}

/// Parsing a string body reads back exactly the text whose escaped form
/// stands at `pos`, up to the closing quote that follows it.
proof fn lemma_parse_escaped(whole: Seq<char>, pos: int, s: Seq<char>)
    requires
        0 <= pos,
        pos + spec_escape(s).len() + 1 <= whole.len(),
        whole.subrange(pos, pos + spec_escape(s).len()) == spec_escape(s),
        whole[pos + spec_escape(s).len()] == '"',
    ensures
        spec_parse_str(whole, pos) == Some((s, pos + spec_escape(s).len() + 1)),
    decreases s.len(),
{
    let esclen = spec_escape(s).len() as int;
    if s.len() == 0 {
        assert(whole[pos] == '"');
    } else {
        let c = s[0];
        let srest = s.subrange(1, s.len() as int);
        let e = esc_char(c);
        assert(spec_escape(s) == e + spec_escape(srest));
        let restlen = spec_escape(srest).len() as int;
        assert forall|k: int| 0 <= k < esclen implies whole[pos + k] == #[trigger] spec_escape(
            s,
        )[k] by {
            assert(whole.subrange(pos, pos + esclen)[k] == whole[pos + k]);
        }
        assert forall|k: int| 0 <= k < e.len() implies whole[pos + k] == #[trigger] e[k] by {
            assert(whole[pos + k] == spec_escape(s)[k]);
            assert(spec_escape(s)[k] == e[k]);
        }
        let pos2 = pos + e.len() as int;
        assert(whole.subrange(pos2, pos2 + restlen) =~= spec_escape(srest)) by {
            assert forall|k: int|
                0 <= k < restlen implies #[trigger] whole.subrange(pos2, pos2 + restlen)[k]
                == spec_escape(srest)[k] by {
                assert(whole.subrange(pos2, pos2 + restlen)[k] == whole[pos2 + k]);
                assert(whole[pos2 + k] == spec_escape(s)[e.len() + k]);
                assert(spec_escape(s)[e.len() + k] == spec_escape(srest)[k]);
            }
        }
        assert(whole[pos2 + restlen] == '"');
        lemma_parse_escaped(whole, pos2, srest);
        if c == '"' {
            assert(whole[pos] == '\\' && whole[pos + 1] == '"');
            assert((seq![c] + srest) =~= s);
        } else if c == '\\' {
            assert(whole[pos] == '\\' && whole[pos + 1] == '\\');
            assert((seq![c] + srest) =~= s);
        } else if c == '\u{08}' || c == '\u{0c}' || c == '\n' || c == '\r' || c == '\t' {
            assert(whole[pos] == '\\');
            assert(spec_unesc(whole[pos + 1]) == Some(c));
            assert((seq![c] + srest) =~= s);
        } else if (c as u32) < 0x20 {
            let u = c as u32;
            assert(e == seq!['\\', 'u', '0', '0', hex_digit(u as int / 16), hex_digit(u as int % 16)]);
            assert(whole[pos] == '\\' && whole[pos + 1] == 'u');
            assert(whole[pos + 2] == '0' && whole[pos + 3] == '0');
            assert(spec_hex_val('0') == 0);
            lemma_hex_val_digit(u as int / 16);
            lemma_hex_val_digit(u as int % 16);
            let code = (0 * 4096 + 0 * 256 + spec_hex_val(whole[pos + 4]) * 16 + spec_hex_val(
                whole[pos + 5],
            )) as u32;
            assert(code == u);
            assert(!(0xD800 <= code < 0xE000));
            vstd::utf8::char_u32_cast(c, u);
            assert(code as char == c);
            assert((seq![code as char] + srest) =~= s);
        } else {
            assert(e == seq![c]);
            assert(e[0] == c);
            assert(whole[pos + 0] == e[0]);
            assert(whole[pos] == c);
            assert(c != '"' && c != '\\' && (c as u32) >= 0x20);
            assert((seq![c] + srest) =~= s);
        }
    }
}

/// Encoding a string document and parsing the result reads the same text
/// back: the parser inverts the encoder's escaping.
pub proof fn lemma_string_round_trip(s: Seq<char>)
    requires
        spec_enc(JsonV::Str(s)).len() <= MAX_DOC_LEN,
    ensures
        spec_parse(spec_enc(JsonV::Str(s))) == Some(JsonV::Str(s)),
{
    let text = spec_enc(JsonV::Str(s));
    let esclen = spec_escape(s).len() as int;
    assert(text == seq!['"'] + spec_escape(s) + seq!['"']);
    assert(text.len() == esclen + 2);
    assert(text[0] == '"');
    assert(spec_skip_ws(text, 0) == 0);
    assert(text.subrange(1, 1 + esclen) =~= spec_escape(s));
    assert(text[1 + esclen] == '"');
    lemma_parse_escaped(text, 1, s);
    let fuel = spec_fuel(text.len() as int);
    assert(fuel > 0);
    assert(spec_parse_val(text, 0, fuel) == Some((JsonV::Str(s), esclen + 2)));
    assert(spec_skip_ws(text, esclen + 2) == text.len());
}

} // verus!
