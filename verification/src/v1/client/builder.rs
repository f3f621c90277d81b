//! Builders for a [`Client`](crate::v1::client::Client).

use vstd::prelude::*;
use crate::v1::client::Client;
use crate::v1::json::{chars_of, chars_to_string};

verus! {

/// The normalized serialization that the `url` crate gives a URL text, for
/// the texts it accepts.
pub uninterp spec fn url_normalized(s: Seq<char>) -> Seq<char>;

/// Whether the `url` crate accepts a text as an absolute URL. Parsing is a
/// function of the text alone, so acceptance is too.
pub uninterp spec fn url_parse_ok(s: Seq<char>) -> bool;

/// Relies on `url::Url::parse` and the `From<Url>` conversion to `String`:
/// parsing succeeds exactly on the texts the crate accepts as absolute
/// URLs, and yields the URL whose serialization is the normalized form of
/// the input.
#[verifier::external_body]
pub(crate) fn parse_url_text(s: &str) -> (r: Option<String>)
    ensures
        r is Some <==> url_parse_ok(s@),
        r matches Some(t) ==> t@ == url_normalized(s@),
{
    match url::Url::parse(s) {
        Ok(u) => Some(String::from(u)),
        Err(_) => None,
    }
}

/// The default connect timeout, in milliseconds.
pub const DEFAULT_CONNECT_TIMEOUT_MS: u64 = 60_000;

/// The default read timeout, in milliseconds.
pub const DEFAULT_READ_TIMEOUT_MS: u64 = 60_000;

/// An error related to a [`Builder`].
#[derive(Copy, Clone, Debug, PartialEq, Eq)]
pub enum Error {
    /// A required field was missing from the builder.
    Missing(&'static str),

    /// A base URL could not be parsed.
    Url,
}

impl Error {
    /// The error, described for a reader.
    pub fn message(&self) -> (r: String)
        ensures
            *self matches Error::Missing(f) ==> r@ == "missing required field `"@ + f@ + "`"@,
            *self is Url ==> r@ == "invalid base URL"@,
    {
        match self {
            Error::Missing(f) => {
                let mut out: Vec<char> = Vec::new();
                crate::v1::json::push_chars(&mut out, "missing required field `");
                crate::v1::json::push_chars(&mut out, f);
                crate::v1::json::push_chars(&mut out, "`");
                chars_to_string(&out)
            },
            Error::Url => String::from_str("invalid base URL"),
        }
    }
}

/// The first position at or after `i` holding `?` or `#`: where the path
/// part of a URL serialization ends.
pub open spec fn spec_path_end(s: Seq<char>, i: int) -> int
    decreases s.len() - i,
{
    if 0 <= i < s.len() && s[i] != '?' && s[i] != '#' {
        spec_path_end(s, i + 1)
    } else {
        i
    }
}

/// A URL text with its path made to end in `/`: where the character before
/// the end of the path is not a slash, one is inserted there.
pub open spec fn spec_with_slash(s: Seq<char>) -> Seq<char> {
    let cut = spec_path_end(s, 0);
    if cut > 0 && s[cut - 1] == '/' {
        s
    } else {
        s.subrange(0, cut) + seq!['/'] + s.subrange(cut, s.len() as int)
    }
}

/// Makes the path of a URL text end in `/`; see [`spec_with_slash`].
#[verifier::loop_isolation(false)]
fn with_slash(s: &str) -> (r: String)
    ensures
        r@ == spec_with_slash(s@),
{
    let cs = chars_of(s);
    let n = cs.len();
    let mut cut: usize = 0;
    loop
        invariant
            0 <= cut <= n,
            n == s@.len(),
            cs@ == s@,
            spec_path_end(s@, 0) == spec_path_end(s@, cut as int),
        decreases n - cut,
    {
        if cut < n {
            let c = cs[cut];
            if c != '?' && c != '#' {
                cut = cut + 1;
                continue;
            }
        }
        break;
    }
    if cut > 0 && cs[cut - 1] == '/' {
        return s.to_owned();
    }
    let mut out: Vec<char> = Vec::new();
    let mut i: usize = 0;
    while i < cut
        invariant
            i <= cut <= n,
            n == cs@.len(),
            cs@ == s@,
            out@ =~= s@.subrange(0, i as int),
        decreases cut - i,
    {
        out.push(cs[i]);
        i = i + 1;
    }
    out.push('/');
    let mut k: usize = cut;
    while k < n
        invariant
            cut <= k <= n,
            n == cs@.len(),
            cs@ == s@,
            out@ =~= s@.subrange(0, cut as int) + seq!['/'] + s@.subrange(cut as int, k as int),
        decreases n - k,
    {
        out.push(cs[k]);
        k = k + 1;
    }
    assert(out@ =~= spec_with_slash(s@));
    chars_to_string(&out)
}

/// Whether a character may stand in a header name: the token characters of
/// the header grammar, letters in either case, and digits.
pub open spec fn header_name_char(c: char) -> bool {
    let u = c as u32;
    (0x30 <= u <= 0x39) || (0x41 <= u <= 0x5A) || (0x61 <= u <= 0x7A) || c == '!' || c == '#'
        || c == '$' || c == '%' || c == '&' || c == '\'' || c == '*' || c == '+' || c == '-'
        || c == '.' || c == '^' || c == '_' || c == '`' || c == '|' || c == '~'
}

/// Whether a text may stand as a header name.
pub open spec fn spec_header_name_ok(s: Seq<char>) -> bool {
    s.len() > 0 && forall|i: int| 0 <= i < s.len() ==> header_name_char(#[trigger] s[i])
}

/// Whether a text may stand as a header value: printable ASCII or tab.
pub open spec fn spec_header_value_ok(s: Seq<char>) -> bool {
    forall|i: int| 0 <= i < s.len() ==> {
        let u = (#[trigger] s[i]) as u32;
        u == 0x09 || (0x20 <= u <= 0x7E)
    }
}

/// An upper-case ASCII letter lowered; any other character unchanged.
pub open spec fn lower_char(c: char) -> char {
    if 0x41 <= (c as u32) <= 0x5A {
        ((((c as u32) + 0x20) as u8) as char)
    } else {
        c
    }
}

/// A header name with its ASCII letters lowered, as header names are kept.
pub open spec fn spec_lower(s: Seq<char>) -> Seq<char> {
    Seq::new(s.len(), |i: int| lower_char(s[i]))
}

/// Lowers the ASCII letters of a header name.
#[verifier::loop_isolation(false)]
fn lower_ascii(s: &str) -> (r: String)
    ensures
        r@ == spec_lower(s@),
{
    let cs = chars_of(s);
    let n = cs.len();
    let mut out: Vec<char> = Vec::new();
    let mut i: usize = 0;
    while i < n
        invariant
            i <= n,
            n == cs@.len(),
            cs@ == s@,
            out@ =~= spec_lower(s@).subrange(0, i as int),
        decreases n - i,
    {
        let c = cs[i];
        let u = c as u32;
        if 0x41 <= u && u <= 0x5A {
            out.push(((u + 0x20) as u8) as char);
        } else {
            out.push(c);
        }
        assert(out@ =~= spec_lower(s@).subrange(0, i as int + 1));
        i = i + 1;
    }
    assert(out@ =~= spec_lower(s@));
    chars_to_string(&out)
}

/// The views of a header list.
pub open spec fn header_views(hs: Seq<(String, String)>) -> Seq<(Seq<char>, Seq<char>)> {
    Seq::new(hs.len(), |i: int| (hs[i].0@, hs[i].1@))
}

/// A header list with `k` set to `v`: the first entry named `k` is
/// replaced, or a new entry is appended where none is.
pub open spec fn spec_insert_header(
    hs: Seq<(Seq<char>, Seq<char>)>,
    k: Seq<char>,
    v: Seq<char>,
) -> Seq<(Seq<char>, Seq<char>)>
    decreases hs.len(),
{
    if hs.len() == 0 {
        seq![(k, v)]
    } else if hs[0].0 == k {
        seq![(k, v)] + hs.subrange(1, hs.len() as int)
    } else {
        seq![hs[0]] + spec_insert_header(hs.subrange(1, hs.len() as int), k, v)
    }
}

/// Where the first entry named `k` stands at `m`, the insertion replaces
/// exactly that entry.
proof fn lemma_insert_header_at(hs: Seq<(Seq<char>, Seq<char>)>, k: Seq<char>, v: Seq<char>, m: int)
    requires
        0 <= m < hs.len(),
        hs[m].0 == k,
        forall|j: int| 0 <= j < m ==> (#[trigger] hs[j]).0 != k,
    ensures
        spec_insert_header(hs, k, v) == hs.subrange(0, m) + seq![(k, v)] + hs.subrange(
            m + 1,
            hs.len() as int,
        ),
    decreases m,
{
    let rest = hs.subrange(1, hs.len() as int);
    if m == 0 {
        assert(spec_insert_header(hs, k, v) =~= hs.subrange(0, 0) + seq![(k, v)] + hs.subrange(
            1,
            hs.len() as int,
        ));
    } else {
        assert(hs[0].0 != k);
        assert(forall|j: int| 0 <= j < m - 1 ==> (#[trigger] rest[j]).0 != k) by {
            assert(forall|j: int| 0 <= j < m - 1 ==> rest[j] == hs[j + 1]);
        }
        assert(rest[m - 1].0 == k);
        lemma_insert_header_at(rest, k, v, m - 1);
        assert((seq![hs[0]] + (rest.subrange(0, m - 1) + seq![(k, v)] + rest.subrange(
            m,
            rest.len() as int,
        ))) =~= hs.subrange(0, m) + seq![(k, v)] + hs.subrange(m + 1, hs.len() as int));
    }
}

/// Where no entry is named `k`, the insertion appends one.
proof fn lemma_insert_header_none(hs: Seq<(Seq<char>, Seq<char>)>, k: Seq<char>, v: Seq<char>)
    requires
        forall|j: int| 0 <= j < hs.len() ==> (#[trigger] hs[j]).0 != k,
    ensures
        spec_insert_header(hs, k, v) == hs.push((k, v)),
    decreases hs.len(),
{
    if hs.len() == 0 {
        assert(spec_insert_header(hs, k, v) =~= hs.push((k, v)));
    } else {
        let rest = hs.subrange(1, hs.len() as int);
        assert(forall|j: int| 0 <= j < rest.len() ==> (#[trigger] rest[j]).0 != k) by {
            assert(forall|j: int| 0 <= j < rest.len() ==> rest[j] == hs[j + 1]);
        }
        lemma_insert_header_none(rest, k, v);
        assert((seq![hs[0]] + rest.push((k, v))) =~= hs.push((k, v)));
    }
}

/// A builder for a [`Client`].
#[derive(Clone, Debug, Default)]
pub struct Builder {
    /// The base URL for the requests.
    pub url: Option<String>,

    /// The additional headers to use for requests, as name/value pairs with
    /// lowered names.
    pub headers: Vec<(String, String)>,

    /// The connect timeout for the client, in milliseconds.
    pub connect_timeout: Option<u64>,

    /// The read timeout for the client, in milliseconds.
    pub read_timeout: Option<u64>,
}

impl Builder {
    /// Adds a base URL, given as the serialization of an absolute URL. The
    /// path is made to end in `/`, so that endpoint paths can be joined to
    /// it.
    ///
    /// This silently overwrites any previous base URL given to the builder.
    pub fn url(self, url: &str) -> (r: Self)
        ensures
            r.url matches Some(u) && u@ == spec_with_slash(url@),
            r.headers == self.headers,
            r.connect_timeout == self.connect_timeout,
            r.read_timeout == self.read_timeout,
    {
        Builder { url: Some(with_slash(url)), ..self }
    }

    /// Attempts to parse a URL and add it as the base URL, normalized and
    /// with its path made to end in `/`.
    ///
    /// This silently overwrites any previous base URL given to the builder.
    pub fn url_from_string(self, url: &str) -> (r: Result<Self, Error>)
        ensures
            r is Ok <==> url_parse_ok(url@),
            r matches Ok(b) ==> {
                &&& b.url matches Some(u) && u@ == spec_with_slash(url_normalized(url@))
                &&& b.headers == self.headers
                &&& b.connect_timeout == self.connect_timeout
                &&& b.read_timeout == self.read_timeout
            },
            r matches Err(e) ==> e == Error::Url,
    {
        match parse_url_text(url) {
            Some(t) => Ok(self.url(t.as_str())),
            None => Err(Error::Url),
        }
    }

    /// Inserts a default header for the client.
    ///
    /// The name is kept with its ASCII letters lowered; where the name is
    /// already present, its value is replaced. The name must hold header
    /// token characters and the value printable ASCII or tab: the header
    /// set never holds a value the transport would refuse.
    #[verifier::loop_isolation(false)]
    pub fn insert_header(self, key: &str, value: &str) -> (r: Self)
        requires
            spec_header_name_ok(key@),
            spec_header_value_ok(value@),
        ensures
            header_views(r.headers@) == spec_insert_header(
                header_views(self.headers@),
                spec_lower(key@),
                value@,
            ),
            r.url == self.url,
            r.connect_timeout == self.connect_timeout,
            r.read_timeout == self.read_timeout,
    {
        let k = lower_ascii(key);
        let v = value.to_owned();
        let mut b = self;
        let ghost hv = header_views(b.headers@);
        let n = b.headers.len();
        let mut i: usize = 0;
        while i < n
            invariant
                i <= n,
                n == b.headers@.len(),
                hv == header_views(b.headers@),
                b.url == self.url,
                b.connect_timeout == self.connect_timeout,
                b.read_timeout == self.read_timeout,
                k@ == spec_lower(key@),
                forall|j: int| 0 <= j < i ==> (#[trigger] hv[j]).0 != k@,
            decreases n - i,
        {
            if b.headers[i].0 == k {
                proof {
                    lemma_insert_header_at(hv, k@, v@, i as int);
                }
                let ghost before = b.headers@;
                b.headers[i] = (k, v);
                proof {
                    assert forall|j: int| 0 <= j < b.headers@.len() implies header_views(
                        b.headers@,
                    )[j] == spec_insert_header(hv, k@, v@)[j] by {
                        if j != i {
                            assert(b.headers@[j] == before[j]);
                        }
                    }
                    assert(header_views(b.headers@) =~= spec_insert_header(hv, k@, v@));
                }
                return b;
            }
            i = i + 1;
        }
        proof {
            lemma_insert_header_none(hv, k@, v@);
        }
        let ghost before = b.headers@;
        b.headers.push((k, v));
        proof {
            assert forall|j: int| 0 <= j < b.headers@.len() implies header_views(b.headers@)[j]
                == spec_insert_header(hv, k@, v@)[j] by {
                if j < before.len() {
                    assert(b.headers@[j] == before[j]);
                } else {
                    assert(b.headers@[j] == (k, v));
                }
            }
            assert(header_views(b.headers@) =~= spec_insert_header(hv, k@, v@));
        }
        b
    }

    /// Sets the connect timeout for the client, in milliseconds.
    ///
    /// Defaults to 60 seconds.
    pub fn connect_timeout(self, timeout_ms: u64) -> (r: Self)
        ensures
            r.connect_timeout == Some(timeout_ms),
            r.url == self.url,
            r.headers == self.headers,
            r.read_timeout == self.read_timeout,
    {
        Builder { connect_timeout: Some(timeout_ms), ..self }
    }

    /// Sets the read timeout for the client, in milliseconds.
    ///
    /// Defaults to 60 seconds.
    pub fn read_timeout(self, timeout_ms: u64) -> (r: Self)
        ensures
            r.read_timeout == Some(timeout_ms),
            r.url == self.url,
            r.headers == self.headers,
            r.connect_timeout == self.connect_timeout,
    {
        Builder { read_timeout: Some(timeout_ms), ..self }
    }

    /// Consumes `self` and attempts to build a [`Client`] from the provided
    /// values: this fails exactly when no base URL was given, and the
    /// timeouts fall back to their defaults where unset.
    pub fn try_build(self) -> (r: Result<Client, Error>)
        ensures
            self.url is Some <==> r is Ok,
            r matches Ok(c) ==> {
                &&& Some(c.url) == self.url
                &&& c.headers == self.headers
                &&& c.connect_timeout == (match self.connect_timeout {
                    Some(t) => t,
                    None => DEFAULT_CONNECT_TIMEOUT_MS,
                })
                &&& c.read_timeout == (match self.read_timeout {
                    Some(t) => t,
                    None => DEFAULT_READ_TIMEOUT_MS,
                })
            },
            r matches Err(e) ==> e == Error::Missing("url"),
    {
        match self.url {
            None => Err(Error::Missing("url")),
            Some(url) => Ok(
                Client {
                    url,
                    headers: self.headers,
                    connect_timeout: match self.connect_timeout {
                        Some(t) => t,
                        None => DEFAULT_CONNECT_TIMEOUT_MS,
                    },
                    read_timeout: match self.read_timeout {
                        Some(t) => t,
                        None => DEFAULT_READ_TIMEOUT_MS,
                    },
                },
            ),
        }
    }
}

} // verus!
