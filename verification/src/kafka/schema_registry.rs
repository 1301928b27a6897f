//! Schema Registry requests: where each query is sent and the `Authorization`
//! header that goes with it. Sending them and reading the replies is left to
//! the caller.

use vstd::prelude::*;
use vstd::string::*;
use vstd::utf8::*;
use crate::text::{chars_of, owned, push_char, push_signed_decimal, push_str, signed_decimal, string_of};

verus! {

/// Address and credentials of a Schema Registry.
#[derive(Debug, Clone)]
pub struct SchemaRegistryClient {
    pub url: String,
    pub username: Option<String>,
    pub password: Option<String>,
}

/// One version of a registered schema.
#[derive(Debug, Clone)]
pub struct SchemaDetail {
    pub subject: String,
    pub version: i32,
    pub id: i32,
    pub schema: String,
    pub schema_type: String,
}

/// An HTTP GET to send to the registry.
#[derive(Debug, Clone)]
pub struct RegistryRequest {
    pub url: String,
    /// Value of the `Authorization` header, if any
    pub authorization: Option<String>,
}

/// The schema type assumed when the registry does not name one.
pub fn default_schema_type() -> (s: String)
    ensures
        s@ == "AVRO"@,
{
    owned("AVRO")
}

/// `s` without its trailing `/` characters.
pub open spec fn trim_trailing_slashes(s: Seq<char>) -> Seq<char>
    decreases s.len(),
{
    if s.len() > 0 && s.last() == '/' {
        trim_trailing_slashes(s.drop_last())
    } else {
        s
    }
}

/// The base64 alphabet.
pub open spec fn base64_char(i: int) -> char {
    if i < 26 {
        (65 + i) as char
    } else if i < 52 {
        (71 + i) as char
    } else if i < 62 {
        (i - 4) as char
    } else if i == 62 {
        '+'
    } else {
        '/'
    }
}

/// The four characters encoding a group of one to three bytes, padded with `=`.
pub open spec fn base64_group(b: Seq<u8>) -> Seq<char> {
    let b0 = b[0] as int;
    let b1 = if b.len() > 1 {
        b[1] as int
    } else {
        0
    };
    let b2 = if b.len() > 2 {
        b[2] as int
    } else {
        0
    };
    seq![
        base64_char(b0 / 4),
        base64_char((b0 % 4) * 16 + b1 / 16),
        if b.len() > 1 {
            base64_char((b1 % 16) * 4 + b2 / 64)
        } else {
            '='
        },
        if b.len() > 2 {
            base64_char(b2 % 64)
        } else {
            '='
        },
    ]
}

/// Standard base64 with padding.
pub open spec fn base64(b: Seq<u8>) -> Seq<char>
    decreases b.len(),
{
    if b.len() == 0 {
        seq![]
    } else if b.len() <= 3 {
        base64_group(b)
    } else {
        base64_group(b.take(3)) + base64(b.skip(3))
    }
}

/// The `Authorization` value for HTTP basic authentication.
pub open spec fn basic_auth_value(user: Seq<char>, pass: Seq<char>) -> Seq<char> {
    "Basic "@ + base64(encode_utf8(user + seq![':'] + pass))
}

/// The header sent with every request: basic authentication when both a user
/// name and a password are configured.
pub open spec fn authorization_of(c: SchemaRegistryClient) -> Option<Seq<char>> {
    match (c.username, c.password) {
        (Some(u), Some(p)) => Some(basic_auth_value(u@, p@)),
        _ => None,
    }
}

/// The request for `path` on registry `c`.
pub open spec fn request_for(c: SchemaRegistryClient, path: Seq<char>, r: RegistryRequest) -> bool {
    &&& r.url@ == c.url@ + path
    &&& r.authorization matches Some(a) ==> authorization_of(c) == Some(a@)
    &&& r.authorization is None <==> authorization_of(c) is None
}

/// Base64 turns every started group of three bytes into four characters.
pub proof fn lemma_base64_len(b: Seq<u8>)
    ensures
        base64(b).len() == 4 * ((b.len() + 2) / 3),
    decreases b.len(),
{
    if b.len() > 3 {
        lemma_base64_len(b.skip(3));
    }
}

/// Trimming drops exactly the trailing `/` characters: what is left is a
/// prefix of the address that does not end in `/`, and every character cut
/// off is a `/`.
pub proof fn lemma_trim_drops_trailing_slashes(s: Seq<char>)
    ensures
        trim_trailing_slashes(s).len() <= s.len(),
        trim_trailing_slashes(s) == s.take(trim_trailing_slashes(s).len() as int),
        trim_trailing_slashes(s).len() > 0 ==> trim_trailing_slashes(s).last() != '/',
        forall|i: int| trim_trailing_slashes(s).len() <= i < s.len() ==> #[trigger] s[i] == '/',
    decreases s.len(),
{
    if s.len() > 0 && s.last() == '/' {
        let d = s.drop_last();
        lemma_trim_drops_trailing_slashes(d);
        let t = trim_trailing_slashes(d);
        assert(t =~= s.take(t.len() as int));
        assert forall|i: int| t.len() <= i < s.len() implies #[trigger] s[i] == '/' by {
            if i < d.len() {
                assert(s[i] == d[i]);
            }
        }
    } else {
        assert(s.take(s.len() as int) =~= s);
    }
}

/// A registry address that has been trimmed stays as it is when a client is
/// made from it again.
pub proof fn lemma_trim_idempotent(s: Seq<char>)
    ensures
        trim_trailing_slashes(trim_trailing_slashes(s)) == trim_trailing_slashes(s),
    decreases s.len(),
{
    if s.len() > 0 && s.last() == '/' {
        lemma_trim_idempotent(s.drop_last());
    }
}

/// The position of a character in the base64 alphabet.
pub open spec fn base64_index(c: char) -> int {
    let n = c as int;
    if 65 <= n <= 90 {
        n - 65
    } else if 97 <= n <= 122 {
        n - 71
    } else if 48 <= n <= 57 {
        n + 4
    } else if c == '+' {
        62
    } else {
        63
    }
}

/// Whether `c` is one of the 64 characters of the base64 alphabet.
pub open spec fn is_base64_symbol(c: char) -> bool {
    let n = c as int;
    (65 <= n <= 90) || (97 <= n <= 122) || (48 <= n <= 57) || c == '+' || c == '/'
}

/// The bytes a group of four characters stands for: three, or fewer when
/// the group ends in `=` padding.
pub open spec fn base64_ungroup(g: Seq<char>) -> Seq<u8> {
    let v0 = base64_index(g[0]);
    let v1 = base64_index(g[1]);
    let v2 = base64_index(g[2]);
    let v3 = base64_index(g[3]);
    let b0 = (v0 * 4 + v1 / 16) as u8;
    let b1 = ((v1 % 16) * 16 + v2 / 4) as u8;
    let b2 = ((v2 % 4) * 64 + v3) as u8;
    if g[2] == '=' {
        seq![b0]
    } else if g[3] == '=' {
        seq![b0, b1]
    } else {
        seq![b0, b1, b2]
    }
}

/// Standard base64 decoding of padded text, four characters at a time.
pub open spec fn base64_decode(s: Seq<char>) -> Seq<u8>
    decreases s.len(),
{
    if s.len() < 4 {
        seq![]
    } else {
        base64_ungroup(s.take(4)) + base64_decode(s.skip(4))
    }
}

/// The number of `=` characters that pad the encoding of `n` bytes.
pub open spec fn base64_padding(n: nat) -> int {
    (3 - n % 3) % 3
}

proof fn lemma_base64_char(i: int)
    requires
        0 <= i < 64,
    ensures
        is_base64_symbol(base64_char(i)),
        base64_index(base64_char(i)) == i,
        base64_char(i) != '=',
{
}

proof fn lemma_regroup(b0: u8, b1: u8, b2: u8)
    ensures
        (b0 / 4) * 4 + ((b0 % 4) * 16 + b1 / 16) / 16 == b0,
        (((b0 % 4) * 16 + b1 / 16) % 16) * 16 + ((b1 % 16) * 4 + b2 / 64) / 4 == b1,
        (((b1 % 16) * 4 + b2 / 64) % 4) * 64 + b2 % 64 == b2,
        (b0 % 4) * 16 + b1 / 16 < 64,
        (b1 % 16) * 4 + b2 / 64 < 64,
{
    assert((b0 / 4) * 4 + ((b0 % 4) * 16 + b1 / 16) / 16 == b0) by (bit_vector);
    assert((((b0 % 4) * 16 + b1 / 16) % 16) * 16 + ((b1 % 16) * 4 + b2 / 64) / 4 == b1)
        by (bit_vector);
    assert((((b1 % 16) * 4 + b2 / 64) % 4) * 64 + b2 % 64 == b2) by (bit_vector);
    assert((b0 % 4) * 16 + b1 / 16 < 64) by (bit_vector);
    assert((b1 % 16) * 4 + b2 / 64 < 64) by (bit_vector);
}

proof fn lemma_group_round_trip(b: Seq<u8>)
    requires
        1 <= b.len() <= 3,
    ensures
        base64_group(b).len() == 4,
        base64_ungroup(base64_group(b)) == b,
        forall|i: int|
            0 <= i < 4 ==> (base64_group(b)[i] == '=' <==> i >= 4 - base64_padding(b.len())),
        forall|i: int|
            0 <= i < 4 && base64_group(b)[i] != '=' ==> is_base64_symbol(base64_group(b)[i]),
{
    let b0 = b[0];
    let b1: u8 = if b.len() > 1 {
        b[1]
    } else {
        0
    };
    let b2: u8 = if b.len() > 2 {
        b[2]
    } else {
        0
    };
    lemma_regroup(b0, b1, b2);
    let x0 = b0 as int / 4;
    let x1 = (b0 as int % 4) * 16 + b1 as int / 16;
    let x2 = (b1 as int % 16) * 4 + b2 as int / 64;
    let x3 = b2 as int % 64;
    lemma_base64_char(x0);
    lemma_base64_char(x1);
    lemma_base64_char(x2);
    lemma_base64_char(x3);
    let g = base64_group(b);
    assert(g[0] == base64_char(x0));
    assert(g[1] == base64_char(x1));
    if b.len() == 1 {
        assert(base64_ungroup(g) =~= b);
    } else if b.len() == 2 {
        assert(g[2] == base64_char(x2));
        assert(base64_ungroup(g) =~= b);
    } else {
        assert(g[2] == base64_char(x2));
        assert(g[3] == base64_char(x3));
        assert(base64_ungroup(g) =~= b);
    }
}

/// Base64 is standard padded base64: the text is made of the alphabet, ends
/// in exactly the `=` padding its length calls for, and decodes back to the
/// bytes.
pub proof fn lemma_base64_round_trip(b: Seq<u8>)
    ensures
        base64_decode(base64(b)) == b,
        forall|i: int|
            0 <= i < base64(b).len() ==> (base64(b)[i] == '=' <==> i >= base64(b).len()
                - base64_padding(b.len())),
        forall|i: int|
            0 <= i < base64(b).len() && base64(b)[i] != '=' ==> is_base64_symbol(base64(b)[i]),
    decreases b.len(),
{
    if b.len() == 0 {
        assert(base64_decode(base64(b)) =~= b);
    } else if b.len() <= 3 {
        lemma_group_round_trip(b);
        let g = base64_group(b);
        assert(g.take(4) =~= g);
        assert(g.skip(4) =~= Seq::<char>::empty());
        assert(base64_decode(g.skip(4)) =~= Seq::<u8>::empty());
        assert(base64_decode(g) == base64_ungroup(g.take(4)) + base64_decode(g.skip(4)));
        assert(base64_decode(g) =~= b);
    } else {
        let h = b.take(3);
        let t = b.skip(3);
        lemma_group_round_trip(h);
        lemma_base64_round_trip(t);
        lemma_base64_len(t);
        let g = base64_group(h);
        let r = base64(t);
        assert(base64(b) == g + r);
        assert((g + r).take(4) =~= g);
        assert((g + r).skip(4) =~= r);
        assert(h + t =~= b);
        assert(base64_decode(base64(b)) =~= b);
        assert(base64_padding(b.len()) == base64_padding(t.len()));
        assert(base64_padding(h.len()) == 0);
        assert forall|i: int| 0 <= i < base64(b).len() implies (base64(b)[i] == '=' <==> i
            >= base64(b).len() - base64_padding(b.len())) by {
            if i >= 4 {
                assert(base64(b)[i] == r[i - 4]);
            } else {
                assert(base64(b)[i] == g[i]);
            }
        }
        assert forall|i: int| 0 <= i < base64(b).len() && base64(b)[i] != '=' implies
            is_base64_symbol(base64(b)[i]) by {
            if i >= 4 {
                assert(base64(b)[i] == r[i - 4]);
            } else {
                assert(base64(b)[i] == g[i]);
            }
        }
    }
}

fn base64_symbol(i: u8) -> (c: char)
    requires
        i < 64,
    ensures
        c == base64_char(i as int),
{
    if i < 26 {
        (65 + i) as char
    } else if i < 52 {
        (71 + i) as char
    } else if i < 62 {
        (i - 4) as char
    } else if i == 62 {
        '+'
    } else {
        '/'
    }
}

/// Base64-encodes `input`.
pub fn base64_encode(input: &[u8]) -> (out: String)
    ensures
        out@ == base64(input@),
{
    let mut out = String::new();
    let mut i: usize = 0;
    assert(input@.skip(0) =~= input@);
    while i < input.len()
        invariant
            i <= input.len(),
            out@ + base64(input@.skip(i as int)) == base64(input@),
        decreases input.len() - i,
    {
        let rest = input.len() - i;
        let b0 = input[i];
        let b1: u8 = if rest > 1 {
            input[i + 1]
        } else {
            0
        };
        let b2: u8 = if rest > 2 {
            input[i + 2]
        } else {
            0
        };
        let ghost before = out@;
        let ghost chunk = if rest > 3 {
            input@.skip(i as int).take(3)
        } else {
            input@.skip(i as int)
        };
        push_char(&mut out, base64_symbol(b0 / 4));
        push_char(&mut out, base64_symbol((b0 % 4) * 16 + b1 / 16));
        if rest > 1 {
            push_char(&mut out, base64_symbol((b1 % 16) * 4 + b2 / 64));
        } else {
            push_char(&mut out, '=');
        }
        if rest > 2 {
            push_char(&mut out, base64_symbol(b2 % 64));
        } else {
            push_char(&mut out, '=');
        }
        proof {
            assert(out@ =~= before + base64_group(chunk));
            if rest > 3 {
                assert(input@.skip(i as int).skip(3) =~= input@.skip(i + 3));
                assert(base64(input@.skip(i as int)) == base64_group(chunk) + base64(
                    input@.skip(i + 3),
                ));
                assert(out@ + base64(input@.skip(i + 3)) =~= before + base64(
                    input@.skip(i as int),
                ));
            } else {
                assert(input@.skip(input.len() as int) =~= Seq::<u8>::empty());
                assert(out@ + base64(Seq::<u8>::empty()) =~= out@);
            }
        }
        i = if rest > 3 {
            i + 3
        } else {
            input.len()
        };
    }
    assert(input@.skip(i as int) =~= Seq::<u8>::empty());
    assert(out@ + base64(Seq::<u8>::empty()) =~= out@);
    out
}

/// The `Authorization` header value for `user` and `pass`.
pub fn basic_auth(user: &str, pass: &str) -> (r: String)
    ensures
        r@ == basic_auth_value(user@, pass@),
{
    let mut joined = owned(user);
    push_char(&mut joined, ':');
    push_str(&mut joined, pass);
    let bytes = joined.as_str().as_bytes();
    let encoded = base64_encode(bytes);
    let mut r = owned("Basic ");
    push_str(&mut r, encoded.as_str());
    assert(joined@ =~= user@ + seq![':'] + pass@);
    r
}

impl SchemaRegistryClient {
    /// A client for the registry at `url`; trailing `/` characters are dropped.
    pub fn new(url: String, username: Option<String>, password: Option<String>) -> (c: Self)
        ensures
            c.url@ == trim_trailing_slashes(url@),
            c.username == username,
            c.password == password,
    {
        let cs = chars_of(url.as_str());
        let mut j: usize = cs.len();
        assert(cs@.take(j as int) =~= cs@);
        while j > 0 && cs[j - 1] == '/'
            invariant
                j <= cs.len(),
                trim_trailing_slashes(cs@.take(j as int)) == trim_trailing_slashes(cs@),
            decreases j,
        {
            assert(cs@.take(j as int).drop_last() =~= cs@.take(j - 1));
            j = j - 1;
        }
        let mut out: Vec<char> = Vec::new();
        let mut k: usize = 0;
        while k < j
            invariant
                k <= j,
                j <= cs.len(),
                out@ == cs@.take(k as int),
            decreases j - k,
        {
            out.push(cs[k]);
            k = k + 1;
            assert(out@ =~= cs@.take(k as int));
        }
        SchemaRegistryClient { url: string_of(&out), username, password }
    }

    /// The `Authorization` header of every request, if credentials are set.
    pub fn authorization(&self) -> (r: Option<String>)
        ensures
            r matches Some(a) ==> authorization_of(*self) == Some(a@),
            r is None <==> authorization_of(*self) is None,
    {
        match (&self.username, &self.password) {
            (Some(u), Some(p)) => Some(basic_auth(u.as_str(), p.as_str())),
            _ => None,
        }
    }

    /// The GET request for `path`, relative to the registry's address.
    pub fn get_request(&self, path: &str) -> (r: RegistryRequest)
        ensures
            request_for(*self, path@, r),
    {
        let mut url = self.url.clone();
        push_str(&mut url, path);
        RegistryRequest { url, authorization: self.authorization() }
    }

    /// The request for `GET /subjects`, which lists all subject names.
    pub fn list_subjects(&self) -> (r: RegistryRequest)
        ensures
            request_for(*self, "/subjects"@, r),
    {
        self.get_request("/subjects")
    }

    /// The request for `GET /subjects/{subject}/versions`, which lists the
    /// version numbers of a subject.
    pub fn list_versions(&self, subject: &str) -> (r: RegistryRequest)
        ensures
            request_for(*self, "/subjects/"@ + subject@ + "/versions"@, r),
    {
        let mut path = owned("/subjects/");
        push_str(&mut path, subject);
        push_str(&mut path, "/versions");
        self.get_request(path.as_str())
    }

    /// The request for `GET /subjects/{subject}/versions/{version}`, which
    /// gives one version of a subject.
    pub fn get_schema_version(&self, subject: &str, version: i32) -> (r: RegistryRequest)
        ensures
            request_for(
                *self,
                "/subjects/"@ + subject@ + "/versions/"@ + signed_decimal(version as int),
                r,
            ),
    {
        let mut path = owned("/subjects/");
        push_str(&mut path, subject);
        push_str(&mut path, "/versions/");
        push_signed_decimal(&mut path, version as i64);
        self.get_request(path.as_str())
    }

    /// The request for `GET /subjects/{subject}/versions/latest`, which gives
    /// the latest version of a subject.
    pub fn get_latest_schema(&self, subject: &str) -> (r: RegistryRequest)
        ensures
            request_for(*self, "/subjects/"@ + subject@ + "/versions/latest"@, r),
    {
        let mut path = owned("/subjects/");
        push_str(&mut path, subject);
        push_str(&mut path, "/versions/latest");
        self.get_request(path.as_str())
    }

    /// The request for `GET /schemas/ids/{id}`, which gives the schema
    /// registered under `id`.
    pub fn get_schema_by_id(&self, id: i32) -> (r: RegistryRequest)
        ensures
            request_for(*self, "/schemas/ids/"@ + signed_decimal(id as int), r),
    {
        let mut path = owned("/schemas/ids/");
        push_signed_decimal(&mut path, id as i64);
        self.get_request(path.as_str())
    }
}

} // verus!
