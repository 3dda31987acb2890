//! Front-door decisions: the upstream guards and request-body assembly.
//!
//! A request for `/<tenant>/<func>` first passes the tenant's upstream
//! rate limit, then upstream authentication when the tenant has a
//! registered public key.  The guest's input is one flat JSON object:
//! the raw body for POST/PUT when there is one, otherwise the query
//! parameters folded into an object built here byte by byte.

use vstd::prelude::*;
use vstd::string::StringSliceAdditionalSpecFns;
use crate::resilience::{ResilienceManager, DEFAULT_UPSTREAM_RPS};
use crate::textutil::str_starts_with;

verus! {

/// A lowercase hex digit.
pub open spec fn hex_char(n: u8) -> u8 {
    if n < 10 {
        (48 + n) as u8
    } else {
        (87 + n) as u8
    }
}

/// How one byte of a string is written inside a JSON string: quote and
/// backslash get escaped, control bytes become `\u00XX`, everything else
/// stands as it is.
pub open spec fn escape_byte(b: u8) -> Seq<u8> {
    if b == 34 {
        seq![92u8, 34u8]
    } else if b == 92 {
        seq![92u8, 92u8]
    } else if b < 32 {
        seq![92u8, 117u8, 48u8, 48u8, hex_char(b / 16), hex_char(b % 16)]
    } else {
        seq![b]
    }
}

/// A whole string escaped, byte by byte.
pub open spec fn escape_bytes(s: Seq<u8>) -> Seq<u8>
    decreases s.len(),
{
    if s.len() == 0 {
        Seq::empty()
    } else {
        escape_byte(s[0]) + escape_bytes(s.drop_first())
    }
}

/// A JSON string: the escaped bytes between quotes.
pub open spec fn json_str(s: Seq<u8>) -> Seq<u8> {
    seq![34u8] + escape_bytes(s) + seq![34u8]
}

/// One `"key":"value"` member.
pub open spec fn json_member(k: Seq<u8>, v: Seq<u8>) -> Seq<u8> {
    json_str(k) + seq![58u8] + json_str(v)
}

/// The members of an object, comma-separated.
pub open spec fn json_members(pairs: Seq<(Seq<u8>, Seq<u8>)>) -> Seq<u8>
    decreases pairs.len(),
{
    if pairs.len() == 0 {
        Seq::empty()
    } else if pairs.len() == 1 {
        json_member(pairs[0].0, pairs[0].1)
    } else {
        json_member(pairs[0].0, pairs[0].1) + seq![44u8] + json_members(pairs.drop_first())
    }
}

/// A flat JSON object of string members, in the order given; a repeated
/// key is kept each time it appears, and parsers take the last.
pub open spec fn json_object(pairs: Seq<(Seq<u8>, Seq<u8>)>) -> Seq<u8> {
    seq![123u8] + json_members(pairs) + seq![125u8]
}

proof fn lemma_escape_snoc(s: Seq<u8>, b: u8)
    ensures
        escape_bytes(s.push(b)) == escape_bytes(s) + escape_byte(b),
    decreases s.len(),
{
    if s.len() == 0 {
        assert(s.push(b)[0] == b);
        assert(s.push(b).drop_first() =~= Seq::<u8>::empty());
        assert(escape_bytes(s.push(b)) == escape_byte(b) + escape_bytes(Seq::<u8>::empty()));
        assert(escape_bytes(s.push(b)) =~= escape_bytes(s) + escape_byte(b));
    } else {
        assert(s.push(b)[0] == s[0]);
        assert(s.push(b).drop_first() =~= s.drop_first().push(b));
        assert(escape_bytes(s.push(b)) == escape_byte(s[0]) + escape_bytes(s.drop_first().push(b)));
        lemma_escape_snoc(s.drop_first(), b);
        assert(escape_bytes(s) == escape_byte(s[0]) + escape_bytes(s.drop_first()));
        assert(escape_bytes(s.push(b)) =~= escape_bytes(s) + escape_byte(b));
    }
}

proof fn lemma_members_snoc(pairs: Seq<(Seq<u8>, Seq<u8>)>, p: (Seq<u8>, Seq<u8>))
    ensures
        json_members(pairs.push(p)) == if pairs.len() == 0 {
            json_member(p.0, p.1)
        } else {
            json_members(pairs) + seq![44u8] + json_member(p.0, p.1)
        },
    decreases pairs.len(),
{
    if pairs.len() == 0 {
        assert(json_members(pairs.push(p)) =~= json_member(p.0, p.1));
    } else {
        assert(pairs.push(p).drop_first() =~= pairs.drop_first().push(p));
        lemma_members_snoc(pairs.drop_first(), p);
        if pairs.len() == 1 {
            assert(json_members(pairs.push(p)) =~= json_members(pairs) + seq![44u8]
                + json_member(p.0, p.1));
        } else {
            assert(json_members(pairs.push(p)) =~= json_members(pairs) + seq![44u8]
                + json_member(p.0, p.1));
        }
    }
}

/// Append the escaped form of `s` to `out`.
fn push_escaped(out: &mut Vec<u8>, s: &[u8])
    ensures
        final(out)@ == old(out)@ + escape_bytes(s@),
{
    let n = s.len();
    let mut i: usize = 0;
    while i < n
        invariant
            n == s@.len(),
            i <= n,
            out@ == old(out)@ + escape_bytes(s@.subrange(0, i as int)),
        decreases n - i,
    {
        let ghost prefix = s@.subrange(0, i as int);
        let b = *vstd::slice::slice_index_get(s, i);
        if b == 34 {
            out.push(92);
            out.push(34);
        } else if b == 92 {
            out.push(92);
            out.push(92);
        } else if b < 32 {
            out.push(92);
            out.push(117);
            out.push(48);
            out.push(48);
            let hi = b / 16;
            let lo = b % 16;
            out.push(if hi < 10 { 48 + hi } else { 87 + hi });
            out.push(if lo < 10 { 48 + lo } else { 87 + lo });
        } else {
            out.push(b);
        }
        proof {
            lemma_escape_snoc(prefix, s@[i as int]);
            assert(s@.subrange(0, i + 1) =~= prefix.push(s@[i as int]));
            assert(out@ =~= old(out)@ + escape_bytes(s@.subrange(0, i + 1)));
        }
        i += 1;
    }
    proof {
        assert(s@.subrange(0, n as int) =~= s@);
    }
}

/// Append the JSON string form of `s` to `out`.
fn push_json_str(out: &mut Vec<u8>, s: &[u8])
    ensures
        final(out)@ == old(out)@ + json_str(s@),
{
    out.push(34);
    push_escaped(out, s);
    out.push(34);
    proof {
        assert(out@ =~= old(out)@ + json_str(s@));
    }
}

/// The query pairs folded into one flat JSON object, in order.
pub fn query_pairs_to_json(pairs: &Vec<(String, String)>) -> (r: Vec<u8>)
    ensures
        r@ == json_object(
            pairs@.map_values(
                |p: (String, String)|
                    (vstd::utf8::encode_utf8(p.0@), vstd::utf8::encode_utf8(p.1@)),
            ),
        ),
{
    let ghost mapped = pairs@.map_values(
        |p: (String, String)| (vstd::utf8::encode_utf8(p.0@), vstd::utf8::encode_utf8(p.1@)),
    );
    let mut out: Vec<u8> = Vec::new();
    out.push(123);
    let n = pairs.len();
    let mut i: usize = 0;
    while i < n
        invariant
            n == pairs@.len(),
            mapped == pairs@.map_values(
                |p: (String, String)|
                    (vstd::utf8::encode_utf8(p.0@), vstd::utf8::encode_utf8(p.1@)),
            ),
            mapped.len() == n,
            i <= n,
            out@ == seq![123u8] + json_members(mapped.subrange(0, i as int)),
        decreases n - i,
    {
        let ghost prefix = mapped.subrange(0, i as int);
        if i > 0 {
            out.push(44);
        }
        push_json_str(&mut out, pairs[i].0.as_str().as_bytes());
        out.push(58);
        push_json_str(&mut out, pairs[i].1.as_str().as_bytes());
        proof {
            assert(mapped[i as int] == (
                vstd::utf8::encode_utf8(pairs@[i as int].0@),
                vstd::utf8::encode_utf8(pairs@[i as int].1@),
            ));
            lemma_members_snoc(prefix, mapped[i as int]);
            assert(mapped.subrange(0, i + 1) =~= prefix.push(mapped[i as int]));
            assert(out@ =~= seq![123u8] + json_members(mapped.subrange(0, i + 1)));
        }
        i += 1;
    }
    out.push(125);
    proof {
        assert(mapped.subrange(0, n as int) =~= mapped);
        assert(out@ =~= json_object(mapped));
    }
    out
}

/// The decoded key-value pairs of a query string, a function of the
/// string alone.
pub uninterp spec fn query_pairs_of(s: Seq<char>) -> Seq<(Seq<char>, Seq<char>)>;

/// Relies on url::form_urlencoded::parse for the decoded key-value pairs
/// of a query string.
#[verifier::external_body]
fn parse_query_pairs(q: &str) -> (r: Vec<(String, String)>)
    ensures
        r@.map_values(|p: (String, String)| (p.0@, p.1@)) == query_pairs_of(q@),
{
    url::form_urlencoded::parse(q.as_bytes()).map(|(k, v)| (k.to_string(), v.to_string())).collect()
}

/// The JSON object the query pairs of `q` fold into.
pub open spec fn query_json_of(q: Seq<char>) -> Seq<u8> {
    json_object(
        query_pairs_of(q).map_values(
            |p: (Seq<char>, Seq<char>)| (vstd::utf8::encode_utf8(p.0), vstd::utf8::encode_utf8(p.1)),
        ),
    )
}

/// The input handed to the guest: for POST and PUT the raw body wins
/// when it is not empty; otherwise the query parameters are folded into
/// one flat JSON object, `{}` when there is no query at all.
pub fn assemble_query_json(method: &str, body: &[u8], query: &str) -> (r: Vec<u8>)
    ensures
        (method@ == "POST"@ || method@ == "PUT"@) && body@.len() > 0 ==> r@ == body@,
        ((method@ != "POST"@ && method@ != "PUT"@) || body@.len() == 0) ==> (if query@.len() == 0 {
            r@ == seq![123u8, 125u8]
        } else {
            r@ == query_json_of(query@)
        }),
{
    let is_post = method.to_owned() == ("POST").to_owned();
    let is_put = method.to_owned() == ("PUT").to_owned();
    if (is_post || is_put) && body.len() > 0 {
        return vstd::slice::slice_to_vec(body);
    }
    if query.unicode_len() == 0 {
        let mut out: Vec<u8> = Vec::new();
        out.push(123);
        out.push(125);
        proof {
            assert(out@ =~= seq![123u8, 125u8]);
        }
        return out;
    }
    let pairs = parse_query_pairs(query);
    let r = query_pairs_to_json(&pairs);
    proof {
        assert(pairs@.map_values(
            |p: (String, String)|
                (vstd::utf8::encode_utf8(p.0@), vstd::utf8::encode_utf8(p.1@)),
        ) =~= query_pairs_of(query@).map_values(
            |p: (Seq<char>, Seq<char>)| (vstd::utf8::encode_utf8(p.0), vstd::utf8::encode_utf8(p.1)),
        ));
    }
    r
}

/// What the upstream guards decided for one request.
pub enum UpstreamDecision {
    /// The request may go through to the guest.
    Allowed,
    /// The tenant's upstream rate limit refused it.
    RateLimited,
    /// The tenant has a registered key and the token was missing or
    /// rejected.
    Unauthorized,
}

/// An authorization header carrying a bearer token.
pub open spec fn bearer_shaped(h: Seq<char>) -> bool {
    h.len() >= "Bearer "@.len() && h.subrange(0, "Bearer "@.len() as int) == "Bearer "@
}

impl ResilienceManager {
    /// The upstream guards for one request: consume a token from the
    /// tenant's bucket, then ask for a valid bearer token when the tenant
    /// has a registered public key.  Signature validation itself is the
    /// key's business; everything around it is pinned.
    pub fn upstream_gate(
        &mut self,
        tomain_id: &str,
        auth_header: Option<&str>,
        now_ms: u64,
    ) -> (r: UpstreamDecision)
        requires
            old(self).wf(),
        ensures
            final(self).security == old(self).security,
            final(self).fault == old(self).fault,
            final(self).traffic.downstream_buckets == old(self).traffic.downstream_buckets,
            final(self).wf(),
            ({
                let b0 = old(self).traffic.upstream_buckets.bucket_before(
                    tomain_id@,
                    DEFAULT_UPSTREAM_RPS,
                    now_ms,
                );
                &&& final(self).traffic.upstream_buckets.buckets@ == old(
                    self,
                ).traffic.upstream_buckets.buckets@.insert(tomain_id@, b0.stepped(now_ms))
                &&& (r is RateLimited <==> !b0.step_ok(now_ms))
                &&& (b0.step_ok(now_ms) && !old(self).security.public_keys@.contains_key(
                    tomain_id@,
                ) ==> r is Allowed)
                &&& (b0.step_ok(now_ms) && old(self).security.public_keys@.contains_key(tomain_id@)
                    ==> ((auth_header is None ==> r is Unauthorized) && (match auth_header {
                    Some(h) => !bearer_shaped(h@) ==> r is Unauthorized,
                    None => true,
                })))
            }),
    {
        if !self.traffic.check_upstream(tomain_id, DEFAULT_UPSTREAM_RPS, now_ms) {
            return UpstreamDecision::RateLimited;
        }
        if !self.security.public_keys.contains_key(tomain_id) {
            return UpstreamDecision::Allowed;
        }
        let header = match auth_header {
            Some(h) => h,
            None => {
                return UpstreamDecision::Unauthorized;
            },
        };
        if !str_starts_with(header, "Bearer ") {
            return UpstreamDecision::Unauthorized;
        }
        let prefix_chars = ("Bearer ").unicode_len();
        let token = header.substring_char(prefix_chars, header.unicode_len());
        match self.security.validate_jwt(tomain_id, token) {
            Ok(()) => UpstreamDecision::Allowed,
            Err(_) => UpstreamDecision::Unauthorized,
        }
    }
}

/// What a reflected document becomes when its server list is replaced
/// by one entry around the given URL; a function of the two texts
/// alone, or nothing when the document does not parse.
pub uninterp spec fn patched_reflect(doc: Seq<char>, url: Seq<char>) -> Option<Seq<char>>;

/// Relies on serde_json's from_str, Map::insert and to_string: parse the
/// document, replace its `servers` field with a one-element array whose
/// `url` is the given one, and write the document back out.  serde_json
/// keeps its maps ordered, so the result depends on the two texts alone;
/// a document that does not parse yields nothing.
#[verifier::external_body]
fn rewrite_servers(doc: &str, server_url: &str) -> (r: Option<String>)
    ensures
        r is Some <==> patched_reflect(doc@, server_url@) is Some,
        r matches Some(s) ==> patched_reflect(doc@, server_url@) == Some(s@),
{
    let mut v: serde_json::Value = serde_json::from_str(doc).ok()?;
    let mut server = serde_json::Map::new();
    server.insert("url".to_string(), serde_json::Value::String(server_url.to_string()));
    server.insert(
        "description".to_string(),
        serde_json::Value::String("Local Axiom Shell".to_string()),
    );
    if let serde_json::Value::Object(ref mut m) = v {
        m.insert(
            "servers".to_string(),
            serde_json::Value::Array(vec![serde_json::Value::Object(server)]),
        );
    }
    serde_json::to_string(&v).ok()
}

/// The URL written into a reflected document's `servers[0].url`: the
/// Shell's base with the tenant appended.
pub fn reflect_server_url(tomain_id: &str) -> (r: String)
    ensures
        r@ == "http://localhost:9000/"@ + tomain_id@,
{
    let mut s = ("http://localhost:9000/").to_owned();
    s.append(tomain_id);
    s
}

/// The rewritten server URL ends with a slash and the tenant id, so a
/// client routed by it calls back through the Shell under that tenant.
pub proof fn lemma_server_url_ends_with_tenant(t: Seq<char>)
    ensures
        ({
            let u = "http://localhost:9000/"@ + t;
            &&& u.len() == t.len() + 22
            &&& u.subrange(u.len() - t.len(), u.len() as int) == t
            &&& u[u.len() - t.len() - 1] == '/'
        }),
{
    reveal_strlit("http://localhost:9000/");
    let u = "http://localhost:9000/"@ + t;
    assert(u.subrange(u.len() - t.len(), u.len() as int) =~= t);
}

/// Rewrite a reflected OpenAPI document so that `servers[0].url` routes
/// through the Shell under the tenant's prefix: the result is exactly
/// the named rewrite around `reflect_server_url(tomain_id)` (whose URL
/// provably ends with `/` and the tenant id), and a document that does
/// not parse is handed back as it came.
pub fn patch_reflect_document(spec_json: &str, tomain_id: &str) -> (r: String)
    ensures
        ({
            let url = "http://localhost:9000/"@ + tomain_id@;
            match patched_reflect(spec_json@, url) {
                Some(s) => r@ == s,
                None => r@ == spec_json@,
            }
        }),
{
    let url = reflect_server_url(tomain_id);
    match rewrite_servers(spec_json, url.as_str()) {
        Some(s) => s,
        None => spec_json.to_owned(),
    }
}


} // verus!
