//! The database provider registry: alias to provider dispatch.
//!
//! Queries and responses cross the provider boundary as plain values; a
//! parameter or a result row is carried as its JSON text.  The registry
//! maps an alias to the provider configured for it; the drivers
//! themselves live outside the library, behind the provider trait.

use vstd::prelude::*;
use crate::smap::StrMap;

verus! {

/// A query handed to a provider: the SQL text and its parameters, each as
/// JSON text.
pub struct AxiomQuery {
    pub sql: String,
    pub params: Vec<String>,
}

/// A provider's answer: rows as JSON texts, and how many rows a mutation
/// touched.
pub struct AxiomResponse {
    pub rows: Vec<String>,
    pub affected_rows: u64,
}

/// The provider contract: whoever serves an alias answers queries and
/// health checks.  Implementations are the callers' own.
pub trait AxiomDatabaseProvider {
    fn execute_query(&self, query: &AxiomQuery) -> Result<AxiomResponse, String>;

    fn health_check(&self) -> Result<String, String>;

    fn provider_name(&self) -> &'static str;
}

/// The one row the mock provider returns.
pub fn mock_row() -> (r: String)
    ensures
        r@ == "{\"id\":1,\"name\":\"Mock Item\"}"@,
{
    ("{\"id\":1,\"name\":\"Mock Item\"}").to_owned()
}

/// The mock provider's whole answer, the same for every query: its one
/// fixed row, one row affected.
pub fn mock_response() -> (r: AxiomResponse)
    ensures
        r.affected_rows == 1,
        r.rows@.len() == 1,
        r.rows@[0]@ == "{\"id\":1,\"name\":\"Mock Item\"}"@,
{
    let mut rows: Vec<String> = Vec::new();
    rows.push(mock_row());
    AxiomResponse { rows, affected_rows: 1 }
}

/// A provider that answers every query with one fixed row.
pub struct MockAdapter;

impl AxiomDatabaseProvider for MockAdapter {
    fn execute_query(&self, _query: &AxiomQuery) -> Result<AxiomResponse, String> {
        Ok(mock_response())
    }

    fn health_check(&self) -> Result<String, String> {
        Ok(("Mock Healthy").to_owned())
    }

    fn provider_name(&self) -> &'static str {
        "mock"
    }
}

/// The decimal digits of a number, most significant first.
pub open spec fn dec_digits(n: nat) -> Seq<u8>
    decreases n,
{
    if n < 10 {
        seq![(48 + n) as u8]
    } else {
        dec_digits(n / 10) + seq![(48 + n % 10) as u8]
    }
}

/// Rows joined by commas, each already a JSON text.
pub open spec fn joined_rows(rows: Seq<Seq<u8>>) -> Seq<u8>
    decreases rows.len(),
{
    if rows.len() == 0 {
        Seq::empty()
    } else if rows.len() == 1 {
        rows[0]
    } else {
        rows[0] + seq![44u8] + joined_rows(rows.drop_first())
    }
}

/// The JSON document a provider's answer is handed back to the guest
/// as: the rows spliced into an array, then the affected count.
pub open spec fn db_response_bytes(rows: Seq<Seq<u8>>, affected: u64) -> Seq<u8> {
    vstd::utf8::encode_utf8("{\"rows\":["@) + joined_rows(rows) + vstd::utf8::encode_utf8(
        "],\"affected_rows\":"@,
    ) + dec_digits(affected as nat) + seq![125u8]
}

proof fn lemma_joined_snoc(rows: Seq<Seq<u8>>, x: Seq<u8>)
    ensures
        joined_rows(rows.push(x)) == if rows.len() == 0 {
            x
        } else {
            joined_rows(rows) + seq![44u8] + x
        },
    decreases rows.len(),
{
    if rows.len() == 0 {
        assert(joined_rows(rows.push(x)) =~= x);
    } else {
        assert(rows.push(x).drop_first() =~= rows.drop_first().push(x));
        lemma_joined_snoc(rows.drop_first(), x);
        if rows.len() == 1 {
            assert(joined_rows(rows.push(x)) =~= joined_rows(rows) + seq![44u8] + x);
        } else {
            assert(joined_rows(rows.push(x)) =~= joined_rows(rows) + seq![44u8] + x);
        }
    }
}

/// Append the bytes of `s` to `out`.
fn push_bytes(out: &mut Vec<u8>, s: &[u8])
    ensures
        final(out)@ == old(out)@ + s@,
{
    let n = s.len();
    let mut i: usize = 0;
    while i < n
        invariant
            n == s@.len(),
            i <= n,
            out@ == old(out)@ + s@.subrange(0, i as int),
        decreases n - i,
    {
        out.push(*vstd::slice::slice_index_get(s, i));
        proof {
            assert(s@.subrange(0, i + 1) =~= s@.subrange(0, i as int).push(s@[i as int]));
            assert(out@ =~= old(out)@ + s@.subrange(0, i + 1));
        }
        i += 1;
    }
    proof {
        assert(s@.subrange(0, n as int) =~= s@);
    }
}

/// Append the decimal digits of `n` to `out`.
fn push_decimal(out: &mut Vec<u8>, n: u64)
    ensures
        final(out)@ == old(out)@ + dec_digits(n as nat),
    decreases n,
{
    if n >= 10 {
        push_decimal(out, n / 10);
    }
    out.push((n % 10) as u8 + 48);
    proof {
        if n < 10 {
            assert(dec_digits(n as nat) =~= seq![(48 + n) as u8]);
        } else {
            assert(dec_digits(n as nat) =~= dec_digits((n / 10) as nat) + seq![
                (48 + n % 10) as u8,
            ]);
        }
    }
}

/// A provider's answer written out for the guest: exactly the rows and
/// the affected count of `db_response_bytes`.
pub fn db_response_json(resp: &AxiomResponse) -> (r: Vec<u8>)
    ensures
        r@ == db_response_bytes(
            resp.rows@.map_values(|s: String| vstd::utf8::encode_utf8(s@)),
            resp.affected_rows,
        ),
{
    let ghost mapped = resp.rows@.map_values(|s: String| vstd::utf8::encode_utf8(s@));
    let mut out: Vec<u8> = Vec::new();
    push_bytes(&mut out, ("{\"rows\":[").as_bytes());
    let n = resp.rows.len();
    let mut i: usize = 0;
    while i < n
        invariant
            n == resp.rows@.len(),
            mapped == resp.rows@.map_values(|s: String| vstd::utf8::encode_utf8(s@)),
            mapped.len() == n,
            i <= n,
            out@ == vstd::utf8::encode_utf8("{\"rows\":["@) + joined_rows(
                mapped.subrange(0, i as int),
            ),
        decreases n - i,
    {
        let ghost prefix = mapped.subrange(0, i as int);
        if i > 0 {
            out.push(44);
        }
        push_bytes(&mut out, resp.rows[i].as_str().as_bytes());
        proof {
            assert(mapped[i as int] == vstd::utf8::encode_utf8(resp.rows@[i as int]@));
            lemma_joined_snoc(prefix, mapped[i as int]);
            assert(mapped.subrange(0, i + 1) =~= prefix.push(mapped[i as int]));
            assert(out@ =~= vstd::utf8::encode_utf8("{\"rows\":["@) + joined_rows(
                mapped.subrange(0, i + 1),
            ));
        }
        i += 1;
    }
    proof {
        assert(mapped.subrange(0, n as int) =~= mapped);
    }
    push_bytes(&mut out, ("],\"affected_rows\":").as_bytes());
    push_decimal(&mut out, resp.affected_rows);
    out.push(125);
    proof {
        assert(out@ =~= db_response_bytes(mapped, resp.affected_rows));
    }
    out
}

/// How an alias is served.
pub enum ProviderSpec {
    /// The fixed-answer mock provider.
    Mock,
    /// A Postgres database at this URL; the driver lives outside the
    /// library.
    Postgres { url: String },
}

/// Alias to provider configuration.
pub struct DatabaseRegistry {
    pub providers: StrMap<ProviderSpec>,
}

impl DatabaseRegistry {
    /// An empty registry.
    pub fn new() -> (r: Self)
        ensures
            r.providers@ == Map::<Seq<char>, ProviderSpec>::empty(),
    {
        DatabaseRegistry { providers: StrMap::new() }
    }

    /// Configure the provider for an alias.
    pub fn register(&mut self, alias: String, provider: ProviderSpec)
        ensures
            final(self).providers@ == old(self).providers@.insert(alias@, provider),
    {
        self.providers.insert(alias, provider);
    }

    /// The provider configured for an alias, if any.
    pub fn get<'a>(&'a self, alias: &str) -> (r: Option<&'a ProviderSpec>)
        ensures
            r == (if self.providers@.contains_key(alias@) {
                Some(&self.providers@[alias@])
            } else {
                None::<&'a ProviderSpec>
            }),
    {
        self.providers.get(alias)
    }

    /// Replace the whole table with the one read from the registry
    /// document.
    pub fn reload_from_doc(&mut self, providers: StrMap<ProviderSpec>)
        ensures
            final(self).providers == providers,
    {
        self.providers = providers;
    }
}

} // verus!
