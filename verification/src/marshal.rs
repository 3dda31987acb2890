//! Linear-memory marshalling: the wire contract between host and guest.
//!
//! Strings cross the boundary as NUL-terminated UTF-8 in the guest's
//! linear memory.  The host reads one by scanning forward from an offset
//! to the first zero byte; it writes one at the old end of memory after
//! growing by whole 64 KiB pages.  Export lookup tries a fixed order of
//! names: the typed `__axiom_call_` wrappers first (with dashes also
//! substituted), then the bare names, then the health fallback.

use vstd::prelude::*;
use crate::textutil::{dash_to_underscore, undash_key};

verus! {

/// Bytes in one WebAssembly linear-memory page.
pub const WASM_PAGE: usize = 65536;

/// The index of the first zero byte at or after `i`, or the length when
/// there is none.
pub open spec fn nul_end(s: Seq<u8>, i: int) -> int
    decreases s.len() - i,
{
    if i < 0 || i >= s.len() {
        s.len() as int
    } else if s[i] == 0 {
        i
    } else {
        nul_end(s, i + 1)
    }
}

/// `nul_end` is the first zero: nothing before it is zero, and it points
/// at a zero unless it is the length.
pub proof fn lemma_nul_end(s: Seq<u8>, i: int)
    requires
        0 <= i <= s.len(),
    ensures
        i <= nul_end(s, i) <= s.len(),
        forall|j: int| i <= j < nul_end(s, i) ==> s[j] != 0,
        nul_end(s, i) < s.len() ==> s[nul_end(s, i)] == 0,
    decreases s.len() - i,
{
    if i < s.len() && s[i] != 0 {
        lemma_nul_end(s, i + 1);
    }
}

/// Scan forward from `start` for the first zero byte; its index comes
/// back, or the length when no zero follows.
pub fn scan_nul(data: &[u8], start: usize) -> (r: usize)
    requires
        start <= data@.len(),
    ensures
        r == nul_end(data@, start as int),
        start <= r <= data@.len(),
        forall|j: int| start <= j < r ==> data@[j] != 0,
        r < data@.len() ==> data@[r as int] == 0,
{
    proof {
        lemma_nul_end(data@, start as int);
    }
    let n = data.len();
    let mut i = start;
    while i < n
        invariant
            start <= i <= n,
            n == data@.len(),
            forall|j: int| start <= j < i ==> data@[j] != 0,
            nul_end(data@, start as int) == nul_end(data@, i as int),
        decreases n - i,
    {
        if *vstd::slice::slice_index_get(data, i) == 0 {
            return i;
        }
        i += 1;
    }
    n
}

/// The bytes of the NUL-terminated string at `start`: everything from
/// `start` up to the first zero byte, the end of memory, or the 64 KiB
/// ceiling that caps a pathological unterminated string.
pub fn read_guest_bytes(data: &[u8], start: usize) -> (r: Vec<u8>)
    requires
        start <= data@.len(),
    ensures
        r@.len() <= WASM_PAGE,
        start + r@.len() <= data@.len(),
        r@ == data@.subrange(start as int, start + r@.len()),
        forall|j: int| start <= j < start + r@.len() ==> data@[j] != 0,
        start + r@.len() < data@.len() && r@.len() < WASM_PAGE ==> data@[start + r@.len()] == 0,
{
    let limit: usize = if data.len() - start > WASM_PAGE {
        start + WASM_PAGE
    } else {
        data.len()
    };
    let window = vstd::slice::slice_subrange(data, start, limit);
    let end = scan_nul(window, 0);
    let r = vstd::slice::slice_to_vec(vstd::slice::slice_subrange(window, 0, end));
    proof {
        assert(r@ =~= data@.subrange(start as int, start + r@.len()));
        assert forall|j: int| start <= j < start + r@.len() implies data@[j] != 0 by {
            assert(window@[j - start] != 0);
        }
    }
    r
}

/// How many whole pages to grow memory by so that `len` bytes and a
/// trailing NUL fit after the old end.
pub fn pages_to_grow(len: usize) -> (r: usize)
    requires
        len <= usize::MAX - WASM_PAGE,
    ensures
        r == len / WASM_PAGE + 1,
        r * WASM_PAGE >= len + 1,
{
    proof {
        assert((len / WASM_PAGE + 1) * WASM_PAGE >= len + 1) by (nonlinear_arith)
            requires
                len >= 0,
        ;
    }
    len / WASM_PAGE + 1
}

/// The typed export names to try, in order: the `__axiom_call_` wrapper
/// of the requested name, then of the name with dashes substituted.
pub fn call_export_names(func_name: &str) -> (r: Vec<String>)
    ensures
        r@.len() == 2,
        r@[0]@ == "__axiom_call_"@ + func_name@,
        r@[1]@ == "__axiom_call_"@ + undash_key(func_name@),
{
    let mut first = ("__axiom_call_").to_owned();
    first.append(func_name);
    let mut second = ("__axiom_call_").to_owned();
    let underscored = dash_to_underscore(func_name);
    second.append(underscored.as_str());
    let mut r: Vec<String> = Vec::new();
    r.push(first);
    r.push(second);
    r
}

/// The bare export names to try after the typed ones, in order: the
/// requested name, the name with dashes substituted, and the health
/// fallback.
pub fn plain_export_names(func_name: &str) -> (r: Vec<String>)
    ensures
        r@.len() == 3,
        r@[0]@ == func_name@,
        r@[1]@ == undash_key(func_name@),
        r@[2]@ == "axiom_health_check"@,
{
    let mut r: Vec<String> = Vec::new();
    r.push(func_name.to_owned());
    r.push(dash_to_underscore(func_name));
    r.push(("axiom_health_check").to_owned());
    r
}

} // verus!
