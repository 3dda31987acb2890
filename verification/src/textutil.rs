//! Small text helpers: ASCII case folding for environment names, dash
//! substitution for export names, and prefix tests.

use vstd::prelude::*;
use vstd::string::StringSliceAdditionalSpecFns;

verus! {

/// Uppercase for one ASCII character; other characters are unchanged.
pub open spec fn upper_char(c: char) -> char {
    if 97 <= c as u32 && c as u32 <= 122 {
        ((c as u8) - 32) as char
    } else {
        c
    }
}

/// ASCII uppercase, character by character.
pub open spec fn upper_seq(s: Seq<char>) -> Seq<char> {
    s.map_values(|c: char| upper_char(c))
}

/// How environment names are normalised: ASCII names are folded to upper
/// case, others are left as they are.
pub open spec fn env_key(s: Seq<char>) -> Seq<char> {
    if vstd::utf8::is_ascii_chars(s) {
        upper_seq(s)
    } else {
        s
    }
}

/// A dash turned into an underscore; other characters are unchanged.
pub open spec fn undash_char(c: char) -> char {
    if c == '-' {
        '_'
    } else {
        c
    }
}

/// Dashes turned into underscores, character by character.
pub open spec fn undash_seq(s: Seq<char>) -> Seq<char> {
    s.map_values(|c: char| undash_char(c))
}

/// Dashes substituted when the name is ASCII; other names unchanged.
pub open spec fn undash_key(s: Seq<char>) -> Seq<char> {
    if vstd::utf8::is_ascii_chars(s) {
        undash_seq(s)
    } else {
        s
    }
}

/// Relies on std's String::from_utf8: for ASCII bytes it returns the
/// string of exactly those characters, one per byte.
#[verifier::external_body]
fn string_from_utf8(v: Vec<u8>) -> (r: Option<String>)
    requires
        forall|i: int| 0 <= i < v@.len() ==> v@[i] < 128,
    ensures
        r is Some,
        r matches Some(s) ==> s@ == v@.map_values(|b: u8| b as char),
{
    String::from_utf8(v).ok()
}

/// The string with ASCII letters folded to upper case.
pub fn to_upper_ascii(s: &str) -> (r: String)
    ensures
        r@ == env_key(s@),
{
    if !s.is_ascii() {
        return s.to_owned();
    }
    proof {
        broadcast use vstd::string::is_ascii_spec_bytes;
    }
    let bytes = s.as_bytes_vec();
    let mut out: Vec<u8> = Vec::new();
    let mut i: usize = 0;
    let n = bytes.len();
    while i < n
        invariant
            n == bytes@.len(),
            bytes@ == s.spec_bytes(),
            vstd::utf8::is_ascii_chars(s@),
            s.spec_bytes() =~= Seq::new(s@.len(), |j: int| s@[j] as u8),
            i <= n,
            out@.len() == i,
            forall|j: int| 0 <= j < i ==> out@[j] < 128,
            forall|j: int| 0 <= j < i ==> out@[j] as char == upper_char(s@[j]),
        decreases n - i,
    {
        let b = bytes[i];
        let ob: u8 = if 97 <= b && b <= 122 {
            b - 32
        } else {
            b
        };
        proof {
            assert(s@[i as int] as u8 == b);
            assert((s@[i as int] as u32) < 128);
            assert(ob as char == upper_char(s@[i as int]));
        }
        out.push(ob);
        i += 1;
    }
    let r = string_from_utf8(out);
    match r {
        Some(x) => {
            proof {
                assert(x@ =~= upper_seq(s@));
            }
            x
        },
        None => {
            proof {
                assert(false);
            }
            String::new()
        },
    }
}

/// The string with dashes turned into underscores.
pub fn dash_to_underscore(s: &str) -> (r: String)
    ensures
        r@ == undash_key(s@),
{
    if !s.is_ascii() {
        return s.to_owned();
    }
    proof {
        broadcast use vstd::string::is_ascii_spec_bytes;
    }
    let bytes = s.as_bytes_vec();
    let mut out: Vec<u8> = Vec::new();
    let mut i: usize = 0;
    let n = bytes.len();
    while i < n
        invariant
            n == bytes@.len(),
            bytes@ == s.spec_bytes(),
            vstd::utf8::is_ascii_chars(s@),
            s.spec_bytes() =~= Seq::new(s@.len(), |j: int| s@[j] as u8),
            i <= n,
            out@.len() == i,
            forall|j: int| 0 <= j < i ==> out@[j] < 128,
            forall|j: int| 0 <= j < i ==> out@[j] as char == undash_char(s@[j]),
        decreases n - i,
    {
        let b = bytes[i];
        let ob: u8 = if b == 45 {
            95
        } else {
            b
        };
        proof {
            assert(s@[i as int] as u8 == b);
            assert((s@[i as int] as u32) < 128);
            assert(ob as char == undash_char(s@[i as int]));
        }
        out.push(ob);
        i += 1;
    }
    let r = string_from_utf8(out);
    match r {
        Some(x) => {
            proof {
                assert(x@ =~= undash_seq(s@));
            }
            x
        },
        None => {
            proof {
                assert(false);
            }
            String::new()
        },
    }
}

/// Whether some element of `v` reads as `s`.
pub fn vec_contains_str(v: &Vec<String>, s: &str) -> (r: bool)
    ensures
        r <==> exists|i: int| 0 <= i < v@.len() && (#[trigger] v@[i])@ == s@,
{
    let k = s.to_owned();
    let n = v.len();
    let mut i: usize = 0;
    while i < n
        invariant
            n == v@.len(),
            i <= n,
            k@ == s@,
            forall|j: int| 0 <= j < i ==> (#[trigger] v@[j])@ != s@,
        decreases n - i,
    {
        if v[i] == k {
            return true;
        }
        i += 1;
    }
    false
}

/// Whether `s` begins with `p`, by characters.
pub fn str_starts_with(s: &str, p: &str) -> (r: bool)
    ensures
        r == (s@.len() >= p@.len() && s@.subrange(0, p@.len() as int) == p@),
{
    let n = p.unicode_len();
    let m = s.unicode_len();
    if m < n {
        return false;
    }
    let pre = s.substring_char(0, n);
    let r = pre.to_owned() == p.to_owned();
    proof {
        if r {
            assert(s@.subrange(0, p@.len() as int) == p@);
        }
    }
    r
}

} // verus!
