//! Transport Selector: maps the user-supplied connection-type string to one
//! of the enumerated transport modes, after ASCII case normalization.

use vstd::prelude::*;

verus! {

/// Transport mode chosen once per process run from the user's
/// connection-type argument; immutable afterwards.
#[derive(Clone, Copy, Debug, PartialEq, Eq, Structural)]
pub enum ConnectionTypes {
    TCP,
    UDP,
    SERIAL,
    UNKNOWN,
}

/// ASCII lowercase of a single character; characters outside `'A'..='Z'`
/// are unchanged.
pub open spec fn lower_char(c: char) -> char {
    if 65 <= c as u32 && c as u32 <= 90 {
        (((c as u32) + 32) as u8) as char
    } else {
        c
    }
}

/// ASCII lowercase of a character sequence.
pub open spec fn lower_chars(s: Seq<char>) -> Seq<char> {
    s.map_values(|c: char| lower_char(c))
}

/// ASCII-lowercases one character.
pub fn to_lower_char(c: char) -> (r: char)
    ensures
        r == lower_char(c),
{
    let u = c as u32;
    if 65 <= u && u <= 90 {
        ((u + 32) as u8) as char
    } else {
        c
    }
}

/// True exactly when `s`, ASCII-lowercased, equals `t`; callers pass `t`
/// already in lowercase.
fn matches_lowered(s: &str, t: &str) -> (b: bool)
    ensures
        b == (lower_chars(s@) == t@),
{
    let n = s.unicode_len();
    let m = t.unicode_len();
    if n != m {
        assert(lower_chars(s@).len() == s@.len());
        assert(lower_chars(s@) != t@);
        return false;
    }
    let mut i: usize = 0;
    while i < n
        invariant
            n == s@.len(),
            n == t@.len(),
            i <= n,
            forall|j: int| 0 <= j < i ==> lower_char(s@[j]) == t@[j],
        decreases n - i,
    {
        let c = s.get_char(i);
        let d = t.get_char(i);
        if to_lower_char(c) != d {
            assert(lower_chars(s@)[i as int] != t@[i as int]);
            return false;
        }
        i += 1;
    }
    proof {
        assert(lower_chars(s@) =~= t@);
    }
    true
}

/// Mode selected for an already-lowercased connection-type string: the three
/// supported spellings map to their modes, everything else to `UNKNOWN`.
pub open spec fn spec_connection_type(s: Seq<char>) -> ConnectionTypes {
    if s == "tcp"@ {
        ConnectionTypes::TCP
    } else if s == "udp"@ {
        ConnectionTypes::UDP
    } else if s == "serial"@ {
        ConnectionTypes::SERIAL
    } else {
        ConnectionTypes::UNKNOWN
    }
}

/// Transport Selector: classifies the connection-type argument in any letter
/// casing. Unrecognized input is not an error; it yields `UNKNOWN`.
pub fn select_connection_type(arg: &str) -> (t: ConnectionTypes)
    ensures
        t == spec_connection_type(lower_chars(arg@)),
{
    if matches_lowered(arg, "tcp") {
        ConnectionTypes::TCP
    } else if matches_lowered(arg, "udp") {
        ConnectionTypes::UDP
    } else if matches_lowered(arg, "serial") {
        ConnectionTypes::SERIAL
    } else {
        ConnectionTypes::UNKNOWN
    }
}

/// The classification is exact: each transport mode is selected for exactly
/// one lowercase spelling, and every other string yields `UNKNOWN`.
pub proof fn lemma_selector_exact(s: Seq<char>)
    ensures
        spec_connection_type(s) == ConnectionTypes::TCP <==> s == "tcp"@,
        spec_connection_type(s) == ConnectionTypes::UDP <==> s == "udp"@,
        spec_connection_type(s) == ConnectionTypes::SERIAL <==> s == "serial"@,
        spec_connection_type(s) == ConnectionTypes::UNKNOWN <==> (s != "tcp"@ && s != "udp"@
            && s != "serial"@),
{
    reveal_strlit("tcp");
    reveal_strlit("udp");
    reveal_strlit("serial");
    assert("tcp"@[0] != "udp"@[0]);
    assert("tcp"@.len() != "serial"@.len());
    assert("udp"@.len() != "serial"@.len());
}

/// Arguments whose ASCII lowercasings agree select the same transport mode:
/// the selector is insensitive to letter casing.
pub proof fn lemma_selector_case_insensitive(a: Seq<char>, b: Seq<char>)
    requires
        lower_chars(a) == lower_chars(b),
    ensures
        spec_connection_type(lower_chars(a)) == spec_connection_type(lower_chars(b)),
{
}

} // verus!
