//! Shared text-building helpers for folded stack traces: joining path
//! components, rendering decimal gas deltas, and assembling one folded line
//! (`<path-components joined by "; "> <gas-delta>`).

use vstd::prelude::*;
use vstd::string::StrSliceExecFns;
use vstd::string::StringExecFns;

verus! {

/// The separator between two call-path components of a folded line.
pub open spec fn path_separator() -> Seq<char> {
    seq![';', ' ']
}

/// The tail of a joined sequence: separator-prefixed components from `i` on.
pub open spec fn spec_join_with_from(parts: Seq<Seq<char>>, sep: Seq<char>, i: int) -> Seq<char>
    decreases parts.len() - i,
{
    if i < 0 || i >= parts.len() {
        Seq::empty()
    } else {
        sep + parts[i] + spec_join_with_from(parts, sep, i + 1)
    }
}

/// All components joined by `sep`, with no leading or trailing separator.
pub open spec fn spec_join_with(parts: Seq<Seq<char>>, sep: Seq<char>) -> Seq<char> {
    if parts.len() == 0 {
        Seq::empty()
    } else {
        parts[0] + spec_join_with_from(parts, sep, 1)
    }
}

/// Joins the given components with `sep`, with no leading or trailing
/// separator.
pub fn join_with(parts: &Vec<String>, sep: &str) -> (joined: String)
    ensures
        joined@ == spec_join_with(parts.deep_view(), sep@),
{
    let ghost dv = parts.deep_view();
    let mut joined = String::new();
    if parts.len() == 0 {
        return joined;
    }
    joined.append(parts[0].as_str());
    let mut i: usize = 1;
    while i < parts.len()
        invariant
            1 <= i <= parts.len(),
            dv == parts.deep_view(),
            dv.len() == parts.len(),
            joined@ + spec_join_with_from(dv, sep@, i as int) == spec_join_with(dv, sep@),
        decreases parts.len() - i,
    {
        let ghost before = joined@;
        joined.append(sep);
        joined.append(parts[i].as_str());
        proof {
            assert(joined@ + spec_join_with_from(dv, sep@, i + 1) =~= before
                + spec_join_with_from(dv, sep@, i as int));
        }
        i += 1;
    }
    proof {
        assert(joined@ + spec_join_with_from(dv, sep@, i as int) =~= joined@);
    }
    joined
}

/// The character for one decimal digit value.
pub open spec fn spec_digit_char(d: u64) -> char {
    if d == 0 {
        '0'
    } else if d == 1 {
        '1'
    } else if d == 2 {
        '2'
    } else if d == 3 {
        '3'
    } else if d == 4 {
        '4'
    } else if d == 5 {
        '5'
    } else if d == 6 {
        '6'
    } else if d == 7 {
        '7'
    } else if d == 8 {
        '8'
    } else {
        '9'
    }
}

/// The usual decimal rendering of `n`, most significant digit first, no
/// leading zeros (except for `n == 0` itself).
pub open spec fn spec_decimal(n: u64) -> Seq<char>
    decreases n,
{
    if n < 10 {
        seq![spec_digit_char(n)]
    } else {
        spec_decimal((n / 10) as u64).push(spec_digit_char(n % 10))
    }
}

/// Appends one decimal digit character to `out`.
fn push_digit(out: &mut String, d: u64)
    requires
        d < 10,
    ensures
        final(out)@ == old(out)@ + seq![spec_digit_char(d)],
{
    proof {
        reveal_strlit("0");
        reveal_strlit("1");
        reveal_strlit("2");
        reveal_strlit("3");
        reveal_strlit("4");
        reveal_strlit("5");
        reveal_strlit("6");
        reveal_strlit("7");
        reveal_strlit("8");
        reveal_strlit("9");
    }
    if d == 0 {
        out.append("0");
    } else if d == 1 {
        out.append("1");
    } else if d == 2 {
        out.append("2");
    } else if d == 3 {
        out.append("3");
    } else if d == 4 {
        out.append("4");
    } else if d == 5 {
        out.append("5");
    } else if d == 6 {
        out.append("6");
    } else if d == 7 {
        out.append("7");
    } else if d == 8 {
        out.append("8");
    } else {
        out.append("9");
    }
    proof {
        assert(final(out)@ =~= old(out)@ + seq![spec_digit_char(d)]);
    }
}

/// Appends the decimal rendering of `n` to `out`.
pub fn push_decimal(out: &mut String, n: u64)
    ensures
        final(out)@ == old(out)@ + spec_decimal(n),
    decreases n,
{
    if n >= 10 {
        push_decimal(out, n / 10);
    }
    push_digit(out, n % 10);
    proof {
        assert(final(out)@ =~= old(out)@ + spec_decimal(n));
    }
}

/// One folded stack line (without its line terminator): the call-path
/// components joined by `"; "`, one space, then the decimal gas delta.
pub open spec fn spec_folded_line(parts: Seq<Seq<char>>, gas_used: u64) -> Seq<char> {
    spec_join_with(parts, path_separator()) + seq![' '] + spec_decimal(gas_used)
}

/// Builds one folded stack line from already-rendered path components and a
/// gas delta.
pub fn folded_line(parts: &Vec<String>, gas_used: u64) -> (line: String)
    ensures
        line@ == spec_folded_line(parts.deep_view(), gas_used),
{
    proof {
        reveal_strlit("; ");
        reveal_strlit(" ");
    }
    let mut line = join_with(parts, "; ");
    proof {
        assert("; "@ =~= path_separator());
    }
    line.append(" ");
    push_decimal(&mut line, gas_used);
    proof {
        assert(line@ =~= spec_folded_line(parts.deep_view(), gas_used));
    }
    line
}

/// Character-for-character string equality, reflected into the views.
pub fn str_eq(a: &str, b: &str) -> (eq: bool)
    ensures
        eq == (a@ == b@),
{
    let a_len = a.unicode_len();
    let b_len = b.unicode_len();
    if a_len != b_len {
        return false;
    }
    let mut i: usize = 0;
    while i < a_len
        invariant
            a_len == a@.len(),
            b_len == b@.len(),
            a_len == b_len,
            i <= a_len,
            forall|j: int| 0 <= j < i ==> a@[j] == b@[j],
        decreases a_len - i,
    {
        if a.get_char(i) != b.get_char(i) {
            return false;
        }
        i += 1;
    }
    proof {
        assert(a@ =~= b@);
    }
    true
}

} // verus!
