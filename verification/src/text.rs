//! Small verified text helpers: decimal rendering of port numbers, the
//! `socketPort=` TXT entry, and trimming of the trailing dot that closes a
//! fully qualified DNS name.
use vstd::prelude::*;
use vstd::string::StrSliceExecFns;
use vstd::string::StringExecFns;

verus! {

/// The character for a single decimal digit.
pub open spec fn digit_char(d: nat) -> char {
    if d == 0 {
        '0'
    } else if d == 1 {
        '1'
    } else if d == 2 {
        '2'
    } else if d == 3 {
        '3'
    } else if d == 4 {
        '4'
    } else if d == 5 {
        '5'
    } else if d == 6 {
        '6'
    } else if d == 7 {
        '7'
    } else if d == 8 {
        '8'
    } else {
        '9'
    }
}

/// The usual decimal rendering of `n`, most significant digit first, with no
/// leading zeros (a single `'0'` for zero).
pub open spec fn spec_decimal(n: nat) -> Seq<char>
    decreases n,
{
    if n < 10 {
        seq![digit_char(n)]
    } else {
        spec_decimal(n / 10).push(digit_char(n % 10))
    }
}

/// Appends the character for the decimal digit `d` to `s`.
fn push_digit(s: String, d: u16) -> (r: String)
    requires
        d < 10,
    ensures
        r@ == s@.push(digit_char(d as nat)),
{
    let digits = "0123456789";
    proof {
        reveal_strlit("0123456789");
        assert(digits.is_ascii());
    }
    let piece = digits.substring_ascii(d as usize, d as usize + 1);
    proof {
        assert(piece@ =~= seq![digit_char(d as nat)]);
    }
    let r = s.concat(piece);
    proof {
        assert(r@ =~= s@.push(digit_char(d as nat)));
    }
    r
}

/// Renders `n` in decimal.
pub fn decimal_string(n: u16) -> (r: String)
    ensures
        r@ == spec_decimal(n as nat),
    decreases n,
{
    if n < 10 {
        push_digit(String::new(), n)
    } else {
        let prefix = decimal_string(n / 10);
        push_digit(prefix, n % 10)
    }
}

/// The TXT entry that announces the command-channel port.
pub open spec fn spec_socket_port_entry(port: u16) -> Seq<char> {
    "socketPort="@ + spec_decimal(port as nat)
}

/// Builds the `socketPort=<port>` TXT entry.
pub fn socket_port_entry(port: u16) -> (r: String)
    ensures
        r@ == spec_socket_port_entry(port),
{
    let prefix = String::from_str("socketPort=");
    let digits = decimal_string(port);
    prefix.concat(digits.as_str())
}

/// `s` with every trailing `'.'` removed.
pub open spec fn spec_trim_dots(s: Seq<char>) -> Seq<char>
    decreases s.len(),
{
    if s.len() > 0 && s.last() == '.' {
        spec_trim_dots(s.drop_last())
    } else {
        s
    }
}

/// Removes every trailing `'.'` from `s`.
pub fn trim_trailing_dots(s: &str) -> (r: String)
    ensures
        r@ == spec_trim_dots(s@),
{
    let n = s.unicode_len();
    let mut end: usize = n;
    proof {
        assert(s@.take(n as int) =~= s@);
    }
    while end > 0 && s.get_char(end - 1) == '.'
        invariant
            end <= n,
            n == s@.len(),
            spec_trim_dots(s@.take(end as int)) == spec_trim_dots(s@),
        decreases end,
    {
        proof {
            let t = s@.take(end as int);
            assert(t.last() == s@[end - 1]);
            assert(t.drop_last() =~= s@.take(end - 1));
        }
        end = end - 1;
    }
    let kept = s.substring_char(0, end);
    proof {
        let t = s@.take(end as int);
        assert(kept@ =~= t);
        if end > 0 {
            assert(t.last() == s@[end - 1]);
        }
        assert(spec_trim_dots(t) == t);
    }
    kept.to_owned()
}

/// Compares two string slices by their characters.
pub fn str_eq(a: &str, b: &str) -> (r: bool)
    ensures
        r == (a@ == b@),
{
    let sa = String::from_str(a);
    let sb = String::from_str(b);
    sa == sb
}

} // verus!
