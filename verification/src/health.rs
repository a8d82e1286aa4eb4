//! The health endpoint the readiness poll probes: a fixed localhost URL
//! holding the server port in decimal.

use vstd::prelude::*;

verus! {

/// The character for one decimal digit.
pub open spec fn digit_char(d: nat) -> char
    recommends
        d < 10,
{
    if d == 0 {
        '0'
    } else if d == 1 {
        '1'
    } else if d == 2 {
        '2'
    } else if d == 3 {
        '3'
    } else if d == 4 {
        '4'
    } else if d == 5 {
        '5'
    } else if d == 6 {
        '6'
    } else if d == 7 {
        '7'
    } else if d == 8 {
        '8'
    } else {
        '9'
    }
}

/// Decimal representation of a natural number, most significant digit
/// first, without leading zeros (a single digit for values under ten).
pub open spec fn dec_rep(n: nat) -> Seq<char>
    decreases n,
{
    if n < 10 {
        seq![digit_char(n)]
    } else {
        dec_rep(n / 10).push(digit_char(n % 10))
    }
}

/// The one-character string for a decimal digit.
fn digit_str(d: u16) -> (r: &'static str)
    requires
        d < 10,
    ensures
        r@ == seq![digit_char(d as nat)],
{
    let r: &'static str = if d == 0 {
        "0"
    } else if d == 1 {
        "1"
    } else if d == 2 {
        "2"
    } else if d == 3 {
        "3"
    } else if d == 4 {
        "4"
    } else if d == 5 {
        "5"
    } else if d == 6 {
        "6"
    } else if d == 7 {
        "7"
    } else if d == 8 {
        "8"
    } else {
        "9"
    };
    proof {
        reveal_strlit("0");
        reveal_strlit("1");
        reveal_strlit("2");
        reveal_strlit("3");
        reveal_strlit("4");
        reveal_strlit("5");
        reveal_strlit("6");
        reveal_strlit("7");
        reveal_strlit("8");
        reveal_strlit("9");
        assert(r@ =~= seq![digit_char(d as nat)]);
    }
    r
}

/// Append the decimal digits of `n` to `out`.
fn push_decimal(n: u16, out: &mut String)
    ensures
        final(out)@ == old(out)@ + dec_rep(n as nat),
    decreases n,
{
    if n >= 10 {
        push_decimal(n / 10, out);
    }
    out.append(digit_str(n % 10));
    proof {
        if n < 10 {
            assert(n % 10 == n as nat);
            assert(old(out)@ + seq![digit_char((n % 10) as nat)] =~= old(out)@ + dec_rep(
                n as nat,
            ));
        } else {
            assert(old(out)@ + dec_rep((n / 10) as nat) + seq![digit_char((n % 10) as nat)]
                =~= old(out)@ + dec_rep(n as nat));
        }
    }
}

/// The port rendered in decimal.
pub fn decimal_port(port: u16) -> (r: String)
    ensures
        r@ == dec_rep(port as nat),
{
    let mut r = String::new();
    push_decimal(port, &mut r);
    proof {
        assert(Seq::<char>::empty() + dec_rep(port as nat) =~= dec_rep(port as nat));
    }
    r
}

/// The URL of the sidecar's status endpoint for the given port.
pub open spec fn health_url_spec(port: u16) -> Seq<char> {
    "http://127.0.0.1:"@ + dec_rep(port as nat) + "/api/oni/status"@
}

/// Build the status-endpoint URL the readiness poll probes.
pub fn health_url(port: u16) -> (r: String)
    ensures
        r@ == health_url_spec(port),
{
    let mut r = String::from_str("http://127.0.0.1:");
    push_decimal(port, &mut r);
    r.append("/api/oni/status");
    r
}

} // verus!
