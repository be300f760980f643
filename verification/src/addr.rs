//! Rendering of `host:port` address strings, with the port written in
//! decimal. The whole rendering is verified down to the digits.

use vstd::prelude::*;
use vstd::string::StringExecFns;

verus! {

/// The character for one decimal digit.
pub open spec fn digit_char(d: nat) -> char
    recommends
        d < 10,
{
    if d == 0 {
        '0'
    } else if d == 1 {
        '1'
    } else if d == 2 {
        '2'
    } else if d == 3 {
        '3'
    } else if d == 4 {
        '4'
    } else if d == 5 {
        '5'
    } else if d == 6 {
        '6'
    } else if d == 7 {
        '7'
    } else if d == 8 {
        '8'
    } else {
        '9'
    }
}

/// The decimal digits of `n`, most significant first, with no leading
/// zeros except for `n == 0` itself.
pub open spec fn dec_str(n: nat) -> Seq<char>
    decreases n,
{
    if n < 10 {
        seq![digit_char(n)]
    } else {
        dec_str(n / 10) + seq![digit_char(n % 10)]
    }
}

/// The rendered address: the host, a colon, and the port in decimal.
pub open spec fn addr_text(host: Seq<char>, port: u16) -> Seq<char> {
    host + seq![':'] + dec_str(port as nat)
}

/// A one-character string for the digit `d`.
fn digit_str(d: u16) -> (s: &'static str)
    requires
        d < 10,
    ensures
        s@ == seq![digit_char(d as nat)],
{
    proof {
        reveal_strlit("0");
        reveal_strlit("1");
        reveal_strlit("2");
        reveal_strlit("3");
        reveal_strlit("4");
        reveal_strlit("5");
        reveal_strlit("6");
        reveal_strlit("7");
        reveal_strlit("8");
        reveal_strlit("9");
    }
    let s = if d == 0 {
        "0"
    } else if d == 1 {
        "1"
    } else if d == 2 {
        "2"
    } else if d == 3 {
        "3"
    } else if d == 4 {
        "4"
    } else if d == 5 {
        "5"
    } else if d == 6 {
        "6"
    } else if d == 7 {
        "7"
    } else if d == 8 {
        "8"
    } else {
        "9"
    };
    proof {
        assert(s@ =~= seq![digit_char(d as nat)]);
    }
    s
}

/// Appends the decimal digits of `n` to `out`.
fn push_dec(out: &mut String, n: u16)
    ensures
        final(out)@ == old(out)@ + dec_str(n as nat),
    decreases n,
{
    if n >= 10 {
        push_dec(out, n / 10);
        out.append(digit_str(n % 10));
        proof {
            assert(out@ =~= old(out)@ + dec_str(n as nat));
        }
    } else {
        out.append(digit_str(n));
    }
}

/// The address every listening mode binds: all interfaces at `port`.
/// The positional host, if any, is not consulted for binding.
pub fn bind_all_addr(port: u16) -> (r: String)
    ensures
        r@ == addr_text("0.0.0.0"@, port),
{
    format_addr("0.0.0.0", port)
}

/// The whole establishment step of a UDP client: the ephemeral local
/// bind address (all interfaces, port zero) and the fixed target. There
/// is no handshake and nothing is checked against the network: the
/// endpoint is declared ready immediately, and an unreachable or
/// non-listening target can surface only later, on a send or receive,
/// never at startup.
pub fn udp_client_plan(host: &str, port: u16) -> (r: (String, String))
    ensures
        r.0@ == addr_text("0.0.0.0"@, 0u16),
        r.1@ == addr_text(host@, port),
{
    (format_addr("0.0.0.0", 0), format_addr(host, port))
}

/// Renders `host:port`, the port in decimal with no leading zeros.
pub fn format_addr(host: &str, port: u16) -> (r: String)
    ensures
        r@ == addr_text(host@, port),
{
    let mut out = String::from_str(host);
    proof {
        reveal_strlit(":");
    }
    out.append(":");
    push_dec(&mut out, port);
    proof {
        assert(out@ =~= addr_text(host@, port));
    }
    out
}

} // verus!
