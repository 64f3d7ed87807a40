//! Session tokens: the text handed out with a permitted decision.

use crate::risk::RiskLevel;
use vstd::prelude::*;
use vstd::string::StringExecFns;

verus! {

/// The character that writes a single decimal digit.
pub open spec fn digit_char(d: nat) -> char
    recommends
        d < 10,
{
    if d == 0 {
        '0'
    } else if d == 1 {
        '1'
    } else if d == 2 {
        '2'
    } else if d == 3 {
        '3'
    } else if d == 4 {
        '4'
    } else if d == 5 {
        '5'
    } else if d == 6 {
        '6'
    } else if d == 7 {
        '7'
    } else if d == 8 {
        '8'
    } else {
        '9'
    }
}

/// A number written in base ten, without leading zeros.
pub open spec fn decimal(n: nat) -> Seq<char>
    decreases n,
{
    if n < 10 {
        seq![digit_char(n)]
    } else {
        decimal(n / 10).push(digit_char(n % 10))
    }
}

/// The token of a granted session: user, resource, effective risk and hour
/// of access, joined by hyphens.
pub open spec fn token_spec(user_id: Seq<char>, resource: Seq<char>, risk: RiskLevel, hour: u8) -> Seq<char> {
    user_id + seq!['-'] + resource + seq!['-'] + risk.name_spec() + seq!['-'] + decimal(hour as nat)
}

fn digit_str(d: u8) -> (s: &'static str)
    requires
        d < 10,
    ensures
        s@ == seq![digit_char(d as nat)],
{
    proof {
        reveal_strlit("0");
        reveal_strlit("1");
        reveal_strlit("2");
        reveal_strlit("3");
        reveal_strlit("4");
        reveal_strlit("5");
        reveal_strlit("6");
        reveal_strlit("7");
        reveal_strlit("8");
        reveal_strlit("9");
    }
    let s: &'static str = match d {
        0 => "0",
        1 => "1",
        2 => "2",
        3 => "3",
        4 => "4",
        5 => "5",
        6 => "6",
        7 => "7",
        8 => "8",
        _ => "9",
    };
    assert(s@ =~= seq![digit_char(d as nat)]);
    s
}

/// Appends `n` in base ten to `out`.
pub fn push_decimal(out: &mut String, n: u8)
    ensures
        final(out)@ == old(out)@ + decimal(n as nat),
{
    let ghost before = out@;
    if n >= 100 {
        out.append(digit_str(n / 100));
    }
    if n >= 10 {
        out.append(digit_str((n / 10) % 10));
    }
    out.append(digit_str(n % 10));
    proof {
        let v = n as nat;
        reveal_with_fuel(decimal, 4);
        if v >= 100 {
            assert((v / 10) / 10 == v / 100);
            assert(decimal(v) =~= seq![digit_char(v / 100), digit_char((v / 10) % 10), digit_char(v % 10)]);
        } else if v >= 10 {
            assert((v / 10) % 10 == v / 10);
            assert(decimal(v) =~= seq![digit_char(v / 10), digit_char(v % 10)]);
        }
        assert(out@ =~= before + decimal(v));
    }
}

/// Writes the session token for a granted request. The token is a function
/// of its four arguments and of nothing else.
pub fn session_token(user_id: &str, resource: &str, risk: RiskLevel, hour: u8) -> (token: String)
    ensures
        token@ == token_spec(user_id@, resource@, risk, hour),
{
    proof {
        reveal_strlit("-");
    }
    let mut token = String::from_str(user_id);
    token.append("-");
    token.append(resource);
    token.append("-");
    token.append(risk.name());
    token.append("-");
    push_decimal(&mut token, hour);
    assert("-"@ =~= seq!['-']);
    token
}

} // verus!
