use vstd::prelude::*;
use vstd::string::*;

verus! {

/// The character for a single decimal digit.
pub open spec fn digit_char(d: nat) -> char {
    if d == 0 {
        '0'
    } else if d == 1 {
        '1'
    } else if d == 2 {
        '2'
    } else if d == 3 {
        '3'
    } else if d == 4 {
        '4'
    } else if d == 5 {
        '5'
    } else if d == 6 {
        '6'
    } else if d == 7 {
        '7'
    } else if d == 8 {
        '8'
    } else {
        '9'
    }
}

pub open spec fn is_digit_char(c: char) -> bool {
    '0' <= c <= '9'
}

pub open spec fn digit_value(c: char) -> nat {
    (c as u32 - '0' as u32) as nat
}

/// The decimal representation of `n`, most significant digit first,
/// without leading zeros (`0` is written as one digit).
pub open spec fn dec_digits(n: nat) -> Seq<char>
    decreases n,
{
    if n < 10 {
        seq![digit_char(n)]
    } else {
        dec_digits(n / 10).push(digit_char(n % 10))
    }
}

/// The value of a sequence of decimal digits, most significant first.
pub open spec fn dec_value(s: Seq<char>) -> nat
    decreases s.len(),
{
    if s.len() == 0 {
        0
    } else {
        dec_value(s.drop_last()) * 10 + digit_value(s.last())
    }
}

pub open spec fn all_digits(s: Seq<char>) -> bool {
    forall|i: int| 0 <= i < s.len() ==> is_digit_char(#[trigger] s[i])
}

/// A canonical decimal string: nonempty, digits only, and no leading zero
/// unless the string is exactly "0".
pub open spec fn canonical_dec(s: Seq<char>) -> bool {
    &&& s.len() > 0
    &&& all_digits(s)
    &&& (s.len() == 1 || s[0] != '0')
}

pub proof fn lemma_digit_char_value(d: nat)
    requires
        d < 10,
    ensures
        is_digit_char(digit_char(d)),
        digit_value(digit_char(d)) == d,
        d >= 1 ==> digit_char(d) != '0',
{
}

pub proof fn lemma_dec_digits_value(n: nat)
    ensures
        dec_value(dec_digits(n)) == n,
    decreases n,
{
    if n < 10 {
        let s = dec_digits(n);
        lemma_digit_char_value(n);
        assert(s.len() == 1);
        assert(s.last() == digit_char(n));
        assert(s.drop_last() =~= Seq::<char>::empty());
        assert(dec_value(s.drop_last()) == 0);
        assert(dec_value(s) == 0 * 10 + digit_value(digit_char(n)));
    } else {
        lemma_dec_digits_value(n / 10);
        lemma_digit_char_value(n % 10);
        let s = dec_digits(n);
        assert(s.last() == digit_char(n % 10));
        assert(s.drop_last() =~= dec_digits(n / 10));
        assert(dec_value(s) == (n / 10) * 10 + (n % 10));
        assert(n / 10 * 10 + n % 10 == n) by (nonlinear_arith);
    }
}

pub proof fn lemma_dec_digits_canonical(n: nat)
    ensures
        canonical_dec(dec_digits(n)),
        n >= 1 ==> dec_digits(n)[0] != '0',
    decreases n,
{
    if n < 10 {
    } else {
        lemma_dec_digits_canonical(n / 10);
        let s = dec_digits(n);
        let p = dec_digits(n / 10);
        assert(forall|i: int| 0 <= i < p.len() ==> #[trigger] s[i] == p[i]);
        assert(s[0] == p[0]);
        assert(n / 10 >= 1);
    }
}

fn digit_str(d: u16) -> (r: &'static str)
    requires
        d < 10,
    ensures
        r@ =~= seq![digit_char(d as nat)],
{
    proof {
        reveal_strlit("0");
        reveal_strlit("1");
        reveal_strlit("2");
        reveal_strlit("3");
        reveal_strlit("4");
        reveal_strlit("5");
        reveal_strlit("6");
        reveal_strlit("7");
        reveal_strlit("8");
        reveal_strlit("9");
    }
    match d {
        0 => "0",
        1 => "1",
        2 => "2",
        3 => "3",
        4 => "4",
        5 => "5",
        6 => "6",
        7 => "7",
        8 => "8",
        _ => "9",
    }
}

/// Writes `n` in decimal.
pub fn u16_to_dec(n: u16) -> (r: String)
    ensures
        r@ == dec_digits(n as nat),
    decreases n,
{
    if n < 10 {
        digit_str(n).to_owned()
    } else {
        let mut s = u16_to_dec(n / 10);
        s.append(digit_str(n % 10));
        proof {
            assert(dec_digits((n / 10) as nat) + seq![digit_char((n % 10) as nat)] =~= dec_digits(
                n as nat,
            ));
        }
        s
    }
}

/// The loopback address string for a port, as a listener reports it.
pub open spec fn loopback_addr_spec(port: u16) -> Seq<char> {
    "127.0.0.1:"@ + dec_digits(port as nat)
}

/// Formats `127.0.0.1:<port>`.
pub fn loopback_addr(port: u16) -> (r: String)
    ensures
        r@ == loopback_addr_spec(port),
{
    let mut s = String::from_str("127.0.0.1:");
    let d = u16_to_dec(port);
    s.append(d.as_str());
    s
}

/// What a loopback address string names: `Some(port)` exactly when the
/// string is `127.0.0.1:` followed by the canonical decimal form of a
/// 16-bit port, as `loopback_addr_spec` writes it.
pub open spec fn parse_loopback_spec(s: Seq<char>) -> Option<u16> {
    if s.len() > 10 && s.take(10) == "127.0.0.1:"@ && canonical_dec(s.skip(10)) && dec_value(
        s.skip(10),
    ) < 65536 {
        Some(dec_value(s.skip(10)) as u16)
    } else {
        None
    }
}

/// Law: the address reported for a launched tapplet parses back to the
/// port it was built from; in particular a nonzero port never parses as
/// zero, so a caller that requested port 0 can read off the real port.
pub proof fn lemma_loopback_addr_round_trip(port: u16)
    ensures
        parse_loopback_spec(loopback_addr_spec(port)) == Some(port),
{
    let s = loopback_addr_spec(port);
    let d = dec_digits(port as nat);
    reveal_strlit("127.0.0.1:");
    lemma_dec_digits_canonical(port as nat);
    lemma_dec_digits_value(port as nat);
    assert(s.take(10) =~= "127.0.0.1:"@);
    assert(s.skip(10) =~= d);
}

} // verus!
