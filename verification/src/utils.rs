use vstd::prelude::*;
use crate::protocol::Presence;

verus! {

/// The decimal digit `d` (0..=9) as a character sequence of length one.
pub open spec fn digit_seq(d: int) -> Seq<char> {
    seq![
        if d == 0 { '0' } else if d == 1 { '1' } else if d == 2 { '2' } else if d == 3 { '3' }
        else if d == 4 { '4' } else if d == 5 { '5' } else if d == 6 { '6' } else if d == 7 { '7' }
        else if d == 8 { '8' } else { '9' }
    ]
}

/// Decimal notation of a natural number, without leading zeros.
pub open spec fn natural_decimal(n: nat) -> Seq<char>
    decreases n,
{
    if n < 10 {
        digit_seq(n as int)
    } else {
        natural_decimal(n / 10) + digit_seq((n % 10) as int)
    }
}

/// Decimal notation of an integer, as `{}` prints it: a minus sign before
/// negative numbers.
pub open spec fn decimal(n: int) -> Seq<char> {
    if n < 0 {
        seq!['-'] + natural_decimal((-n) as nat)
    } else {
        natural_decimal(n as nat)
    }
}

/// Whether `c` is one of the ten decimal digits.
pub open spec fn is_digit(c: char) -> bool {
    '0' <= c && c <= '9'
}

/// The number that a text of decimal digits stands for.
pub open spec fn digits_value(s: Seq<char>) -> int
    decreases s.len(),
{
    if s.len() == 0 {
        0
    } else {
        digits_value(s.drop_last()) * 10 + ((s.last() as int) - ('0' as int))
    }
}

proof fn lemma_digit_value(d: int)
    requires
        0 <= d < 10,
    ensures
        digit_seq(d).len() == 1,
        is_digit(digit_seq(d)[0]),
        (digit_seq(d)[0] as int) - ('0' as int) == d,
        digit_seq(d)[0] == '0' <==> d == 0,
{
}

/// The decimal notation of a natural number is a nonempty text of digits
/// that stands for the number and starts with `0` only when it is `0`
/// itself.
pub proof fn natural_decimal_reads_back(n: nat)
    ensures
        natural_decimal(n).len() >= 1,
        forall|i: int| 0 <= i < natural_decimal(n).len() ==> is_digit(#[trigger] natural_decimal(n)[i]),
        digits_value(natural_decimal(n)) == n,
        natural_decimal(n)[0] == '0' ==> n == 0,
    decreases n,
{
    if n < 10 {
        lemma_digit_value(n as int);
        let s = natural_decimal(n);
        assert(digits_value(s.drop_last()) == 0);
        assert(s.last() == digit_seq(n as int)[0]);
    } else {
        lemma_digit_value((n % 10) as int);
        natural_decimal_reads_back(n / 10);
        let s = natural_decimal(n);
        assert(s.drop_last() =~= natural_decimal(n / 10));
        assert(s[0] == natural_decimal(n / 10)[0]);
        assert(s.last() == digit_seq((n % 10) as int)[0]);
        assert(digits_value(s) == digits_value(natural_decimal(n / 10)) * 10 + (n % 10));
        assert((n / 10) * 10 + n % 10 == n);
    }
}

/// The decimal notation of an integer, as `{}` prints it, is a minus sign
/// followed by the notation of its magnitude when it is negative, and the
/// notation of the number otherwise.
pub proof fn decimal_reads_back(n: int)
    ensures
        n < 0 ==> (decimal(n)[0] == '-' && digits_value(decimal(n).drop_first()) == -n),
        n >= 0 ==> digits_value(decimal(n)) == n,
        forall|i: int| (n < 0 ==> 1 <= i) && 0 <= i < decimal(n).len() ==> is_digit(#[trigger] decimal(n)[i]),
{
    if n < 0 {
        natural_decimal_reads_back((-n) as nat);
        assert(decimal(n).drop_first() =~= natural_decimal((-n) as nat));
        assert forall|i: int| 1 <= i && 0 <= i < decimal(n).len() implies is_digit(#[trigger] decimal(n)[i]) by {
            assert(decimal(n)[i] == natural_decimal((-n) as nat)[i - 1]);
        }
    } else {
        natural_decimal_reads_back(n as nat);
    }
}

fn digit_text(d: u8) -> (s: &'static str)
    requires
        d < 10,
    ensures
        s@ == digit_seq(d as int),
{
    proof {
        reveal_strlit("0");
        reveal_strlit("1");
        reveal_strlit("2");
        reveal_strlit("3");
        reveal_strlit("4");
        reveal_strlit("5");
        reveal_strlit("6");
        reveal_strlit("7");
        reveal_strlit("8");
        reveal_strlit("9");
    }
    match d {
        0 => "0",
        1 => "1",
        2 => "2",
        3 => "3",
        4 => "4",
        5 => "5",
        6 => "6",
        7 => "7",
        8 => "8",
        _ => "9",
    }
}

/// Writes `n` in decimal, as `format!("{}", n)` does for an `i8`.
pub fn i8_decimal(n: i8) -> (s: String)
    ensures
        s@ == decimal(n as int),
{
    let mut s = String::new();
    let m: u8;
    if n < 0 {
        proof { reveal_strlit("-"); }
        s.append("-");
        m = (-(n as i16)) as u8;
    } else {
        m = n as u8;
    }
    let ghost k: nat = m as nat;
    assert(k == if n < 0 { (-n) as nat } else { n as nat });
    let ghost before = s@;
    if m >= 100 {
        s.append(digit_text(m / 100));
        s.append(digit_text((m / 10) % 10));
        assert(natural_decimal(k / 10) == natural_decimal(k / 100) + digit_seq(((k / 10) % 10) as int));
        assert(natural_decimal(k / 100) == digit_seq((k / 100) as int));
    } else if m >= 10 {
        s.append(digit_text(m / 10));
        assert(natural_decimal(k / 10) == digit_seq((k / 10) as int));
    }
    s.append(digit_text(m % 10));
    assert(k >= 10 ==> natural_decimal(k) == natural_decimal(k / 10) + digit_seq((k % 10) as int));
    assert(s@ == before + natural_decimal(k));
    s
}

/// Whether the query for a user's row found one. A failed query counts as
/// no user.
pub fn if_user_exist(presence: Presence) -> (exists: bool)
    ensures
        exists == (presence == Presence::Present),
{
    match presence {
        Presence::Present => true,
        _ => false,
    }
}

/// `a` followed by `b`.
pub fn join2(a: &str, b: &str) -> (s: String)
    ensures
        s@ == a@ + b@,
{
    let mut s = String::from_str(a);
    s.append(b);
    s
}

/// `a`, then `b`, then `c`.
pub fn join3(a: &str, b: &str, c: &str) -> (s: String)
    ensures
        s@ == a@ + b@ + c@,
{
    let mut s = String::from_str(a);
    s.append(b);
    s.append(c);
    s
}

/// The body of a verification email.
pub open spec fn verification_email_text(
    company_name: Seq<char>,
    otp: Seq<char>,
    user_name: Seq<char>,
    validity_time: int,
) -> Seq<char> {
    "Hello "@ + user_name
        + ",\n\nYour One-Time Password (OTP) for verification is: "@ + otp
        + "\n\nThis code is valid for the next "@ + decimal(validity_time)
        + " minutes. Please do not share this code with anyone.\n\nIf you did not request this, please ignore this email.\n\nBest regards,\n"@
        + company_name
}

/// Formats the body of a verification email.
pub fn verification_email(
    company_name: &str,
    otp: &str,
    user_name: &str,
    validity_time: i8,
) -> (body: String)
    ensures
        body@ == verification_email_text(company_name@, otp@, user_name@, validity_time as int),
{
    let mut body = String::from_str("Hello ");
    body.append(user_name);
    body.append(",\n\nYour One-Time Password (OTP) for verification is: ");
    body.append(otp);
    body.append("\n\nThis code is valid for the next ");
    let minutes = i8_decimal(validity_time);
    body.append(minutes.as_str());
    body.append(
        " minutes. Please do not share this code with anyone.\n\nIf you did not request this, please ignore this email.\n\nBest regards,\n",
    );
    body.append(company_name);
    body
}

} // verus!
