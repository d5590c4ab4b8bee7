use vstd::prelude::*;
use vstd::string::StringExecFns;

verus! {

/// The character of a decimal digit `d < 10`.
pub open spec fn digit_char(d: nat) -> char {
    seq!['0', '1', '2', '3', '4', '5', '6', '7', '8', '9'][d as int]
}

/// The decimal text of `n`: most significant digit first, no leading zeros,
/// and "0" for zero.
pub open spec fn decimal(n: nat) -> Seq<char>
    decreases n,
{
    if n < 10 {
        seq![digit_char(n)]
    } else {
        decimal(n / 10).push(digit_char(n % 10))
    }
}

/// Appends the digit `d` to `out`.
fn append_digit(out: &mut String, d: u64)
    requires
        d < 10,
    ensures
        final(out)@ == old(out)@.push(digit_char(d as nat)),
{
    let s: &str = if d == 0 {
        "0"
    } else if d == 1 {
        "1"
    } else if d == 2 {
        "2"
    } else if d == 3 {
        "3"
    } else if d == 4 {
        "4"
    } else if d == 5 {
        "5"
    } else if d == 6 {
        "6"
    } else if d == 7 {
        "7"
    } else if d == 8 {
        "8"
    } else {
        "9"
    };
    proof {
        reveal_strlit("0");
        reveal_strlit("1");
        reveal_strlit("2");
        reveal_strlit("3");
        reveal_strlit("4");
        reveal_strlit("5");
        reveal_strlit("6");
        reveal_strlit("7");
        reveal_strlit("8");
        reveal_strlit("9");
    }
    out.append(s);
    assert(final(out)@ =~= old(out)@.push(digit_char(d as nat)));
}

/// Appends the decimal text of `n` to `out`.
pub fn append_decimal(out: &mut String, n: u64)
    ensures
        final(out)@ == old(out)@ + decimal(n as nat),
    decreases n,
{
    if n >= 10 {
        append_decimal(out, n / 10);
        append_digit(out, n % 10);
        assert(final(out)@ =~= old(out)@ + decimal(n as nat));
    } else {
        append_digit(out, n);
        assert(final(out)@ =~= old(out)@ + decimal(n as nat));
    }
}

/// The body of the greeting route.
pub fn hello_body() -> (r: String)
    ensures
        r@ == "Hello World"@,
{
    String::from_str("Hello World")
}

/// The body of the counter route for the count `n`: "Request number: n".
pub fn counter_body(n: u64) -> (r: String)
    ensures
        r@ == "Request number: "@ + decimal(n as nat),
{
    let mut r = String::from_str("Request number: ");
    append_decimal(&mut r, n);
    r
}

/// The body of the user route: "Welcome friend, user_id user_id!".
pub fn welcome_body(user_id: u32, friend: &str) -> (r: String)
    ensures
        r@ == "Welcome "@ + friend@ + ", user_id "@ + decimal(user_id as nat) + "!"@,
{
    let mut r = String::from_str("Welcome ");
    r.append(friend);
    r.append(", user_id ");
    append_decimal(&mut r, user_id as u64);
    r.append("!");
    r
}

} // verus!
