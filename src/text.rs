use vstd::prelude::*;
use vstd::string::*;

verus! {

/// The ASCII digit for `d`, for `0 <= d < 10`.
pub open spec fn digit_char(d: int) -> char {
    if d == 0 {
        '0'
    } else if d == 1 {
        '1'
    } else if d == 2 {
        '2'
    } else if d == 3 {
        '3'
    } else if d == 4 {
        '4'
    } else if d == 5 {
        '5'
    } else if d == 6 {
        '6'
    } else if d == 7 {
        '7'
    } else if d == 8 {
        '8'
    } else {
        '9'
    }
}

/// The lower-case hex digit for `d`, for `0 <= d < 16`.
pub open spec fn hex_digit_char(d: int) -> char {
    if d < 10 {
        digit_char(d)
    } else if d == 10 {
        'a'
    } else if d == 11 {
        'b'
    } else if d == 12 {
        'c'
    } else if d == 13 {
        'd'
    } else if d == 14 {
        'e'
    } else {
        'f'
    }
}

/// The lowest `count` hex digits of `n`, most significant first, with
/// leading zeros.
pub open spec fn hex_digits(n: nat, count: nat) -> Seq<char>
    decreases count,
{
    if count == 0 {
        Seq::empty()
    } else {
        hex_digits(n / 16, (count - 1) as nat).push(hex_digit_char((n % 16) as int))
    }
}

/// The decimal notation of a natural number, without leading zeros.
pub open spec fn decimal(n: nat) -> Seq<char>
    decreases n,
{
    if n < 10 {
        seq![digit_char(n as int)]
    } else {
        decimal(n / 10).push(digit_char((n % 10) as int))
    }
}

/// The decimal notation of an integer, with a leading `-` when negative.
pub open spec fn signed_decimal(n: int) -> Seq<char> {
    if n < 0 {
        seq!['-'] + decimal((-n) as nat)
    } else {
        decimal(n as nat)
    }
}

/// `true` or `false`, as boolean literals are written in query strings and JSON.
pub open spec fn bool_text(b: bool) -> Seq<char> {
    if b {
        "true"@
    } else {
        "false"@
    }
}

/// The parts, in order, with `sep` between each two neighbours.
pub open spec fn join_with(parts: Seq<Seq<char>>, sep: Seq<char>) -> Seq<char>
    decreases parts.len(),
{
    if parts.len() == 0 {
        Seq::empty()
    } else if parts.len() == 1 {
        parts[0]
    } else {
        join_with(parts.drop_last(), sep) + sep + parts.last()
    }
}

fn digit_str(d: u64) -> (r: &'static str)
    requires
        d < 10,
    ensures
        r@ == seq![digit_char(d as int)],
{
    proof {
        reveal_strlit("0");
        reveal_strlit("1");
        reveal_strlit("2");
        reveal_strlit("3");
        reveal_strlit("4");
        reveal_strlit("5");
        reveal_strlit("6");
        reveal_strlit("7");
        reveal_strlit("8");
        reveal_strlit("9");
    }
    let r = if d == 0 {
        "0"
    } else if d == 1 {
        "1"
    } else if d == 2 {
        "2"
    } else if d == 3 {
        "3"
    } else if d == 4 {
        "4"
    } else if d == 5 {
        "5"
    } else if d == 6 {
        "6"
    } else if d == 7 {
        "7"
    } else if d == 8 {
        "8"
    } else {
        "9"
    };
    assert(r@ =~= seq![digit_char(d as int)]);
    r
}

/// Decimal notation of an unsigned integer.
pub fn u64_text(n: u64) -> (r: String)
    ensures
        r@ == decimal(n as nat),
    decreases n,
{
    if n < 10 {
        String::from_str(digit_str(n))
    } else {
        let mut s = u64_text(n / 10);
        s.append(digit_str(n % 10));
        proof {
            assert(s@ =~= decimal((n / 10) as nat).push(digit_char((n % 10) as int)));
        }
        s
    }
}

/// Decimal notation of a signed integer.
pub fn i64_text(n: i64) -> (r: String)
    ensures
        r@ == signed_decimal(n as int),
{
    if n < 0 {
        let magnitude: u64 = (-(n as i128)) as u64;
        let digits = u64_text(magnitude);
        let minus = String::from_str("-");
        proof {
            reveal_strlit("-");
        }
        let r = minus.concat(digits.as_str());
        assert(r@ =~= seq!['-'] + decimal((-n) as nat));
        r
    } else {
        u64_text(n as u64)
    }
}

/// `true` or `false`.
pub fn bool_str(b: bool) -> (r: &'static str)
    ensures
        r@ == bool_text(b),
{
    if b {
        "true"
    } else {
        "false"
    }
}

/// Joins the parts in order, with `sep` between each two neighbours.
pub fn join(parts: &Vec<String>, sep: &str) -> (r: String)
    ensures
        r@ == join_with(parts@.map_values(|p: String| p@), sep@),
{
    let ghost views = parts@.map_values(|p: String| p@);
    let mut r = String::new();
    let mut i: usize = 0;
    while i < parts.len()
        invariant
            i <= parts@.len(),
            views == parts@.map_values(|p: String| p@),
            r@ == join_with(views.subrange(0, i as int), sep@),
        decreases parts@.len() - i,
    {
        proof {
            assert(views.subrange(0, i + 1).drop_last() =~= views.subrange(0, i as int));
        }
        if i > 0 {
            r.append(sep);
        }
        r.append(parts[i].as_str());
        proof {
            if i == 0 {
                assert(r@ =~= views.subrange(0, 1)[0]);
            }
        }
        i = i + 1;
    }
    assert(views.subrange(0, i as int) =~= views);
    r
}

} // verus!
