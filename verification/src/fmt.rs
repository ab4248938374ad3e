use vstd::prelude::*;
use vstd::string::StringExecFns;

verus! {

/// The character for one decimal digit.
pub open spec fn spec_digit_char(d: nat) -> char
    recommends
        d < 10,
{
    if d == 0 {
        '0'
    } else if d == 1 {
        '1'
    } else if d == 2 {
        '2'
    } else if d == 3 {
        '3'
    } else if d == 4 {
        '4'
    } else if d == 5 {
        '5'
    } else if d == 6 {
        '6'
    } else if d == 7 {
        '7'
    } else if d == 8 {
        '8'
    } else {
        '9'
    }
}

/// The decimal digits of `n`, most significant first, with no leading zeros
/// except for `n == 0` itself.
pub open spec fn spec_dec_digits(n: nat) -> Seq<char>
    decreases n,
{
    if n < 10 {
        seq![spec_digit_char(n)]
    } else {
        spec_dec_digits(n / 10).push(spec_digit_char(n % 10))
    }
}

/// A whole number of milliseconds rendered as seconds with exactly three
/// fractional digits, e.g. the way a chunk offset is handed to the media
/// tool's seek argument.
pub open spec fn spec_ms_as_seconds(ms: nat) -> Seq<char> {
    spec_dec_digits(ms / 1000) + seq![
        '.',
        spec_digit_char((ms % 1000) / 100),
        spec_digit_char(((ms % 1000) / 10) % 10),
        spec_digit_char(ms % 10),
    ]
}

fn digit_str(d: u64) -> (r: &'static str)
    requires
        d < 10,
    ensures
        r@ == seq![spec_digit_char(d as nat)],
{
    if d == 0 {
        proof {
            reveal_strlit("0");
            assert("0"@ =~= seq!['0']);
        }
        "0"
    } else if d == 1 {
        proof {
            reveal_strlit("1");
            assert("1"@ =~= seq!['1']);
        }
        "1"
    } else if d == 2 {
        proof {
            reveal_strlit("2");
            assert("2"@ =~= seq!['2']);
        }
        "2"
    } else if d == 3 {
        proof {
            reveal_strlit("3");
            assert("3"@ =~= seq!['3']);
        }
        "3"
    } else if d == 4 {
        proof {
            reveal_strlit("4");
            assert("4"@ =~= seq!['4']);
        }
        "4"
    } else if d == 5 {
        proof {
            reveal_strlit("5");
            assert("5"@ =~= seq!['5']);
        }
        "5"
    } else if d == 6 {
        proof {
            reveal_strlit("6");
            assert("6"@ =~= seq!['6']);
        }
        "6"
    } else if d == 7 {
        proof {
            reveal_strlit("7");
            assert("7"@ =~= seq!['7']);
        }
        "7"
    } else if d == 8 {
        proof {
            reveal_strlit("8");
            assert("8"@ =~= seq!['8']);
        }
        "8"
    } else {
        proof {
            reveal_strlit("9");
            assert("9"@ =~= seq!['9']);
        }
        "9"
    }
}

/// Renders `n` in decimal.
pub fn u64_to_dec_string(n: u64) -> (r: String)
    ensures
        r@ == spec_dec_digits(n as nat),
    decreases n,
{
    if n < 10 {
        String::from_str(digit_str(n))
    } else {
        let mut s = u64_to_dec_string(n / 10);
        s.append(digit_str(n % 10));
        proof {
            assert(spec_dec_digits((n / 10) as nat).push(spec_digit_char((n % 10) as nat))
                =~= spec_dec_digits((n / 10) as nat) + seq![spec_digit_char((n % 10) as nat)]);
        }
        s
    }
}

/// Renders a whole number of milliseconds as seconds with exactly three
/// fractional digits.
pub fn format_ms_as_seconds(ms: u64) -> (r: String)
    ensures
        r@ == spec_ms_as_seconds(ms as nat),
{
    let mut s = u64_to_dec_string(ms / 1000);
    s.append(".");
    s.append(digit_str((ms % 1000) / 100));
    s.append(digit_str(((ms % 1000) / 10) % 10));
    s.append(digit_str(ms % 10));
    proof {
        reveal_strlit(".");
        assert("."@ =~= seq!['.']);
        assert(s@ =~= spec_ms_as_seconds(ms as nat));
    }
    s
}

} // verus!
