//! Stringification of DNS answers.
//!
//! The propagation checker compares the expected record content against
//! the stringified answers of a live DNS query.  Address, name and text
//! answers are the textual forms the query client hands back; an MX answer
//! is "preference exchange", assembled here.  Which record types can be
//! queried at all is [`crate::records::RecordType::is_resolvable`].

use vstd::prelude::*;

verus! {

broadcast use vstd::string::group_string_axioms;

use vstd::string::StringExecFns;

/// The decimal digit character for `d`.
pub open spec fn spec_digit(d: int) -> char {
    if d == 0 {
        '0'
    } else if d == 1 {
        '1'
    } else if d == 2 {
        '2'
    } else if d == 3 {
        '3'
    } else if d == 4 {
        '4'
    } else if d == 5 {
        '5'
    } else if d == 6 {
        '6'
    } else if d == 7 {
        '7'
    } else if d == 8 {
        '8'
    } else {
        '9'
    }
}

/// The decimal representation of a non-negative number, without leading
/// zeros (a sole zero for 0).
pub open spec fn spec_decimal(n: int) -> Seq<char>
    decreases n,
{
    if n < 10 {
        seq![spec_digit(n)]
    } else {
        spec_decimal(n / 10) + seq![spec_digit(n % 10)]
    }
}

fn digit_str(d: u64) -> (r: String)
    requires
        d < 10,
    ensures
        r@ =~= seq![spec_digit(d as int)],
{
    match d {
        0 => {
            proof {
                reveal_strlit("0");
            }
            "0".to_owned()
        },
        1 => {
            proof {
                reveal_strlit("1");
            }
            "1".to_owned()
        },
        2 => {
            proof {
                reveal_strlit("2");
            }
            "2".to_owned()
        },
        3 => {
            proof {
                reveal_strlit("3");
            }
            "3".to_owned()
        },
        4 => {
            proof {
                reveal_strlit("4");
            }
            "4".to_owned()
        },
        5 => {
            proof {
                reveal_strlit("5");
            }
            "5".to_owned()
        },
        6 => {
            proof {
                reveal_strlit("6");
            }
            "6".to_owned()
        },
        7 => {
            proof {
                reveal_strlit("7");
            }
            "7".to_owned()
        },
        8 => {
            proof {
                reveal_strlit("8");
            }
            "8".to_owned()
        },
        _ => {
            proof {
                reveal_strlit("9");
            }
            "9".to_owned()
        },
    }
}

/// The decimal text of a number.
pub fn decimal_string(n: u64) -> (r: String)
    ensures
        r@ == spec_decimal(n as int),
    decreases n,
{
    if n < 10 {
        digit_str(n)
    } else {
        let mut r = decimal_string(n / 10);
        let d = digit_str(n % 10);
        r.append(d.as_str());
        proof {
            assert(r@ =~= spec_decimal(n as int));
        }
        r
    }
}

/// The decimal representation of a possibly negative number.
pub open spec fn spec_decimal_i64(n: int) -> Seq<char> {
    if n >= 0 {
        spec_decimal(n)
    } else {
        seq!['-'] + spec_decimal(-n)
    }
}

/// The decimal text of a signed number.
pub fn i64_decimal_string(n: i64) -> (r: String)
    ensures
        r@ == spec_decimal_i64(n as int),
{
    if n >= 0 {
        decimal_string(n as u64)
    } else {
        let magnitude: u64 = (-(n + 1)) as u64 + 1;
        let mut r: String = "-".to_owned();
        let d = decimal_string(magnitude);
        r.append(d.as_str());
        proof {
            reveal_strlit("-");
            assert("-"@ =~= seq!['-']);
        }
        r
    }
}

/// The stringified form of an MX answer: "preference exchange".
pub fn mx_answer_text(preference: u16, exchange: &String) -> (r: String)
    ensures
        r@ == spec_decimal(preference as int) + " "@ + exchange@,
{
    let mut r = decimal_string(preference as u64);
    r.append(" ");
    r.append(exchange.as_str());
    r
}

} // verus!
