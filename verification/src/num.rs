//! JSON number literals, kept as their wire text.
//!
//! The catalog's numeric facts (price, alcohol percentage, volume, recycle
//! fee) are carried as validated JSON number literals, so that a value read
//! from the wire is reproduced byte for byte when written back.

use vstd::prelude::*;
use vstd::string::*;
use crate::date::is_digit;

verus! {

// The recognizer is a deterministic automaton over the JSON number grammar
// `-? (0 | [1-9][0-9]*) (. [0-9]+)? ([eE] [+-]? [0-9]+)?`.
// States: 0 start, 1 after the minus sign, 2 after a leading zero,
// 3 inside the integer digits, 4 after the decimal point, 5 inside the
// fraction digits, 6 after the exponent mark, 7 after the exponent sign,
// 8 inside the exponent digits, 9 reject.
pub open spec fn num_step(st: int, c: char) -> int {
    if st == 0 {
        if c == '-' {
            1
        } else if c == '0' {
            2
        } else if is_digit(c) {
            3
        } else {
            9
        }
    } else if st == 1 {
        if c == '0' {
            2
        } else if is_digit(c) {
            3
        } else {
            9
        }
    } else if st == 2 {
        if c == '.' {
            4
        } else if c == 'e' || c == 'E' {
            6
        } else {
            9
        }
    } else if st == 3 {
        if is_digit(c) {
            3
        } else if c == '.' {
            4
        } else if c == 'e' || c == 'E' {
            6
        } else {
            9
        }
    } else if st == 4 {
        if is_digit(c) {
            5
        } else {
            9
        }
    } else if st == 5 {
        if is_digit(c) {
            5
        } else if c == 'e' || c == 'E' {
            6
        } else {
            9
        }
    } else if st == 6 {
        if c == '+' || c == '-' {
            7
        } else if is_digit(c) {
            8
        } else {
            9
        }
    } else if st == 7 || st == 8 {
        if is_digit(c) {
            8
        } else {
            9
        }
    } else {
        9
    }
}

pub open spec fn num_accepting(st: int) -> bool {
    st == 2 || st == 3 || st == 5 || st == 8
}

/// State after running the automaton over `s[i..]` starting in `st`.
pub open spec fn num_run(s: Seq<char>, i: int, st: int) -> int
    decreases s.len() - i,
{
    if i < 0 || i >= s.len() {
        st
    } else {
        num_run(s, i + 1, num_step(st, s[i]))
    }
}

/// The text is a JSON number literal.
pub open spec fn is_json_number(s: Seq<char>) -> bool {
    num_accepting(num_run(s, 0, 0))
}

fn num_step_exec(st: u8, c: char) -> (r: u8)
    ensures
        r as int == num_step(st as int, c),
        r <= 9,
{
    let digit = matches!(c, '0'|'1'|'2'|'3'|'4'|'5'|'6'|'7'|'8'|'9');
    match st {
        0 => {
            if c == '-' {
                1
            } else if c == '0' {
                2
            } else if digit {
                3
            } else {
                9
            }
        },
        1 => {
            if c == '0' {
                2
            } else if digit {
                3
            } else {
                9
            }
        },
        2 => {
            if c == '.' {
                4
            } else if c == 'e' || c == 'E' {
                6
            } else {
                9
            }
        },
        3 => {
            if digit {
                3
            } else if c == '.' {
                4
            } else if c == 'e' || c == 'E' {
                6
            } else {
                9
            }
        },
        4 => {
            if digit {
                5
            } else {
                9
            }
        },
        5 => {
            if digit {
                5
            } else if c == 'e' || c == 'E' {
                6
            } else {
                9
            }
        },
        6 => {
            if c == '+' || c == '-' {
                7
            } else if digit {
                8
            } else {
                9
            }
        },
        7 | 8 => {
            if digit {
                8
            } else {
                9
            }
        },
        _ => 9,
    }
}

/// Checks that the text is a JSON number literal.
pub fn check_json_number(s: &str) -> (r: bool)
    ensures
        r == is_json_number(s@),
{
    let n = s.unicode_len();
    let mut st: u8 = 0;
    let mut i: usize = 0;
    while i < n
        invariant
            i <= n,
            n == s@.len(),
            st <= 9,
            num_run(s@, 0, 0) == num_run(s@, i as int, st as int),
        decreases n - i,
    {
        let c = s.get_char(i);
        st = num_step_exec(st, c);
        i = i + 1;
    }
    st == 2 || st == 3 || st == 5 || st == 8
}

/// A JSON number literal, held as its wire text.
#[derive(Debug)]
pub struct JsonNum {
    text: String,
}

impl JsonNum {
    #[verifier::type_invariant]
    pub closed spec fn inv(self) -> bool {
        is_json_number(self.text@)
    }

    /// Accepts exactly the texts that are JSON number literals.
    pub fn new(text: String) -> (r: Option<JsonNum>)
        ensures
            r matches Some(n) ==> n@ == text@ && is_json_number(text@),
            r is None ==> !is_json_number(text@),
    {
        if check_json_number(text.as_str()) {
            Some(JsonNum { text })
        } else {
            None
        }
    }

    /// The wire text of the number.
    pub fn as_text(&self) -> (r: &str)
        ensures
            r@ == self@,
            is_json_number(self@),
    {
        proof {
            use_type_invariant(self);
        }
        self.text.as_str()
    }
}

impl View for JsonNum {
    type V = Seq<char>;

    closed spec fn view(&self) -> Seq<char> {
        self.text@
    }
}

} // verus!
