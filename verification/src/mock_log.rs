use vstd::prelude::*;

verus! {

/// The character of a decimal digit.
pub open spec fn digit_char(d: nat) -> char {
    if d == 0 {
        '0'
    } else if d == 1 {
        '1'
    } else if d == 2 {
        '2'
    } else if d == 3 {
        '3'
    } else if d == 4 {
        '4'
    } else if d == 5 {
        '5'
    } else if d == 6 {
        '6'
    } else if d == 7 {
        '7'
    } else if d == 8 {
        '8'
    } else {
        '9'
    }
}

/// The decimal digits of `n`, most significant first, without leading zeros.
pub open spec fn decimal_digits(n: nat) -> Seq<char>
    decreases n,
{
    if n < 10 {
        seq![digit_char(n)]
    } else {
        decimal_digits(n / 10).push(digit_char(n % 10))
    }
}

/// `n` written in decimal, with a leading `-` when it is negative.
pub open spec fn decimal(n: int) -> Seq<char> {
    if n < 0 {
        "-"@ + decimal_digits((-n) as nat)
    } else {
        decimal_digits(n as nat)
    }
}

/// The line printed by the logging binding when the logging library is not
/// available: `[MOCK DLOG <prio>] [<tag>] <fmt>`.
pub open spec fn spec_mock_log_line(prio: int, tag: Seq<char>, fmt: Seq<char>) -> Seq<char> {
    "[MOCK DLOG "@ + decimal(prio) + "] ["@ + tag + "] "@ + fmt
}

fn digit_str(d: u64) -> (r: &'static str)
    requires
        d < 10,
    ensures
        r@ == seq![digit_char(d as nat)],
{
    if d == 0 {
        proof {
            reveal_strlit("0");
        }
        assert("0"@ =~= seq!['0']);
        "0"
    } else if d == 1 {
        proof {
            reveal_strlit("1");
        }
        assert("1"@ =~= seq!['1']);
        "1"
    } else if d == 2 {
        proof {
            reveal_strlit("2");
        }
        assert("2"@ =~= seq!['2']);
        "2"
    } else if d == 3 {
        proof {
            reveal_strlit("3");
        }
        assert("3"@ =~= seq!['3']);
        "3"
    } else if d == 4 {
        proof {
            reveal_strlit("4");
        }
        assert("4"@ =~= seq!['4']);
        "4"
    } else if d == 5 {
        proof {
            reveal_strlit("5");
        }
        assert("5"@ =~= seq!['5']);
        "5"
    } else if d == 6 {
        proof {
            reveal_strlit("6");
        }
        assert("6"@ =~= seq!['6']);
        "6"
    } else if d == 7 {
        proof {
            reveal_strlit("7");
        }
        assert("7"@ =~= seq!['7']);
        "7"
    } else if d == 8 {
        proof {
            reveal_strlit("8");
        }
        assert("8"@ =~= seq!['8']);
        "8"
    } else {
        proof {
            reveal_strlit("9");
        }
        assert("9"@ =~= seq!['9']);
        "9"
    }
}

/// Appends the decimal digits of `n` to `s`.
fn push_decimal_digits(s: &mut String, n: u64)
    ensures
        final(s)@ == old(s)@ + decimal_digits(n as nat),
    decreases n,
{
    let ghost start = s@;
    if n >= 10 {
        push_decimal_digits(s, n / 10);
    }
    s.append(digit_str(n % 10));
    proof {
        if n >= 10 {
            assert(start + decimal_digits((n / 10) as nat) + seq![digit_char((n % 10) as nat)]
                =~= start + decimal_digits(n as nat));
        } else {
            assert(start + seq![digit_char((n % 10) as nat)] =~= start + decimal_digits(n as nat));
        }
    }
}

/// `n` written in decimal, as the logging binding prints a priority.
pub fn decimal_string(n: i32) -> (r: String)
    ensures
        r@ == decimal(n as int),
        r@.len() > 0,
        (r@[0] == '-') == (n < 0),
        value_of_decimal(r@) == n,
{
    let mut s = String::new();
    if n < 0 {
        s.append("-");
        let magnitude: i64 = -(n as i64);
        push_decimal_digits(&mut s, magnitude as u64);
    } else {
        push_decimal_digits(&mut s, n as u64);
    }
    assert(s@ =~= decimal(n as int));
    proof {
        lemma_decimal_reads_back(n as int);
    }
    s
}

/// The line the logging binding prints, in place of logging, when the
/// logging library or its symbol is missing: `[MOCK DLOG <prio>] [<tag>] <fmt>`.
pub fn mock_log_line(prio: i32, tag: &str, fmt: &str) -> (r: String)
    ensures
        r@ == spec_mock_log_line(prio as int, tag@, fmt@),
        r@ == "[MOCK DLOG "@ + decimal(prio as int) + "] ["@ + tag@ + "] "@ + fmt@,
{
    let mut s = String::new();
    s.append("[MOCK DLOG ");
    let digits = decimal_string(prio);
    s.append(digits.as_str());
    s.append("] [");
    s.append(tag);
    s.append("] ");
    s.append(fmt);
    assert(s@ =~= spec_mock_log_line(prio as int, tag@, fmt@));
    s
}

/// The value of a decimal digit character.
pub open spec fn digit_value(c: char) -> int {
    c as int - '0' as int
}

/// The number a sequence of decimal digits denotes.
pub open spec fn value_of_digits(s: Seq<char>) -> int
    decreases s.len(),
{
    if s.len() == 0 {
        0
    } else {
        value_of_digits(s.drop_last()) * 10 + digit_value(s.last())
    }
}

/// The number a decimal numeral, with an optional leading `-`, denotes.
pub open spec fn value_of_decimal(s: Seq<char>) -> int {
    if s.len() > 0 && s[0] == '-' {
        -value_of_digits(s.drop_first())
    } else {
        value_of_digits(s)
    }
}

/// `decimal_digits(n)` is a non-empty run of decimal digits, without a
/// leading zero unless `n` is zero, that denotes `n`.
pub proof fn lemma_decimal_digits_read_back(n: nat)
    ensures
        decimal_digits(n).len() > 0,
        forall|i: int|
            0 <= i < decimal_digits(n).len() ==> '0' <= #[trigger] decimal_digits(n)[i] <= '9',
        decimal_digits(n)[0] != '0' || n == 0,
        value_of_digits(decimal_digits(n)) == n,
    decreases n,
{
    let d = decimal_digits(n);
    if n < 10 {
        assert(d.drop_last() =~= Seq::<char>::empty());
        assert(value_of_digits(d) == value_of_digits(d.drop_last()) * 10 + digit_value(d.last()));
    } else {
        lemma_decimal_digits_read_back(n / 10);
        let h = decimal_digits(n / 10);
        assert(d.drop_last() =~= h);
        assert(value_of_digits(d) == value_of_digits(h) * 10 + digit_value(d.last()));
        assert(n == (n / 10) * 10 + n % 10) by (nonlinear_arith);
    }
}

/// `decimal(n)` reads back as `n`: it starts with `-` exactly when `n` is
/// negative, and the digits after it denote the magnitude of `n`.
pub proof fn lemma_decimal_reads_back(n: int)
    ensures
        decimal(n).len() > 0,
        (decimal(n)[0] == '-') == (n < 0),
        value_of_decimal(decimal(n)) == n,
{
    reveal_strlit("-");
    if n < 0 {
        let m = (-n) as nat;
        lemma_decimal_digits_read_back(m);
        assert(decimal(n).drop_first() =~= decimal_digits(m));
    } else {
        lemma_decimal_digits_read_back(n as nat);
        assert(decimal(n)[0] != '-');
    }
}

/// The mock line is the fixed prefix, the priority, the tag and the whole
/// message: it is 16 characters longer than the priority, tag and message
/// together, starts with `[MOCK DLOG `, holds the tag right after `] [`, and
/// ends with the message, whatever its length.
pub proof fn lemma_mock_log_line_parts(prio: int, tag: Seq<char>, fmt: Seq<char>)
    ensures
        ({
            let line = spec_mock_log_line(prio, tag, fmt);
            let d = decimal(prio).len() as int;
            &&& line.len() == 16 + d + tag.len() + fmt.len()
            &&& line.subrange(0, 11) == seq!['[', 'M', 'O', 'C', 'K', ' ', 'D', 'L', 'O', 'G', ' ']
            &&& line.subrange(11, 11 + d) == decimal(prio)
            &&& line.subrange(11 + d, 14 + d) == seq![']', ' ', '[']
            &&& line.subrange(14 + d, 14 + d + tag.len()) == tag
            &&& line.subrange(14 + d + tag.len(), 16 + d + tag.len()) == seq![']', ' ']
            &&& line.subrange(line.len() - fmt.len(), line.len() as int) == fmt
        }),
{
    reveal_strlit("[MOCK DLOG ");
    reveal_strlit("] [");
    reveal_strlit("] ");
    let line = spec_mock_log_line(prio, tag, fmt);
    let d = decimal(prio).len() as int;
    assert(line.subrange(0, 11) =~= seq!['[', 'M', 'O', 'C', 'K', ' ', 'D', 'L', 'O', 'G', ' ']);
    assert(line.subrange(11, 11 + d) =~= decimal(prio));
    assert(line.subrange(11 + d, 14 + d) =~= seq![']', ' ', '[']);
    assert(line.subrange(14 + d, 14 + d + tag.len()) =~= tag);
    assert(line.subrange(14 + d + tag.len(), 16 + d + tag.len()) =~= seq![']', ' ']);
    assert(line.subrange(line.len() - fmt.len(), line.len() as int) =~= fmt);
}

} // verus!
