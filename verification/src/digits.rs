use vstd::prelude::*;
use vstd::string::StringExecFns;

verus! {

/// Whether `c` is one of the ten decimal digit characters.
pub open spec fn is_digit_char(c: char) -> bool {
    ||| c == '0'
    ||| c == '1'
    ||| c == '2'
    ||| c == '3'
    ||| c == '4'
    ||| c == '5'
    ||| c == '6'
    ||| c == '7'
    ||| c == '8'
    ||| c == '9'
}

/// The numeric value of a decimal digit character.
pub open spec fn digit_val(c: char) -> nat
    recommends
        is_digit_char(c),
{
    if c == '0' {
        0
    } else if c == '1' {
        1
    } else if c == '2' {
        2
    } else if c == '3' {
        3
    } else if c == '4' {
        4
    } else if c == '5' {
        5
    } else if c == '6' {
        6
    } else if c == '7' {
        7
    } else if c == '8' {
        8
    } else {
        9
    }
}

/// The decimal digit character for a value below ten.
pub open spec fn digit_to_char(d: int) -> char
    recommends
        0 <= d < 10,
{
    if d == 0 {
        '0'
    } else if d == 1 {
        '1'
    } else if d == 2 {
        '2'
    } else if d == 3 {
        '3'
    } else if d == 4 {
        '4'
    } else if d == 5 {
        '5'
    } else if d == 6 {
        '6'
    } else if d == 7 {
        '7'
    } else if d == 8 {
        '8'
    } else {
        '9'
    }
}

/// The value of a sequence of decimal digit characters, most significant
/// first.
pub open spec fn digits_val(s: Seq<char>) -> nat
    decreases s.len(),
{
    if s.len() == 0 {
        0
    } else {
        digits_val(s.drop_last()) * 10 + digit_val(s.last())
    }
}

/// Whether `s` is a well-formed selection key: non-empty, decimal digits
/// only, and a value that fits in `usize`.
pub open spec fn valid_key_input(s: Seq<char>) -> bool {
    &&& s.len() > 0
    &&& (forall|i: int| 0 <= i < s.len() ==> is_digit_char(#[trigger] s[i]))
    &&& digits_val(s) <= usize::MAX
}

/// The selection key a well-formed input denotes.
pub open spec fn key_of_input(s: Seq<char>) -> usize {
    digits_val(s) as usize
}

/// The decimal digit characters of `n`, most significant first, without
/// leading zeros (except for `n == 0` itself).
pub open spec fn spec_digits(n: int) -> Seq<char>
    decreases n,
{
    if n < 10 {
        seq![digit_to_char(n)]
    } else {
        spec_digits(n / 10).push(digit_to_char(n % 10))
    }
}

/// Appending one more digit to the right multiplies the value by ten and
/// adds that digit.
proof fn lemma_digits_val_step(s: Seq<char>, i: int)
    requires
        0 <= i < s.len(),
    ensures
        digits_val(s.subrange(0, i + 1)) == digits_val(s.subrange(0, i)) * 10 + digit_val(s[i]),
{
    let t = s.subrange(0, i + 1);
    assert(t.drop_last() =~= s.subrange(0, i));
    assert(t.last() == s[i]);
}

/// The value of a digit string never drops when more digits follow.
proof fn lemma_digits_val_prefix_le(s: Seq<char>, i: int)
    requires
        0 <= i <= s.len(),
    ensures
        digits_val(s.subrange(0, i)) <= digits_val(s),
    decreases s.len() - i,
{
    if i == s.len() {
        assert(s.subrange(0, i) =~= s);
    } else {
        lemma_digits_val_step(s, i);
        lemma_digits_val_prefix_le(s, i + 1);
    }
}

/// The numeric value of a digit character, or `None` when `c` is no decimal
/// digit.
fn digit_of_char(c: char) -> (r: Option<usize>)
    ensures
        match r {
            Some(d) => is_digit_char(c) && d == digit_val(c) && d < 10,
            None => !is_digit_char(c),
        },
{
    match c {
        '0' => Some(0),
        '1' => Some(1),
        '2' => Some(2),
        '3' => Some(3),
        '4' => Some(4),
        '5' => Some(5),
        '6' => Some(6),
        '7' => Some(7),
        '8' => Some(8),
        '9' => Some(9),
        _ => None,
    }
}

/// Parses `input` as a selection key: a non-empty string of decimal digits
/// whose value fits in `usize`. Returns `None` on any other input.
pub fn parse_key(input: &str) -> (r: Option<usize>)
    ensures
        valid_key_input(input@) ==> r == Some(key_of_input(input@)),
        !valid_key_input(input@) ==> r is None,
{
    let n = input.unicode_len();
    if n == 0 {
        return None;
    }
    let mut value: usize = 0;
    let mut i: usize = 0;
    proof {
        assert(input@.subrange(0, 0) =~= Seq::<char>::empty());
    }
    while i < n
        invariant
            0 <= i <= n,
            n == input@.len(),
            forall|j: int| 0 <= j < i ==> is_digit_char(#[trigger] input@[j]),
            value == digits_val(input@.subrange(0, i as int)),
        decreases n - i,
    {
        let c = input.get_char(i);
        let d = match digit_of_char(c) {
            Some(d) => d,
            None => {
                return None;
            },
        };
        proof {
            lemma_digits_val_step(input@, i as int);
        }
        let next = match value.checked_mul(10) {
            Some(v10) => v10.checked_add(d),
            None => None,
        };
        match next {
            Some(v) => {
                value = v;
            },
            None => {
                proof {
                    lemma_digits_val_prefix_le(input@, i as int + 1);
                }
                return None;
            },
        }
        i = i + 1;
    }
    proof {
        assert(input@.subrange(0, n as int) =~= input@);
    }
    Some(value)
}

/// A one-character string slice holding the digit character for `d`.
fn digit_str(d: usize) -> (s: &'static str)
    requires
        d < 10,
    ensures
        s@ == seq![digit_to_char(d as int)],
{
    proof {
        reveal_strlit("0");
        reveal_strlit("1");
        reveal_strlit("2");
        reveal_strlit("3");
        reveal_strlit("4");
        reveal_strlit("5");
        reveal_strlit("6");
        reveal_strlit("7");
        reveal_strlit("8");
        reveal_strlit("9");
    }
    let s = match d {
        0 => "0",
        1 => "1",
        2 => "2",
        3 => "3",
        4 => "4",
        5 => "5",
        6 => "6",
        7 => "7",
        8 => "8",
        _ => "9",
    };
    proof {
        assert(s@ =~= seq![digit_to_char(d as int)]);
    }
    s
}

/// Appends the decimal digits of `n` to `out`, most significant first.
pub fn push_digits(n: usize, out: &mut String)
    ensures
        final(out)@ == old(out)@ + spec_digits(n as int),
    decreases n,
{
    if n >= 10 {
        push_digits(n / 10, out);
    }
    let d = n % 10;
    let ghost mid = out@;
    out.append(digit_str(d));
    proof {
        if n < 10 {
            assert(old(out)@ + spec_digits(n as int) =~= out@);
        } else {
            assert(spec_digits(n as int) == spec_digits(n as int / 10).push(
                digit_to_char(n as int % 10),
            ));
            assert(old(out)@ + spec_digits(n as int) =~= out@);
        }
    }
}

/// The decimal representation of `n`, most significant digit first.
pub fn usize_to_string(n: usize) -> (s: String)
    ensures
        s@ == spec_digits(n as int),
{
    let mut s = String::new();
    push_digits(n, &mut s);
    proof {
        assert(Seq::<char>::empty() + spec_digits(n as int) =~= spec_digits(n as int));
    }
    s
}

} // verus!
