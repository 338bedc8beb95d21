//! Hexadecimal rendering of unsigned numbers.

use vstd::prelude::*;
use vstd::string::StringExecFns;

verus! {

/// The hexadecimal digit for a value below sixteen, with the letters in upper
/// case if `upper` is set and in lower case if not.
pub open spec fn hex_digit(d: int, upper: bool) -> char {
    if d == 0 {
        '0'
    } else if d == 1 {
        '1'
    } else if d == 2 {
        '2'
    } else if d == 3 {
        '3'
    } else if d == 4 {
        '4'
    } else if d == 5 {
        '5'
    } else if d == 6 {
        '6'
    } else if d == 7 {
        '7'
    } else if d == 8 {
        '8'
    } else if d == 9 {
        '9'
    } else if d == 10 {
        if upper {
            'A'
        } else {
            'a'
        }
    } else if d == 11 {
        if upper {
            'B'
        } else {
            'b'
        }
    } else if d == 12 {
        if upper {
            'C'
        } else {
            'c'
        }
    } else if d == 13 {
        if upper {
            'D'
        } else {
            'd'
        }
    } else if d == 14 {
        if upper {
            'E'
        } else {
            'e'
        }
    } else if upper {
        'F'
    } else {
        'f'
    }
}

/// `n` in hexadecimal, padded with leading zeros to at least `width` digits.
/// Zero with no width still has one digit.
pub open spec fn hex_digits(n: nat, width: nat, upper: bool) -> Seq<char>
    decreases n, width,
{
    if n < 16 && width <= 1 {
        seq![hex_digit(n as int, upper)]
    } else {
        hex_digits(n / 16, if width > 0 { (width - 1) as nat } else { 0 }, upper).push(
            hex_digit((n % 16) as int, upper),
        )
    }
}

/// `n` in lowercase hexadecimal with at least `width` digits.
pub open spec fn hex(n: nat, width: nat) -> Seq<char> {
    hex_digits(n, width, false)
}

/// `n` in uppercase hexadecimal with at least `width` digits.
pub open spec fn hex_upper(n: nat, width: nat) -> Seq<char> {
    hex_digits(n, width, true)
}

/// A rendering has at least `width` digits and at least one. A byte in two
/// digits has exactly two, and a 16-bit word in four digits exactly four.
pub proof fn lemma_hex_len(n: nat, width: nat, upper: bool)
    ensures
        hex_digits(n, width, upper).len() >= width,
        hex_digits(n, width, upper).len() >= 1,
        n < 256 && width == 2 ==> hex_digits(n, width, upper).len() == 2,
        n < 65536 && width == 4 ==> hex_digits(n, width, upper).len() == 4,
    decreases n, width,
{
    if n < 16 && width <= 1 {
    } else {
        let w: nat = if width > 0 { (width - 1) as nat } else { 0 };
        lemma_hex_len(n / 16, w, upper);
        if n < 65536 && width == 4 {
            lemma_hex_len(n / 16 / 16, 2, upper);
            lemma_hex_len(n / 16 / 16 / 16, 1, upper);
        }
        if n < 256 && width == 2 {
            lemma_hex_len(n / 16 / 16, 0, upper);
        }
    }
}

/// The one-character string holding the hexadecimal digit of `d`.
fn digit_str(d: u8, upper: bool) -> (s: &'static str)
    requires
        d < 16,
    ensures
        s@ == seq![hex_digit(d as int, upper)],
{
    proof {
        reveal_strlit("0");
        reveal_strlit("1");
        reveal_strlit("2");
        reveal_strlit("3");
        reveal_strlit("4");
        reveal_strlit("5");
        reveal_strlit("6");
        reveal_strlit("7");
        reveal_strlit("8");
        reveal_strlit("9");
        reveal_strlit("A");
        reveal_strlit("B");
        reveal_strlit("C");
        reveal_strlit("D");
        reveal_strlit("E");
        reveal_strlit("F");
        reveal_strlit("a");
        reveal_strlit("b");
        reveal_strlit("c");
        reveal_strlit("d");
        reveal_strlit("e");
        reveal_strlit("f");
    }
    let s = match d {
        0 => "0",
        1 => "1",
        2 => "2",
        3 => "3",
        4 => "4",
        5 => "5",
        6 => "6",
        7 => "7",
        8 => "8",
        9 => "9",
        10 => if upper {
            "A"
        } else {
            "a"
        },
        11 => if upper {
            "B"
        } else {
            "b"
        },
        12 => if upper {
            "C"
        } else {
            "c"
        },
        13 => if upper {
            "D"
        } else {
            "d"
        },
        14 => if upper {
            "E"
        } else {
            "e"
        },
        _ => if upper {
            "F"
        } else {
            "f"
        },
    };
    assert(s@ =~= seq![hex_digit(d as int, upper)]);
    s
}

/// Renders `n` in hexadecimal with at least `width` digits.
fn render(n: u128, width: usize, upper: bool) -> (s: String)
    ensures
        s@ == hex_digits(n as nat, width as nat, upper),
{
    let mut low: Vec<u8> = Vec::new();
    let mut rest: u128 = n;
    let mut pad: usize = width;
    while !(rest < 16 && pad <= 1)
        invariant
            forall|i: int| 0 <= i < low.len() ==> low[i] < 16,
            hex_digits(n as nat, width as nat, upper) == hex_digits(rest as nat, pad as nat, upper)
                + Seq::new(
                low.len() as nat,
                |i: int| hex_digit(low[low.len() - 1 - i] as int, upper),
            ),
        decreases rest, pad,
    {
        let ghost before = Seq::new(
            low.len() as nat,
            |i: int| hex_digit(low[low.len() - 1 - i] as int, upper),
        );
        let d: u8 = (rest % 16) as u8;
        low.push(d);
        rest = rest / 16;
        if pad > 0 {
            pad = pad - 1;
        }
        assert(Seq::new(
            low.len() as nat,
            |i: int| hex_digit(low[low.len() - 1 - i] as int, upper),
        ) =~= seq![hex_digit(d as int, upper)] + before);
        assert(hex_digits(rest as nat, pad as nat, upper).push(hex_digit(d as int, upper))
            + before =~= hex_digits(rest as nat, pad as nat, upper) + (seq![
            hex_digit(d as int, upper),
        ] + before));
    }
    let mut s = String::new();
    s.append(digit_str(rest as u8, upper));
    let ghost tail = Seq::new(
        low.len() as nat,
        |i: int| hex_digit(low[low.len() - 1 - i] as int, upper),
    );
    let mut k: usize = low.len();
    while k > 0
        invariant
            k <= low.len(),
            forall|i: int| 0 <= i < low.len() ==> low[i] < 16,
            tail == Seq::new(
                low.len() as nat,
                |i: int| hex_digit(low[low.len() - 1 - i] as int, upper),
            ),
            s@ == seq![hex_digit(rest as int, upper)] + tail.take(low.len() - k),
        decreases k,
    {
        k = k - 1;
        s.append(digit_str(low[k], upper));
        assert(tail.take(low.len() - k) =~= tail.take(low.len() - k - 1).push(
            hex_digit(low[k as int] as int, upper),
        ));
    }
    assert(tail.take(low.len() as int) =~= tail);
    s
}

/// Renders `n` in lowercase hexadecimal with at least `width` digits.
pub fn to_hex(n: u128, width: usize) -> (s: String)
    ensures
        s@ == hex(n as nat, width as nat),
{
    render(n, width, false)
}

/// Renders `n` in uppercase hexadecimal with at least `width` digits.
pub fn to_hex_upper(n: u128, width: usize) -> (s: String)
    ensures
        s@ == hex_upper(n as nat, width as nat),
{
    render(n, width, true)
}

} // verus!
