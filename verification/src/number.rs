use vstd::prelude::*;
use vstd::string::*;

verus! {

/// The character that stands for a digit below sixteen; letters are upper
/// case.
pub open spec fn digit_char(d: nat) -> char {
    if d == 0 {
        '0'
    } else if d == 1 {
        '1'
    } else if d == 2 {
        '2'
    } else if d == 3 {
        '3'
    } else if d == 4 {
        '4'
    } else if d == 5 {
        '5'
    } else if d == 6 {
        '6'
    } else if d == 7 {
        '7'
    } else if d == 8 {
        '8'
    } else if d == 9 {
        '9'
    } else if d == 10 {
        'A'
    } else if d == 11 {
        'B'
    } else if d == 12 {
        'C'
    } else if d == 13 {
        'D'
    } else if d == 14 {
        'E'
    } else {
        'F'
    }
}

/// The hexadecimal digits of `n`, most significant first, without leading
/// zeros; one zero for `0`.
pub open spec fn hex_digits(n: nat) -> Seq<char>
    decreases n,
{
    if n < 16 {
        seq![digit_char(n)]
    } else {
        hex_digits(n / 16).push(digit_char(n % 16))
    }
}

/// The decimal digits of `n`, most significant first, without leading
/// zeros; one zero for `0`.
pub open spec fn dec_digits(n: nat) -> Seq<char>
    decreases n,
{
    if n < 10 {
        seq![digit_char(n)]
    } else {
        dec_digits(n / 10).push(digit_char(n % 10))
    }
}

/// A run of `count` zero characters.
pub open spec fn zeros(count: nat) -> Seq<char> {
    Seq::new(count, |i: int| '0')
}

/// The canonical hexadecimal text of `n`: `0x`, then upper-case digits
/// without leading zeros.
pub open spec fn hex_text(n: nat) -> Seq<char> {
    seq!['0', 'x'] + hex_digits(n)
}

/// The digits of `n` in base sixteen, filled up with zeros in front to at
/// least `width` digits.
pub open spec fn padded(n: nat, width: nat) -> Seq<char>
    decreases n,
{
    let rest: nat = if width > 0 {
        (width - 1) as nat
    } else {
        0
    };
    if n < 16 {
        zeros(rest).push(digit_char(n))
    } else {
        padded(n / 16, rest).push(digit_char(n % 16))
    }
}

/// The hexadecimal text of `n` with at least eight digits.
pub open spec fn hex_text_padded(n: nat) -> Seq<char> {
    seq!['0', 'x'] + padded(n, 8)
}

/// The decimal text of `n`.
pub open spec fn dec_text(n: nat) -> Seq<char> {
    dec_digits(n)
}

/// The value of a character as a digit: decimal digits and the letters `a`
/// to `f` in either case.
pub open spec fn digit_value(c: char) -> Option<nat> {
    if '0' <= c && c <= '9' {
        Some((c as int - '0' as int) as nat)
    } else if 'a' <= c && c <= 'f' {
        Some((c as int - 'a' as int + 10) as nat)
    } else if 'A' <= c && c <= 'F' {
        Some((c as int - 'A' as int + 10) as nat)
    } else {
        None
    }
}

/// The value of a character within a number of the given base; where
/// `dont_care` holds, `x` and `X` stand for a bit that is read as zero.
pub open spec fn place_value(c: char, base: nat, dont_care: bool) -> Option<nat> {
    if dont_care && (c == 'x' || c == 'X') {
        Some(0nat)
    } else if digit_value(c) is Some && digit_value(c)->0 < base {
        digit_value(c)
    } else {
        None
    }
}

/// Whether every character of `s` is a digit of the base.
pub open spec fn all_places(s: Seq<char>, base: nat, dont_care: bool) -> bool {
    forall|i: int| 0 <= i < s.len() ==> place_value(#[trigger] s[i], base, dont_care) is Some
}

/// The number that a run of digits stands for.
pub open spec fn places_value(s: Seq<char>, base: nat, dont_care: bool) -> nat
    decreases s.len(),
{
    if s.len() == 0 {
        0
    } else {
        places_value(s.drop_last(), base, dont_care) * base + match place_value(
            s.last(),
            base,
            dont_care,
        ) {
            Some(d) => d,
            None => 0,
        }
    }
}

/// The number that a run of digits stands for, where it is a non-empty run
/// of digits of the base and the number is at most `max`.
pub open spec fn run_value(s: Seq<char>, base: nat, dont_care: bool, max: nat) -> Option<nat> {
    if s.len() > 0 && all_places(s, base, dont_care) && places_value(s, base, dont_care) <= max {
        Some(places_value(s, base, dont_care))
    } else {
        None
    }
}

/// The number that a text stands for, if it is at most `max`. Three forms
/// are read: `0x` or `0X` and hexadecimal digits; `#` and binary digits,
/// among them `x` for a bit that does not matter, read as zero; decimal
/// digits.
pub open spec fn number_of(s: Seq<char>, max: nat) -> Option<nat> {
    if s.len() >= 2 && s[0] == '0' && (s[1] == 'x' || s[1] == 'X') {
        run_value(s.subrange(2, s.len() as int), 16, false, max)
    } else if s.len() >= 1 && s[0] == '#' {
        run_value(s.subrange(1, s.len() as int), 2, true, max)
    } else {
        run_value(s, 10, false, max)
    }
}

/// A longer run of digits stands for no smaller number.
pub proof fn lemma_places_value_grows(s: Seq<char>, base: nat, dont_care: bool, k: int)
    requires
        base >= 1,
        0 <= k <= s.len(),
    ensures
        places_value(s.subrange(0, k), base, dont_care) <= places_value(s, base, dont_care),
    decreases s.len(),
{
    if k == s.len() {
        assert(s.subrange(0, k) =~= s);
    } else {
        lemma_places_value_grows(s.drop_last(), base, dont_care, k);
        assert(s.drop_last().subrange(0, k) =~= s.subrange(0, k));
        let v = places_value(s.drop_last(), base, dont_care);
        assert(v * base >= v) by (nonlinear_arith)
            requires
                base >= 1,
                v >= 0,
        ;
    }
}

/// A digit character stands for the digit it was made from.
pub proof fn lemma_digit_reads_back(d: nat)
    requires
        d < 16,
    ensures
        digit_value(digit_char(d)) == Some(d),
{
}

/// The hexadecimal digits of a number are digits, and stand for it.
pub proof fn lemma_hex_digits_value(n: nat)
    ensures
        hex_digits(n).len() > 0,
        all_places(hex_digits(n), 16, false),
        places_value(hex_digits(n), 16, false) == n,
    decreases n,
{
    let t = hex_digits(n);
    if n >= 16 {
        lemma_hex_digits_value(n / 16);
        let s = hex_digits(n / 16);
        lemma_digit_reads_back(n % 16);
        assert(t.drop_last() =~= s);
        assert(t.last() == digit_char(n % 16));
        assert forall|i: int| 0 <= i < t.len() implies place_value(#[trigger] t[i], 16, false)
            is Some by {
            if i < s.len() {
                assert(t[i] == s[i]);
            }
        }
    } else {
        lemma_digit_reads_back(n);
        assert(t.drop_last() =~= Seq::<char>::empty());
        assert(t.last() == digit_char(n));
        assert(places_value(t.drop_last(), 16, false) == 0);
    }
}

/// The decimal digits of a number are digits, and stand for it.
pub proof fn lemma_dec_digits_value(n: nat)
    ensures
        dec_digits(n).len() > 0,
        all_places(dec_digits(n), 10, false),
        places_value(dec_digits(n), 10, false) == n,
        digit_value(dec_digits(n)[0]) is Some,
    decreases n,
{
    let t = dec_digits(n);
    if n >= 10 {
        lemma_dec_digits_value(n / 10);
        let s = dec_digits(n / 10);
        lemma_digit_reads_back(n % 10);
        assert(t.drop_last() =~= s);
        assert(t.last() == digit_char(n % 10));
        assert(t[0] == s[0]);
        assert forall|i: int| 0 <= i < t.len() implies place_value(#[trigger] t[i], 10, false)
            is Some by {
            if i < s.len() {
                assert(t[i] == s[i]);
            }
        }
    } else {
        lemma_digit_reads_back(n);
        assert(t.drop_last() =~= Seq::<char>::empty());
        assert(t.last() == digit_char(n));
        assert(places_value(t.drop_last(), 10, false) == 0);
    }
}

/// A run of zeros is a run of digits and stands for zero.
pub proof fn lemma_zeros_value(count: nat)
    ensures
        all_places(zeros(count), 16, false),
        places_value(zeros(count), 16, false) == 0,
    decreases count,
{
    if count > 0 {
        lemma_zeros_value((count - 1) as nat);
        assert(zeros(count).drop_last() =~= zeros((count - 1) as nat));
    }
}

/// The padded hexadecimal digits of a number are digits, and stand for it.
pub proof fn lemma_padded_value(n: nat, width: nat)
    ensures
        padded(n, width).len() > 0,
        all_places(padded(n, width), 16, false),
        places_value(padded(n, width), 16, false) == n,
    decreases n,
{
    let rest: nat = if width > 0 {
        (width - 1) as nat
    } else {
        0
    };
    let t = padded(n, width);
    if n >= 16 {
        lemma_padded_value(n / 16, rest);
        let s = padded(n / 16, rest);
        lemma_digit_reads_back(n % 16);
        assert(t.drop_last() =~= s);
        assert(t.last() == digit_char(n % 16));
        assert forall|i: int| 0 <= i < t.len() implies place_value(#[trigger] t[i], 16, false)
            is Some by {
            if i < s.len() {
                assert(t[i] == s[i]);
            }
        }
    } else {
        lemma_zeros_value(rest);
        let s = zeros(rest);
        lemma_digit_reads_back(n);
        assert(t.drop_last() =~= s);
        assert(t.last() == digit_char(n));
        assert forall|i: int| 0 <= i < t.len() implies place_value(#[trigger] t[i], 16, false)
            is Some by {
            if i < s.len() {
                assert(t[i] == s[i]);
            }
        }
    }
}

/// Reading the padded hexadecimal text of a number gives the number.
pub proof fn lemma_padded_text_reads_back(n: nat, max: nat)
    requires
        n <= max,
    ensures
        number_of(hex_text_padded(n), max) == Some(n),
{
    lemma_padded_value(n, 8);
    let s = hex_text_padded(n);
    assert(s.subrange(2, s.len() as int) =~= padded(n, 8));
}

/// Reading the canonical hexadecimal text of a number gives the number.
pub proof fn lemma_hex_text_reads_back(n: nat, max: nat)
    requires
        n <= max,
    ensures
        number_of(hex_text(n), max) == Some(n),
{
    lemma_hex_digits_value(n);
    let s = hex_text(n);
    assert(s.subrange(2, s.len() as int) =~= hex_digits(n));
}

/// Reading the decimal text of a number gives the number.
pub proof fn lemma_dec_text_reads_back(n: nat, max: nat)
    requires
        n <= max,
    ensures
        number_of(dec_text(n), max) == Some(n),
{
    lemma_dec_digits_value(n);
    let s = dec_text(n);
    if s.len() >= 2 {
        assert(place_value(s[1], 10, false) is Some);
    }
}

fn digit_str(d: u64) -> (res: &'static str)
    requires
        d < 16,
    ensures
        res@ == seq![digit_char(d as nat)],
{
    match d {
        0 => {
            proof {
                reveal_strlit("0");
            }
            assert("0"@ =~= seq![digit_char(0)]);
            "0"
        },
        1 => {
            proof {
                reveal_strlit("1");
            }
            assert("1"@ =~= seq![digit_char(1)]);
            "1"
        },
        2 => {
            proof {
                reveal_strlit("2");
            }
            assert("2"@ =~= seq![digit_char(2)]);
            "2"
        },
        3 => {
            proof {
                reveal_strlit("3");
            }
            assert("3"@ =~= seq![digit_char(3)]);
            "3"
        },
        4 => {
            proof {
                reveal_strlit("4");
            }
            assert("4"@ =~= seq![digit_char(4)]);
            "4"
        },
        5 => {
            proof {
                reveal_strlit("5");
            }
            assert("5"@ =~= seq![digit_char(5)]);
            "5"
        },
        6 => {
            proof {
                reveal_strlit("6");
            }
            assert("6"@ =~= seq![digit_char(6)]);
            "6"
        },
        7 => {
            proof {
                reveal_strlit("7");
            }
            assert("7"@ =~= seq![digit_char(7)]);
            "7"
        },
        8 => {
            proof {
                reveal_strlit("8");
            }
            assert("8"@ =~= seq![digit_char(8)]);
            "8"
        },
        9 => {
            proof {
                reveal_strlit("9");
            }
            assert("9"@ =~= seq![digit_char(9)]);
            "9"
        },
        10 => {
            proof {
                reveal_strlit("A");
            }
            assert("A"@ =~= seq![digit_char(10)]);
            "A"
        },
        11 => {
            proof {
                reveal_strlit("B");
            }
            assert("B"@ =~= seq![digit_char(11)]);
            "B"
        },
        12 => {
            proof {
                reveal_strlit("C");
            }
            assert("C"@ =~= seq![digit_char(12)]);
            "C"
        },
        13 => {
            proof {
                reveal_strlit("D");
            }
            assert("D"@ =~= seq![digit_char(13)]);
            "D"
        },
        14 => {
            proof {
                reveal_strlit("E");
            }
            assert("E"@ =~= seq![digit_char(14)]);
            "E"
        },
        _ => {
            proof {
                reveal_strlit("F");
            }
            assert("F"@ =~= seq![digit_char(15)]);
            "F"
        },
    }
}

/// Appends the hexadecimal digits of `n` to a text.
pub fn push_hex(out: &mut String, n: u64)
    ensures
        final(out)@ == old(out)@ + hex_digits(n as nat),
    decreases n,
{
    if n >= 16 {
        push_hex(out, n / 16);
        out.append(digit_str(n % 16));
        assert(out@ =~= old(out)@ + hex_digits(n as nat));
    } else {
        out.append(digit_str(n));
    }
}

/// Appends the decimal digits of `n` to a text.
pub fn push_dec(out: &mut String, n: u64)
    ensures
        final(out)@ == old(out)@ + dec_digits(n as nat),
    decreases n,
{
    if n >= 10 {
        push_dec(out, n / 10);
        out.append(digit_str(n % 10));
        assert(out@ =~= old(out)@ + dec_digits(n as nat));
    } else {
        out.append(digit_str(n));
    }
}

/// Appends the digits of `n` in base sixteen, filled up with zeros in front
/// to at least `width` digits.
pub fn push_padded(out: &mut String, n: u64, width: usize)
    ensures
        final(out)@ == old(out)@ + padded(n as nat, width as nat),
    decreases n,
{
    if n >= 16 {
        push_padded(out, n / 16, if width > 0 { width - 1 } else { 0 });
        out.append(digit_str(n % 16));
        assert(out@ =~= old(out)@ + padded(n as nat, width as nat));
    } else {
        let mut i: usize = 1;
        while i < width
            invariant
                1 <= i,
                i <= width || i == 1,
                out@ == old(out)@ + zeros((i - 1) as nat),
            decreases width - i,
        {
            proof {
                reveal_strlit("0");
            }
            out.append("0");
            assert(out@ =~= old(out)@ + zeros(i as nat));
            i += 1;
        }
        let ghost rest: nat = if width > 0 {
            (width - 1) as nat
        } else {
            0
        };
        assert(i - 1 == rest);
        let ghost filled = out@;
        out.append(digit_str(n));
        assert(out@ == filled + seq![digit_char(n as nat)]);
        assert(padded(n as nat, width as nat) == zeros(rest).push(digit_char(n as nat)));
        assert(out@ =~= old(out)@ + padded(n as nat, width as nat));
    }
}

fn place_of(c: char, base: u64, dont_care: bool) -> (res: Option<u64>)
    ensures
        res is Some <==> place_value(c, base as nat, dont_care) is Some,
        res is Some ==> res->0 == place_value(c, base as nat, dont_care)->0 && res->0 < 16,
{
    if dont_care && (c == 'x' || c == 'X') {
        return Some(0);
    }
    let d: u64 = if '0' <= c && c <= '9' {
        (c as u64) - ('0' as u64)
    } else if 'a' <= c && c <= 'f' {
        (c as u64) - ('a' as u64) + 10
    } else if 'A' <= c && c <= 'F' {
        (c as u64) - ('A' as u64) + 10
    } else {
        return None;
    };
    if d < base {
        Some(d)
    } else {
        None
    }
}

/// Reads the characters of `cs` from index `start` up to `end` as one run
/// of digits.
pub fn parse_run(
    cs: &Vec<char>,
    start: usize,
    end: usize,
    base: u64,
    dont_care: bool,
    max: u64,
) -> (res: Option<u64>)
    requires
        start <= end <= cs@.len(),
        2 <= base <= 16,
        max >= 16,
    ensures
        res is Some <==> run_value(
            cs@.subrange(start as int, end as int),
            base as nat,
            dont_care,
            max as nat,
        ) is Some,
        res is Some ==> res->0 == run_value(
            cs@.subrange(start as int, end as int),
            base as nat,
            dont_care,
            max as nat,
        )->0,
{
    let n: usize = end;
    if start == n {
        return None;
    }
    let ghost run = cs@.subrange(start as int, n as int);
    let mut acc: u64 = 0;
    let mut i: usize = start;
    assert(run.subrange(0, 0).len() == 0);
    while i < n
        invariant
            start <= i <= n,
            n == end,
            n <= cs@.len(),
            2 <= base <= 16,
            max >= 16,
            run == cs@.subrange(start as int, n as int),
            all_places(run.subrange(0, i - start), base as nat, dont_care),
            acc == places_value(run.subrange(0, i - start), base as nat, dont_care),
            acc <= max,
        decreases n - i,
    {
        let ghost before = run.subrange(0, i - start);
        let ghost after = run.subrange(0, i - start + 1);
        assert(after.drop_last() =~= before);
        assert(after.last() == cs@[i as int]);
        match place_of(cs[i], base, dont_care) {
            None => {
                assert(run[i - start] == cs@[i as int]);
                return None;
            },
            Some(d) => {
                if acc > (max - d) / base {
                    proof {
                        assert(acc * base + d > max) by (nonlinear_arith)
                            requires
                                acc > (max - d) / (base as int),
                                base >= 2,
                                d <= max,
                        ;
                        lemma_places_value_grows(run, base as nat, dont_care, i - start + 1);
                    }
                    return None;
                }
                assert(acc * base + d <= max) by (nonlinear_arith)
                    requires
                        acc <= (max - d) / (base as int),
                        base >= 2,
                        d <= max,
                ;
                acc = acc * base + d;
                assert forall|j: int| 0 <= j < after.len() implies place_value(
                    #[trigger] after[j],
                    base as nat,
                    dont_care,
                ) is Some by {
                    if j < before.len() {
                        assert(after[j] == before[j]);
                    }
                }
                i += 1;
            },
        }
    }
    assert(run.subrange(0, n - start) =~= run);
    Some(acc)
}

/// Reads a number of at most `max` from a text in one of the three forms.
pub fn parse_number(text: &str, max: u64) -> (res: Option<u64>)
    requires
        max >= 16,
    ensures
        res is Some <==> number_of(text@, max as nat) is Some,
        res is Some ==> res->0 == number_of(text@, max as nat)->0,
{
    let cs: Vec<char> = crate::text::chars_of(text);
    let n: usize = cs.len();
    if n >= 2 && cs[0] == '0' && (cs[1] == 'x' || cs[1] == 'X') {
        parse_run(&cs, 2, n, 16, false, max)
    } else if n >= 1 && cs[0] == '#' {
        parse_run(&cs, 1, n, 2, true, max)
    } else {
        assert(cs@.subrange(0, n as int) =~= text@);
        parse_run(&cs, 0, n, 10, false, max)
    }
}

/// The 32-bit number that a text stands for.
pub open spec fn number32_of(s: Seq<char>) -> Option<u32> {
    match number_of(s, u32::MAX as nat) {
        Some(n) => Some(n as u32),
        None => None,
    }
}

/// The 64-bit number that a text stands for.
pub open spec fn number64_of(s: Seq<char>) -> Option<u64> {
    match number_of(s, u64::MAX as nat) {
        Some(n) => Some(n as u64),
        None => None,
    }
}

/// Reads a 32-bit number from a text.
pub fn parse_u32(text: &str) -> (res: Option<u32>)
    ensures
        res == number32_of(text@),
{
    match parse_number(text, 0xffff_ffff) {
        Some(v) => Some(v as u32),
        None => None,
    }
}

/// Reads a 64-bit number from a text.
pub fn parse_u64(text: &str) -> (res: Option<u64>)
    ensures
        res == number64_of(text@),
{
    parse_number(text, u64::MAX)
}

/// The canonical hexadecimal text of a number.
pub fn format_hex(n: u64) -> (res: String)
    ensures
        res@ == hex_text(n as nat),
{
    proof {
        reveal_strlit("0x");
    }
    let mut out: String = "0x".to_owned();
    assert(out@ =~= seq!['0', 'x']);
    push_hex(&mut out, n);
    out
}

/// The hexadecimal text of a number, with at least eight digits.
pub fn format_hex_padded(n: u64) -> (res: String)
    ensures
        res@ == hex_text_padded(n as nat),
{
    proof {
        reveal_strlit("0x");
    }
    let mut out: String = "0x".to_owned();
    assert(out@ =~= seq!['0', 'x']);
    push_padded(&mut out, n, 8);
    out
}

/// The decimal text of a number.
pub fn format_dec(n: u64) -> (res: String)
    ensures
        res@ == dec_text(n as nat),
{
    let mut out: String = String::new();
    push_dec(&mut out, n);
    assert(out@ =~= dec_text(n as nat));
    out
}

} // verus!
