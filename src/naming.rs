//! Names of the image files: one per frame, numbered from zero.
use vstd::prelude::*;

verus! {

/// The character of a decimal digit (`d` below 10).
pub open spec fn digit_char_of(d: int) -> char {
    if d == 0 {
        '0'
    } else if d == 1 {
        '1'
    } else if d == 2 {
        '2'
    } else if d == 3 {
        '3'
    } else if d == 4 {
        '4'
    } else if d == 5 {
        '5'
    } else if d == 6 {
        '6'
    } else if d == 7 {
        '7'
    } else if d == 8 {
        '8'
    } else {
        '9'
    }
}

/// The value of a digit character; any other character counts as zero.
pub open spec fn digit_value(c: char) -> int {
    if c == '1' {
        1
    } else if c == '2' {
        2
    } else if c == '3' {
        3
    } else if c == '4' {
        4
    } else if c == '5' {
        5
    } else if c == '6' {
        6
    } else if c == '7' {
        7
    } else if c == '8' {
        8
    } else if c == '9' {
        9
    } else {
        0
    }
}

/// The decimal digits of `n`, most significant first, without leading zeros.
pub open spec fn decimal_digits(n: nat) -> Seq<char>
    decreases n,
{
    if n < 10 {
        seq![digit_char_of(n as int)]
    } else {
        decimal_digits(n / 10).push(digit_char_of((n % 10) as int))
    }
}

/// The number that a string of digits denotes.
pub open spec fn decimal_value(s: Seq<char>) -> int
    decreases s.len(),
{
    if s.len() == 0 {
        0
    } else {
        decimal_value(s.drop_last()) * 10 + digit_value(s.last())
    }
}

/// `k` zero characters.
pub open spec fn zeros(k: nat) -> Seq<char> {
    Seq::new(k, |i: int| '0')
}

/// The decimal digits of `n`, with leading zeros up to `width` characters.
pub open spec fn zero_padded(n: nat, width: nat) -> Seq<char> {
    let d = decimal_digits(n);
    if d.len() < width {
        zeros((width - d.len()) as nat) + d
    } else {
        d
    }
}

/// The directory that the frames are written to, with its separator.
pub open spec fn output_dir() -> Seq<char> {
    seq!['o', 'u', 't', 'p', 'u', 't', '/']
}

/// The file extension of a frame, with its dot.
pub open spec fn image_extension() -> Seq<char> {
    seq!['.', 'p', 'n', 'g']
}

/// Number of digits in a frame's file name, leading zeros included.
pub const FRAME_NAME_DIGITS: usize = 9;

/// The path of frame `n`: the frame index as at least nine zero-padded
/// decimal digits, under the output directory, with the image extension.
pub open spec fn frame_path(n: nat) -> Seq<char> {
    output_dir() + zero_padded(n, FRAME_NAME_DIGITS as nat) + image_extension()
}

/// Relies on String::push: the character is appended at the end.
#[verifier::external_body]
fn push_char(s: &mut String, c: char)
    ensures
        final(s)@ == old(s)@.push(c),
{
    s.push(c)
}

fn digit_char(d: u32) -> (c: char)
    requires
        d < 10,
    ensures
        c == digit_char_of(d as int),
{
    if d == 0 {
        '0'
    } else if d == 1 {
        '1'
    } else if d == 2 {
        '2'
    } else if d == 3 {
        '3'
    } else if d == 4 {
        '4'
    } else if d == 5 {
        '5'
    } else if d == 6 {
        '6'
    } else if d == 7 {
        '7'
    } else if d == 8 {
        '8'
    } else {
        '9'
    }
}

/// The decimal digits of `n`, most significant first.
pub fn decimal_digits_of(n: u32) -> (r: Vec<char>)
    ensures
        r@ == decimal_digits(n as nat),
{
    let mut digits: Vec<char> = Vec::new();
    let mut m: u32 = n;
    while m >= 10
        invariant
            decimal_digits(n as nat) == decimal_digits(m as nat) + digits@,
        decreases m,
    {
        let c = digit_char(m % 10);
        proof {
            let head = decimal_digits((m / 10) as nat);
            assert(decimal_digits(m as nat) == head.push(c));
            assert(head.push(c) + digits@ =~= head + seq![c] + digits@);
        }
        digits.insert(0, c);
        m = m / 10;
    }
    let c = digit_char(m);
    digits.insert(0, c);
    proof {
        assert(decimal_digits(m as nat) == seq![c]);
    }
    digits
}

/// The path that frame `n` is written to, such as `output/000000042.png`.
pub fn frame_file_name(n: u32) -> (r: String)
    ensures
        r@ == frame_path(n as nat),
{
    let digits = decimal_digits_of(n);
    let mut s = "output/".to_owned();
    proof {
        reveal_strlit("output/");
        assert(s@ =~= output_dir());
    }
    let mut k: usize = digits.len();
    while k < FRAME_NAME_DIGITS
        invariant
            digits.len() <= k <= FRAME_NAME_DIGITS || k == digits.len(),
            s@ == output_dir() + zeros((k - digits.len()) as nat),
        decreases FRAME_NAME_DIGITS - k,
    {
        proof {
            assert(zeros((k - digits.len()) as nat).push('0') =~= zeros(
                (k + 1 - digits.len()) as nat,
            ));
            assert(s@.push('0') =~= output_dir() + zeros((k + 1 - digits.len()) as nat));
        }
        push_char(&mut s, '0');
        k = k + 1;
    }
    let ghost prefix = s@;
    proof {
        assert(prefix + decimal_digits(n as nat) =~= output_dir() + zero_padded(
            n as nat,
            FRAME_NAME_DIGITS as nat,
        ));
    }
    let mut i: usize = 0;
    while i < digits.len()
        invariant
            i <= digits@.len(),
            s@ == prefix + digits@.subrange(0, i as int),
        decreases digits@.len() - i,
    {
        proof {
            assert(digits@.subrange(0, i as int).push(digits@[i as int]) =~= digits@.subrange(
                0,
                i + 1,
            ));
        }
        push_char(&mut s, digits[i]);
        i = i + 1;
    }
    proof {
        assert(digits@.subrange(0, digits@.len() as int) =~= digits@);
    }
    push_char(&mut s, '.');
    push_char(&mut s, 'p');
    push_char(&mut s, 'n');
    push_char(&mut s, 'g');
    proof {
        assert(s@ =~= frame_path(n as nat));
    }
    s
}

proof fn lemma_digit_value(d: int)
    requires
        0 <= d < 10,
    ensures
        digit_value(digit_char_of(d)) == d,
{
}

/// The digits of a number denote that number.
pub proof fn lemma_decimal_value(n: nat)
    ensures
        decimal_value(decimal_digits(n)) == n,
    decreases n,
{
    if n >= 10 {
        let head = decimal_digits(n / 10);
        let d = digit_char_of((n % 10) as int);
        let s = head.push(d);
        assert(decimal_digits(n) == s);
        assert(s.drop_last() =~= head);
        assert(s.last() == d);
        lemma_decimal_value(n / 10);
        lemma_digit_value((n % 10) as int);
        assert(decimal_value(s) == decimal_value(head) * 10 + digit_value(d));
        assert((n / 10) * 10 + n % 10 == n);
    } else {
        let s = seq![digit_char_of(n as int)];
        assert(decimal_digits(n) == s);
        assert(s.drop_last() =~= Seq::<char>::empty());
        assert(decimal_value(Seq::<char>::empty()) == 0);
        lemma_digit_value(n as int);
        assert(decimal_value(s) == decimal_value(s.drop_last()) * 10 + digit_value(s.last()));
    }
}

/// Leading zeros do not change the number that digits denote.
pub proof fn lemma_leading_zeros(k: nat, s: Seq<char>)
    ensures
        decimal_value(zeros(k) + s) == decimal_value(s),
    decreases s.len(), k,
{
    if s.len() == 0 {
        assert(zeros(k) + s =~= zeros(k));
        if k > 0 {
            assert(zeros(k).drop_last() =~= zeros((k - 1) as nat) + Seq::<char>::empty());
            lemma_leading_zeros((k - 1) as nat, Seq::<char>::empty());
            assert(zeros((k - 1) as nat) + Seq::<char>::empty() =~= zeros((k - 1) as nat));
        }
    } else {
        assert((zeros(k) + s).drop_last() =~= zeros(k) + s.drop_last());
        lemma_leading_zeros(k, s.drop_last());
    }
}

/// Zero-padded digits denote the padded number.
pub proof fn lemma_zero_padded_value(n: nat, width: nat)
    ensures
        decimal_value(zero_padded(n, width)) == n,
{
    lemma_decimal_value(n);
    let d = decimal_digits(n);
    if d.len() < width {
        lemma_leading_zeros((width - d.len()) as nat, d);
    }
}

/// Distinct frames are written to distinct paths, so the frames
/// `0 .. frames_num` give `frames_num` different files.
pub proof fn lemma_frame_paths_distinct(a: nat, b: nat)
    requires
        a != b,
    ensures
        frame_path(a) != frame_path(b),
{
    let pa = zero_padded(a, FRAME_NAME_DIGITS as nat);
    let pb = zero_padded(b, FRAME_NAME_DIGITS as nat);
    lemma_zero_padded_value(a, FRAME_NAME_DIGITS as nat);
    lemma_zero_padded_value(b, FRAME_NAME_DIGITS as nat);
    if frame_path(a) == frame_path(b) {
        let fa = frame_path(a);
        assert(fa.subrange(7, fa.len() - 4) =~= pa);
        assert(frame_path(b).subrange(7, fa.len() - 4) =~= pb);
    }
}

} // verus!
