use vstd::prelude::*;

verus! {

/// The decimal digit character for `d`, a value below ten.
pub open spec fn digit_char(d: nat) -> char {
    if d == 0 { '0' }
    else if d == 1 { '1' }
    else if d == 2 { '2' }
    else if d == 3 { '3' }
    else if d == 4 { '4' }
    else if d == 5 { '5' }
    else if d == 6 { '6' }
    else if d == 7 { '7' }
    else if d == 8 { '8' }
    else { '9' }
}

/// The decimal representation of `n`, most significant digit first, without
/// leading zeros.
pub open spec fn decimal(n: nat) -> Seq<char>
    decreases n,
{
    if n < 10 {
        seq![digit_char(n)]
    } else {
        decimal(n / 10).push(digit_char(n % 10))
    }
}

} // verus!

verus! {

/// Width of the field that holds a line number.
pub const FIELD_WIDTH: usize = 6;

/// `s` padded on the left with spaces up to `width` characters; a longer `s`
/// is kept whole.
pub open spec fn right_aligned(s: Seq<char>, width: nat) -> Seq<char> {
    if s.len() < width {
        Seq::new((width - s.len()) as nat, |_i: int| ' ') + s
    } else {
        s
    }
}

/// The prefix written before a numbered line: the number right-aligned in a
/// field of `FIELD_WIDTH` characters, then a tab.
pub open spec fn number_prefix(n: nat) -> Seq<char> {
    right_aligned(decimal(n), FIELD_WIDTH as nat) + seq!['\t']
}

/// What ends every output line: `$` and a newline when ends are shown, else a
/// newline alone.
pub open spec fn end_marker(show_ends: bool) -> Seq<char> {
    if show_ends {
        seq!['$', '\n']
    } else {
        seq!['\n']
    }
}

fn digit_str(d: u64) -> (r: &'static str)
    requires
        d < 10,
    ensures
        r@ == seq![digit_char(d as nat)],
{
    proof {
        reveal_strlit("0");
        reveal_strlit("1");
        reveal_strlit("2");
        reveal_strlit("3");
        reveal_strlit("4");
        reveal_strlit("5");
        reveal_strlit("6");
        reveal_strlit("7");
        reveal_strlit("8");
        reveal_strlit("9");
    }
    match d {
        0 => "0",
        1 => "1",
        2 => "2",
        3 => "3",
        4 => "4",
        5 => "5",
        6 => "6",
        7 => "7",
        8 => "8",
        _ => "9",
    }
}

/// Appends the decimal representation of `n` to `out`.
pub fn push_decimal(out: &mut String, n: u64)
    ensures
        final(out)@ == old(out)@ + decimal(n as nat),
    decreases n,
{
    if n >= 10 {
        push_decimal(out, n / 10);
    }
    out.append(digit_str(n % 10));
    assert(final(out)@ =~= old(out)@ + decimal(n as nat));
}

/// The number of digits in the decimal representation of `n`.
pub fn decimal_len(n: u64) -> (r: usize)
    ensures
        r == decimal(n as nat).len(),
        1 <= r <= 20,
    decreases n,
{
    if n < 10 {
        1
    } else {
        let k = decimal_len(n / 10);
        if k >= 20 {
            assert(false) by {
                lemma_decimal_len_bound(n as nat);
            };
        }
        k + 1
    }
}

proof fn lemma_decimal_len_bound(n: nat)
    requires
        n <= u64::MAX,
    ensures
        decimal(n).len() <= 20,
{
    assert(pow10(20) == 100000000000000000000) by {
        reveal_with_fuel(pow10, 21);
    }
    lemma_decimal_len_below(n, 20);
}

proof fn lemma_decimal_len_below(n: nat, k: nat)
    requires
        k >= 1,
        n < pow10(k),
    ensures
        decimal(n).len() <= k,
    decreases n,
{
    if n >= 10 {
        lemma_pow10_positive((k - 1) as nat);
        assert(n / 10 < pow10((k - 1) as nat));
        if k == 1 {
            assert(pow10(1) == 10) by {
                reveal_with_fuel(pow10, 2);
            }
        } else {
            lemma_decimal_len_below(n / 10, (k - 1) as nat);
        }
    }
}

spec fn pow10(k: nat) -> nat
    decreases k,
{
    if k == 0 { 1 } else { 10 * pow10((k - 1) as nat) }
}

proof fn lemma_pow10_positive(k: nat)
    ensures
        pow10(k) >= 1,
    decreases k,
{
    if k > 0 {
        lemma_pow10_positive((k - 1) as nat);
    }
}

} // verus!

verus! {

/// Appends the number prefix of `n` to `out`: `n` right-aligned in a field of
/// `FIELD_WIDTH` characters, then a tab.
pub fn push_number_prefix(out: &mut String, n: u64)
    ensures
        final(out)@ == old(out)@ + number_prefix(n as nat),
{
    let len = decimal_len(n);
    let pad: usize = if len < FIELD_WIDTH { FIELD_WIDTH - len } else { 0 };
    let ghost start = out@;
    let mut i: usize = 0;
    while i < pad
        invariant
            i <= pad,
            pad == (if len < FIELD_WIDTH { FIELD_WIDTH - len } else { 0 }),
            out@ == start + Seq::new(i as nat, |_j: int| ' '),
        decreases pad - i,
    {
        proof {
            reveal_strlit(" ");
        }
        out.append(" ");
        i = i + 1;
        assert(out@ =~= start + Seq::new(i as nat, |_j: int| ' '));
    }
    push_decimal(out, n);
    proof {
        reveal_strlit("\t");
    }
    out.append("\t");
    assert(final(out)@ =~= old(out)@ + number_prefix(n as nat));
}

/// Appends the end of an output line to `out`: `$` and a newline when
/// `show_ends` is set, else a newline alone.
pub fn push_end_marker(out: &mut String, show_ends: bool)
    ensures
        final(out)@ == old(out)@ + end_marker(show_ends),
{
    proof {
        reveal_strlit("$\n");
        reveal_strlit("\n");
    }
    if show_ends {
        out.append("$\n");
    } else {
        out.append("\n");
    }
}

} // verus!
