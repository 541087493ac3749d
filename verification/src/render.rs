//! The text of a scaled quantity: number, separator, symbol and unit letter,
//! padded to a field width on the side that the alignment names.

use crate::prefix::Prefix;
use crate::quantity::rest_part;
use crate::quantity::whole_part;
use crate::quantity::Bytes;
use crate::quantity::ScaledValue;
use crate::unit::lemma_step_size;
use crate::unit::step_size;
use crate::unit::Unit;
use vstd::arithmetic::power::pow;
use vstd::prelude::*;
use vstd::string::StrSliceExecFns;
use vstd::string::StringExecFns;

verus! {

/// The side on which a field is filled up to its width.
#[derive(Debug, PartialEq, Eq, Structural, Clone, Copy)]
pub enum Alignment {
    /// The text stands at the left, the fill follows it.
    Left,
    /// The fill comes first, the text stands at the right.
    Right,
    /// The text stands in the middle: half of the fill comes before it,
    /// rounded down, and the rest follows it.
    Center,
}

/// The character of a decimal digit.
pub open spec fn digit_char(d: nat) -> char {
    if d == 0 {
        '0'
    } else if d == 1 {
        '1'
    } else if d == 2 {
        '2'
    } else if d == 3 {
        '3'
    } else if d == 4 {
        '4'
    } else if d == 5 {
        '5'
    } else if d == 6 {
        '6'
    } else if d == 7 {
        '7'
    } else if d == 8 {
        '8'
    } else {
        '9'
    }
}

/// The decimal digits of `n`, the most significant first.
pub open spec fn digits(n: nat) -> Seq<char>
    decreases n,
{
    if n < 10 {
        seq![digit_char(n)]
    } else {
        digits(n / 10).push(digit_char(n % 10))
    }
}

/// How many decimal digits `n` has: one, and one more for each division by
/// ten that leaves something. Zero has one digit.
pub open spec fn digit_count_spec(n: nat) -> nat
    decreases n,
{
    if n < 10 {
        1
    } else {
        1 + digit_count_spec(n / 10)
    }
}

/// The mantissa's text: the whole part alone where nothing is left over,
/// else the whole part, a point and the first two decimals of the fraction,
/// cut off and not rounded.
pub open spec fn number_text(whole: nat, rest: nat, step: nat) -> Seq<char> {
    if rest == 0 {
        digits(whole)
    } else {
        digits(whole) + seq![
            '.',
            digit_char((rest * 100 / step) / 10),
            digit_char((rest * 100 / step) % 10),
        ]
    }
}

/// `n` fill characters.
pub open spec fn padding(fill: char, n: nat) -> Seq<char> {
    Seq::new(n, |i: int| fill)
}

/// The letter after the symbol: small for bare bytes, capital after a prefix.
pub open spec fn unit_letter(symbol: Seq<char>) -> char {
    if symbol.len() == 0 {
        'b'
    } else {
        'B'
    }
}

/// The length of the text without any padding: the digits of the whole part,
/// three more where decimals are shown, the separator, the symbol and the
/// unit letter.
pub open spec fn natural_len(whole: nat, rest: nat, symbol: Seq<char>) -> nat {
    digit_count_spec(whole) + (if rest == 0 {
        0nat
    } else {
        3nat
    }) + 1 + symbol.len() + 1
}

/// How many fill characters a field of `width` takes beside a text of
/// `natural` characters: what is missing to the width, and none where no
/// width or no alignment is asked for.
pub open spec fn pad_len(width: Option<usize>, align: Option<Alignment>, natural: nat) -> nat {
    match (width, align) {
        (Some(w), Some(_)) => if w > natural {
            (w - natural) as nat
        } else {
            0
        },
        _ => 0,
    }
}

/// How many of `pad` fill characters come before the text: all of them for
/// the right alignment, half of them, rounded down, for the centre, none
/// else.
pub open spec fn fill_before(align: Option<Alignment>, pad: nat) -> nat {
    match align {
        Some(Alignment::Right) => pad,
        Some(Alignment::Center) => pad / 2,
        _ => 0,
    }
}

/// How many of `pad` fill characters follow the text: all of them for the
/// left alignment, what the first half leaves for the centre, none else.
pub open spec fn fill_after(align: Option<Alignment>, pad: nat) -> nat {
    match align {
        Some(Alignment::Left) => pad,
        Some(Alignment::Center) => (pad - pad / 2) as nat,
        _ => 0,
    }
}

/// The text of a quantity with the given whole part, left-over bytes, step
/// size and symbol: the number, the separator, the symbol and the unit
/// letter in one piece, with the fill before and after it.
pub open spec fn render_parts(
    whole: nat,
    rest: nat,
    step: nat,
    symbol: Seq<char>,
    width: Option<usize>,
    align: Option<Alignment>,
    fill: char,
) -> Seq<char> {
    let pad = pad_len(width, align, natural_len(whole, rest, symbol));
    let number = number_text(whole, rest, step);
    let unit = symbol.push(unit_letter(symbol));
    padding(fill, fill_before(align, pad)) + number + seq![fill] + unit + padding(
        fill,
        fill_after(align, pad),
    )
}

/// The text of the quantity `q` in the base `U`.
pub open spec fn render<U: Unit>(
    q: ScaledValue,
    width: Option<usize>,
    align: Option<Alignment>,
    fill: char,
) -> Seq<char> {
    render_parts(
        whole_part(U::thousand(), q),
        rest_part(U::thousand(), q),
        step_size(U::thousand(), q.prefix.exponent_spec()),
        U::symbol(q.prefix),
        width,
        align,
        fill,
    )
}

/// The digits of a number are as many as its digit count.
pub proof fn lemma_digits_len(n: nat)
    ensures
        digits(n).len() == digit_count_spec(n),
    decreases n,
{
    if n >= 10 {
        lemma_digits_len(n / 10);
    }
}

/// A number below the `k`-th power of ten has at most `k` digits.
pub proof fn lemma_digit_count_bound(n: nat, k: nat)
    requires
        k >= 1,
        n < pow(10, k),
    ensures
        digit_count_spec(n) <= k,
    decreases k,
{
    if n >= 10 {
        reveal_with_fuel(pow, 2);
        assert(pow(10, k) == 10 * pow(10, (k - 1) as nat));
        assert(k >= 2);
        lemma_digit_count_bound(n / 10, (k - 1) as nat);
    }
}

/// The unit letter is small at the lowest step and capital at every other.
pub proof fn lemma_unit_letter<U: Unit>(p: Prefix)
    ensures
        unit_letter(U::symbol(p)) == (if p == Prefix::One {
            'b'
        } else {
            'B'
        }),
{
    U::lemma_unit_range();
}

/// The natural length of the text of `q` in the base `U`.
pub open spec fn natural_len_of<U: Unit>(q: ScaledValue) -> nat {
    natural_len(whole_part(U::thousand(), q), rest_part(U::thousand(), q), U::symbol(q.prefix))
}

/// The same quantity with the same width, alignment and fill has the same text.
pub proof fn lemma_render_deterministic<U: Unit>(
    p: ScaledValue,
    q: ScaledValue,
    width: Option<usize>,
    align: Option<Alignment>,
    fill: char,
)
    requires
        p == q,
    ensures
        render::<U>(p, width, align, fill) == render::<U>(q, width, align, fill),
{
}

/// The text is as long as its parts: the natural length and the padding.
/// A field wider than the text is filled to exactly its width, and the text
/// is never cut short.
pub proof fn lemma_render_len<U: Unit>(
    q: ScaledValue,
    width: Option<usize>,
    align: Option<Alignment>,
    fill: char,
)
    ensures
        render::<U>(q, None, None, fill).len() == natural_len_of::<U>(q),
        render::<U>(q, width, align, fill).len() == natural_len_of::<U>(q) + pad_len(
            width,
            align,
            natural_len_of::<U>(q),
        ),
        render::<U>(q, width, align, fill).len() >= natural_len_of::<U>(q),
        width.is_some() && align.is_some() && width.unwrap() >= natural_len_of::<U>(q)
            ==> render::<U>(q, width, align, fill).len() == width.unwrap(),
{
    lemma_digits_len(whole_part(U::thousand(), q));
}

/// A padded text is the unpadded text, in one piece, with the fill added
/// on the side that the alignment names: before it, after it, or around it
/// with the smaller half in front. The fill is as long as the width exceeds
/// the unpadded text.
pub proof fn lemma_render_padding<U: Unit>(
    q: ScaledValue,
    width: usize,
    align: Alignment,
    fill: char,
)
    ensures
        ({
            let plain = render::<U>(q, None, None, fill);
            let padded = render::<U>(q, Some(width), Some(align), fill);
            let pad: nat = if width > plain.len() {
                (width - plain.len()) as nat
            } else {
                0
            };
            let before = fill_before(Some(align), pad);
            let after = fill_after(Some(align), pad);
            &&& padded == padding(fill, before) + plain + padding(fill, after)
            &&& before + after == pad
            &&& forall|i: int| 0 <= i < before ==> padded[i] == fill
            &&& forall|i: int| before + plain.len() <= i < padded.len() ==> padded[i] == fill
            &&& align == Alignment::Right ==> before == pad && after == 0
            &&& align == Alignment::Left ==> before == 0 && after == pad
            &&& align == Alignment::Center ==> before == pad / 2 && after == pad - pad / 2
        }),
{
    let whole = whole_part(U::thousand(), q);
    let rest = rest_part(U::thousand(), q);
    let step = step_size(U::thousand(), q.prefix.exponent_spec());
    let symbol = U::symbol(q.prefix);
    lemma_digits_len(whole);
    let plain = render::<U>(q, None, None, fill);
    let padded = render::<U>(q, Some(width), Some(align), fill);
    let number = number_text(whole, rest, step);
    let unit = symbol.push(unit_letter(symbol));
    assert(plain =~= number + seq![fill] + unit);
    assert(plain.len() == natural_len(whole, rest, symbol));
    let pad = pad_len(Some(width), Some(align), plain.len());
    let before = fill_before(Some(align), pad);
    let after = fill_after(Some(align), pad);
    assert(padded =~= padding(fill, before) + plain + padding(fill, after));
}

/// The first two decimals of a proper fraction are a number below a hundred.
proof fn lemma_hundredths(rest: int, step: int)
    requires
        0 <= rest < step,
    ensures
        0 <= rest * 100 < step * 100,
        0 <= rest * 100 / step < 100,
{
    assert(0 <= rest * 100 < step * 100) by (nonlinear_arith)
        requires
            0 <= rest < step,
    ;
    vstd::arithmetic::div_mod::lemma_div_pos_is_pos(rest * 100, step);
    vstd::arithmetic::div_mod::lemma_fundamental_div_mod(rest * 100, step);
    vstd::arithmetic::div_mod::lemma_mod_bound(rest * 100, step);
    let d = rest * 100 / step;
    if d >= 100 {
        assert(step * d >= step * 100) by (nonlinear_arith)
            requires
                d >= 100,
                step > 0,
        ;
    }
}

/// `String::push`: the character is added at the end and nothing else changes.
#[verifier::external_body]
pub(crate) fn push_char(s: &mut String, c: char)
    ensures
        final(s)@ == old(s)@.push(c),
{
    s.push(c)
}

/// The character of the decimal digit `d`.
fn digit(d: u8) -> (c: char)
    requires
        d < 10,
    ensures
        c == digit_char(d as nat),
{
    match d {
        0 => '0',
        1 => '1',
        2 => '2',
        3 => '3',
        4 => '4',
        5 => '5',
        6 => '6',
        7 => '7',
        8 => '8',
        _ => '9',
    }
}

/// How many decimal digits `n` has.
pub fn digit_count(n: u128) -> (count: usize)
    ensures
        count == digit_count_spec(n as nat),
        1 <= count <= 39,
{
    proof {
        reveal_with_fuel(pow, 40);
        assert(pow(10, 39) > u128::MAX);
        lemma_digit_count_bound(n as nat, 39);
    }
    let mut rest: u128 = n;
    let mut count: usize = 1;
    while rest >= 10
        invariant
            count >= 1,
            count + digit_count_spec(rest as nat) == 1 + digit_count_spec(n as nat),
            digit_count_spec(n as nat) <= 39,
        decreases rest,
    {
        rest = rest / 10;
        count = count + 1;
    }
    count
}

/// Writes the decimal digits of `n`.
fn push_digits(out: &mut String, n: u128)
    ensures
        final(out)@ == old(out)@ + digits(n as nat),
    decreases n,
{
    if n >= 10 {
        push_digits(out, n / 10);
    }
    push_char(out, digit((n % 10) as u8));
    proof {
        assert(out@ =~= old(out)@ + digits(n as nat));
    }
}

/// Writes `n` fill characters.
pub(crate) fn push_fill(out: &mut String, fill: char, n: usize)
    ensures
        final(out)@ == old(out)@ + padding(fill, n as nat),
{
    let mut i: usize = 0;
    while i < n
        invariant
            i <= n,
            out@ == old(out)@ + padding(fill, i as nat),
        decreases n - i,
    {
        push_char(out, fill);
        i = i + 1;
        proof {
            assert(out@ =~= old(out)@ + padding(fill, i as nat));
        }
    }
    proof {
        assert(out@ =~= old(out)@ + padding(fill, n as nat));
    }
}

/// How many fill characters the field takes beside the text.
fn fill_count(
    width: Option<usize>,
    align: Option<Alignment>,
    whole: u128,
    rest: u128,
    symbol: &str,
) -> (pad: usize)
    ensures
        pad == pad_len(width, align, natural_len(whole as nat, rest as nat, symbol@)),
{
    // count expected amount of chars in output
    // (digits [+ decimal point + 2 digits] + separator + symbol + unit)
    let digit_chars_count = digit_count(whole);
    let decimal_chars_count: usize = if rest == 0 {
        0
    } else {
        3
    };
    let symbol_chars_count = symbol.unicode_len();
    match (width, align) {
        (Some(w), Some(_)) => w.saturating_sub(digit_chars_count).saturating_sub(
            decimal_chars_count,
        ).saturating_sub(1).saturating_sub(symbol_chars_count).saturating_sub(1),
        _ => 0,
    }
}

/// Writes the mantissa: the whole part, and two decimals where bytes are
/// left over.
fn push_number(out: &mut String, whole: u128, rest: u128, step: u128)
    requires
        rest < step,
        step * 100 <= u128::MAX,
    ensures
        final(out)@ == old(out)@ + number_text(whole as nat, rest as nat, step as nat),
{
    push_digits(out, whole);
    if rest != 0 {
        proof {
            lemma_hundredths(rest as int, step as int);
        }
        let hundredths: u128 = rest * 100 / step;
        push_char(out, '.');
        push_char(out, digit((hundredths / 10) as u8));
        push_char(out, digit((hundredths % 10) as u8));
    }
    proof {
        assert(out@ =~= old(out)@ + number_text(whole as nat, rest as nat, step as nat));
    }
}

/// Writes the symbol and the unit letter.
fn push_unit(out: &mut String, symbol: &str)
    ensures
        final(out)@ == old(out)@ + symbol@.push(unit_letter(symbol@)),
{
    let unit = if symbol.unicode_len() == 0 {
        'b'
    } else {
        'B'
    };
    out.append(symbol);
    push_char(out, unit);
    proof {
        assert(out@ =~= old(out)@ + symbol@.push(unit_letter(symbol@)));
    }
}

impl<U: Unit> Bytes<U> {
    /// The quantity as text, in a field of `width` characters where both a
    /// width and an alignment are given.
    pub fn format(&self, width: Option<usize>, align: Option<Alignment>, fill: char) -> (s: String)
        ensures
            s@ == render::<U>(self@, width, align, fill),
            s@.len() >= render::<U>(self@, None, None, fill).len(),
            width.is_some() && align.is_some() && width.unwrap() >= render::<U>(
                self@,
                None,
                None,
                fill,
            ).len() ==> s@.len() == width.unwrap(),
    {
        let symbol = U::prefix_symbol(self.get_prefix());
        let step = U::prefix_value(self.get_prefix());
        let whole = self.whole();
        let rest = self.rest();
        let pad = fill_count(width, align, whole, rest, symbol);
        proof {
            U::lemma_unit_range();
            lemma_step_size(U::thousand(), self@.prefix.exponent_spec());
        }
        let before: usize = match align {
            Some(Alignment::Right) => pad,
            Some(Alignment::Center) => pad / 2,
            _ => 0,
        };
        let after: usize = match align {
            Some(Alignment::Left) => pad,
            Some(Alignment::Center) => pad - pad / 2,
            _ => 0,
        };
        let ghost number = number_text(whole as nat, rest as nat, step as nat);
        let ghost unit = symbol@.push(unit_letter(symbol@));
        let mut out = String::new();

        // write the fill that stands before the text
        push_fill(&mut out, fill, before);

        // write value and separator
        push_number(&mut out, whole, rest, step);
        push_char(&mut out, fill);

        // write symbol and unit
        push_unit(&mut out, symbol);

        // write the fill that follows the text
        push_fill(&mut out, fill, after);
        proof {
            lemma_render_len::<U>(self@, width, align, fill);
            assert(out@ =~= padding(fill, before as nat) + number + seq![fill] + unit + padding(
                fill,
                after as nat,
            ));
        }
        out
    }

    /// The quantity as text, without padding and with a space before the unit.
    pub fn to_string(&self) -> (s: String)
        ensures
            s@ == render::<U>(self@, None, None, ' '),
    {
        self.format(None, None, ' ')
    }
}

} // verus!
