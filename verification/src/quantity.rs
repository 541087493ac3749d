//! Scaled quantities: a byte count held at a step of the ladder, in a unit base.

use crate::prefix::Prefix;
use crate::prefix::MAX_EXPONENT;
use crate::unit::lemma_step_size;
use crate::unit::step_size;
use crate::unit::valid_multiplier;
use crate::unit::Unit;
use crate::unit::UnitBase10;
use crate::unit::UnitBase2;
use vstd::arithmetic::div_mod::lemma_fundamental_div_mod;
use vstd::arithmetic::div_mod::lemma_mod_bound;
use vstd::arithmetic::power::lemma_pow_increases;
use vstd::arithmetic::power::pow;
use vstd::prelude::*;

verus! {

/// A quantity in the binary base.
pub type BytesBase2 = Bytes<UnitBase2>;

/// A quantity in the decimal base.
pub type BytesBase10 = Bytes<UnitBase10>;

/// What a scaled quantity stands for: a step and the exact count of bytes.
/// The mantissa is the count divided by the step's size.
pub struct ScaledValue {
    pub prefix: Prefix,
    pub bytes: nat,
}

/// Whether `p` is the step that a count of `value` bytes is displayed at, in
/// a base whose multiplier is `thousand`: the lowest step for zero, else the
/// step whose size does not exceed `value` while the next one does, or the
/// top step where no next one exists.
pub open spec fn is_max_prefix(thousand: nat, value: nat, p: Prefix) -> bool {
    if value == 0 {
        p == Prefix::One
    } else {
        &&& step_size(thousand, p.exponent_spec()) <= value
        &&& (p.exponent_spec() == MAX_EXPONENT || value < step_size(
            thousand,
            p.exponent_spec() + 1,
        ))
    }
}

/// The highest exponent not above `e` whose step size does not exceed `value`,
/// and zero where there is none.
pub open spec fn max_exponent_below(thousand: nat, value: nat, e: nat) -> nat
    decreases e,
{
    if e == 0 {
        0
    } else if step_size(thousand, e) <= value {
        e
    } else {
        max_exponent_below(thousand, value, (e - 1) as nat)
    }
}

/// The step that a count of `value` bytes is displayed at.
pub open spec fn max_prefix_of(thousand: nat, value: nat) -> Prefix {
    Prefix::with_exponent(max_exponent_below(thousand, value, MAX_EXPONENT as nat))
}

/// The quantity that a count of bytes is displayed as.
pub open spec fn scaled(thousand: nat, bytes: nat) -> ScaledValue {
    ScaledValue { prefix: max_prefix_of(thousand, bytes), bytes }
}

/// The whole part of the mantissa.
pub open spec fn whole_part(thousand: nat, q: ScaledValue) -> nat {
    q.bytes / step_size(thousand, q.prefix.exponent_spec())
}

/// The bytes left over below the step: the mantissa's fraction, counted in
/// bytes.
pub open spec fn rest_part(thousand: nat, q: ScaledValue) -> nat {
    q.bytes % step_size(thousand, q.prefix.exponent_spec())
}

proof fn lemma_max_exponent_below(t: nat, value: nat, e: nat)
    requires
        valid_multiplier(t),
        value >= 1,
    ensures
        max_exponent_below(t, value, e) <= e,
        step_size(t, max_exponent_below(t, value, e)) <= value,
        forall|k: nat|
            max_exponent_below(t, value, e) < k <= e ==> value < #[trigger] step_size(
                t,
                k,
            ),
    decreases e,
{
    lemma_step_size(t, 0);
    if e > 0 && step_size(t, e) > value {
        lemma_max_exponent_below(t, value, (e - 1) as nat);
    }
}

/// At most one step is the displayed step of a count.
pub proof fn lemma_max_prefix_unique(t: nat, value: nat, p: Prefix, q: Prefix)
    requires
        valid_multiplier(t),
        is_max_prefix(t, value, p),
        is_max_prefix(t, value, q),
    ensures
        p == q,
{
    if value > 0 {
        let a = p.exponent_spec();
        let b = q.exponent_spec();
        if a < b {
            lemma_pow_increases(t, a + 1, b);
            lemma_step_size(t, a + 1);
            lemma_step_size(t, b);
        }
        if b < a {
            lemma_pow_increases(t, b + 1, a);
            lemma_step_size(t, b + 1);
            lemma_step_size(t, a);
        }
    }
}

/// The displayed step of a count is the one step whose size does not exceed
/// the count while the next step's size does; above the ladder it is the top
/// step, and below the multiplier the lowest.
pub proof fn lemma_max_prefix_of(t: nat, value: nat)
    requires
        valid_multiplier(t),
    ensures
        is_max_prefix(t, value, max_prefix_of(t, value)),
        forall|p: Prefix|
            is_max_prefix(t, value, p) ==> p == max_prefix_of(t, value),
        value < t ==> max_prefix_of(t, value) == Prefix::One,
        value >= step_size(t, MAX_EXPONENT as nat) ==> max_prefix_of(
            t,
            value,
        ) == Prefix::Quintillion,
{
    let m = max_prefix_of(t, value);
    lemma_step_size(t, 0);
    if value >= 1 {
        lemma_max_exponent_below(t, value, MAX_EXPONENT as nat);
        let e = max_exponent_below(t, value, MAX_EXPONENT as nat);
        assert(m.exponent_spec() == e);
        if e < MAX_EXPONENT {
            assert(value < step_size(t, e + 1));
        }
    } else {
        assert(max_exponent_below(t, value, MAX_EXPONENT as nat) == 0) by {
            lemma_zero_has_no_step(t, MAX_EXPONENT as nat);
        }
    }
    assert(is_max_prefix(t, value, m));
    assert forall|p: Prefix| is_max_prefix(t, value, p) implies p == m by {
        lemma_max_prefix_unique(t, value, p, m);
    }
    if value < t {
        reveal_with_fuel(pow, 2);
        assert(step_size(t, 1) == t);
        assert(is_max_prefix(t, value, Prefix::One));
    }
}

proof fn lemma_zero_has_no_step(t: nat, e: nat)
    requires
        valid_multiplier(t),
    ensures
        max_exponent_below(t, 0, e) == 0,
    decreases e,
{
    if e > 0 {
        lemma_step_size(t, e);
        lemma_zero_has_no_step(t, (e - 1) as nat);
    }
}

/// Whether `p` times `t` stays within `v` is decided by dividing `v` by `t`.
pub proof fn lemma_div_compare(v: int, t: int, p: int)
    requires
        t > 0,
        v >= 0,
    ensures
        (v / t >= p) <==> (p * t <= v),
{
    lemma_fundamental_div_mod(v, t);
    lemma_mod_bound(v, t);
    let d = v / t;
    if d >= p {
        assert(p * t <= d * t) by (nonlinear_arith)
            requires
                d >= p,
                t > 0,
        ;
        assert(d * t == t * d) by (nonlinear_arith);
    } else {
        assert((d + 1) * t <= p * t) by (nonlinear_arith)
            requires
                d + 1 <= p,
                t > 0,
        ;
        assert((d + 1) * t == t * d + t) by (nonlinear_arith);
    }
}

/// A byte count at a step of the ladder, in the unit base `U`.
#[derive(Debug, Clone, Copy, PartialEq, PartialOrd)]
pub struct Bytes<U> {
    prefix: Prefix,
    bytes: u128,
    unit: U,
}

impl<U: Unit> View for Bytes<U> {
    type V = ScaledValue;

    open spec fn view(&self) -> ScaledValue {
        ScaledValue { prefix: self.prefix(), bytes: self.byte_count() }
    }
}

impl<U: Unit> Bytes<U> {
    /// The step that the quantity is held at.
    pub closed spec fn prefix(&self) -> Prefix {
        self.prefix
    }

    /// The exact count of bytes.
    pub closed spec fn byte_count(&self) -> nat {
        self.bytes as nat
    }

    /// `value` whole units at the step `prefix`, where that many bytes can
    /// be counted.
    pub fn from_prefix_value(prefix: Prefix, value: u128) -> (r: Option<Self>)
        ensures
            r.is_some() <==> value * step_size(U::thousand(), prefix.exponent_spec()) <= u128::MAX,
            r.is_some() ==> r.unwrap()@ == (ScaledValue {
                prefix,
                bytes: (value * step_size(U::thousand(), prefix.exponent_spec())) as nat,
            }),
    {
        let size = U::prefix_value(prefix);
        match value.checked_mul(size) {
            Some(bytes) => Some(Bytes { prefix, bytes, unit: U::new() }),
            None => None,
        }
    }

    /// `bytes` bytes held at the step `prefix`, whichever step they would be
    /// displayed at: the mantissa may be below one or have a fraction.
    pub fn from_prefix_bytes(prefix: Prefix, bytes: u128) -> (r: Self)
        ensures
            r@ == (ScaledValue { prefix, bytes: bytes as nat }),
    {
        Bytes { prefix, bytes, unit: U::new() }
    }

    /// The quantity that `bytes` bytes are displayed as.
    pub fn from_bytes(bytes: u128) -> (r: Self)
        ensures
            r@ == scaled(U::thousand(), bytes as nat),
            is_max_prefix(U::thousand(), bytes as nat, r@.prefix),
    {
        let prefix = U::max_prefix_for_value(bytes);
        Bytes { prefix, bytes, unit: U::new() }
    }

    /// The count of bytes: the mantissa times the size of the step.
    pub fn to_bytes(&self) -> (r: u128)
        ensures
            r == self@.bytes,
    {
        self.bytes
    }

    /// The same count of bytes at the step it is displayed at.
    pub fn to_max_prefix(&self) -> (r: Self)
        ensures
            r@ == scaled(U::thousand(), self@.bytes),
    {
        Self::from_bytes(self.to_bytes())
    }

    /// The step that the quantity is held at.
    pub fn get_prefix(&self) -> (p: Prefix)
        ensures
            p == self@.prefix,
    {
        self.prefix
    }

    /// The whole part of the mantissa.
    pub fn whole(&self) -> (w: u128)
        ensures
            w == whole_part(U::thousand(), self@),
    {
        self.bytes / U::prefix_value(self.prefix)
    }

    /// The bytes left over below the step.
    pub fn rest(&self) -> (r: u128)
        ensures
            r == rest_part(U::thousand(), self@),
            r < step_size(U::thousand(), self@.prefix.exponent_spec()),
    {
        self.bytes % U::prefix_value(self.prefix)
    }
}

/// The binary quantity that `bytes` bytes are displayed as.
pub fn from_bytes_base2(bytes: u64) -> (r: BytesBase2)
    ensures
        r@ == scaled(UnitBase2::thousand(), bytes as nat),
{
    BytesBase2::from_bytes(bytes as u128)
}

/// The decimal quantity that `bytes` bytes are displayed as.
pub fn from_bytes_base10(bytes: u64) -> (r: BytesBase10)
    ensures
        r@ == scaled(UnitBase10::thousand(), bytes as nat),
{
    BytesBase10::from_bytes(bytes as u128)
}

/// A count of live bytes as a decimal quantity.
pub fn from_live_bytes(live: usize) -> (r: BytesBase10)
    ensures
        r@ == scaled(UnitBase10::thousand(), live as nat),
{
    BytesBase10::from_bytes(live as u128)
}

/// A count of bytes, displayed and counted again, is never less than it
/// was: it is the same count.
pub proof fn lemma_round_trip_never_shrinks(t: nat, bytes: nat)
    ensures
        scaled(t, bytes).bytes >= bytes,
        scaled(t, bytes).bytes == bytes,
{
}

/// Bringing a quantity to its displayed step twice gives what doing so once gives.
pub proof fn lemma_max_prefix_idempotent(t: nat, q: ScaledValue)
    ensures
        scaled(t, scaled(t, q.bytes).bytes) == scaled(t, q.bytes),
{
}

/// The mantissa of a displayed count of at least one byte is at least one,
/// and below the top step it is less than the multiplier.
pub proof fn lemma_mantissa_range(t: nat, bytes: nat)
    requires
        valid_multiplier(t),
        bytes >= 1,
    ensures
        whole_part(t, scaled(t, bytes)) >= 1,
        scaled(t, bytes).prefix != Prefix::Quintillion ==> whole_part(t, scaled(t, bytes)) < t,
{
    let q = scaled(t, bytes);
    let e = q.prefix.exponent_spec();
    let s = step_size(t, e) as int;
    lemma_max_prefix_of(t, bytes);
    lemma_step_size(t, e);
    lemma_div_compare(bytes as int, s, 1);
    if q.prefix != Prefix::Quintillion {
        lemma_div_compare(bytes as int, s, t as int);
        assert(t * s == s * t) by (nonlinear_arith);
    }
}

} // verus!
