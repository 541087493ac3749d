//! The two unit bases: what one step of the ladder multiplies by, and how
//! each step is called in that base.

use crate::prefix::Prefix;
use crate::quantity::is_max_prefix;
use crate::quantity::lemma_div_compare;
use crate::quantity::lemma_max_prefix_of;
use crate::quantity::max_prefix_of;
use crate::prefix::MAX_EXPONENT;
use vstd::arithmetic::power::lemma_pow_increases;
use vstd::arithmetic::power::lemma_pow_positive;
use vstd::arithmetic::power::pow;
use vstd::prelude::*;

verus! {

/// size in bytes of 1 byte
pub const B: u64 = 1;

/// size in bytes of 1 kilobyte
pub const KB: u64 = 1_000;

/// size in bytes of 1 megabyte
pub const MB: u64 = 1_000_000;

/// size in bytes of 1 gigabyte
pub const GB: u64 = 1_000_000_000;

/// size in bytes of 1 terabyte
pub const TB: u64 = 1_000_000_000_000;

/// size in bytes of 1 petabyte
pub const PB: u64 = 1_000_000_000_000_000;

/// size in bytes of 1 exabyte
pub const EB: u64 = 1_000_000_000_000_000_000;

/// size in bytes of 1 zettabyte
pub const ZB: u128 = 1_000_000_000_000_000_000_000;

/// size in bytes of 1 yottabyte
pub const YB: u128 = 1_000_000_000_000_000_000_000_000;

/// size in bytes of 1 ronnabyte
pub const RB: u128 = 1_000_000_000_000_000_000_000_000_000;

/// size in bytes of 1 quettabyte
pub const QB: u128 = 1_000_000_000_000_000_000_000_000_000_000;

/// size in bytes of 1 kibibyte
pub const KIB: u64 = 0x400;

/// size in bytes of 1 mebibyte
pub const MIB: u64 = 0x10_0000;

/// size in bytes of 1 gibibyte
pub const GIB: u64 = 0x4000_0000;

/// size in bytes of 1 tebibyte
pub const TIB: u64 = 0x100_0000_0000;

/// size in bytes of 1 pebibyte
pub const PIB: u64 = 0x4_0000_0000_0000;

/// size in bytes of 1 exbibyte
pub const EIB: u64 = 0x1000_0000_0000_0000;

/// size in bytes of 1 zebibyte
pub const ZIB: u128 = 0x40_0000_0000_0000_0000;

/// size in bytes of 1 yobibyte
pub const YIB: u128 = 0x1_0000_0000_0000_0000_0000;

/// size in bytes of 1 robibyte
pub const RIB: u128 = 0x400_0000_0000_0000_0000_0000;

/// size in bytes of 1 quebibyte
pub const QIB: u128 = 0x10_0000_0000_0000_0000_0000_0000;

/// A unit base: the multiplier between two neighbouring steps and the names
/// of the steps.
pub trait Unit: Sized {
    /// The multiplier between two neighbouring steps.
    spec fn thousand() -> nat;

    /// The full name of a step in this base.
    spec fn name(prefix: Prefix) -> Seq<char>;

    /// The symbol of a step in this base.
    spec fn symbol(prefix: Prefix) -> Seq<char>;

    /// The multiplier is at least two, a hundred units of the top step fit
    /// the widest integer, and only the lowest step has an empty symbol.
    proof fn lemma_unit_range()
        ensures
            valid_multiplier(Self::thousand()),
            forall|p: Prefix| (#[trigger] Self::symbol(p)).len() == 0 <==> p == Prefix::One,
    ;

    /// The tag of this base.
    fn new() -> Self;

    /// The multiplier between two neighbouring steps: the size of the
    /// second step.
    fn thousand_value() -> (r: u64)
        ensures
            r == Self::thousand(),
    ;

    /// The full name of `prefix` in this base; empty for the lowest step.
    fn prefix_name(prefix: Prefix) -> (r: &'static str)
        ensures
            r@ == Self::name(prefix),
    ;

    /// The symbol of `prefix` in this base; empty for the lowest step.
    fn prefix_symbol(prefix: Prefix) -> (r: &'static str)
        ensures
            r@ == Self::symbol(prefix),
    ;

    /// The size in bytes of one unit at `prefix` in this base.
    fn prefix_value(prefix: Prefix) -> (r: u128)
        ensures
            r == step_size(Self::thousand(), prefix.exponent_spec()),
            r >= 1,
    {
        let t: u128 = Self::thousand_value() as u128;
        let e: u32 = prefix.exponent();
        let mut r: u128 = 1;
        let mut i: u32 = 0;
        proof {
            Self::lemma_unit_range();
            lemma_step_size(Self::thousand(), 0);
        }
        while i < e
            invariant
                i <= e <= MAX_EXPONENT,
                t == Self::thousand(),
                valid_multiplier(Self::thousand()),
                r == step_size(Self::thousand(), i as nat),
                r >= 1,
            decreases e - i,
        {
            proof {
                lemma_step_size(Self::thousand(), i as nat);
                lemma_step_size(Self::thousand(), (i + 1) as nat);
            }
            r = t * r;
            i = i + 1;
        }
        r
    }

    /// The step that a count of `value` bytes is displayed at in this base:
    /// the magnitude of the count, held within the ladder.
    fn max_prefix_for_value(value: u128) -> (p: Prefix)
        ensures
            p == max_prefix_of(Self::thousand(), value as nat),
            is_max_prefix(Self::thousand(), value as nat, p),
    {
        let t: u128 = Self::thousand_value() as u128;
        let mut magnitude: u32 = 0;
        let mut size: u128 = 1;
        proof {
            Self::lemma_unit_range();
            lemma_step_size(Self::thousand(), 0);
        }
        while magnitude < MAX_EXPONENT && value / t >= size
            invariant
                magnitude <= MAX_EXPONENT,
                t == Self::thousand(),
                valid_multiplier(Self::thousand()),
                size == step_size(Self::thousand(), magnitude as nat),
                size >= 1,
                value >= 1 ==> size <= value,
                value == 0 ==> magnitude == 0,
            decreases MAX_EXPONENT - magnitude,
        {
            proof {
                assert(value >= 1) by {
                    if value == 0 {
                        assert(0u128 / t == 0);
                    }
                }
                lemma_div_compare(value as int, t as int, size as int);
                lemma_step_size(Self::thousand(), magnitude as nat);
                assert(size * t == t * size) by (nonlinear_arith);
            }
            size = size * t;
            magnitude = magnitude + 1;
        }
        let p = Prefix::max(magnitude);
        proof {
            lemma_div_compare(value as int, t as int, size as int);
            lemma_step_size(Self::thousand(), magnitude as nat);
            assert(size * t == t * size) by (nonlinear_arith);
            assert(is_max_prefix(Self::thousand(), value as nat, p));
            lemma_max_prefix_of(Self::thousand(), value as nat);
        }
        p
    }
}

/// The size in bytes of one unit at the step with exponent `e`, in a base
/// whose multiplier is `thousand`.
pub open spec fn step_size(thousand: nat, e: nat) -> nat {
    pow(thousand as int, e) as nat
}

/// What a base's multiplier must meet: it is at least two, and a hundred
/// units of the top step fit the widest integer.
pub open spec fn valid_multiplier(thousand: nat) -> bool {
    &&& 2 <= thousand
    &&& 100 * pow(thousand as int, MAX_EXPONENT as nat) <= u128::MAX
}

/// Step sizes are positive, grow with the exponent, and each is the
/// multiplier times the one below it.
pub proof fn lemma_step_size(thousand: nat, e: nat)
    requires
        valid_multiplier(thousand),
    ensures
        step_size(thousand, e) >= 1,
        step_size(thousand, e) == pow(thousand as int, e),
        step_size(thousand, e + 1) == thousand * step_size(thousand, e),
        step_size(thousand, e + 1) >= 2 * step_size(thousand, e),
        e <= MAX_EXPONENT ==> 100 * step_size(thousand, e) <= u128::MAX,
        step_size(thousand, 0) == 1,
{
    let t = thousand as int;
    lemma_pow_positive(t, e);
    lemma_pow_positive(t, e + 1);
    reveal_with_fuel(pow, 2);
    assert(pow(t, e + 1) == t * pow(t, e));
    assert(t * pow(t, e) >= 2 * pow(t, e)) by (nonlinear_arith)
        requires
            t >= 2,
            pow(t, e) >= 1,
    ;
    if e <= MAX_EXPONENT {
        lemma_pow_increases(thousand, e, MAX_EXPONENT as nat);
    }
}

/// The binary base: steps of 1024.
#[derive(Debug, Clone, Copy, PartialEq, Eq, PartialOrd, Ord)]
pub struct UnitBase2;

impl UnitBase2 {
    pub const THOUSAND: u64 = 0x400;

    pub const MILLION: u64 = 0x10_0000;

    pub const MILLIARD: u64 = 0x4000_0000;

    pub const BILLION: u64 = 0x100_0000_0000;

    pub const BILLIARD: u64 = 0x4_0000_0000_0000;

    pub const TRILLION: u64 = 0x1000_0000_0000_0000;

    pub const TRILLIARD: u128 = 0x40_0000_0000_0000_0000;

    pub const QUADRILLION: u128 = 0x1_0000_0000_0000_0000_0000;

    pub const QUADRILLIARD: u128 = 0x400_0000_0000_0000_0000_0000;

    pub const QUINTILLION: u128 = 0x10_0000_0000_0000_0000_0000_0000;
}

impl Unit for UnitBase2 {
    open spec fn thousand() -> nat {
        1024
    }

    open spec fn name(prefix: Prefix) -> Seq<char> {
        match prefix {
            Prefix::One => ""@,
            Prefix::Thousand => "kibi"@,
            Prefix::Million => "mebi"@,
            Prefix::Milliard => "gibi"@,
            Prefix::Billion => "tebi"@,
            Prefix::Billiard => "pebi"@,
            Prefix::Trillion => "exbi"@,
            Prefix::Trilliard => "zebi"@,
            Prefix::Quadrillion => "yobi"@,
            Prefix::Quadrilliard => "robi"@,
            Prefix::Quintillion => "quebi"@,
        }
    }

    open spec fn symbol(prefix: Prefix) -> Seq<char> {
        match prefix {
            Prefix::One => ""@,
            Prefix::Thousand => "Ki"@,
            Prefix::Million => "Mi"@,
            Prefix::Milliard => "Gi"@,
            Prefix::Billion => "Ti"@,
            Prefix::Billiard => "Pi"@,
            Prefix::Trillion => "Ei"@,
            Prefix::Trilliard => "Zi"@,
            Prefix::Quadrillion => "Yi"@,
            Prefix::Quadrilliard => "Ri"@,
            Prefix::Quintillion => "Qi"@,
        }
    }

    proof fn lemma_unit_range() {
        assert(valid_multiplier(Self::thousand())) by {
            reveal_with_fuel(pow, 11);
        }
        reveal_strlit("");
        reveal_strlit("Ki");
        reveal_strlit("Mi");
        reveal_strlit("Gi");
        reveal_strlit("Ti");
        reveal_strlit("Pi");
        reveal_strlit("Ei");
        reveal_strlit("Zi");
        reveal_strlit("Yi");
        reveal_strlit("Ri");
        reveal_strlit("Qi");
        assert forall|p: Prefix| (#[trigger] Self::symbol(p)).len() == 0 <==> p
            == Prefix::One by {
            assert(Self::symbol(Prefix::One).len() == 0);
        }
    }

    fn new() -> Self {
        UnitBase2
    }

    fn thousand_value() -> (r: u64) {
        UnitBase2::THOUSAND
    }

    fn prefix_name(prefix: Prefix) -> (r: &'static str) {
        match prefix {
            Prefix::One => "",
            Prefix::Thousand => "kibi",
            Prefix::Million => "mebi",
            Prefix::Milliard => "gibi",
            Prefix::Billion => "tebi",
            Prefix::Billiard => "pebi",
            Prefix::Trillion => "exbi",
            Prefix::Trilliard => "zebi",
            Prefix::Quadrillion => "yobi",
            Prefix::Quadrilliard => "robi",
            Prefix::Quintillion => "quebi",
        }
    }

    fn prefix_symbol(prefix: Prefix) -> (r: &'static str) {
        match prefix {
            Prefix::One => "",
            Prefix::Thousand => "Ki",
            Prefix::Million => "Mi",
            Prefix::Milliard => "Gi",
            Prefix::Billion => "Ti",
            Prefix::Billiard => "Pi",
            Prefix::Trillion => "Ei",
            Prefix::Trilliard => "Zi",
            Prefix::Quadrillion => "Yi",
            Prefix::Quadrilliard => "Ri",
            Prefix::Quintillion => "Qi",
        }
    }
}

/// The decimal base: steps of 1000.
#[derive(Debug, Clone, Copy, PartialEq, Eq, PartialOrd, Ord)]
pub struct UnitBase10;

impl UnitBase10 {
    pub const THOUSAND: u64 = 1_000;

    pub const MILLION: u64 = 1_000_000;

    pub const MILLIARD: u64 = 1_000_000_000;

    pub const BILLION: u64 = 1_000_000_000_000;

    pub const BILLIARD: u64 = 1_000_000_000_000_000;

    pub const TRILLION: u64 = 1_000_000_000_000_000_000;

    pub const TRILLIARD: u128 = 1_000_000_000_000_000_000_000;

    pub const QUADRILLION: u128 = 1_000_000_000_000_000_000_000_000;

    pub const QUADRILLIARD: u128 = 1_000_000_000_000_000_000_000_000_000;

    pub const QUINTILLION: u128 = 1_000_000_000_000_000_000_000_000_000_000;
}

impl Unit for UnitBase10 {
    open spec fn thousand() -> nat {
        1000
    }

    open spec fn name(prefix: Prefix) -> Seq<char> {
        match prefix {
            Prefix::One => ""@,
            Prefix::Thousand => "kilo"@,
            Prefix::Million => "mega"@,
            Prefix::Milliard => "giga"@,
            Prefix::Billion => "tera"@,
            Prefix::Billiard => "peta"@,
            Prefix::Trillion => "exa"@,
            Prefix::Trilliard => "zetta"@,
            Prefix::Quadrillion => "yotta"@,
            Prefix::Quadrilliard => "ronna"@,
            Prefix::Quintillion => "quetta"@,
        }
    }

    open spec fn symbol(prefix: Prefix) -> Seq<char> {
        match prefix {
            Prefix::One => ""@,
            Prefix::Thousand => "k"@,
            Prefix::Million => "M"@,
            Prefix::Milliard => "G"@,
            Prefix::Billion => "T"@,
            Prefix::Billiard => "P"@,
            Prefix::Trillion => "E"@,
            Prefix::Trilliard => "Z"@,
            Prefix::Quadrillion => "Y"@,
            Prefix::Quadrilliard => "R"@,
            Prefix::Quintillion => "Q"@,
        }
    }

    proof fn lemma_unit_range() {
        assert(valid_multiplier(Self::thousand())) by {
            reveal_with_fuel(pow, 11);
        }
        reveal_strlit("");
        reveal_strlit("k");
        reveal_strlit("M");
        reveal_strlit("G");
        reveal_strlit("T");
        reveal_strlit("P");
        reveal_strlit("E");
        reveal_strlit("Z");
        reveal_strlit("Y");
        reveal_strlit("R");
        reveal_strlit("Q");
        assert forall|p: Prefix| (#[trigger] Self::symbol(p)).len() == 0 <==> p
            == Prefix::One by {
            assert(Self::symbol(Prefix::One).len() == 0);
        }
    }

    fn new() -> Self {
        UnitBase10
    }

    fn thousand_value() -> (r: u64) {
        UnitBase10::THOUSAND
    }

    fn prefix_name(prefix: Prefix) -> (r: &'static str) {
        match prefix {
            Prefix::One => "",
            Prefix::Thousand => "kilo",
            Prefix::Million => "mega",
            Prefix::Milliard => "giga",
            Prefix::Billion => "tera",
            Prefix::Billiard => "peta",
            Prefix::Trillion => "exa",
            Prefix::Trilliard => "zetta",
            Prefix::Quadrillion => "yotta",
            Prefix::Quadrilliard => "ronna",
            Prefix::Quintillion => "quetta",
        }
    }

    fn prefix_symbol(prefix: Prefix) -> (r: &'static str) {
        match prefix {
            Prefix::One => "",
            Prefix::Thousand => "k",
            Prefix::Million => "M",
            Prefix::Milliard => "G",
            Prefix::Billion => "T",
            Prefix::Billiard => "P",
            Prefix::Trillion => "E",
            Prefix::Trilliard => "Z",
            Prefix::Quadrillion => "Y",
            Prefix::Quadrilliard => "R",
            Prefix::Quintillion => "Q",
        }
    }
}

} // verus!
