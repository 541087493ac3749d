//! The ladder of magnitude steps shared by both unit bases.

use std::cmp::Ordering;
use vstd::prelude::*;
use vstd::std_specs::cmp::PartialOrdSpecImpl;

verus! {

/// Exponent of the highest step of the ladder.
pub const MAX_EXPONENT: u32 = 10;

/// One step of the ladder: the power of the unit base's multiplier that a
/// quantity is scaled by.
#[derive(Debug, PartialEq, Eq, Structural, Clone, Copy, Ord)]
pub enum Prefix {
    /// One
    One,
    /// One thousand: kilo/kibi
    Thousand,
    /// One million: mega/mebi
    Million,
    /// One milliard: giga/gibi
    Milliard,
    /// One billion: tera/tebi
    Billion,
    /// One billiard: peta/pebi
    Billiard,
    /// One trillion: exa/exbi
    Trillion,
    /// One trilliard: zetta/zebi
    Trilliard,
    /// One quadrillion: yotta/yobi
    Quadrillion,
    /// One quadrilliard: ronna/robi
    Quadrilliard,
    /// One quintillion: quetta/quebi
    Quintillion,
}

impl Prefix {
    /// The power of the step multiplier that this step stands for.
    pub open spec fn exponent_spec(self) -> nat {
        match self {
            Prefix::One => 0,
            Prefix::Thousand => 1,
            Prefix::Million => 2,
            Prefix::Milliard => 3,
            Prefix::Billion => 4,
            Prefix::Billiard => 5,
            Prefix::Trillion => 6,
            Prefix::Trilliard => 7,
            Prefix::Quadrillion => 8,
            Prefix::Quadrilliard => 9,
            Prefix::Quintillion => 10,
        }
    }

    /// The step with exponent `e`, and the top step for any `e` above the ladder.
    pub open spec fn with_exponent(e: nat) -> Prefix {
        if e == 0 {
            Prefix::One
        } else if e == 1 {
            Prefix::Thousand
        } else if e == 2 {
            Prefix::Million
        } else if e == 3 {
            Prefix::Milliard
        } else if e == 4 {
            Prefix::Billion
        } else if e == 5 {
            Prefix::Billiard
        } else if e == 6 {
            Prefix::Trillion
        } else if e == 7 {
            Prefix::Trilliard
        } else if e == 8 {
            Prefix::Quadrillion
        } else if e == 9 {
            Prefix::Quadrilliard
        } else {
            Prefix::Quintillion
        }
    }

    /// The power of the step multiplier that this step stands for.
    pub fn exponent(&self) -> (e: u32)
        ensures
            e == self.exponent_spec(),
            e <= MAX_EXPONENT,
    {
        match self {
            Prefix::One => 0,
            Prefix::Thousand => 1,
            Prefix::Million => 2,
            Prefix::Milliard => 3,
            Prefix::Billion => 4,
            Prefix::Billiard => 5,
            Prefix::Trillion => 6,
            Prefix::Trilliard => 7,
            Prefix::Quadrillion => 8,
            Prefix::Quadrilliard => 9,
            Prefix::Quintillion => 10,
        }
    }

    /// The step whose exponent is `exp`, if the ladder has one.
    pub fn from_exponent(exp: u32) -> (r: Option<Prefix>)
        ensures
            exp <= MAX_EXPONENT ==> r == Some(Prefix::with_exponent(exp as nat)),
            exp > MAX_EXPONENT ==> r.is_none(),
    {
        match exp {
            0 => Some(Prefix::One),
            1 => Some(Prefix::Thousand),
            2 => Some(Prefix::Million),
            3 => Some(Prefix::Milliard),
            4 => Some(Prefix::Billion),
            5 => Some(Prefix::Billiard),
            6 => Some(Prefix::Trillion),
            7 => Some(Prefix::Trilliard),
            8 => Some(Prefix::Quadrillion),
            9 => Some(Prefix::Quadrilliard),
            10 => Some(Prefix::Quintillion),
            _ => None,
        }
    }

    /// The largest step whose exponent does not exceed `exp`: an estimate at
    /// or above the top of the ladder gives the top step.
    pub fn max(exp: u32) -> (p: Prefix)
        ensures
            p.exponent_spec() == (if exp >= MAX_EXPONENT { MAX_EXPONENT } else { exp }),
            p.exponent_spec() <= exp,
            forall|q: Prefix| q.exponent_spec() <= exp ==> q.exponent_spec() <= p.exponent_spec(),
            p == Prefix::with_exponent(exp as nat),
    {
        let mut e: u32 = MAX_EXPONENT;
        while e > 0
            invariant
                e <= MAX_EXPONENT,
                exp <= e || e == MAX_EXPONENT,
            decreases e,
        {
            if exp >= e {
                match Prefix::from_exponent(e) {
                    Some(p) => {
                        return p;
                    },
                    None => {},
                }
            }
            e = e - 1;
        }
        Prefix::One
    }
}

/// Every step is the one that its exponent names, and no exponent leaves the ladder.
pub proof fn lemma_exponent_names_step(p: Prefix)
    ensures
        p.exponent_spec() <= MAX_EXPONENT,
        Prefix::with_exponent(p.exponent_spec()) == p,
{
}

/// Two steps with the same exponent are the same step.
pub proof fn lemma_exponent_injective(p: Prefix, q: Prefix)
    requires
        p.exponent_spec() == q.exponent_spec(),
    ensures
        p == q,
{
}

impl PartialOrd for Prefix {
    fn partial_cmp(&self, other: &Self) -> (r: Option<Ordering>) {
        let a: u32 = self.exponent();
        let b: u32 = other.exponent();
        if a < b {
            Some(Ordering::Less)
        } else if a == b {
            Some(Ordering::Equal)
        } else {
            Some(Ordering::Greater)
        }
    }
}

impl PartialOrdSpecImpl for Prefix {
    open spec fn obeys_partial_cmp_spec() -> bool {
        true
    }

    open spec fn partial_cmp_spec(&self, other: &Self) -> Option<Ordering> {
        if self.exponent_spec() < other.exponent_spec() {
            Some(Ordering::Less)
        } else if self.exponent_spec() == other.exponent_spec() {
            Some(Ordering::Equal)
        } else {
            Some(Ordering::Greater)
        }
    }
}

} // verus!
