use bytescale::prefix::Prefix;
use bytescale::prefix::MAX_EXPONENT;
use bytescale::quantity::from_bytes_base10;
use bytescale::quantity::from_bytes_base2;
use bytescale::quantity::from_live_bytes;
use bytescale::quantity::BytesBase10;
use bytescale::quantity::BytesBase2;
use bytescale::unit::Unit;
use bytescale::unit::UnitBase10;
use bytescale::unit::UnitBase2;

const ALL: [Prefix; 11] = [
    Prefix::One,
    Prefix::Thousand,
    Prefix::Million,
    Prefix::Milliard,
    Prefix::Billion,
    Prefix::Billiard,
    Prefix::Trillion,
    Prefix::Trilliard,
    Prefix::Quadrillion,
    Prefix::Quadrilliard,
    Prefix::Quintillion,
];

#[test]
fn exponents_run_from_zero_to_ten() {
    for (i, p) in ALL.iter().enumerate() {
        assert_eq!(p.exponent(), i as u32);
        assert_eq!(Prefix::from_exponent(i as u32), Some(*p));
    }
    assert_eq!(MAX_EXPONENT, 10);
    assert_eq!(Prefix::from_exponent(11), None);
    assert_eq!(Prefix::from_exponent(u32::MAX), None);
}

#[test]
fn max_is_the_largest_step_within_the_estimate() {
    assert_eq!(Prefix::max(0), Prefix::One);
    assert_eq!(Prefix::max(1), Prefix::Thousand);
    assert_eq!(Prefix::max(3), Prefix::Milliard);
    assert_eq!(Prefix::max(9), Prefix::Quadrilliard);
    assert_eq!(Prefix::max(10), Prefix::Quintillion);
}

#[test]
fn max_clamps_at_the_top_step() {
    assert_eq!(Prefix::max(11), Prefix::Quintillion);
    assert_eq!(Prefix::max(1000), Prefix::Quintillion);
    assert_eq!(Prefix::max(u32::MAX), Prefix::Quintillion);
}

#[test]
fn steps_are_ordered_by_exponent() {
    assert!(Prefix::One < Prefix::Thousand);
    assert!(Prefix::Milliard > Prefix::Million);
    assert!(Prefix::Quintillion >= Prefix::Quadrilliard);
    assert_eq!(
        Prefix::Billion.partial_cmp(&Prefix::Billion),
        Some(std::cmp::Ordering::Equal)
    );
    assert_eq!(
        Prefix::Billion.partial_cmp(&Prefix::Trillion),
        Some(std::cmp::Ordering::Less)
    );
    for i in 0..ALL.len() {
        for j in 0..ALL.len() {
            assert_eq!(ALL[i] < ALL[j], i < j);
            assert_eq!(ALL[i].cmp(&ALL[j]), i.cmp(&j));
        }
    }
}

#[test]
fn step_multipliers() {
    assert_eq!(UnitBase10::thousand_value(), 1000);
    assert_eq!(UnitBase2::thousand_value(), 1024);
    assert_eq!(UnitBase10::new(), UnitBase10);
    assert_eq!(UnitBase2::new(), UnitBase2);
}

#[test]
fn prefix_values_are_powers_of_the_multiplier() {
    let mut d: u128 = 1;
    let mut b: u128 = 1;
    for p in ALL.iter() {
        assert_eq!(UnitBase10::prefix_value(*p), d);
        assert_eq!(UnitBase2::prefix_value(*p), b);
        d *= 1000;
        b *= 1024;
    }
    assert_eq!(UnitBase2::prefix_value(Prefix::Quintillion), 1u128 << 100);
    assert_eq!(
        UnitBase10::prefix_value(Prefix::Quintillion),
        1_000_000_000_000_000_000_000_000_000_000
    );
}

#[test]
fn named_sizes() {
    assert_eq!(bytescale::unit::B, 1);
    assert_eq!(bytescale::unit::KB, 1000);
    assert_eq!(bytescale::unit::MB, 1000u64.pow(2));
    assert_eq!(bytescale::unit::GB, 1000u64.pow(3));
    assert_eq!(bytescale::unit::TB, 1000u64.pow(4));
    assert_eq!(bytescale::unit::PB, 1000u64.pow(5));
    assert_eq!(bytescale::unit::EB, 1000u64.pow(6));
    assert_eq!(bytescale::unit::ZB, 1000u128.pow(7));
    assert_eq!(bytescale::unit::YB, 1000u128.pow(8));
    assert_eq!(bytescale::unit::RB, 1000u128.pow(9));
    assert_eq!(bytescale::unit::QB, 1000u128.pow(10));
    assert_eq!(bytescale::unit::KIB, 2u64.pow(10));
    assert_eq!(bytescale::unit::MIB, 2u64.pow(20));
    assert_eq!(bytescale::unit::GIB, 2u64.pow(30));
    assert_eq!(bytescale::unit::TIB, 2u64.pow(40));
    assert_eq!(bytescale::unit::PIB, 2u64.pow(50));
    assert_eq!(bytescale::unit::EIB, 2u64.pow(60));
    assert_eq!(bytescale::unit::ZIB, 2u128.pow(70));
    assert_eq!(bytescale::unit::YIB, 2u128.pow(80));
    assert_eq!(bytescale::unit::RIB, 2u128.pow(90));
    assert_eq!(bytescale::unit::QIB, 2u128.pow(100));
    assert_eq!(UnitBase2::THOUSAND, 2u64.pow(10));
    assert_eq!(UnitBase2::MILLION, 2u64.pow(20));
    assert_eq!(UnitBase2::MILLIARD, 2u64.pow(30));
    assert_eq!(UnitBase2::BILLION, 2u64.pow(40));
    assert_eq!(UnitBase2::BILLIARD, 2u64.pow(50));
    assert_eq!(UnitBase2::TRILLION, 2u64.pow(60));
    assert_eq!(UnitBase2::TRILLIARD, 2u128.pow(70));
    assert_eq!(UnitBase2::QUADRILLION, 2u128.pow(80));
    assert_eq!(UnitBase2::QUADRILLIARD, 2u128.pow(90));
    assert_eq!(UnitBase2::QUINTILLION, 2u128.pow(100));
    assert_eq!(UnitBase10::THOUSAND, 1000u64.pow(1));
    assert_eq!(UnitBase10::MILLION, 1000u64.pow(2));
    assert_eq!(UnitBase10::MILLIARD, 1000u64.pow(3));
    assert_eq!(UnitBase10::BILLION, 1000u64.pow(4));
    assert_eq!(UnitBase10::BILLIARD, 1000u64.pow(5));
    assert_eq!(UnitBase10::TRILLION, 1000u64.pow(6));
    assert_eq!(UnitBase10::TRILLIARD, 1000u128.pow(7));
    assert_eq!(UnitBase10::QUADRILLION, 1000u128.pow(8));
    assert_eq!(UnitBase10::QUADRILLIARD, 1000u128.pow(9));
    assert_eq!(UnitBase10::QUINTILLION, 1000u128.pow(10));
}

#[test]
fn decimal_names_and_symbols() {
    let names = [
        "", "kilo", "mega", "giga", "tera", "peta", "exa", "zetta", "yotta", "ronna", "quetta",
    ];
    let symbols = ["", "k", "M", "G", "T", "P", "E", "Z", "Y", "R", "Q"];
    for (i, p) in ALL.iter().enumerate() {
        assert_eq!(UnitBase10::prefix_name(*p), names[i]);
        assert_eq!(UnitBase10::prefix_symbol(*p), symbols[i]);
    }
}

#[test]
fn binary_names_and_symbols() {
    let names = [
        "", "kibi", "mebi", "gibi", "tebi", "pebi", "exbi", "zebi", "yobi", "robi", "quebi",
    ];
    let symbols = ["", "Ki", "Mi", "Gi", "Ti", "Pi", "Ei", "Zi", "Yi", "Ri", "Qi"];
    for (i, p) in ALL.iter().enumerate() {
        assert_eq!(UnitBase2::prefix_name(*p), names[i]);
        assert_eq!(UnitBase2::prefix_symbol(*p), symbols[i]);
    }
}

#[test]
fn zero_is_held_at_the_lowest_step() {
    let q = BytesBase10::from_bytes(0);
    assert_eq!(q.get_prefix(), Prefix::One);
    assert_eq!(q.whole(), 0);
    assert_eq!(q.rest(), 0);
    assert_eq!(q.to_bytes(), 0);
    assert_eq!(UnitBase2::max_prefix_for_value(0), Prefix::One);
}

#[test]
fn the_step_brackets_the_count() {
    let samples: [u128; 12] = [
        1,
        999,
        1000,
        1001,
        1023,
        1024,
        999_999,
        1_000_000,
        1_048_575,
        1_048_576,
        u64::MAX as u128,
        123_456_789_012_345_678_901_234_567_890,
    ];
    for b in samples.iter() {
        let p = UnitBase10::max_prefix_for_value(*b);
        assert!(UnitBase10::prefix_value(p) <= *b);
        if p != Prefix::Quintillion {
            assert!(*b < UnitBase10::prefix_value(p) * 1000);
        }
        let p = UnitBase2::max_prefix_for_value(*b);
        assert!(UnitBase2::prefix_value(p) <= *b);
        if p != Prefix::Quintillion {
            assert!(*b < UnitBase2::prefix_value(p) * 1024);
        }
    }
}

#[test]
fn steps_at_the_boundaries() {
    assert_eq!(UnitBase10::max_prefix_for_value(999), Prefix::One);
    assert_eq!(UnitBase10::max_prefix_for_value(1000), Prefix::Thousand);
    assert_eq!(UnitBase10::max_prefix_for_value(999_999), Prefix::Thousand);
    assert_eq!(UnitBase10::max_prefix_for_value(1_000_000), Prefix::Million);
    assert_eq!(UnitBase2::max_prefix_for_value(1000), Prefix::One);
    assert_eq!(UnitBase2::max_prefix_for_value(1023), Prefix::One);
    assert_eq!(UnitBase2::max_prefix_for_value(1024), Prefix::Thousand);
    assert_eq!(UnitBase2::max_prefix_for_value((1 << 70) - 1), Prefix::Trillion);
    assert_eq!(UnitBase2::max_prefix_for_value(1 << 70), Prefix::Trilliard);
    assert_eq!(
        UnitBase10::max_prefix_for_value(u64::MAX as u128),
        Prefix::Trillion
    );
}

#[test]
fn counts_above_the_ladder_stay_at_the_top_step() {
    let q = BytesBase10::from_bytes(u128::MAX);
    assert_eq!(q.get_prefix(), Prefix::Quintillion);
    assert_eq!(q.whole(), u128::MAX / 1000u128.pow(10));
    assert!(q.whole() > 1000);
    let q = BytesBase2::from_bytes(u128::MAX);
    assert_eq!(q.get_prefix(), Prefix::Quintillion);
    assert_eq!(q.whole(), (1u128 << 28) - 1);
    assert_eq!(q.to_string(), "268435455.99 QiB");
    let q = BytesBase10::from_bytes(1000u128.pow(11));
    assert_eq!(q.to_string(), "1000 QB");
}

#[test]
fn mantissa_is_count_over_step_size() {
    let q = BytesBase10::from_bytes(1500);
    assert_eq!(q.get_prefix(), Prefix::Thousand);
    assert_eq!(q.whole(), 1);
    assert_eq!(q.rest(), 500);
    let q = BytesBase2::from_bytes(1536);
    assert_eq!(q.get_prefix(), Prefix::Thousand);
    assert_eq!(q.whole(), 1);
    assert_eq!(q.rest(), 512);
    let q = BytesBase10::from_bytes(999_999);
    assert_eq!(q.whole(), 999);
    assert_eq!(q.rest(), 999);
}

#[test]
fn mantissa_stays_below_the_multiplier() {
    let samples: [u128; 8] = [
        1,
        999,
        1000,
        1023,
        1024,
        999_999_999,
        1 << 99,
        1000u128.pow(10) - 1,
    ];
    for b in samples.iter() {
        let q = BytesBase10::from_bytes(*b);
        assert!(q.whole() >= 1);
        assert!(q.whole() < 1000);
        let q = BytesBase2::from_bytes(*b);
        assert!(q.whole() >= 1);
        assert!(q.whole() < 1024);
    }
}

#[test]
fn round_trip_never_shrinks() {
    let samples: [u128; 7] = [0, 1, 512, 1500, 1536, 1_000_001, u128::MAX];
    for b in samples.iter() {
        assert!(BytesBase10::from_bytes(*b).to_bytes() >= *b);
        assert_eq!(BytesBase10::from_bytes(*b).to_bytes(), *b);
        assert!(BytesBase2::from_bytes(*b).to_bytes() >= *b);
        assert_eq!(BytesBase2::from_bytes(*b).to_bytes(), *b);
    }
}

#[test]
fn to_max_prefix_is_idempotent() {
    let samples: [u128; 6] = [0, 1, 999, 1500, 1_000_000, u128::MAX];
    for b in samples.iter() {
        let once = BytesBase10::from_bytes(*b).to_max_prefix();
        let twice = once.to_max_prefix();
        assert_eq!(once, twice);
        assert_eq!(once, BytesBase10::from_bytes(*b));
        let once = BytesBase2::from_bytes(*b).to_max_prefix();
        let twice = once.to_max_prefix();
        assert_eq!(once, twice);
    }
}

#[test]
fn to_max_prefix_moves_to_the_displayed_step() {
    let q = BytesBase10::from_prefix_value(Prefix::One, 2_000_000).unwrap();
    assert_eq!(q.get_prefix(), Prefix::One);
    assert_eq!(q.to_string(), "2000000 b");
    let m = q.to_max_prefix();
    assert_eq!(m.get_prefix(), Prefix::Million);
    assert_eq!(m.to_bytes(), 2_000_000);
    assert_eq!(m.to_string(), "2 MB");
    assert_eq!(m.to_max_prefix(), m);
}

#[test]
fn from_prefix_value_counts_whole_units() {
    let q = BytesBase2::from_prefix_value(Prefix::Million, 3).unwrap();
    assert_eq!(q.get_prefix(), Prefix::Million);
    assert_eq!(q.to_bytes(), 3 * 1024 * 1024);
    assert_eq!(q.whole(), 3);
    assert_eq!(q.rest(), 0);
    let q = BytesBase10::from_prefix_value(Prefix::Thousand, 0).unwrap();
    assert_eq!(q.to_bytes(), 0);
    assert_eq!(q.to_string(), "0 kB");
    let q = BytesBase10::from_prefix_value(Prefix::One, u128::MAX).unwrap();
    assert_eq!(q.to_bytes(), u128::MAX);
}

#[test]
fn from_prefix_value_refuses_what_cannot_be_counted() {
    assert!(BytesBase10::from_prefix_value(Prefix::Thousand, u128::MAX).is_none());
    assert!(BytesBase2::from_prefix_value(Prefix::Quintillion, 1 << 28).is_none());
    assert!(BytesBase2::from_prefix_value(Prefix::Quintillion, (1 << 28) - 1).is_some());
}

#[test]
fn free_constructors_take_both_bases() {
    assert_eq!(from_bytes_base10(1500), BytesBase10::from_bytes(1500));
    assert_eq!(from_bytes_base2(1536), BytesBase2::from_bytes(1536));
    assert_eq!(from_bytes_base10(1024).get_prefix(), Prefix::Thousand);
    assert_eq!(from_bytes_base2(1000).get_prefix(), Prefix::One);
    assert_eq!(from_live_bytes(2_500_000).to_string(), "2.50 MB");
    assert_eq!(from_bytes_base10(u64::MAX).to_string(), "18.44 EB");
    assert_eq!(from_bytes_base2(u64::MAX).to_string(), "15.99 EiB");
}

#[test]
fn from_prefix_bytes_holds_any_mantissa_at_the_step() {
    let half = BytesBase10::from_prefix_bytes(Prefix::Million, 500_000);
    assert_eq!(half.get_prefix(), Prefix::Million);
    assert_eq!(half.to_bytes(), 500_000);
    assert_eq!(half.whole(), 0);
    assert_eq!(half.rest(), 500_000);
    assert_eq!(half.to_string(), "0.50 MB");
    let canonical = half.to_max_prefix();
    assert_eq!(canonical.get_prefix(), Prefix::Thousand);
    assert_eq!(canonical.to_bytes(), 500_000);
    assert_eq!(canonical.to_string(), "500 kB");
    let q = BytesBase2::from_prefix_bytes(Prefix::Thousand, 1536);
    assert_eq!(q, BytesBase2::from_bytes(1536));
    assert_eq!(q.to_string(), "1.50 KiB");
    let q = BytesBase2::from_prefix_bytes(Prefix::One, 1536);
    assert_eq!(q.to_string(), "1536 b");
    let q = BytesBase10::from_prefix_bytes(Prefix::Quintillion, u128::MAX);
    assert_eq!(q.to_bytes(), u128::MAX);
    assert_eq!(
        BytesBase10::from_prefix_bytes(Prefix::Milliard, 3_000_000_000),
        BytesBase10::from_prefix_value(Prefix::Milliard, 3).unwrap()
    );
}
