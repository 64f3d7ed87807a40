use zero_trust::risk::RiskLevel;

fn all_levels() -> Vec<RiskLevel> {
    vec![RiskLevel::Low, RiskLevel::Medium, RiskLevel::High, RiskLevel::Critical]
}

#[test]
fn levels_rise_from_low_to_critical() {
    assert!(RiskLevel::Low < RiskLevel::Medium);
    assert!(RiskLevel::Medium < RiskLevel::High);
    assert!(RiskLevel::High < RiskLevel::Critical);
    assert!(RiskLevel::Low < RiskLevel::Critical);
    assert!(!(RiskLevel::Critical < RiskLevel::Low));
    assert!(!(RiskLevel::Medium < RiskLevel::Medium));
    assert!(RiskLevel::Medium <= RiskLevel::Medium);
    assert!(RiskLevel::High > RiskLevel::Low);
}

#[test]
fn ranks_count_from_one() {
    assert_eq!(RiskLevel::Low.rank(), 1);
    assert_eq!(RiskLevel::Medium.rank(), 2);
    assert_eq!(RiskLevel::High.rank(), 3);
    assert_eq!(RiskLevel::Critical.rank(), 4);
}

#[test]
fn order_agrees_with_rank_on_every_pair() {
    for a in all_levels() {
        for b in all_levels() {
            assert_eq!(a < b, a.rank() < b.rank());
            assert_eq!(a == b, a.rank() == b.rank());
            assert_eq!(a.cmp(&b), a.rank().cmp(&b.rank()));
            assert_eq!(a.partial_cmp(&b), Some(a.rank().cmp(&b.rank())));
            assert_eq!(a.exceeds(b), a.rank() > b.rank());
        }
    }
}

#[test]
fn max_is_the_higher_of_two_in_either_order() {
    assert_eq!(RiskLevel::Low.max(RiskLevel::High), RiskLevel::High);
    assert_eq!(RiskLevel::High.max(RiskLevel::Low), RiskLevel::High);
    assert_eq!(RiskLevel::Medium.max(RiskLevel::Medium), RiskLevel::Medium);
    assert_eq!(RiskLevel::Critical.max(RiskLevel::Medium), RiskLevel::Critical);
    for a in all_levels() {
        for b in all_levels() {
            let m = a.max(b);
            assert_eq!(m, b.max(a));
            assert!(m == a || m == b);
            assert!(m.rank() >= a.rank() && m.rank() >= b.rank());
        }
    }
}

#[test]
fn max_over_three_ignores_order() {
    for a in all_levels() {
        for b in all_levels() {
            for c in all_levels() {
                let m = a.max(b).max(c);
                assert_eq!(m, c.max(b).max(a));
                assert_eq!(m, b.max(c).max(a));
                assert_eq!(m, a.max(b.max(c)));
                assert_eq!(m.rank(), a.rank().max(b.rank()).max(c.rank()));
            }
        }
    }
}

#[test]
fn exceeds_is_strict() {
    assert!(RiskLevel::Medium.exceeds(RiskLevel::Low));
    assert!(!RiskLevel::High.exceeds(RiskLevel::High));
    assert!(!RiskLevel::Low.exceeds(RiskLevel::Critical));
}

#[test]
fn names_are_written_out() {
    assert_eq!(RiskLevel::Low.name(), "Low");
    assert_eq!(RiskLevel::Medium.name(), "Medium");
    assert_eq!(RiskLevel::High.name(), "High");
    assert_eq!(RiskLevel::Critical.name(), "Critical");
}
