use invoice_financing::{calculate_enhanced_risk, coverage_percentage, Identity};

const DAY: i64 = 86400;
const NOW: i64 = 1_700_000_000;

fn owner(first: u8) -> Identity {
    let mut bytes = [9u8; 32];
    bytes[0] = first;
    Identity { bytes }
}

#[test]
fn amount_tiers() {
    // long term (+0), excellent credit (byte 67 -> 801, +0): 10 + tier + 5
    let o = owner(67);
    let due = NOW + 100 * DAY;
    let cases = [
        (1u64, 20u8),
        (10_000_000, 20),
        (10_000_001, 25),
        (50_000_000, 25),
        (50_000_001, 30),
        (100_000_000, 30),
        (100_000_001, 40),
        (500_000_000, 40),
        (500_000_001, 50),
    ];
    for &(amount, risk) in cases.iter() {
        assert_eq!(calculate_enhanced_risk(amount, due, &o, NOW).risk_score, risk);
    }
}

#[test]
fn term_tiers() {
    let o = owner(67);
    let cases = [(1i64, 40u8), (7, 40), (8, 35), (14, 35), (15, 30), (30, 30), (31, 25), (60, 25), (61, 22), (90, 22), (91, 20)];
    for &(days, risk) in cases.iter() {
        assert_eq!(calculate_enhanced_risk(1_000, NOW + days * DAY, &o, NOW).risk_score, risk);
    }
    // partial days are truncated
    assert_eq!(calculate_enhanced_risk(1_000, NOW + 8 * DAY - 1, &o, NOW).risk_score, 40);
}

#[test]
fn credit_brackets() {
    let due = NOW + 100 * DAY;
    let cases = [(67u8, 801u16, 20u8), (50, 750, 22), (34, 702, 25), (17, 651, 30), (0, 600, 35), (84, 2, 35), (255, 515, 35)];
    for &(b, score, risk) in cases.iter() {
        let r = calculate_enhanced_risk(1_000, due, &owner(b), NOW);
        assert_eq!(r.estimated_credit_score, score);
        assert_eq!(r.risk_score, risk);
    }
}

#[test]
fn risk_is_capped_and_yield_follows() {
    // 10 + 35 + 20 + 15 + 5 = 85, capped at 50
    let r = calculate_enhanced_risk(600_000_000, NOW + 3 * DAY, &owner(0), NOW);
    assert_eq!(r.risk_score, 50);
    assert_eq!(r.industry_risk, 5);
    assert_eq!(r.estimated_yield, 1500);
    let r = calculate_enhanced_risk(1_000, NOW + 100 * DAY, &owner(67), NOW);
    assert_eq!(r.risk_score, 20);
    assert_eq!(r.estimated_yield, 900);
}

#[test]
fn coverage_tiers() {
    assert_eq!(coverage_percentage(0), 90);
    assert_eq!(coverage_percentage(20), 90);
    assert_eq!(coverage_percentage(21), 80);
    assert_eq!(coverage_percentage(35), 80);
    assert_eq!(coverage_percentage(36), 70);
    assert_eq!(coverage_percentage(50), 70);
    assert_eq!(coverage_percentage(51), 60);
}

#[test]
fn identity_comparison() {
    assert!(owner(3).same_as(&owner(3)));
    assert!(!owner(3).same_as(&owner(4)));
    assert!(owner(3) == owner(3));
    let mut last = [0u8; 32];
    last[31] = 1;
    assert!(!Identity::zero().same_as(&Identity { bytes: last }));
}
