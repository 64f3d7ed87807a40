use zero_trust::risk::RiskLevel;
use zero_trust::token::{push_decimal, session_token};

fn written(n: u8) -> String {
    let mut out = String::new();
    push_decimal(&mut out, n);
    out
}

#[test]
fn decimal_of_one_two_and_three_digits() {
    assert_eq!(written(0), "0");
    assert_eq!(written(7), "7");
    assert_eq!(written(9), "9");
    assert_eq!(written(10), "10");
    assert_eq!(written(23), "23");
    assert_eq!(written(99), "99");
    assert_eq!(written(100), "100");
    assert_eq!(written(105), "105");
    assert_eq!(written(255), "255");
}

#[test]
fn decimal_agrees_with_std_on_every_byte() {
    for n in 0..=255u8 {
        assert_eq!(written(n), format!("{}", n));
    }
}

#[test]
fn decimal_is_appended_to_what_is_there() {
    let mut out = String::from("hour ");
    push_decimal(&mut out, 14);
    assert_eq!(out, "hour 14");
}

#[test]
fn token_joins_its_four_parts() {
    assert_eq!(session_token("alice", "GIT_REPO", RiskLevel::Low, 10), "alice-GIT_REPO-Low-10");
    assert_eq!(session_token("carol", "FINANCE_DB", RiskLevel::High, 11), "carol-FINANCE_DB-High-11");
    assert_eq!(session_token("u", "r", RiskLevel::Medium, 0), "u-r-Medium-0");
    assert_eq!(session_token("", "", RiskLevel::Critical, 9), "--Critical-9");
}

#[test]
fn token_depends_on_each_part() {
    let base = session_token("alice", "GIT_REPO", RiskLevel::Low, 10);
    assert_ne!(base, session_token("bob", "GIT_REPO", RiskLevel::Low, 10));
    assert_ne!(base, session_token("alice", "LOG_SERVER", RiskLevel::Low, 10));
    assert_ne!(base, session_token("alice", "GIT_REPO", RiskLevel::Medium, 10));
    assert_ne!(base, session_token("alice", "GIT_REPO", RiskLevel::Low, 11));
    assert_eq!(base, session_token("alice", "GIT_REPO", RiskLevel::Low, 10));
}
