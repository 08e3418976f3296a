use mtaa_dao_whitepaper::voting_power;
use mtaa_dao_whitepaper::Proposal;

#[test]
fn voting_power_equals_token_balance() {
    assert_eq!(voting_power(0, 0), 0);
    assert_eq!(voting_power(1, 0), 1);
    assert_eq!(voting_power(1_000, 500), 1_000);
    assert_eq!(voting_power(u128::MAX, u32::MAX), u128::MAX);
}

#[test]
fn voting_power_ignores_reputation() {
    let tokens: u128 = 42_000;
    assert_eq!(voting_power(tokens, 0), voting_power(tokens, 999));
    assert_eq!(voting_power(tokens, 1_000), voting_power(tokens, 4_999));
    assert_eq!(voting_power(tokens, 5_000), voting_power(tokens, 10_000));
    assert_eq!(voting_power(tokens, u32::MAX), tokens);
}

#[test]
fn proposal_fields_hold_what_is_put_in() {
    let p = Proposal {
        id: 7,
        proposer: String::from("0xA1ce"),
        title: String::from("Invest 500 cUSD"),
        voting_period_days: 7,
    };
    assert_eq!(p.id, 7);
    assert_eq!(p.proposer, "0xA1ce");
    assert_eq!(p.title, "Invest 500 cUSD");
    assert_eq!(p.voting_period_days, 7);
}
