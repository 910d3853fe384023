use near_cli::account_id::AccountId;

fn acct(s: &str) -> AccountId {
    AccountId::parse(s.to_string()).unwrap()
}

#[test]
fn parse_accepts_ordinary_names() {
    assert!(AccountId::parse("alice.testnet".to_string()).is_some());
    assert!(AccountId::parse("bob.alice.testnet".to_string()).is_some());
    assert!(AccountId::parse("a-b_c.d1".to_string()).is_some());
    assert!(AccountId::parse("ab".to_string()).is_some());
}

#[test]
fn parse_rejects_bad_names() {
    assert!(AccountId::parse("a".to_string()).is_none());
    assert!(AccountId::parse("".to_string()).is_none());
    assert!(AccountId::parse("Alice".to_string()).is_none());
    assert!(AccountId::parse("a..b".to_string()).is_none());
    assert!(AccountId::parse(".ab".to_string()).is_none());
    assert!(AccountId::parse("ab.".to_string()).is_none());
    assert!(AccountId::parse("-ab".to_string()).is_none());
    assert!(AccountId::parse("a b".to_string()).is_none());
    assert!(AccountId::parse("a@b".to_string()).is_none());
}

#[test]
fn parse_checks_length_bounds() {
    let just_right = "a".repeat(64);
    assert!(AccountId::parse(just_right).is_some());
    let too_long = "a".repeat(65);
    assert!(AccountId::parse(too_long).is_none());
}

#[test]
fn top_level_means_no_dot_and_not_system() {
    assert!(acct("alice").is_top_level());
    assert!(!acct("alice.testnet").is_top_level());
    assert!(!acct("system").is_top_level());
    assert!(acct("systems").is_top_level());
}

#[test]
fn direct_sub_account_relation() {
    assert!(acct("bob.alice.testnet").is_sub_account_of(&acct("alice.testnet")));
    assert!(acct("alice.testnet").is_sub_account_of(&acct("testnet")));
    // same name is nobody's sub-account
    assert!(!acct("alice.testnet").is_sub_account_of(&acct("alice.testnet")));
    // the suffix matches but the separator is missing
    assert!(!acct("bobalice.testnet").is_sub_account_of(&acct("alice.testnet")));
    // a grandchild is not a direct sub-account
    assert!(!acct("a.b.testnet").is_sub_account_of(&acct("testnet")));
}

#[test]
fn parent_is_the_name_after_the_first_dot() {
    assert_eq!(
        acct("bob.alice.testnet").parent_account_id(),
        Some(acct("alice.testnet"))
    );
    assert_eq!(acct("ab.cd").parent_account_id(), Some(acct("cd")));
    // no dot: no parent
    assert_eq!(acct("alice").parent_account_id(), None);
    // the suffix is too short to stand alone as an account
    assert_eq!(acct("xx.c").parent_account_id(), None);
}
