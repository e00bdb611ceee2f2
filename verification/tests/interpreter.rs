use ic_llm::balance_reply;
use ic_llm::interpret_step;
use ic_llm::u64_to_decimal;
use ic_llm::AccountId;
use ic_llm::Outcome;

fn reply_text(outcome: Outcome) -> String {
    match outcome {
        Outcome::Reply(text) => text,
        Outcome::QueryBalance(account) => {
            panic!("expected a final reply, got a balance query for {}", account.to_hex())
        },
    }
}

fn queried_account(outcome: Outcome) -> AccountId {
    match outcome {
        Outcome::Reply(text) => panic!("expected a balance query, got the reply {:?}", text),
        Outcome::QueryBalance(account) => account,
    }
}

#[test]
fn plain_reply_passes_through() {
    let outcome = interpret_step("The sun is rather large.".to_string());
    assert_eq!(reply_text(outcome), "The sun is rather large.");
}

#[test]
fn reply_mentioning_lookup_midway_passes_through() {
    let outcome = interpret_step("try LOOKUP(abc) yourself".to_string());
    assert_eq!(reply_text(outcome), "try LOOKUP(abc) yourself");
}

#[test]
fn unclosed_lookup_passes_through() {
    let outcome = interpret_step("LOOKUP(".to_string());
    assert_eq!(reply_text(outcome), "LOOKUP(");
}

#[test]
fn short_candidate_is_rejected_by_length() {
    let outcome = interpret_step("LOOKUP(abc)".to_string());
    assert_eq!(reply_text(outcome), "Account must be 64 characters long");
}

#[test]
fn empty_candidate_is_rejected_by_length() {
    let outcome = interpret_step("LOOKUP()".to_string());
    assert_eq!(reply_text(outcome), "Account must be 64 characters long");
}

#[test]
fn sixty_three_hex_characters_are_rejected_by_length() {
    let reply = format!("LOOKUP({})", "a".repeat(63));
    assert_eq!(reply_text(interpret_step(reply)), "Account must be 64 characters long");
}

#[test]
fn extra_closing_parenthesis_lengthens_the_candidate() {
    let outcome = interpret_step("LOOKUP(ab)cd)".to_string());
    assert_eq!(reply_text(outcome), "Account must be 64 characters long");
}

#[test]
fn non_hex_character_is_rejected() {
    let reply = format!("LOOKUP({})", "g".repeat(64));
    assert_eq!(reply_text(interpret_step(reply)), "Invalid account");
}

#[test]
fn one_bad_character_among_hex_is_rejected() {
    let reply = format!("LOOKUP({}x{})", "0".repeat(31), "0".repeat(32));
    assert_eq!(reply_text(interpret_step(reply)), "Invalid account");
}

#[test]
fn valid_candidate_yields_a_balance_query() {
    let candidate = format!("{}ff", "00".repeat(31));
    let account = queried_account(interpret_step(format!("LOOKUP({candidate})")));
    let mut expected = vec![0u8; 31];
    expected.push(0xff);
    assert_eq!(account.to_bytes(), expected);
    assert_eq!(account.to_hex(), candidate);
}

#[test]
fn uppercase_candidate_is_accepted_and_canonicalised() {
    let candidate = "ABCDEF0123456789".repeat(4);
    assert_eq!(candidate.len(), 64);
    let account = queried_account(interpret_step(format!("LOOKUP({candidate})")));
    assert_eq!(account.to_hex(), candidate.to_lowercase());
}

#[test]
fn balance_reply_formats_account_and_amount() {
    let candidate = "ab".repeat(32);
    let account = AccountId::from_hex(&candidate).expect("valid account");
    let text = balance_reply(&account, 250000000);
    assert_eq!(text, format!("Balance of {candidate} is 250000000 ICP"));
}

#[test]
fn balance_reply_shape_holds_for_zero() {
    let account = AccountId::from_hex(&"0".repeat(64)).expect("valid account");
    let text = balance_reply(&account, 0);
    assert!(text.starts_with("Balance of "));
    assert!(text.ends_with(" ICP"));
    assert_eq!(text, format!("Balance of {} is 0 ICP", "0".repeat(64)));
}

#[test]
fn decimal_rendering_is_ordinary() {
    assert_eq!(u64_to_decimal(0), "0");
    assert_eq!(u64_to_decimal(7), "7");
    assert_eq!(u64_to_decimal(10), "10");
    assert_eq!(u64_to_decimal(1000000007), "1000000007");
    assert_eq!(u64_to_decimal(u64::MAX), "18446744073709551615");
}

#[test]
fn canonical_rendering_parses_back_to_the_same_account() {
    let candidate = "00112233445566778899aabbccddeeff".repeat(2);
    let account = AccountId::from_hex(&candidate).expect("valid account");
    let reparsed = AccountId::from_hex(&account.to_hex()).expect("canonical form is valid");
    assert_eq!(reparsed.to_bytes(), account.to_bytes());
    assert_eq!(reparsed.to_hex(), candidate);
}

#[test]
fn account_parsing_succeeds_only_at_length_64() {
    assert!(AccountId::from_hex(&"a".repeat(64)).is_some());
    assert!(AccountId::from_hex(&"a".repeat(63)).is_none());
    assert!(AccountId::from_hex(&"a".repeat(65)).is_none());
    assert!(AccountId::from_hex("").is_none());
}
