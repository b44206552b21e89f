use oncampus::db::Value;
use oncampus::email::Email;
use oncampus::ident::new_user_id;
use oncampus::models::otp::{Otp, RowError};

fn text(t: &str) -> Value {
    Value::Text(t.to_string())
}

fn stored(created_at: i64) -> Otp {
    Otp { email: "alice@dcrustm.org".to_string(), otp: "Ab3dE9".to_string(), created_at }
}

#[test]
fn a_row_reads_as_email_code_and_time() {
    let row = vec![text("alice@dcrustm.org"), text("Ab3dE9"), text("2025-01-01 12:00:00")];
    let otp = Otp::try_from(&row).ok().expect("a stored code");
    assert_eq!(otp.email, "alice@dcrustm.org");
    assert_eq!(otp.otp, "Ab3dE9");
    assert_eq!(otp.created_at, 1_735_732_800);
    let epoch = vec![text("a"), text("b"), text("1970-01-01 00:00:01")];
    assert_eq!(Otp::try_from(&epoch).ok().expect("a stored code").created_at, 1);
}

#[test]
fn a_row_with_a_missing_or_foreign_column_is_no_code() {
    let stamp = "2025-01-01 12:00:00";
    assert!(matches!(Otp::try_from(&vec![]), Err(RowError::Email)));
    assert!(matches!(Otp::try_from(&vec![Value::Null, text("c"), text(stamp)]), Err(RowError::Email)));
    assert!(matches!(Otp::try_from(&vec![text("e")]), Err(RowError::Code)));
    assert!(matches!(Otp::try_from(&vec![text("e"), Value::Integer(1), text(stamp)]), Err(RowError::Code)));
    assert!(matches!(Otp::try_from(&vec![text("e"), text("c")]), Err(RowError::Time)));
    assert!(matches!(Otp::try_from(&vec![text("e"), text("c"), Value::Other]), Err(RowError::Time)));
    assert!(matches!(Otp::try_from(&vec![text("e"), text("c"), text("noon")]), Err(RowError::TimeFormat)));
    assert!(matches!(
        Otp::try_from(&vec![text("e"), text("c"), text("2025-01-01 24:00:00")]),
        Err(RowError::TimeFormat)
    ));
    assert!(matches!(
        Otp::try_from(&vec![text("e"), text("c"), text("2025-01-01T12:00:00")]),
        Err(RowError::TimeFormat)
    ));
}

#[test]
fn a_code_is_good_for_less_than_five_minutes() {
    let otp = stored(1_000);
    assert!(otp.accepts("alice@dcrustm.org", "Ab3dE9", 1_000));
    assert!(otp.accepts("alice@dcrustm.org", "Ab3dE9", 1_299));
    assert!(!otp.accepts("alice@dcrustm.org", "Ab3dE9", 1_300));
    assert!(!otp.accepts("alice@dcrustm.org", "Ab3dE9", 1_360));
    assert!(otp.accepts("alice@dcrustm.org", "Ab3dE9", 0));
}

#[test]
fn a_code_is_good_only_for_its_own_email_and_text() {
    let otp = stored(1_000);
    assert!(!otp.accepts("alice@dcrustm.org", "ab3de9", 1_000));
    assert!(!otp.accepts("alice@dcrustm.org", "Ab3dE", 1_000));
    assert!(!otp.accepts("bob@dcrustm.org", "Ab3dE9", 1_000));
    assert!(!otp.accepts("", "", 1_000));
}

#[test]
fn the_window_does_not_overflow_at_the_ends_of_time() {
    assert!(!stored(i64::MIN).accepts("alice@dcrustm.org", "Ab3dE9", 0));
    assert!(stored(i64::MAX).accepts("alice@dcrustm.org", "Ab3dE9", i64::MAX));
    assert!(stored(i64::MAX - 10).accepts("alice@dcrustm.org", "Ab3dE9", i64::MAX));
    assert!(!stored(i64::MAX - 300).accepts("alice@dcrustm.org", "Ab3dE9", i64::MAX));
}

#[test]
fn generated_codes_are_six_letters_and_digits() {
    let mut seen = std::collections::HashSet::new();
    for _ in 0..200 {
        let code = Email::generate_otp();
        assert_eq!(code.chars().count(), 6);
        assert!(code.chars().all(|c| c.is_ascii_alphanumeric()));
        seen.insert(code);
    }
    assert!(seen.len() > 190);
}

#[test]
fn the_mail_names_the_code() {
    let mail = Email::new("alice@dcrustm.org".to_string(), "Ab3dE9");
    assert_eq!(mail.to, "alice@dcrustm.org");
    assert_eq!(mail.subject, "OnCampus Email Verification");
    assert_eq!(mail.body, "The otp for OnCampus is Ab3dE9");
}

#[test]
fn user_ids_depend_on_the_seed_alone() {
    assert_eq!(new_user_id(42), "1e752a1f-3b49-658c-802a-010203040506");
    assert_eq!(new_user_id(42), new_user_id(42));
    assert_ne!(new_user_id(42), new_user_id(43));
    assert_eq!(new_user_id(0).len(), 36);
}
