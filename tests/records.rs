use learn_rocket::ident::UserId;
use learn_rocket::user::{NewUser, User};

const JOHN_ID: &str = "3e3dd4ae-3c37-40c6-aa64-7061f284ce28";

fn john() -> User {
    User {
        uuid: UserId { value: 0x3e3dd4ae3c3740c6aa647061f284ce28 },
        name: String::from("John Doe"),
        age: 18,
        grade: 1,
        active: true,
    }
}

#[test]
fn identifier_parses_hyphenated_text() {
    let id = UserId::parse(JOHN_ID).unwrap();
    assert_eq!(id.value, 0x3e3dd4ae3c3740c6aa647061f284ce28);
    let upper = UserId::parse("3E3DD4AE-3C37-40C6-AA64-7061F284CE28").unwrap();
    assert_eq!(upper, id);
}

#[test]
fn identifier_rejects_malformed_text() {
    assert_eq!(UserId::parse("not-a-uuid"), None);
    assert_eq!(UserId::parse(""), None);
    assert_eq!(UserId::parse("3e3dd4ae-3c37-40c6-aa64-7061f284ce2"), None);
}

#[test]
fn identifier_text_is_hyphenated_lower_hex() {
    let id = UserId { value: 0x3e3dd4ae3c3740c6aa647061f284ce28 };
    assert_eq!(id.to_text(), JOHN_ID);
    assert_eq!(UserId { value: 1 }.to_text(), "00000000-0000-0000-0000-000000000001");
}

#[test]
fn random_identifiers_differ() {
    let a = UserId::random();
    let b = UserId::random();
    assert_ne!(a, b);
    assert_eq!(UserId::parse(&a.to_text()), Some(a));
}

#[test]
fn user_summary_lists_every_field() {
    assert_eq!(
        john().summary(),
        "User { uuid: 3e3dd4ae-3c37-40c6-aa64-7061f284ce28, name: \"John Doe\", age: 18, grade: 1, active: true }"
    );
    let mut u = john();
    u.age = -3;
    u.active = false;
    assert!(u.summary().contains("age: -3"));
    assert!(u.summary().ends_with("active: false }"));
}

#[test]
fn user_summary_escapes_name_as_debug_does() {
    let mut u = john();
    u.name = String::from("\"");
    assert_eq!(
        u.summary(),
        "User { uuid: 3e3dd4ae-3c37-40c6-aa64-7061f284ce28, name: \"\\\"\", age: 18, grade: 1, active: true }"
    );
    u.name = String::from("a\\b\nc");
    assert!(u.summary().contains("name: \"a\\\\b\\nc\","));
    assert!(u.summary().contains(&format!("name: {:?},", u.name)));
}

#[test]
fn random_identifiers_are_version_4() {
    let text = UserId::random().to_text();
    assert_eq!(text.as_bytes()[14], b'4');
    assert!(matches!(text.as_bytes()[19], b'8' | b'9' | b'a' | b'b'));
}

#[test]
fn collection_summaries_are_comma_joined() {
    let mut jane = john();
    jane.name = String::from("Jane");
    jane.uuid = UserId { value: 2 };
    let all = NewUser(vec![john(), jane.clone()]);
    assert_eq!(all.summaries(), format!("{},{}", john().summary(), jane.summary()));
    assert_eq!(NewUser(vec![john()]).summaries(), john().summary());
    assert_eq!(NewUser(vec![]).summaries(), "");
}
