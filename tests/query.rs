use learn_rocket::ident::UserId;
use learn_rocket::params::{Filters, NameGrade};
use learn_rocket::query::{
    lookup_outcome, search_outcome, search_statement, user_request, users_request, BackendError,
    BindValue, Status,
};
use learn_rocket::user::User;

const BASE: &str = "SELECT uuid::text AS uuid, name, age, grade, active FROM users WHERE name LIKE $1 AND grade = $2";

fn user(name: &str, grade: i16, id: u128) -> User {
    User { uuid: UserId { value: id }, name: String::from(name), age: 18, grade, active: true }
}

#[test]
fn search_without_filters_binds_name_and_grade() {
    let st = users_request("john_1", None).unwrap();
    assert_eq!(st.text, BASE);
    assert_eq!(st.binds, vec![BindValue::Text(String::from("%john%")), BindValue::SmallInt(1)]);
}

#[test]
fn search_with_filters_adds_filter_predicate() {
    let st = users_request("john_1", Some(Filters { age: 18, active: false })).unwrap();
    assert_eq!(st.text, format!("{} AND age = $3 AND active = $4", BASE));
    assert_eq!(
        st.binds,
        vec![
            BindValue::Text(String::from("%john%")),
            BindValue::SmallInt(1),
            BindValue::SmallInt(18),
            BindValue::Bool(false),
        ]
    );
}

#[test]
fn search_text_never_holds_user_input() {
    let ng = NameGrade { name: String::from("x' OR '1'='1"), grade: 9 };
    let st = search_statement(&ng, None);
    assert_eq!(st.text, BASE);
    assert_eq!(st.binds[0], BindValue::Text(String::from("%x' OR '1'='1%")));
}

#[test]
fn malformed_segment_is_bad_request() {
    assert_eq!(users_request("john", None), Err(Status::BadRequest));
    assert_eq!(users_request("john_abc", None), Err(Status::BadRequest));
    assert_eq!(users_request("john_1_extra", None), Err(Status::BadRequest));
}

#[test]
fn point_lookup_binds_identifier_text() {
    let st = user_request("3E3DD4AE-3C37-40C6-AA64-7061F284CE28").unwrap();
    assert_eq!(
        st.text,
        "SELECT uuid::text AS uuid, name, age, grade, active FROM users WHERE uuid = $1::uuid"
    );
    assert_eq!(
        st.binds,
        vec![BindValue::Text(String::from("3e3dd4ae-3c37-40c6-aa64-7061f284ce28"))]
    );
}

#[test]
fn malformed_identifier_is_bad_request() {
    assert_eq!(user_request("john"), Err(Status::BadRequest));
    assert_eq!(user_request(""), Err(Status::BadRequest));
}

#[test]
fn point_lookup_outcomes() {
    let u = user("John Doe", 1, 7);
    assert_eq!(lookup_outcome(Ok(vec![u.clone()])), Ok(u));
    assert_eq!(lookup_outcome(Ok(vec![])), Err(Status::NotFound));
    assert_eq!(lookup_outcome(Err(BackendError)), Err(Status::InternalServerError));
}

#[test]
fn search_outcomes() {
    let rows = vec![user("john", 1, 1), user("johnny", 1, 2)];
    assert_eq!(search_outcome(Ok(rows.clone())).unwrap().0, rows);
    assert_eq!(search_outcome(Ok(vec![])), Err(Status::NotFound));
    assert_eq!(search_outcome(Err(BackendError)), Err(Status::InternalServerError));
}

#[test]
fn status_codes() {
    assert_eq!(Status::Success.code(), 200);
    assert_eq!(Status::BadRequest.code(), 400);
    assert_eq!(Status::Forbidden.code(), 403);
    assert_eq!(Status::NotFound.code(), 404);
    assert_eq!(Status::InternalServerError.code(), 500);
}
