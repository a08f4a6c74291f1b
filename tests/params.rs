use learn_rocket::params::{parse_grade, Filters, NameGrade, ParamError};

#[test]
fn grade_accepts_decimal_u8() {
    assert_eq!(parse_grade("0"), Some(0));
    assert_eq!(parse_grade("1"), Some(1));
    assert_eq!(parse_grade("255"), Some(255));
    assert_eq!(parse_grade("007"), Some(7));
    assert_eq!(parse_grade("+7"), Some(7));
}

#[test]
fn grade_rejects_other_text() {
    assert_eq!(parse_grade(""), None);
    assert_eq!(parse_grade("+"), None);
    assert_eq!(parse_grade("256"), None);
    assert_eq!(parse_grade("99999999999"), None);
    assert_eq!(parse_grade("-1"), None);
    assert_eq!(parse_grade("1a"), None);
    assert_eq!(parse_grade("abc"), None);
    assert_eq!(parse_grade(" 1"), None);
}

#[test]
fn name_grade_splits_well_formed_segment() {
    let ng = NameGrade::from_param("john_1").unwrap();
    assert_eq!(ng.name, "john");
    assert_eq!(ng.grade, 1);
    let ng = NameGrade::from_param("John Doe_255").unwrap();
    assert_eq!(ng.name, "John Doe");
    assert_eq!(ng.grade, 255);
    let ng = NameGrade::from_param("_3").unwrap();
    assert_eq!(ng.name, "");
    assert_eq!(ng.grade, 3);
}

#[test]
fn name_grade_rejects_malformed_segment() {
    assert_eq!(NameGrade::from_param("john"), Err(ParamError::Malformed));
    assert_eq!(NameGrade::from_param("john_abc"), Err(ParamError::Malformed));
    assert_eq!(NameGrade::from_param("john_1_extra"), Err(ParamError::Malformed));
    assert_eq!(NameGrade::from_param("john_256"), Err(ParamError::Malformed));
    assert_eq!(NameGrade::from_param("john_"), Err(ParamError::Malformed));
    assert_eq!(NameGrade::from_param(""), Err(ParamError::Malformed));
}

#[test]
fn param_error_message() {
    assert_eq!(ParamError::Malformed.message(), "Error parsing user parameter");
}

#[test]
fn filters_hold_their_values() {
    let f = Filters { age: 18, active: true };
    assert_eq!(f.age, 18);
    assert!(f.active);
}
