//! Parameterized statements for the two lookups, and how their results map
//! to outcomes. User input only ever travels as a bound parameter: the text
//! of a statement is one of a few fixed strings.
use vstd::prelude::*;
use crate::ident::{has_uuid_length, uuid_parse_of, uuid_text_of, UserId};
use crate::params::{name_grade_of, Filters, NameGrade};
use crate::user::{NewUser, User};

verus! {

/// The outcome of a request, as an HTTP status.
#[derive(Debug, Clone, Copy, PartialEq, Eq, Structural)]
pub enum Status {
    Success,
    BadRequest,
    Forbidden,
    NotFound,
    InternalServerError,
}

pub open spec fn status_code(s: Status) -> u16 {
    match s {
        Status::Success => 200,
        Status::BadRequest => 400,
        Status::Forbidden => 403,
        Status::NotFound => 404,
        Status::InternalServerError => 500,
    }
}

impl Status {
    /// The numeric HTTP status code.
    pub fn code(&self) -> (r: u16)
        ensures
            r == status_code(*self),
    {
        match self {
            Status::Success => 200,
            Status::BadRequest => 400,
            Status::Forbidden => 403,
            Status::NotFound => 404,
            Status::InternalServerError => 500,
        }
    }
}

/// A storage or transport failure. Its detail is not kept, so it can never
/// reach a response.
#[derive(Debug, Clone, Copy, PartialEq, Eq, Structural)]
pub struct BackendError;

/// A value bound to a statement parameter.
#[derive(Debug, Clone, PartialEq, Eq)]
pub enum BindValue {
    Text(String),
    SmallInt(i16),
    Bool(bool),
}

/// A statement text with the values bound to `$1`, `$2`, ... in order.
#[derive(Debug, Clone, PartialEq, Eq)]
pub struct Statement {
    pub text: String,
    pub binds: Vec<BindValue>,
}

pub open spec fn lookup_text() -> Seq<char> {
    "SELECT uuid::text AS uuid, name, age, grade, active FROM users WHERE uuid = $1::uuid"@
}

pub open spec fn search_base_text() -> Seq<char> {
    "SELECT uuid::text AS uuid, name, age, grade, active FROM users WHERE name LIKE $1 AND grade = $2"@
}

pub open spec fn filter_clause_text() -> Seq<char> {
    " AND age = $3 AND active = $4"@
}

/// The text of a collection search: the base predicate, and the filter
/// predicate exactly when filters are given.
pub open spec fn search_text(filtered: bool) -> Seq<char> {
    if filtered {
        search_base_text() + filter_clause_text()
    } else {
        search_base_text()
    }
}

/// The pattern that matches every name containing `name`.
pub open spec fn contains_pattern(name: Seq<char>) -> Seq<char> {
    seq!['%'] + name + seq!['%']
}

pub open spec fn is_text_bind(b: BindValue, t: Seq<char>) -> bool {
    b matches BindValue::Text(s) && s@ == t
}

/// The statement that looks a user up by identifier.
pub fn lookup_statement(id: UserId) -> (r: Statement)
    ensures
        r.text@ == lookup_text(),
        r.binds@.len() == 1,
        is_text_bind(r.binds@[0], uuid_text_of(id.value)),
{
    let text = String::from_str(
        "SELECT uuid::text AS uuid, name, age, grade, active FROM users WHERE uuid = $1::uuid",
    );
    let mut binds: Vec<BindValue> = Vec::new();
    binds.push(BindValue::Text(id.to_text()));
    Statement { text, binds }
}

/// The statement of a collection search: name contains the given name and
/// grade equals the given grade; with filters, also age and active equal
/// theirs.
pub fn search_statement(name_grade: &NameGrade, filters: Option<Filters>) -> (r: Statement)
    ensures
        r.text@ == search_text(filters is Some),
        is_text_bind(r.binds@[0], contains_pattern(name_grade.name@)),
        r.binds@[1] == BindValue::SmallInt(name_grade.grade as i16),
        match filters {
            Some(f) => {
                &&& r.binds@.len() == 4
                &&& r.binds@[2] == BindValue::SmallInt(f.age as i16)
                &&& r.binds@[3] == BindValue::Bool(f.active)
            },
            None => r.binds@.len() == 2,
        },
{
    let mut text = String::from_str(
        "SELECT uuid::text AS uuid, name, age, grade, active FROM users WHERE name LIKE $1 AND grade = $2",
    );
    let mut pattern = String::from_str("%");
    pattern.append(name_grade.name.as_str());
    pattern.append("%");
    proof {
        reveal_strlit("%");
        assert(pattern@ =~= contains_pattern(name_grade.name@));
    }
    let mut binds: Vec<BindValue> = Vec::new();
    binds.push(BindValue::Text(pattern));
    binds.push(BindValue::SmallInt(name_grade.grade as i16));
    match filters {
        Some(f) => {
            text.append(" AND age = $3 AND active = $4");
            binds.push(BindValue::SmallInt(f.age as i16));
            binds.push(BindValue::Bool(f.active));
        },
        None => {},
    }
    Statement { text, binds }
}

/// The statement for `GET /user/<identifier>`; a text that is no
/// identifier is a bad request.
pub fn user_request(identifier: &str) -> (r: Result<Statement, Status>)
    ensures
        match uuid_parse_of(identifier@) {
            Some(v) => r matches Ok(st) && st.text@ == lookup_text() && st.binds@.len() == 1
                && is_text_bind(st.binds@[0], uuid_text_of(v)),
            None => r == Err::<Statement, Status>(Status::BadRequest),
        },
        !has_uuid_length(identifier@) ==> r == Err::<Statement, Status>(Status::BadRequest),
        forall|v: u128|
            #[trigger] uuid_text_of(v) == identifier@ ==> (r matches Ok(st) && is_text_bind(
                st.binds@[0],
                uuid_text_of(v),
            )),
{
    match UserId::parse(identifier) {
        Some(id) => Ok(lookup_statement(id)),
        None => Err(Status::BadRequest),
    }
}


/// The statement for `GET /users/<name>_<grade>?<filters>`; a segment that
/// is not `<name>_<grade>` is a bad request.
pub fn users_request(segment: &str, filters: Option<Filters>) -> (r: Result<Statement, Status>)
    ensures
        match name_grade_of(segment@) {
            Some((name, grade)) => r matches Ok(st) && st.text@ == search_text(filters is Some)
                && is_text_bind(st.binds@[0], contains_pattern(name)) && st.binds@[1]
                == BindValue::SmallInt(grade as i16) && st.binds@.len() == if filters is Some {
                4int
            } else {
                2int
            },
            None => r == Err::<Statement, Status>(Status::BadRequest),
        },
{
    match NameGrade::from_param(segment) {
        Ok(ng) => Ok(search_statement(&ng, filters)),
        Err(_) => Err(Status::BadRequest),
    }
}

/// What a point lookup answers: a storage failure is an internal error, no
/// row is "not found", and otherwise the first row is the user.
pub fn lookup_outcome(rows: Result<Vec<User>, BackendError>) -> (r: Result<User, Status>)
    ensures
        match rows {
            Err(_) => r == Err::<User, Status>(Status::InternalServerError),
            Ok(v) => if v@.len() == 0 {
                r == Err::<User, Status>(Status::NotFound)
            } else {
                r == Ok::<User, Status>(v@[0])
            },
        },
{
    match rows {
        Err(_) => Err(Status::InternalServerError),
        Ok(mut v) => {
            if v.len() == 0 {
                Err(Status::NotFound)
            } else {
                Ok(v.remove(0))
            }
        },
    }
}

/// What a collection search answers: a storage failure is an internal
/// error, an empty result is "not found", and otherwise all rows, in order.
pub fn search_outcome(rows: Result<Vec<User>, BackendError>) -> (r: Result<NewUser, Status>)
    ensures
        match rows {
            Err(_) => r == Err::<NewUser, Status>(Status::InternalServerError),
            Ok(v) => if v@.len() == 0 {
                r == Err::<NewUser, Status>(Status::NotFound)
            } else {
                r matches Ok(n) && n.0@ == v@
            },
        },
{
    match rows {
        Err(_) => Err(Status::InternalServerError),
        Ok(v) => {
            if v.len() == 0 {
                Err(Status::NotFound)
            } else {
                Ok(NewUser(v))
            }
        },
    }
}

} // verus!
