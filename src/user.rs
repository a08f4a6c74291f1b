//! The user record read from storage, and its textual summary.
use vstd::prelude::*;
use crate::ident::{uuid_text_of, UserId};

verus! {

pub open spec fn decimal_char(d: nat) -> char
    recommends
        d < 10,
{
    seq!['0', '1', '2', '3', '4', '5', '6', '7', '8', '9'][d as int]
}

/// The decimal digits of `n`, without leading zeros.
pub open spec fn nat_text(n: nat) -> Seq<char>
    decreases n,
{
    if n < 10 {
        seq![decimal_char(n)]
    } else {
        nat_text(n / 10).push(decimal_char(n % 10))
    }
}

/// The decimal text of an integer, with a leading `-` when it is negative.
pub open spec fn int_text(n: int) -> Seq<char> {
    if n < 0 {
        seq!['-'] + nat_text((-n) as nat)
    } else {
        nat_text(n as nat)
    }
}

pub open spec fn bool_text(b: bool) -> Seq<char> {
    if b {
        "true"@
    } else {
        "false"@
    }
}

/// Relies on the `Display` of `i16` (through `ToString::to_string`): plain
/// decimal digits, with a leading `-` for a negative value.
#[verifier::external_body]
fn small_int_text(n: i16) -> (r: String)
    ensures
        r@ == int_text(n as int),
{
    n.to_string()
}

/// The `Debug` text of a string: quoted, with quotes, backslashes and
/// control characters escaped.
pub uninterp spec fn debug_text_of(s: Seq<char>) -> Seq<char>;

/// Relies on the `Debug` of `str` (through `format!("{:?}", ..)`): the
/// string between double quotes, escaped as Rust writes string literals.
#[verifier::external_body]
fn debug_text(s: &str) -> (r: String)
    ensures
        r@ == debug_text_of(s@),
{
    format!("{:?}", s)
}

/// A user record; storage owns it and the pipeline only reads it.
#[derive(Debug, Clone, PartialEq, Eq)]
pub struct User {
    pub uuid: UserId,
    pub name: String,
    pub age: i16,
    pub grade: i16,
    pub active: bool,
}

/// The one-line summary of a user:
/// `User { uuid: <id>, name: <debug text of name>, age: <n>, grade: <n>, active: <bool> }`,
/// as `Debug` writes the record.
pub open spec fn summary_of(u: User) -> Seq<char> {
    "User { uuid: "@ + uuid_text_of(u.uuid.value) + ", name: "@ + debug_text_of(u.name@) + ", age: "@
        + int_text(u.age as int) + ", grade: "@ + int_text(u.grade as int) + ", active: "@
        + bool_text(u.active) + " }"@
}

impl User {
    /// The one-line summary of the record.
    pub fn summary(&self) -> (r: String)
        ensures
            r@ == summary_of(*self),
    {
        let mut s = String::from_str("User { uuid: ");
        let id = self.uuid.to_text();
        s.append(id.as_str());
        s.append(", name: ");
        let name = debug_text(self.name.as_str());
        s.append(name.as_str());
        s.append(", age: ");
        let age = small_int_text(self.age);
        s.append(age.as_str());
        s.append(", grade: ");
        let grade = small_int_text(self.grade);
        s.append(grade.as_str());
        s.append(", active: ");
        if self.active {
            s.append("true");
        } else {
            s.append("false");
        }
        s.append(" }");
        s
    }
}


/// A non-empty collection of users found by a search.
#[derive(Debug, Clone, PartialEq, Eq)]
pub struct NewUser(pub Vec<User>);

/// The summaries of the users, in order, separated by commas.
pub open spec fn joined_summaries(us: Seq<User>) -> Seq<char>
    decreases us.len(),
{
    if us.len() == 0 {
        seq![]
    } else if us.len() == 1 {
        summary_of(us[0])
    } else {
        joined_summaries(us.drop_last()) + seq![','] + summary_of(us.last())
    }
}

impl NewUser {
    /// The summaries of all users, in order, separated by commas.
    pub fn summaries(&self) -> (r: String)
        ensures
            r@ == joined_summaries(self.0@),
    {
        let mut s = String::new();
        let n = self.0.len();
        let mut i: usize = 0;
        while i < n
            invariant
                i <= n,
                n == self.0@.len(),
                s@ == joined_summaries(self.0@.take(i as int)),
            decreases n - i,
        {
            proof {
                assert(self.0@.take(i + 1).drop_last() =~= self.0@.take(i as int));
            }
            if i > 0 {
                s.append(",");
            }
            let one = self.0[i].summary();
            s.append(one.as_str());
            proof {
                reveal_strlit(",");
                if i == 0 {
                    assert(s@ =~= joined_summaries(self.0@.take(1)));
                } else {
                    assert(s@ =~= joined_summaries(self.0@.take(i + 1)));
                }
            }
            i = i + 1;
        }
        proof {
            assert(self.0@.take(n as int) =~= self.0@);
        }
        s
    }
}

} // verus!
