//! Decoding of route parameters: the compound `<name>_<grade>` segment and
//! the optional `age` / `active` query filters.
use vstd::prelude::*;

verus! {

/// The delimiter between the name and the grade of a compound segment.
pub const NAME_GRADE_DELIMITER: char = '_';

pub open spec fn is_digit(c: char) -> bool {
    '0' <= c && c <= '9'
}

pub open spec fn digit_value(c: char) -> nat {
    (c as u32 - '0' as u32) as nat
}

pub open spec fn all_digits(s: Seq<char>) -> bool {
    forall|i: int| 0 <= i < s.len() ==> is_digit(#[trigger] s[i])
}

/// The number written by a sequence of decimal digits, most significant first.
pub open spec fn digits_value(s: Seq<char>) -> nat
    decreases s.len(),
{
    if s.len() == 0 {
        0
    } else {
        digits_value(s.drop_last()) * 10 + digit_value(s.last())
    }
}

/// The digits of a grade text: a single leading `+` is allowed and dropped.
pub open spec fn unsigned_digits(s: Seq<char>) -> Seq<char> {
    if s.len() > 0 && s[0] == '+' {
        s.drop_first()
    } else {
        s
    }
}

/// The grade that a text denotes: one or more decimal digits, optionally
/// preceded by `+`, whose value fits in a `u8`.
pub open spec fn grade_of(s: Seq<char>) -> Option<u8> {
    let d = unsigned_digits(s);
    if d.len() > 0 && all_digits(d) && digits_value(d) <= 255 {
        Some(digits_value(d) as u8)
    } else {
        None
    }
}


pub open spec fn capped(n: nat) -> nat {
    if n > 256 {
        256
    } else {
        n
    }
}

proof fn lemma_capped_step(a: nat, d: nat)
    requires
        d < 10,
    ensures
        capped(capped(a) * 10 + d) == capped(a * 10 + d),
{
}

proof fn lemma_digits_prefix(s: Seq<char>, k: int)
    requires
        0 <= k < s.len(),
    ensures
        s.subrange(0, k + 1).drop_last() == s.subrange(0, k),
        s.subrange(0, k + 1).last() == s[k],
{
    assert(s.subrange(0, k + 1).drop_last() =~= s.subrange(0, k));
}

/// Reads a grade: decimal digits after an optional `+`, at most 255.
pub fn parse_grade(text: &str) -> (r: Option<u8>)
    ensures
        r == grade_of(text@),
{
    let len = text.unicode_len();
    let mut start: usize = 0;
    if len > 0 && text.get_char(0) == '+' {
        start = 1;
    }
    proof {
        assert(text@.subrange(start as int, len as int) =~= unsigned_digits(text@));
    }
    if start == len {
        return None;
    }
    let ghost d = unsigned_digits(text@);
    let mut value: u32 = 0;
    let mut i: usize = start;
    while i < len
        invariant
            start <= i <= len,
            len == text@.len(),
            start < len,
            d == text@.subrange(start as int, len as int),
            d == unsigned_digits(text@),
            all_digits(d.subrange(0, i - start)),
            value as nat == capped(digits_value(d.subrange(0, i - start))),
        decreases len - i,
    {
        let c = text.get_char(i);
        if c < '0' || c > '9' {
            proof {
                assert(d[i - start] == c);
                assert(!all_digits(d));
            }
            return None;
        }
        let digit = (c as u32) - ('0' as u32);
        proof {
            lemma_digits_prefix(d, i - start);
            lemma_capped_step(digits_value(d.subrange(0, i - start)), digit as nat);
            assert(d[i - start] == c);
        }
        value = if value * 10 + digit > 256 {
            256
        } else {
            value * 10 + digit
        };
        i = i + 1;
        proof {
            assert(d.subrange(0, i - start) =~= d.subrange(0, i - 1 - start).push(c));
        }
    }
    proof {
        assert(d.subrange(0, len - start) =~= d);
    }
    if value <= 255 {
        Some(value as u8)
    } else {
        None
    }
}


pub open spec fn delimiter_free(s: Seq<char>) -> bool {
    forall|i: int| 0 <= i < s.len() ==> #[trigger] s[i] != NAME_GRADE_DELIMITER
}

/// `i` is the position of the one and only delimiter of `s`.
pub open spec fn is_sole_delimiter(s: Seq<char>, i: int) -> bool {
    &&& 0 <= i < s.len()
    &&& s[i] == NAME_GRADE_DELIMITER
    &&& delimiter_free(s.take(i))
    &&& delimiter_free(s.skip(i + 1))
}

/// The name and grade of a compound segment: it splits on the delimiter into
/// exactly two parts, and the second one is a grade.
pub open spec fn name_grade_of(s: Seq<char>) -> Option<(Seq<char>, u8)> {
    if exists|i: int| is_sole_delimiter(s, i) {
        let i = choose|i: int| is_sole_delimiter(s, i);
        match grade_of(s.skip(i + 1)) {
            Some(g) => Some((s.take(i), g)),
            None => None,
        }
    } else {
        None
    }
}

/// A segment has at most one sole delimiter.
pub proof fn lemma_sole_delimiter_unique(s: Seq<char>, i: int, j: int)
    requires
        is_sole_delimiter(s, i),
        is_sole_delimiter(s, j),
    ensures
        i == j,
{
    if i < j {
        assert(s.take(j)[i] == s[i]);
    } else if j < i {
        assert(s.take(i)[j] == s[j]);
    }
}

proof fn lemma_two_delimiters(s: Seq<char>, p: int, q: int)
    requires
        0 <= p < q < s.len(),
        s[p] == NAME_GRADE_DELIMITER,
        s[q] == NAME_GRADE_DELIMITER,
    ensures
        !exists|i: int| is_sole_delimiter(s, i),
{
    assert forall|i: int| !is_sole_delimiter(s, i) by {
        if is_sole_delimiter(s, i) {
            if p < i {
                assert(s.take(i)[p] == s[p]);
            } else if p > i {
                assert(s.skip(i + 1)[p - i - 1] == s[p]);
            } else {
                assert(s.skip(i + 1)[q - i - 1] == s[q]);
            }
        }
    }
}

/// A segment written as a name and a grade text around one delimiter, with
/// no delimiter in either part, decodes to exactly that name and the grade
/// that the text denotes; it is refused exactly when the text is no grade.
/// A segment with no delimiter, or with two or more, is refused.
pub proof fn lemma_name_grade_round_trip(name: Seq<char>, grade_text: Seq<char>)
    requires
        delimiter_free(name),
        delimiter_free(grade_text),
    ensures
        name_grade_of(name + seq![NAME_GRADE_DELIMITER] + grade_text) == match grade_of(
            grade_text,
        ) {
            Some(g) => Some((name, g)),
            None => None,
        },
        name_grade_of(name) is None,
        forall|rest: Seq<char>|
            name_grade_of(
                #[trigger] (name + seq![NAME_GRADE_DELIMITER] + grade_text + seq![
                    NAME_GRADE_DELIMITER,
                ] + rest),
            ) is None,
{
    let s = name + seq![NAME_GRADE_DELIMITER] + grade_text;
    let p = name.len() as int;
    assert(s.take(p) =~= name);
    assert(s.skip(p + 1) =~= grade_text);
    assert(s[p] == NAME_GRADE_DELIMITER);
    assert(is_sole_delimiter(s, p));
    let i = choose|i: int| is_sole_delimiter(s, i);
    lemma_sole_delimiter_unique(s, i, p);
    assert forall|i: int| !is_sole_delimiter(name, i) by {
        if is_sole_delimiter(name, i) {
            assert(name[i] == NAME_GRADE_DELIMITER);
        }
    }
    assert forall|rest: Seq<char>|
        name_grade_of(
            #[trigger] (name + seq![NAME_GRADE_DELIMITER] + grade_text + seq![
                NAME_GRADE_DELIMITER,
            ] + rest),
        ) is None by {
        let t = name + seq![NAME_GRADE_DELIMITER] + grade_text + seq![NAME_GRADE_DELIMITER]
            + rest;
        let q = p + 1 + grade_text.len();
        assert(t[p] == NAME_GRADE_DELIMITER);
        assert(t[q] == NAME_GRADE_DELIMITER);
        lemma_two_delimiters(t, p, q);
    }
}

/// Optional query filters of a collection search.
#[derive(Debug, Clone, Copy, PartialEq, Eq, Structural)]
pub struct Filters {
    pub age: u8,
    pub active: bool,
}

/// Why a route parameter was refused.
#[derive(Debug, Clone, Copy, PartialEq, Eq, Structural)]
pub enum ParamError {
    /// The segment is not `<name>_<grade>` with a grade in `0..=255`.
    Malformed,
}

impl ParamError {
    /// The text reported for the refusal.
    pub fn message(&self) -> (r: &'static str)
        ensures
            r@ == "Error parsing user parameter"@,
    {
        "Error parsing user parameter"
    }
}

/// The decoded `<name>_<grade>` path segment.
#[derive(Debug, Clone, PartialEq, Eq)]
pub struct NameGrade {
    pub name: String,
    pub grade: u8,
}

/// The first delimiter of `s` at or after `from`.
fn find_delimiter(s: &str, from: usize) -> (r: Option<usize>)
    requires
        from <= s@.len(),
    ensures
        match r {
            Some(p) => {
                &&& from <= p < s@.len()
                &&& s@[p as int] == NAME_GRADE_DELIMITER
                &&& forall|j: int| from <= j < p ==> s@[j] != NAME_GRADE_DELIMITER
            },
            None => forall|j: int| from <= j < s@.len() ==> s@[j] != NAME_GRADE_DELIMITER,
        },
{
    let len = s.unicode_len();
    let mut i: usize = from;
    while i < len
        invariant
            from <= i <= len,
            len == s@.len(),
            forall|j: int| from <= j < i ==> s@[j] != NAME_GRADE_DELIMITER,
        decreases len - i,
    {
        if s.get_char(i) == NAME_GRADE_DELIMITER {
            return Some(i);
        }
        i = i + 1;
    }
    None
}

impl NameGrade {
    /// Decodes a `<name>_<grade>` segment. It succeeds exactly when the
    /// segment holds one delimiter and the text after it is a grade; the name
    /// is the text before it.
    pub fn from_param(param: &str) -> (r: Result<NameGrade, ParamError>)
        ensures
            match r {
                Ok(ng) => name_grade_of(param@) == Some((ng.name@, ng.grade)),
                Err(e) => name_grade_of(param@) is None && e == ParamError::Malformed,
            },
    {
        let len = param.unicode_len();
        let first = find_delimiter(param, 0);
        let p = match first {
            None => {
                proof {
                    assert forall|i: int| !is_sole_delimiter(param@, i) by {
                        if is_sole_delimiter(param@, i) {
                            assert(param@[i] == NAME_GRADE_DELIMITER);
                        }
                    }
                }
                return Err(ParamError::Malformed);
            },
            Some(p) => p,
        };
        match find_delimiter(param, p + 1) {
            Some(q) => {
                proof {
                    lemma_two_delimiters(param@, p as int, q as int);
                }
                return Err(ParamError::Malformed);
            },
            None => {},
        }
        let ghost s = param@;
        proof {
            assert forall|j: int| 0 <= j < s.take(p as int).len() implies #[trigger] s.take(
                p as int,
            )[j] != NAME_GRADE_DELIMITER by {
                assert(s.take(p as int)[j] == s[j]);
            }
            assert forall|j: int| 0 <= j < s.skip(p + 1).len() implies #[trigger] s.skip(
                p + 1,
            )[j] != NAME_GRADE_DELIMITER by {
                assert(s.skip(p + 1)[j] == s[p + 1 + j]);
            }
            assert(is_sole_delimiter(s, p as int));
            let i = choose|i: int| is_sole_delimiter(s, i);
            lemma_sole_delimiter_unique(s, i, p as int);
        }
        let name = param.substring_char(0, p);
        let grade_text = param.substring_char(p + 1, len);
        proof {
            assert(name@ =~= s.take(p as int));
            assert(grade_text@ =~= s.skip(p + 1));
        }
        match parse_grade(grade_text) {
            Some(grade) => Ok(NameGrade { name: name.to_owned(), grade }),
            None => Err(ParamError::Malformed),
        }
    }
}

} // verus!
