//! Field-level validation rules and the error list they produce.

use vstd::prelude::*;
use crate::text::owned;

verus! {

/// One failed rule: the field's name, the rule's code and its message.
#[derive(Debug)]
pub struct FieldError {
    pub field: String,
    pub code: String,
    pub message: String,
}

impl View for FieldError {
    type V = (Seq<char>, Seq<char>, Seq<char>);

    open spec fn view(&self) -> Self::V {
        (self.field@, self.code@, self.message@)
    }
}

/// All rules that a request body failed, in the order of its fields.
#[derive(Debug)]
pub struct ValidationErrors {
    pub errors: Vec<FieldError>,
}

impl View for ValidationErrors {
    type V = Seq<(Seq<char>, Seq<char>, Seq<char>)>;

    open spec fn view(&self) -> Self::V {
        self.errors@.map_values(|e: FieldError| e@)
    }
}

/// The failure entry of one rule: empty when the rule holds.
pub open spec fn rule(field: Seq<char>, code: Seq<char>, message: Seq<char>, holds: bool) -> Seq<
    (Seq<char>, Seq<char>, Seq<char>),
> {
    if holds {
        Seq::empty()
    } else {
        seq![(field, code, message)]
    }
}

/// A length of `len` characters lies within the optional bounds.
pub open spec fn length_within(len: nat, min: Option<u64>, max: Option<u64>) -> bool {
    &&& (match min {
        Some(m) => m <= len,
        None => true,
    })
    &&& (match max {
        Some(m) => len <= m,
        None => true,
    })
}

/// An optional text is absent or has a length within the bounds.
pub open spec fn optional_length_within(s: Option<String>, min: Option<u64>, max: Option<u64>) -> bool {
    match s {
        Some(t) => length_within(t@.len(), min, max),
        None => true,
    }
}

/// A rule that holds contributes no failure; one that fails contributes
/// exactly its field, code and message. A length lies within the bounds
/// exactly when it is at least the lower and at most the upper one, a
/// missing bound being no constraint.
pub proof fn lemma_rules_and_lengths(
    field: Seq<char>,
    code: Seq<char>,
    message: Seq<char>,
    holds: bool,
    len: nat,
    min: u64,
    max: u64,
)
    ensures
        holds ==> rule(field, code, message, holds).len() == 0,
        !holds ==> rule(field, code, message, holds) == seq![(field, code, message)],
        length_within(len, Some(min), Some(max)) <==> min <= len <= max,
        length_within(len, Some(min), None) <==> min <= len,
        length_within(len, None, Some(max)) <==> len <= max,
        length_within(len, None, None),
{
}

/// Whether the `validator` crate accepts a text as an e-mail address
/// (its HTML5-based user part and domain rules, including
/// internationalised domains).
pub uninterp spec fn email_accepted(s: Seq<char>) -> bool;

/// `validator::ValidateEmail::validate_email` on `s`. The contract names
/// the result and states one fact of the crate's source: a text without
/// `@` is never accepted. The rest of the crate's rules are not restated.
#[verifier::external_body]
pub(crate) fn validate_email(s: &str) -> (res: bool)
    ensures
        res == email_accepted(s@),
        !s@.contains('@') ==> !res,
{
    validator::ValidateEmail::validate_email(&s)
}

/// `validator::ValidateLength::validate_length` on `s` with no exact
/// length: true when the number of characters of `s` is at least `min`
/// and at most `max`, a missing bound being no constraint.
#[verifier::external_body]
pub(crate) fn validate_length(s: &str, min: Option<u64>, max: Option<u64>) -> (res: bool)
    ensures
        res == length_within(s@.len(), min, max),
{
    validator::ValidateLength::<u64>::validate_length(s, min, max, None)
}

/// The length rule on an optional field: an absent value passes.
pub fn validate_optional_length(s: &Option<String>, min: Option<u64>, max: Option<u64>) -> (res: bool)
    ensures
        res == optional_length_within(*s, min, max),
{
    match s {
        Some(t) => validate_length(t.as_str(), min, max),
        None => true,
    }
}

impl ValidationErrors {
    /// An empty list.
    pub fn new() -> (res: ValidationErrors)
        ensures
            res@ == Seq::<(Seq<char>, Seq<char>, Seq<char>)>::empty(),
    {
        let res = ValidationErrors { errors: Vec::new() };
        assert(res@ =~= Seq::<(Seq<char>, Seq<char>, Seq<char>)>::empty());
        res
    }

    /// Records a failure of the rule named `code` on `field` unless it holds.
    pub fn check(&mut self, holds: bool, field: &str, code: &str, message: &str)
        ensures
            final(self)@ == old(self)@ + rule(field@, code@, message@, holds),
    {
        if !holds {
            let e = FieldError { field: owned(field), code: owned(code), message: owned(message) };
            let ghost before = self.errors@;
            self.errors.push(e);
            assert(self.errors@ == before.push(e));
            assert(self@ =~= old(self)@ + rule(field@, code@, message@, holds));
        } else {
            assert(old(self)@ + rule(field@, code@, message@, holds) =~= old(self)@);
        }
    }

    /// `Ok` when no rule failed, else the list itself.
    pub fn into_result(self) -> (res: Result<(), ValidationErrors>)
        ensures
            res is Ok <==> self@.len() == 0,
            res matches Err(e) ==> e@ == self@,
    {
        if self.errors.len() == 0 {
            Ok(())
        } else {
            Err(self)
        }
    }
}

} // verus!
