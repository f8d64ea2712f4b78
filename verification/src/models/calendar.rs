//! Calendars, their members, and the bodies of the calendar endpoints.

use vstd::prelude::*;
use crate::text::str_equal;
use crate::time::Timestamp;
use crate::validation::{
    ValidationErrors, rule, length_within, optional_length_within, validate_length,
    validate_optional_length,
};

verus! {

/// A stored calendar.
#[derive(Debug, Clone)]
pub struct Calendar {
    pub id: u128,
    pub owner_id: u128,
    pub name: String,
    pub description: Option<String>,
    pub color: String,
    pub is_public: bool,
    pub created_at: Timestamp,
    pub updated_at: Timestamp,
}

/// A user's membership in a calendar, with the role `owner`, `editor` or
/// `viewer`.
#[derive(Debug, Clone)]
pub struct CalendarMember {
    pub calendar_id: u128,
    pub user_id: u128,
    pub role: String,
    pub joined_at: Timestamp,
}

/// `POST /calendars` body.
#[derive(Debug)]
pub struct CreateCalendarRequest {
    pub name: String,
    pub description: Option<String>,
    pub color: Option<String>,
    pub is_public: Option<bool>,
}

/// The rules a calendar creation body fails, in field order.
pub open spec fn create_calendar_failures(r: CreateCalendarRequest) -> Seq<
    (Seq<char>, Seq<char>, Seq<char>),
> {
    rule(
        "name"@,
        "length"@,
        "Name must be 1-255 characters"@,
        length_within(r.name@.len(), Some(1), Some(255)),
    ) + rule(
        "color"@,
        "length"@,
        "Color must be at most 20 characters"@,
        optional_length_within(r.color, None, Some(20)),
    )
}

impl CreateCalendarRequest {
    /// Checks a name of 1 to 255 characters and, when given, a color of at
    /// most 20 characters.
    pub fn validate(&self) -> (res: Result<(), ValidationErrors>)
        ensures
            res is Ok <==> create_calendar_failures(*self).len() == 0,
            res is Ok <==> (1 <= self.name@.len() <= 255 && (self.color is None || self.color->0@.len()
                <= 20)),
            res matches Err(e) ==> e@ == create_calendar_failures(*self),
    {
        let mut errors = ValidationErrors::new();
        errors.check(
            validate_length(self.name.as_str(), Some(1), Some(255)),
            "name",
            "length",
            "Name must be 1-255 characters",
        );
        errors.check(
            validate_optional_length(&self.color, None, Some(20)),
            "color",
            "length",
            "Color must be at most 20 characters",
        );
        errors.into_result()
    }
}

/// `PUT /calendars/{id}` body: every field optional.
#[derive(Debug)]
pub struct UpdateCalendarRequest {
    pub name: Option<String>,
    pub description: Option<String>,
    pub color: Option<String>,
    pub is_public: Option<bool>,
}

/// The rules a calendar update body fails, in field order.
pub open spec fn update_calendar_failures(r: UpdateCalendarRequest) -> Seq<
    (Seq<char>, Seq<char>, Seq<char>),
> {
    rule(
        "name"@,
        "length"@,
        "Name must be 1-255 characters"@,
        optional_length_within(r.name, Some(1), Some(255)),
    ) + rule(
        "color"@,
        "length"@,
        "Color must be at most 20 characters"@,
        optional_length_within(r.color, None, Some(20)),
    )
}

impl UpdateCalendarRequest {
    /// Checks, where given, a name of 1 to 255 characters and a color of at
    /// most 20 characters.
    pub fn validate(&self) -> (res: Result<(), ValidationErrors>)
        ensures
            res is Ok <==> update_calendar_failures(*self).len() == 0,
            res is Ok <==> ((self.name is None || 1 <= self.name->0@.len() <= 255) && (self.color is None
                || self.color->0@.len() <= 20)),
            res matches Err(e) ==> e@ == update_calendar_failures(*self),
    {
        let mut errors = ValidationErrors::new();
        errors.check(
            validate_optional_length(&self.name, Some(1), Some(255)),
            "name",
            "length",
            "Name must be 1-255 characters",
        );
        errors.check(
            validate_optional_length(&self.color, None, Some(20)),
            "color",
            "length",
            "Color must be at most 20 characters",
        );
        errors.into_result()
    }
}

/// `POST /calendars/{id}/members` body.
#[derive(Debug)]
pub struct AddMemberRequest {
    pub user_id: u128,
    /// Allowed values: `editor` and `viewer`.
    pub role: String,
}

/// The roles a member can be given: `editor` and `viewer`.
pub open spec fn is_assignable_role(role: Seq<char>) -> bool {
    role == "editor"@ || role == "viewer"@
}

/// A calendar name is accepted exactly when it has 1 to 255 characters
/// (on update, where given), and a color, where given, when it has at
/// most 20.
pub proof fn lemma_calendar_bodies_accepted(c: CreateCalendarRequest, u: UpdateCalendarRequest)
    ensures
        create_calendar_failures(c).len() == 0 <==> (1 <= c.name@.len() <= 255 && (c.color is None
            || c.color->0@.len() <= 20)),
        update_calendar_failures(u).len() == 0 <==> ((u.name is None || 1 <= u.name->0@.len() <= 255)
            && (u.color is None || u.color->0@.len() <= 20)),
{
}

/// The roles a member can be given are exactly `editor` and `viewer`.
pub proof fn lemma_assignable_roles(role: Seq<char>)
    ensures
        is_assignable_role("editor"@),
        is_assignable_role("viewer"@),
        is_assignable_role(role) ==> role == "editor"@ || role == "viewer"@,
{
}

impl AddMemberRequest {
    /// Whether the requested role is `editor` or `viewer`.
    pub fn is_valid_role(&self) -> (res: bool)
        ensures
            res == is_assignable_role(self.role@),
            res <==> (self.role@ == "editor"@ || self.role@ == "viewer"@),
    {
        str_equal(self.role.as_str(), "editor") || str_equal(self.role.as_str(), "viewer")
    }
}

} // verus!
