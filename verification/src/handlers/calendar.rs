//! Decisions of the calendar endpoints: who may see, change and delete a
//! calendar and manage its members.

use vstd::prelude::*;
use crate::encoding::{uuid_text, uuid_to_string};
use crate::errors::{AppError, is_not_found, is_forbidden, is_bad_request};
use crate::models::calendar::{
    AddMemberRequest, Calendar, CalendarMember, CreateCalendarRequest, is_assignable_role,
};
use crate::text::{join3, owned, str_equal};

verus! {

/// `Calendar <id> not found`.
pub open spec fn calendar_not_found_message(id: u128) -> Seq<char> {
    "Calendar "@ + uuid_text(id) + " not found"@
}

/// The calendar that a lookup by `calendar_id` found, or a 404 naming the
/// id.
pub fn found_calendar(calendar_id: u128, found: Option<Calendar>) -> (res: Result<
    Calendar,
    AppError,
>)
    ensures
        match res {
            Ok(c) => found == Some(c),
            Err(e) => found is None && is_not_found(e, calendar_not_found_message(calendar_id)),
        },
{
    match found {
        Some(c) => Ok(c),
        None => {
            let id = uuid_to_string(calendar_id);
            Err(AppError::NotFound(join3("Calendar ", id.as_str(), " not found")))
        },
    }
}

/// Whether a user may see a calendar: it is public, the user owns it, or
/// the user is a member of it.
pub open spec fn may_view(calendar: Calendar, user_id: u128, member: Option<CalendarMember>) -> bool {
    calendar.is_public || member is Some || calendar.owner_id == user_id
}

/// Whether a user may change a calendar: the user owns it or is a member
/// with the role `editor` or `owner`.
pub open spec fn may_edit(calendar: Calendar, user_id: u128, member: Option<CalendarMember>) -> bool {
    calendar.owner_id == user_id || (member matches Some(m) && (m.role@ == "editor"@ || m.role@
        == "owner"@))
}

/// Whether a user may delete a calendar or manage its members: the owner
/// only.
pub open spec fn is_owner(calendar: Calendar, user_id: u128) -> bool {
    calendar.owner_id == user_id
}

/// Whether a user may remove `target` from a calendar: the owner may
/// remove anyone, and anyone may remove themselves.
pub open spec fn may_remove_member(calendar: Calendar, user_id: u128, target: u128) -> bool {
    calendar.owner_id == user_id || target == user_id
}

/// Whether the caller's membership must be looked up before deciding
/// access: only for a calendar that is not public.
pub fn needs_membership(calendar: &Calendar) -> (res: bool)
    ensures
        res == !calendar.is_public,
{
    !calendar.is_public
}

/// Read access to a calendar, given the caller's membership (`None` when
/// the caller is no member, or when it was not looked up because the
/// calendar is public).
pub fn check_view(calendar: &Calendar, user_id: u128, member: &Option<CalendarMember>) -> (res:
    Result<(), AppError>)
    ensures
        res is Ok <==> may_view(*calendar, user_id, *member),
        res is Ok <==> (calendar.is_public || member is Some || calendar.owner_id == user_id),
        res matches Err(e) ==> is_forbidden(e, "You do not have access to this calendar"@),
{
    if !calendar.is_public {
        if member.is_none() && calendar.owner_id != user_id {
            return Err(AppError::Forbidden(owned("You do not have access to this calendar")));
        }
    }
    Ok(())
}

/// Whether the membership has the role `editor` or `owner`.
fn is_editor_role(member: &Option<CalendarMember>) -> (res: bool)
    ensures
        res == (member matches Some(m) && (m.role@ == "editor"@ || m.role@ == "owner"@)),
{
    match member {
        Some(m) => str_equal(m.role.as_str(), "editor") || str_equal(m.role.as_str(), "owner"),
        None => false,
    }
}

/// Where a check of read access to a calendar stands. The check asks for
/// the calendar, and, only when it is private, for the caller's
/// membership.
#[derive(Debug)]
pub enum CalendarAccess {
    /// The calendar `calendar_id` has been asked for.
    AwaitingCalendar { calendar_id: u128, user_id: u128 },
    /// The calendar is private; the caller's membership has been asked for.
    AwaitingMembership { calendar: Calendar, user_id: u128 },
}

/// What the check does next.
#[derive(Debug)]
pub enum AccessStep {
    /// Look up the caller's membership of the calendar, then hand it to
    /// the returned state.
    LoadMembership(CalendarAccess),
    /// The caller may see the calendar.
    Granted(Calendar),
    /// The caller may not, or the calendar does not exist.
    Refused(AppError),
}

impl CalendarAccess {
    /// Starts a check: the caller must look up `calendar_id`.
    pub fn start(calendar_id: u128, user_id: u128) -> (res: CalendarAccess)
        ensures
            res == (CalendarAccess::AwaitingCalendar { calendar_id, user_id }),
    {
        CalendarAccess::AwaitingCalendar { calendar_id, user_id }
    }

    /// The calendar lookup returned `found`: a missing calendar is a 404,
    /// a public one is granted, and a private one needs the membership.
    pub fn calendar_loaded(self, found: Option<Calendar>) -> (step: AccessStep)
        requires
            self is AwaitingCalendar,
        ensures
            match (self, found) {
                (CalendarAccess::AwaitingCalendar { calendar_id, user_id }, None) => step matches AccessStep::Refused(
                    e,
                ) && is_not_found(e, calendar_not_found_message(calendar_id)),
                (CalendarAccess::AwaitingCalendar { calendar_id, user_id }, Some(c)) => if c.is_public {
                    step matches AccessStep::Granted(g) && g == c
                } else {
                    step matches AccessStep::LoadMembership(next) && next == (
                    CalendarAccess::AwaitingMembership { calendar: c, user_id })
                },
                _ => false,
            },
    {
        match self {
            CalendarAccess::AwaitingCalendar { calendar_id, user_id } => {
                match found_calendar(calendar_id, found) {
                    Err(e) => AccessStep::Refused(e),
                    Ok(c) => {
                        if needs_membership(&c) {
                            AccessStep::LoadMembership(
                                CalendarAccess::AwaitingMembership { calendar: c, user_id },
                            )
                        } else {
                            AccessStep::Granted(c)
                        }
                    },
                }
            },
            CalendarAccess::AwaitingMembership { calendar, user_id } => {
                AccessStep::Refused(AppError::InternalServerError)
            },
        }
    }

    /// The membership lookup returned `member`: the owner and members are
    /// granted, others refused with 403.
    pub fn membership_loaded(self, member: Option<CalendarMember>) -> (step: AccessStep)
        requires
            self is AwaitingMembership,
        ensures
            match self {
                CalendarAccess::AwaitingMembership { calendar, user_id } => if may_view(
                    calendar,
                    user_id,
                    member,
                ) {
                    step matches AccessStep::Granted(g) && g == calendar
                } else {
                    step matches AccessStep::Refused(e) && is_forbidden(
                        e,
                        "You do not have access to this calendar"@,
                    )
                },
                _ => false,
            },
    {
        match self {
            CalendarAccess::AwaitingMembership { calendar, user_id } => {
                match check_view(&calendar, user_id, &member) {
                    Ok(()) => AccessStep::Granted(calendar),
                    Err(e) => AccessStep::Refused(e),
                }
            },
            CalendarAccess::AwaitingCalendar { calendar_id, user_id } => {
                AccessStep::Refused(AppError::InternalServerError)
            },
        }
    }
}

/// Permission to update a calendar: its owner, or a member who is an
/// editor or owner.
pub fn check_edit(calendar: &Calendar, user_id: u128, member: &Option<CalendarMember>) -> (res:
    Result<(), AppError>)
    ensures
        res is Ok <==> may_edit(*calendar, user_id, *member),
        res is Ok <==> (calendar.owner_id == user_id || (member is Some && (member->0.role@
            == "editor"@ || member->0.role@ == "owner"@))),
        res matches Err(e) ==> is_forbidden(
            e,
            "Only the owner or editors can update this calendar"@,
        ),
{
    let is_owner = calendar.owner_id == user_id;
    let is_editor = is_editor_role(member);
    if !is_owner && !is_editor {
        return Err(
            AppError::Forbidden(owned("Only the owner or editors can update this calendar")),
        );
    }
    Ok(())
}

/// Permission to delete a calendar: its owner only.
pub fn check_delete(calendar: &Calendar, user_id: u128) -> (res: Result<(), AppError>)
    ensures
        res is Ok <==> is_owner(*calendar, user_id),
        res is Ok <==> calendar.owner_id == user_id,
        res matches Err(e) ==> is_forbidden(e, "Only the owner can delete this calendar"@),
{
    if calendar.owner_id != user_id {
        return Err(AppError::Forbidden(owned("Only the owner can delete this calendar")));
    }
    Ok(())
}

/// Permission to add a member: the caller must own the calendar, and the
/// role must be `editor` or `viewer`; the ownership check comes first.
pub fn check_add_member(calendar: &Calendar, user_id: u128, body: &AddMemberRequest) -> (res:
    Result<(), AppError>)
    ensures
        res is Ok <==> is_owner(*calendar, user_id) && is_assignable_role(body.role@),
        res is Ok <==> (calendar.owner_id == user_id && (body.role@ == "editor"@ || body.role@
            == "viewer"@)),
        res matches Err(e) ==> if !is_owner(*calendar, user_id) {
            is_forbidden(e, "Only the owner can manage members"@)
        } else {
            is_bad_request(e, "Role must be 'editor' or 'viewer'"@)
        },
{
    if calendar.owner_id != user_id {
        return Err(AppError::Forbidden(owned("Only the owner can manage members")));
    }
    if !body.is_valid_role() {
        return Err(AppError::BadRequest(owned("Role must be 'editor' or 'viewer'")));
    }
    Ok(())
}

/// Permission to remove `target` from a calendar: the owner may remove
/// anyone; other users only themselves.
pub fn check_remove_member(calendar: &Calendar, user_id: u128, target: u128) -> (res: Result<
    (),
    AppError,
>)
    ensures
        res is Ok <==> may_remove_member(*calendar, user_id, target),
        res is Ok <==> (calendar.owner_id == user_id || target == user_id),
        res matches Err(e) ==> is_forbidden(e, "Only the owner can remove other members"@),
{
    if calendar.owner_id != user_id && target != user_id {
        return Err(AppError::Forbidden(owned("Only the owner can remove other members")));
    }
    Ok(())
}

/// What a new calendar is stored with.
#[derive(Debug)]
pub struct NewCalendar {
    pub owner_id: u128,
    pub name: String,
    pub description: Option<String>,
    pub color: String,
    pub is_public: bool,
}

/// The calendar to store for a creation request by `owner_id`: the color
/// defaults to `#4285F4` and the calendar is private unless asked.
pub fn new_calendar(owner_id: u128, body: &CreateCalendarRequest) -> (res: NewCalendar)
    ensures
        res.owner_id == owner_id,
        res.name@ == body.name@,
        res.description == body.description,
        res.color@ == match body.color {
            Some(c) => c@,
            None => "#4285F4"@,
        },
        res.is_public == match body.is_public {
            Some(b) => b,
            None => false,
        },
{
    let color = match &body.color {
        Some(c) => c.clone(),
        None => owned("#4285F4"),
    };
    let is_public = match body.is_public {
        Some(b) => b,
        None => false,
    };
    NewCalendar {
        owner_id,
        name: body.name.clone(),
        description: body.description.clone(),
        color,
        is_public,
    }
}

/// Whoever may change a calendar may also see it.
pub proof fn lemma_edit_implies_view(calendar: Calendar, user_id: u128, member: Option<CalendarMember>)
    requires
        may_edit(calendar, user_id, member),
    ensures
        may_view(calendar, user_id, member),
{
}

/// The owner may see, change and delete their calendar and manage its
/// members, whatever the membership lookup returned.
pub proof fn lemma_owner_has_every_right(
    calendar: Calendar,
    member: Option<CalendarMember>,
    target: u128,
)
    ensures
        may_view(calendar, calendar.owner_id, member),
        may_edit(calendar, calendar.owner_id, member),
        is_owner(calendar, calendar.owner_id),
        may_remove_member(calendar, calendar.owner_id, target),
{
}

/// Anyone may see a public calendar, member or not.
pub proof fn lemma_public_is_visible(calendar: Calendar, user_id: u128, member: Option<CalendarMember>)
    requires
        calendar.is_public,
    ensures
        may_view(calendar, user_id, member),
{
}

/// Any user may leave a calendar.
pub proof fn lemma_members_may_leave(calendar: Calendar, user_id: u128)
    ensures
        may_remove_member(calendar, user_id, user_id),
{
}

/// Only the owner may remove someone else: a user who does not own the
/// calendar may remove no member but themselves, while the owner may
/// remove anyone and everyone may remove themselves.
pub proof fn lemma_only_owner_removes_others(calendar: Calendar, user_id: u128, target: u128)
    ensures
        calendar.owner_id != user_id && target != user_id ==> !may_remove_member(
            calendar,
            user_id,
            target,
        ),
        calendar.owner_id == user_id ==> may_remove_member(calendar, user_id, target),
        may_remove_member(calendar, user_id, user_id),
{
}

/// Only the owner may delete a calendar or manage its members.
pub proof fn lemma_only_owner_manages(calendar: Calendar, user_id: u128)
    ensures
        is_owner(calendar, user_id) <==> calendar.owner_id == user_id,
{
}

/// A calendar can be changed by its owner and by members whose role is
/// `editor` or `owner`; a `viewer` member who does not own it, or a
/// non-member, cannot change it.
pub proof fn lemma_editors_edit_viewers_do_not(calendar: Calendar, user_id: u128, m: CalendarMember)
    ensures
        m.role@ == "editor"@ ==> may_edit(calendar, user_id, Some(m)),
        m.role@ == "owner"@ ==> may_edit(calendar, user_id, Some(m)),
        calendar.owner_id != user_id && m.role@ == "viewer"@ ==> !may_edit(
            calendar,
            user_id,
            Some(m),
        ),
        calendar.owner_id != user_id ==> !may_edit(calendar, user_id, None),
{
    reveal_strlit("editor");
    reveal_strlit("viewer");
    reveal_strlit("owner");
    assert("viewer"@[0] != "editor"@[0]);
    assert("viewer"@[0] != "owner"@[0]);
}

/// A private calendar is visible to its owner and to its members.
pub proof fn lemma_members_see_private_calendars(calendar: Calendar, user_id: u128, m: CalendarMember)
    ensures
        may_view(calendar, user_id, Some(m)),
        may_view(calendar, calendar.owner_id, None),
{
}

/// Someone who is neither owner nor member cannot see a private calendar,
/// and only the owner may delete it.
pub proof fn lemma_private_calendar_is_closed(calendar: Calendar, user_id: u128)
    requires
        !calendar.is_public,
        calendar.owner_id != user_id,
    ensures
        !may_view(calendar, user_id, None),
        !may_edit(calendar, user_id, None),
        !is_owner(calendar, user_id),
{
}

/// No member can be given the role `owner` by the members endpoint.
pub proof fn lemma_owner_role_not_assignable()
    ensures
        !is_assignable_role("owner"@),
{
    reveal_strlit("owner");
    reveal_strlit("editor");
    reveal_strlit("viewer");
    assert("owner"@[0] != "editor"@[0]);
    assert("owner"@[0] != "viewer"@[0]);
}

} // verus!
