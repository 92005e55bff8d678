//! `POST /album/`: a liked cat enters the user's album, or climbs one grade there.

use vstd::prelude::*;
use crate::api::{is_text_reply, Reply, ReplyBody, STATUS_BAD_REQUEST, STATUS_CREATED, STATUS_INTERNAL_ERROR};

verus! {

/// The lowest grade a request may carry.
pub const MIN_GRADE: i32 = 1;

/// The highest grade a request may carry.
pub const MAX_GRADE: i32 = 10;

/// The grade a cat gets when it first enters a user's album.
pub const NEW_ENTRY_GRADE: i32 = 5;

/// The write that a valid album request makes.
#[derive(Debug, Clone, PartialEq, Eq)]
pub enum AlbumWrite {
    /// The user already has the cat: its grade goes up by one.
    IncrementGrade,
    /// The user does not have the cat yet: a new entry with this grade.
    Insert { grade: i32 },
}

/// Whether a request's grade is in the accepted range.
pub open spec fn grade_in_range(usr_grade: i32) -> bool {
    MIN_GRADE <= usr_grade <= MAX_GRADE
}

/// The grade of the user's entry for the cat after a write, given the grade it had
/// (if it had an entry).
pub open spec fn spec_grade_after(previous: Option<int>, write: AlbumWrite) -> int {
    match write {
        AlbumWrite::IncrementGrade => previous.unwrap() + 1,
        AlbumWrite::Insert { grade } => grade as int,
    }
}

/// First step: a grade outside `1..=10` is refused with 400 before anything is read
/// or written.
pub fn check_album_grade(usr_grade: i32) -> (checked: Result<(), Reply>)
    ensures
        checked is Ok <==> grade_in_range(usr_grade),
        checked matches Err(reply) ==> is_text_reply(reply, STATUS_BAD_REQUEST, "usr_grade must be between 1 and 10"@),
{
    if usr_grade < MIN_GRADE || usr_grade > MAX_GRADE {
        Err(Reply {
            status: STATUS_BAD_REQUEST,
            body: ReplyBody::Text(String::from_str("usr_grade must be between 1 and 10")),
        })
    } else {
        Ok(())
    }
}

/// The write an album request makes when the user already has the cat (`true`) or
/// not (`false`).
pub open spec fn spec_album_write(has_entry: bool) -> AlbumWrite {
    if has_entry {
        AlbumWrite::IncrementGrade
    } else {
        AlbumWrite::Insert { grade: NEW_ENTRY_GRADE }
    }
}

/// Second step: given whether the user already has the cat in the album, the write
/// to make; a failed lookup ends the request with a bare 500.
pub fn album_write_for(existing: Result<bool, String>) -> (write: Result<AlbumWrite, Reply>)
    ensures
        existing matches Ok(has_entry) ==> write == Ok::<AlbumWrite, Reply>(spec_album_write(has_entry)),
        existing is Err ==> (write matches Err(reply) && reply.status == STATUS_INTERNAL_ERROR && reply.body == ReplyBody::Empty),
{
    match existing {
        Ok(true) => Ok(AlbumWrite::IncrementGrade),
        Ok(false) => Ok(AlbumWrite::Insert { grade: NEW_ENTRY_GRADE }),
        Err(_) => Err(Reply { status: STATUS_INTERNAL_ERROR, body: ReplyBody::Empty }),
    }
}

/// Last step: the answer once the write ran. `written` is the `id` column of the
/// returned row (`None` when it cannot be read), or the database error's text.
pub fn album_reply(written: Result<Option<i32>, String>) -> (reply: Reply)
    ensures
        written matches Ok(Some(id)) ==> reply.status == STATUS_CREATED && reply.body == ReplyBody::Id(id),
        written == Ok::<Option<i32>, String>(None) ==> reply.status == STATUS_CREATED && reply.body == ReplyBody::Id(0),
        written matches Err(text) ==> is_text_reply(reply, STATUS_INTERNAL_ERROR, "Failed to update album: "@ + text@),
{
    match written {
        Ok(Some(id)) => Reply { status: STATUS_CREATED, body: ReplyBody::Id(id) },
        Ok(None) => Reply { status: STATUS_CREATED, body: ReplyBody::Id(0) },
        Err(text) => {
            let mut message = String::from_str("Failed to update album: ");
            message.append(text.as_str());
            Reply { status: STATUS_INTERNAL_ERROR, body: ReplyBody::Text(message) }
        },
    }
}

/// Liking a cat the user already has raises its grade by one; liking a new cat gives
/// it grade 5, whatever grade the request carried.
pub proof fn album_write_grades(previous: Option<int>)
    ensures
        spec_grade_after(previous, spec_album_write(previous is Some)) == match previous {
            Some(g) => g + 1,
            None => 5,
        },
{
}

/// Two likes of a cat the user did not have: the first inserts it with grade 5, the
/// second finds that entry and raises it to 6.
pub proof fn two_likes_give_grade_six()
    ensures
        ({
            let first = spec_grade_after(None, spec_album_write(false));
            spec_grade_after(Some(first), spec_album_write(true)) == 6
        }),
{
}

/// Where a `POST /album/` request stands.
#[derive(Debug, PartialEq, Eq)]
pub enum AlbumState {
    /// Nothing done yet.
    Received,
    /// The grade was accepted; the user's entry for the cat is being looked up.
    LookingUp,
    /// The write is running.
    Writing,
    /// The write ran (with this outcome); the cat's average grade is being recomputed.
    Recomputing(Result<Option<i32>, String>),
    /// The answer was given.
    Answered,
}

/// What the caller reports back to the album request.
#[derive(Debug, PartialEq, Eq)]
pub enum AlbumEvent {
    /// The request arrived with this grade.
    Requested { usr_grade: i32 },
    /// The lookup ended: whether the user has the cat, or the database error's text.
    LookedUp(Result<bool, String>),
    /// The write ended: the `id` of the returned row (if readable), or the error's text.
    Written(Result<Option<i32>, String>),
    /// `update_cat_grade` ran (its outcome does not matter).
    CatGradeRecomputed,
}

/// What the caller does next for the album request.
#[derive(Debug, Clone, PartialEq, Eq)]
pub enum AlbumAction {
    /// Look up the user's entry for the cat.
    LookUp,
    /// Make this write.
    Write(AlbumWrite),
    /// Run `update_cat_grade` for the cat.
    RecomputeCatGrade,
    /// Send this answer; the request is over.
    Answer(Reply),
}

/// Whether `event` is what the caller can report in `state`.
pub open spec fn album_event_expected(state: AlbumState, event: AlbumEvent) -> bool {
    match (state, event) {
        (AlbumState::Received, AlbumEvent::Requested { .. }) => true,
        (AlbumState::LookingUp, AlbumEvent::LookedUp(_)) => true,
        (AlbumState::Writing, AlbumEvent::Written(_)) => true,
        (AlbumState::Recomputing(_), AlbumEvent::CatGradeRecomputed) => true,
        _ => false,
    }
}

/// The album request's decisions, one event at a time. A refused grade and a failed
/// lookup are answered at once, before any write; every write, whether it succeeded
/// or not, is followed by recomputing the cat's average grade, and only then answered
/// with the write's outcome.
pub fn album_next(state: AlbumState, event: AlbumEvent) -> (next: (AlbumState, AlbumAction))
    requires
        album_event_expected(state, event),
    ensures
        event matches AlbumEvent::Requested { usr_grade } ==> {
            if grade_in_range(usr_grade) {
                next == (AlbumState::LookingUp, AlbumAction::LookUp)
            } else {
                &&& next.0 == AlbumState::Answered
                &&& next.1 matches AlbumAction::Answer(reply)
                &&& is_text_reply(reply, STATUS_BAD_REQUEST, "usr_grade must be between 1 and 10"@)
            }
        },
        event matches AlbumEvent::LookedUp(existing) ==> match existing {
            Ok(has_entry) => next == (AlbumState::Writing, AlbumAction::Write(spec_album_write(has_entry))),
            Err(_) => next == (AlbumState::Answered, AlbumAction::Answer(Reply { status: STATUS_INTERNAL_ERROR, body: ReplyBody::Empty })),
        },
        event matches AlbumEvent::Written(written) ==> next == (AlbumState::Recomputing(written), AlbumAction::RecomputeCatGrade),
        event is CatGradeRecomputed ==> {
            &&& next.0 == AlbumState::Answered
            &&& state matches AlbumState::Recomputing(written)
            &&& next.1 matches AlbumAction::Answer(reply)
            &&& written matches Ok(Some(id)) ==> reply.status == STATUS_CREATED && reply.body == ReplyBody::Id(id)
            &&& written == Ok::<Option<i32>, String>(None) ==> reply.status == STATUS_CREATED && reply.body == ReplyBody::Id(0)
            &&& written matches Err(text) ==> is_text_reply(reply, STATUS_INTERNAL_ERROR, "Failed to update album: "@ + text@)
        },
{
    match event {
        AlbumEvent::Requested { usr_grade } => match check_album_grade(usr_grade) {
            Ok(()) => (AlbumState::LookingUp, AlbumAction::LookUp),
            Err(reply) => (AlbumState::Answered, AlbumAction::Answer(reply)),
        },
        AlbumEvent::LookedUp(existing) => match album_write_for(existing) {
            Ok(write) => (AlbumState::Writing, AlbumAction::Write(write)),
            Err(reply) => (AlbumState::Answered, AlbumAction::Answer(reply)),
        },
        AlbumEvent::Written(written) => (AlbumState::Recomputing(written), AlbumAction::RecomputeCatGrade),
        AlbumEvent::CatGradeRecomputed => match state {
            AlbumState::Recomputing(written) => (AlbumState::Answered, AlbumAction::Answer(album_reply(written))),
            _ => (AlbumState::Answered, AlbumAction::Answer(Reply { status: STATUS_INTERNAL_ERROR, body: ReplyBody::Empty })),
        },
    }
}

} // verus!
