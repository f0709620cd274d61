//! The deletion of a persona from request to end: load the persona, check
//! that the actor owns it, delete it. Storage does the work; what is asked
//! of it next, and what its answers mean, is decided here.

use crate::forms::personas::delete::{
    CheckDeletePersonaPermission, CheckDeletePersonaPermissionFail,
    CheckDeletePersonaPermissionOperation, Delete, DeletePersona, PersonaDeletionFail,
    check_result, deletion_result,
};
use crate::forms::personas::fetch::{FetchPersonaFail, fetch_fault};
use crate::models::{AuthenticatedUser, Persona, PersonaDeleter, names_owner};
use vstd::prelude::*;

verus! {

/// How far a deletion has come.
#[derive(Debug)]
pub enum Deletion {
    /// `user` asked for the persona with this id to be deleted.
    Requested { user: AuthenticatedUser, persona_id: i32 },
    /// The persona is loaded; who owns it is being looked up.
    Fetched(CheckDeletePersonaPermissionOperation),
    /// The actor owns the persona; the deletion holds its token.
    PermissionChecked(Delete),
    /// The persona is gone.
    Deleted,
    /// A stage failed. No later stage was started.
    Failed(PersonaDeletionFail),
}

/// What a deletion asks of storage.
#[derive(Clone, Copy, Debug, PartialEq, Eq, Structural)]
pub enum Request {
    /// Load the persona with this id.
    FetchPersona(i32),
    /// Name the user behind this account record.
    ResolveOwner(i32),
    /// Delete the persona with this id.
    DeletePersona(i32),
}

/// What storage answers.
#[derive(Debug)]
pub enum Reply {
    Persona(Result<Persona, diesel::result::Error>),
    Owner(Result<i32, diesel::result::Error>),
    Deleted(Result<(), diesel::result::Error>),
}

/// What `state` waits for storage to do. A deletion that has come to its
/// end asks for nothing.
pub open spec fn awaited(state: Deletion) -> Option<Request> {
    match state {
        Deletion::Requested { persona_id, .. } => Some(Request::FetchPersona(persona_id)),
        Deletion::Fetched(check) => Some(Request::ResolveOwner(check.persona().base_actor)),
        Deletion::PermissionChecked(delete) => Some(Request::DeletePersona(delete.token()@.id)),
        Deletion::Deleted => None,
        Deletion::Failed(_) => None,
    }
}

/// The state that follows `state` on `reply`. An answer to a question
/// that `state` did not ask changes nothing; a persona other than the one
/// asked for counts as none.
pub open spec fn next(state: Deletion, reply: Reply) -> Deletion {
    match (state, reply) {
        (Deletion::Requested { user, persona_id }, Reply::Persona(Ok(persona))) => if persona.id
            == persona_id {
            Deletion::Fetched(CheckDeletePersonaPermissionOperation::of(user, persona))
        } else {
            Deletion::Failed(PersonaDeletionFail::NotFound)
        },
        (Deletion::Requested { .. }, Reply::Persona(Err(e))) => Deletion::Failed(
            PersonaDeletionFail::from_fetch(fetch_fault(e)),
        ),
        (Deletion::Fetched(check), Reply::Owner(owner)) => match check_result(
            check.user(),
            check.persona(),
            owner,
        ) {
            Ok(token) => Deletion::PermissionChecked(Delete::spending(token)),
            Err(e) => Deletion::Failed(PersonaDeletionFail::from_check(e)),
        },
        (Deletion::PermissionChecked(_), Reply::Deleted(outcome)) => match deletion_result(
            outcome,
        ) {
            Ok(_) => Deletion::Deleted,
            Err(e) => Deletion::Failed(e),
        },
        (state, _) => state,
    }
}

impl Deletion {
    /// The deletion of the persona with id `persona_id`, asked for by
    /// `user`.
    pub fn request(user: AuthenticatedUser, persona_id: i32) -> (state: Deletion)
        ensures
            state == (Deletion::Requested { user, persona_id }),
    {
        Deletion::Requested { user, persona_id }
    }

    /// What storage has to do next, if anything.
    pub fn pending(&self) -> (request: Option<Request>)
        ensures
            request == awaited(*self),
    {
        match self {
            Deletion::Requested { persona_id, .. } => Some(Request::FetchPersona(*persona_id)),
            Deletion::Fetched(check) => Some(Request::ResolveOwner(check.owner_reference())),
            Deletion::PermissionChecked(delete) => Some(Request::DeletePersona(delete.target())),
            Deletion::Deleted => None,
            Deletion::Failed(_) => None,
        }
    }

    /// Takes storage's answer and moves on.
    pub fn advance(self, reply: Reply) -> (state: Deletion)
        ensures
            state == next(self, reply),
    {
        match self {
            Deletion::Requested { user, persona_id } => match reply {
                Reply::Persona(Ok(persona)) => if persona.id == persona_id {
                    Deletion::Fetched(CheckDeletePersonaPermission::new(user).with(persona))
                } else {
                    Deletion::Failed(PersonaDeletionFail::NotFound)
                },
                Reply::Persona(Err(e)) => Deletion::Failed(
                    PersonaDeletionFail::from(FetchPersonaFail::from(e)),
                ),
                _ => Deletion::Requested { user, persona_id },
            },
            Deletion::Fetched(check) => match reply {
                Reply::Owner(owner) => match check.db_action(owner) {
                    Ok(token) => Deletion::PermissionChecked(DeletePersona.with(token)),
                    Err(e) => Deletion::Failed(PersonaDeletionFail::from(e)),
                },
                _ => Deletion::Fetched(check),
            },
            Deletion::PermissionChecked(delete) => match reply {
                Reply::Deleted(outcome) => match delete.db_action(outcome) {
                    Ok(_) => Deletion::Deleted,
                    Err(e) => Deletion::Failed(e),
                },
                _ => Deletion::PermissionChecked(delete),
            },
            Deletion::Deleted => Deletion::Deleted,
            Deletion::Failed(e) => Deletion::Failed(e),
        }
    }

    /// How the deletion ended, if it has.
    pub fn outcome(&self) -> (ended: Option<Result<(), PersonaDeletionFail>>)
        ensures
            ended == match *self {
                Deletion::Deleted => Some(Ok::<(), PersonaDeletionFail>(())),
                Deletion::Failed(e) => Some(Err::<(), PersonaDeletionFail>(e)),
                _ => None,
            },
    {
        match self {
            Deletion::Deleted => Some(Ok(())),
            Deletion::Failed(e) => Some(Err(*e)),
            _ => None,
        }
    }
}

/// Whether a deletion has come to its end.
pub open spec fn settled(state: Deletion) -> bool {
    state is Deleted || state is Failed
}

/// The state that `replies`, taken in order, lead to from `state`.
pub open spec fn run(state: Deletion, replies: Seq<Reply>) -> Deletion
    decreases replies.len(),
{
    if replies.len() == 0 {
        state
    } else {
        run(next(state, replies[0]), replies.drop_first())
    }
}

/// How many answers to a request to delete are heard while `replies`,
/// taken in order, lead on from `state`: how often a token is spent.
pub open spec fn tokens_spent(state: Deletion, replies: Seq<Reply>) -> nat
    decreases replies.len(),
{
    if replies.len() == 0 {
        0
    } else {
        let later = tokens_spent(next(state, replies[0]), replies.drop_first());
        if state is PermissionChecked && replies[0] is Deleted {
            1 + later
        } else {
            later
        }
    }
}

/// Whether `state` is a state of the deletion that `user` asked for of the
/// persona with id `persona_id`: whatever it holds names that persona.
pub open spec fn concerns(state: Deletion, user: AuthenticatedUser, persona_id: i32) -> bool {
    match state {
        Deletion::Requested { user: asking, persona_id: asked } => asking == user && asked
            == persona_id,
        Deletion::Fetched(check) => check.user() == user && check.persona().id == persona_id,
        Deletion::PermissionChecked(delete) => delete.token()@.id == persona_id,
        Deletion::Deleted => true,
        Deletion::Failed(_) => true,
    }
}

/// Whether `reply` is storage naming `user` as the owner.
pub open spec fn names(reply: Reply, user: AuthenticatedUser) -> bool {
    reply matches Reply::Owner(owner) && names_owner(owner, user)
}

/// A deletion that has come to its end stays as it is and asks for
/// nothing, whatever storage says: after a failure no later stage runs.
pub proof fn settled_is_final(state: Deletion, replies: Seq<Reply>)
    requires
        settled(state),
    ensures
        run(state, replies) == state,
        awaited(run(state, replies)) is None,
        tokens_spent(state, replies) == 0,
    decreases replies.len(),
{
    if replies.len() > 0 {
        settled_is_final(next(state, replies[0]), replies.drop_first());
    }
}

proof fn step_keeps_concern(state: Deletion, reply: Reply, user: AuthenticatedUser, persona_id: i32)
    requires
        concerns(state, user, persona_id),
    ensures
        concerns(next(state, reply), user, persona_id),
{
    match (state, reply) {
        (Deletion::Requested { user, persona_id }, Reply::Persona(Ok(persona))) => {
            CheckDeletePersonaPermissionOperation::of_keeps_parts(user, persona);
        },
        (Deletion::Fetched(check), Reply::Owner(owner)) => {
            match check_result(check.user(), check.persona(), owner) {
                Ok(token) => {
                    PersonaDeleter::granted_names_target(check.persona());
                    Delete::spending_keeps_token(token);
                },
                Err(_) => {},
            }
        },
        _ => {},
    }
}

/// The token is tied to the persona that was asked for: however storage
/// answers, a deletion never holds a token for another persona, and the
/// one persona it ever asks storage to delete is the one in the request.
pub proof fn deletes_what_was_asked(
    state: Deletion,
    user: AuthenticatedUser,
    persona_id: i32,
    replies: Seq<Reply>,
)
    requires
        concerns(state, user, persona_id),
    ensures
        concerns(run(state, replies), user, persona_id),
        awaited(run(state, replies)) matches Some(Request::DeletePersona(id)) ==> id
            == persona_id,
    decreases replies.len(),
{
    if replies.len() > 0 {
        step_keeps_concern(state, replies[0], user, persona_id);
        deletes_what_was_asked(next(state, replies[0]), user, persona_id, replies.drop_first());
    }
}

/// Whoever storage does not name as the owner is refused with
/// `Permission`, and gets no token.
pub proof fn stranger_is_refused(user: AuthenticatedUser, persona: Persona, owner: i32)
    requires
        owner != user.id,
    ensures
        check_result(user, persona, Ok(owner)) == Err::<
            PersonaDeleter,
            CheckDeletePersonaPermissionFail,
        >(CheckDeletePersonaPermissionFail::Permission),
        next(
            Deletion::Fetched(CheckDeletePersonaPermissionOperation::of(user, persona)),
            Reply::Owner(Ok(owner)),
        ) == Deletion::Failed(PersonaDeletionFail::Permission),
{
    CheckDeletePersonaPermissionOperation::of_keeps_parts(user, persona);
}

/// Whether `state`, in a deletion that `user` asked for, has not passed
/// the permission check.
pub open spec fn unchecked(state: Deletion, user: AuthenticatedUser) -> bool {
    match state {
        Deletion::Requested { user: asking, .. } => asking == user,
        Deletion::Fetched(check) => check.user() == user,
        Deletion::Failed(_) => true,
        _ => false,
    }
}

/// Without the owner's word there is no deletion: as long as storage
/// never names the actor as the owner, the deletion never holds a token,
/// never asks storage to delete anything, and never ends in `Deleted`.
pub proof fn no_token_without_ownership(
    state: Deletion,
    user: AuthenticatedUser,
    replies: Seq<Reply>,
)
    requires
        unchecked(state, user),
        forall|i: int| 0 <= i < replies.len() ==> !names(#[trigger] replies[i], user),
    ensures
        unchecked(run(state, replies), user),
        !(awaited(run(state, replies)) matches Some(Request::DeletePersona(_))),
        tokens_spent(state, replies) == 0,
    decreases replies.len(),
{
    if replies.len() > 0 {
        let reply = replies[0];
        let rest = replies.drop_first();
        assert(!names(reply, user));
        assert forall|i: int| 0 <= i < rest.len() implies !names(#[trigger] rest[i], user) by {
            assert(rest[i] == replies[i + 1]);
        }
        match (state, reply) {
            (Deletion::Requested { user, persona_id }, Reply::Persona(Ok(persona))) => {
                CheckDeletePersonaPermissionOperation::of_keeps_parts(user, persona);
            },
            _ => {},
        }
        no_token_without_ownership(next(state, reply), user, rest);
    }
}

/// One check pays for one deletion: however storage answers, a deletion
/// spends a token at most once.
pub proof fn token_is_spent_once(state: Deletion, replies: Seq<Reply>)
    ensures
        tokens_spent(state, replies) <= 1,
    decreases replies.len(),
{
    if replies.len() > 0 {
        if state is PermissionChecked && replies[0] is Deleted {
            settled_is_final(next(state, replies[0]), replies.drop_first());
        } else {
            token_is_spent_once(next(state, replies[0]), replies.drop_first());
        }
    }
}

} // verus!
