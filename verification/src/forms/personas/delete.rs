//! Deleting a persona: the permission check, the token it yields, and the
//! deletion that spends the token.

use crate::forms::personas::fetch::FetchPersonaFail;
use crate::models::{AuthenticatedUser, PermissionError, Persona, PersonaDeleter, permission};
use crate::storage::{StorageFault, classify, fault_of};
use vstd::prelude::*;
use vstd::std_specs::convert::FromSpecImpl;
use vstd::string::StringExecFns;

verus! {

/// Why the permission check for a deletion handed out no token.
#[derive(Clone, Copy, Debug, PartialEq, Eq, Structural)]
pub enum CheckDeletePersonaPermissionFail {
    Permission,
    Database,
}

impl CheckDeletePersonaPermissionFail {
    /// What a refused check is called at this stage: a lookup that failed
    /// is `Database`, a refusal stays a refusal.
    pub open spec fn of_refusal(e: PermissionError) -> CheckDeletePersonaPermissionFail {
        match e {
            PermissionError::Diesel => CheckDeletePersonaPermissionFail::Database,
            PermissionError::Permission => CheckDeletePersonaPermissionFail::Permission,
        }
    }
}

impl From<PermissionError> for CheckDeletePersonaPermissionFail {
    fn from(e: PermissionError) -> (fail: Self)
        ensures
            fail == CheckDeletePersonaPermissionFail::of_refusal(e),
    {
        match e {
            PermissionError::Diesel => CheckDeletePersonaPermissionFail::Database,
            PermissionError::Permission => CheckDeletePersonaPermissionFail::Permission,
        }
    }
}

impl FromSpecImpl<PermissionError> for CheckDeletePersonaPermissionFail {
    open spec fn obeys_from_spec() -> bool {
        true
    }

    open spec fn from_spec(e: PermissionError) -> Self {
        CheckDeletePersonaPermissionFail::of_refusal(e)
    }
}

impl CheckDeletePersonaPermissionFail {
    /// The failure in words.
    pub open spec fn text(self) -> Seq<char> {
        match self {
            CheckDeletePersonaPermissionFail::Permission => {
                "User does not have permission to delete persona"@
            },
            CheckDeletePersonaPermissionFail::Database => {
                "Error accessing database to check permissions"@
            },
        }
    }

    /// The failure in words.
    pub fn message(&self) -> (s: String)
        ensures
            s@ == self.text(),
    {
        match self {
            CheckDeletePersonaPermissionFail::Permission => String::from_str(
                "User does not have permission to delete persona",
            ),
            CheckDeletePersonaPermissionFail::Database => String::from_str(
                "Error accessing database to check permissions",
            ),
        }
    }
}

/// The first half of a permission check: the user who asks.
#[derive(Debug)]
pub struct CheckDeletePersonaPermission(AuthenticatedUser);

/// A permission check that knows both the user and the persona, and waits
/// for storage to say who owns the persona.
#[derive(Debug)]
pub struct CheckDeletePersonaPermissionOperation(AuthenticatedUser, Persona);

impl CheckDeletePersonaPermission {
    /// The user who asks.
    pub closed spec fn user(self) -> AuthenticatedUser {
        self.0
    }

    /// Starts a check on behalf of `user`.
    pub fn new(user: AuthenticatedUser) -> (check: Self)
        ensures
            check.user() == user,
    {
        CheckDeletePersonaPermission(user)
    }

    /// Names the persona that the user wants to delete.
    pub fn with(self, persona: Persona) -> (op: CheckDeletePersonaPermissionOperation)
        ensures
            op == CheckDeletePersonaPermissionOperation::of(self.user(), persona),
    {
        CheckDeletePersonaPermissionOperation(self.0, persona)
    }
}

/// What a permission check reports once storage has answered: the rule of
/// ownership, with its refusals named as this stage names them.
pub open spec fn check_result(
    user: AuthenticatedUser,
    persona: Persona,
    owner: Result<i32, diesel::result::Error>,
) -> Result<PersonaDeleter, CheckDeletePersonaPermissionFail> {
    match permission(user, persona, owner) {
        Ok(token) => Ok(token),
        Err(e) => Err(CheckDeletePersonaPermissionFail::of_refusal(e)),
    }
}

impl CheckDeletePersonaPermissionOperation {
    /// The check of `user` against `persona`.
    pub closed spec fn of(user: AuthenticatedUser, persona: Persona) -> Self {
        CheckDeletePersonaPermissionOperation(user, persona)
    }

    /// The user who asks.
    pub closed spec fn user(self) -> AuthenticatedUser {
        self.0
    }

    /// The persona that the user wants to delete.
    pub closed spec fn persona(self) -> Persona {
        self.1
    }

    /// A check is made of its user and its persona and of nothing else.
    pub proof fn of_keeps_parts(user: AuthenticatedUser, persona: Persona)
        ensures
            Self::of(user, persona).user() == user,
            Self::of(user, persona).persona() == persona,
    {
    }

    /// The account record that storage has to resolve to a user.
    pub fn owner_reference(&self) -> (base_actor: i32)
        ensures
            base_actor == self.persona().base_actor,
    {
        self.1.base_actor
    }

    /// Concludes the check from storage's answer `owner`: a token for
    /// exactly the persona in question if storage named the asking user,
    /// `Permission` if it named anyone else, `Database` if it gave no
    /// answer.
    pub fn db_action(self, owner: Result<i32, diesel::result::Error>) -> (checked: Result<
        PersonaDeleter,
        CheckDeletePersonaPermissionFail,
    >)
        ensures
            checked == check_result(self.user(), self.persona(), owner),
    {
        match self.0.can_delete_persona(self.1, owner) {
            Ok(token) => Ok(token),
            Err(e) => Err(CheckDeletePersonaPermissionFail::from(e)),
        }
    }
}

/// Why a persona was not deleted.
#[derive(Clone, Copy, Debug, PartialEq, Eq, Structural)]
pub enum PersonaDeletionFail {
    Permission,
    Database,
    NotFound,
}

impl PersonaDeletionFail {
    /// What a refused permission check means for the deletion.
    pub open spec fn from_check(e: CheckDeletePersonaPermissionFail) -> PersonaDeletionFail {
        match e {
            CheckDeletePersonaPermissionFail::Permission => PersonaDeletionFail::Permission,
            CheckDeletePersonaPermissionFail::Database => PersonaDeletionFail::Database,
        }
    }

    /// What a failed load means for the deletion.
    pub open spec fn from_fetch(e: FetchPersonaFail) -> PersonaDeletionFail {
        match e {
            FetchPersonaFail::Database => PersonaDeletionFail::Database,
            FetchPersonaFail::NotFound => PersonaDeletionFail::NotFound,
        }
    }
}

impl PersonaDeletionFail {
    /// What a deletion reports for a storage fault: a missing row is
    /// `NotFound`, every other fault is `Database`.
    pub open spec fn of_fault(fault: StorageFault) -> PersonaDeletionFail {
        match fault {
            StorageFault::NotFound => PersonaDeletionFail::NotFound,
            StorageFault::Other => PersonaDeletionFail::Database,
        }
    }
}

impl From<StorageFault> for PersonaDeletionFail {
    fn from(fault: StorageFault) -> (fail: Self)
        ensures
            fail == PersonaDeletionFail::of_fault(fault),
    {
        match fault {
            StorageFault::NotFound => PersonaDeletionFail::NotFound,
            StorageFault::Other => PersonaDeletionFail::Database,
        }
    }
}

impl FromSpecImpl<StorageFault> for PersonaDeletionFail {
    open spec fn obeys_from_spec() -> bool {
        true
    }

    open spec fn from_spec(fault: StorageFault) -> Self {
        PersonaDeletionFail::of_fault(fault)
    }
}

/// A refusal and a failed lookup stay apart all the way up: whatever two
/// permission errors differ in, the failures of the check and of the
/// deletion that they turn into differ in too.
pub proof fn refusal_is_not_a_fault(a: PermissionError, b: PermissionError)
    requires
        a != b,
    ensures
        CheckDeletePersonaPermissionFail::of_refusal(a)
            != CheckDeletePersonaPermissionFail::of_refusal(b),
        PersonaDeletionFail::from_check(CheckDeletePersonaPermissionFail::of_refusal(a))
            != PersonaDeletionFail::from_check(CheckDeletePersonaPermissionFail::of_refusal(b)),
{
}

/// What a deletion reports for a storage error.
pub open spec fn deletion_fault(e: diesel::result::Error) -> PersonaDeletionFail {
    PersonaDeletionFail::of_fault(fault_of(e))
}

impl From<diesel::result::Error> for PersonaDeletionFail {
    fn from(e: diesel::result::Error) -> (fail: Self)
        ensures
            fail == deletion_fault(e),
    {
        PersonaDeletionFail::from(classify(&e))
    }
}

impl FromSpecImpl<diesel::result::Error> for PersonaDeletionFail {
    open spec fn obeys_from_spec() -> bool {
        true
    }

    open spec fn from_spec(e: diesel::result::Error) -> Self {
        deletion_fault(e)
    }
}

impl From<CheckDeletePersonaPermissionFail> for PersonaDeletionFail {
    fn from(e: CheckDeletePersonaPermissionFail) -> (fail: Self)
        ensures
            fail == PersonaDeletionFail::from_check(e),
    {
        match e {
            CheckDeletePersonaPermissionFail::Permission => PersonaDeletionFail::Permission,
            CheckDeletePersonaPermissionFail::Database => PersonaDeletionFail::Database,
        }
    }
}

impl FromSpecImpl<CheckDeletePersonaPermissionFail> for PersonaDeletionFail {
    open spec fn obeys_from_spec() -> bool {
        true
    }

    open spec fn from_spec(e: CheckDeletePersonaPermissionFail) -> Self {
        PersonaDeletionFail::from_check(e)
    }
}

impl From<FetchPersonaFail> for PersonaDeletionFail {
    fn from(e: FetchPersonaFail) -> (fail: Self)
        ensures
            fail == PersonaDeletionFail::from_fetch(e),
    {
        match e {
            FetchPersonaFail::Database => PersonaDeletionFail::Database,
            FetchPersonaFail::NotFound => PersonaDeletionFail::NotFound,
        }
    }
}

impl FromSpecImpl<FetchPersonaFail> for PersonaDeletionFail {
    open spec fn obeys_from_spec() -> bool {
        true
    }

    open spec fn from_spec(e: FetchPersonaFail) -> Self {
        PersonaDeletionFail::from_fetch(e)
    }
}

impl PersonaDeletionFail {
    /// The failure in words.
    pub open spec fn text(self) -> Seq<char> {
        match self {
            PersonaDeletionFail::Permission => "Insufficient permissions"@,
            PersonaDeletionFail::Database => "Error in database"@,
            PersonaDeletionFail::NotFound => "Persona not found"@,
        }
    }

    /// The failure in words.
    pub fn message(&self) -> (s: String)
        ensures
            s@ == self.text(),
    {
        match self {
            PersonaDeletionFail::Permission => String::from_str("Insufficient permissions"),
            PersonaDeletionFail::Database => String::from_str("Error in database"),
            PersonaDeletionFail::NotFound => String::from_str("Persona not found"),
        }
    }
}

/// The deletion before it has been given its token.
#[derive(Clone, Copy, Debug)]
pub struct DeletePersona;

/// A deletion that holds its token and waits for storage to carry it out.
#[derive(Debug)]
pub struct Delete(PersonaDeleter);

impl DeletePersona {
    /// Hands the deletion its token.
    pub fn with(self, persona_deleter: PersonaDeleter) -> (delete: Delete)
        ensures
            delete == Delete::spending(persona_deleter),
    {
        Delete(persona_deleter)
    }
}

/// What the caller of a deletion is told once storage has answered.
pub open spec fn deletion_result(outcome: Result<(), diesel::result::Error>) -> Result<
    (),
    PersonaDeletionFail,
> {
    match outcome {
        Ok(_) => Ok(()),
        Err(e) => Err(deletion_fault(e)),
    }
}

impl Delete {
    /// The deletion that spends `token`.
    pub closed spec fn spending(token: PersonaDeleter) -> Delete {
        Delete(token)
    }

    /// The token that the deletion holds.
    pub closed spec fn token(self) -> PersonaDeleter {
        self.0
    }

    /// A deletion holds the token it was given and nothing else.
    pub proof fn spending_keeps_token(token: PersonaDeleter)
        ensures
            Self::spending(token).token() == token,
    {
    }

    /// The id of the one persona that storage is asked to delete.
    pub fn target(&self) -> (id: i32)
        ensures
            id == self.token()@.id,
    {
        self.0.target()
    }

    /// Spends the token on storage's answer `outcome` to the deletion of
    /// `target()`: a missing row is `NotFound`, any other fault `Database`.
    pub fn db_action(self, outcome: Result<(), diesel::result::Error>) -> (done: Result<
        (),
        PersonaDeletionFail,
    >)
        ensures
            done == deletion_result(outcome),
    {
        match outcome {
            Ok(_) => Ok(()),
            Err(e) => Err(PersonaDeletionFail::from(e)),
        }
    }
}

} // verus!
