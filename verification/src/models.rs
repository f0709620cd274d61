//! The actor, the persona it acts on, and the token that a passed
//! permission check hands out.

use vstd::prelude::*;

verus! {

/// The signed-in user on whose behalf a request runs.
#[derive(Clone, Copy, Debug, PartialEq, Eq, Structural)]
pub struct AuthenticatedUser {
    pub id: i32,
}

/// A stored persona: its own id, and the account record that owns it.
#[derive(Clone, Copy, Debug, PartialEq, Eq, Structural)]
pub struct Persona {
    pub id: i32,
    pub base_actor: i32,
}

/// Why a permission check handed out no token.
#[derive(Clone, Copy, Debug, PartialEq, Eq, Structural)]
pub enum PermissionError {
    /// Storage could not say who owns the target.
    Diesel,
    /// The actor does not own the target.
    Permission,
}

/// Proof that a user may delete one persona. It can be had from
/// [`AuthenticatedUser::can_delete_persona`] alone, and it is neither
/// `Clone` nor `Copy`: one check pays for one deletion.
#[derive(Debug)]
pub struct PersonaDeleter {
    persona: Persona,
}

impl View for PersonaDeleter {
    type V = Persona;

    /// The persona that the token allows to delete.
    closed spec fn view(&self) -> Persona {
        self.persona
    }
}

impl PersonaDeleter {
    /// The id of the persona that the token allows to delete.
    pub fn target(&self) -> (id: i32)
        ensures
            id == self@.id,
    {
        self.persona.id
    }

    /// The token for `persona`.
    pub closed spec fn granted(persona: Persona) -> PersonaDeleter {
        PersonaDeleter { persona }
    }

    /// The token for a persona allows to delete that persona.
    pub proof fn granted_names_target(persona: Persona)
        ensures
            Self::granted(persona)@ == persona,
    {
    }
}

/// Whether `owner`, storage's answer to the question which user stands
/// behind the account record that owns a persona, names `user`.
pub open spec fn names_owner(
    owner: Result<i32, diesel::result::Error>,
    user: AuthenticatedUser,
) -> bool {
    owner matches Ok(id) && id == user.id
}

/// The rule of ownership: `user` gets a token for `persona` if and only if
/// storage names `user` as its owner. Anyone else is refused with
/// `Permission`; where storage gave no answer the check ends in `Diesel`.
pub open spec fn permission(
    user: AuthenticatedUser,
    persona: Persona,
    owner: Result<i32, diesel::result::Error>,
) -> Result<PersonaDeleter, PermissionError> {
    match owner {
        Err(_) => Err(PermissionError::Diesel),
        Ok(id) => if id == user.id {
            Ok(PersonaDeleter::granted(persona))
        } else {
            Err(PermissionError::Permission)
        },
    }
}

impl AuthenticatedUser {
    /// The user with this id, as the session vouches for it.
    pub fn new(id: i32) -> (user: Self)
        ensures
            user.id == id,
    {
        AuthenticatedUser { id }
    }

    /// The user's id.
    pub fn id(&self) -> (id: i32)
        ensures
            id == self.id,
    {
        self.id
    }

    /// Decides whether this user may delete `persona`, given storage's
    /// answer `owner` to the question who owns it.
    pub fn can_delete_persona(
        &self,
        persona: Persona,
        owner: Result<i32, diesel::result::Error>,
    ) -> (checked: Result<PersonaDeleter, PermissionError>)
        ensures
            checked == permission(*self, persona, owner),
    {
        match owner {
            Err(_) => Err(PermissionError::Diesel),
            Ok(id) => if id == self.id {
                Ok(PersonaDeleter { persona })
            } else {
                Err(PermissionError::Permission)
            },
        }
    }
}

} // verus!
