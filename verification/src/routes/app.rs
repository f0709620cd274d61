//! The landing page.

use crate::models::AuthenticatedUser;
use vstd::prelude::*;

verus! {

/// The places a client is sent to.
#[derive(Clone, Copy, Debug, PartialEq, Eq, Structural)]
pub enum Location {
    Home,
    SignIn,
    SignUp,
    CreatePersona,
}

impl Location {
    /// The path of the place.
    pub open spec fn text(self) -> Seq<char> {
        match self {
            Location::Home => "/"@,
            Location::SignIn => "/auth/sign_in"@,
            Location::SignUp => "/auth/sign_up"@,
            Location::CreatePersona => "/personas/create"@,
        }
    }

    /// The path of the place.
    pub fn path(&self) -> (path: &'static str)
        ensures
            path@ == self.text(),
    {
        match self {
            Location::Home => "/",
            Location::SignIn => "/auth/sign_in",
            Location::SignUp => "/auth/sign_up",
            Location::CreatePersona => "/personas/create",
        }
    }
}

/// What the landing page answers.
#[derive(Clone, Copy, Debug, PartialEq, Eq, Structural)]
pub enum HomeResponse {
    /// The home page of the user with this id.
    Page { user_id: i32 },
    /// The client is sent elsewhere.
    Redirect(Location),
}

/// The answer for a signed-in user: the home page if the session names a
/// persona or the user has a primary one, else the way to the page that
/// creates one.
pub open spec fn home_for(
    user: AuthenticatedUser,
    persona_in_session: bool,
    primary_persona: Option<i32>,
) -> HomeResponse {
    if persona_in_session || primary_persona is Some {
        HomeResponse::Page { user_id: user.id }
    } else {
        HomeResponse::Redirect(Location::CreatePersona)
    }
}

/// Decides the answer of the landing page for a signed-in user.
pub fn home(
    user: &AuthenticatedUser,
    persona_in_session: bool,
    primary_persona: Option<i32>,
) -> (response: HomeResponse)
    ensures
        response == home_for(*user, persona_in_session, primary_persona),
{
    if persona_in_session || primary_persona.is_some() {
        HomeResponse::Page { user_id: user.id() }
    } else {
        HomeResponse::Redirect(Location::CreatePersona)
    }
}

/// The answer for a client that is not signed in.
pub fn home_redirect() -> (location: Location)
    ensures
        location == Location::SignIn,
{
    Location::SignIn
}

} // verus!
