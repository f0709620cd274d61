//! Signing up, signing in and confirming an account, as the routes see
//! them: each operation's error, and the answer for each way it can end.

use crate::db::DbActionError;
use crate::forms::auth::{
    ConfirmAccountFail, ConfirmToken, ConfirmationToken, LookUpToken, NewAccount, SignIn,
    SignInErrorMessage, SignInFail, SignInForm, SignUp, SignUpFail, SignUpForm, SignUpFormState,
    ValidateSignInForm, ValidateSignInFormFail, ValidateSignUpForm, ValidateSignUpFormFail,
    ValidateTokenFail, ValidatedSignInForm, ValidatedSignUpForm, token_fault,
};
use crate::models::AuthenticatedUser;
use crate::pipeline::Operation;
use crate::routes::app::Location;
use vstd::prelude::*;
use vstd::std_specs::convert::FromSpecImpl;
use vstd::string::*;

verus! {

/// Why a sign-up route has nobody to welcome.
#[derive(Clone, Copy, Debug, PartialEq, Eq)]
pub enum SignUpError {
    Mailbox,
    Database,
    SignUp(SignUpFail),
}

/// The sign-up error for a unit of work that yielded nothing.
pub open spec fn sign_up_failure(e: DbActionError<SignUpFail>) -> SignUpError {
    match e {
        DbActionError::Connection => SignUpError::Database,
        DbActionError::Mailbox => SignUpError::Mailbox,
        DbActionError::Action(e) => SignUpError::SignUp(e),
    }
}

impl From<DbActionError<SignUpFail>> for SignUpError {
    fn from(e: DbActionError<SignUpFail>) -> (error: Self)
        ensures
            error == sign_up_failure(e),
    {
        match e {
            DbActionError::Connection => SignUpError::Database,
            DbActionError::Mailbox => SignUpError::Mailbox,
            DbActionError::Action(e) => SignUpError::SignUp(e),
        }
    }
}

impl FromSpecImpl<DbActionError<SignUpFail>> for SignUpError {
    open spec fn obeys_from_spec() -> bool {
        true
    }

    open spec fn from_spec(e: DbActionError<SignUpFail>) -> Self {
        sign_up_failure(e)
    }
}

impl From<ValidateSignUpFormFail> for SignUpError {
    fn from(e: ValidateSignUpFormFail) -> (error: Self)
        ensures
            error == SignUpError::SignUp(SignUpFail::ValidationError(e)),
    {
        SignUpError::SignUp(SignUpFail::from(e))
    }
}

impl FromSpecImpl<ValidateSignUpFormFail> for SignUpError {
    open spec fn obeys_from_spec() -> bool {
        true
    }

    open spec fn from_spec(e: ValidateSignUpFormFail) -> Self {
        SignUpError::SignUp(SignUpFail::ValidationError(e))
    }
}

impl SignUpError {
    /// The error in words.
    pub open spec fn text(self) -> Seq<char> {
        match self {
            SignUpError::Mailbox => "Error talking to db actor"@,
            SignUpError::Database => "Error talking db"@,
            SignUpError::SignUp(e) => "Error signing up: "@ + e.text(),
        }
    }

    /// The error in words.
    pub fn message(&self) -> (s: String)
        ensures
            s@ == self.text(),
    {
        match self {
            SignUpError::Mailbox => String::from_str("Error talking to db actor"),
            SignUpError::Database => String::from_str("Error talking db"),
            SignUpError::SignUp(e) => {
                let cause = e.message();
                String::from_str("Error signing up: ").concat(cause.as_str())
            },
        }
    }
}

impl Operation for SignUpError {
    type Form = SignUpForm;

    type Work = SignUp;

    type Output = NewAccount;

    type Fail = SignUpFail;

    open spec fn admits(form: SignUpForm) -> bool {
        form.valid()
    }

    open spec fn work(form: SignUpForm) -> SignUp {
        SignUp(ValidatedSignUpForm::accepted(form))
    }

    open spec fn refusal(form: SignUpForm) -> SignUpError {
        SignUpError::SignUp(SignUpFail::ValidationError(form.faults()))
    }

    open spec fn failure(e: DbActionError<SignUpFail>) -> SignUpError {
        sign_up_failure(e)
    }

    fn validate(form: SignUpForm) -> (checked: Result<SignUp, SignUpError>) {
        match ValidateSignUpForm(form).validate() {
            Ok(form) => Ok(SignUp(form)),
            Err(e) => Err(SignUpError::from(e)),
        }
    }

    fn fail(e: DbActionError<SignUpFail>) -> (error: SignUpError) {
        SignUpError::from(e)
    }
}

/// Why a sign-in route has nobody to let in.
#[derive(Clone, Copy, Debug, PartialEq, Eq)]
pub enum SignInError {
    Mailbox,
    Database,
    SignIn(SignInFail),
}

/// The sign-in error for a unit of work that yielded nothing.
pub open spec fn sign_in_failure(e: DbActionError<SignInFail>) -> SignInError {
    match e {
        DbActionError::Connection => SignInError::Database,
        DbActionError::Mailbox => SignInError::Mailbox,
        DbActionError::Action(e) => SignInError::SignIn(e),
    }
}

impl From<DbActionError<SignInFail>> for SignInError {
    fn from(e: DbActionError<SignInFail>) -> (error: Self)
        ensures
            error == sign_in_failure(e),
    {
        match e {
            DbActionError::Connection => SignInError::Database,
            DbActionError::Mailbox => SignInError::Mailbox,
            DbActionError::Action(e) => SignInError::SignIn(e),
        }
    }
}

impl FromSpecImpl<DbActionError<SignInFail>> for SignInError {
    open spec fn obeys_from_spec() -> bool {
        true
    }

    open spec fn from_spec(e: DbActionError<SignInFail>) -> Self {
        sign_in_failure(e)
    }
}

impl From<ValidateSignInFormFail> for SignInError {
    fn from(e: ValidateSignInFormFail) -> (error: Self)
        ensures
            error == SignInError::SignIn(SignInFail::ValidationError(e)),
    {
        SignInError::SignIn(SignInFail::from(e))
    }
}

impl FromSpecImpl<ValidateSignInFormFail> for SignInError {
    open spec fn obeys_from_spec() -> bool {
        true
    }

    open spec fn from_spec(e: ValidateSignInFormFail) -> Self {
        SignInError::SignIn(SignInFail::ValidationError(e))
    }
}

impl SignInError {
    /// The error in words.
    pub open spec fn text(self) -> Seq<char> {
        match self {
            SignInError::Mailbox => "Error talking to db actor"@,
            SignInError::Database => "Error talking db"@,
            SignInError::SignIn(e) => "Error signing in: "@ + e.text(),
        }
    }

    /// The error in words.
    pub fn message(&self) -> (s: String)
        ensures
            s@ == self.text(),
    {
        match self {
            SignInError::Mailbox => String::from_str("Error talking to db actor"),
            SignInError::Database => String::from_str("Error talking db"),
            SignInError::SignIn(e) => {
                let cause = e.message();
                String::from_str("Error signing in: ").concat(cause.as_str())
            },
        }
    }
}

impl Operation for SignInError {
    type Form = SignInForm;

    type Work = SignIn;

    type Output = AuthenticatedUser;

    type Fail = SignInFail;

    open spec fn admits(form: SignInForm) -> bool {
        form.valid()
    }

    open spec fn work(form: SignInForm) -> SignIn {
        SignIn(ValidatedSignInForm::accepted(form))
    }

    open spec fn refusal(form: SignInForm) -> SignInError {
        SignInError::SignIn(SignInFail::ValidationError(form.faults()))
    }

    open spec fn failure(e: DbActionError<SignInFail>) -> SignInError {
        sign_in_failure(e)
    }

    fn validate(form: SignInForm) -> (checked: Result<SignIn, SignInError>) {
        match ValidateSignInForm(form).validate() {
            Ok(form) => Ok(SignIn(form)),
            Err(e) => Err(SignInError::from(e)),
        }
    }

    fn fail(e: DbActionError<SignInFail>) -> (error: SignInError) {
        SignInError::from(e)
    }
}

/// Why a confirmation route has no account to confirm.
#[derive(Clone, Copy, Debug, PartialEq, Eq, Structural)]
pub enum ConfirmError {
    Mailbox,
    Database,
    Confirm(ConfirmAccountFail),
}

/// The confirmation error for a unit of work that yielded nothing.
pub open spec fn confirm_failure(e: DbActionError<ConfirmAccountFail>) -> ConfirmError {
    match e {
        DbActionError::Connection => ConfirmError::Database,
        DbActionError::Mailbox => ConfirmError::Mailbox,
        DbActionError::Action(e) => ConfirmError::Confirm(e),
    }
}

impl From<DbActionError<ConfirmAccountFail>> for ConfirmError {
    fn from(e: DbActionError<ConfirmAccountFail>) -> (error: Self)
        ensures
            error == confirm_failure(e),
    {
        match e {
            DbActionError::Connection => ConfirmError::Database,
            DbActionError::Mailbox => ConfirmError::Mailbox,
            DbActionError::Action(e) => ConfirmError::Confirm(e),
        }
    }
}

impl FromSpecImpl<DbActionError<ConfirmAccountFail>> for ConfirmError {
    open spec fn obeys_from_spec() -> bool {
        true
    }

    open spec fn from_spec(e: DbActionError<ConfirmAccountFail>) -> Self {
        confirm_failure(e)
    }
}

impl From<ValidateTokenFail> for ConfirmError {
    fn from(e: ValidateTokenFail) -> (error: Self)
        ensures
            error == ConfirmError::Confirm(ConfirmAccountFail::ValidationError(e)),
    {
        ConfirmError::Confirm(ConfirmAccountFail::from(e))
    }
}

impl FromSpecImpl<ValidateTokenFail> for ConfirmError {
    open spec fn obeys_from_spec() -> bool {
        true
    }

    open spec fn from_spec(e: ValidateTokenFail) -> Self {
        ConfirmError::Confirm(ConfirmAccountFail::ValidationError(e))
    }
}

impl ConfirmError {
    /// The error in words.
    pub open spec fn text(self) -> Seq<char> {
        match self {
            ConfirmError::Mailbox => "Error talking to db actor"@,
            ConfirmError::Database => "Error talking db"@,
            ConfirmError::Confirm(e) => "Error confirming account: "@ + e.text(),
        }
    }

    /// The error in words.
    pub fn message(&self) -> (s: String)
        ensures
            s@ == self.text(),
    {
        match self {
            ConfirmError::Mailbox => String::from_str("Error talking to db actor"),
            ConfirmError::Database => String::from_str("Error talking db"),
            ConfirmError::Confirm(e) => {
                let cause = e.message();
                String::from_str("Error confirming account: ").concat(cause.as_str())
            },
        }
    }
}

impl Operation for ConfirmError {
    type Form = ConfirmationToken;

    type Work = LookUpToken;

    type Output = i32;

    type Fail = ConfirmAccountFail;

    open spec fn admits(form: ConfirmationToken) -> bool {
        token_fault(form.token@) is None
    }

    open spec fn work(form: ConfirmationToken) -> LookUpToken {
        LookUpToken::accepted(form)
    }

    open spec fn refusal(form: ConfirmationToken) -> ConfirmError {
        ConfirmError::Confirm(ConfirmAccountFail::ValidationError(token_fault(form.token@)->0))
    }

    open spec fn failure(e: DbActionError<ConfirmAccountFail>) -> ConfirmError {
        confirm_failure(e)
    }

    fn validate(form: ConfirmationToken) -> (checked: Result<LookUpToken, ConfirmError>) {
        match ConfirmToken(form).validate() {
            Ok(lookup) => Ok(lookup),
            Err(e) => Err(ConfirmError::from(e)),
        }
    }

    fn fail(e: DbActionError<ConfirmAccountFail>) -> (error: ConfirmError) {
        ConfirmError::from(e)
    }
}

/// The sign-up page: what is filled in already, which fields broke which
/// rule, and what else went wrong.
#[derive(Clone, Debug, PartialEq, Eq)]
pub struct SignUpPage {
    pub state: SignUpFormState,
    pub validation: Option<ValidateSignUpFormFail>,
    pub error: Option<String>,
}

/// The sign-in page, with the message it shows, if any.
#[derive(Clone, Debug, PartialEq, Eq)]
pub struct SignInPage {
    pub error: Option<String>,
}

/// A client sent elsewhere with a message to show there.
#[derive(Clone, Debug, PartialEq, Eq)]
pub struct RedirectError {
    pub location: Location,
    pub msg: Option<String>,
}

/// What the sign-up route answers.
#[derive(Clone, Debug, PartialEq, Eq)]
pub enum SignUpResponse {
    /// An account waits to be confirmed: the link goes to its owner by
    /// some other way, the client to `location`.
    Created { location: Location, link: ConfirmationToken },
    /// Nothing was created: the form is shown again.
    Page(SignUpPage),
}

/// What the sign-in route answers.
#[derive(Clone, Debug, PartialEq, Eq)]
pub enum SignInResponse {
    /// The session is to remember this user; the client goes to
    /// `location`.
    SignedIn { user_id: i32, location: Location },
    /// Nobody was let in.
    Refused(RedirectError),
}

/// The name under which a session remembers its user.
pub fn session_key() -> (key: &'static str)
    ensures
        key@ == "user_id"@,
{
    "user_id"
}

/// The empty sign-up page.
pub fn sign_up_form() -> (page: SignUpPage)
    ensures
        page.state.email@ == Seq::<char>::empty(),
        page.validation is None,
        page.error is None,
{
    SignUpPage { state: SignUpFormState { email: String::new() }, validation: None, error: None }
}

/// The sign-in page, with the message that came along, if one did.
pub fn sign_in_form(error: Option<SignInErrorMessage>) -> (page: SignInPage)
    ensures
        page.error == match error {
            Some(message) => Some(message.msg),
            None => None,
        },
{
    match error {
        Some(message) => SignInPage { error: Some(message.msg) },
        None => SignInPage { error: None },
    }
}

/// Whether `response` is the answer to a sign-up that ended as `ended`,
/// for a form that is shown again as `state`.
///
/// A created account sends the client to the sign-in page, with the link
/// that confirms the new email record. A form that broke a rule is shown
/// again with the rules that were broken; any other failure shows the
/// form again with the failure in words.
pub open spec fn answers_sign_up(
    ended: Result<NewAccount, SignUpError>,
    state: SignUpFormState,
    response: SignUpResponse,
) -> bool {
    match ended {
        Ok(account) => response == (SignUpResponse::Created {
            location: Location::SignIn,
            link: ConfirmationToken { id: account.email_id, token: account.token },
        }),
        Err(SignUpError::SignUp(SignUpFail::ValidationError(e))) => response
            == SignUpResponse::Page(SignUpPage { state, validation: Some(e), error: None }),
        Err(SignUpError::SignUp(e)) => {
            &&& response matches SignUpResponse::Page(page)
            &&& page.state == state
            &&& page.validation is None
            &&& page.error matches Some(text)
            &&& text@ == e.text()
        },
        Err(e) => {
            &&& response matches SignUpResponse::Page(page)
            &&& page.state == state
            &&& page.validation is None
            &&& page.error matches Some(text)
            &&& text@ == e.text()
        },
    }
}

/// Decides the answer of the sign-up route.
pub fn sign_up(ended: Result<NewAccount, SignUpError>, state: SignUpFormState) -> (response:
    SignUpResponse)
    ensures
        answers_sign_up(ended, state, response),
{
    match ended {
        Ok(account) => SignUpResponse::Created {
            location: Location::SignIn,
            link: ConfirmationToken { id: account.email_id, token: account.token },
        },
        Err(SignUpError::SignUp(SignUpFail::ValidationError(e))) => SignUpResponse::Page(
            SignUpPage { state, validation: Some(e), error: None },
        ),
        Err(SignUpError::SignUp(e)) => SignUpResponse::Page(
            SignUpPage { state, validation: None, error: Some(e.message()) },
        ),
        Err(e) => SignUpResponse::Page(
            SignUpPage { state, validation: None, error: Some(e.message()) },
        ),
    }
}

/// Whether `response` is the answer to a sign-in that ended as `ended`:
/// a user who was let in goes home, anyone else back to the sign-in page
/// with the error in words.
pub open spec fn answers_sign_in(
    ended: Result<AuthenticatedUser, SignInError>,
    response: SignInResponse,
) -> bool {
    match ended {
        Ok(user) => response == (SignInResponse::SignedIn {
            user_id: user.id,
            location: Location::Home,
        }),
        Err(e) => {
            &&& response matches SignInResponse::Refused(redirect)
            &&& redirect.location == Location::SignIn
            &&& redirect.msg matches Some(text)
            &&& text@ == e.text()
        },
    }
}

/// Decides the answer of the sign-in route.
pub fn sign_in(ended: Result<AuthenticatedUser, SignInError>) -> (response: SignInResponse)
    ensures
        answers_sign_in(ended, response),
{
    match ended {
        Ok(user) => SignInResponse::SignedIn { user_id: user.id(), location: Location::Home },
        Err(e) => SignInResponse::Refused(
            RedirectError { location: Location::SignIn, msg: Some(e.message()) },
        ),
    }
}

/// Whether `response` is the answer to a confirmation that ended as
/// `ended`: a confirmed account sends the client to the sign-in page, a
/// failure back to the sign-up page with the error in words.
pub open spec fn answers_confirm(
    ended: Result<i32, ConfirmError>,
    response: Result<Location, RedirectError>,
) -> bool {
    match ended {
        Ok(_) => response == Ok::<Location, RedirectError>(Location::SignIn),
        Err(e) => {
            &&& response matches Err(redirect)
            &&& redirect.location == Location::SignUp
            &&& redirect.msg matches Some(text)
            &&& text@ == e.text()
        },
    }
}

/// Decides the answer of the confirmation route.
pub fn confirm(ended: Result<i32, ConfirmError>) -> (response: Result<Location, RedirectError>)
    ensures
        answers_confirm(ended, response),
{
    match ended {
        Ok(_) => Ok(Location::SignIn),
        Err(e) => Err(RedirectError { location: Location::SignUp, msg: Some(e.message()) }),
    }
}

/// Where a client goes once its session has forgotten its user.
pub fn sign_out() -> (location: Location)
    ensures
        location == Location::SignIn,
{
    Location::SignIn
}

/// Each route error keeps apart what the executor kept apart: two
/// failures of the executor that differ become two errors that differ.
pub proof fn conversions_keep_failures_apart(
    sign_up: (DbActionError<SignUpFail>, DbActionError<SignUpFail>),
    sign_in: (DbActionError<SignInFail>, DbActionError<SignInFail>),
    confirm: (DbActionError<ConfirmAccountFail>, DbActionError<ConfirmAccountFail>),
)
    ensures
        sign_up.0 != sign_up.1 ==> sign_up_failure(sign_up.0) != sign_up_failure(sign_up.1),
        sign_in.0 != sign_in.1 ==> sign_in_failure(sign_in.0) != sign_in_failure(sign_in.1),
        confirm.0 != confirm.1 ==> confirm_failure(confirm.0) != confirm_failure(confirm.1),
{
}

} // verus!
