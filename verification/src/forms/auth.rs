//! Signing up, signing in and confirming an account: the forms as they
//! come in, the rules they are held to, and the units of work that only a
//! form that passed can start.

use crate::models::AuthenticatedUser;
use crate::storage::{StorageFault, classify, fault_of};
use vstd::prelude::*;
use vstd::std_specs::convert::FromSpecImpl;
use vstd::string::*;

verus! {

/// The one rule for an email address: it is there.
#[derive(Clone, Copy, Debug, PartialEq, Eq, Structural)]
pub enum ValidateEmailFail {
    Empty,
}

/// The one rule for a password: it is there.
#[derive(Clone, Copy, Debug, PartialEq, Eq, Structural)]
pub enum ValidatePasswordFail {
    Empty,
}

/// The rules for the repeated password: it is there, and it repeats the
/// password.
#[derive(Clone, Copy, Debug, PartialEq, Eq, Structural)]
pub enum ValidatePasswordConfirmationFail {
    Empty,
    Mismatch,
}

/// The rules for a confirmation token: it is there, and it is made of
/// ASCII letters, digits, `-` and `_` alone.
#[derive(Clone, Copy, Debug, PartialEq, Eq, Structural)]
pub enum ValidateTokenFail {
    Empty,
    Malformed,
}

/// The rule that an email address breaks, if any.
pub open spec fn email_fault(email: Seq<char>) -> Option<ValidateEmailFail> {
    if email.len() == 0 {
        Some(ValidateEmailFail::Empty)
    } else {
        None
    }
}

/// The rule that a password breaks, if any.
pub open spec fn password_fault(password: Seq<char>) -> Option<ValidatePasswordFail> {
    if password.len() == 0 {
        Some(ValidatePasswordFail::Empty)
    } else {
        None
    }
}

/// The rule that the repeated password breaks, if any. A repetition that
/// is missing is reported as missing, whatever the password is.
pub open spec fn repeat_fault(password: Seq<char>, confirmation: Seq<char>) -> Option<
    ValidatePasswordConfirmationFail,
> {
    if confirmation.len() == 0 {
        Some(ValidatePasswordConfirmationFail::Empty)
    } else if confirmation != password {
        Some(ValidatePasswordConfirmationFail::Mismatch)
    } else {
        None
    }
}

/// The characters that a confirmation token may hold.
pub open spec fn token_char(c: char) -> bool {
    ||| 'a' <= c <= 'z'
    ||| 'A' <= c <= 'Z'
    ||| '0' <= c <= '9'
    ||| c == '-'
    ||| c == '_'
}

/// The rule that a confirmation token breaks, if any.
pub open spec fn token_fault(token: Seq<char>) -> Option<ValidateTokenFail> {
    if token.len() == 0 {
        Some(ValidateTokenFail::Empty)
    } else if exists|i: int| 0 <= i < token.len() && !token_char(#[trigger] token[i]) {
        Some(ValidateTokenFail::Malformed)
    } else {
        None
    }
}

fn check_email(email: &String) -> (fault: Option<ValidateEmailFail>)
    ensures
        fault == email_fault(email@),
{
    if email.as_str().is_empty() {
        Some(ValidateEmailFail::Empty)
    } else {
        None
    }
}

fn check_password(password: &String) -> (fault: Option<ValidatePasswordFail>)
    ensures
        fault == password_fault(password@),
{
    if password.as_str().is_empty() {
        Some(ValidatePasswordFail::Empty)
    } else {
        None
    }
}

fn check_confirmation(password: &String, confirmation: &String) -> (fault: Option<
    ValidatePasswordConfirmationFail,
>)
    ensures
        fault == repeat_fault(password@, confirmation@),
{
    if confirmation.as_str().is_empty() {
        Some(ValidatePasswordConfirmationFail::Empty)
    } else if !(*confirmation == *password) {
        Some(ValidatePasswordConfirmationFail::Mismatch)
    } else {
        None
    }
}

fn token_byte(b: u8) -> (ok: bool)
    ensures
        ok == token_char(b as char),
{
    (97 <= b && b <= 122) || (65 <= b && b <= 90) || (48 <= b && b <= 57) || b == 45 || b == 95
}

fn check_token(token: &String) -> (fault: Option<ValidateTokenFail>)
    ensures
        fault == token_fault(token@),
{
    broadcast use is_ascii_spec_bytes;

    let text = token.as_str();
    if text.is_empty() {
        return Some(ValidateTokenFail::Empty);
    }
    if !text.is_ascii() {
        proof {
            let i = choose|i: int|
                0 <= i < text@.len() && !('\0' <= #[trigger] text@[i] <= '\u{7f}');
            assert(!token_char(text@[i]));
        }
        return Some(ValidateTokenFail::Malformed);
    }
    let bytes = text.as_bytes();
    let mut i: usize = 0;
    while i < bytes.len()
        invariant
            i <= bytes@.len(),
            bytes@.len() == text@.len(),
            text@ == token@,
            forall|j: int| 0 <= j < text@.len() ==> bytes@[j] == text@[j] as u8,
            forall|j: int| 0 <= j < text@.len() ==> '\0' <= #[trigger] text@[j] <= '\u{7f}',
            forall|j: int| 0 <= j < i ==> token_char(#[trigger] text@[j]),
        decreases bytes@.len() - i,
    {
        if !token_byte(bytes[i]) {
            assert(!token_char(text@[i as int]));
            return Some(ValidateTokenFail::Malformed);
        }
        i = i + 1;
    }
    None
}

/// A sign-up form as it came in.
#[derive(Clone, Debug, PartialEq, Eq)]
pub struct SignUpForm {
    pub csrf_token: String,
    pub email: String,
    pub password: String,
    pub password_confirmation: String,
}

/// What of a sign-up form is shown again when the form is sent back: the
/// passwords are not.
#[derive(Clone, Debug, PartialEq, Eq)]
pub struct SignUpFormState {
    pub email: String,
}

/// Which fields of a sign-up form broke which rule. At least one did.
#[derive(Clone, Copy, Debug, PartialEq, Eq)]
pub struct ValidateSignUpFormFail {
    pub email: Option<ValidateEmailFail>,
    pub password: Option<ValidatePasswordFail>,
    pub password_confirmation: Option<ValidatePasswordConfirmationFail>,
}

impl SignUpForm {
    /// The rule that each field breaks, if any.
    pub open spec fn faults(self) -> ValidateSignUpFormFail {
        ValidateSignUpFormFail {
            email: email_fault(self.email@),
            password: password_fault(self.password@),
            password_confirmation: repeat_fault(self.password@, self.password_confirmation@),
        }
    }

    /// No field breaks a rule.
    pub open spec fn valid(self) -> bool {
        &&& email_fault(self.email@) is None
        &&& password_fault(self.password@) is None
        &&& repeat_fault(self.password@, self.password_confirmation@) is None
    }

    /// A form that does not pass is answered with at least one field and
    /// the rule it broke, never with a bare refusal.
    pub proof fn refusal_names_a_field(self)
        requires
            !self.valid(),
        ensures
            self.faults().email is Some || self.faults().password is Some
                || self.faults().password_confirmation is Some,
    {
    }

    /// What is shown again of the form.
    pub fn as_state(&self) -> (state: SignUpFormState)
        ensures
            state.email@ == self.email@,
    {
        SignUpFormState { email: self.email.clone() }
    }
}

/// A sign-up form that passed: an email address and a password, neither
/// of them empty.
pub struct ValidatedSignUpForm {
    email: String,
    password: String,
}

impl ValidatedSignUpForm {
    #[verifier::type_invariant]
    spec fn filled(self) -> bool {
        self.email@.len() > 0 && self.password@.len() > 0
    }

    /// The validated form that a valid sign-up form turns into.
    pub closed spec fn accepted(form: SignUpForm) -> ValidatedSignUpForm {
        ValidatedSignUpForm { email: form.email, password: form.password }
    }

    /// The email address of the form.
    pub closed spec fn email_text(self) -> Seq<char> {
        self.email@
    }

    /// The password of the form.
    pub closed spec fn password_text(self) -> Seq<char> {
        self.password@
    }

    /// A validated form holds the email address and the password of the
    /// form it came from.
    pub proof fn accepted_keeps_fields(form: SignUpForm)
        ensures
            Self::accepted(form).email_text() == form.email@,
            Self::accepted(form).password_text() == form.password@,
    {
    }

    /// The email address. It is not empty.
    pub fn email(&self) -> (email: &String)
        ensures
            email@ == self.email_text(),
            email@.len() > 0,
    {
        proof {
            use_type_invariant(self);
        }
        &self.email
    }

    /// The password. It is not empty.
    pub fn password(&self) -> (password: &String)
        ensures
            password@ == self.password_text(),
            password@.len() > 0,
    {
        proof {
            use_type_invariant(self);
        }
        &self.password
    }
}

/// The validation stage of signing up.
pub struct ValidateSignUpForm(pub SignUpForm);

impl ValidateSignUpForm {
    /// Holds every field to its rules. A form that breaks none becomes a
    /// validated form; any other is answered with the rule that each
    /// field broke.
    pub fn validate(self) -> (checked: Result<ValidatedSignUpForm, ValidateSignUpFormFail>)
        ensures
            self.0.valid() ==> checked == Ok::<ValidatedSignUpForm, ValidateSignUpFormFail>(
                ValidatedSignUpForm::accepted(self.0),
            ),
            !self.0.valid() ==> checked == Err::<ValidatedSignUpForm, ValidateSignUpFormFail>(
                self.0.faults(),
            ),
    {
        let form = self.0;
        let email = check_email(&form.email);
        let password = check_password(&form.password);
        let password_confirmation = check_confirmation(&form.password, &form.password_confirmation);
        if email.is_none() && password.is_none() && password_confirmation.is_none() {
            Ok(ValidatedSignUpForm { email: form.email, password: form.password })
        } else {
            Err(ValidateSignUpFormFail { email, password, password_confirmation })
        }
    }
}

/// The account that storage created for a sign-up: the user, the email
/// record that waits to be confirmed, and the token that confirms it.
#[derive(Clone, Debug, PartialEq, Eq)]
pub struct NewAccount {
    pub user_id: i32,
    pub email_id: i32,
    pub token: String,
}

/// Why nobody was signed up.
#[derive(Clone, Copy, Debug, PartialEq, Eq)]
pub enum SignUpFail {
    ValidationError(ValidateSignUpFormFail),
    Database,
}

impl From<ValidateSignUpFormFail> for SignUpFail {
    fn from(e: ValidateSignUpFormFail) -> (fail: Self)
        ensures
            fail == SignUpFail::ValidationError(e),
    {
        SignUpFail::ValidationError(e)
    }
}

impl FromSpecImpl<ValidateSignUpFormFail> for SignUpFail {
    open spec fn obeys_from_spec() -> bool {
        true
    }

    open spec fn from_spec(e: ValidateSignUpFormFail) -> Self {
        SignUpFail::ValidationError(e)
    }
}

/// What a sign-up reports once storage has answered: the account as
/// storage created it, or `Database` for any fault.
pub open spec fn sign_up_result(created: Result<NewAccount, diesel::result::Error>) -> Result<
    NewAccount,
    SignUpFail,
> {
    match created {
        Ok(account) => Ok(account),
        Err(_) => Err(SignUpFail::Database),
    }
}

/// The unit of work of signing up. Only a validated form starts one.
pub struct SignUp(pub ValidatedSignUpForm);

impl SignUp {
    /// Concludes the sign-up from storage's answer `created` to the
    /// request to create the account. The validated form, and with it
    /// the password, ends here.
    pub fn db_action(self, created: Result<NewAccount, diesel::result::Error>) -> (done: Result<
        NewAccount,
        SignUpFail,
    >)
        ensures
            done == sign_up_result(created),
    {
        match created {
            Ok(account) => Ok(account),
            Err(_) => Err(SignUpFail::Database),
        }
    }
}

/// A sign-in form as it came in.
#[derive(Clone, Debug, PartialEq, Eq)]
pub struct SignInForm {
    pub csrf_token: String,
    pub email: String,
    pub password: String,
}

/// The message that the sign-in page shows above the form.
#[derive(Clone, Debug, PartialEq, Eq)]
pub struct SignInErrorMessage {
    pub msg: String,
}

/// Which fields of a sign-in form broke which rule. At least one did.
#[derive(Clone, Copy, Debug, PartialEq, Eq)]
pub struct ValidateSignInFormFail {
    pub email: Option<ValidateEmailFail>,
    pub password: Option<ValidatePasswordFail>,
}

impl SignInForm {
    /// The rule that each field breaks, if any.
    pub open spec fn faults(self) -> ValidateSignInFormFail {
        ValidateSignInFormFail {
            email: email_fault(self.email@),
            password: password_fault(self.password@),
        }
    }

    /// No field breaks a rule.
    pub open spec fn valid(self) -> bool {
        email_fault(self.email@) is None && password_fault(self.password@) is None
    }

    /// A form that does not pass is answered with at least one field and
    /// the rule it broke, never with a bare refusal.
    pub proof fn refusal_names_a_field(self)
        requires
            !self.valid(),
        ensures
            self.faults().email is Some || self.faults().password is Some,
    {
    }
}

/// A sign-in form that passed: an email address and a password, neither
/// of them empty.
pub struct ValidatedSignInForm {
    email: String,
    password: String,
}

impl ValidatedSignInForm {
    #[verifier::type_invariant]
    spec fn filled(self) -> bool {
        self.email@.len() > 0 && self.password@.len() > 0
    }

    /// The validated form that a valid sign-in form turns into.
    pub closed spec fn accepted(form: SignInForm) -> ValidatedSignInForm {
        ValidatedSignInForm { email: form.email, password: form.password }
    }

    /// The email address of the form.
    pub closed spec fn email_text(self) -> Seq<char> {
        self.email@
    }

    /// The password of the form.
    pub closed spec fn password_text(self) -> Seq<char> {
        self.password@
    }

    /// A validated form holds the email address and the password of the
    /// form it came from.
    pub proof fn accepted_keeps_fields(form: SignInForm)
        ensures
            Self::accepted(form).email_text() == form.email@,
            Self::accepted(form).password_text() == form.password@,
    {
    }

    /// The email address. It is not empty.
    pub fn email(&self) -> (email: &String)
        ensures
            email@ == self.email_text(),
            email@.len() > 0,
    {
        proof {
            use_type_invariant(self);
        }
        &self.email
    }

    /// The password. It is not empty.
    pub fn password(&self) -> (password: &String)
        ensures
            password@ == self.password_text(),
            password@.len() > 0,
    {
        proof {
            use_type_invariant(self);
        }
        &self.password
    }
}

/// The validation stage of signing in.
pub struct ValidateSignInForm(pub SignInForm);

impl ValidateSignInForm {
    /// Holds every field to its rules. A form that breaks none becomes a
    /// validated form; any other is answered with the rule that each
    /// field broke.
    pub fn validate(self) -> (checked: Result<ValidatedSignInForm, ValidateSignInFormFail>)
        ensures
            self.0.valid() ==> checked == Ok::<ValidatedSignInForm, ValidateSignInFormFail>(
                ValidatedSignInForm::accepted(self.0),
            ),
            !self.0.valid() ==> checked == Err::<ValidatedSignInForm, ValidateSignInFormFail>(
                self.0.faults(),
            ),
    {
        let form = self.0;
        let email = check_email(&form.email);
        let password = check_password(&form.password);
        if email.is_none() && password.is_none() {
            Ok(ValidatedSignInForm { email: form.email, password: form.password })
        } else {
            Err(ValidateSignInFormFail { email, password })
        }
    }
}

/// Why nobody was signed in. An unknown address, a wrong password and a
/// storage fault are told apart by nobody.
#[derive(Clone, Copy, Debug, PartialEq, Eq)]
pub enum SignInFail {
    ValidationError(ValidateSignInFormFail),
    GenericLoginError,
}

impl From<ValidateSignInFormFail> for SignInFail {
    fn from(e: ValidateSignInFormFail) -> (fail: Self)
        ensures
            fail == SignInFail::ValidationError(e),
    {
        SignInFail::ValidationError(e)
    }
}

impl FromSpecImpl<ValidateSignInFormFail> for SignInFail {
    open spec fn obeys_from_spec() -> bool {
        true
    }

    open spec fn from_spec(e: ValidateSignInFormFail) -> Self {
        SignInFail::ValidationError(e)
    }
}

/// What a sign-in reports once storage has answered: the user whose
/// credentials matched, or `GenericLoginError` where none did or storage
/// failed.
pub open spec fn sign_in_result(matched: Result<Option<i32>, diesel::result::Error>) -> Result<
    AuthenticatedUser,
    SignInFail,
> {
    match matched {
        Ok(Some(id)) => Ok(AuthenticatedUser { id }),
        _ => Err(SignInFail::GenericLoginError),
    }
}

/// The unit of work of signing in. Only a validated form starts one.
pub struct SignIn(pub ValidatedSignInForm);

impl SignIn {
    /// Concludes the sign-in from storage's answer `matched` to the
    /// question which user the credentials of the form belong to.
    pub fn db_action(self, matched: Result<Option<i32>, diesel::result::Error>) -> (done: Result<
        AuthenticatedUser,
        SignInFail,
    >)
        ensures
            done == sign_in_result(matched),
    {
        match matched {
            Ok(Some(id)) => Ok(AuthenticatedUser::new(id)),
            _ => Err(SignInFail::GenericLoginError),
        }
    }
}

/// What a confirmation link carries: the email record that it confirms,
/// and the token that proves the right to.
#[derive(Clone, Debug, PartialEq, Eq)]
pub struct ConfirmationToken {
    pub id: i32,
    pub token: String,
}

/// An email record that waits to be confirmed, as storage holds it.
#[derive(Clone, Debug, PartialEq, Eq)]
pub struct PendingEmail {
    pub id: i32,
    pub user_id: i32,
    pub token: String,
}

/// Why no account was confirmed. A token that storage does not know, one
/// that has run out and one that does not match are all `NotFound`.
#[derive(Clone, Copy, Debug, PartialEq, Eq, Structural)]
pub enum ConfirmAccountFail {
    ValidationError(ValidateTokenFail),
    NotFound,
    Database,
}

impl From<ValidateTokenFail> for ConfirmAccountFail {
    fn from(e: ValidateTokenFail) -> (fail: Self)
        ensures
            fail == ConfirmAccountFail::ValidationError(e),
    {
        ConfirmAccountFail::ValidationError(e)
    }
}

impl FromSpecImpl<ValidateTokenFail> for ConfirmAccountFail {
    open spec fn obeys_from_spec() -> bool {
        true
    }

    open spec fn from_spec(e: ValidateTokenFail) -> Self {
        ConfirmAccountFail::ValidationError(e)
    }
}

impl ConfirmAccountFail {
    /// What a confirmation reports for a storage fault: a missing row is
    /// `NotFound`, every other fault is `Database`.
    pub open spec fn of_fault(fault: StorageFault) -> ConfirmAccountFail {
        match fault {
            StorageFault::NotFound => ConfirmAccountFail::NotFound,
            StorageFault::Other => ConfirmAccountFail::Database,
        }
    }
}

impl From<StorageFault> for ConfirmAccountFail {
    fn from(fault: StorageFault) -> (fail: Self)
        ensures
            fail == ConfirmAccountFail::of_fault(fault),
    {
        match fault {
            StorageFault::NotFound => ConfirmAccountFail::NotFound,
            StorageFault::Other => ConfirmAccountFail::Database,
        }
    }
}

impl FromSpecImpl<StorageFault> for ConfirmAccountFail {
    open spec fn obeys_from_spec() -> bool {
        true
    }

    open spec fn from_spec(fault: StorageFault) -> Self {
        ConfirmAccountFail::of_fault(fault)
    }
}

/// What a confirmation reports for a storage error.
pub open spec fn confirmation_fault(e: diesel::result::Error) -> ConfirmAccountFail {
    ConfirmAccountFail::of_fault(fault_of(e))
}

impl From<diesel::result::Error> for ConfirmAccountFail {
    fn from(e: diesel::result::Error) -> (fail: Self)
        ensures
            fail == confirmation_fault(e),
    {
        ConfirmAccountFail::from(classify(&e))
    }
}

impl FromSpecImpl<diesel::result::Error> for ConfirmAccountFail {
    open spec fn obeys_from_spec() -> bool {
        true
    }

    open spec fn from_spec(e: diesel::result::Error) -> Self {
        confirmation_fault(e)
    }
}

/// The validation stage of confirming an account.
pub struct ConfirmToken(pub ConfirmationToken);

/// A well-formed confirmation token that waits for storage to look up the
/// email record it names.
pub struct LookUpToken {
    id: i32,
    token: String,
}

/// Proof that a token matched a pending email record. It can be had from
/// [`LookUpToken::db_action`] alone and confirms that one record.
#[derive(Debug)]
pub struct ConfirmEmail {
    email_id: i32,
    user_id: i32,
}

impl ConfirmToken {
    /// Holds the token to its rules. A well-formed one becomes a lookup;
    /// any other is answered with the rule it broke.
    pub fn validate(self) -> (checked: Result<LookUpToken, ValidateTokenFail>)
        ensures
            match token_fault(self.0.token@) {
                None => checked == Ok::<LookUpToken, ValidateTokenFail>(
                    LookUpToken::accepted(self.0),
                ),
                Some(fault) => checked == Err::<LookUpToken, ValidateTokenFail>(fault),
            },
    {
        let presented = self.0;
        match check_token(&presented.token) {
            None => Ok(LookUpToken { id: presented.id, token: presented.token }),
            Some(fault) => Err(fault),
        }
    }
}

impl LookUpToken {
    #[verifier::type_invariant]
    spec fn well_formed(self) -> bool {
        token_fault(self.token@) is None
    }

    /// The lookup that a well-formed token turns into.
    pub closed spec fn accepted(presented: ConfirmationToken) -> LookUpToken {
        LookUpToken { id: presented.id, token: presented.token }
    }

    /// The id of the email record that the token is presented for.
    pub closed spec fn id(self) -> i32 {
        self.id
    }

    /// The token as it was presented.
    pub closed spec fn token_text(self) -> Seq<char> {
        self.token@
    }

    /// A lookup holds the id and the token that were presented.
    pub proof fn accepted_keeps_fields(presented: ConfirmationToken)
        ensures
            Self::accepted(presented).id() == presented.id,
            Self::accepted(presented).token_text() == presented.token@,
    {
    }

    /// Whether the pending record `found` is the one that this token
    /// confirms: it has the id that was presented, and its token is the
    /// token that was presented.
    pub open spec fn matches_record(self, found: PendingEmail) -> bool {
        found.id == self.id() && found.token@ == self.token_text()
    }

    /// The id of the email record that storage has to look up.
    pub fn email_id(&self) -> (id: i32)
        ensures
            id == self.id(),
    {
        self.id
    }

    /// The token that was presented. It is well formed.
    pub fn token(&self) -> (token: &String)
        ensures
            token@ == self.token_text(),
            token_fault(token@) is None,
    {
        proof {
            use_type_invariant(self);
        }
        &self.token
    }

    /// Concludes the lookup from storage's answer `found`. The right to
    /// confirm is granted for the record that matches and for no other.
    pub fn db_action(self, found: Result<PendingEmail, diesel::result::Error>) -> (looked_up:
        Result<ConfirmEmail, ConfirmAccountFail>)
        ensures
            match found {
                Err(e) => looked_up == Err::<ConfirmEmail, ConfirmAccountFail>(
                    confirmation_fault(e),
                ),
                Ok(record) => if self.matches_record(record) {
                    looked_up matches Ok(confirm) && confirm.email() == record.id && confirm.user()
                        == record.user_id
                } else {
                    looked_up == Err::<ConfirmEmail, ConfirmAccountFail>(
                        ConfirmAccountFail::NotFound,
                    )
                },
            },
    {
        match found {
            Err(e) => Err(ConfirmAccountFail::from(e)),
            Ok(record) => if record.id == self.id && record.token == self.token {
                Ok(ConfirmEmail { email_id: record.id, user_id: record.user_id })
            } else {
                Err(ConfirmAccountFail::NotFound)
            },
        }
    }
}

/// What a confirmation reports once storage has answered the update.
pub open spec fn confirmation_result(
    user: i32,
    updated: Result<(), diesel::result::Error>,
) -> Result<i32, ConfirmAccountFail> {
    match updated {
        Ok(_) => Ok(user),
        Err(e) => Err(confirmation_fault(e)),
    }
}

impl ConfirmEmail {
    /// The email record that the holder may confirm.
    pub closed spec fn email(self) -> i32 {
        self.email_id
    }

    /// The user that the email record belongs to.
    pub closed spec fn user(self) -> i32 {
        self.user_id
    }

    /// The id of the one email record that storage is asked to mark as
    /// confirmed.
    pub fn email_id(&self) -> (id: i32)
        ensures
            id == self.email(),
    {
        self.email_id
    }

    /// Concludes the confirmation from storage's answer `updated`: the
    /// id of the confirmed user, `NotFound` where the record is gone,
    /// `Database` for any other fault.
    pub fn db_action(self, updated: Result<(), diesel::result::Error>) -> (done: Result<
        i32,
        ConfirmAccountFail,
    >)
        ensures
            done == confirmation_result(self.user(), updated),
    {
        match updated {
            Ok(_) => Ok(self.user_id),
            Err(e) => Err(ConfirmAccountFail::from(e)),
        }
    }
}

impl SignUpFail {
    /// The failure in words.
    pub open spec fn text(self) -> Seq<char> {
        match self {
            SignUpFail::ValidationError(_) => "Invalid sign up form"@,
            SignUpFail::Database => "Error creating account"@,
        }
    }

    /// The failure in words.
    pub fn message(&self) -> (s: String)
        ensures
            s@ == self.text(),
    {
        match self {
            SignUpFail::ValidationError(_) => String::from_str("Invalid sign up form"),
            SignUpFail::Database => String::from_str("Error creating account"),
        }
    }
}

impl SignInFail {
    /// The failure in words.
    pub open spec fn text(self) -> Seq<char> {
        match self {
            SignInFail::ValidationError(_) => "Invalid sign in form"@,
            SignInFail::GenericLoginError => "Invalid username or password"@,
        }
    }

    /// The failure in words.
    pub fn message(&self) -> (s: String)
        ensures
            s@ == self.text(),
    {
        match self {
            SignInFail::ValidationError(_) => String::from_str("Invalid sign in form"),
            SignInFail::GenericLoginError => String::from_str("Invalid username or password"),
        }
    }
}

impl ConfirmAccountFail {
    /// The failure in words.
    pub open spec fn text(self) -> Seq<char> {
        match self {
            ConfirmAccountFail::ValidationError(_) => "Invalid confirmation token"@,
            ConfirmAccountFail::NotFound => "Confirmation token not found"@,
            ConfirmAccountFail::Database => "Error in database"@,
        }
    }

    /// The failure in words.
    pub fn message(&self) -> (s: String)
        ensures
            s@ == self.text(),
    {
        match self {
            ConfirmAccountFail::ValidationError(_) => String::from_str(
                "Invalid confirmation token",
            ),
            ConfirmAccountFail::NotFound => String::from_str("Confirmation token not found"),
            ConfirmAccountFail::Database => String::from_str("Error in database"),
        }
    }
}

} // verus!
