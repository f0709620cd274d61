use aardwolf_types::db::DbActionError;
use aardwolf_types::forms::auth::{
    ConfirmAccountFail, ConfirmationToken, NewAccount, SignInErrorMessage, SignInFail, SignUpFail,
    SignUpFormState, ValidateEmailFail, ValidatePasswordConfirmationFail, ValidateSignInFormFail,
    ValidateSignUpFormFail, ValidateTokenFail,
};
use aardwolf_types::models::AuthenticatedUser;
use aardwolf_types::routes::app::{home, home_redirect, HomeResponse, Location};
use aardwolf_types::routes::auth::{
    confirm, session_key, sign_in, sign_in_form, sign_out, sign_up, sign_up_form, ConfirmError,
    RedirectError, SignInError, SignInPage, SignInResponse, SignUpError, SignUpPage,
    SignUpResponse,
};

fn broken_confirmation() -> ValidateSignUpFormFail {
    ValidateSignUpFormFail {
        email: None,
        password: None,
        password_confirmation: Some(ValidatePasswordConfirmationFail::Mismatch),
    }
}

fn state() -> SignUpFormState {
    SignUpFormState { email: String::from("ada@example.com") }
}

#[test]
fn executor_failures_have_their_place_in_each_route_error() {
    assert_eq!(SignUpError::from(DbActionError::Connection), SignUpError::Database);
    assert_eq!(SignUpError::from(DbActionError::Mailbox), SignUpError::Mailbox);
    assert_eq!(
        SignUpError::from(DbActionError::Action(SignUpFail::Database)),
        SignUpError::SignUp(SignUpFail::Database)
    );
    assert_eq!(SignInError::from(DbActionError::Connection), SignInError::Database);
    assert_eq!(SignInError::from(DbActionError::Mailbox), SignInError::Mailbox);
    assert_eq!(
        SignInError::from(DbActionError::Action(SignInFail::GenericLoginError)),
        SignInError::SignIn(SignInFail::GenericLoginError)
    );
    assert_eq!(ConfirmError::from(DbActionError::Connection), ConfirmError::Database);
    assert_eq!(ConfirmError::from(DbActionError::Mailbox), ConfirmError::Mailbox);
    assert_eq!(
        ConfirmError::from(DbActionError::Action(ConfirmAccountFail::NotFound)),
        ConfirmError::Confirm(ConfirmAccountFail::NotFound)
    );
}

#[test]
fn validation_failures_have_their_place_in_each_route_error() {
    assert_eq!(
        SignUpError::from(broken_confirmation()),
        SignUpError::SignUp(SignUpFail::ValidationError(broken_confirmation()))
    );
    assert_eq!(SignUpFail::from(broken_confirmation()), SignUpFail::ValidationError(broken_confirmation()));
    let fail = ValidateSignInFormFail { email: Some(ValidateEmailFail::Empty), password: None };
    assert_eq!(SignInError::from(fail), SignInError::SignIn(SignInFail::ValidationError(fail)));
    assert_eq!(SignInFail::from(fail), SignInFail::ValidationError(fail));
    assert_eq!(
        ConfirmError::from(ValidateTokenFail::Malformed),
        ConfirmError::Confirm(ConfirmAccountFail::ValidationError(ValidateTokenFail::Malformed))
    );
    assert_eq!(
        ConfirmAccountFail::from(ValidateTokenFail::Empty),
        ConfirmAccountFail::ValidationError(ValidateTokenFail::Empty)
    );
}

#[test]
fn route_errors_in_words() {
    assert_eq!(SignUpError::Mailbox.message(), "Error talking to db actor");
    assert_eq!(SignUpError::Database.message(), "Error talking db");
    assert_eq!(
        SignUpError::SignUp(SignUpFail::Database).message(),
        "Error signing up: Error creating account"
    );
    assert_eq!(
        SignUpError::SignUp(SignUpFail::ValidationError(broken_confirmation())).message(),
        "Error signing up: Invalid sign up form"
    );
    assert_eq!(SignInError::Mailbox.message(), "Error talking to db actor");
    assert_eq!(SignInError::Database.message(), "Error talking db");
    assert_eq!(
        SignInError::SignIn(SignInFail::GenericLoginError).message(),
        "Error signing in: Invalid username or password"
    );
    assert_eq!(ConfirmError::Mailbox.message(), "Error talking to db actor");
    assert_eq!(ConfirmError::Database.message(), "Error talking db");
    assert_eq!(
        ConfirmError::Confirm(ConfirmAccountFail::NotFound).message(),
        "Error confirming account: Confirmation token not found"
    );
    assert_eq!(
        ConfirmError::Confirm(ConfirmAccountFail::Database).message(),
        "Error confirming account: Error in database"
    );
    assert_eq!(
        ConfirmError::Confirm(ConfirmAccountFail::ValidationError(ValidateTokenFail::Empty)).message(),
        "Error confirming account: Invalid confirmation token"
    );
}

#[test]
fn stage_failures_in_words() {
    assert_eq!(SignUpFail::Database.message(), "Error creating account");
    assert_eq!(SignUpFail::ValidationError(broken_confirmation()).message(), "Invalid sign up form");
    assert_eq!(SignInFail::GenericLoginError.message(), "Invalid username or password");
    assert_eq!(
        SignInFail::ValidationError(ValidateSignInFormFail { email: None, password: None }).message(),
        "Invalid sign in form"
    );
    assert_eq!(ConfirmAccountFail::NotFound.message(), "Confirmation token not found");
    assert_eq!(ConfirmAccountFail::Database.message(), "Error in database");
}

#[test]
fn created_account_is_sent_to_sign_in_with_its_link() {
    let account = NewAccount { user_id: 2, email_id: 102, token: String::from("tok-2") };
    assert_eq!(
        sign_up(Ok(account), state()),
        SignUpResponse::Created {
            location: Location::SignIn,
            link: ConfirmationToken { id: 102, token: String::from("tok-2") },
        }
    );
}

#[test]
fn broken_form_is_shown_again_with_its_broken_rules() {
    assert_eq!(
        sign_up(Err(SignUpError::SignUp(SignUpFail::ValidationError(broken_confirmation()))), state()),
        SignUpResponse::Page(SignUpPage {
            state: state(),
            validation: Some(broken_confirmation()),
            error: None,
        })
    );
}

#[test]
fn other_sign_up_failures_are_shown_in_words() {
    assert_eq!(
        sign_up(Err(SignUpError::SignUp(SignUpFail::Database)), state()),
        SignUpResponse::Page(SignUpPage {
            state: state(),
            validation: None,
            error: Some(String::from("Error creating account")),
        })
    );
    assert_eq!(
        sign_up(Err(SignUpError::Mailbox), state()),
        SignUpResponse::Page(SignUpPage {
            state: state(),
            validation: None,
            error: Some(String::from("Error talking to db actor")),
        })
    );
    assert_eq!(
        sign_up(Err(SignUpError::Database), state()),
        SignUpResponse::Page(SignUpPage {
            state: state(),
            validation: None,
            error: Some(String::from("Error talking db")),
        })
    );
}

#[test]
fn empty_pages() {
    assert_eq!(
        sign_up_form(),
        SignUpPage { state: SignUpFormState { email: String::new() }, validation: None, error: None }
    );
    assert_eq!(sign_in_form(None), SignInPage { error: None });
    assert_eq!(
        sign_in_form(Some(SignInErrorMessage { msg: String::from("try again") })),
        SignInPage { error: Some(String::from("try again")) }
    );
}

#[test]
fn signed_in_user_goes_home() {
    assert_eq!(
        sign_in(Ok(AuthenticatedUser::new(5))),
        SignInResponse::SignedIn { user_id: 5, location: Location::Home }
    );
    assert_eq!(session_key(), "user_id");
}

#[test]
fn refused_sign_in_goes_back_with_the_error_in_words() {
    assert_eq!(
        sign_in(Err(SignInError::SignIn(SignInFail::GenericLoginError))),
        SignInResponse::Refused(RedirectError {
            location: Location::SignIn,
            msg: Some(String::from("Error signing in: Invalid username or password")),
        })
    );
    assert_eq!(
        sign_in(Err(SignInError::Database)),
        SignInResponse::Refused(RedirectError {
            location: Location::SignIn,
            msg: Some(String::from("Error talking db")),
        })
    );
}

#[test]
fn confirmation_answers() {
    assert_eq!(confirm(Ok(3)), Ok(Location::SignIn));
    assert_eq!(
        confirm(Err(ConfirmError::Confirm(ConfirmAccountFail::NotFound))),
        Err(RedirectError {
            location: Location::SignUp,
            msg: Some(String::from("Error confirming account: Confirmation token not found")),
        })
    );
    assert_eq!(
        confirm(Err(ConfirmError::Mailbox)),
        Err(RedirectError {
            location: Location::SignUp,
            msg: Some(String::from("Error talking to db actor")),
        })
    );
}

#[test]
fn sign_out_goes_to_sign_in() {
    assert_eq!(sign_out(), Location::SignIn);
    assert_eq!(sign_out().path(), "/auth/sign_in");
}

#[test]
fn paths_of_the_places() {
    assert_eq!(Location::Home.path(), "/");
    assert_eq!(Location::SignIn.path(), "/auth/sign_in");
    assert_eq!(Location::SignUp.path(), "/auth/sign_up");
    assert_eq!(Location::CreatePersona.path(), "/personas/create");
}

#[test]
fn home_needs_a_persona() {
    let user = AuthenticatedUser::new(5);
    assert_eq!(home(&user, true, None), HomeResponse::Page { user_id: 5 });
    assert_eq!(home(&user, false, Some(10)), HomeResponse::Page { user_id: 5 });
    assert_eq!(home(&user, true, Some(10)), HomeResponse::Page { user_id: 5 });
    assert_eq!(home(&user, false, None), HomeResponse::Redirect(Location::CreatePersona));
    assert_eq!(home_redirect(), Location::SignIn);
}
