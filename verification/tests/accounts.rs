use aardwolf_types::db::{deliver, run, DbActionError};
use aardwolf_types::forms::auth::{
    ConfirmAccountFail, ConfirmToken, ConfirmationToken, LookUpToken, NewAccount, PendingEmail,
    SignIn,
    SignInFail, SignInForm, SignUp, SignUpFail, SignUpForm, ValidateEmailFail,
    ValidatePasswordConfirmationFail, ValidateSignInForm, ValidateSignInFormFail,
    ValidateSignUpForm, ValidateSignUpFormFail, ValidateTokenFail,
};
use aardwolf_types::models::AuthenticatedUser;
use aardwolf_types::pipeline::{perform, step, Event, Progress};
use aardwolf_types::routes::auth::{ConfirmError, SignInError, SignUpError};
use diesel::result::{DatabaseErrorKind, Error};
use std::cell::{Cell, RefCell};

struct Account {
    user_id: i32,
    email_id: i32,
    email: String,
    password: String,
    token: String,
    confirmed: bool,
}

/// Accounts held in memory.
struct Store {
    accounts: RefCell<Vec<Account>>,
    calls: Cell<u32>,
}

impl Store {
    fn new() -> Store {
        let store = Store { accounts: RefCell::new(Vec::new()), calls: Cell::new(0) };
        store.create("grace@example.com", "hopper").expect("the store is empty");
        store.calls.set(0);
        store
    }

    fn create(&self, email: &str, password: &str) -> Result<NewAccount, Error> {
        self.calls.set(self.calls.get() + 1);
        let mut accounts = self.accounts.borrow_mut();
        if accounts.iter().any(|a| a.email == email) {
            return Err(Error::DatabaseError(
                DatabaseErrorKind::UniqueViolation,
                Box::new(String::from("duplicate key")),
            ));
        }
        let n = accounts.len() as i32 + 1;
        let token = format!("tok-{}_{}", n, 4242);
        accounts.push(Account {
            user_id: n,
            email_id: 100 + n,
            email: String::from(email),
            password: String::from(password),
            token: token.clone(),
            confirmed: false,
        });
        Ok(NewAccount { user_id: n, email_id: 100 + n, token })
    }

    fn matching(&self, email: &str, password: &str) -> Result<Option<i32>, Error> {
        self.calls.set(self.calls.get() + 1);
        Ok(self
            .accounts
            .borrow()
            .iter()
            .find(|a| a.email == email && a.password == password && a.confirmed)
            .map(|a| a.user_id))
    }

    fn pending(&self, email_id: i32) -> Result<PendingEmail, Error> {
        self.calls.set(self.calls.get() + 1);
        self.accounts
            .borrow()
            .iter()
            .find(|a| a.email_id == email_id && !a.confirmed)
            .map(|a| PendingEmail { id: a.email_id, user_id: a.user_id, token: a.token.clone() })
            .ok_or(Error::NotFound)
    }

    fn confirm(&self, email_id: i32) -> Result<(), Error> {
        self.calls.set(self.calls.get() + 1);
        match self.accounts.borrow_mut().iter_mut().find(|a| a.email_id == email_id) {
            Some(account) => {
                account.confirmed = true;
                Ok(())
            }
            None => Err(Error::NotFound),
        }
    }

    fn rows(&self) -> usize {
        self.accounts.borrow().len()
    }
}

fn sign_up_form(email: &str, password: &str, confirmation: &str) -> SignUpForm {
    SignUpForm {
        csrf_token: String::from("csrf token"),
        email: String::from(email),
        password: String::from(password),
        password_confirmation: String::from(confirmation),
    }
}

fn sign_in_form(email: &str, password: &str) -> SignInForm {
    SignInForm {
        csrf_token: String::from("csrf token"),
        email: String::from(email),
        password: String::from(password),
    }
}

fn sign_up(store: &Store, form: SignUpForm) -> Result<NewAccount, SignUpError> {
    perform(form, |work: SignUp| {
        let sent: Result<_, ()> = Ok(run(Some(store), |store: &&Store| {
            let created = store.create(work.0.email(), work.0.password());
            work.db_action(created)
        }));
        deliver(sent)
    })
}

fn sign_in(store: &Store, form: SignInForm) -> Result<AuthenticatedUser, SignInError> {
    perform(form, |work: SignIn| {
        let sent: Result<_, ()> = Ok(run(Some(store), |store: &&Store| {
            let matched = store.matching(work.0.email(), work.0.password());
            work.db_action(matched)
        }));
        deliver(sent)
    })
}

fn confirm(store: &Store, token: ConfirmationToken) -> Result<i32, ConfirmError> {
    perform(token, |lookup: LookUpToken| {
        let sent: Result<_, ()> = Ok(run(Some(store), |store: &&Store| {
            let found = store.pending(lookup.email_id());
            let confirm = lookup.db_action(found)?;
            let updated = store.confirm(confirm.email_id());
            confirm.db_action(updated)
        }));
        deliver(sent)
    })
}

#[test]
fn sign_up_with_a_unique_email_creates_an_account() {
    let store = Store::new();
    let account = sign_up(&store, sign_up_form("ada@example.com", "lovelace", "lovelace"))
        .expect("the form is valid and the email is new");
    assert_eq!(account.user_id, 2);
    assert_eq!(account.email_id, 102);
    assert_eq!(account.token, "tok-2_4242");
    assert_ne!(account.token, "lovelace");
    assert!(!account.token.contains("lovelace"));
    assert_eq!(store.rows(), 2);
}

#[test]
fn sign_up_with_mismatched_passwords_creates_no_row() {
    let store = Store::new();
    let ended = sign_up(&store, sign_up_form("ada@example.com", "lovelace", "lovelave"));
    assert_eq!(
        ended,
        Err(SignUpError::SignUp(SignUpFail::ValidationError(ValidateSignUpFormFail {
            email: None,
            password: None,
            password_confirmation: Some(ValidatePasswordConfirmationFail::Mismatch),
        })))
    );
    assert_eq!(store.rows(), 1);
    assert_eq!(store.calls.get(), 0);
}

#[test]
fn sign_up_with_a_taken_email_is_a_sign_up_failure() {
    let store = Store::new();
    let ended = sign_up(&store, sign_up_form("grace@example.com", "other", "other"));
    assert_eq!(ended, Err(SignUpError::SignUp(SignUpFail::Database)));
    assert_eq!(store.rows(), 1);
}

#[test]
fn invalid_forms_never_reach_the_later_stages() {
    let calls = Cell::new(0);
    for (email, password, confirmation) in
        [("", "a", "a"), ("a@b", "", ""), ("a@b", "a", ""), ("a@b", "a", "b"), ("", "", "")]
    {
        let ended: Result<NewAccount, SignUpError> =
            perform(sign_up_form(email, password, confirmation), |_work: SignUp| {
                calls.set(calls.get() + 1);
                Err(DbActionError::Connection)
            });
        assert!(matches!(ended, Err(SignUpError::SignUp(SignUpFail::ValidationError(_)))));
    }
    for (email, password) in [("", "a"), ("a@b", ""), ("", "")] {
        let ended: Result<AuthenticatedUser, SignInError> =
            perform(sign_in_form(email, password), |_work: SignIn| {
                calls.set(calls.get() + 1);
                Err(DbActionError::Connection)
            });
        assert!(matches!(ended, Err(SignInError::SignIn(SignInFail::ValidationError(_)))));
    }
    for token in ["", "not a token", "a+b"] {
        let ended: Result<i32, ConfirmError> =
            perform(ConfirmationToken { id: 1, token: String::from(token) }, |_lookup: LookUpToken| {
                calls.set(calls.get() + 1);
                Err(DbActionError::Connection)
            });
        assert!(matches!(
            ended,
            Err(ConfirmError::Confirm(ConfirmAccountFail::ValidationError(_)))
        ));
    }
    assert_eq!(calls.get(), 0);
}

#[test]
fn executor_failures_become_errors_of_the_operation() {
    let form = || sign_up_form("ada@example.com", "lovelace", "lovelace");
    let ended: Result<NewAccount, SignUpError> =
        perform(form(), |_work: SignUp| Err(DbActionError::Connection));
    assert_eq!(ended, Err(SignUpError::Database));
    let ended: Result<NewAccount, SignUpError> =
        perform(form(), |_work: SignUp| Err(DbActionError::Mailbox));
    assert_eq!(ended, Err(SignUpError::Mailbox));
    let ended: Result<NewAccount, SignUpError> =
        perform(form(), |_work: SignUp| Err(DbActionError::Action(SignUpFail::Database)));
    assert_eq!(ended, Err(SignUpError::SignUp(SignUpFail::Database)));
}

#[test]
fn sign_up_steps_from_request_to_created() {
    let form = sign_up_form("ada@example.com", "lovelace", "lovelace");
    let (state, work) = step::<SignUpError>(Progress::Requested(form), Event::Begin);
    assert!(matches!(state, Progress::Validated));
    let work = work.expect("a valid request starts its unit of work");
    assert_eq!(work.0.email(), "ada@example.com");
    let account = NewAccount { user_id: 2, email_id: 102, token: String::from("tok") };
    let (state, work) = step(state, Event::Replied(work.db_action(Ok(account.clone())).map_err(DbActionError::Action)));
    assert!(work.is_none());
    assert_eq!(state.outcome(), Some(Ok(account)));
}

#[test]
fn refused_request_fails_at_once_and_starts_nothing() {
    let form = sign_up_form("ada@example.com", "lovelace", "");
    let (state, work) = step::<SignUpError>(Progress::Requested(form), Event::Begin);
    assert!(work.is_none());
    let (state, work) = step(state, Event::Begin);
    assert!(work.is_none());
    let account = NewAccount { user_id: 2, email_id: 102, token: String::from("tok") };
    let (state, work) = step(state, Event::Replied(Ok(account)));
    assert!(work.is_none());
    assert_eq!(
        state.outcome(),
        Some(Err(SignUpError::SignUp(SignUpFail::ValidationError(ValidateSignUpFormFail {
            email: None,
            password: None,
            password_confirmation: Some(ValidatePasswordConfirmationFail::Empty),
        }))))
    );
}

#[test]
fn events_that_are_not_waited_for_change_nothing() {
    let form = sign_in_form("grace@example.com", "hopper");
    let (state, work) =
        step::<SignInError>(Progress::Requested(form.clone()), Event::Replied(Ok(AuthenticatedUser::new(9))));
    assert!(work.is_none());
    assert!(matches!(&state, Progress::Requested(kept) if *kept == form));
    let (state, work) = step(state, Event::Begin);
    assert!(work.is_some());
    let (state, work) = step(state, Event::Begin);
    assert!(work.is_none());
    assert!(matches!(state, Progress::Validated));
    assert!(state.outcome().is_none());
}

#[test]
fn reply_decides_how_a_validated_operation_ends() {
    let (state, _) = step::<SignInError>(
        Progress::Requested(sign_in_form("grace@example.com", "hopper")),
        Event::Begin,
    );
    let (state, _) = step(state, Event::Replied(Err(DbActionError::Mailbox)));
    assert_eq!(state.outcome(), Some(Err(SignInError::Mailbox)));
    let (state, _) = step::<SignInError>(
        Progress::Requested(sign_in_form("grace@example.com", "hopper")),
        Event::Begin,
    );
    let (state, _) = step(state, Event::Replied(Ok(AuthenticatedUser::new(1))));
    let (state, _) = step(state, Event::Replied(Err(DbActionError::Connection)));
    assert_eq!(state.outcome(), Some(Ok(AuthenticatedUser::new(1))));
}

#[test]
fn confirmed_user_signs_in() {
    let store = Store::new();
    let account = sign_up(&store, sign_up_form("ada@example.com", "lovelace", "lovelace")).unwrap();
    assert_eq!(
        sign_in(&store, sign_in_form("ada@example.com", "lovelace")),
        Err(SignInError::SignIn(SignInFail::GenericLoginError))
    );
    let confirmed = confirm(&store, ConfirmationToken { id: account.email_id, token: account.token });
    assert_eq!(confirmed, Ok(account.user_id));
    let user = sign_in(&store, sign_in_form("ada@example.com", "lovelace")).unwrap();
    assert_eq!(user.id(), account.user_id);
    assert_eq!(user, AuthenticatedUser::new(2));
}

#[test]
fn wrong_password_and_unknown_email_are_the_same_failure() {
    let store = Store::new();
    assert_eq!(
        sign_in(&store, sign_in_form("grace@example.com", "wrong")),
        Err(SignInError::SignIn(SignInFail::GenericLoginError))
    );
    assert_eq!(
        sign_in(&store, sign_in_form("nobody@example.com", "hopper")),
        Err(SignInError::SignIn(SignInFail::GenericLoginError))
    );
}

#[test]
fn sign_in_storage_fault_is_the_generic_failure() {
    let work = SignIn(ValidateSignInForm(sign_in_form("a@b", "pw")).validate().unwrap());
    assert_eq!(work.db_action(Err(Error::RollbackTransaction)), Err(SignInFail::GenericLoginError));
    let work = SignIn(ValidateSignInForm(sign_in_form("a@b", "pw")).validate().unwrap());
    assert_eq!(work.db_action(Ok(None)), Err(SignInFail::GenericLoginError));
    let work = SignIn(ValidateSignInForm(sign_in_form("a@b", "pw")).validate().unwrap());
    assert_eq!(work.db_action(Ok(Some(5))), Ok(AuthenticatedUser::new(5)));
}

#[test]
fn sign_in_with_an_empty_field_is_a_validation_failure() {
    let store = Store::new();
    assert_eq!(
        sign_in(&store, sign_in_form("", "hopper")),
        Err(SignInError::SignIn(SignInFail::ValidationError(ValidateSignInFormFail {
            email: Some(ValidateEmailFail::Empty),
            password: None,
        })))
    );
    assert_eq!(store.calls.get(), 0);
}

#[test]
fn unknown_token_is_not_found() {
    let store = Store::new();
    let account = sign_up(&store, sign_up_form("ada@example.com", "lovelace", "lovelace")).unwrap();
    let not_found = Err(ConfirmError::Confirm(ConfirmAccountFail::NotFound));
    assert_eq!(confirm(&store, ConfirmationToken { id: 999, token: account.token.clone() }), not_found);
    assert_eq!(
        confirm(&store, ConfirmationToken { id: account.email_id, token: String::from("tok-9_9") }),
        not_found
    );
    assert_eq!(sign_in(&store, sign_in_form("ada@example.com", "lovelace")).ok(), None);
}

#[test]
fn used_token_is_not_found() {
    let store = Store::new();
    let account = sign_up(&store, sign_up_form("ada@example.com", "lovelace", "lovelace")).unwrap();
    let token = ConfirmationToken { id: account.email_id, token: account.token };
    assert_eq!(confirm(&store, token.clone()), Ok(2));
    assert_eq!(confirm(&store, token), Err(ConfirmError::Confirm(ConfirmAccountFail::NotFound)));
}

#[test]
fn malformed_token_is_refused_before_storage_is_asked() {
    let store = Store::new();
    assert_eq!(
        confirm(&store, ConfirmationToken { id: 101, token: String::from("tok 1") }),
        Err(ConfirmError::Confirm(ConfirmAccountFail::ValidationError(ValidateTokenFail::Malformed)))
    );
    assert_eq!(
        confirm(&store, ConfirmationToken { id: 101, token: String::new() }),
        Err(ConfirmError::Confirm(ConfirmAccountFail::ValidationError(ValidateTokenFail::Empty)))
    );
    assert_eq!(store.calls.get(), 0);
}

#[test]
fn lookup_grants_the_record_that_matches_and_no_other() {
    let lookup = || ConfirmToken(ConfirmationToken { id: 7, token: String::from("abc") }).validate().unwrap();
    let record = |id: i32, token: &str| PendingEmail { id, user_id: 3, token: String::from(token) };
    let granted = lookup().db_action(Ok(record(7, "abc"))).expect("the record matches");
    assert_eq!(granted.email_id(), 7);
    assert_eq!(granted.db_action(Ok(())), Ok(3));
    assert_eq!(lookup().db_action(Ok(record(8, "abc"))).err(), Some(ConfirmAccountFail::NotFound));
    assert_eq!(lookup().db_action(Ok(record(7, "abd"))).err(), Some(ConfirmAccountFail::NotFound));
    assert_eq!(lookup().db_action(Err(Error::NotFound)).err(), Some(ConfirmAccountFail::NotFound));
    assert_eq!(
        lookup().db_action(Err(Error::RollbackTransaction)).err(),
        Some(ConfirmAccountFail::Database)
    );
}

#[test]
fn confirmation_update_faults_are_told_apart() {
    let grant = || {
        ConfirmToken(ConfirmationToken { id: 7, token: String::from("abc") })
            .validate()
            .unwrap()
            .db_action(Ok(PendingEmail { id: 7, user_id: 3, token: String::from("abc") }))
            .unwrap()
    };
    assert_eq!(grant().db_action(Err(Error::NotFound)), Err(ConfirmAccountFail::NotFound));
    assert_eq!(
        grant().db_action(Err(Error::AlreadyInTransaction)),
        Err(ConfirmAccountFail::Database)
    );
}

#[test]
fn sign_up_stage_hands_the_created_account_on() {
    let work = || SignUp(ValidateSignUpForm(sign_up_form("a@b", "pw", "pw")).validate().unwrap());
    let account = NewAccount { user_id: 1, email_id: 2, token: String::from("t") };
    assert_eq!(work().db_action(Ok(account.clone())), Ok(account));
    assert_eq!(work().db_action(Err(Error::NotFound)), Err(SignUpFail::Database));
    assert_eq!(work().db_action(Err(Error::RollbackTransaction)), Err(SignUpFail::Database));
}
