use aardwolf_types::forms::auth::ConfirmAccountFail;
use aardwolf_types::forms::personas::delete::PersonaDeletionFail;
use aardwolf_types::forms::personas::FetchPersonaFail;
use aardwolf_types::storage::{classify, StorageFault};
use diesel::result::{DatabaseErrorKind, Error};

fn unique_violation() -> Error {
    Error::DatabaseError(
        DatabaseErrorKind::UniqueViolation,
        Box::new(String::from("duplicate key")),
    )
}

#[test]
fn missing_row_is_classified_as_not_found() {
    assert_eq!(classify(&Error::NotFound), StorageFault::NotFound);
}

#[test]
fn other_errors_are_classified_as_other() {
    assert_eq!(classify(&Error::RollbackTransaction), StorageFault::Other);
    assert_eq!(classify(&Error::AlreadyInTransaction), StorageFault::Other);
    assert_eq!(classify(&unique_violation()), StorageFault::Other);
}

#[test]
fn deletion_tells_missing_row_from_other_faults() {
    assert_eq!(
        PersonaDeletionFail::from(Error::NotFound),
        PersonaDeletionFail::NotFound
    );
    assert_eq!(
        PersonaDeletionFail::from(Error::RollbackTransaction),
        PersonaDeletionFail::Database
    );
    assert_eq!(
        PersonaDeletionFail::from(unique_violation()),
        PersonaDeletionFail::Database
    );
}

#[test]
fn fetch_tells_missing_row_from_other_faults() {
    assert_eq!(FetchPersonaFail::from(Error::NotFound), FetchPersonaFail::NotFound);
    assert_eq!(
        FetchPersonaFail::from(Error::AlreadyInTransaction),
        FetchPersonaFail::Database
    );
}

#[test]
fn confirmation_tells_missing_row_from_other_faults() {
    assert_eq!(
        ConfirmAccountFail::from(Error::NotFound),
        ConfirmAccountFail::NotFound
    );
    assert_eq!(
        ConfirmAccountFail::from(Error::RollbackTransaction),
        ConfirmAccountFail::Database
    );
}

#[test]
fn each_storage_fault_has_its_place_in_each_failure() {
    assert_eq!(PersonaDeletionFail::from(StorageFault::NotFound), PersonaDeletionFail::NotFound);
    assert_eq!(PersonaDeletionFail::from(StorageFault::Other), PersonaDeletionFail::Database);
    assert_eq!(FetchPersonaFail::from(StorageFault::NotFound), FetchPersonaFail::NotFound);
    assert_eq!(FetchPersonaFail::from(StorageFault::Other), FetchPersonaFail::Database);
    assert_eq!(ConfirmAccountFail::from(StorageFault::NotFound), ConfirmAccountFail::NotFound);
    assert_eq!(ConfirmAccountFail::from(StorageFault::Other), ConfirmAccountFail::Database);
}
