use chocoapi::erro::{on_constraint, AppError, ErrorMap, PersistenceError};

#[test]
fn unauthorized_maps_to_401_with_challenge() {
    let err = AppError::Unauthorized;
    assert_eq!(err.status_code(), 401);

    let p = err.to_problem();
    assert_eq!(p.status, 401);
    assert_eq!(p.title, "Unauthorized");
    assert_eq!(p.type_url, "https://httpstatuses.io/401");
    assert_eq!(p.detail, "Autenticación Requerida");
    assert_eq!(p.authenticate_challenge, Some("Token".to_string()));
    assert!(p.log_message.is_none());
    assert!(p.errors.is_empty());
}

#[test]
fn unprocessable_entity_exposes_one_extension_per_field() {
    let mut em = ErrorMap::new();
    em.add_error("username".to_string(), "Missing field".to_string());
    em.add_error("email".to_string(), "Missing field".to_string());

    let err = AppError::UnprocessableEntity(em);
    assert_eq!(err.status_code(), 422);

    let p = err.to_problem();
    assert_eq!(p.status, 422);
    assert_eq!(p.title, "Unprocessable Entity");
    assert_eq!(p.type_url, "https://httpstatuses.io/422");
    assert_eq!(p.detail, "error in the request body");
    assert!(p.authenticate_challenge.is_none());
    assert!(p.log_message.is_none());
    assert_eq!(p.errors.len(), 2);
    assert_eq!(p.errors.get("username"), Some(&vec!["Missing field".to_string()]));
    assert_eq!(p.errors.get("email"), Some(&vec!["Missing field".to_string()]));
}

#[test]
fn storage_failure_is_opaque_to_the_client_and_logged() {
    let err = AppError::Sqlx(PersistenceError {
        constraint: None,
        message: "connection reset by peer".to_string(),
    });
    assert_eq!(err.status_code(), 500);

    let p = err.to_problem();
    assert_eq!(p.status, 500);
    assert_eq!(p.title, "Internal Server Error");
    assert_eq!(p.type_url, "https://httpstatuses.io/500");
    assert_eq!(p.detail, "Un error ocurrió con la base de datos.");
    assert!(p.authenticate_challenge.is_none());
    assert!(p.errors.is_empty());
    assert_eq!(p.log_message, Some("connection reset by peer".to_string()));
}

#[test]
fn internal_failure_is_opaque_to_the_client_and_logged() {
    let err = AppError::Eyre("failed to parse form username".to_string());
    assert_eq!(err.status_code(), 500);

    let p = err.to_problem();
    assert_eq!(p.status, 500);
    assert_eq!(p.detail, "Un error interno ocurrió en el servidor.");
    assert!(p.errors.is_empty());
    assert_eq!(p.log_message, Some("failed to parse form username".to_string()));
}

#[test]
fn on_constraint_remaps_the_named_constraint_violation() {
    let failed: Result<u32, AppError> = Err(AppError::Sqlx(PersistenceError {
        constraint: Some("users_username_key".to_string()),
        message: "duplicate key value".to_string(),
    }));

    let remapped = on_constraint(failed, "users_username_key", |_cause| {
        let mut em = ErrorMap::new();
        em.add_error("username".to_string(), "already taken".to_string());
        AppError::UnprocessableEntity(em)
    });

    match remapped {
        Err(AppError::UnprocessableEntity(em)) => {
            assert_eq!(em.get("username"), Some(&vec!["already taken".to_string()]));
        }
        _ => panic!("the named constraint violation must be remapped"),
    }
}

#[test]
fn on_constraint_passes_other_failures_through() {
    let failed: Result<u32, AppError> = Err(AppError::Sqlx(PersistenceError {
        constraint: Some("emails_email_key".to_string()),
        message: "duplicate key value".to_string(),
    }));

    let untouched = on_constraint(failed, "users_username_key", |_cause| AppError::Unauthorized);
    assert!(matches!(untouched, Err(AppError::Sqlx(_))));

    let ok: Result<u32, AppError> = Ok(17);
    let still_ok = on_constraint(ok, "users_username_key", |_cause| AppError::Unauthorized);
    assert!(matches!(still_ok, Ok(17)));

    let unnamed: Result<u32, AppError> = Err(AppError::Sqlx(PersistenceError {
        constraint: None,
        message: "timeout".to_string(),
    }));
    let kept = on_constraint(unnamed, "users_username_key", |_cause| AppError::Unauthorized);
    assert!(matches!(kept, Err(AppError::Sqlx(_))));
}
