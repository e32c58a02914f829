use directory_domain::common::error::{AppError, ErrorCause, ErrorData};
use directory_domain::domain::entity::user::{User, UserPartial};
use directory_domain::domain::usecase::user::delete_user::{delete_user, user_not_found};
use directory_domain::domain::usecase::user::update_user::{
    advance, begin, UpdateUserAction, UpdateUserEvent, UpdateUserState,
};
use directory_domain::domain::vo::email::Email;
use directory_domain::domain::vo::id::Id;
use directory_domain::domain::vo::name::Name;
use directory_domain::domain::vo::password::Password;
use directory_domain::domain::vo::temporal::DateTime;
use directory_domain::infrastructure::postgres::DbConfig;
use directory_domain::presentation::user::dto::{
    QueryFilter, UserDataDto, UserDataResponseDto, UserPartialDataDto,
};

fn stored() -> User {
    User::new(
        Id::new_from_string("550e8400-e29b-41d4-a716-446655440000".to_string()).unwrap(),
        Name::new("John Doe").unwrap(),
        Email::new("john.doe@example.com".to_string()).unwrap(),
        Password::new("s3cr3t".to_string()).unwrap(),
        false,
        DateTime::from_timestamp(1_000, 1).unwrap(),
        DateTime::from_timestamp(2_000, 2).unwrap(),
        Some(DateTime::from_timestamp(3_000, 3).unwrap()),
    )
}

fn assert_same(a: &User, b: &User) {
    assert_eq!(a.id, b.id);
    assert_eq!(a.name, b.name);
    assert_eq!(a.email.value(), b.email.value());
    assert_eq!(a.password.value(), b.password.value());
    assert_eq!(a.deleted, b.deleted);
    assert_eq!(a.created_at.to_chono_date_time(), b.created_at.to_chono_date_time());
    assert_eq!(a.updated_at.to_chono_date_time(), b.updated_at.to_chono_date_time());
    assert_eq!(
        a.deleted_at.as_ref().map(|d| d.to_chono_date_time()),
        b.deleted_at.as_ref().map(|d| d.to_chono_date_time())
    );
}

#[test]
fn an_empty_patch_leaves_every_field() {
    let p = stored();
    let q = UserPartial::new(Some(p.id), None, None, None, None);
    let merged = User::merge(&p, &q);
    assert_same(&merged, &p);
    assert_same(&p.clone(), &p);
}

#[test]
fn a_full_patch_replaces_every_field_it_can() {
    let p = stored();
    let q = UserPartial::new(
        Some(p.id),
        Some(Name::new("Jane Roe").unwrap()),
        Some(Email::new("jane@example.org".to_string()).unwrap()),
        Some(Password::new("other".to_string()).unwrap()),
        Some(true),
    );
    let merged = User::merge(&p, &q);
    assert_eq!(merged.id, p.id);
    assert_eq!(merged.name.value(), "Jane Roe");
    assert_eq!(merged.email.value(), "jane@example.org");
    assert_eq!(merged.password.value(), Password::new("other".to_string()).unwrap().value());
    assert!(merged.deleted);
    assert_eq!(merged.created_at.to_chono_date_time(), (1_000, 1));
    assert_eq!(merged.updated_at.to_chono_date_time(), (2_000, 2));
    assert_eq!(merged.deleted_at.unwrap().to_chono_date_time(), (3_000, 3));
    // the stored user is left as it was
    assert_eq!(p.name.value(), "John Doe");
    assert!(!p.deleted);
}

#[test]
fn each_field_of_a_patch_counts_on_its_own() {
    let p = stored();
    for mask in 0u8..16 {
        let name = if mask & 1 != 0 { Some(Name::new("N").unwrap()) } else { None };
        let email =
            if mask & 2 != 0 { Some(Email::new("n@e.io".to_string()).unwrap()) } else { None };
        let password =
            if mask & 4 != 0 { Some(Password::new_from_hashed_value("h".to_string())) } else { None };
        let deleted = if mask & 8 != 0 { Some(true) } else { None };
        let q = UserPartial::new(Some(p.id), name, email, password, deleted);
        let m = User::merge(&p, &q.clone());
        assert_eq!(m.name.value(), if mask & 1 != 0 { "N" } else { "John Doe" });
        assert_eq!(m.email.value(), if mask & 2 != 0 { "n@e.io" } else { "john.doe@example.com" });
        assert_eq!(m.password.value(), if mask & 4 != 0 { "h".to_string() } else { p.password.value() });
        assert_eq!(m.deleted, mask & 8 != 0);
        assert_eq!(m.id, p.id);
    }
}

#[test]
fn set_id_names_the_user_of_a_patch() {
    let mut q = UserPartial::new(None, Some(Name::new("N").unwrap()), None, None, Some(false));
    let id = Id::new().unwrap();
    q.set_id(id);
    assert_eq!(q.id, Some(id));
    assert_eq!(q.name.as_ref().unwrap().value(), "N");
    assert!(q.email.is_none());
    assert_eq!(q.deleted, Some(false));
}

#[test]
fn update_finds_then_stores_then_returns() {
    let p = stored();
    let q = UserPartial::new(Some(p.id), Some(Name::new("Jane Roe").unwrap()), None, None, None);
    let (state, action) = begin(&q);
    assert_eq!(state, UpdateUserState::Finding);
    match action {
        UpdateUserAction::Find(id) => assert_eq!(id, p.id),
        other => panic!("expected Find, got: {:?}", other),
    }
    let (state, action) = advance(state, &q, UpdateUserEvent::Found(Ok(Some(p.clone()))));
    assert_eq!(state, UpdateUserState::Updating);
    let merged = match action {
        UpdateUserAction::Update(user) => user,
        other => panic!("expected Update, got: {:?}", other),
    };
    assert_eq!(merged.name.value(), "Jane Roe");
    assert_eq!(merged.email.value(), p.email.value());
    let (state, action) = advance(state, &q, UpdateUserEvent::Updated(Ok(Some(merged.clone()))));
    assert_eq!(state, UpdateUserState::Done);
    match action {
        UpdateUserAction::Return(Ok(user)) => assert_same(&user, &merged),
        other => panic!("expected the stored user, got: {:?}", other),
    }
}

#[test]
fn update_of_a_user_that_is_not_there_says_so() {
    let q = UserPartial::new(Some(Id::new().unwrap()), None, None, None, None);
    for (state, event) in [
        (UpdateUserState::Finding, UpdateUserEvent::Found(Ok(None))),
        (UpdateUserState::Updating, UpdateUserEvent::Updated(Ok(None))),
    ] {
        let (state, action) = advance(state, &q, event);
        assert_eq!(state, UpdateUserState::Done);
        match action {
            UpdateUserAction::Return(Err(AppError::NotFound(data))) => {
                assert_eq!(data.code, "user-not-found");
                assert_eq!(data.message, "user not found");
                assert!(data.cause.is_none());
            }
            other => panic!("expected NotFound, got: {:?}", other),
        }
    }
}

#[test]
fn update_hands_on_the_failure_of_the_repository() {
    let q = UserPartial::new(Some(Id::new().unwrap()), None, None, None, None);
    for (state, event) in [
        (
            UpdateUserState::Finding,
            UpdateUserEvent::Found(Err(AppError::Database(ErrorData::new("internal", "database error")))),
        ),
        (
            UpdateUserState::Updating,
            UpdateUserEvent::Updated(Err(AppError::Database(ErrorData::new("internal", "database error")))),
        ),
    ] {
        let (state, action) = advance(state, &q, event);
        assert_eq!(state, UpdateUserState::Done);
        match action {
            UpdateUserAction::Return(Err(AppError::Database(data))) => {
                assert_eq!(data.message, "database error");
            }
            other => panic!("expected Database error, got: {:?}", other),
        }
    }
}

#[test]
fn delete_gives_the_user_or_says_that_none_was_found() {
    let p = stored();
    assert_same(&delete_user(Ok(Some(p.clone()))).unwrap(), &p);
    match delete_user(Ok(None)) {
        Err(AppError::NotFound(data)) => {
            assert_eq!(data.code, "user-not-found");
            assert_eq!(data.message, "user not found");
            match data.cause.as_deref() {
                Some(ErrorCause::Opaque(text)) => assert_eq!(text, "User not found"),
                other => panic!("expected an opaque cause, got: {:?}", other),
            }
        }
        other => panic!("expected NotFound, got: {:?}", other),
    }
    match delete_user(Err(AppError::Database(ErrorData::new("internal", "database error")))) {
        Err(AppError::Database(data)) => assert_eq!(data.code, "internal"),
        other => panic!("expected Database error, got: {:?}", other),
    }
    assert!(matches!(user_not_found(None), AppError::NotFound(_)));
}

#[test]
fn a_request_to_create_becomes_a_user() {
    let dto = UserDataDto::new(
        "  John Doe ".to_string(),
        "john.doe@example.com".to_string(),
        "abc".to_string(),
    );
    let user = User::try_from(dto.clone()).unwrap();
    assert_eq!(user.name.value(), "John Doe");
    assert_eq!(user.email.value(), "john.doe@example.com");
    assert_eq!(
        user.password.value(),
        "ba7816bf8f01cfea414140de5dae2223b00361a396177a9cb410ff61f20015ad"
    );
    assert!(!user.deleted);
    assert!(user.deleted_at.is_none());
    assert_eq!(user.id.value().as_bytes()[14], b'7');
    assert_ne!(User::try_from(dto).unwrap().id, user.id);

    let told = UserDataResponseDto::from(&user);
    assert_eq!(told.id(), user.id.value());
    assert_eq!(told.name(), "John Doe");
    assert_eq!(told.email(), "john.doe@example.com");
}

#[test]
fn a_request_to_create_fails_on_its_first_bad_field() {
    let bad_name = UserDataDto::new(" ".to_string(), "bad@".to_string(), "p".to_string());
    match User::try_from(bad_name) {
        Err(AppError::Validation(data)) => assert_eq!(data.code, "invalid-field"),
        other => panic!("expected Validation error, got: {:?}", other),
    }
    let bad_email = UserDataDto::new("N".to_string(), "bad@".to_string(), "p".to_string());
    match User::try_from(bad_email) {
        Err(AppError::Validation(data)) => assert_eq!(data.code, "invalid-email"),
        other => panic!("expected Validation error, got: {:?}", other),
    }
}

#[test]
fn a_request_to_change_becomes_a_patch() {
    let none = UserPartial::try_from(UserPartialDataDto::new(None, None, None, None)).unwrap();
    assert!(none.id.is_some());
    assert!(none.name.is_none() && none.email.is_none() && none.password.is_none());
    assert!(none.deleted.is_none());

    let all = UserPartial::try_from(UserPartialDataDto::new(
        Some(" Jane ".to_string()),
        Some("jane@example.org".to_string()),
        Some("abc".to_string()),
        Some(true),
    ))
    .unwrap();
    assert_eq!(all.name.unwrap().value(), "Jane");
    assert_eq!(all.email.unwrap().value(), "jane@example.org");
    assert_eq!(
        all.password.unwrap().value(),
        "ba7816bf8f01cfea414140de5dae2223b00361a396177a9cb410ff61f20015ad"
    );
    assert_eq!(all.deleted, Some(true));

    match UserPartial::try_from(UserPartialDataDto::new(
        Some("".to_string()),
        Some("bad@".to_string()),
        None,
        None,
    )) {
        Err(AppError::Validation(data)) => assert_eq!(data.code, "invalid-field"),
        other => panic!("expected Validation error, got: {:?}", other),
    }
    match UserPartial::try_from(UserPartialDataDto::new(None, Some("bad@".to_string()), None, None)) {
        Err(AppError::Validation(data)) => assert_eq!(data.code, "invalid-email"),
        other => panic!("expected Validation error, got: {:?}", other),
    }
}

#[test]
fn settings_and_queries_hold_what_they_are_given() {
    let config = DbConfig::new("postgres://localhost/directory".to_string());
    assert_eq!(config.database_url(), "postgres://localhost/directory");
    let query = QueryFilter { email: "a@b.cd".to_string() };
    assert_eq!(query.clone().email, "a@b.cd");
}
