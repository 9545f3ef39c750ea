use auth_service::credentials::{Email, Password, User};
use auth_service::errors::UserStoreError;
use auth_service::hashing::{
    admits_hash, compute_password_hash, insert_failure, row_for_new_user, user_from_row, validate_fetched,
    verify_password_hash, DBUser, HASH_ALGORITHM, HASH_ITERATIONS, HASH_LANES, HASH_MEMORY_KIB,
    HASH_VERSION, MAX_LANES,
};

fn email(text: &str) -> Email {
    Email::parse(text.to_string()).ok().unwrap()
}

fn password(text: &str) -> Password {
    Password::parse(text.to_string()).ok().unwrap()
}

#[test]
fn hash_costs() {
    assert_eq!(HASH_ALGORITHM, "argon2id");
    assert_eq!(HASH_VERSION, 0x13);
    assert_eq!(HASH_MEMORY_KIB, 15000);
    assert_eq!(HASH_ITERATIONS, 2);
    assert_eq!(HASH_LANES, 1);
}

#[test]
fn computed_hash_verifies_its_password_only() {
    let hash = compute_password_hash(&password("password123")).unwrap();
    assert_ne!(hash, "password123");
    assert!(hash.starts_with("$argon2id$v=19$m=15000,t=2,p=1$"));
    assert_eq!(verify_password_hash(&hash, "password123"), Ok(()));
    assert_eq!(verify_password_hash(&hash, "password124"), Err(UserStoreError::InvalidCredentials));
    assert_eq!(verify_password_hash("no hash", "password123"), Err(UserStoreError::InvalidCredentials));
}

#[test]
fn hashes_are_salted() {
    let a = compute_password_hash(&password("password123")).unwrap();
    let b = compute_password_hash(&password("password123")).unwrap();
    assert_ne!(a, b);
}

#[test]
fn validate_fetched_outcomes() {
    let pw = password("password123");
    let hash = compute_password_hash(&pw).unwrap();
    assert_eq!(validate_fetched(None, &pw), Err(UserStoreError::UserNotFound));
    assert_eq!(validate_fetched(Some(hash.clone()), &pw), Ok(()));
    assert_eq!(
        validate_fetched(Some(hash), &password("password124")),
        Err(UserStoreError::InvalidCredentials)
    );
}

#[test]
fn user_from_row_outcomes() {
    let address = email("a@example.com");
    assert!(user_from_row(&address, None).err() == Some(UserStoreError::UserNotFound));
    let row = DBUser {
        email: "a@example.com".to_string(),
        password_hash: "$argon2id$v=19$stored".to_string(),
        requires_2fa: true,
    };
    let user = user_from_row(&address, Some(row)).ok().unwrap();
    assert!(user.email == address);
    assert_eq!(user.password.expose(), "$argon2id$v=19$stored");
    assert!(user.requires_2fa);
    let short = DBUser { email: "a@example.com".to_string(), password_hash: "short".to_string(), requires_2fa: false };
    assert!(user_from_row(&address, Some(short)).err() == Some(UserStoreError::UnexpectedError));
}

#[test]
fn row_for_new_user_outcomes() {
    let user = User::new(email("a@example.com"), password("password123"), true);
    let taken = row_for_new_user(Ok(user.clone()), &user);
    assert!(taken.err() == Some(UserStoreError::UserAlreadyExists));
    let failed = row_for_new_user(Err(UserStoreError::UnexpectedError), &user);
    assert!(failed.err() == Some(UserStoreError::UnexpectedError));
    let row = row_for_new_user(Err(UserStoreError::UserNotFound), &user).ok().unwrap();
    assert_eq!(row.email, "a@example.com");
    assert!(row.requires_2fa);
    assert!(row.password_hash.starts_with("$argon2id$v=19$m=15000,t=2,p=1$"));
    assert_eq!(verify_password_hash(&row.password_hash, "password123"), Ok(()));
}

#[test]
fn insert_failure_outcomes() {
    assert_eq!(insert_failure(true), UserStoreError::UserAlreadyExists);
    assert_eq!(insert_failure(false), UserStoreError::UnexpectedError);
}

#[test]
fn hash_that_names_too_many_lanes_is_turned_down() {
    assert_eq!(MAX_LANES, 16_777_215);
    let pw = password("password123");
    let hash = compute_password_hash(&pw).unwrap();
    assert!(admits_hash(&hash));
    assert_eq!(verify_password_hash(&hash, "password123"), Ok(()));

    for lanes in ["16777216", "536870912", "4294967295"] {
        let crowded = hash.replace(",p=1$", &format!(",p={}$", lanes));
        assert_ne!(crowded, hash);
        assert!(!admits_hash(&crowded), "{}", crowded);
        assert_eq!(
            verify_password_hash(&crowded, "password123"),
            Err(UserStoreError::InvalidCredentials)
        );
        assert_eq!(
            validate_fetched(Some(crowded), &pw),
            Err(UserStoreError::InvalidCredentials)
        );
    }

    // the parameter that is named last is the one that counts
    let repeated = hash.replace(",p=1$", ",p=1,p=536870912$");
    assert!(!admits_hash(&repeated));
    assert_eq!(
        verify_password_hash(&repeated, "password123"),
        Err(UserStoreError::InvalidCredentials)
    );
    let overruled = hash.replace(",p=1$", ",p=536870912,p=1$");
    assert!(admits_hash(&overruled));
    assert_eq!(verify_password_hash(&overruled, "password123"), Ok(()));

    // the largest number of lanes is admitted, and argon2 decides
    let most = hash.replace("m=15000,t=2,p=1$", "m=8,t=1,p=16777215$");
    assert!(admits_hash(&most));
    assert_eq!(verify_password_hash(&most, "password123"), Err(UserStoreError::InvalidCredentials));

    // a text that is no hash, or names no lanes, goes to argon2 as it is
    assert!(admits_hash("no hash"));
    assert!(admits_hash(""));
    assert!(admits_hash(&hash.replace(",p=1$", "$")));
    assert!(admits_hash(&hash.replace(",p=1$", ",p=x$")));
    assert_eq!(verify_password_hash("no hash", "password123"), Err(UserStoreError::InvalidCredentials));
}
