use chat_backend::db::models::User;
use chat_backend::http::error::HttpError;
use chat_backend::http::handlers::user::authenticate;
use chat_backend::http::handlers::user::check_login;
use chat_backend::http::models::LoginRequest;
use chat_backend::http::models::UserCreateRequest;
use chat_backend::ids::has_random_shape;

fn registration(password: &str) -> UserCreateRequest {
    UserCreateRequest {
        nickname: String::from("nick"),
        name: String::from("name"),
        surname: String::from("surname"),
        email: String::from("a@b.c"),
        password: String::from(password),
        image: None,
    }
}

fn stored(password_hash: &str) -> User {
    User::with_id(registration("unused"), 7, String::from(password_hash))
}

fn login(password: &str) -> LoginRequest {
    LoginRequest { email: String::from("a@b.c"), password: String::from(password) }
}

fn bad_request(text: &str) -> HttpError {
    HttpError::BadRequest(String::from(text))
}

#[test]
fn user_with_given_id_and_hash() {
    let mut request = registration("secret password");
    request.image = Some(String::from("img"));
    let user = User::with_id(request, 7, String::from("hashed"));
    assert_eq!(
        user,
        User {
            id: 7,
            nickname: String::from("nick"),
            name: String::from("name"),
            surname: String::from("surname"),
            email: String::from("a@b.c"),
            password: String::from("hashed"),
            image: Some(String::from("img")),
        }
    );
}

#[test]
fn registration_hashes_the_password_and_draws_an_id() {
    let user = User::try_from(registration("secret password")).expect("hashing works");
    assert!(has_random_shape(user.id));
    assert_eq!(user.nickname, "nick");
    assert_eq!(user.email, "a@b.c");
    assert_eq!(user.image, None);
    assert_ne!(user.password, "secret password");
    assert_eq!(user.password.len(), 60);
    assert!(user.password.starts_with("$2"));
    assert_eq!(authenticate(&login("secret password"), Some(user.clone())), Ok(user.clone()));
    assert_eq!(authenticate(&login("another password"), Some(user)), Err(bad_request("Unauthorized")));
}

#[test]
fn login_with_the_password_of_a_known_hash() {
    let user = stored("$2y$05$bvIG6Nmid91Mu9RcmmWZfO5HJIMCT8riNW0hEp8f6/FuA2/mHZFpe");
    assert_eq!(authenticate(&login("password"), Some(user.clone())), Ok(user.clone()));
    assert_eq!(authenticate(&login("Password"), Some(user.clone())), Err(bad_request("Unauthorized")));
    assert_eq!(authenticate(&login(""), Some(user)), Err(bad_request("Unauthorized")));
}

#[test]
fn login_of_an_unknown_user_is_refused() {
    assert_eq!(authenticate(&login("password"), None), Err(bad_request("User not found")));
}

#[test]
fn login_against_a_text_that_is_no_hash_is_a_bad_request() {
    let user = stored("password");
    match authenticate(&login("password"), Some(user)) {
        Err(HttpError::BadRequest(text)) => {
            assert_ne!(text, "Unauthorized");
            assert!(text.starts_with("Invalid hash"), "unexpected text: {}", text);
        }
        other => panic!("unexpected outcome: {:?}", other),
    }
}

#[test]
fn login_decision_for_each_verdict() {
    let user = stored("hash");
    assert_eq!(check_login(Some(user.clone()), Ok(true)), Ok(user.clone()));
    assert_eq!(check_login(Some(user.clone()), Ok(false)), Err(bad_request("Unauthorized")));
    assert_eq!(check_login(Some(user), Err(String::from("broken"))), Err(bad_request("broken")));
    assert_eq!(check_login(None, Ok(true)), Err(bad_request("User not found")));
    assert_eq!(check_login(None, Err(String::from("broken"))), Err(bad_request("User not found")));
}

#[test]
fn registration_outcome_for_each_outcome_of_hashing() {
    let made = User::from_hashed(registration("secret password"), 9, Ok(String::from("hashed")));
    match made {
        Ok(user) => assert_eq!(user, User::with_id(registration("secret password"), 9, String::from("hashed"))),
        Err(_) => panic!("a hash gives a user"),
    }
    let failed = User::from_hashed(
        registration("secret password"),
        9,
        Err(bcrypt::BcryptError::CostNotAllowed(3)),
    );
    match failed {
        Err(bcrypt::BcryptError::CostNotAllowed(cost)) => assert_eq!(cost, 3),
        _ => panic!("the error of the hashing comes back unchanged"),
    }
}
