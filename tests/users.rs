use segon::jwt::Jwt;
use segon::memory_users::{UsersMemoryDatabase, UsersMemoryDatabaseError};
use segon::ports::{Hasher, UserModel, UsersDatabase};
use segon::request::{
    LoginRequest, LoginValidationError, RegisterRequest, RegisterValidationError,
};
use segon::sha_hasher::ShaHasher;
use segon::simple_token_generator::SimpleTokenGenerator;
use segon::users::{AuthorizationError, LoginError, RegistrationError, UsersController};
use segon::uuid_generator::UuidGenerator;

fn sample_register_request() -> RegisterRequest {
    RegisterRequest::new("test".into(), "123".into())
}

fn sample_login_request() -> LoginRequest {
    LoginRequest::new("test".into(), "123".into())
}

fn get_controller() -> UsersController<UsersMemoryDatabase, ShaHasher, Jwt, UuidGenerator> {
    UsersController::new(UsersMemoryDatabase::new())
}

fn get_failing_controller() -> UsersController<UsersMemoryDatabase, ShaHasher, Jwt, UuidGenerator>
{
    UsersController::new(UsersMemoryDatabase::failing())
}

#[test]
fn simple_registration() {
    let register_request = sample_register_request();
    let mut controller = get_controller();

    let res = controller.register(register_request);
    assert!(res.is_ok());
}

#[test]
fn failing_registration() {
    let register_request = sample_register_request();
    let mut controller = get_failing_controller();

    let res = controller.register(register_request);
    assert!(res.is_err());
    assert_eq!(res.err(), Some(RegistrationError::DatabaseError));
}

#[test]
fn can_not_register_with_an_existing_username() {
    let register_request = sample_register_request();
    let mut controller = get_controller();

    let res = controller.register(register_request.clone());
    assert!(res.is_ok());

    let res = controller.register(register_request);
    assert!(res.is_err());
    assert_eq!(res.err(), Some(RegistrationError::UsernameTaken));
}

#[test]
fn register_and_login() {
    let register_request = sample_register_request();
    let mut controller = get_controller();

    let res = controller.register(register_request.clone());
    assert!(res.is_ok());

    let login_request = register_request.into();
    let res = controller.login(login_request);
    assert!(res.is_ok());
}

#[test]
fn failing_login() {
    let login_request = sample_login_request();
    let controller = get_failing_controller();

    let res = controller.login(login_request);
    assert!(res.is_err());
    assert_eq!(res.err(), Some(LoginError::DatabaseError));
}

#[test]
fn can_not_login_to_a_non_existent_account() {
    let login_request = sample_login_request();
    let controller = get_controller();

    let res = controller.login(login_request);
    assert!(res.is_err());
    assert_eq!(res.err(), Some(LoginError::UserNotFound));
}

#[test]
fn can_not_login_with_incorrect_password() {
    let mut register_request = sample_register_request();
    let mut controller = get_controller();

    let res = controller.register(register_request.clone());
    assert!(res.is_ok());

    register_request.set_password("wrong");

    let login_request = register_request.into();
    let res = controller.login(login_request);
    assert!(res.is_err());
    assert_eq!(res.err(), Some(LoginError::IncorrectPassword));
}

#[test]
fn simple_authorization() {
    let register_request = sample_register_request();
    let mut controller = get_controller();

    let res = controller.register(register_request);
    assert!(res.is_ok());

    let token = res.unwrap();
    let decoded_user = controller.authorize(token);
    assert!(decoded_user.is_ok());
}

#[test]
fn registration_rejects_empty_fields() {
    let mut controller = get_controller();
    let res = controller.register(RegisterRequest::new("".into(), "123".into()));
    assert_eq!(
        res.err(),
        Some(RegistrationError::RequestValidationError(RegisterValidationError::UsernameEmpty))
    );
    let res = controller.register(RegisterRequest::new("test".into(), "".into()));
    assert_eq!(
        res.err(),
        Some(RegistrationError::RequestValidationError(RegisterValidationError::PasswordEmpty))
    );
}

#[test]
fn login_rejects_empty_fields() {
    let controller = get_controller();
    let res = controller.login(LoginRequest::new("".into(), "".into()));
    assert_eq!(
        res.err(),
        Some(LoginError::RequestValidationError(LoginValidationError::UsernameEmpty))
    );
    let res = controller.login(LoginRequest::new("test".into(), "".into()));
    assert_eq!(
        res.err(),
        Some(LoginError::RequestValidationError(LoginValidationError::PasswordEmpty))
    );
}

#[test]
fn authorization_returns_the_registered_id() {
    let mut controller = get_controller();
    let token = controller.register(sample_register_request()).unwrap();
    let claims = Jwt::decode_claims(&token).unwrap();
    assert_eq!(claims.sub().len(), 36);
    assert_eq!(claims.exp(), 24 * 60 * 60);
    let id = controller.authorize(token).unwrap();
    assert_eq!(id, claims.sub());
}

#[test]
fn authorization_rejects_a_garbled_token() {
    let mut controller = get_controller();
    let token = controller.register(sample_register_request()).unwrap();
    let res = controller.authorize(format!("{token}x"));
    assert_eq!(res.err(), Some(AuthorizationError::InvalidToken));
    let res = controller.authorize("not a token".to_string());
    assert_eq!(res.err(), Some(AuthorizationError::InvalidToken));
}

#[test]
fn authorization_of_claims_by_time_and_account() {
    let mut controller: UsersController<UsersMemoryDatabase, ShaHasher, SimpleTokenGenerator, UuidGenerator> =
        UsersController::new(UsersMemoryDatabase::new());
    let id = controller.register(sample_register_request()).unwrap();
    let claims = SimpleTokenGenerator::claims_of(id.clone());
    assert_eq!(controller.authorize_claims(&claims, 11), Ok(id.clone()));
    assert_eq!(
        controller.authorize_claims(&claims, 12),
        Err(AuthorizationError::ExpiredToken)
    );
    let other = SimpleTokenGenerator::claims_of("nobody".to_string());
    assert_eq!(
        controller.authorize_claims(&other, 5),
        Err(AuthorizationError::UserNotFound)
    );
    // the simple tokens were issued at second 1 for 10 seconds
    assert_eq!(controller.authorize(id), Err(AuthorizationError::ExpiredToken));
}

#[test]
fn authorization_with_a_failing_store() {
    let controller: UsersController<UsersMemoryDatabase, ShaHasher, SimpleTokenGenerator, UuidGenerator> =
        UsersController::new(UsersMemoryDatabase::failing());
    let claims = SimpleTokenGenerator::claims_of("someone".to_string());
    assert_eq!(
        controller.authorize_claims(&claims, 3),
        Err(AuthorizationError::DatabaseError)
    );
}

#[test]
fn jwt_round_trip() {
    let claims = Jwt::claims_for("abc".to_string(), 100);
    let token = Jwt::encode_claims(&claims).unwrap();
    assert_ne!(token, "abc");
    let back = Jwt::decode_claims(&token).unwrap();
    assert_eq!(back.sub(), "abc");
    assert_eq!(back.iat(), 100);
    assert_eq!(back.exp(), 24 * 60 * 60);
}

#[test]
fn request_accessors() {
    let mut r = RegisterRequest::new("name".into(), "pw".into());
    assert_eq!(r.username(), "name");
    assert_eq!(r.password(), "pw");
    r.set_password("other");
    assert_eq!(r.password(), "other");
    let l: LoginRequest = r.into();
    assert_eq!(l.username(), "name");
    assert_eq!(l.password(), "other");
    assert_eq!(l.validate(), Ok(()));
}

#[test]
fn uuid_ids_are_fresh() {
    let a = UuidGenerator::new_id();
    let b = UuidGenerator::new_id();
    assert_eq!(a.len(), 36);
    assert_ne!(a, b);
}

#[test]
fn failing_store_names_its_errors() {
    let mut db = UsersMemoryDatabase::failing();
    assert_eq!(db.get_user("x").err(), Some(UsersMemoryDatabaseError::GetUserError));
    assert_eq!(db.get_by_username("x").err(), Some(UsersMemoryDatabaseError::GetUserError));
    let user = UserModel::new("1".into(), "n".into(), "p".into());
    assert_eq!(db.add_user(user).err(), Some(UsersMemoryDatabaseError::AddUserError));
}

#[test]
fn login_token_is_for_the_account_id() {
    let mut controller: UsersController<UsersMemoryDatabase, ShaHasher, SimpleTokenGenerator, UuidGenerator> =
        UsersController::new(UsersMemoryDatabase::new());
    let id = controller.register(sample_register_request()).unwrap();
    let token = controller.login(sample_login_request()).unwrap();
    assert_eq!(token, id);
    assert_eq!(id.len(), 36);
}

#[test]
fn hash_then_compare() {
    let h = ShaHasher::hash_password("123".to_string()).unwrap();
    assert_ne!(h, "123");
    assert_eq!(ShaHasher::compare_password("123".to_string(), h.clone()), Ok(true));
    assert_eq!(ShaHasher::compare_password("wrong".to_string(), h), Ok(false));
}
