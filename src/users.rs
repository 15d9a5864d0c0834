use vstd::prelude::*;

use core::marker::PhantomData;

use crate::clock::unix_time_secs;
use crate::ports::{
    find_by_id, find_by_username, lemma_find_by_id_has_id, Claims, Hasher, IDGenerator, TokenGenerator, UserModel,
    UserView, UsersDatabase,
};
use crate::request::{
    login_validation, register_validation, LoginRequest, LoginValidationError, RegisterRequest,
    RegisterValidationError,
};

verus! {

#[derive(Clone, Copy, Debug, PartialEq, Eq, Structural)]
pub enum RegistrationError {
    DatabaseError,
    UsernameTaken,
    HashError,
    TokenGenerationError,
    RequestValidationError(RegisterValidationError),
}

#[derive(Clone, Copy, Debug, PartialEq, Eq, Structural)]
pub enum LoginError {
    DatabaseError,
    UserNotFound,
    IncorrectPassword,
    HashCompareError,
    TokenGenerationError,
    RequestValidationError(LoginValidationError),
}

#[derive(Clone, Copy, Debug, PartialEq, Eq, Structural)]
pub enum AuthorizationError {
    DatabaseError,
    UserNotFound,
    InvalidToken,
    ExpiredToken,
}

/// Whether a token issued at `iat` and valid for `exp` seconds has expired
/// at `now`.
pub open spec fn expired(now: u64, iat: u64, exp: u64) -> bool {
    now > iat + exp
}

/// The outcome of authorizing claims at `now` against the accounts of a
/// store that answers.
pub open spec fn authorization(users: Seq<UserView>, claims_sub: Seq<char>, claims_iat: u64, claims_exp: u64, now: u64) -> Result<Seq<char>, AuthorizationError> {
    if expired(now, claims_iat, claims_exp) {
        Err(AuthorizationError::ExpiredToken)
    } else {
        match find_by_id(users, claims_sub) {
            None => Err(AuthorizationError::UserNotFound),
            Some(u) => Ok(u.id),
        }
    }
}

/// Registration, sign-in and token checks over a store of accounts, a
/// password hasher, a token issuer and an id generator.
pub struct UsersController<D, H, T, I> {
    db: D,
    _data: PhantomData<(H, T, I)>,
}

impl<D: UsersDatabase, H: Hasher, T: TokenGenerator, I: IDGenerator> UsersController<D, H, T, I> {
    pub fn new(db: D) -> (r: Self)
        ensures
            r.db() == db,
    {
        UsersController { db, _data: PhantomData }
    }

    pub closed spec fn db(&self) -> D {
        self.db
    }

    pub fn database(&self) -> (r: &D)
        ensures
            *r == self.db(),
    {
        &self.db
    }

    /// Creates an account for the request and returns a token for it.
    ///
    /// A request with an empty username or password is refused, then a
    /// store that does not answer, then a username already in use; otherwise
    /// the password is hashed, the account stored under a fresh id, and a
    /// token issued, the hasher and the token issuer deciding whether those
    /// two steps succeed.
    pub fn register(&mut self, request: RegisterRequest) -> (r: Result<String, RegistrationError>)
        ensures
            final(self).db().available() == old(self).db().available(),
            register_validation(request.username_view(), request.password_view()) is Err ==> r
                == Err::<String, RegistrationError>(
                RegistrationError::RequestValidationError(
                    register_validation(request.username_view(), request.password_view())->Err_0,
                ),
            ),
            register_validation(request.username_view(), request.password_view()) is Ok
                && !old(self).db().available() ==> r == Err::<String, RegistrationError>(
                RegistrationError::DatabaseError,
            ),
            register_validation(request.username_view(), request.password_view()) is Ok
                && old(self).db().available() && find_by_username(
                old(self).db().users(),
                request.username_view(),
            ) is Some ==> r == Err::<String, RegistrationError>(RegistrationError::UsernameTaken),
            register_validation(request.username_view(), request.password_view()) is Ok
                && old(self).db().available() && find_by_username(
                old(self).db().users(),
                request.username_view(),
            ) is None ==> (r is Ok || r == Err::<String, RegistrationError>(
                RegistrationError::HashError,
            ) || r == Err::<String, RegistrationError>(
                RegistrationError::TokenGenerationError,
            )),
            // once the request is valid, the store answers and the username
            // is free: the hasher alone decides `HashError`, and only an
            // issuer that can fail gives `TokenGenerationError`
            register_validation(request.username_view(), request.password_view()) is Ok
                && old(self).db().available() && find_by_username(
                old(self).db().users(),
                request.username_view(),
            ) is None ==> ((r == Err::<String, RegistrationError>(RegistrationError::HashError))
                <==> !H::hash_ok(request.password_view())),
            register_validation(request.username_view(), request.password_view()) is Ok
                && old(self).db().available() && find_by_username(
                old(self).db().users(),
                request.username_view(),
            ) is None && H::hash_ok(request.password_view()) && T::always_issues() ==> r is Ok,
            r == Err::<String, RegistrationError>(RegistrationError::TokenGenerationError)
                ==> !T::always_issues(),
            // an account is added exactly when the password was hashed
            (r is Ok || r == Err::<String, RegistrationError>(
                RegistrationError::TokenGenerationError,
            )) ==> final(self).db().users().len() == old(self).db().users().len() + 1
                && final(self).db().users().drop_last() == old(self).db().users()
                && final(self).db().users().last().username == request.username_view()
                && H::accepts(request.password_view(), final(self).db().users().last().password),
            // the token is issued for the stored account
            r is Ok ==> T::issued(final(self).db().users().last().id, r->Ok_0@),
            !(r is Ok || r == Err::<String, RegistrationError>(
                RegistrationError::TokenGenerationError,
            )) ==> final(self).db().users() == old(self).db().users(),
    {
        match request.validate() {
            Ok(()) => {},
            Err(e) => return Err(RegistrationError::RequestValidationError(e)),
        }
        let existing = match self.db.get_by_username(request.username()) {
            Ok(u) => u,
            Err(_) => return Err(RegistrationError::DatabaseError),
        };
        if existing.is_some() {
            return Err(RegistrationError::UsernameTaken);
        }
        let id = I::generate();
        let username = request.username().to_string();
        let hashed = match H::hash_password(request.password().to_string()) {
            Ok(h) => h,
            Err(_) => return Err(RegistrationError::HashError),
        };
        let model = UserModel::new(id.clone(), username, hashed);
        match self.db.add_user(model) {
            Ok(()) => {},
            Err(_) => return Err(RegistrationError::DatabaseError),
        }
        match T::generate(id) {
            Ok(token) => Ok(token),
            Err(_) => Err(RegistrationError::TokenGenerationError),
        }
    }

    /// Checks the request's password against the stored account of its
    /// username and returns a token for that account.
    pub fn login(&self, request: LoginRequest) -> (r: Result<String, LoginError>)
        ensures
            login_validation(request.username_view(), request.password_view()) is Err ==> r
                == Err::<String, LoginError>(
                LoginError::RequestValidationError(
                    login_validation(request.username_view(), request.password_view())->Err_0,
                ),
            ),
            login_validation(request.username_view(), request.password_view()) is Ok
                && !self.db().available() ==> r == Err::<String, LoginError>(
                LoginError::DatabaseError,
            ),
            login_validation(request.username_view(), request.password_view()) is Ok
                && self.db().available() && find_by_username(
                self.db().users(),
                request.username_view(),
            ) is None ==> r == Err::<String, LoginError>(LoginError::UserNotFound),
            login_validation(request.username_view(), request.password_view()) is Ok
                && self.db().available() && find_by_username(
                self.db().users(),
                request.username_view(),
            ) is Some ==> ({
                let u = find_by_username(self.db().users(), request.username_view())->Some_0;
                &&& (r is Ok || r == Err::<String, LoginError>(LoginError::TokenGenerationError))
                    ==> H::accepts(request.password_view(), u.password)
                &&& r is Ok ==> T::issued(u.id, r->Ok_0@)
                &&& (r == Err::<String, LoginError>(LoginError::HashCompareError)) <==> !H::compare_ok(
                    request.password_view(),
                    u.password,
                )
                &&& H::compare_ok(request.password_view(), u.password) && !H::accepts(
                    request.password_view(),
                    u.password,
                ) ==> r == Err::<String, LoginError>(LoginError::IncorrectPassword)
                &&& H::compare_ok(request.password_view(), u.password) && H::accepts(
                    request.password_view(),
                    u.password,
                ) && T::always_issues() ==> r is Ok
                &&& r == Err::<String, LoginError>(LoginError::TokenGenerationError)
                    ==> !T::always_issues()
                &&& r == Err::<String, LoginError>(LoginError::IncorrectPassword) ==> !H::accepts(
                    request.password_view(),
                    u.password,
                )
                &&& (r is Ok || r == Err::<String, LoginError>(LoginError::TokenGenerationError)
                    || r == Err::<String, LoginError>(LoginError::IncorrectPassword) || r
                    == Err::<String, LoginError>(LoginError::HashCompareError))
            }),
    {
        match request.validate() {
            Ok(()) => {},
            Err(e) => return Err(LoginError::RequestValidationError(e)),
        }
        let user = match self.db.get_by_username(request.username()) {
            Ok(Some(u)) => u,
            Ok(None) => return Err(LoginError::UserNotFound),
            Err(_) => return Err(LoginError::DatabaseError),
        };
        let matches = match H::compare_password(
            request.password().to_string(),
            user.password().to_string(),
        ) {
            Ok(m) => m,
            Err(_) => return Err(LoginError::HashCompareError),
        };
        if matches {
            match T::generate(user.id().to_string()) {
                Ok(token) => Ok(token),
                Err(_) => Err(LoginError::TokenGenerationError),
            }
        } else {
            Err(LoginError::IncorrectPassword)
        }
    }

    /// Decides a token's claims at time `now` (seconds since the Unix
    /// epoch): expired claims are refused, then a store that does not
    /// answer, then a subject with no account; otherwise the account id.
    pub fn authorize_claims(&self, claims: &Claims, now: u64) -> (r: Result<String, AuthorizationError>)
        ensures
            !expired(now, claims@.iat, claims@.exp) && !self.db().available() ==> r == Err::<
                String,
                AuthorizationError,
            >(AuthorizationError::DatabaseError),
            expired(now, claims@.iat, claims@.exp) || self.db().available() ==> match authorization(
                self.db().users(),
                claims@.sub,
                claims@.iat,
                claims@.exp,
                now,
            ) {
                Ok(id) => r is Ok && r->Ok_0@ == id,
                Err(e) => r == Err::<String, AuthorizationError>(e),
            },
    {
        let deadline: u128 = claims.iat() as u128 + claims.exp() as u128;
        if (now as u128) > deadline {
            return Err(AuthorizationError::ExpiredToken);
        }
        match self.db.get_user(claims.sub()) {
            Ok(Some(user)) => Ok(user.id().to_string()),
            Ok(None) => Err(AuthorizationError::UserNotFound),
            Err(_) => Err(AuthorizationError::DatabaseError),
        }
    }

    /// Reads the token's claims and decides them at the current time. A
    /// token whose claims cannot be read is invalid. Where the clock reads
    /// before the Unix epoch the claims are decided at time zero (a token
    /// issuer may itself fail first on such a clock).
    pub fn authorize(&self, token: String) -> (r: Result<String, AuthorizationError>)
        ensures
            r == Err::<String, AuthorizationError>(AuthorizationError::InvalidToken) <==> T::claims_of(
                token@,
            ) is None,
            r is Ok ==> self.db().available() && find_by_id(self.db().users(), r->Ok_0@) is Some,
            r is Ok ==> r->Ok_0@ == T::claims_of(token@)->Some_0.sub,
            r == Err::<String, AuthorizationError>(AuthorizationError::DatabaseError)
                ==> !self.db().available(),
            r == Err::<String, AuthorizationError>(AuthorizationError::UserNotFound)
                ==> self.db().available(),
    {
        let claims = match T::get_claims(token) {
            Ok(c) => c,
            Err(_) => return Err(AuthorizationError::InvalidToken),
        };
        let now = match unix_time_secs() {
            Ok(n) => n,
            Err(_) => 0,
        };
        let r = self.authorize_claims(&claims, now);
        proof {
            lemma_find_by_id_has_id(self.db().users(), claims@.sub);
        }
        r
    }
}

} // verus!
