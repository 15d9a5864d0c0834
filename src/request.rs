use vstd::prelude::*;

verus! {

/// A request to create an account.
#[derive(Clone, Debug)]
pub struct RegisterRequest {
    username: String,
    password: String,
}

#[derive(Clone, Copy, Debug, PartialEq, Eq, Structural)]
pub enum RegisterValidationError {
    UsernameEmpty,
    PasswordEmpty,
}

/// The outcome of validating a username and password: the username is
/// checked first.
pub open spec fn register_validation(username: Seq<char>, password: Seq<char>) -> Result<
    (),
    RegisterValidationError,
> {
    if username.len() == 0 {
        Err(RegisterValidationError::UsernameEmpty)
    } else if password.len() == 0 {
        Err(RegisterValidationError::PasswordEmpty)
    } else {
        Ok(())
    }
}

impl RegisterRequest {
    pub closed spec fn username_view(&self) -> Seq<char> {
        self.username@
    }

    pub closed spec fn password_view(&self) -> Seq<char> {
        self.password@
    }

    pub fn new(username: String, password: String) -> (r: Self)
        ensures
            r.username_view() == username@,
            r.password_view() == password@,
    {
        RegisterRequest { username, password }
    }

    pub fn username(&self) -> (r: &str)
        ensures
            r@ == self.username_view(),
    {
        self.username.as_str()
    }

    pub fn password(&self) -> (r: &str)
        ensures
            r@ == self.password_view(),
    {
        self.password.as_str()
    }

    pub fn set_password(&mut self, password: &str)
        ensures
            final(self).username_view() == old(self).username_view(),
            final(self).password_view() == password@,
    {
        self.password = password.to_string();
    }

    pub fn validate(&self) -> (r: Result<(), RegisterValidationError>)
        ensures
            r == register_validation(self.username_view(), self.password_view()),
    {
        if self.username.as_str().is_empty() {
            return Err(RegisterValidationError::UsernameEmpty);
        }
        if self.password.as_str().is_empty() {
            return Err(RegisterValidationError::PasswordEmpty);
        }
        Ok(())
    }
}

/// A request to sign in.
#[derive(Clone, Debug)]
pub struct LoginRequest {
    username: String,
    password: String,
}

#[derive(Clone, Copy, Debug, PartialEq, Eq, Structural)]
pub enum LoginValidationError {
    UsernameEmpty,
    PasswordEmpty,
}

pub open spec fn login_validation(username: Seq<char>, password: Seq<char>) -> Result<
    (),
    LoginValidationError,
> {
    if username.len() == 0 {
        Err(LoginValidationError::UsernameEmpty)
    } else if password.len() == 0 {
        Err(LoginValidationError::PasswordEmpty)
    } else {
        Ok(())
    }
}

impl LoginRequest {
    pub closed spec fn username_view(&self) -> Seq<char> {
        self.username@
    }

    pub closed spec fn password_view(&self) -> Seq<char> {
        self.password@
    }

    pub fn new(username: String, password: String) -> (r: Self)
        ensures
            r.username_view() == username@,
            r.password_view() == password@,
    {
        LoginRequest { username, password }
    }

    pub fn username(&self) -> (r: &str)
        ensures
            r@ == self.username_view(),
    {
        self.username.as_str()
    }

    pub fn password(&self) -> (r: &str)
        ensures
            r@ == self.password_view(),
    {
        self.password.as_str()
    }

    pub fn validate(&self) -> (r: Result<(), LoginValidationError>)
        ensures
            r == login_validation(self.username_view(), self.password_view()),
    {
        if self.username.as_str().is_empty() {
            return Err(LoginValidationError::UsernameEmpty);
        }
        if self.password.as_str().is_empty() {
            return Err(LoginValidationError::PasswordEmpty);
        }
        Ok(())
    }
}

impl From<RegisterRequest> for LoginRequest {
    fn from(request: RegisterRequest) -> (r: Self) {
        LoginRequest { username: request.username, password: request.password }
    }
}

impl vstd::std_specs::convert::FromSpecImpl<RegisterRequest> for LoginRequest {
    open spec fn obeys_from_spec() -> bool {
        true
    }

    closed spec fn from_spec(request: RegisterRequest) -> Self {
        LoginRequest { username: request.username, password: request.password }
    }
}

/// A sign-in request made from a registration request keeps its username
/// and password.
pub proof fn lemma_login_from_register(request: RegisterRequest)
    ensures
        <LoginRequest as vstd::std_specs::convert::FromSpec<RegisterRequest>>::from_spec(
            request,
        ).username_view() == request.username_view(),
        <LoginRequest as vstd::std_specs::convert::FromSpec<RegisterRequest>>::from_spec(
            request,
        ).password_view() == request.password_view(),
{
}

} // verus!
