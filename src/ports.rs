use vstd::prelude::*;

verus! {

/// A stored account: its id, its username and its password hash.
#[derive(Clone, Debug)]
pub struct UserModel {
    id: String,
    username: String,
    password: String,
}

pub ghost struct UserView {
    pub id: Seq<char>,
    pub username: Seq<char>,
    pub password: Seq<char>,
}

impl View for UserModel {
    type V = UserView;

    closed spec fn view(&self) -> UserView {
        UserView { id: self.id@, username: self.username@, password: self.password@ }
    }
}

impl UserModel {
    pub fn new(id: String, username: String, password: String) -> (r: Self)
        ensures
            r@ == (UserView { id: id@, username: username@, password: password@ }),
    {
        UserModel { id, username, password }
    }

    pub fn id(&self) -> (r: &str)
        ensures
            r@ == self@.id,
    {
        self.id.as_str()
    }

    pub fn username(&self) -> (r: &str)
        ensures
            r@ == self@.username,
    {
        self.username.as_str()
    }

    pub fn password(&self) -> (r: &str)
        ensures
            r@ == self@.password,
    {
        self.password.as_str()
    }

    pub(crate) fn has_id(&self, id: &String) -> (r: bool)
        ensures
            r == (self@.id == id@),
    {
        self.id == *id
    }

    pub(crate) fn has_username(&self, username: &String) -> (r: bool)
        ensures
            r == (self@.username == username@),
    {
        self.username == *username
    }

    pub fn duplicate(&self) -> (r: Self)
        ensures
            r@ == self@,
    {
        UserModel {
            id: self.id.clone(),
            username: self.username.clone(),
            password: self.password.clone(),
        }
    }
}

/// The first user with id `id`.
pub open spec fn find_by_id(users: Seq<UserView>, id: Seq<char>) -> Option<UserView>
    decreases users.len(),
{
    if users.len() == 0 {
        None
    } else if users[0].id == id {
        Some(users[0])
    } else {
        find_by_id(users.drop_first(), id)
    }
}

pub proof fn lemma_find_by_id_has_id(users: Seq<UserView>, id: Seq<char>)
    ensures
        find_by_id(users, id) is Some ==> find_by_id(users, id)->Some_0.id == id,
    decreases users.len(),
{
    if users.len() > 0 && users[0].id != id {
        lemma_find_by_id_has_id(users.drop_first(), id);
    }
}

/// The first user named `username`.
pub open spec fn find_by_username(users: Seq<UserView>, username: Seq<char>) -> Option<UserView>
    decreases users.len(),
{
    if users.len() == 0 {
        None
    } else if users[0].username == username {
        Some(users[0])
    } else {
        find_by_username(users.drop_first(), username)
    }
}

/// Adding an account under a username that no account had makes a lookup
/// of that username find exactly the added account.
pub proof fn lemma_added_account_found(before: Seq<UserView>, after: Seq<UserView>, username: Seq<char>)
    requires
        find_by_username(before, username) is None,
        after.len() == before.len() + 1,
        after.drop_last() == before,
        after.last().username == username,
    ensures
        find_by_username(after, username) == Some(after.last()),
    decreases before.len(),
{
    if before.len() > 0 {
        assert(after[0] == before[0]);
        assert(after.drop_first().drop_last() =~= before.drop_first());
        assert(after.drop_first().last() == after.last());
        lemma_added_account_found(before.drop_first(), after.drop_first(), username);
    } else {
        assert(after.len() == 1);
    }
}

pub open spec fn user_option_view(u: Option<UserModel>) -> Option<UserView> {
    match u {
        None => None,
        Some(u) => Some(u@),
    }
}

/// Where accounts are kept.
pub trait UsersDatabase {
    type Error;

    /// The stored accounts, oldest first.
    spec fn users(&self) -> Seq<UserView>;

    /// Whether the store answers requests.
    spec fn available(&self) -> bool;

    /// Whether `e` is the error this store gives when it refuses a read.
    spec fn is_read_error(e: Self::Error) -> bool;

    /// Whether `e` is the error this store gives when it refuses a write.
    spec fn is_write_error(e: Self::Error) -> bool;

    fn add_user(&mut self, user: UserModel) -> (r: Result<(), Self::Error>)
        ensures
            r is Ok <==> old(self).available(),
            final(self).available() == old(self).available(),
            r is Ok ==> final(self).users() == old(self).users().push(user@),
            r is Err ==> final(self).users() == old(self).users(),
            r is Err ==> Self::is_write_error(r->Err_0),
    ;

    fn get_user(&self, id: &str) -> (r: Result<Option<UserModel>, Self::Error>)
        ensures
            r is Ok <==> self.available(),
            r is Ok ==> user_option_view(r->Ok_0) == find_by_id(self.users(), id@),
            r is Err ==> Self::is_read_error(r->Err_0),
    ;

    fn get_by_username(&self, username: &str) -> (r: Result<Option<UserModel>, Self::Error>)
        ensures
            r is Ok <==> self.available(),
            r is Ok ==> user_option_view(r->Ok_0) == find_by_username(self.users(), username@),
            r is Err ==> Self::is_read_error(r->Err_0),
    ;
}

/// Hashes passwords and checks them against hashes.
pub trait Hasher {
    type Error;

    /// Whether `plain` is the password that `hashed` was made from.
    spec fn accepts(plain: Seq<char>, hashed: Seq<char>) -> bool;

    /// Whether hashing `password` succeeds.
    spec fn hash_ok(password: Seq<char>) -> bool;

    /// Whether comparing `plain` with `hashed` succeeds (whatever it answers).
    spec fn compare_ok(plain: Seq<char>, hashed: Seq<char>) -> bool;

    fn hash_password(password: String) -> (r: Result<String, Self::Error>)
        ensures
            r is Ok <==> Self::hash_ok(password@),
            r is Ok ==> Self::accepts(password@, r->Ok_0@),
    ;

    fn compare_password(plain: String, hashed: String) -> (r: Result<bool, Self::Error>)
        ensures
            r is Ok <==> Self::compare_ok(plain@, hashed@),
            r is Ok ==> r->Ok_0 == Self::accepts(plain@, hashed@),
    ;
}

/// Makes fresh account ids.
pub trait IDGenerator {
    fn generate() -> String;
}

/// What a token says: its subject, when it was issued and for how many
/// seconds it is valid, both in seconds.
#[derive(Clone, Debug)]
pub struct Claims {
    exp: u64,
    iat: u64,
    sub: String,
}

pub ghost struct ClaimsView {
    pub exp: u64,
    pub iat: u64,
    pub sub: Seq<char>,
}

impl View for Claims {
    type V = ClaimsView;

    closed spec fn view(&self) -> ClaimsView {
        ClaimsView { exp: self.exp, iat: self.iat, sub: self.sub@ }
    }
}

impl Claims {
    pub fn new(exp: u64, iat: u64, sub: String) -> (r: Self)
        ensures
            r@ == (ClaimsView { exp, iat, sub: sub@ }),
    {
        Claims { exp, iat, sub }
    }

    pub fn exp(&self) -> (r: u64)
        ensures
            r == self@.exp,
    {
        self.exp
    }

    pub fn iat(&self) -> (r: u64)
        ensures
            r == self@.iat,
    {
        self.iat
    }

    pub fn sub(&self) -> (r: &str)
        ensures
            r@ == self@.sub,
    {
        self.sub.as_str()
    }
}

/// Issues tokens for account ids and reads their claims back.
pub trait TokenGenerator {
    type Error;

    /// Whether `token` is one that this issuer makes for the account `id`.
    spec fn issued(id: Seq<char>, token: Seq<char>) -> bool;

    /// The claims that `token` carries, `None` when it carries none.
    spec fn claims_of(token: Seq<char>) -> Option<ClaimsView>;

    /// Whether issuing a token never fails, whatever the id and the
    /// environment.
    spec fn always_issues() -> bool;

    fn generate(id: String) -> (r: Result<String, Self::Error>)
        ensures
            r is Ok ==> Self::issued(id@, r->Ok_0@),
            Self::always_issues() ==> r is Ok,
    ;

    fn get_claims(token: String) -> (r: Result<Claims, Self::Error>)
        ensures
            r is Ok <==> Self::claims_of(token@) is Some,
            r is Ok ==> Self::claims_of(token@) == Some(r->Ok_0@),
    ;
}

} // verus!
