use vstd::prelude::*;

use crate::ports::{find_by_id, find_by_username, user_option_view, UserModel, UserView, UsersDatabase};

verus! {

/// Accounts kept in memory; a failing instance refuses every request.
#[derive(Clone, Debug)]
pub struct UsersMemoryDatabase {
    users: Vec<UserModel>,
    fail: bool,
}

#[derive(Clone, Copy, Debug, PartialEq, Eq, Structural)]
pub enum UsersMemoryDatabaseError {
    AddUserError,
    GetUserError,
}

proof fn lemma_find_by_id_step(users: Seq<UserView>, i: int, id: Seq<char>)
    requires
        0 <= i < users.len(),
    ensures
        find_by_id(users.subrange(i, users.len() as int), id) == if users[i].id == id {
            Some(users[i])
        } else {
            find_by_id(users.subrange(i + 1, users.len() as int), id)
        },
{
    let s = users.subrange(i, users.len() as int);
    assert(s[0] == users[i]);
    assert(s.drop_first() =~= users.subrange(i + 1, users.len() as int));
}

proof fn lemma_find_by_username_step(users: Seq<UserView>, i: int, username: Seq<char>)
    requires
        0 <= i < users.len(),
    ensures
        find_by_username(users.subrange(i, users.len() as int), username) == if users[i].username
            == username {
            Some(users[i])
        } else {
            find_by_username(users.subrange(i + 1, users.len() as int), username)
        },
{
    let s = users.subrange(i, users.len() as int);
    assert(s[0] == users[i]);
    assert(s.drop_first() =~= users.subrange(i + 1, users.len() as int));
}

impl UsersMemoryDatabase {
    pub fn new() -> (r: Self)
        ensures
            r.available(),
            r.users() == Seq::<UserView>::empty(),
    {
        let r = UsersMemoryDatabase { users: Vec::new(), fail: false };
        assert(r.users() =~= Seq::<UserView>::empty());
        r
    }

    /// A store that fails every request.
    pub fn failing() -> (r: Self)
        ensures
            !r.available(),
            r.users() == Seq::<UserView>::empty(),
    {
        let r = UsersMemoryDatabase { users: Vec::new(), fail: true };
        assert(r.users() =~= Seq::<UserView>::empty());
        r
    }
}

impl UsersDatabase for UsersMemoryDatabase {
    type Error = UsersMemoryDatabaseError;

    closed spec fn users(&self) -> Seq<UserView> {
        self.users@.map_values(|u: UserModel| u@)
    }

    closed spec fn available(&self) -> bool {
        !self.fail
    }

    open spec fn is_read_error(e: UsersMemoryDatabaseError) -> bool {
        e == UsersMemoryDatabaseError::GetUserError
    }

    open spec fn is_write_error(e: UsersMemoryDatabaseError) -> bool {
        e == UsersMemoryDatabaseError::AddUserError
    }

    fn add_user(&mut self, user: UserModel) -> (r: Result<(), UsersMemoryDatabaseError>) {
        if self.fail {
            return Err(UsersMemoryDatabaseError::AddUserError);
        }
        let ghost before = self.users();
        self.users.push(user);
        assert(self.users() =~= before.push(user@));
        Ok(())
    }

    fn get_user(&self, id: &str) -> (r: Result<Option<UserModel>, UsersMemoryDatabaseError>) {
        if self.fail {
            return Err(UsersMemoryDatabaseError::GetUserError);
        }
        let ghost all = self.users();
        assert(all.subrange(0, all.len() as int) =~= all);
        let wanted = id.to_string();
        let mut i: usize = 0;
        while i < self.users.len()
            invariant
                i <= self.users@.len(),
                !self.fail,
                wanted@ == id@,
                all == self.users(),
                find_by_id(all, id@) == find_by_id(all.subrange(i as int, all.len() as int), id@),
            decreases self.users@.len() - i,
        {
            proof {
                lemma_find_by_id_step(all, i as int, id@);
            }
            assert(all[i as int] == self.users@[i as int]@);
            if self.users[i].has_id(&wanted) {
                return Ok(Some(self.users[i].duplicate()));
            }
            i = i + 1;
        }
        assert(all.subrange(i as int, all.len() as int) =~= Seq::<UserView>::empty());
        Ok(None)
    }

    fn get_by_username(&self, username: &str) -> (r: Result<Option<UserModel>, UsersMemoryDatabaseError>) {
        if self.fail {
            return Err(UsersMemoryDatabaseError::GetUserError);
        }
        let ghost all = self.users();
        assert(all.subrange(0, all.len() as int) =~= all);
        let wanted = username.to_string();
        let mut i: usize = 0;
        while i < self.users.len()
            invariant
                i <= self.users@.len(),
                !self.fail,
                wanted@ == username@,
                all == self.users(),
                find_by_username(all, username@) == find_by_username(
                    all.subrange(i as int, all.len() as int),
                    username@,
                ),
            decreases self.users@.len() - i,
        {
            proof {
                lemma_find_by_username_step(all, i as int, username@);
            }
            assert(all[i as int] == self.users@[i as int]@);
            if self.users[i].has_username(&wanted) {
                return Ok(Some(self.users[i].duplicate()));
            }
            i = i + 1;
        }
        assert(all.subrange(i as int, all.len() as int) =~= Seq::<UserView>::empty());
        Ok(None)
    }
}

} // verus!
