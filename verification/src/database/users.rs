//! The statements on the table of accounts.

use crate::database::{
    account_view, has_user, has_username, lemma_user_at, lemma_user_named_at, public_user,
    public_users, row_count, user_named, user_view, user_views, Tables,
};
use crate::models::{Id, Timestamp};
use crate::models::user::{Role, Status, User, UserData, UserPublic};
use vstd::prelude::*;

verus! {

/// One column of an account, with the value to write into it.
#[derive(Clone, Debug, PartialEq, Eq)]
pub enum UserColumn {
    Username(String),
    Email(String),
    PasswordHash(String),
    FirstName(String),
    LastName(String),
    Role(Role),
    Status(Status),
    UpdatedAt(Timestamp),
}

/// What a column write holds.
pub enum UserColumnData {
    Username(Seq<char>),
    Email(Seq<char>),
    PasswordHash(Seq<char>),
    FirstName(Seq<char>),
    LastName(Seq<char>),
    Role(Role),
    Status(Status),
    UpdatedAt(Timestamp),
}

impl View for UserColumn {
    type V = UserColumnData;

    open spec fn view(&self) -> UserColumnData {
        match self {
            UserColumn::Username(text) => UserColumnData::Username(text@),
            UserColumn::Email(text) => UserColumnData::Email(text@),
            UserColumn::PasswordHash(text) => UserColumnData::PasswordHash(text@),
            UserColumn::FirstName(text) => UserColumnData::FirstName(text@),
            UserColumn::LastName(text) => UserColumnData::LastName(text@),
            UserColumn::Role(role) => UserColumnData::Role(*role),
            UserColumn::Status(status) => UserColumnData::Status(*status),
            UserColumn::UpdatedAt(at) => UserColumnData::UpdatedAt(*at),
        }
    }
}

/// An account after one column was written.
pub open spec fn with_user_column(user: UserData, column: UserColumnData) -> UserData {
    match column {
        UserColumnData::Username(text) => UserData { username: text, ..user },
        UserColumnData::Email(text) => UserData { email: Some(text), ..user },
        UserColumnData::PasswordHash(text) => UserData { password_hash: text, ..user },
        UserColumnData::FirstName(text) => UserData { first_name: Some(text), ..user },
        UserColumnData::LastName(text) => UserData { last_name: Some(text), ..user },
        UserColumnData::Role(role) => UserData { role, ..user },
        UserColumnData::Status(status) => UserData { status, ..user },
        UserColumnData::UpdatedAt(at) => UserData { updated_at: at, ..user },
    }
}

/// The accounts after one column was written in every row with this
/// identifier.
pub open spec fn set_user_column(users: Seq<UserData>, id: Id, column: UserColumnData) -> Seq<
    UserData,
> {
    Seq::new(
        users.len(),
        |i: int|
            if users[i].id == id {
                with_user_column(users[i], column)
            } else {
                users[i]
            },
    )
}

/// Whether a write would give an account the username of another one.
pub open spec fn takes_username(users: Seq<UserData>, id: Id, column: UserColumnData) -> bool {
    column matches UserColumnData::Username(name) && has_user(users, id) && exists|i: int|
        0 <= i < users.len() && (#[trigger] users[i]).username == name && users[i].id != id
}

/// The accounts without the row that has this identifier.
pub open spec fn without_user(users: Seq<UserData>, id: Id) -> Seq<UserData> {
    if has_user(users, id) {
        users.remove(choose|i: int| 0 <= i < users.len() && (#[trigger] users[i]).id == id)
    } else {
        users
    }
}

impl User {
    /// This account with one column overwritten.
    pub fn with_column(&self, column: &UserColumn) -> (user: User)
        ensures
            user@ == with_user_column(self@, column@),
    {
        let mut user = self.duplicate();
        match column {
            UserColumn::Username(text) => {
                user.username = text.clone();
            },
            UserColumn::Email(text) => {
                user.email = Some(text.clone());
            },
            UserColumn::PasswordHash(text) => {
                user.password_hash = text.clone();
            },
            UserColumn::FirstName(text) => {
                user.first_name = Some(text.clone());
            },
            UserColumn::LastName(text) => {
                user.last_name = Some(text.clone());
            },
            UserColumn::Role(role) => {
                user.role = *role;
            },
            UserColumn::Status(status) => {
                user.status = *status;
            },
            UserColumn::UpdatedAt(at) => {
                user.updated_at = *at;
            },
        }
        user
    }
}

impl Tables {
    /// `SELECT COUNT(*) FROM users`.
    pub fn count_users(&self) -> (count: i64)
        ensures
            count == row_count(self@.users.len()),
    {
        let rows: u64 = self.users.len() as u64;
        if rows <= 0x7fff_ffff_ffff_ffff {
            rows as i64
        } else {
            i64::MAX
        }
    }

    /// Whether an account has this identifier.
    pub fn user_exists(&self, id: Id) -> (exists: bool)
        ensures
            exists == has_user(self@.users, id),
    {
        self.user_position(id).is_some()
    }

    /// Whether an account has this username.
    pub fn username_exists(&self, username: &str) -> (exists: bool)
        ensures
            exists == has_username(self@.users, username@),
    {
        self.username_position(username).is_some()
    }

    /// All accounts, as they are shown.
    pub fn select_users(&self) -> (users: Vec<UserPublic>)
        ensures
            user_views(users@) == public_users(self@.users),
    {
        let mut users: Vec<UserPublic> = Vec::new();
        let mut i: usize = 0;
        while i < self.users.len()
            invariant
                i <= self.users.len(),
                users@.len() == i,
                forall|j: int| 0 <= j < i ==> (#[trigger] users@[j])@ == public_users(self@.users)[j],
            decreases self.users.len() - i,
        {
            users.push(self.users[i].to_public());
            i += 1;
        }
        assert(user_views(users@) =~= public_users(self@.users));
        users
    }

    /// The account with this identifier, as it is shown.
    pub fn select_user(&self, id: Id) -> (user: Option<UserPublic>)
        requires
            self@.wf(),
        ensures
            user_view(user) == public_user(self@.users, id),
    {
        match self.user_position(id) {
            Some(i) => {
                proof {
                    lemma_user_at(self@.users, i as int);
                }
                Some(self.users[i].to_public())
            },
            None => None,
        }
    }

    /// `SELECT * FROM users WHERE username = $1`.
    pub fn select_user_by_username(&self, username: &str) -> (user: Option<User>)
        requires
            self@.wf(),
        ensures
            account_view(user) == user_named(self@.users, username@),
    {
        match self.username_position(username) {
            Some(i) => {
                proof {
                    lemma_user_named_at(self@.users, i as int);
                }
                Some(self.users[i].duplicate())
            },
            None => None,
        }
    }

    /// `INSERT INTO users`. The store rejects a row whose identifier or
    /// username is taken.
    pub fn insert_user(&mut self, user: User) -> (outcome: Result<(), String>)
        requires
            old(self)@.wf(),
        ensures
            final(self)@.wf(),
            final(self)@.tickets == old(self)@.tickets,
            outcome is Ok <==> !has_user(old(self)@.users, user.id) && !has_username(
                old(self)@.users,
                user@.username,
            ),
            outcome is Ok ==> final(self)@.users == old(self)@.users.push(user@),
            outcome matches Err(cause) ==> final(self)@ == old(self)@ && cause@ == (if has_user(
                old(self)@.users,
                user.id,
            ) {
                "duplicate key value violates unique constraint \"users_pkey\""@
            } else {
                "duplicate key value violates unique constraint \"users_username_key\""@
            }),
    {
        if self.user_position(user.id).is_some() {
            return Err(
                "duplicate key value violates unique constraint \"users_pkey\"".to_string(),
            );
        }
        if self.username_position(user.username.as_str()).is_some() {
            return Err(
                "duplicate key value violates unique constraint \"users_username_key\"".to_string(),
            );
        }
        self.users.push(user);
        assert(self@.users =~= old(self)@.users.push(user@));
        assert(self@.tickets =~= old(self)@.tickets);
        Ok(())
    }

    /// `UPDATE users SET <column> = $1 WHERE id = $2`. The store rejects a
    /// username that another account has.
    pub fn update_user(&mut self, id: Id, column: &UserColumn) -> (outcome: Result<(), String>)
        requires
            old(self)@.wf(),
        ensures
            final(self)@.wf(),
            final(self)@.tickets == old(self)@.tickets,
            outcome is Ok <==> !takes_username(old(self)@.users, id, column@),
            outcome is Ok ==> final(self)@.users == set_user_column(old(self)@.users, id, column@),
            outcome matches Err(cause) ==> final(self)@ == old(self)@ && cause@
                == "duplicate key value violates unique constraint \"users_username_key\""@,
    {
        match self.user_position(id) {
            Some(i) => {
                if let UserColumn::Username(name) = column {
                    if let Some(j) = self.username_position(name.as_str()) {
                        if j != i {
                            return Err(
                                "duplicate key value violates unique constraint \"users_username_key\"".to_string(),
                            );
                        }
                    }
                    proof {
                        if takes_username(self@.users, id, column@) {
                            let k = choose|k: int|
                                0 <= k < self@.users.len() && (#[trigger] self@.users[k]).username
                                    == name@ && self@.users[k].id != id;
                            assert(has_username(self@.users, name@));
                        }
                    }
                }
                let user = self.users[i].with_column(column);
                self.users.set(i, user);
                assert(self@.users =~= set_user_column(old(self)@.users, id, column@));
                assert(self@.tickets =~= old(self)@.tickets);
                Ok(())
            },
            None => {
                assert(self@.users =~= set_user_column(old(self)@.users, id, column@));
                Ok(())
            },
        }
    }

    /// `DELETE FROM users WHERE id = $1`. Deleting what is not there changes
    /// nothing.
    pub fn delete_user(&mut self, id: Id)
        requires
            old(self)@.wf(),
        ensures
            final(self)@.wf(),
            final(self)@.tickets == old(self)@.tickets,
            final(self)@.users == without_user(old(self)@.users, id),
            !has_user(final(self)@.users, id),
    {
        match self.user_position(id) {
            Some(i) => {
                proof {
                    lemma_user_at(self@.users, i as int);
                    let j = choose|j: int|
                        0 <= j < self@.users.len() && (#[trigger] self@.users[j]).id == id;
                    assert(j == i);
                }
                self.users.remove(i);
                assert(self@.users =~= old(self)@.users.remove(i as int));
            },
            None => {},
        }
        assert(self@.tickets =~= old(self)@.tickets);
    }
}

} // verus!
