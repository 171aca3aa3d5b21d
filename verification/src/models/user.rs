//! Accounts, and the requests that create and change them.

use crate::models::{clone_text, same_text, text_of, Id, Timestamp};
use crate::validations::{broken, ValidationErrors};
use crate::validations::rules::{
    has_length_between, has_optional_length_between, is_optional_email, length_between,
    optional_email_accepted, optional_length_between,
};
use vstd::prelude::*;
use vstd::std_specs::convert::FromSpecImpl;

verus! {

/// The privilege level of an account.
#[derive(Clone, Copy, Debug, PartialEq, Eq, Structural)]
pub enum Role {
    User,
    Moderator,
    Admin,
}

impl Default for Role {
    fn default() -> (role: Role)
        ensures
            role == Role::User,
    {
        Role::User
    }
}

/// Whether an account may sign in and act.
#[derive(Clone, Copy, Debug, PartialEq, Eq, Structural)]
pub enum Status {
    Active,
    Inactive,
}

impl Default for Status {
    fn default() -> (status: Status)
        ensures
            status == Status::Active,
    {
        Status::Active
    }
}

/// A role that grants access to other accounts' resources.
pub open spec fn privileged(role: Role) -> bool {
    role == Role::Admin || role == Role::Moderator
}

impl Role {
    /// Whether this role grants access to other accounts' resources.
    pub fn is_privileged(&self) -> (yes: bool)
        ensures
            yes == privileged(*self),
    {
        *self == Role::Admin || *self == Role::Moderator
    }

    /// The name of the role, as a token carries it.
    pub fn to_string(&self) -> (name: String)
        ensures
            name@ == role_name(*self),
    {
        match self {
            Role::User => "user".to_string(),
            Role::Moderator => "moderator".to_string(),
            Role::Admin => "admin".to_string(),
        }
    }
}

/// The name of each role.
pub open spec fn role_name(role: Role) -> Seq<char> {
    match role {
        Role::User => "user"@,
        Role::Moderator => "moderator"@,
        Role::Admin => "admin"@,
    }
}

/// An account as it is stored.
#[derive(Clone, Debug, PartialEq, Eq)]
pub struct User {
    pub id: Id,
    pub username: String,
    pub email: Option<String>,
    pub password_hash: String,
    pub first_name: Option<String>,
    pub last_name: Option<String>,
    pub role: Role,
    pub status: Status,
    pub created_at: Timestamp,
    pub updated_at: Timestamp,
}

/// What a stored account holds.
pub struct UserData {
    pub id: Id,
    pub username: Seq<char>,
    pub email: Option<Seq<char>>,
    pub password_hash: Seq<char>,
    pub first_name: Option<Seq<char>>,
    pub last_name: Option<Seq<char>>,
    pub role: Role,
    pub status: Status,
    pub created_at: Timestamp,
    pub updated_at: Timestamp,
}

impl View for User {
    type V = UserData;

    open spec fn view(&self) -> UserData {
        UserData {
            id: self.id,
            username: self.username@,
            email: text_of(self.email),
            password_hash: self.password_hash@,
            first_name: text_of(self.first_name),
            last_name: text_of(self.last_name),
            role: self.role,
            status: self.status,
            created_at: self.created_at,
            updated_at: self.updated_at,
        }
    }
}

/// An account as it is shown: everything but the password hash.
#[derive(Clone, Debug, PartialEq, Eq)]
pub struct UserPublic {
    pub id: Id,
    pub username: String,
    pub email: Option<String>,
    pub first_name: Option<String>,
    pub last_name: Option<String>,
    pub role: Role,
    pub status: Status,
    pub created_at: Timestamp,
    pub updated_at: Timestamp,
}

/// What a shown account holds.
pub struct UserPublicData {
    pub id: Id,
    pub username: Seq<char>,
    pub email: Option<Seq<char>>,
    pub first_name: Option<Seq<char>>,
    pub last_name: Option<Seq<char>>,
    pub role: Role,
    pub status: Status,
    pub created_at: Timestamp,
    pub updated_at: Timestamp,
}

impl View for UserPublic {
    type V = UserPublicData;

    open spec fn view(&self) -> UserPublicData {
        UserPublicData {
            id: self.id,
            username: self.username@,
            email: text_of(self.email),
            first_name: text_of(self.first_name),
            last_name: text_of(self.last_name),
            role: self.role,
            status: self.status,
            created_at: self.created_at,
            updated_at: self.updated_at,
        }
    }
}

/// A stored account without its password hash.
pub open spec fn public_part(user: UserData) -> UserPublicData {
    UserPublicData {
        id: user.id,
        username: user.username,
        email: user.email,
        first_name: user.first_name,
        last_name: user.last_name,
        role: user.role,
        status: user.status,
        created_at: user.created_at,
        updated_at: user.updated_at,
    }
}

/// The account that a request asks for, as it is created at the moment `now`
/// under the identifier `id` and with `hash` as the hash of its password. An
/// absent role stands for `User`, an absent status for `Active`.
pub open spec fn new_user(
    id: Id,
    payload: CreateUserPayload,
    hash: Seq<char>,
    now: Timestamp,
) -> UserData {
    UserData {
        id,
        username: payload.username@,
        email: text_of(payload.email),
        password_hash: hash,
        first_name: text_of(payload.first_name),
        last_name: text_of(payload.last_name),
        role: payload.role.unwrap_or(Role::User),
        status: payload.status.unwrap_or(Status::Active),
        created_at: now,
        updated_at: now,
    }
}

impl User {
    /// The account that a request asks for, created at a given moment under
    /// a given identifier, with the hash of its password given.
    pub fn new_at(payload: &CreateUserPayload, hash: &str, id: Id, now: Timestamp) -> (user: User)
        ensures
            user@ == new_user(id, *payload, hash@, now),
    {
        User {
            id,
            username: payload.username.clone(),
            email: clone_text(&payload.email),
            password_hash: hash.to_string(),
            first_name: clone_text(&payload.first_name),
            last_name: clone_text(&payload.last_name),
            role: match payload.role {
                Some(role) => role,
                None => Role::default(),
            },
            status: match payload.status {
                Some(status) => status,
                None => Status::default(),
            },
            created_at: now,
            updated_at: now,
        }
    }

    /// A new account with a fresh random identifier, created now. An absent
    /// role stands for `User`, an absent status for `Active`.
    pub fn new(
        username: &str,
        email: Option<String>,
        password: &str,
        first_name: Option<String>,
        last_name: Option<String>,
        role: Option<Role>,
        status: Option<Status>,
    ) -> (user: User)
        ensures
            user@.username == username@,
            user@.email == text_of(email),
            user@.password_hash == password@,
            user@.first_name == text_of(first_name),
            user@.last_name == text_of(last_name),
            user.role == role.unwrap_or(Role::User),
            user.status == status.unwrap_or(Status::Active),
    {
        User {
            id: Id::random(),
            username: username.to_string(),
            email,
            password_hash: password.to_string(),
            first_name,
            last_name,
            role: match role {
                Some(role) => role,
                None => Role::default(),
            },
            status: match status {
                Some(status) => status,
                None => Status::default(),
            },
            created_at: Timestamp::now(),
            updated_at: Timestamp::now(),
        }
    }

    /// A copy of this account.
    pub fn duplicate(&self) -> (copy: User)
        ensures
            copy@ == self@,
    {
        User {
            id: self.id,
            username: self.username.clone(),
            email: clone_text(&self.email),
            password_hash: self.password_hash.clone(),
            first_name: clone_text(&self.first_name),
            last_name: clone_text(&self.last_name),
            role: self.role,
            status: self.status,
            created_at: self.created_at,
            updated_at: self.updated_at,
        }
    }

    /// This account as it is shown.
    pub fn to_public(&self) -> (shown: UserPublic)
        ensures
            shown@ == public_part(self@),
    {
        UserPublic {
            id: self.id,
            username: self.username.clone(),
            email: clone_text(&self.email),
            first_name: clone_text(&self.first_name),
            last_name: clone_text(&self.last_name),
            role: self.role,
            status: self.status,
            created_at: self.created_at,
            updated_at: self.updated_at,
        }
    }
}

/// What a visitor sends to sign up.
#[derive(Clone, Debug, PartialEq, Eq)]
pub struct RegisterPayload {
    pub username: String,
    pub email: Option<String>,
    pub password: String,
    pub first_name: Option<String>,
    pub last_name: Option<String>,
}

/// What it takes to create an account.
#[derive(Clone, Debug, PartialEq, Eq)]
pub struct CreateUserPayload {
    pub username: String,
    pub email: Option<String>,
    pub password: String,
    pub first_name: Option<String>,
    pub last_name: Option<String>,
    pub role: Option<Role>,
    pub status: Option<Status>,
}

/// A change to an account: only the fields that are present are written.
#[derive(Clone, Debug, PartialEq, Eq)]
pub struct UpdateUserPayload {
    pub id: Id,
    pub username: Option<String>,
    pub email: Option<String>,
    pub password: Option<String>,
    pub first_name: Option<String>,
    pub last_name: Option<String>,
    pub role: Option<Role>,
    pub status: Option<Status>,
}

/// The rules that the fields of a new account break, in order: username of
/// 3 to 20 characters, a well-formed e-mail address, password of 8 to 100
/// characters, first and last name of 3 to 20 characters each.
pub open spec fn broken_account_rules(
    username: Seq<char>,
    email: Option<Seq<char>>,
    password: Seq<char>,
    first_name: Option<Seq<char>>,
    last_name: Option<Seq<char>>,
) -> Seq<(Seq<char>, Seq<char>)> {
    broken(length_between(username, 3, 20), "username"@, "Username must be between 3 and 20 chars."@)
        + broken(optional_email_accepted(email), "email"@, "Invalid email"@) + broken(
        length_between(password, 8, 100),
        "password"@,
        "Password must be between 8 and 100 chars."@,
    ) + broken(
        optional_length_between(first_name, 3, 20),
        "first_name"@,
        "First name must be between 3 and 20 chars."@,
    ) + broken(
        optional_length_between(last_name, 3, 20),
        "last_name"@,
        "Last name must be between 3 and 20 chars."@,
    )
}

/// Checks the fields of a new account against their rules.
fn check_account(
    username: &String,
    email: &Option<String>,
    password: &String,
    first_name: &Option<String>,
    last_name: &Option<String>,
) -> (errors: ValidationErrors)
    ensures
        errors@ == broken_account_rules(
            username@,
            text_of(*email),
            password@,
            text_of(*first_name),
            text_of(*last_name),
        ),
{
    let mut errors = ValidationErrors::new();
    errors.check(
        has_length_between(username.as_str(), 3, 20),
        "username",
        "Username must be between 3 and 20 chars.",
    );
    errors.check(is_optional_email(email), "email", "Invalid email");
    errors.check(
        has_length_between(password.as_str(), 8, 100),
        "password",
        "Password must be between 8 and 100 chars.",
    );
    errors.check(
        has_optional_length_between(first_name, 3, 20),
        "first_name",
        "First name must be between 3 and 20 chars.",
    );
    errors.check(
        has_optional_length_between(last_name, 3, 20),
        "last_name",
        "Last name must be between 3 and 20 chars.",
    );
    errors
}

impl RegisterPayload {
    /// The rules that this request breaks.
    pub open spec fn broken_rules(&self) -> Seq<(Seq<char>, Seq<char>)> {
        broken_account_rules(
            self.username@,
            text_of(self.email),
            self.password@,
            text_of(self.first_name),
            text_of(self.last_name),
        )
    }

    /// Accepts the request if it breaks no rule, and lists the broken rules
    /// otherwise.
    pub fn validate(&self) -> (verdict: Result<(), ValidationErrors>)
        ensures
            verdict is Ok <==> self.broken_rules().len() == 0,
            verdict matches Err(errors) ==> errors@ == self.broken_rules(),
    {
        let errors = check_account(
            &self.username,
            &self.email,
            &self.password,
            &self.first_name,
            &self.last_name,
        );
        if errors.is_empty() {
            Ok(())
        } else {
            Err(errors)
        }
    }
}

impl CreateUserPayload {
    /// The rules that this request breaks.
    pub open spec fn broken_rules(&self) -> Seq<(Seq<char>, Seq<char>)> {
        broken_account_rules(
            self.username@,
            text_of(self.email),
            self.password@,
            text_of(self.first_name),
            text_of(self.last_name),
        )
    }

    /// Accepts the request if it breaks no rule, and lists the broken rules
    /// otherwise.
    pub fn validate(&self) -> (verdict: Result<(), ValidationErrors>)
        ensures
            verdict is Ok <==> self.broken_rules().len() == 0,
            verdict matches Err(errors) ==> errors@ == self.broken_rules(),
    {
        let errors = check_account(
            &self.username,
            &self.email,
            &self.password,
            &self.first_name,
            &self.last_name,
        );
        if errors.is_empty() {
            Ok(())
        } else {
            Err(errors)
        }
    }
}

impl From<RegisterPayload> for CreateUserPayload {
    /// A visitor who signs up gets an account of role `User`.
    fn from(value: RegisterPayload) -> (payload: CreateUserPayload) {
        CreateUserPayload {
            username: value.username,
            email: value.email,
            password: value.password,
            first_name: value.first_name,
            last_name: value.last_name,
            role: Some(Role::User),
            status: None,
        }
    }
}

impl FromSpecImpl<RegisterPayload> for CreateUserPayload {
    open spec fn obeys_from_spec() -> bool {
        true
    }

    open spec fn from_spec(value: RegisterPayload) -> CreateUserPayload {
        registration(value)
    }
}

/// The account that a visitor who signs up asks for: what the visitor sent,
/// with the role `User`.
pub open spec fn registration(value: RegisterPayload) -> CreateUserPayload {
    CreateUserPayload {
        username: value.username,
        email: value.email,
        password: value.password,
        first_name: value.first_name,
        last_name: value.last_name,
        role: Some(Role::User),
        status: None,
    }
}

impl UpdateUserPayload {
    /// The rules that this change breaks, in order. A field that is absent
    /// breaks none.
    pub open spec fn broken_rules(&self) -> Seq<(Seq<char>, Seq<char>)> {
        broken(
            optional_length_between(text_of(self.username), 3, 20),
            "username"@,
            "Username must be between 3 and 20 chars."@,
        ) + broken(optional_email_accepted(text_of(self.email)), "email"@, "Invalid email"@)
            + broken(
            optional_length_between(text_of(self.password), 8, 100),
            "password"@,
            "Password must be between 8 and 100 chars."@,
        ) + broken(
            optional_length_between(text_of(self.first_name), 3, 20),
            "first_name"@,
            "First name must be between 3 and 20 chars."@,
        ) + broken(
            optional_length_between(text_of(self.last_name), 3, 20),
            "last_name"@,
            "Last name must be between 3 and 20 chars."@,
        )
    }

    /// Accepts the change if it breaks no rule, and lists the broken rules
    /// otherwise.
    pub fn validate(&self) -> (verdict: Result<(), ValidationErrors>)
        ensures
            verdict is Ok <==> self.broken_rules().len() == 0,
            verdict matches Err(errors) ==> errors@ == self.broken_rules(),
    {
        let mut errors = ValidationErrors::new();
        errors.check(
            has_optional_length_between(&self.username, 3, 20),
            "username",
            "Username must be between 3 and 20 chars.",
        );
        errors.check(is_optional_email(&self.email), "email", "Invalid email");
        errors.check(
            has_optional_length_between(&self.password, 8, 100),
            "password",
            "Password must be between 8 and 100 chars.",
        );
        errors.check(
            has_optional_length_between(&self.first_name, 3, 20),
            "first_name",
            "First name must be between 3 and 20 chars.",
        );
        errors.check(
            has_optional_length_between(&self.last_name, 3, 20),
            "last_name",
            "Last name must be between 3 and 20 chars.",
        );
        if errors.is_empty() {
            Ok(())
        } else {
            Err(errors)
        }
    }

    /// Whether the change names no field at all.
    pub open spec fn is_empty(&self) -> bool {
        &&& self.username is None
        &&& self.email is None
        &&& self.password is None
        &&& self.first_name is None
        &&& self.last_name is None
        &&& self.role is None
        &&& self.status is None
    }
}

/// The fields of a new account break no rule exactly if each rule holds.
pub proof fn lemma_account_rules(
    username: Seq<char>,
    email: Option<Seq<char>>,
    password: Seq<char>,
    first_name: Option<Seq<char>>,
    last_name: Option<Seq<char>>,
)
    ensures
        broken_account_rules(username, email, password, first_name, last_name).len() == 0 <==> {
            &&& length_between(username, 3, 20)
            &&& optional_email_accepted(email)
            &&& length_between(password, 8, 100)
            &&& optional_length_between(first_name, 3, 20)
            &&& optional_length_between(last_name, 3, 20)
        },
{
}

/// A change to an account breaks no rule exactly if each rule holds.
pub proof fn lemma_update_user_rules(payload: UpdateUserPayload)
    ensures
        payload.broken_rules().len() == 0 <==> {
            &&& optional_length_between(text_of(payload.username), 3, 20)
            &&& optional_email_accepted(text_of(payload.email))
            &&& optional_length_between(text_of(payload.password), 8, 100)
            &&& optional_length_between(text_of(payload.first_name), 3, 20)
            &&& optional_length_between(text_of(payload.last_name), 3, 20)
        },
{
}

/// The name of each account status, as the store and the wire carry it.
pub open spec fn account_status_name(status: Status) -> Seq<char> {
    match status {
        Status::Active => "active"@,
        Status::Inactive => "inactive"@,
    }
}

/// The role that a name stands for.
pub open spec fn role_named(name: Seq<char>) -> Option<Role> {
    if name == "user"@ {
        Some(Role::User)
    } else if name == "moderator"@ {
        Some(Role::Moderator)
    } else if name == "admin"@ {
        Some(Role::Admin)
    } else {
        None
    }
}

/// The account status that a name stands for.
pub open spec fn account_status_named(name: Seq<char>) -> Option<Status> {
    if name == "active"@ {
        Some(Status::Active)
    } else if name == "inactive"@ {
        Some(Status::Inactive)
    } else {
        None
    }
}

impl Role {
    /// Reads a role from its name.
    pub fn parse(name: &str) -> (role: Option<Role>)
        ensures
            role == role_named(name@),
    {
        if same_text(name, "user") {
            Some(Role::User)
        } else if same_text(name, "moderator") {
            Some(Role::Moderator)
        } else if same_text(name, "admin") {
            Some(Role::Admin)
        } else {
            None
        }
    }
}

impl Status {
    /// The name of the status.
    pub fn to_string(&self) -> (name: String)
        ensures
            name@ == account_status_name(*self),
    {
        match self {
            Status::Active => "active".to_string(),
            Status::Inactive => "inactive".to_string(),
        }
    }

    /// Reads a status from its name.
    pub fn parse(name: &str) -> (status: Option<Status>)
        ensures
            status == account_status_named(name@),
    {
        if same_text(name, "active") {
            Some(Status::Active)
        } else if same_text(name, "inactive") {
            Some(Status::Inactive)
        } else {
            None
        }
    }
}

/// Every role is read back from its name, and every account status from
/// its.
pub proof fn lemma_names_read_back(role: Role, status: Status)
    ensures
        role_named(role_name(role)) == Some(role),
        account_status_named(account_status_name(status)) == Some(status),
{
    reveal_strlit("user");
    reveal_strlit("moderator");
    reveal_strlit("admin");
    reveal_strlit("active");
    reveal_strlit("inactive");
    assert("user"@.len() == 4);
    assert("moderator"@.len() == 9);
    assert("admin"@.len() == 5);
    assert("active"@.len() == 6);
    assert("inactive"@.len() == 8);
}

} // verus!
