//! The mock users API: handlers that validate a request and answer with
//! fabricated records. Nothing is stored.

use vstd::prelude::*;
use crate::status::Status;

verus! {

/// A user record as the service answers with it.
#[derive(Debug, PartialEq, Eq)]
pub struct User {
    pub id: Option<u64>,
    pub name: String,
    pub email: String,
    pub age: u32,
}

/// What a [`User`] holds, as mathematical values.
pub struct UserView {
    pub id: Option<u64>,
    pub name: Seq<char>,
    pub email: Seq<char>,
    pub age: u32,
}

impl View for User {
    type V = UserView;

    open spec fn view(&self) -> UserView {
        UserView { id: self.id, name: self.name@, email: self.email@, age: self.age }
    }
}

/// The fields of a user that a request supplies: all but the identifier.
pub struct UserFields {
    pub name: Seq<char>,
    pub email: Seq<char>,
    pub age: u32,
}

/// The body of a request that creates a user.
#[derive(Debug, PartialEq, Eq)]
pub struct CreateUserRequest {
    pub name: String,
    pub email: String,
    pub age: u32,
}

impl View for CreateUserRequest {
    type V = UserFields;

    open spec fn view(&self) -> UserFields {
        UserFields { name: self.name@, email: self.email@, age: self.age }
    }
}

/// The body of a request that updates a user.
#[derive(Debug, PartialEq, Eq)]
pub struct UpdateUserRequest {
    pub name: String,
    pub email: String,
    pub age: u32,
}

impl View for UpdateUserRequest {
    type V = UserFields;

    open spec fn view(&self) -> UserFields {
        UserFields { name: self.name@, email: self.email@, age: self.age }
    }
}

/// The answer to a listing: the records and how many they are.
#[derive(Debug, PartialEq, Eq)]
pub struct UserList {
    pub users: Vec<User>,
    pub count: usize,
}

/// The identifier every created user is answered with.
pub const CREATED_USER_ID: u64 = 44;

/// The age of the record that a lookup fabricates.
pub const FABRICATED_AGE: u32 = 30;

/// The views of a sequence of users, in the same order.
pub open spec fn user_views(users: Seq<User>) -> Seq<UserView> {
    users.map_values(|user: User| user@)
}

/// The two records that every listing returns.
pub open spec fn listed_users() -> Seq<UserView> {
    seq![
        UserView { id: Some(1u64), name: "Alice"@, email: "alice@example.com"@, age: 30 },
        UserView { id: Some(2u64), name: "Bob"@, email: "bob@example.com"@, age: 25 },
    ]
}

/// Whether neither the name nor the email is empty.
pub open spec fn has_name_and_email(fields: UserFields) -> bool {
    fields.name.len() > 0 && fields.email.len() > 0
}

/// The record made of `fields` under the identifier `id`.
pub open spec fn user_with(id: u64, fields: UserFields) -> UserView {
    UserView { id: Some(id), name: fields.name, email: fields.email, age: fields.age }
}

/// The record that a lookup of `id` fabricates.
pub open spec fn fabricated_user(id: u64) -> UserView {
    UserView { id: Some(id), name: "User"@, email: "user@example.com"@, age: FABRICATED_AGE }
}

/// The answer to a request that creates a user from `fields`.
pub open spec fn create_user_reply(fields: UserFields) -> Result<(Status, UserView), Status> {
    if has_name_and_email(fields) {
        Ok((Status::Created, user_with(CREATED_USER_ID, fields)))
    } else {
        Err(Status::BadRequest)
    }
}

/// The answer to a lookup of `id`.
pub open spec fn get_user_reply(id: u64) -> Result<(Status, UserView), Status> {
    if id != 0 {
        Ok((Status::Success, fabricated_user(id)))
    } else {
        Err(Status::BadRequest)
    }
}

/// The answer to a request that updates the user `id` to `fields`.
pub open spec fn update_user_reply(id: u64, fields: UserFields) -> Result<
    (Status, UserView),
    Status,
> {
    if id != 0 && has_name_and_email(fields) {
        Ok((Status::Success, user_with(id, fields)))
    } else {
        Err(Status::BadRequest)
    }
}

/// The answer to a request that deletes the user `id`.
pub open spec fn delete_user_reply(id: u64) -> Result<(Status, Seq<char>), Status> {
    if id != 0 {
        Ok((Status::Success, "User deleted"@))
    } else {
        Err(Status::BadRequest)
    }
}

/// A reply that carries a user, with the user taken by its view.
pub open spec fn user_reply_view(reply: Result<(Status, User), Status>) -> Result<
    (Status, UserView),
    Status,
> {
    match reply {
        Ok((status, user)) => Ok((status, user@)),
        Err(status) => Err(status),
    }
}

/// A reply that carries a text, with the text taken by its view.
pub open spec fn text_reply_view(reply: Result<(Status, &'static str), Status>) -> Result<
    (Status, Seq<char>),
    Status,
> {
    match reply {
        Ok((status, text)) => Ok((status, text@)),
        Err(status) => Err(status),
    }
}

/// Lists the users: always the same two records, with their count.
pub fn list_users() -> (reply: (Status, UserList))
    ensures
        reply.0 == Status::Success,
        user_views(reply.1.users@) == listed_users(),
        reply.1.count == 2,
{
    let mut users: Vec<User> = Vec::new();
    users.push(
        User {
            id: Some(1),
            name: "Alice".to_owned(),
            email: "alice@example.com".to_owned(),
            age: 30,
        },
    );
    users.push(
        User { id: Some(2), name: "Bob".to_owned(), email: "bob@example.com".to_owned(), age: 25 },
    );
    let count = users.len();
    assert(user_views(users@) =~= listed_users());
    (Status::Success, UserList { users, count })
}

/// Creates a user: refuses an empty name or email, and otherwise answers with
/// the record under the identifier that every created user gets.
pub fn create_user(payload: CreateUserRequest) -> (reply: Result<(Status, User), Status>)
    ensures
        user_reply_view(reply) == create_user_reply(payload@),
{
    if payload.name.as_str().is_empty() || payload.email.as_str().is_empty() {
        return Err(Status::BadRequest);
    }
    let user = User {
        id: Some(CREATED_USER_ID),
        name: payload.name,
        email: payload.email,
        age: payload.age,
    };
    Ok((Status::Created, user))
}

/// Looks a user up: refuses the identifier zero, and otherwise fabricates the
/// record from the identifier.
pub fn get_user(id: u64) -> (reply: Result<(Status, User), Status>)
    ensures
        user_reply_view(reply) == get_user_reply(id),
{
    if id == 0 {
        return Err(Status::BadRequest);
    }
    let user = User {
        id: Some(id),
        name: "User".to_owned(),
        email: "user@example.com".to_owned(),
        age: FABRICATED_AGE,
    };
    Ok((Status::Success, user))
}

/// Updates a user: refuses the identifier zero and an empty name or email,
/// and otherwise answers with the payload as the record of `id`.
pub fn update_user(id: u64, payload: UpdateUserRequest) -> (reply: Result<(Status, User), Status>)
    ensures
        user_reply_view(reply) == update_user_reply(id, payload@),
{
    if id == 0 {
        return Err(Status::BadRequest);
    }
    if payload.name.as_str().is_empty() || payload.email.as_str().is_empty() {
        return Err(Status::BadRequest);
    }
    let user = User { id: Some(id), name: payload.name, email: payload.email, age: payload.age };
    Ok((Status::Success, user))
}

/// Deletes a user: refuses the identifier zero, and otherwise confirms
/// without looking anything up.
pub fn delete_user(id: u64) -> (reply: Result<(Status, &'static str), Status>)
    ensures
        text_reply_view(reply) == delete_user_reply(id),
{
    if id == 0 {
        return Err(Status::BadRequest);
    }
    Ok((Status::Success, "User deleted"))
}

/// A request whose name or email is empty is a bad request, to create and to
/// update alike, whatever the identifier.
pub proof fn empty_field_is_bad_request(id: u64, fields: UserFields)
    requires
        fields.name.len() == 0 || fields.email.len() == 0,
    ensures
        create_user_reply(fields) == Err::<(Status, UserView), Status>(Status::BadRequest),
        update_user_reply(id, fields) == Err::<(Status, UserView), Status>(Status::BadRequest),
        Status::BadRequest.spec_code() == 400,
{
}

/// The identifier zero is a bad request on every path that takes an
/// identifier: lookup, update and deletion.
pub proof fn zero_id_is_bad_request(fields: UserFields)
    ensures
        get_user_reply(0) == Err::<(Status, UserView), Status>(Status::BadRequest),
        update_user_reply(0, fields) == Err::<(Status, UserView), Status>(Status::BadRequest),
        delete_user_reply(0) == Err::<(Status, Seq<char>), Status>(Status::BadRequest),
        Status::BadRequest.spec_code() == 400,
{
}

} // verus!
