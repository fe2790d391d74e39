use todo_api::status::Status;
use todo_api::users::{
    create_user, delete_user, get_user, list_users, update_user, CreateUserRequest,
    UpdateUserRequest, User, CREATED_USER_ID,
};

fn creation(name: &str, email: &str, age: u32) -> CreateUserRequest {
    CreateUserRequest { name: name.to_string(), email: email.to_string(), age }
}

fn update(name: &str, email: &str, age: u32) -> UpdateUserRequest {
    UpdateUserRequest { name: name.to_string(), email: email.to_string(), age }
}

#[test]
fn list_users_returns_the_two_fixed_records_and_their_count() {
    let (status, list) = list_users();
    assert_eq!(status, Status::Success);
    assert_eq!(list.count, 2);
    assert_eq!(
        list.users,
        vec![
            User {
                id: Some(1),
                name: "Alice".to_string(),
                email: "alice@example.com".to_string(),
                age: 30,
            },
            User {
                id: Some(2),
                name: "Bob".to_string(),
                email: "bob@example.com".to_string(),
                age: 25,
            },
        ]
    );
}

#[test]
fn list_users_is_the_same_every_time() {
    assert_eq!(list_users(), list_users());
}

#[test]
fn create_user_answers_created_with_the_fixed_id() {
    let reply = create_user(creation("Carol", "carol@example.com", 41));
    assert_eq!(
        reply,
        Ok((
            Status::Created,
            User {
                id: Some(44),
                name: "Carol".to_string(),
                email: "carol@example.com".to_string(),
                age: 41,
            }
        ))
    );
    assert_eq!(CREATED_USER_ID, 44);
}

#[test]
fn create_user_gives_every_user_the_same_id() {
    let first = create_user(creation("a", "a@x", 1)).unwrap().1;
    let second = create_user(creation("b", "b@x", 2)).unwrap().1;
    assert_eq!(first.id, Some(44));
    assert_eq!(second.id, Some(44));
}

#[test]
fn create_user_does_not_check_the_age() {
    let zero = create_user(creation("a", "a@x", 0)).unwrap().1;
    let most = create_user(creation("a", "a@x", u32::MAX)).unwrap().1;
    assert_eq!(zero.age, 0);
    assert_eq!(most.age, u32::MAX);
}

#[test]
fn create_user_with_empty_name_is_a_bad_request() {
    let reply = create_user(creation("", "carol@example.com", 41));
    assert_eq!(reply, Err(Status::BadRequest));
    assert_eq!(reply.unwrap_err().code(), 400);
}

#[test]
fn create_user_with_empty_email_is_a_bad_request() {
    assert_eq!(create_user(creation("Carol", "", 41)), Err(Status::BadRequest));
}

#[test]
fn create_user_with_both_fields_empty_is_a_bad_request() {
    assert_eq!(create_user(creation("", "", 0)), Err(Status::BadRequest));
}

#[test]
fn create_user_accepts_a_blank_but_not_empty_name() {
    let reply = create_user(creation(" ", "x", 5));
    assert_eq!(reply.map(|(status, _)| status), Ok(Status::Created));
}

#[test]
fn get_user_fabricates_the_record_from_the_id() {
    assert_eq!(
        get_user(7),
        Ok((
            Status::Success,
            User {
                id: Some(7),
                name: "User".to_string(),
                email: "user@example.com".to_string(),
                age: 30,
            }
        ))
    );
    assert_eq!(get_user(u64::MAX).unwrap().1.id, Some(u64::MAX));
    assert_eq!(get_user(7), get_user(7));
}

#[test]
fn get_user_zero_is_a_bad_request() {
    let reply = get_user(0);
    assert_eq!(reply, Err(Status::BadRequest));
    assert_eq!(reply.unwrap_err().code(), 400);
}

#[test]
fn update_user_echoes_the_payload_under_the_id() {
    assert_eq!(
        update_user(12, update("Dan", "dan@example.com", 19)),
        Ok((
            Status::Success,
            User {
                id: Some(12),
                name: "Dan".to_string(),
                email: "dan@example.com".to_string(),
                age: 19,
            }
        ))
    );
}

#[test]
fn update_user_zero_is_a_bad_request() {
    assert_eq!(update_user(0, update("Dan", "dan@example.com", 19)), Err(Status::BadRequest));
}

#[test]
fn update_user_with_empty_name_or_email_is_a_bad_request() {
    assert_eq!(update_user(12, update("", "dan@example.com", 19)), Err(Status::BadRequest));
    assert_eq!(update_user(12, update("Dan", "", 19)), Err(Status::BadRequest));
    assert_eq!(update_user(0, update("", "", 19)), Err(Status::BadRequest));
}

#[test]
fn delete_user_confirms_without_a_lookup() {
    assert_eq!(delete_user(3), Ok((Status::Success, "User deleted")));
    assert_eq!(delete_user(3), Ok((Status::Success, "User deleted")));
    assert_eq!(delete_user(u64::MAX), Ok((Status::Success, "User deleted")));
}

#[test]
fn delete_user_zero_is_a_bad_request() {
    let reply = delete_user(0);
    assert_eq!(reply, Err(Status::BadRequest));
    assert_eq!(reply.unwrap_err().code(), 400);
}
