use person_posts::db::error::{Error, ErrorKind};
use person_posts::db::models;
use person_posts::db::models::Timestamp;
use person_posts::graphql::error::{FieldError, FieldResult};
use person_posts::graphql::resolver::{Mutation, Query};
use person_posts::graphql::schema::{Person, PersonWithPosts, Post};

fn at(secs: i64) -> Timestamp {
    Timestamp { secs, nanos: 500 }
}

fn person_row(id: u128, name: &str) -> models::Person {
    models::Person { id, name: name.to_string(), create_at: at(1), update_at: at(2) }
}

fn post_row(id: u128, person_id: u128, text: &str) -> models::Post {
    models::Post { id, person_id, text: text.to_string(), create_at: at(3), update_at: at(4) }
}

fn person_out(id: u128, name: &str) -> Person {
    Person { id, name: name.to_string(), create_at: at(1), update_at: at(2) }
}

fn post_out(id: u128, person_id: u128, text: &str) -> Post {
    Post { id, person_id, text: text.to_string(), create_at: at(3), update_at: at(4) }
}

fn failure(kind: ErrorKind, message: &str) -> Error {
    Error { kind, message: message.to_string() }
}

fn refusal(message: &str) -> FieldError {
    FieldError { message: message.to_string() }
}

#[test]
fn a_person_converts_field_for_field() {
    assert_eq!(Person::from(person_row(1, "Ada")), person_out(1, "Ada"));
    let through_into: Person = person_row(2, "Grace").into();
    assert_eq!(through_into, person_out(2, "Grace"));
}

#[test]
fn a_post_converts_field_for_field() {
    assert_eq!(Post::from(post_row(10, 1, "hello")), post_out(10, 1, "hello"));
}

#[test]
fn a_person_with_posts_converts_with_every_post() {
    let row = models::PersonWithPosts {
        id: 1,
        name: "Ada".to_string(),
        posts: vec![post_row(11, 1, "b"), post_row(10, 1, "a")],
        create_at: at(1),
        update_at: at(2),
    };
    assert_eq!(
        PersonWithPosts::from(row),
        PersonWithPosts {
            id: 1,
            name: "Ada".to_string(),
            posts: vec![post_out(11, 1, "b"), post_out(10, 1, "a")],
            create_at: at(1),
            update_at: at(2),
        }
    );
}

#[test]
fn a_field_error_carries_the_message_of_the_store() {
    assert_eq!(FieldError::from(failure(ErrorKind::NotFound, "NotFound")), refusal("NotFound"));
    assert_eq!(FieldError::from(failure(ErrorKind::Connectivity, "")), refusal(""));
}

#[test]
fn all_persons_answers_with_every_person_in_order() {
    let found = Ok(vec![person_row(2, "Grace"), person_row(1, "Ada")]);
    assert_eq!(Query::all_persons(found), Ok(vec![person_out(2, "Grace"), person_out(1, "Ada")]));
    assert_eq!(Query::all_persons(Ok(Vec::new())), Ok(Vec::new()));
}

#[test]
fn all_persons_reports_a_failure() {
    let found = Err(failure(ErrorKind::Connectivity, "could not connect to server"));
    assert_eq!(Query::all_persons(found), Err(refusal("could not connect to server")));
}

#[test]
fn all_person_with_posts_answers_with_every_aggregate() {
    let rows = vec![
        models::PersonWithPosts::from((person_row(1, "Ada"), vec![post_row(10, 1, "a")])),
        models::PersonWithPosts::from((person_row(2, "Grace"), Vec::new())),
    ];
    let reply = Query::all_person_with_posts(Ok(rows)).unwrap();
    assert_eq!(reply.len(), 2);
    assert_eq!(reply[0].id, 1);
    assert_eq!(reply[0].name, "Ada");
    assert_eq!(reply[0].posts, vec![post_out(10, 1, "a")]);
    assert_eq!(reply[1].id, 2);
    assert!(reply[1].posts.is_empty());
    let failed = Query::all_person_with_posts(Err(failure(ErrorKind::Connectivity, "timeout")));
    assert_eq!(failed, Err(refusal("timeout")));
}

#[test]
fn person_answers_with_the_person_found() {
    assert_eq!(Query::person(Ok(person_row(7, "Ada"))), Ok(person_out(7, "Ada")));
}

#[test]
fn person_that_is_absent_is_an_error_and_no_empty_success() {
    let reply = Query::person(Err(failure(ErrorKind::NotFound, "NotFound")));
    assert!(reply.is_err());
    assert_eq!(reply, Err(refusal("NotFound")));
}

#[test]
fn person_with_posts_answers_with_the_aggregate_or_the_failure() {
    let row = models::PersonWithPosts::from((
        person_row(1, "Ada"),
        vec![post_row(11, 1, "b"), post_row(10, 1, "a")],
    ));
    let reply = Query::person_with_posts(Ok(row)).unwrap();
    assert_eq!(reply.id, 1);
    assert_eq!(reply.posts, vec![post_out(11, 1, "b"), post_out(10, 1, "a")]);
    let absent = Query::person_with_posts(Err(failure(ErrorKind::NotFound, "NotFound")));
    assert_eq!(absent, Err(refusal("NotFound")));
}

#[test]
fn all_posts_and_posts_answer_alike() {
    let rows = vec![post_row(11, 1, "b"), post_row(10, 1, "a")];
    let outs = vec![post_out(11, 1, "b"), post_out(10, 1, "a")];
    assert_eq!(Query::all_posts(Ok(rows.clone())), Ok(outs.clone()));
    assert_eq!(Query::posts(Ok(rows)), Ok(outs));
    assert_eq!(Query::posts(Ok(Vec::new())), Ok(Vec::new()));
    assert_eq!(
        Query::all_posts(Err(failure(ErrorKind::Connectivity, "gone"))),
        Err(refusal("gone"))
    );
    assert_eq!(Query::posts(Err(failure(ErrorKind::Connectivity, "gone"))), Err(refusal("gone")));
}

#[test]
fn post_answers_with_the_post_or_the_failure() {
    assert_eq!(Query::post(Ok(post_row(10, 1, "a"))), Ok(post_out(10, 1, "a")));
    assert_eq!(
        Query::post(Err(failure(ErrorKind::NotFound, "NotFound"))),
        Err(refusal("NotFound"))
    );
}

#[test]
fn create_person_answers_with_the_saved_person() {
    assert_eq!(Mutation::create_person(Ok(person_row(7, "Ada"))), Ok(person_out(7, "Ada")));
    let taken = failure(ErrorKind::ConstraintViolation, "duplicate key value");
    assert_eq!(Mutation::create_person(Err(taken)), Err(refusal("duplicate key value")));
}

#[test]
fn create_post_for_nobody_is_reported_with_the_constraint() {
    let message = "insert or update on table \"post\" violates foreign key constraint";
    let reply: FieldResult<Post> =
        Mutation::create_post(Err(failure(ErrorKind::ConstraintViolation, message)));
    assert_eq!(reply, Err(refusal(message)));
}

#[test]
fn create_post_answers_with_the_saved_post() {
    assert_eq!(Mutation::create_post(Ok(post_row(10, 7, "hello"))), Ok(post_out(10, 7, "hello")));
}

#[test]
fn delete_answers_with_what_was_removed() {
    assert_eq!(Mutation::delete_person(Ok(person_row(7, "Ada"))), Ok(person_out(7, "Ada")));
    assert_eq!(Mutation::delete_post(Ok(post_row(10, 7, "a"))), Ok(post_out(10, 7, "a")));
    assert_eq!(
        Mutation::delete_person(Err(failure(ErrorKind::NotFound, "NotFound"))),
        Err(refusal("NotFound"))
    );
    assert_eq!(
        Mutation::delete_post(Err(failure(ErrorKind::NotFound, "NotFound"))),
        Err(refusal("NotFound"))
    );
}
