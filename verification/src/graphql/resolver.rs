//! What each operation of the API answers to what the store handed back.
//!
//! An operation asks the store for rows, or has it save or delete one, and the
//! store hands back the rows or says why it could not. The functions here take
//! it from there: rows are converted to what the API hands out, and a failure
//! is reported with the store's message.
use crate::db::error::Error;
use crate::db::models;
use crate::db::models::Timestamp;
use crate::db::repository::{created_person, is_random_id, lemma_random_id_is_not_nil};
use crate::graphql::error::{FieldError, FieldResult};
use crate::graphql::schema::{convert_all, Person, PersonWithPosts, Post};
use vstd::prelude::*;

verus! {

/// The queries of the API.
pub struct Query;

/// The mutations of the API.
pub struct Mutation;

/// Whether `reply` is the answer to `found`: what was found, converted and
/// otherwise unchanged, or the failure with its message.
pub open spec fn answers<Row: DeepView, Out: DeepView<V = Row::V>>(
    found: Result<Row, Error>,
    reply: FieldResult<Out>,
) -> bool {
    match found {
        Ok(rows) => reply matches Ok(outs) && outs.deep_view() == rows.deep_view(),
        Err(error) => reply matches Err(refusal) && refusal.message@ == error.message@,
    }
}

/// Answers with one converted row, or with the failure.
fn reply_one<Row, Out: From<Row>>(found: Result<Row, Error>) -> (reply: FieldResult<Out>)
    ensures
        match found {
            Ok(row) => reply matches Ok(out) && call_ensures(Out::from, (row,), out),
            Err(error) => reply matches Err(refusal) && refusal.message@ == error.message@,
        },
{
    match found {
        Ok(row) => Ok(Out::from(row)),
        Err(error) => Err(FieldError::from(error)),
    }
}

/// Answers with every row converted, in their order, or with the failure.
fn reply_all<Row, Out: From<Row>>(found: Result<Vec<Row>, Error>) -> (reply: FieldResult<Vec<Out>>)
    ensures
        match found {
            Ok(rows) => reply matches Ok(outs) && outs.len() == rows.len() && forall|i: int|
                0 <= i < rows.len() ==> call_ensures(Out::from, (rows[i],), #[trigger] outs[i]),
            Err(error) => reply matches Err(refusal) && refusal.message@ == error.message@,
        },
{
    match found {
        Ok(rows) => Ok(convert_all(rows)),
        Err(error) => Err(FieldError::from(error)),
    }
}

impl Query {
    /// `allPersons`: every person the store found, in the store's order.
    pub fn all_persons(found: Result<Vec<models::Person>, Error>) -> (reply: FieldResult<
        Vec<Person>,
    >)
        ensures
            answers(found, reply),
    {
        let ghost given = found;
        let reply: FieldResult<Vec<Person>> = reply_all(found);
        proof {
            if given is Ok {
                assert(reply->Ok_0.deep_view() =~= given->Ok_0.deep_view());
            }
        }
        reply
    }

    /// `allPersonWithPosts`: every person the store found, each with its
    /// posts, in the store's order.
    pub fn all_person_with_posts(found: Result<Vec<models::PersonWithPosts>, Error>) -> (reply:
        FieldResult<Vec<PersonWithPosts>>)
        ensures
            answers(found, reply),
    {
        let ghost given = found;
        let reply: FieldResult<Vec<PersonWithPosts>> = reply_all(found);
        proof {
            if given is Ok {
                assert(reply->Ok_0.deep_view() =~= given->Ok_0.deep_view());
            }
        }
        reply
    }

    /// `person(id)`: the person the store found under the id.
    pub fn person(found: Result<models::Person, Error>) -> (reply: FieldResult<Person>)
        ensures
            answers(found, reply),
    {
        reply_one(found)
    }

    /// `personWithPosts(id)`: the person the store found under the id, with
    /// its posts.
    pub fn person_with_posts(found: Result<models::PersonWithPosts, Error>) -> (reply: FieldResult<
        PersonWithPosts,
    >)
        ensures
            answers(found, reply),
    {
        reply_one(found)
    }

    /// `allPosts`: every post the store found, in the store's order.
    pub fn all_posts(found: Result<Vec<models::Post>, Error>) -> (reply: FieldResult<Vec<Post>>)
        ensures
            answers(found, reply),
    {
        let ghost given = found;
        let reply: FieldResult<Vec<Post>> = reply_all(found);
        proof {
            if given is Ok {
                assert(reply->Ok_0.deep_view() =~= given->Ok_0.deep_view());
            }
        }
        reply
    }

    /// `posts(personId)`: the posts the store found for the person, in the
    /// store's order.
    pub fn posts(found: Result<Vec<models::Post>, Error>) -> (reply: FieldResult<Vec<Post>>)
        ensures
            answers(found, reply),
    {
        Self::all_posts(found)
    }

    /// `post(id)`: the post the store found under the id.
    pub fn post(found: Result<models::Post, Error>) -> (reply: FieldResult<Post>)
        ensures
            answers(found, reply),
    {
        reply_one(found)
    }
}

impl Mutation {
    /// `createPerson(input)`: the person as the store saved it.
    pub fn create_person(saved: Result<models::Person, Error>) -> (reply: FieldResult<Person>)
        ensures
            answers(saved, reply),
    {
        reply_one(saved)
    }

    /// `deletePerson(id)`: the person that the store removed.
    pub fn delete_person(deleted: Result<models::Person, Error>) -> (reply: FieldResult<Person>)
        ensures
            answers(deleted, reply),
    {
        reply_one(deleted)
    }

    /// `createPost(input)`: the post as the store saved it.
    pub fn create_post(saved: Result<models::Post, Error>) -> (reply: FieldResult<Post>)
        ensures
            answers(saved, reply),
    {
        reply_one(saved)
    }

    /// `deletePost(id)`: the post that the store removed.
    pub fn delete_post(deleted: Result<models::Post, Error>) -> (reply: FieldResult<Post>)
        ensures
            answers(deleted, reply),
    {
        reply_one(deleted)
    }
}

/// A person that was created and is found again is handed out under the name
/// it was created with and under its identifier, which is not nil: let `row`
/// be the row of a person created under `name` with an identifier drawn at
/// random, and let the store hand that row back. Then the answer is that
/// person.
pub proof fn lemma_created_person_is_served(
    name: Seq<char>,
    id: u128,
    at: Timestamp,
    row: models::Person,
    reply: FieldResult<Person>,
)
    requires
        is_random_id(id),
        row@ == created_person(name, id, at),
        answers(Ok::<models::Person, Error>(row), reply),
    ensures
        reply matches Ok(out) && out@ == created_person(name, id, at) && out.name@ == name
            && out.id == id && out.id != 0,
{
    lemma_random_id_is_not_nil(id);
}

/// A failure of the store is never answered with a success: whatever was
/// asked for, the answer to a failure is a failure with the store's message.
pub proof fn lemma_failure_is_served_as_failure<Row: DeepView, Out: DeepView<V = Row::V>>(
    error: Error,
    reply: FieldResult<Out>,
)
    requires
        answers(Err::<Row, Error>(error), reply),
    ensures
        reply matches Err(refusal) && refusal.message@ == error.message@,
{
}

} // verus!
