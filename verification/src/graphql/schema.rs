//! What the API hands out and takes in.
//!
//! An output type holds the fields of the row it is made from, and has the
//! same view: to convert is to copy field for field.
use crate::db::models;
use crate::db::models::{PersonView, PersonWithPostsView, PostView, Timestamp};
use vstd::prelude::*;
use vstd::std_specs::convert::FromSpecImpl;

verus! {

/// A person, as the API hands it out.
#[derive(Clone, Debug, PartialEq, Eq)]
pub struct Person {
    pub id: u128,
    pub name: String,
    pub create_at: Timestamp,
    pub update_at: Timestamp,
}

/// A post, as the API hands it out.
#[derive(Clone, Debug, PartialEq, Eq)]
pub struct Post {
    pub id: u128,
    pub person_id: u128,
    pub text: String,
    pub create_at: Timestamp,
    pub update_at: Timestamp,
}

/// A person with its posts, as the API hands it out.
#[derive(Clone, Debug, PartialEq, Eq)]
pub struct PersonWithPosts {
    pub id: u128,
    pub name: String,
    pub posts: Vec<Post>,
    pub create_at: Timestamp,
    pub update_at: Timestamp,
}

/// What a caller gives to have a person created.
#[derive(Clone, Debug, PartialEq, Eq)]
pub struct CreatePersonInput {
    pub name: String,
}

/// What a caller gives to have a post created.
#[derive(Clone, Debug, PartialEq, Eq)]
pub struct CreatePostInput {
    pub person_id: u128,
    pub text: String,
}

impl View for Person {
    type V = PersonView;

    open spec fn view(&self) -> PersonView {
        PersonView {
            id: self.id,
            name: self.name@,
            create_at: self.create_at,
            update_at: self.update_at,
        }
    }
}

impl DeepView for Person {
    type V = PersonView;

    open spec fn deep_view(&self) -> PersonView {
        self@
    }
}

impl View for Post {
    type V = PostView;

    open spec fn view(&self) -> PostView {
        PostView {
            id: self.id,
            person_id: self.person_id,
            text: self.text@,
            create_at: self.create_at,
            update_at: self.update_at,
        }
    }
}

impl DeepView for Post {
    type V = PostView;

    open spec fn deep_view(&self) -> PostView {
        self@
    }
}

impl View for PersonWithPosts {
    type V = PersonWithPostsView;

    open spec fn view(&self) -> PersonWithPostsView {
        PersonWithPostsView {
            id: self.id,
            name: self.name@,
            posts: self.posts.deep_view(),
            create_at: self.create_at,
            update_at: self.update_at,
        }
    }
}

impl DeepView for PersonWithPosts {
    type V = PersonWithPostsView;

    open spec fn deep_view(&self) -> PersonWithPostsView {
        self@
    }
}

impl FromSpecImpl<models::Person> for Person {
    open spec fn obeys_from_spec() -> bool {
        true
    }

    open spec fn from_spec(row: models::Person) -> Person {
        Person { id: row.id, name: row.name, create_at: row.create_at, update_at: row.update_at }
    }
}

impl From<models::Person> for Person {
    fn from(row: models::Person) -> (out: Person)
        ensures
            out@ == row@,
    {
        Person { id: row.id, name: row.name, create_at: row.create_at, update_at: row.update_at }
    }
}

impl FromSpecImpl<models::Post> for Post {
    open spec fn obeys_from_spec() -> bool {
        true
    }

    open spec fn from_spec(row: models::Post) -> Post {
        Post {
            id: row.id,
            person_id: row.person_id,
            text: row.text,
            create_at: row.create_at,
            update_at: row.update_at,
        }
    }
}

impl From<models::Post> for Post {
    fn from(row: models::Post) -> (out: Post)
        ensures
            out@ == row@,
    {
        Post {
            id: row.id,
            person_id: row.person_id,
            text: row.text,
            create_at: row.create_at,
            update_at: row.update_at,
        }
    }
}

/// Converts each of `rows`, in their order.
pub(crate) fn convert_all<Row, Out: From<Row>>(rows: Vec<Row>) -> (outs: Vec<Out>)
    ensures
        outs.len() == rows.len(),
        forall|i: int|
            0 <= i < rows.len() ==> call_ensures(Out::from, (rows[i],), #[trigger] outs[i]),
{
    let mut outs: Vec<Out> = Vec::new();
    for row in it: rows
        invariant
            it.seq() == rows@,
            outs.len() == it.index(),
            forall|i: int|
                0 <= i < it.index() ==> call_ensures(Out::from, (rows[i],), #[trigger] outs[i]),
    {
        outs.push(Out::from(row));
    }
    outs
}

impl FromSpecImpl<models::PersonWithPosts> for PersonWithPosts {
    open spec fn obeys_from_spec() -> bool {
        false
    }

    open spec fn from_spec(row: models::PersonWithPosts) -> PersonWithPosts {
        arbitrary()
    }
}

impl From<models::PersonWithPosts> for PersonWithPosts {
    /// Converts the person and each of its posts. The posts are held in a
    /// new vector, so the result is stated by its view.
    fn from(row: models::PersonWithPosts) -> (out: PersonWithPosts)
        ensures
            out@ == row@,
    {
        let posts: Vec<Post> = convert_all(row.posts);
        assert(posts.deep_view() =~= row.posts.deep_view());
        PersonWithPosts {
            id: row.id,
            name: row.name,
            posts: posts,
            create_at: row.create_at,
            update_at: row.update_at,
        }
    }
}

} // verus!
