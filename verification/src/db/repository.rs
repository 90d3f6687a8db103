//! What becomes of an input before it goes to the store: it gets an
//! identifier and the time of its creation, and is a row.
use crate::db::models::{Person, PersonView, Post, PostView, Timestamp};
use crate::graphql::schema::{CreatePersonInput, CreatePostInput};
use vstd::prelude::*;

verus! {

/// Whether `id` has the form of an identifier drawn at random: read as 16
/// bytes, most significant first, the upper half of byte 6 is 4 (the version)
/// and the two top bits of byte 8 are 1 and 0 (the variant).
pub open spec fn is_random_id(id: u128) -> bool {
    (id >> 76u128) & 0xfu128 == 4u128 && (id >> 62u128) & 0x3u128 == 2u128
}

/// An identifier drawn at random is not the nil identifier, whose bits are
/// all zero.
pub proof fn lemma_random_id_is_not_nil(id: u128)
    requires
        is_random_id(id),
    ensures
        id != 0,
{
    assert(((id >> 76u128) & 0xfu128 == 4u128) ==> id != 0) by (bit_vector);
}

/// The row of a person created under `name`, with `id` and at the time `at`.
pub open spec fn created_person(name: Seq<char>, id: u128, at: Timestamp) -> PersonView {
    PersonView { id: id, name: name, create_at: at, update_at: at }
}

/// The row of a post created with `text` for the person `person_id`, with
/// `id` and at the time `at`.
pub open spec fn created_post(person_id: u128, text: Seq<char>, id: u128, at: Timestamp) -> PostView {
    PostView { id: id, person_id: person_id, text: text, create_at: at, update_at: at }
}

/// Draws an identifier with `uuid::Uuid::new_v4` and reads its 16 bytes as
/// one number, most significant byte first. Trusted: `new_v4` fills the bytes
/// at random and then sets the variant to RFC 4122 and the version to 4, which
/// is all that is claimed of the result.
#[verifier::external_body]
fn random_id() -> (id: u128)
    ensures
        is_random_id(id),
{
    u128::from_be_bytes(*uuid::Uuid::new_v4().as_bytes())
}

/// Reads the clock with `chrono::Utc::now`. Trusted: the time it returns is
/// made from the time that has passed since 1970-01-01 00:00:00 UTC, in whole
/// seconds and the nanoseconds of the second begun, so neither is negative and
/// the nanoseconds stay under a second. (`now` panics where the system's
/// clock stands before 1970, or after the last year that chrono has a date
/// for.)
#[verifier::external_body]
fn now() -> (at: Timestamp)
    ensures
        at.secs >= 0,
        at.nanos < 1_000_000_000,
{
    let at = chrono::Utc::now();
    Timestamp { secs: at.timestamp(), nanos: at.timestamp_subsec_nanos() }
}

/// The row of a person created from `input` with the identifier `id` at the
/// time `at`.
pub fn person_row(input: CreatePersonInput, id: u128, at: Timestamp) -> (row: Person)
    ensures
        row@ == created_person(input.name@, id, at),
{
    Person { id: id, name: input.name, create_at: at, update_at: at }
}

/// The row of a post created from `input` with the identifier `id` at the
/// time `at`.
pub fn post_row(input: CreatePostInput, id: u128, at: Timestamp) -> (row: Post)
    ensures
        row@ == created_post(input.person_id, input.text@, id, at),
{
    Post { id: id, person_id: input.person_id, text: input.text, create_at: at, update_at: at }
}

/// Makes the row of a new person: `input` under an identifier drawn at
/// random, created and updated now. The identifier is never nil.
pub fn new_person(input: CreatePersonInput) -> (row: Person)
    ensures
        row@ == created_person(input.name@, row.id, row.create_at),
        is_random_id(row.id),
        row.id != 0,
        row.create_at.secs >= 0,
        row.create_at.nanos < 1_000_000_000,
{
    let at = now();
    let id = random_id();
    proof {
        lemma_random_id_is_not_nil(id);
    }
    person_row(input, id, at)
}

/// Makes the row of a new post: `input` under an identifier drawn at random,
/// created and updated now. The identifier is never nil.
pub fn new_post(input: CreatePostInput) -> (row: Post)
    ensures
        row@ == created_post(input.person_id, input.text@, row.id, row.create_at),
        is_random_id(row.id),
        row.id != 0,
        row.create_at.secs >= 0,
        row.create_at.nanos < 1_000_000_000,
{
    let at = now();
    let id = random_id();
    proof {
        lemma_random_id_is_not_nil(id);
    }
    post_row(input, id, at)
}

} // verus!
