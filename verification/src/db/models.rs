//! One type per table row, and the aggregate of a person with its posts.
//!
//! Identifiers are 128-bit values; a row's text is a `String`. Each row type has
//! a view that holds the same fields as mathematical values, and the contracts
//! of this crate are stated over those views.
use std::collections::HashMap;
use vstd::prelude::*;
use vstd::std_specs::convert::FromSpecImpl;

verus! {

/// A point in time: whole seconds since 1970-01-01 00:00:00 UTC, and the
/// nanoseconds since the last whole second.
#[derive(Clone, Copy, Debug, PartialEq, Eq, Structural)]
pub struct Timestamp {
    pub secs: i64,
    pub nanos: u32,
}

/// A row of the table `person`.
#[derive(Clone, Debug, PartialEq, Eq)]
pub struct Person {
    pub id: u128,
    pub name: String,
    pub create_at: Timestamp,
    pub update_at: Timestamp,
}

/// A row of the table `post`. `person_id` refers to the person that wrote it.
#[derive(Clone, Debug, PartialEq, Eq)]
pub struct Post {
    pub id: u128,
    pub person_id: u128,
    pub text: String,
    pub create_at: Timestamp,
    pub update_at: Timestamp,
}

/// A person together with the posts that refer to it.
#[derive(Clone, Debug, PartialEq, Eq)]
pub struct PersonWithPosts {
    pub id: u128,
    pub name: String,
    pub posts: Vec<Post>,
    pub create_at: Timestamp,
    pub update_at: Timestamp,
}

/// What a person is, whichever type carries it.
pub struct PersonView {
    pub id: u128,
    pub name: Seq<char>,
    pub create_at: Timestamp,
    pub update_at: Timestamp,
}

/// What a post is, whichever type carries it.
pub struct PostView {
    pub id: u128,
    pub person_id: u128,
    pub text: Seq<char>,
    pub create_at: Timestamp,
    pub update_at: Timestamp,
}

/// What a person with its posts is, whichever type carries it.
pub struct PersonWithPostsView {
    pub id: u128,
    pub name: Seq<char>,
    pub posts: Seq<PostView>,
    pub create_at: Timestamp,
    pub update_at: Timestamp,
}

impl View for Person {
    type V = PersonView;

    open spec fn view(&self) -> PersonView {
        PersonView {
            id: self.id,
            name: self.name@,
            create_at: self.create_at,
            update_at: self.update_at,
        }
    }
}

impl DeepView for Person {
    type V = PersonView;

    open spec fn deep_view(&self) -> PersonView {
        self@
    }
}

impl View for Post {
    type V = PostView;

    open spec fn view(&self) -> PostView {
        PostView {
            id: self.id,
            person_id: self.person_id,
            text: self.text@,
            create_at: self.create_at,
            update_at: self.update_at,
        }
    }
}

impl DeepView for Post {
    type V = PostView;

    open spec fn deep_view(&self) -> PostView {
        self@
    }
}

impl View for PersonWithPosts {
    type V = PersonWithPostsView;

    open spec fn view(&self) -> PersonWithPostsView {
        PersonWithPostsView {
            id: self.id,
            name: self.name@,
            posts: self.posts.deep_view(),
            create_at: self.create_at,
            update_at: self.update_at,
        }
    }
}

impl DeepView for PersonWithPosts {
    type V = PersonWithPostsView;

    open spec fn deep_view(&self) -> PersonWithPostsView {
        self@
    }
}

/// The aggregate of `person` and `posts`: the person's own fields, and the
/// posts in the order given.
pub open spec fn joined(person: PersonView, posts: Seq<PostView>) -> PersonWithPostsView {
    PersonWithPostsView {
        id: person.id,
        name: person.name,
        posts: posts,
        create_at: person.create_at,
        update_at: person.update_at,
    }
}

impl FromSpecImpl<(Person, Vec<Post>)> for PersonWithPosts {
    open spec fn obeys_from_spec() -> bool {
        true
    }

    open spec fn from_spec(pair: (Person, Vec<Post>)) -> PersonWithPosts {
        PersonWithPosts {
            id: pair.0.id,
            name: pair.0.name,
            posts: pair.1,
            create_at: pair.0.create_at,
            update_at: pair.0.update_at,
        }
    }
}

impl From<(Person, Vec<Post>)> for PersonWithPosts {
    /// Joins a person with its posts. Nothing is looked at: the posts are
    /// taken as they come.
    fn from(pair: (Person, Vec<Post>)) -> (whole: PersonWithPosts)
        ensures
            whole@ == joined(pair.0@, pair.1.deep_view()),
    {
        let (person, posts) = pair;
        PersonWithPosts {
            id: person.id,
            name: person.name,
            posts: posts,
            create_at: person.create_at,
            update_at: person.update_at,
        }
    }
}

/// Whether posts that refer to `id` are grouped under the person at `index`:
/// that person has the id, and no later person has it too.
pub open spec fn groups_under(persons: Seq<PersonView>, index: int, id: u128) -> bool {
    &&& 0 <= index < persons.len()
    &&& persons[index].id == id
    &&& forall|later: int| index < later < persons.len() ==> persons[later].id != id
}

/// The posts grouped under the person at `index`, in the order of `posts`.
pub open spec fn group_of(posts: Seq<PostView>, persons: Seq<PersonView>, index: int) -> Seq<
    PostView,
> {
    posts.filter(|post: PostView| groups_under(persons, index, post.person_id))
}

/// The posts that refer to `person_id`, in the order of `posts`.
pub open spec fn posts_of(posts: Seq<PostView>, person_id: u128) -> Seq<PostView> {
    posts.filter(|post: PostView| post.person_id == person_id)
}

/// No two of `persons` have one id.
pub open spec fn distinct_ids(persons: Seq<PersonView>) -> bool {
    forall|i: int, j: int| 0 <= i < j < persons.len() ==> persons[i].id != persons[j].id
}

/// Two filters that agree on every element select the same subsequence.
proof fn lemma_filter_agrees<A>(s: Seq<A>, p: spec_fn(A) -> bool, q: spec_fn(A) -> bool)
    requires
        forall|i: int| 0 <= i < s.len() ==> p(#[trigger] s[i]) == q(s[i]),
    ensures
        s.filter(p) == s.filter(q),
    decreases s.len(),
{
    reveal(Seq::filter);
    if s.len() > 0 {
        let front = s.drop_last();
        assert forall|i: int| 0 <= i < front.len() implies p(#[trigger] front[i]) == q(
            front[i],
        ) by {
            assert(front[i] == s[i]);
        }
        lemma_filter_agrees(front, p, q);
        assert(p(s[s.len() - 1]) == q(s[s.len() - 1]));
    }
}

/// Where no two persons have one id, the group of a person holds exactly the
/// posts that refer to it.
pub proof fn lemma_group_of_distinct(posts: Seq<PostView>, persons: Seq<PersonView>, index: int)
    requires
        distinct_ids(persons),
        0 <= index < persons.len(),
    ensures
        group_of(posts, persons, index) == posts_of(posts, persons[index].id),
{
    lemma_filter_agrees(
        posts,
        |post: PostView| groups_under(persons, index, post.person_id),
        |post: PostView| post.person_id == persons[index].id,
    );
}

/// For each id among `persons`, the place of the last person that has it.
fn index_by_id(persons: &Vec<Person>) -> (places: HashMap<u128, usize>)
    ensures
        forall|id: u128|
            places@.contains_key(id) ==> groups_under(
                persons.deep_view(),
                #[trigger] places@[id] as int,
                id,
            ),
        forall|id: u128, index: int| #[trigger]
            groups_under(persons.deep_view(), index, id) ==> places@.contains_key(id),
{
    let mut places: HashMap<u128, usize> = HashMap::new();
    let mut next: usize = 0;
    while next < persons.len()
        invariant
            next <= persons.len(),
            forall|j: int| 0 <= j < next ==> places@.contains_key(#[trigger] persons[j].id),
            forall|id: u128|
                places@.contains_key(id) ==> {
                    &&& (#[trigger] places@[id]) < next
                    &&& persons[places@[id] as int].id == id
                    &&& forall|later: int| places@[id] < later < next ==> persons[later].id != id
                },
        decreases persons.len() - next,
    {
        places.insert(persons[next].id, next);
        next = next + 1;
    }
    places
}

/// As many empty groups as `count`.
fn empty_groups(count: usize) -> (groups: Vec<Vec<Post>>)
    ensures
        groups.len() == count,
        forall|i: int| 0 <= i < count ==> (#[trigger] groups[i])@.len() == 0,
{
    let mut groups: Vec<Vec<Post>> = Vec::new();
    let mut made: usize = 0;
    while made < count
        invariant
            made <= count,
            groups.len() == made,
            forall|i: int| 0 <= i < made ==> (#[trigger] groups[i])@.len() == 0,
        decreases count - made,
    {
        groups.push(Vec::new());
        made = made + 1;
    }
    groups
}

/// Sorts `posts` into one group per person, the groups in the order of
/// `persons` and each group in the order of `posts`. A post goes to the
/// person that its `person_id` names; where several persons have that id, to
/// the last of them; where none has, nowhere.
pub fn grouped_by(posts: Vec<Post>, persons: &Vec<Person>) -> (groups: Vec<Vec<Post>>)
    ensures
        groups.len() == persons.len(),
        forall|i: int|
            0 <= i < persons.len() ==> (#[trigger] groups[i]).deep_view() == group_of(
                posts.deep_view(),
                persons.deep_view(),
                i,
            ),
        distinct_ids(persons.deep_view()) ==> forall|i: int|
            0 <= i < persons.len() ==> (#[trigger] groups[i]).deep_view() == posts_of(
                posts.deep_view(),
                persons[i].id,
            ),
{
    let places = index_by_id(persons);
    let mut groups = empty_groups(persons.len());
    let ghost parents = persons.deep_view();
    let ghost all = posts.deep_view();
    proof {
        reveal(Seq::filter);
        assert forall|i: int| 0 <= i < persons.len() implies (#[trigger] groups[i]).deep_view()
            == group_of(all.take(0), parents, i) by {
            assert(groups[i].deep_view() =~= Seq::<PostView>::empty());
        }
    }
    for post in it: posts
        invariant
            it.seq() == posts@,
            parents == persons.deep_view(),
            all == posts.deep_view(),
            groups.len() == persons.len(),
            forall|id: u128|
                places@.contains_key(id) ==> groups_under(parents, #[trigger] places@[id] as int, id),
            forall|id: u128, index: int| #[trigger]
                groups_under(parents, index, id) ==> places@.contains_key(id),
            forall|i: int|
                0 <= i < persons.len() ==> (#[trigger] groups[i]).deep_view() == group_of(
                    all.take(it.index()),
                    parents,
                    i,
                ),
    {
        let ghost done = it.index();
        let ghost before = groups;
        let ghost seen = all.take(done);
        let ghost now = all.take(done + 1);
        proof {
            reveal(Seq::filter);
            assert(post@ == all[done]);
            assert(now.drop_last() =~= seen);
            assert(now.last() == post@);
        }
        match places.get(&post.person_id) {
            Some(place) => {
                let place: usize = *place;
                groups[place].push(post);
                proof {
                    assert forall|i: int| 0 <= i < persons.len() implies (#[trigger] groups[i])
                        .deep_view() == group_of(now, parents, i) by {
                        if i == place {
                            assert(groups[i].deep_view() =~= before[i].deep_view().push(post@));
                        } else {
                            assert(groups[i] == before[i]);
                        }
                    }
                }
            },
            None => {
                proof {
                    assert forall|i: int| 0 <= i < persons.len() implies (#[trigger] groups[i])
                        .deep_view() == group_of(now, parents, i) by {
                        assert(!groups_under(parents, i, post.person_id));
                    }
                }
            },
        }
    }
    proof {
        assert(all.take(posts@.len() as int) =~= all);
        if distinct_ids(parents) {
            assert forall|i: int| 0 <= i < persons.len() implies (#[trigger] groups[i]).deep_view()
                == posts_of(all, persons[i].id) by {
                lemma_group_of_distinct(all, parents, i);
            }
        }
    }
    groups
}

impl PersonWithPosts {
    /// Joins each person with the group at its place.
    fn zip(persons: Vec<Person>, groups: Vec<Vec<Post>>) -> (wholes: Vec<PersonWithPosts>)
        requires
            persons.len() == groups.len(),
        ensures
            wholes.len() == persons.len(),
            forall|i: int|
                0 <= i < persons.len() ==> (#[trigger] wholes[i])@ == joined(
                    persons[i]@,
                    groups[i].deep_view(),
                ),
    {
        let ghost given = groups;
        let mut groups = groups;
        let mut wholes: Vec<PersonWithPosts> = Vec::new();
        for person in it: persons
            invariant
                it.seq() == persons@,
                persons.len() == given.len(),
                groups.len() == given.len(),
                wholes.len() == it.index(),
                forall|i: int| it.index() <= i < given.len() ==> groups[i] == given[i],
                forall|i: int|
                    0 <= i < it.index() ==> (#[trigger] wholes[i])@ == joined(
                        persons[i]@,
                        given[i].deep_view(),
                    ),
        {
            let place: usize = wholes.len();
            let mut group: Vec<Post> = Vec::new();
            std::mem::swap(&mut group, &mut groups[place]);
            wholes.push(PersonWithPosts::from((person, group)));
        }
        wholes
    }

    /// Joins every person with its posts: the persons in the order given,
    /// and under each the posts that refer to it, in the order given. As
    /// [`grouped_by`] has it, a post that refers to none of the persons is
    /// left out, and one that refers to an id that several have goes to the
    /// last of them.
    pub fn join_all(persons: Vec<Person>, posts: Vec<Post>) -> (wholes: Vec<PersonWithPosts>)
        ensures
            wholes.len() == persons.len(),
            forall|i: int|
                0 <= i < persons.len() ==> (#[trigger] wholes[i])@ == joined(
                    persons[i]@,
                    group_of(posts.deep_view(), persons.deep_view(), i),
                ),
            distinct_ids(persons.deep_view()) ==> forall|i: int|
                0 <= i < persons.len() ==> (#[trigger] wholes[i])@ == joined(
                    persons[i]@,
                    posts_of(posts.deep_view(), persons[i].id),
                ),
    {
        let groups = grouped_by(posts, &persons);
        Self::zip(persons, groups)
    }
}

/// The posts that refer to one of `persons`, in the order of `posts`.
pub open spec fn posts_of_any(posts: Seq<PostView>, persons: Seq<PersonView>) -> Seq<PostView> {
    posts.filter(
        |post: PostView| exists|i: int| 0 <= i < persons.len() && persons[i].id == post.person_id,
    )
}

/// To select by `q` among what `p` selected is to select by `q`, where `q`
/// holds only of elements that `p` holds of.
proof fn lemma_filter_within<A>(s: Seq<A>, p: spec_fn(A) -> bool, q: spec_fn(A) -> bool)
    requires
        forall|i: int| 0 <= i < s.len() && q(#[trigger] s[i]) ==> p(s[i]),
    ensures
        s.filter(p).filter(q) == s.filter(q),
    decreases s.len(),
{
    reveal(Seq::filter);
    if s.len() > 0 {
        let front = s.drop_last();
        assert forall|i: int| 0 <= i < front.len() && q(#[trigger] front[i]) implies p(
            front[i],
        ) by {
            assert(front[i] == s[i]);
        }
        lemma_filter_within(front, p, q);
        let last = s[s.len() - 1];
        if p(last) {
            assert(front.filter(p).push(last).drop_last() =~= front.filter(p));
        } else {
            assert(!q(last));
        }
    }
}

/// A person has the same posts whether it is asked for alone or among all
/// persons. Let `posts` be the posts in the order in which the store hands
/// them out, and let no two of `persons` have one id. Asked for one person,
/// the store hands out the posts that refer to it, and they are joined to it
/// as they come. Asked for all persons, it hands out the posts that refer to
/// any of them, and they are grouped. The person at `index` comes out of both
/// as the same aggregate, with exactly the posts that refer to it.
pub proof fn lemma_alone_as_among_all(
    persons: Seq<PersonView>,
    posts: Seq<PostView>,
    index: int,
)
    requires
        distinct_ids(persons),
        0 <= index < persons.len(),
    ensures
        group_of(posts_of_any(posts, persons), persons, index) == posts_of(
            posts,
            persons[index].id,
        ),
        joined(persons[index], group_of(posts_of_any(posts, persons), persons, index)) == joined(
            persons[index],
            posts_of(posts, persons[index].id),
        ),
{
    let any = |post: PostView|
        exists|i: int| 0 <= i < persons.len() && persons[i].id == post.person_id;
    let one = |post: PostView| post.person_id == persons[index].id;
    lemma_group_of_distinct(posts.filter(any), persons, index);
    lemma_filter_within(posts, any, one);
}

} // verus!
