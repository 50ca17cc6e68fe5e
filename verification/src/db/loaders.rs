//! What a loader's fetch makes of the rows that came back.
//!
//! A fetch runs one query for a whole batch of keys. The query itself is the
//! caller's business; the functions here take its outcome and build the mapping
//! from key to value that the loader resolves its waiting callers from.

use crate::db::batch::{BatchLoader, LoaderState, Lookup, Step};
use crate::db::photo::Photo;
use crate::db::post::{AssocPost, Post};
use std::collections::HashMap;
use vstd::prelude::*;

verus! {

/// The store could not answer a query. The message is for the log only.
#[derive(Debug, PartialEq, Eq)]
pub struct BackendFailure {
    pub message: String,
}

/// The rows a query gave: none where it failed.
pub open spec fn rows_of<T>(fetched: Result<Vec<T>, BackendFailure>) -> Seq<T> {
    match fetched {
        Ok(rows) => rows@,
        Err(_) => Seq::empty(),
    }
}

/// The posts of `rows` under their identifiers. Where two rows share an
/// identifier the later one stands.
pub open spec fn posts_by_id(rows: Seq<Post>) -> Map<i32, Post>
    decreases rows.len(),
{
    if rows.len() == 0 {
        Map::empty()
    } else {
        posts_by_id(rows.drop_last()).insert(rows.last().id, rows.last())
    }
}

/// The photos of `rows` that belong to the post `post_id`, in the order of `rows`.
pub open spec fn photos_of(rows: Seq<Photo>, post_id: i32) -> Seq<Photo> {
    rows.filter(|photo: Photo| photo.post_id == post_id)
}

/// `grouped` holds, for each of `keys` and for nothing else, the photos of
/// `rows` that belong to it.
pub open spec fn groups_photos(
    grouped: Map<i32, Vec<Photo>>,
    keys: Seq<i32>,
    rows: Seq<Photo>,
) -> bool {
    &&& grouped.dom() == keys.to_set()
    &&& forall|key: i32|
        keys.contains(key) ==> (#[trigger] grouped[key])@ == photos_of(rows, key)
}

/// What a caller who asked for the post `id` is given when the query brought
/// `rows`: the post, or that it is missing.
pub open spec fn found_post(rows: Seq<Post>, id: i32) -> Lookup<Post> {
    if posts_by_id(rows).contains_key(id) {
        Lookup::Found(posts_by_id(rows)[id])
    } else {
        Lookup::Missing
    }
}

/// `found` is what a caller is given of the photos of a post of which the
/// loader knows `known`: nothing while they are unresolved, the photos where
/// they are found, and an empty collection where they are missing.
pub open spec fn photos_found(known: Lookup<Vec<Photo>>, found: Option<Vec<Photo>>) -> bool {
    match known {
        Lookup::Unresolved => found is None,
        Lookup::Missing => found matches Some(photos) && photos@ == Seq::<Photo>::empty(),
        Lookup::Found(stored) => found matches Some(photos) && photos@ == stored@,
    }
}

/// `after` is what resolving the post `id` at once, with `query` to call,
/// makes of the loader `before`. It is what `LoaderState::loads` says, the
/// fetch being the query with the posts it brought put under their
/// identifiers: a post that it did not bring, or any where it failed, is
/// missing.
pub open spec fn loads_post<Q: FnOnce(Vec<i32>) -> Result<Vec<Post>, BackendFailure>>(
    before: LoaderState<Post>,
    id: i32,
    query: Q,
    after: LoaderState<Post>,
) -> bool {
    if before.resolved.contains_key(id) {
        after == before
    } else if before.in_flight.len() > 0 {
        after == before.request(id)
    } else {
        exists|batch: Vec<i32>, outcome: Result<Vec<Post>, BackendFailure>|
            batch@ == before.request(id).batch() && call_ensures(query, (batch,), outcome)
                && after == before.request(id).take_batch().resolve(
                posts_by_id(rows_of(outcome)),
            ) && after.lookup(id) == found_post(rows_of(outcome), id)
    }
}

/// `after` is what resolving the photos of the post `post_id` at once, with
/// `query` to call, makes of the loader `before`. It is what
/// `LoaderState::loads` says, the fetch being the query with the photos it
/// brought grouped by post: every post of the batch has a collection, an empty
/// one where the query brought no photo of it or failed.
pub open spec fn loads_post_photos<Q: FnOnce(Vec<i32>) -> Result<Vec<Photo>, BackendFailure>>(
    before: LoaderState<Vec<Photo>>,
    post_id: i32,
    query: Q,
    after: LoaderState<Vec<Photo>>,
) -> bool {
    if before.resolved.contains_key(post_id) {
        after == before
    } else if before.in_flight.len() > 0 {
        after == before.request(post_id)
    } else {
        exists|
            batch: Vec<i32>,
            outcome: Result<Vec<Photo>, BackendFailure>,
            grouped: Map<i32, Vec<Photo>>,
        |
            batch@ == before.request(post_id).batch() && call_ensures(query, (batch,), outcome)
                && groups_photos(grouped, batch@, rows_of(outcome)) && after == before.request(
                post_id,
            ).take_batch().resolve(grouped) && (after.lookup(post_id) matches Lookup::Found(
                photos,
            ) && photos@ == photos_of(rows_of(outcome), post_id))
    }
}

/// No later parent has the identifier of the parent at `i`.
pub open spec fn is_last_with_id(parents: Seq<AssocPost>, i: int) -> bool {
    forall|j: int| i < j < parents.len() ==> (#[trigger] parents[j]).id != parents[i].id
}

/// The group that the parent at `i` is given: where several parents share an
/// identifier, the last of them has the children and the others have none.
pub open spec fn group_at(children: Seq<Photo>, parents: Seq<AssocPost>, i: int) -> Seq<Photo> {
    if is_last_with_id(parents, i) {
        photos_of(children, parents[i].id)
    } else {
        Seq::empty()
    }
}

/// `posts_by_id` has an entry for the identifiers that occur in `rows` and for
/// no other: a post that the store does not have is absent, and this touches
/// no other identifier. The entry of an identifier is a row that has it; where
/// no two rows share an identifier, every row is the entry of its own.
pub proof fn lemma_posts_by_id(rows: Seq<Post>)
    ensures
        forall|id: i32|
            #![trigger posts_by_id(rows).contains_key(id)]
            posts_by_id(rows).contains_key(id) <==> exists|i: int|
                0 <= i < rows.len() && (#[trigger] rows[i]).id == id,
        forall|id: i32|
            #![trigger posts_by_id(rows)[id]]
            posts_by_id(rows).contains_key(id) ==> posts_by_id(rows)[id].id == id && rows.contains(
                posts_by_id(rows)[id],
            ),
        (forall|i: int, j: int|
            0 <= i < j < rows.len() ==> (#[trigger] rows[i]).id != (#[trigger] rows[j]).id)
            ==> forall|i: int|
            0 <= i < rows.len() ==> posts_by_id(rows)[(#[trigger] rows[i]).id] == rows[i],
    decreases rows.len(),
{
    if rows.len() > 0 {
        let front = rows.drop_last();
        let last = rows.last();
        lemma_posts_by_id(front);
        assert forall|id: i32|
            #![trigger posts_by_id(rows).contains_key(id)]
            posts_by_id(rows).contains_key(id) <==> exists|i: int|
                0 <= i < rows.len() && (#[trigger] rows[i]).id == id by {
            if posts_by_id(rows).contains_key(id) {
                if id == last.id {
                    assert(rows[rows.len() - 1].id == id);
                } else {
                    assert(posts_by_id(front).contains_key(id));
                    let i = choose|i: int| 0 <= i < front.len() && (#[trigger] front[i]).id == id;
                    assert(rows[i].id == id);
                }
            }
            if exists|i: int| 0 <= i < rows.len() && (#[trigger] rows[i]).id == id {
                let i = choose|i: int| 0 <= i < rows.len() && (#[trigger] rows[i]).id == id;
                if i < front.len() {
                    assert(front[i].id == id);
                }
            }
        }
        assert forall|id: i32|
            #![trigger posts_by_id(rows)[id]]
            posts_by_id(rows).contains_key(id) implies posts_by_id(rows)[id].id == id
            && rows.contains(posts_by_id(rows)[id]) by {
            if id == last.id {
                assert(rows[rows.len() - 1] == last);
            } else {
                let found = posts_by_id(front)[id];
                assert(front.contains(found));
                let i = choose|i: int| 0 <= i < front.len() && front[i] == found;
                assert(rows[i] == found);
            }
        }
        if forall|i: int, j: int|
            0 <= i < j < rows.len() ==> (#[trigger] rows[i]).id != (#[trigger] rows[j]).id {
            assert forall|i: int, j: int| 0 <= i < j < front.len() implies (#[trigger] front[i]).id
                != (#[trigger] front[j]).id by {
                assert(rows[i].id != rows[j].id);
            }
            assert forall|i: int| 0 <= i < rows.len() implies posts_by_id(rows)[(
            #[trigger] rows[i]).id] == rows[i] by {
                if i < front.len() {
                    assert(rows[i].id != rows[rows.len() - 1].id);
                    assert(front[i] == rows[i]);
                }
            }
        }
    }
}

/// The photos of a post are the rows that name it and no others, and there
/// are no more of them than rows: a post that no row names has none.
pub proof fn lemma_photos_of(rows: Seq<Photo>, post_id: i32)
    ensures
        photos_of(rows, post_id).len() <= rows.len(),
        forall|i: int|
            0 <= i < photos_of(rows, post_id).len() ==> (#[trigger] photos_of(
                rows,
                post_id,
            )[i]).post_id == post_id && rows.contains(photos_of(rows, post_id)[i]),
        forall|i: int|
            0 <= i < rows.len() && (#[trigger] rows[i]).post_id == post_id ==> photos_of(
                rows,
                post_id,
            ).contains(rows[i]),
        (forall|i: int| 0 <= i < rows.len() ==> (#[trigger] rows[i]).post_id != post_id)
            ==> photos_of(rows, post_id) == Seq::<Photo>::empty(),
{
    let of_post = |photo: Photo| photo.post_id == post_id;
    let found = photos_of(rows, post_id);
    rows.lemma_filter_len(of_post);
    assert forall|i: int| 0 <= i < found.len() implies (#[trigger] found[i]).post_id == post_id
        && rows.contains(found[i]) by {
        rows.lemma_filter_pred(of_post, i);
        assert(found.contains(found[i]));
        rows.lemma_filter_contains_rev(of_post, found[i]);
    }
    assert forall|i: int| 0 <= i < rows.len() && (#[trigger] rows[i]).post_id
        == post_id implies found.contains(rows[i]) by {
        rows.lemma_filter_contains(of_post, i);
    }
    if forall|i: int| 0 <= i < rows.len() ==> (#[trigger] rows[i]).post_id != post_id {
        if found.len() > 0 {
            assert(found[0].post_id == post_id && rows.contains(found[0]));
            let i = choose|i: int| 0 <= i < rows.len() && rows[i] == found[0];
            assert(rows[i].post_id != post_id);
        }
        assert(found =~= Seq::<Photo>::empty());
    }
}

/// The fetch of the post-by-id loader.
pub struct PostsLoadFn {}

impl PostsLoadFn {
    /// The posts that the query returned. A failed query counts as one that
    /// found nothing.
    pub fn posts(&self, fetched: Result<Vec<Post>, BackendFailure>) -> (rows: Vec<Post>)
        ensures
            rows@ == rows_of(fetched),
    {
        match fetched {
            Ok(rows) => rows,
            Err(_) => Vec::new(),
        }
    }

    /// The posts that the query returned, each under its identifier. An
    /// identifier that the query did not find has no entry.
    pub fn load(&self, fetched: Result<Vec<Post>, BackendFailure>) -> (found: HashMap<i32, Post>)
        ensures
            found@ == posts_by_id(rows_of(fetched)),
    {
        let rows = self.posts(fetched);
        let ghost all = rows@;
        let mut found: HashMap<i32, Post> = HashMap::new();
        for post in it: rows
            invariant
                it.seq() == all,
                found@ == posts_by_id(all.take(it.index() as int)),
        {
            proof {
                let n = it.index() as int;
                assert(all.take(n + 1).drop_last() =~= all.take(n));
            }
            found.insert(post.id, post);
        }
        proof {
            assert(all.take(all.len() as int) =~= all);
        }
        found
    }
}

/// One parent for each key, in the order of the keys.
pub fn create_assoc_posts(keys: Vec<i32>) -> (parents: Vec<AssocPost>)
    ensures
        parents@.len() == keys@.len(),
        forall|i: int| 0 <= i < keys@.len() ==> (#[trigger] parents@[i]).id == keys@[i],
{
    let mut parents: Vec<AssocPost> = Vec::new();
    let mut i: usize = 0;
    while i < keys.len()
        invariant
            i <= keys@.len(),
            parents@.len() == i,
            forall|j: int| 0 <= j < i ==> (#[trigger] parents@[j]).id == keys@[j],
        decreases keys@.len() - i,
    {
        parents.push(AssocPost { id: keys[i] });
        i += 1;
    }
    parents
}

/// Taking one more row into account adds it to the photos of its own post
/// and to no other.
pub proof fn lemma_photos_of_step(rows: Seq<Photo>, n: int, post_id: i32)
    requires
        0 <= n < rows.len(),
    ensures
        photos_of(rows.take(n + 1), post_id) == if rows[n].post_id == post_id {
            photos_of(rows.take(n), post_id).push(rows[n])
        } else {
            photos_of(rows.take(n), post_id)
        },
{
    reveal(Seq::filter);
    assert(rows.take(n + 1).drop_last() =~= rows.take(n));
}

/// The photos in one group for each parent, in the order of the parents: a
/// photo goes to the parent whose identifier is its `post_id`, and to the last
/// such parent where several share the identifier. A photo of no parent is
/// left out. Within a group the photos keep the order they came in.
pub fn grouped_by(children: Vec<Photo>, parents: &[AssocPost]) -> (groups: Vec<Vec<Photo>>)
    ensures
        groups@.len() == parents@.len(),
        forall|i: int|
            0 <= i < parents@.len() ==> (#[trigger] groups@[i])@ == group_at(
                children@,
                parents@,
                i,
            ),
{
    let mut id_indices: HashMap<i32, usize> = HashMap::new();
    let mut groups: Vec<Vec<Photo>> = Vec::new();
    let mut i: usize = 0;
    while i < parents.len()
        invariant
            i <= parents@.len(),
            groups@.len() == i,
            forall|j: int| 0 <= j < i ==> (#[trigger] groups@[j])@ == Seq::<Photo>::empty(),
            forall|id: i32|
                id_indices@.contains_key(id) <==> exists|j: int|
                    0 <= j < i && (#[trigger] parents@[j]).id == id,
            forall|id: i32| #[trigger]
                id_indices@.contains_key(id) ==> {
                    let at = id_indices@[id] as int;
                    &&& 0 <= at < i
                    &&& parents@[at].id == id
                    &&& forall|j: int| at < j < i ==> (#[trigger] parents@[j]).id != id
                },
        decreases parents@.len() - i,
    {
        id_indices.insert(parents[i].id, i);
        groups.push(Vec::new());
        i += 1;
    }
    let ghost all = children@;
    for child in it: children
        invariant
            it.seq() == all,
            groups@.len() == parents@.len(),
            forall|j: int|
                0 <= j < parents@.len() ==> (#[trigger] groups@[j])@ == group_at(
                    all.take(it.index() as int),
                    parents@,
                    j,
                ),
            forall|id: i32|
                id_indices@.contains_key(id) <==> exists|j: int|
                    0 <= j < parents@.len() && (#[trigger] parents@[j]).id == id,
            forall|id: i32| #[trigger]
                id_indices@.contains_key(id) ==> {
                    let at = id_indices@[id] as int;
                    &&& 0 <= at < parents@.len()
                    &&& parents@[at].id == id
                    &&& is_last_with_id(parents@, at)
                },
    {
        let ghost n = it.index() as int;
        let ghost before = groups@;
        proof {
            assert forall|j: int| 0 <= j < parents@.len() implies photos_of(
                all.take(n + 1),
                (#[trigger] parents@[j]).id,
            ) == if all[n].post_id == parents@[j].id {
                photos_of(all.take(n), parents@[j].id).push(all[n])
            } else {
                photos_of(all.take(n), parents@[j].id)
            } by {
                lemma_photos_of_step(all, n, parents@[j].id);
            }
        }
        match id_indices.get(&child.post_id) {
            Some(index) => {
                let at = *index;
                groups[at].push(child);
                assert forall|j: int| 0 <= j < parents@.len() implies (#[trigger] groups@[j])@
                    == group_at(all.take(n + 1), parents@, j) by {
                    if j != at as int {
                        assert(groups@[j] == before[j]);
                    }
                }
            },
            None => {
                assert forall|j: int| 0 <= j < parents@.len() implies (#[trigger] groups@[j])@
                    == group_at(all.take(n + 1), parents@, j) by {
                    assert(parents@[j].id != all[n].post_id);
                }
            },
        }
    }
    proof {
        assert(all.take(all.len() as int) =~= all);
    }
    groups
}

/// The keys of a slice in a vector of their own.
fn keys_to_vec(keys: &[i32]) -> (owned: Vec<i32>)
    ensures
        owned@ == keys@,
{
    let mut owned: Vec<i32> = Vec::new();
    let mut i: usize = 0;
    while i < keys.len()
        invariant
            i <= keys@.len(),
            owned@ == keys@.take(i as int),
        decreases keys@.len() - i,
    {
        owned.push(keys[i]);
        proof {
            assert(keys@.take(i + 1) =~= keys@.take(i as int).push(keys@[i as int]));
        }
        i += 1;
    }
    proof {
        assert(keys@.take(keys@.len() as int) =~= keys@);
    }
    owned
}

/// The fetch of the photos-by-post loader.
pub struct PostPhotosLoadFn {}

impl PostPhotosLoadFn {
    /// The photos that the query returned. A failed query counts as one that
    /// found nothing.
    pub fn post_photos(&self, fetched: Result<Vec<Photo>, BackendFailure>) -> (rows: Vec<Photo>)
        ensures
            rows@ == rows_of(fetched),
    {
        match fetched {
            Ok(rows) => rows,
            Err(_) => Vec::new(),
        }
    }

    /// The photos that the query returned, grouped by the post they belong to.
    /// Every key has an entry: a post without photos has an empty one. A photo
    /// of a post that is not among the keys is left out.
    pub fn load(&self, keys: &[i32], fetched: Result<Vec<Photo>, BackendFailure>) -> (grouped:
        HashMap<i32, Vec<Photo>>)
        ensures
            groups_photos(grouped@, keys@, rows_of(fetched)),
    {
        let assoc_posts: Vec<AssocPost> = create_assoc_posts(keys_to_vec(keys));
        let post_photos = grouped_by(self.post_photos(fetched), assoc_posts.as_slice());
        let ghost rows = rows_of(fetched);
        let ghost parents = assoc_posts@;
        let ghost groups = post_photos@;
        let mut grouped: HashMap<i32, Vec<Photo>> = HashMap::new();
        let mut at: usize = 0;
        for group in it: post_photos
            invariant
                it.seq() == groups,
                at == it.index(),
                parents == assoc_posts@,
                parents.len() == keys@.len(),
                groups.len() == parents.len(),
                forall|i: int| 0 <= i < keys@.len() ==> (#[trigger] parents[i]).id == keys@[i],
                forall|i: int|
                    0 <= i < parents.len() ==> (#[trigger] groups[i])@ == group_at(rows, parents, i),
                forall|key: i32|
                    grouped@.contains_key(key) <==> exists|i: int|
                        0 <= i < it.index() && #[trigger] keys@[i] == key,
                forall|i: int|
                    0 <= i < it.index() && (forall|j: int|
                        i < j < it.index() ==> (#[trigger] parents[j]).id != parents[i].id)
                        ==> grouped@[#[trigger] keys@[i]] == groups[i],
        {
            assert(at < assoc_posts.len());
            grouped.insert(assoc_posts[at].id, group);
            at += 1;
        }
        proof {
            assert(grouped@.dom() =~= keys@.to_set());
            assert forall|key: i32| keys@.contains(key) implies (#[trigger] grouped@[key])@
                == photos_of(rows, key) by {
                let i = last_index_of(keys@, key);
                lemma_last_index_of(keys@, key);
                assert(is_last_with_id(parents, i));
            }
        }
        grouped
    }
}

/// The greatest index at which `key` stands in `keys`, where it stands there.
pub open spec fn last_index_of(keys: Seq<i32>, key: i32) -> int
    decreases keys.len(),
{
    if keys.len() == 0 {
        -1
    } else if keys.last() == key {
        keys.len() - 1
    } else {
        last_index_of(keys.drop_last(), key)
    }
}

/// `last_index_of` finds a key that is there, and nothing stands behind it.
pub proof fn lemma_last_index_of(keys: Seq<i32>, key: i32)
    requires
        keys.contains(key),
    ensures
        0 <= last_index_of(keys, key) < keys.len(),
        keys[last_index_of(keys, key)] == key,
        forall|j: int| last_index_of(keys, key) < j < keys.len() ==> keys[j] != key,
    decreases keys.len(),
{
    if keys.last() != key {
        let i = choose|i: int| 0 <= i < keys.len() && keys[i] == key;
        assert(keys.drop_last()[i] == key);
        lemma_last_index_of(keys.drop_last(), key);
        let at = last_index_of(keys, key);
        assert forall|j: int| at < j < keys.len() implies keys[j] != key by {
            if j < keys.len() - 1 {
                assert(keys.drop_last()[j] != key);
            }
        }
    }
}

/// The loader that resolves a post identifier to its post.
pub type PostsLoader = BatchLoader<Post>;

/// The loader that resolves a post identifier to the photos of that post.
pub type PostPhotosLoader = BatchLoader<Vec<Photo>>;

/// The number of pending keys at which a loader's batch is due.
pub const BATCH_THRESHOLD: usize = 100;

/// A post-by-id loader that has seen no key.
pub fn create_posts_loader() -> (loader: PostsLoader)
    ensures
        loader@ == LoaderState::<Post>::fresh(BATCH_THRESHOLD as nat),
        loader@.wf(),
{
    BatchLoader::new(BATCH_THRESHOLD)
}

/// A photos-by-post loader that has seen no key.
pub fn create_post_photos_loader() -> (loader: PostPhotosLoader)
    ensures
        loader@ == LoaderState::<Vec<Photo>>::fresh(BATCH_THRESHOLD as nat),
        loader@.wf(),
{
    BatchLoader::new(BATCH_THRESHOLD)
}

/// The loaders of one request. They are made when the request comes in and
/// dropped with it: nothing they cache outlives the request.
pub struct Loaders {
    pub posts_loader: PostsLoader,
    pub post_photos_loader: PostPhotosLoader,
}

impl Loaders {
    /// Both loaders are well-formed.
    pub open spec fn wf(&self) -> bool {
        self.posts_loader@.wf() && self.post_photos_loader@.wf()
    }

    /// Neither loader has seen a key.
    pub open spec fn is_fresh(&self) -> bool {
        &&& self.posts_loader@ == LoaderState::<Post>::fresh(BATCH_THRESHOLD as nat)
        &&& self.post_photos_loader@ == LoaderState::<Vec<Photo>>::fresh(BATCH_THRESHOLD as nat)
    }

    /// A pair of loaders that have seen no key.
    pub fn new() -> (loaders: Loaders)
        ensures
            loaders.is_fresh(),
            loaders.wf(),
    {
        Loaders {
            posts_loader: create_posts_loader(),
            post_photos_loader: create_post_photos_loader(),
        }
    }

    /// Resolves the post `id` now and gives what the request then knows of
    /// it. A post that is resolved is read from the cache and `query` is not
    /// called. Otherwise `query` is called once, on the pending identifiers
    /// and `id`, and the posts it brings resolve them: one that it did not
    /// bring, or any where it failed, is `Missing`. While a batch is in flight
    /// `id` is left pending, unresolved, and `query` is not called.
    pub fn load_post<Q>(&mut self, id: i32, query: Q) -> (found: Lookup<Post>)
        where Q: FnOnce(Vec<i32>) -> Result<Vec<Post>, BackendFailure>
        requires
            old(self).wf(),
            forall|batch: Vec<i32>|
                batch@ == old(self).posts_loader@.request(id).batch()
                    ==> call_requires(query, (batch,)),
        ensures
            loads_post(old(self).posts_loader@, id, query, final(self).posts_loader@),
            found == final(self).posts_loader@.lookup(id),
            old(self).posts_loader@.in_flight.len() == 0 ==> !(found is Unresolved),
            final(self).post_photos_loader == old(self).post_photos_loader,
            final(self).wf(),
    {
        if let Step::Ready = self.posts_loader.request(id) {
            return self.post(id);
        }
        if self.posts_loader.is_fetching() {
            return self.post(id);
        }
        let batch = self.posts_loader.take_batch();
        let ghost asked = batch;
        let outcome = query(batch);
        let ghost brought = outcome;
        self.posts_loader.resolve(Ok(PostsLoadFn {}.load(outcome)));
        proof {
            let before = old(self).posts_loader@;
            if before.knows(id) {
                assert(before.pending.contains(id));
            } else {
                assert(before.request(id).pending.last() == id);
            }
            assert(before.request(id).take_batch().in_flight.contains(id));
            assert(call_ensures(query, (asked,), brought));
        }
        self.post(id)
    }

    /// Resolves the photos of the post `post_id` now and gives them, `None`
    /// where they stay unresolved. Photos that are resolved are read from the
    /// cache and `query` is not called. Otherwise `query` is called once, on
    /// the pending identifiers and `post_id`, and the photos it brings resolve
    /// them, each with its own photos: a post for which it brought none, or
    /// any where it failed, has an empty collection. While a batch is in flight
    /// `post_id` is left pending and `query` is not called.
    pub fn load_post_photos<Q>(&mut self, post_id: i32, query: Q) -> (found: Option<Vec<Photo>>)
        where Q: FnOnce(Vec<i32>) -> Result<Vec<Photo>, BackendFailure>
        requires
            old(self).wf(),
            forall|batch: Vec<i32>|
                batch@ == old(self).post_photos_loader@.request(post_id).batch()
                    ==> call_requires(query, (batch,)),
        ensures
            loads_post_photos(
                old(self).post_photos_loader@,
                post_id,
                query,
                final(self).post_photos_loader@,
            ),
            photos_found(final(self).post_photos_loader@.lookup(post_id), found),
            old(self).post_photos_loader@.in_flight.len() == 0 ==> found is Some,
            final(self).posts_loader == old(self).posts_loader,
            final(self).wf(),
    {
        if let Step::Ready = self.post_photos_loader.request(post_id) {
            return self.post_photos(post_id);
        }
        if self.post_photos_loader.is_fetching() {
            proof {
                assert(old(self).post_photos_loader@.in_flight.len() > 0);
            }
            return self.post_photos(post_id);
        }
        let batch = self.post_photos_loader.take_batch();
        let keys = keys_to_vec(batch.as_slice());
        let ghost asked = batch;
        let outcome = query(batch);
        let ghost brought = outcome;
        let grouped = PostPhotosLoadFn {}.load(keys.as_slice(), outcome);
        let ghost fetched = grouped@;
        self.post_photos_loader.resolve(Ok(grouped));
        proof {
            let before = old(self).post_photos_loader@;
            if before.knows(post_id) {
                assert(before.pending.contains(post_id));
            } else {
                assert(before.request(post_id).pending.last() == post_id);
            }
            assert(before.request(post_id).take_batch().in_flight.contains(post_id));
            assert(asked@.contains(post_id));
            assert(call_ensures(query, (asked,), brought));
            assert(groups_photos(fetched, asked@, rows_of(brought)));
            assert(fetched.contains_key(post_id));
        }
        self.post_photos(post_id)
    }

    /// The post `id` as far as the request knows it. A post that the store
    /// does not have is `Missing`: an absent result, no failure.
    pub fn post(&self, id: i32) -> (found: Lookup<Post>)
        ensures
            found == self.posts_loader@.lookup(id),
    {
        match self.posts_loader.get(id) {
            Lookup::Unresolved => Lookup::Unresolved,
            Lookup::Missing => Lookup::Missing,
            Lookup::Found(post) => Lookup::Found(post.clone()),
        }
    }

    /// The photos of the post `post_id`, once its batch is resolved: `None`
    /// before that. A post for which the fetch brought nothing, or whose
    /// fetch failed, has an empty collection, not an absent one.
    pub fn post_photos(&self, post_id: i32) -> (found: Option<Vec<Photo>>)
        ensures
            photos_found(self.post_photos_loader@.lookup(post_id), found),
    {
        match self.post_photos_loader.get(post_id) {
            Lookup::Unresolved => None,
            Lookup::Missing => Some(Vec::new()),
            Lookup::Found(stored) => {
                let mut photos: Vec<Photo> = Vec::new();
                let mut i: usize = 0;
                while i < stored.len()
                    invariant
                        i <= stored@.len(),
                        photos@ == stored@.take(i as int),
                    decreases stored@.len() - i,
                {
                    photos.push(stored[i].clone());
                    proof {
                        assert(stored@.take(i + 1) =~= stored@.take(i as int).push(
                            stored@[i as int],
                        ));
                    }
                    i += 1;
                }
                proof {
                    assert(stored@.take(stored@.len() as int) =~= stored@);
                }
                Some(photos)
            },
        }
    }
}

} // verus!
