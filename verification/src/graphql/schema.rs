//! The objects and inputs of the schema, and how stored rows become objects
//! and inputs become forms.

use crate::db::batch::Lookup;
use crate::db::loaders::{loads_post, loads_post_photos, BackendFailure, Loaders};
use crate::db::photo;
use crate::db::photo::{PhotoChanges, PhotoDraft, PhotoRow};
use crate::db::post;
use crate::db::post::{PostChanges, PostDraft, PostRow};
use crate::text::{decimal, decimal_string, text_of};
use juniper::ID;
use vstd::prelude::*;
use vstd::std_specs::convert::FromSpecImpl;

verus! {

/// `juniper::ID`: a GraphQL identifier, a string in a type of its own.
#[verifier::external_type_specification]
#[verifier::external_body]
pub struct ExID(juniper::ID);

/// The identifier that `juniper::ID::new` makes of a text.
pub uninterp spec fn id_of(text: Seq<char>) -> ID;

/// `juniper::ID::new`, which wraps the string it is given and does nothing
/// else: the same text gives the same identifier.
#[verifier::external_body]
fn new_id(text: String) -> (id: ID)
    ensures
        id == id_of(text@),
{
    ID::new(text)
}

/// A photo as the schema shows it.
#[derive(Debug)]
pub struct Photo {
    pub id: i32,
    pub post_id: i32,
    pub name: String,
    pub description: String,
}

/// The input that creates a photo.
pub struct NewPhoto {
    pub name: String,
    pub post_id: i32,
    pub description: Option<String>,
}

/// The input that updates a photo: a field that is absent is left as it is.
pub struct UpdatePhoto {
    pub name: Option<String>,
    pub description: Option<String>,
}

/// A post as the schema shows it.
#[derive(Debug)]
pub struct Post {
    pub id: i32,
    pub title: String,
    pub content: String,
}

/// The input that creates a post.
pub struct NewPost {
    pub title: String,
    pub content: Option<String>,
}

/// The input that updates a post: a field that is absent is left as it is.
pub struct UpdatePost {
    pub title: Option<String>,
    pub content: Option<String>,
}

/// A shown photo as a mathematical value.
pub struct ShownPhoto {
    pub id: int,
    pub post_id: int,
    pub name: Seq<char>,
    pub description: Seq<char>,
}

/// A shown post as a mathematical value.
pub struct ShownPost {
    pub id: int,
    pub title: Seq<char>,
    pub content: Seq<char>,
}

impl View for Photo {
    type V = ShownPhoto;

    open spec fn view(&self) -> ShownPhoto {
        ShownPhoto {
            id: self.id as int,
            post_id: self.post_id as int,
            name: self.name@,
            description: self.description@,
        }
    }
}

impl View for Post {
    type V = ShownPost;

    open spec fn view(&self) -> ShownPost {
        ShownPost { id: self.id as int, title: self.title@, content: self.content@ }
    }
}

impl View for NewPhoto {
    type V = PhotoDraft;

    open spec fn view(&self) -> PhotoDraft {
        PhotoDraft {
            name: self.name@,
            post_id: self.post_id as int,
            description: text_of(self.description),
        }
    }
}

impl View for UpdatePhoto {
    type V = PhotoChanges;

    open spec fn view(&self) -> PhotoChanges {
        PhotoChanges { name: text_of(self.name), description: text_of(self.description) }
    }
}

impl View for NewPost {
    type V = PostDraft;

    open spec fn view(&self) -> PostDraft {
        PostDraft { title: self.title@, content: text_of(self.content) }
    }
}

impl View for UpdatePost {
    type V = PostChanges;

    open spec fn view(&self) -> PostChanges {
        PostChanges { title: text_of(self.title), content: text_of(self.content) }
    }
}

impl PhotoRow {
    /// What the schema shows of a stored photo: a photo without a
    /// description is shown with an empty one.
    pub open spec fn shown(self) -> ShownPhoto {
        ShownPhoto {
            id: self.id,
            post_id: self.post_id,
            name: self.name,
            description: match self.description {
                Some(text) => text,
                None => Seq::empty(),
            },
        }
    }
}

impl PostRow {
    /// What the schema shows of a stored post that has a content.
    pub open spec fn shown(self) -> ShownPost
        recommends
            self.content is Some,
    {
        ShownPost { id: self.id, title: self.title, content: self.content->Some_0 }
    }
}

/// What the schema shows of each of `rows`, in their order.
pub open spec fn shown_photos(rows: Seq<photo::Photo>) -> Seq<ShownPhoto> {
    Seq::new(rows.len(), |i: int| rows[i]@.shown())
}

/// What the schema shows of each of `rows`, in their order.
pub open spec fn shown_posts(rows: Seq<post::Post>) -> Seq<ShownPost> {
    Seq::new(rows.len(), |i: int| rows[i]@.shown())
}

/// The photos of `shown` as mathematical values.
pub open spec fn photo_views(shown: Seq<Photo>) -> Seq<ShownPhoto> {
    Seq::new(shown.len(), |i: int| shown[i]@)
}

/// The posts of `shown` as mathematical values.
pub open spec fn post_views(shown: Seq<Post>) -> Seq<ShownPost> {
    Seq::new(shown.len(), |i: int| shown[i]@)
}

/// Every one of `rows` has a content.
pub open spec fn all_have_content(rows: Seq<post::Post>) -> bool {
    forall|i: int| 0 <= i < rows.len() ==> (#[trigger] rows[i]).content is Some
}

impl Clone for Photo {
    fn clone(&self) -> (copy: Self)
        ensures
            copy == *self,
    {
        Photo {
            id: self.id,
            post_id: self.post_id,
            name: self.name.clone(),
            description: self.description.clone(),
        }
    }
}

impl Clone for Post {
    fn clone(&self) -> (copy: Self)
        ensures
            copy == *self,
    {
        Post { id: self.id, title: self.title.clone(), content: self.content.clone() }
    }
}

impl From<photo::Photo> for Photo {
    /// The stored photo as the schema shows it.
    fn from(photo: photo::Photo) -> (shown: Self)
        ensures
            shown@ == photo@.shown(),
    {
        Self {
            id: photo.id,
            post_id: photo.post_id,
            name: photo.name,
            description: match photo.description {
                Some(text) => text,
                None => String::new(),
            },
        }
    }
}

/// `from` states its result itself, over the views of both sides.
impl FromSpecImpl<photo::Photo> for Photo {
    open spec fn obeys_from_spec() -> bool {
        false
    }

    open spec fn from_spec(photo: photo::Photo) -> Self {
        arbitrary()
    }
}

impl<'a> From<&'a NewPhoto> for photo::PhotoNewForm<'a> {
    /// The form that inserts what the input describes.
    fn from(new_photo: &'a NewPhoto) -> (form: Self)
        ensures
            form@ == new_photo@,
    {
        Self {
            name: new_photo.name.as_str(),
            post_id: &new_photo.post_id,
            description: match &new_photo.description {
                Some(text) => Some(text.as_str()),
                None => None,
            },
        }
    }
}

/// `from` states its result itself, over the views of both sides.
impl<'a> FromSpecImpl<&'a NewPhoto> for photo::PhotoNewForm<'a> {
    open spec fn obeys_from_spec() -> bool {
        false
    }

    open spec fn from_spec(new_photo: &'a NewPhoto) -> Self {
        arbitrary()
    }
}

impl<'a> From<&'a UpdatePhoto> for photo::PhotoUpdateForm<'a> {
    /// The form that makes the changes the input describes.
    fn from(update_photo: &'a UpdatePhoto) -> (form: Self)
        ensures
            form@ == update_photo@,
    {
        Self {
            name: match &update_photo.name {
                Some(text) => Some(text.as_str()),
                None => None,
            },
            description: match &update_photo.description {
                Some(text) => Some(text.as_str()),
                None => None,
            },
        }
    }
}

/// `from` states its result itself, over the views of both sides.
impl<'a> FromSpecImpl<&'a UpdatePhoto> for photo::PhotoUpdateForm<'a> {
    open spec fn obeys_from_spec() -> bool {
        false
    }

    open spec fn from_spec(update_photo: &'a UpdatePhoto) -> Self {
        arbitrary()
    }
}

impl<'a> From<&'a NewPost> for post::PostNewForm<'a> {
    /// The form that inserts what the input describes.
    fn from(new_post: &'a NewPost) -> (form: Self)
        ensures
            form@ == new_post@,
    {
        Self {
            title: new_post.title.as_str(),
            content: match &new_post.content {
                Some(text) => Some(text.as_str()),
                None => None,
            },
        }
    }
}

/// `from` states its result itself, over the views of both sides.
impl<'a> FromSpecImpl<&'a NewPost> for post::PostNewForm<'a> {
    open spec fn obeys_from_spec() -> bool {
        false
    }

    open spec fn from_spec(new_post: &'a NewPost) -> Self {
        arbitrary()
    }
}

impl<'a> From<&'a UpdatePost> for post::PostUpdateForm<'a> {
    /// The form that makes the changes the input describes.
    fn from(update_post: &'a UpdatePost) -> (form: Self)
        ensures
            form@ == update_post@,
    {
        Self {
            title: match &update_post.title {
                Some(text) => Some(text.as_str()),
                None => None,
            },
            content: match &update_post.content {
                Some(text) => Some(text.as_str()),
                None => None,
            },
        }
    }
}

/// `from` states its result itself, over the views of both sides.
impl<'a> FromSpecImpl<&'a UpdatePost> for post::PostUpdateForm<'a> {
    open spec fn obeys_from_spec() -> bool {
        false
    }

    open spec fn from_spec(update_post: &'a UpdatePost) -> Self {
        arbitrary()
    }
}

/// What the resolvers of one request share: the request's loaders.
pub struct Context {
    pub loaders: Loaders,
}

impl Context {
    /// The context of a request that has asked for nothing yet.
    pub fn new() -> (context: Context)
        ensures
            context.loaders.is_fresh(),
            context.loaders.wf(),
    {
        Context { loaders: Loaders::new() }
    }
}

/// The stored photos as the schema shows them, in their order.
pub fn show_photos(rows: Vec<photo::Photo>) -> (shown: Vec<Photo>)
    ensures
        photo_views(shown@) == shown_photos(rows@),
{
    let ghost all = rows@;
    let mut shown: Vec<Photo> = Vec::new();
    for row in it: rows
        invariant
            it.seq() == all,
            shown@.len() == it.index(),
            forall|i: int| 0 <= i < it.index() ==> (#[trigger] shown@[i])@ == all[i]@.shown(),
    {
        shown.push(Photo::from(row));
    }
    proof {
        assert(photo_views(shown@) =~= shown_photos(all));
    }
    shown
}

/// The stored posts as the schema shows them, in their order.
pub fn show_posts(rows: Vec<post::Post>) -> (shown: Vec<Post>)
    requires
        all_have_content(rows@),
    ensures
        post_views(shown@) == shown_posts(rows@),
{
    let ghost all = rows@;
    let mut shown: Vec<Post> = Vec::new();
    for row in it: rows
        invariant
            it.seq() == all,
            all_have_content(all),
            shown@.len() == it.index(),
            forall|i: int| 0 <= i < it.index() ==> (#[trigger] shown@[i])@ == all[i]@.shown(),
    {
        assert(all[it.index() as int].content is Some);
        shown.push(Post::from(row));
    }
    proof {
        assert(post_views(shown@) =~= shown_posts(all));
    }
    shown
}

impl Photo {
    /// The photo's identifier as a GraphQL `ID`: the number in decimal.
    pub fn id(&self) -> (id: ID)
        ensures
            id == id_of(decimal(self.id as int)),
    {
        new_id(decimal_string(self.id))
    }

    /// The photo's name.
    pub fn name(&self) -> (name: String)
        ensures
            name == self.name,
    {
        self.name.clone()
    }

    /// The photo's description, empty where it has none.
    pub fn description(&self) -> (description: String)
        ensures
            description == self.description,
    {
        self.description.clone()
    }

    /// Where the photo can be had from: the address of the photo host with
    /// the photo's identifier, in decimal, behind it.
    pub fn url(&self) -> (url: String)
        ensures
            url@ == "http://hogehoge/"@ + decimal(self.id as int),
    {
        String::from_str("http://hogehoge/").concat(decimal_string(self.id).as_str())
    }

    /// The stored post that owns this photo, resolved through the request's
    /// loader: see `Loaders::load_post`. A post that the store does not have
    /// is `Missing`, no failure.
    pub fn post<Q>(&self, context: &mut Context, query: Q) -> (found: Lookup<post::Post>)
        where Q: FnOnce(Vec<i32>) -> Result<Vec<post::Post>, BackendFailure>
        requires
            old(context).loaders.wf(),
            forall|batch: Vec<i32>|
                batch@ == old(context).loaders.posts_loader@.request(self.post_id).batch()
                    ==> call_requires(query, (batch,)),
        ensures
            loads_post(
                old(context).loaders.posts_loader@,
                self.post_id,
                query,
                final(context).loaders.posts_loader@,
            ),
            found == final(context).loaders.posts_loader@.lookup(self.post_id),
            old(context).loaders.posts_loader@.in_flight.len() == 0 ==> !(found is Unresolved),
            final(context).loaders.post_photos_loader == old(context).loaders.post_photos_loader,
            final(context).loaders.wf(),
    {
        context.loaders.load_post(self.post_id, query)
    }
}

impl Post {
    /// The stored post as the schema shows it. The schema shows no post
    /// without a content.
    pub fn from(post: post::Post) -> (shown: Self)
        requires
            post.content is Some,
        ensures
            shown@ == post@.shown(),
    {
        Self { id: post.id, title: post.title, content: post.content.unwrap() }
    }

    /// The post's identifier as a GraphQL `ID`: the number in decimal.
    pub fn id(&self) -> (id: ID)
        ensures
            id == id_of(decimal(self.id as int)),
    {
        new_id(decimal_string(self.id))
    }

    /// The post's title.
    pub fn title(&self) -> (title: String)
        ensures
            title == self.title,
    {
        self.title.clone()
    }

    /// The post's content.
    pub fn content(&self) -> (content: String)
        ensures
            content == self.content,
    {
        self.content.clone()
    }

    /// The photos of this post as the schema shows them, resolved through
    /// the request's loader: see `Loaders::load_post_photos`. A post without
    /// photos has an empty collection. The result is `None` only while the
    /// photos stay unresolved because an earlier batch is in flight.
    pub fn photos<Q>(&self, context: &mut Context, query: Q) -> (found: Option<Vec<Photo>>)
        where Q: FnOnce(Vec<i32>) -> Result<Vec<photo::Photo>, BackendFailure>
        requires
            old(context).loaders.wf(),
            forall|batch: Vec<i32>|
                batch@ == old(context).loaders.post_photos_loader@.request(self.id).batch()
                    ==> call_requires(query, (batch,)),
        ensures
            loads_post_photos(
                old(context).loaders.post_photos_loader@,
                self.id,
                query,
                final(context).loaders.post_photos_loader@,
            ),
            match final(context).loaders.post_photos_loader@.lookup(self.id) {
                Lookup::Unresolved => found is None,
                Lookup::Missing => found matches Some(shown) && shown@.len() == 0,
                Lookup::Found(rows) => found matches Some(shown) && photo_views(shown@)
                    == shown_photos(rows@),
            },
            old(context).loaders.post_photos_loader@.in_flight.len() == 0 ==> found is Some,
            final(context).loaders.posts_loader == old(context).loaders.posts_loader,
            final(context).loaders.wf(),
    {
        match context.loaders.load_post_photos(self.id, query) {
            None => None,
            Some(rows) => {
                let shown = show_photos(rows);
                assert(photo_views(shown@).len() == shown@.len());
                Some(shown)
            },
        }
    }
}

/// The root of the queries.
pub struct Query {}

/// The root of the mutations.
pub struct Mutation {}

impl Query {
    /// Every photo of the store as the schema shows it, or the failure of the
    /// query that was to list them.
    pub fn all_photos(&self, fetched: Result<Vec<photo::Photo>, BackendFailure>) -> (shown: Result<
        Vec<Photo>,
        BackendFailure,
    >)
        ensures
            match fetched {
                Ok(rows) => shown matches Ok(photos) && photo_views(photos@) == shown_photos(
                    rows@,
                ),
                Err(failure) => shown == Err::<Vec<Photo>, BackendFailure>(failure),
            },
    {
        match fetched {
            Ok(rows) => Ok(show_photos(rows)),
            Err(failure) => Err(failure),
        }
    }

    /// Every post of the store as the schema shows it, or the failure of the
    /// query that was to list them.
    pub fn all_posts(&self, fetched: Result<Vec<post::Post>, BackendFailure>) -> (shown: Result<
        Vec<Post>,
        BackendFailure,
    >)
        requires
            fetched matches Ok(rows) ==> all_have_content(rows@),
        ensures
            match fetched {
                Ok(rows) => shown matches Ok(posts) && post_views(posts@) == shown_posts(rows@),
                Err(failure) => shown == Err::<Vec<Post>, BackendFailure>(failure),
            },
    {
        match fetched {
            Ok(rows) => Ok(show_posts(rows)),
            Err(failure) => Err(failure),
        }
    }
}

impl Mutation {
    /// The photo that was inserted as the schema shows it, or the failure of
    /// the insert.
    pub fn create_photo(&self, inserted: Result<photo::Photo, BackendFailure>) -> (shown: Result<
        Photo,
        BackendFailure,
    >)
        ensures
            match inserted {
                Ok(row) => shown matches Ok(photo) && photo@ == row@.shown(),
                Err(failure) => shown == Err::<Photo, BackendFailure>(failure),
            },
    {
        match inserted {
            Ok(row) => Ok(Photo::from(row)),
            Err(failure) => Err(failure),
        }
    }

    /// The photo that was updated as the schema shows it, or the failure of
    /// the update.
    pub fn update_photo(&self, updated: Result<photo::Photo, BackendFailure>) -> (shown: Result<
        Photo,
        BackendFailure,
    >)
        ensures
            match updated {
                Ok(row) => shown matches Ok(photo) && photo@ == row@.shown(),
                Err(failure) => shown == Err::<Photo, BackendFailure>(failure),
            },
    {
        match updated {
            Ok(row) => Ok(Photo::from(row)),
            Err(failure) => Err(failure),
        }
    }

    /// Every post of the store after the insert, as the schema shows it, or
    /// the failure of the insert.
    pub fn create_post(&self, listed: Result<Vec<post::Post>, BackendFailure>) -> (shown: Result<
        Vec<Post>,
        BackendFailure,
    >)
        requires
            listed matches Ok(rows) ==> all_have_content(rows@),
        ensures
            match listed {
                Ok(rows) => shown matches Ok(posts) && post_views(posts@) == shown_posts(rows@),
                Err(failure) => shown == Err::<Vec<Post>, BackendFailure>(failure),
            },
    {
        match listed {
            Ok(rows) => Ok(show_posts(rows)),
            Err(failure) => Err(failure),
        }
    }

    /// The post that was updated as the schema shows it, or the failure of
    /// the update.
    pub fn update_post(&self, updated: Result<post::Post, BackendFailure>) -> (shown: Result<
        Post,
        BackendFailure,
    >)
        requires
            updated matches Ok(row) ==> row.content is Some,
        ensures
            match updated {
                Ok(row) => shown matches Ok(post) && post@ == row@.shown(),
                Err(failure) => shown == Err::<Post, BackendFailure>(failure),
            },
    {
        match updated {
            Ok(row) => Ok(Post::from(row)),
            Err(failure) => Err(failure),
        }
    }
}

} // verus!
