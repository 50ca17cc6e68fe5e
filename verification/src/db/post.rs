//! The `posts` table: a stored row, and the forms that insert and update one.

use crate::text::{slice_text_of, text_of};
use chrono::NaiveDateTime;
use vstd::prelude::*;

verus! {

/// `chrono::NaiveDateTime`: a timestamp of a stored row. Nothing here looks
/// inside one; it is carried from the row to whoever asked for it.
#[verifier::external_type_specification]
#[verifier::external_body]
pub struct ExNaiveDateTime(chrono::NaiveDateTime);

/// A stored post.
#[derive(Debug, PartialEq, Eq)]
pub struct Post {
    pub id: i32,
    pub title: String,
    pub content: Option<String>,
    pub created_at: NaiveDateTime,
    pub updated_at: NaiveDateTime,
}

/// A stored post as a mathematical value.
pub struct PostRow {
    pub id: int,
    pub title: Seq<char>,
    pub content: Option<Seq<char>>,
    pub created_at: NaiveDateTime,
    pub updated_at: NaiveDateTime,
}

impl View for Post {
    type V = PostRow;

    open spec fn view(&self) -> PostRow {
        PostRow {
            id: self.id as int,
            title: self.title@,
            content: text_of(self.content),
            created_at: self.created_at,
            updated_at: self.updated_at,
        }
    }
}

impl Clone for Post {
    fn clone(&self) -> (copy: Self)
        ensures
            copy == *self,
    {
        Post {
            id: self.id,
            title: self.title.clone(),
            content: match &self.content {
                Some(text) => Some(text.clone()),
                None => None,
            },
            created_at: self.created_at,
            updated_at: self.updated_at,
        }
    }
}

/// What is needed to insert a post.
pub struct PostNewForm<'a> {
    pub title: &'a str,
    pub content: Option<&'a str>,
}

/// The changes of an update: a field that is `None` is left as it is.
pub struct PostUpdateForm<'a> {
    pub title: Option<&'a str>,
    pub content: Option<&'a str>,
}

/// A post that is to be created, as a mathematical value.
pub struct PostDraft {
    pub title: Seq<char>,
    pub content: Option<Seq<char>>,
}

/// The changes to a post, as a mathematical value.
pub struct PostChanges {
    pub title: Option<Seq<char>>,
    pub content: Option<Seq<char>>,
}

impl<'a> View for PostNewForm<'a> {
    type V = PostDraft;

    open spec fn view(&self) -> PostDraft {
        PostDraft { title: self.title@, content: slice_text_of(self.content) }
    }
}

impl<'a> View for PostUpdateForm<'a> {
    type V = PostChanges;

    open spec fn view(&self) -> PostChanges {
        PostChanges { title: slice_text_of(self.title), content: slice_text_of(self.content) }
    }
}

/// A post reduced to its identifier, as the parent that photos are grouped by.
#[derive(Debug, Clone, Copy, PartialEq, Eq, Structural)]
pub struct AssocPost {
    pub id: i32,
}

} // verus!
