//! The `photos` table: a stored row, and the forms that insert and update one.

use crate::text::{slice_text_of, text_of};
use chrono::NaiveDateTime;
use vstd::prelude::*;

verus! {

/// A stored photo. `post_id` names the post that owns it.
#[derive(Debug, PartialEq, Eq)]
pub struct Photo {
    pub id: i32,
    pub name: String,
    pub description: Option<String>,
    pub created_at: NaiveDateTime,
    pub updated_at: NaiveDateTime,
    pub post_id: i32,
}

/// A stored photo as a mathematical value.
pub struct PhotoRow {
    pub id: int,
    pub name: Seq<char>,
    pub description: Option<Seq<char>>,
    pub created_at: NaiveDateTime,
    pub updated_at: NaiveDateTime,
    pub post_id: int,
}

impl View for Photo {
    type V = PhotoRow;

    open spec fn view(&self) -> PhotoRow {
        PhotoRow {
            id: self.id as int,
            name: self.name@,
            description: text_of(self.description),
            created_at: self.created_at,
            updated_at: self.updated_at,
            post_id: self.post_id as int,
        }
    }
}

impl Clone for Photo {
    fn clone(&self) -> (copy: Self)
        ensures
            copy == *self,
    {
        Photo {
            id: self.id,
            name: self.name.clone(),
            description: match &self.description {
                Some(text) => Some(text.clone()),
                None => None,
            },
            created_at: self.created_at,
            updated_at: self.updated_at,
            post_id: self.post_id,
        }
    }
}

/// What is needed to insert a photo.
pub struct PhotoNewForm<'a> {
    pub name: &'a str,
    pub post_id: &'a i32,
    pub description: Option<&'a str>,
}

/// The changes of an update: a field that is `None` is left as it is.
pub struct PhotoUpdateForm<'a> {
    pub name: Option<&'a str>,
    pub description: Option<&'a str>,
}

/// A photo that is to be created, as a mathematical value.
pub struct PhotoDraft {
    pub name: Seq<char>,
    pub post_id: int,
    pub description: Option<Seq<char>>,
}

/// The changes to a photo, as a mathematical value.
pub struct PhotoChanges {
    pub name: Option<Seq<char>>,
    pub description: Option<Seq<char>>,
}

impl<'a> View for PhotoNewForm<'a> {
    type V = PhotoDraft;

    open spec fn view(&self) -> PhotoDraft {
        PhotoDraft {
            name: self.name@,
            post_id: *self.post_id as int,
            description: slice_text_of(self.description),
        }
    }
}

impl<'a> View for PhotoUpdateForm<'a> {
    type V = PhotoChanges;

    open spec fn view(&self) -> PhotoChanges {
        PhotoChanges {
            name: slice_text_of(self.name),
            description: slice_text_of(self.description),
        }
    }
}

} // verus!
