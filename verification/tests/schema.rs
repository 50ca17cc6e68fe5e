use chrono::{NaiveDate, NaiveDateTime};
use juniper::ID;
use photo_blog::db::batch::Lookup;
use photo_blog::db::loaders::BackendFailure;
use photo_blog::db::photo;
use photo_blog::db::photo::{PhotoNewForm, PhotoUpdateForm};
use photo_blog::db::post;
use photo_blog::db::post::{PostNewForm, PostUpdateForm};
use std::cell::Cell;
use photo_blog::graphql::schema::{
    show_photos, show_posts, Context, Mutation, NewPhoto, NewPost, Photo, Post, Query,
    UpdatePhoto, UpdatePost,
};

fn midnight(day: u32) -> NaiveDateTime {
    NaiveDate::from_ymd_opt(2020, 7, day).unwrap().and_hms_opt(0, 0, 0).unwrap()
}

fn stored_post(id: i32, title: &str, content: Option<&str>) -> post::Post {
    post::Post {
        id,
        title: title.to_string(),
        content: content.map(|c| c.to_string()),
        created_at: midnight(1),
        updated_at: midnight(2),
    }
}

fn stored_photo(id: i32, post_id: i32, description: Option<&str>) -> photo::Photo {
    photo::Photo {
        id,
        name: format!("photo {}", id),
        description: description.map(|d| d.to_string()),
        created_at: midnight(3),
        updated_at: midnight(4),
        post_id,
    }
}

fn failure() -> BackendFailure {
    BackendFailure { message: "violates foreign key constraint".to_string() }
}

#[test]
fn a_stored_photo_is_shown_with_its_description() {
    let shown = Photo::from(stored_photo(4, 9, Some("at the lake")));
    assert_eq!(shown.id, 4);
    assert_eq!(shown.post_id, 9);
    assert_eq!(shown.name, "photo 4");
    assert_eq!(shown.description, "at the lake");
}

#[test]
fn a_stored_photo_without_description_is_shown_with_an_empty_one() {
    let shown: Photo = stored_photo(4, 9, None).into();
    assert_eq!(shown.id, 4);
    assert_eq!(shown.post_id, 9);
    assert_eq!(shown.name, "photo 4");
    assert_eq!(shown.description, "");
}

#[test]
fn a_stored_post_is_shown_with_its_content() {
    let shown = Post::from(stored_post(3, "hello", Some("world")));
    assert_eq!(shown.id, 3);
    assert_eq!(shown.title, "hello");
    assert_eq!(shown.content, "world");
}

#[test]
fn a_new_photo_becomes_its_form() {
    let input = NewPhoto { name: "n".to_string(), post_id: 5, description: Some("d".to_string()) };
    let form = PhotoNewForm::from(&input);
    assert_eq!(form.name, "n");
    assert_eq!(*form.post_id, 5);
    assert_eq!(form.description, Some("d"));
    let bare = NewPhoto { name: "m".to_string(), post_id: -1, description: None };
    let form: PhotoNewForm = (&bare).into();
    assert_eq!(form.name, "m");
    assert_eq!(*form.post_id, -1);
    assert_eq!(form.description, None);
}

#[test]
fn a_photo_update_becomes_its_form() {
    let input = UpdatePhoto { name: None, description: Some("d".to_string()) };
    let form = PhotoUpdateForm::from(&input);
    assert_eq!(form.name, None);
    assert_eq!(form.description, Some("d"));
    let input = UpdatePhoto { name: Some("n".to_string()), description: None };
    let form = PhotoUpdateForm::from(&input);
    assert_eq!(form.name, Some("n"));
    assert_eq!(form.description, None);
}

#[test]
fn a_new_post_becomes_its_form() {
    let input = NewPost { title: "t".to_string(), content: Some("c".to_string()) };
    let form = PostNewForm::from(&input);
    assert_eq!(form.title, "t");
    assert_eq!(form.content, Some("c"));
    let bare = NewPost { title: "u".to_string(), content: None };
    let form = PostNewForm::from(&bare);
    assert_eq!(form.title, "u");
    assert_eq!(form.content, None);
}

#[test]
fn a_post_update_becomes_its_form() {
    let input = UpdatePost { title: Some("t".to_string()), content: None };
    let form = PostUpdateForm::from(&input);
    assert_eq!(form.title, Some("t"));
    assert_eq!(form.content, None);
    let input = UpdatePost { title: None, content: Some("c".to_string()) };
    let form = PostUpdateForm::from(&input);
    assert_eq!(form.title, None);
    assert_eq!(form.content, Some("c"));
}

#[test]
fn the_fields_of_a_shown_photo() {
    let shown = Photo::from(stored_photo(42, 7, Some("d")));
    assert_eq!(shown.id(), ID::new("42"));
    assert_eq!(shown.name(), "photo 42");
    assert_eq!(shown.description(), "d");
    assert_eq!(shown.url(), "http://hogehoge/42");
    let copy = shown.clone();
    assert_eq!(copy.id, 42);
    assert_eq!(copy.post_id, 7);
    assert_eq!(copy.name, "photo 42");
    assert_eq!(copy.description, "d");
}

#[test]
fn the_url_and_id_of_photos_with_unusual_identifiers() {
    for (id, text) in [
        (0, "0"),
        (7, "7"),
        (10, "10"),
        (-7, "-7"),
        (1002003, "1002003"),
        (i32::MAX, "2147483647"),
        (i32::MIN, "-2147483648"),
    ] {
        let shown = Photo::from(stored_photo(id, 1, None));
        assert_eq!(shown.url(), format!("http://hogehoge/{}", text));
        assert_eq!(shown.id(), ID::new(text));
    }
}

#[test]
fn the_fields_of_a_shown_post() {
    let shown = Post::from(stored_post(-15, "title", Some("content")));
    assert_eq!(shown.id(), ID::new("-15"));
    assert_eq!(shown.title(), "title");
    assert_eq!(shown.content(), "content");
    let copy = shown.clone();
    assert_eq!(copy.id, -15);
    assert_eq!(copy.title, "title");
    assert_eq!(copy.content, "content");
}

#[test]
fn photos_are_shown_in_their_order() {
    let shown = show_photos(vec![stored_photo(2, 1, None), stored_photo(1, 1, Some("x"))]);
    assert_eq!(shown.len(), 2);
    assert_eq!(shown[0].id, 2);
    assert_eq!(shown[0].description, "");
    assert_eq!(shown[1].id, 1);
    assert_eq!(shown[1].description, "x");
    assert!(show_photos(Vec::new()).is_empty());
}

#[test]
fn posts_are_shown_in_their_order() {
    let shown = show_posts(vec![stored_post(2, "b", Some("")), stored_post(1, "a", Some("c"))]);
    assert_eq!(shown.len(), 2);
    assert_eq!(shown[0].id, 2);
    assert_eq!(shown[0].title, "b");
    assert_eq!(shown[0].content, "");
    assert_eq!(shown[1].id, 1);
    assert_eq!(shown[1].content, "c");
}

#[test]
fn the_queries_show_rows_and_pass_a_failure_on() {
    let photos = Query {}.all_photos(Ok(vec![stored_photo(1, 1, None)])).unwrap();
    assert_eq!(photos.len(), 1);
    assert_eq!(photos[0].id, 1);
    assert_eq!(Query {}.all_photos(Err(failure())).unwrap_err(), failure());
    let posts = Query {}.all_posts(Ok(vec![stored_post(1, "a", Some("b"))])).unwrap();
    assert_eq!(posts.len(), 1);
    assert_eq!(posts[0].title, "a");
    assert_eq!(Query {}.all_posts(Err(failure())).unwrap_err(), failure());
}

#[test]
fn the_mutations_show_rows_and_pass_a_failure_on() {
    let root = Mutation {};
    let photo = root.create_photo(Ok(stored_photo(8, 2, None))).unwrap();
    assert_eq!((photo.id, photo.post_id, photo.description.as_str()), (8, 2, ""));
    assert_eq!(root.create_photo(Err(failure())).unwrap_err(), failure());
    let photo = root.update_photo(Ok(stored_photo(8, 2, Some("new")))).unwrap();
    assert_eq!(photo.description, "new");
    assert_eq!(root.update_photo(Err(failure())).unwrap_err(), failure());
    let posts = root.create_post(Ok(vec![stored_post(1, "a", Some("b"))])).unwrap();
    assert_eq!(posts.len(), 1);
    assert_eq!(root.create_post(Err(failure())).unwrap_err(), failure());
    let post = root.update_post(Ok(stored_post(1, "a2", Some("b2")))).unwrap();
    assert_eq!((post.id, post.title.as_str(), post.content.as_str()), (1, "a2", "b2"));
    assert_eq!(root.update_post(Err(failure())).unwrap_err(), failure());
}

#[test]
fn a_photo_finds_its_post_through_the_loader() {
    let calls = Cell::new(0);
    let mut context = Context::new();
    let with_post = Photo::from(stored_photo(1, 30, None));
    let orphan = Photo::from(stored_photo(2, 31, None));
    context.loaders.posts_loader.request(orphan.post_id);
    let found = with_post.post(&mut context, |keys| {
        calls.set(calls.get() + 1);
        assert_eq!(keys, vec![31, 30]);
        Ok(vec![stored_post(30, "thirty", None)])
    });
    assert_eq!(found, Lookup::Found(stored_post(30, "thirty", None)));
    let missing = orphan.post(&mut context, |_| {
        calls.set(calls.get() + 1);
        Ok(vec![stored_post(31, "late", None)])
    });
    assert_eq!(missing, Lookup::Missing);
    let again = with_post.post(&mut context, |_| {
        calls.set(calls.get() + 1);
        Err(failure())
    });
    assert_eq!(again, Lookup::Found(stored_post(30, "thirty", None)));
    assert_eq!(calls.get(), 1);
}

#[test]
fn a_photo_of_a_failed_query_has_no_post() {
    let mut context = Context::new();
    let photo = Photo::from(stored_photo(1, 30, None));
    assert_eq!(photo.post(&mut context, |_| Err(failure())), Lookup::Missing);
}

#[test]
fn a_post_finds_its_photos_through_the_loader() {
    let calls = Cell::new(0);
    let mut context = Context::new();
    let with_photos = Post::from(stored_post(1, "a", Some("")));
    let without = Post::from(stored_post(2, "b", Some("")));
    context.loaders.post_photos_loader.request(2);
    let shown = with_photos
        .photos(&mut context, |keys| {
            calls.set(calls.get() + 1);
            assert_eq!(keys, vec![2, 1]);
            Ok(vec![stored_photo(10, 1, None), stored_photo(11, 1, Some("d"))])
        })
        .unwrap();
    assert_eq!(shown.len(), 2);
    assert_eq!((shown[0].id, shown[0].description.as_str()), (10, ""));
    assert_eq!((shown[1].id, shown[1].description.as_str()), (11, "d"));
    let none = without
        .photos(&mut context, |_| {
            calls.set(calls.get() + 1);
            Ok(vec![stored_photo(12, 2, None)])
        })
        .unwrap();
    assert_eq!(none.len(), 0);
    assert_eq!(calls.get(), 1);
}

#[test]
fn a_post_of_a_failed_query_has_an_empty_collection() {
    let mut context = Context::new();
    let post = Post::from(stored_post(1, "a", Some("")));
    assert_eq!(post.photos(&mut context, |_| Err(failure())).unwrap().len(), 0);
}

#[test]
fn a_resolver_waits_while_a_batch_is_in_flight() {
    let mut context = Context::new();
    context.loaders.posts_loader.request(1);
    context.loaders.posts_loader.take_batch();
    context.loaders.post_photos_loader.request(1);
    context.loaders.post_photos_loader.take_batch();
    let photo = Photo::from(stored_photo(1, 30, None));
    assert_eq!(photo.post(&mut context, |_| Ok(Vec::new())), Lookup::Unresolved);
    let post = Post::from(stored_post(2, "b", Some("")));
    assert!(post.photos(&mut context, |_| Ok(Vec::new())).is_none());
}
