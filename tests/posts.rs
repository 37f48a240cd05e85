use blogrs::model::Timestamp;
use blogrs::post::{
    contains_text, is_duplicate_key, merge_post_update, new_post, page_window, write_failure,
    CreatePostSchema, FilterOptions, PageWindow, PostError, PostModel, PostOperation, UpdatePostSchema,
};

fn stored_post(category_id: Option<i32>) -> PostModel {
    PostModel {
        id: 3,
        title: "Old title".into(),
        slug: "old-title".into(),
        user_id: Some(1),
        excerpt: "old excerpt".into(),
        content: "old content".into(),
        category_id,
        created_at: Some(Timestamp { secs: 1, nanos: 0 }),
        updated_at: None,
    }
}

#[test]
fn listing_defaults_to_first_ten() {
    assert_eq!(page_window(&FilterOptions { page: None, limit: None }), Some(PageWindow { limit: 10, offset: 0 }));
}

#[test]
fn listing_third_page_of_five() {
    assert_eq!(page_window(&FilterOptions { page: Some(3), limit: Some(5) }), Some(PageWindow { limit: 5, offset: 10 }));
    assert_eq!(page_window(&FilterOptions { page: Some(2), limit: None }), Some(PageWindow { limit: 10, offset: 10 }));
}

#[test]
fn listing_page_zero_is_refused() {
    assert_eq!(page_window(&FilterOptions { page: Some(0), limit: Some(5) }), None);
}

#[test]
fn listing_out_of_range_is_refused() {
    assert_eq!(page_window(&FilterOptions { page: Some(usize::MAX), limit: Some(usize::MAX) }), None);
    assert_eq!(page_window(&FilterOptions { page: Some(1), limit: Some(usize::MAX) }), None);
    assert_eq!(page_window(&FilterOptions { page: Some(1), limit: Some(i64::MAX as usize) }), Some(PageWindow { limit: i64::MAX, offset: 0 }));
}

#[test]
fn update_replaces_only_given_fields() {
    let post = stored_post(Some(4));
    let c = merge_post_update(&post, UpdatePostSchema { title: Some("New".into()), slug: None, excerpt: None, content: Some("body".into()), category_id: None });
    assert_eq!(c.title, "New");
    assert_eq!(c.slug, "old-title");
    assert_eq!(c.excerpt, "old excerpt");
    assert_eq!(c.content, "body");
    assert_eq!(c.category_id, 4);
}

#[test]
fn update_category_falls_back_to_default() {
    let post = stored_post(None);
    let empty = UpdatePostSchema { title: None, slug: None, excerpt: None, content: None, category_id: None };
    assert_eq!(merge_post_update(&post, empty).category_id, 1);
    let given = UpdatePostSchema { title: None, slug: None, excerpt: None, content: None, category_id: Some(9) };
    assert_eq!(merge_post_update(&post, given).category_id, 9);
}

#[test]
fn creation_defaults_category_and_author() {
    let p = new_post(CreatePostSchema { title: "T".into(), slug: "t".into(), user_id: Some(42), excerpt: "e".into(), content: "c".into(), category_id: None });
    assert_eq!((p.title.as_str(), p.slug.as_str(), p.excerpt.as_str(), p.content.as_str()), ("T", "t", "e", "c"));
    assert_eq!(p.category_id, 1);
    assert_eq!(p.user_id, 1);
    let q = new_post(CreatePostSchema { title: "T".into(), slug: "t".into(), user_id: None, excerpt: "e".into(), content: "c".into(), category_id: Some(2) });
    assert_eq!(q.category_id, 2);
}

#[test]
fn duplicate_key_is_recognised() {
    let msg = "error returned from database: duplicate key value violates unique constraint \"post_slug_key\"";
    assert!(is_duplicate_key(msg));
    assert!(!is_duplicate_key("error returned from database: relation \"post\" does not exist"));
    assert!(!is_duplicate_key(""));
    assert!(matches!(write_failure(PostOperation::Create, msg), PostError::SlugTaken));
    assert!(matches!(write_failure(PostOperation::Update, "timeout"), PostError::Store(PostOperation::Update)));
}

#[test]
fn substring_search() {
    assert!(contains_text("abcabd", "abd"));
    assert!(contains_text("abc", ""));
    assert!(contains_text("abc", "abc"));
    assert!(!contains_text("ab", "abc"));
    assert!(!contains_text("aXbXc", "abc"));
    assert!(contains_text("ünïcödé text", "cöd"));
}

#[test]
fn post_error_responses() {
    let nf = PostError::NotFound("my-slug".into());
    assert_eq!(nf.status_code(), 404);
    assert_eq!(nf.message(), "Post item with slug: my-slug not found");
    let detail = PostError::DetailNotFound("my-slug".into());
    assert_eq!(detail.status_code(), 404);
    assert_eq!(detail.message(), "Post item with Slug: my-slug not found");
    assert_eq!(PostError::InvalidPage.status_code(), 400);
    assert_eq!(PostError::InvalidPage.message(), "Invalid page or limit");
    assert_eq!(PostError::SlugTaken.status_code(), 409);
    assert_eq!(PostError::SlugTaken.message(), "Post with that slug already exists");
    assert_eq!(PostError::Store(PostOperation::Fetch).status_code(), 500);
    assert_eq!(PostError::Store(PostOperation::Fetch).message(), "Something bad happened while fetching all note items");
    assert_eq!(PostError::Store(PostOperation::Create).message(), "Something bad happened while creating the post");
    assert_eq!(PostError::Store(PostOperation::Update).message(), "Something bad happened while updating the post");
    assert_eq!(PostError::Store(PostOperation::Delete).message(), "Something bad happened while deleting the post");
}
