//! Records and request shapes of posts and categories, and the computable parts of the post
//! handlers: the page window of a listing, the merge of a partial update, and the reading of a
//! store failure.
use vstd::prelude::*;
use vstd::string::{StrSliceExecFns, StringExecFns};

use crate::model::{same_text, Timestamp};

verus! {

/// A post as the store holds it.
#[derive(Clone, Debug)]
pub struct PostModel {
    pub id: i32,
    pub title: String,
    pub slug: String,
    pub user_id: Option<i32>,
    pub excerpt: String,
    pub content: String,
    pub category_id: Option<i32>,
    pub created_at: Option<Timestamp>,
    pub updated_at: Option<Timestamp>,
}

/// A post in the earlier layout of the table, with the author and category by name.
#[derive(Clone, Debug)]
pub struct Post {
    pub id: i32,
    pub title: String,
    pub author: String,
    pub content: String,
    pub category: Option<String>,
    pub published: Option<bool>,
    pub created_at: Option<Timestamp>,
    pub updated_at: Option<Timestamp>,
}

/// A category of posts.
#[derive(Clone, Debug)]
pub struct CategoryModel {
    pub id: i32,
    pub name: String,
}

/// The query of a listing: the page (from 1) and the page size.
#[derive(Clone, Debug)]
pub struct FilterOptions {
    pub page: Option<usize>,
    pub limit: Option<usize>,
}

/// The path parameters that name a post.
#[derive(Clone, Debug)]
pub struct ParamOptions {
    pub id: Option<i32>,
    pub slug: Option<String>,
}

/// A post in a listing: everything but the content.
#[derive(Clone, Debug)]
pub struct FetchAllPostSchema {
    pub id: i32,
    pub title: String,
    pub slug: String,
    pub user_id: Option<i32>,
    pub excerpt: String,
    pub category_id: Option<i32>,
    pub created_at: Option<Timestamp>,
    pub updated_at: Option<Timestamp>,
}

/// The body of a post creation.
#[derive(Clone, Debug)]
pub struct CreatePostSchema {
    pub title: String,
    pub slug: String,
    pub user_id: Option<i32>,
    pub excerpt: String,
    pub content: String,
    pub category_id: Option<i32>,
}

/// The body of a partial post update: each field present replaces the stored one.
#[derive(Clone, Debug)]
pub struct UpdatePostSchema {
    pub title: Option<String>,
    pub slug: Option<String>,
    pub excerpt: Option<String>,
    pub content: Option<String>,
    pub category_id: Option<i32>,
}

/// Page size of a listing that names none.
pub const DEFAULT_PAGE_LIMIT: usize = 10;

/// Category of a post that names none.
pub const DEFAULT_CATEGORY_ID: i32 = 1;

/// Account that new posts are attributed to.
pub const DEFAULT_AUTHOR_ID: i32 = 1;

/// The rows a listing asks the store for.
#[derive(Clone, Copy, Debug, PartialEq, Eq, Structural)]
pub struct PageWindow {
    pub limit: i64,
    pub offset: i64,
}

pub open spec fn or_default(o: Option<usize>, d: usize) -> int {
    match o {
        Some(v) => v as int,
        None => d as int,
    }
}

/// The window of page `page` (from 1) with `limit` rows a page, defaults filled in: rows
/// `(page - 1) * limit` onwards. None for page 0, or where the numbers leave the store's range.
pub open spec fn window_of(opts: FilterOptions) -> Option<(int, int)> {
    let limit = or_default(opts.limit, DEFAULT_PAGE_LIMIT);
    let page = or_default(opts.page, 1);
    if page == 0 || limit > i64::MAX || (page - 1) * limit > i64::MAX {
        None
    } else {
        Some((limit, (page - 1) * limit))
    }
}

/// The window of rows that a listing fetches.
pub fn page_window(opts: &FilterOptions) -> (r: Option<PageWindow>)
    ensures
        match r {
            Some(w) => window_of(*opts) == Some((w.limit as int, w.offset as int)),
            None => window_of(*opts) is None,
        },
{
    let limit: usize = match opts.limit {
        Some(l) => l,
        None => DEFAULT_PAGE_LIMIT,
    };
    let page: usize = match opts.page {
        Some(p) => p,
        None => 1,
    };
    if page == 0 || limit as u64 > i64::MAX as u64 {
        return None;
    }
    match ((page - 1) as u64).checked_mul(limit as u64) {
        None => None,
        Some(offset) => {
            if offset > i64::MAX as u64 {
                None
            } else {
                Some(PageWindow { limit: limit as i64, offset: offset as i64 })
            }
        },
    }
}

/// The fields an update writes back.
#[derive(Clone, Debug)]
pub struct PostChanges {
    pub title: String,
    pub slug: String,
    pub excerpt: String,
    pub content: String,
    pub category_id: i32,
}

pub open spec fn text_or(o: Option<String>, d: String) -> Seq<char> {
    match o {
        Some(s) => s@,
        None => d@,
    }
}

/// What an update writes: each field given replaces the stored one; a post without a category
/// falls back to the default category.
pub open spec fn is_merged(c: PostChanges, post: PostModel, update: UpdatePostSchema) -> bool {
    &&& c.title@ == text_or(update.title, post.title)
    &&& c.slug@ == text_or(update.slug, post.slug)
    &&& c.excerpt@ == text_or(update.excerpt, post.excerpt)
    &&& c.content@ == text_or(update.content, post.content)
    &&& c.category_id == match update.category_id {
        Some(id) => id,
        None => match post.category_id {
            Some(id) => id,
            None => DEFAULT_CATEGORY_ID,
        },
    }
}

fn text_or_clone(o: Option<String>, d: &String) -> (r: String)
    ensures
        r@ == text_or(o, *d),
{
    match o {
        Some(s) => s,
        None => d.clone(),
    }
}

/// Merges a partial update into the stored post.
pub fn merge_post_update(post: &PostModel, update: UpdatePostSchema) -> (r: PostChanges)
    ensures
        is_merged(r, *post, update),
{
    let category_id = match update.category_id {
        Some(id) => id,
        None => match post.category_id {
            Some(id) => id,
            None => DEFAULT_CATEGORY_ID,
        },
    };
    PostChanges {
        title: text_or_clone(update.title, &post.title),
        slug: text_or_clone(update.slug, &post.slug),
        excerpt: text_or_clone(update.excerpt, &post.excerpt),
        content: text_or_clone(update.content, &post.content),
        category_id,
    }
}

/// A post ready to be inserted.
#[derive(Clone, Debug)]
pub struct NewPost {
    pub title: String,
    pub slug: String,
    pub excerpt: String,
    pub content: String,
    pub category_id: i32,
    pub user_id: i32,
}

/// The post to insert for a creation: the fields as given, the default category where none is
/// named, attributed to the default author.
pub fn new_post(payload: CreatePostSchema) -> (r: NewPost)
    ensures
        r.title@ == payload.title@,
        r.slug@ == payload.slug@,
        r.excerpt@ == payload.excerpt@,
        r.content@ == payload.content@,
        r.category_id == match payload.category_id {
            Some(id) => id,
            None => DEFAULT_CATEGORY_ID,
        },
        r.user_id == DEFAULT_AUTHOR_ID,
{
    let category_id = match payload.category_id {
        Some(id) => id,
        None => DEFAULT_CATEGORY_ID,
    };
    NewPost {
        title: payload.title,
        slug: payload.slug,
        excerpt: payload.excerpt,
        content: payload.content,
        category_id,
        user_id: DEFAULT_AUTHOR_ID,
    }
}

/// `pat` occurs in `s` starting at position `i`.
pub open spec fn occurs_at(s: Seq<char>, pat: Seq<char>, i: int) -> bool {
    0 <= i && i + pat.len() <= s.len() && s.subrange(i, i + pat.len()) == pat
}

/// `pat` occurs somewhere in `s`.
pub open spec fn occurs_in(s: Seq<char>, pat: Seq<char>) -> bool {
    exists|i: int| #[trigger] occurs_at(s, pat, i)
}

fn matches_at(s: &str, n: usize, pat: &str, m: usize, i: usize) -> (r: bool)
    requires
        n == s@.len(),
        m == pat@.len(),
        i + m <= s@.len(),
    ensures
        r == occurs_at(s@, pat@, i as int),
{
    let mut j: usize = 0;
    while j < m
        invariant
            j <= m,
            n == s@.len(),
            m == pat@.len(),
            i + m <= s@.len(),
            forall|k: int| 0 <= k < j ==> s@[i + k] == pat@[k],
        decreases m - j,
    {
        if s.get_char(i + j) != pat.get_char(j) {
            assert(s@.subrange(i as int, i + m)[j as int] != pat@[j as int]);
            return false;
        }
        j = j + 1;
    }
    assert(s@.subrange(i as int, i + m) =~= pat@);
    true
}

/// Whether `pat` occurs in `s`.
pub fn contains_text(s: &str, pat: &str) -> (r: bool)
    ensures
        r == occurs_in(s@, pat@),
{
    let n = s.unicode_len();
    let m = pat.unicode_len();
    if m > n {
        assert(forall|i: int| !#[trigger] occurs_at(s@, pat@, i));
        return false;
    }
    if m == 0 {
        assert(s@.subrange(0, 0) =~= pat@);
        assert(occurs_at(s@, pat@, 0));
        return true;
    }
    let mut i: usize = 0;
    while i <= n - m
        invariant
            n == s@.len(),
            m == pat@.len(),
            1 <= m <= n,
            forall|k: int| 0 <= k < i ==> !#[trigger] occurs_at(s@, pat@, k),
        decreases n - m + 1 - i,
    {
        if matches_at(s, n, pat, m, i) {
            return true;
        }
        i = i + 1;
    }
    assert forall|k: int| !#[trigger] occurs_at(s@, pat@, k) by {
        if 0 <= k < i {
        }
    }
    false
}

/// The store's words for a write that broke a uniqueness constraint.
pub const DUPLICATE_KEY_TEXT: &'static str = "duplicate key value violates unique constraint";

/// Whether a store failure reports a broken uniqueness constraint.
pub fn is_duplicate_key(message: &str) -> (r: bool)
    ensures
        r == occurs_in(message@, DUPLICATE_KEY_TEXT@),
{
    contains_text(message, DUPLICATE_KEY_TEXT)
}

/// The store operation of a post handler.
#[derive(Clone, Copy, Debug, PartialEq, Eq, Structural)]
pub enum PostOperation {
    Fetch,
    Create,
    Update,
    Delete,
}

/// A failure of a post handler.
#[derive(Clone, Debug)]
pub enum PostError {
    /// The page or page size of a listing is out of range.
    InvalidPage,
    /// No post has this slug (update and delete routes).
    NotFound(String),
    /// The detail route found no post with this slug.
    DetailNotFound(String),
    /// Another post already has the slug.
    SlugTaken,
    /// The store failed during the operation.
    Store(PostOperation),
}

/// What a failed write reports: a broken uniqueness constraint is a taken slug, anything else a
/// store failure of the operation.
pub fn write_failure(op: PostOperation, message: &str) -> (r: PostError)
    ensures
        occurs_in(message@, DUPLICATE_KEY_TEXT@) ==> r is SlugTaken,
        !occurs_in(message@, DUPLICATE_KEY_TEXT@) ==> r == PostError::Store(op),
{
    if is_duplicate_key(message) {
        PostError::SlugTaken
    } else {
        PostError::Store(op)
    }
}

pub open spec fn post_message_of(e: PostError) -> Seq<char> {
    match e {
        PostError::InvalidPage => "Invalid page or limit"@,
        PostError::NotFound(slug) => "Post item with slug: "@ + slug@ + " not found"@,
        PostError::DetailNotFound(slug) => "Post item with Slug: "@ + slug@ + " not found"@,
        PostError::SlugTaken => "Post with that slug already exists"@,
        PostError::Store(PostOperation::Fetch) => "Something bad happened while fetching all note items"@,
        PostError::Store(PostOperation::Create) => "Something bad happened while creating the post"@,
        PostError::Store(PostOperation::Update) => "Something bad happened while updating the post"@,
        PostError::Store(PostOperation::Delete) => "Something bad happened while deleting the post"@,
    }
}

pub open spec fn post_status_of(e: PostError) -> u16 {
    match e {
        PostError::InvalidPage => 400,
        PostError::NotFound(_) => 404,
        PostError::DetailNotFound(_) => 404,
        PostError::SlugTaken => 409,
        PostError::Store(_) => 500,
    }
}

impl PostError {
    /// The HTTP status code of this failure.
    pub fn status_code(&self) -> (r: u16)
        ensures
            r == post_status_of(*self),
    {
        match self {
            PostError::InvalidPage => 400,
            PostError::NotFound(_) => 404,
            PostError::DetailNotFound(_) => 404,
            PostError::SlugTaken => 409,
            PostError::Store(_) => 500,
        }
    }

    /// The client-visible message of this failure.
    pub fn message(&self) -> (r: String)
        ensures
            r@ == post_message_of(*self),
    {
        match self {
            PostError::InvalidPage => "Invalid page or limit".to_owned(),
            PostError::NotFound(slug) => "Post item with slug: ".to_owned().concat(slug.as_str()).concat(" not found"),
            PostError::DetailNotFound(slug) => "Post item with Slug: ".to_owned().concat(slug.as_str()).concat(" not found"),
            PostError::SlugTaken => "Post with that slug already exists".to_owned(),
            PostError::Store(PostOperation::Fetch) => "Something bad happened while fetching all note items".to_owned(),
            PostError::Store(PostOperation::Create) => "Something bad happened while creating the post".to_owned(),
            PostError::Store(PostOperation::Update) => "Something bad happened while updating the post".to_owned(),
            PostError::Store(PostOperation::Delete) => "Something bad happened while deleting the post".to_owned(),
        }
    }
}

} // verus!
