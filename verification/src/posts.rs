//! Queries on posts: what is asked of the store and how its answer is paged.

use vstd::prelude::*;
use vstd::string::*;
use crate::error::{AppError, AppErrorView};
use crate::models::{Post, PostWithMetadata};
use crate::text::{decimal_of, push_decimal};

verus! {

/// Order of the results of a search.
#[derive(Debug, Clone, Copy, PartialEq, Eq, Structural)]
pub enum SearchSortBy {
    Newest,
    Oldest,
    MostViewed,
    MostLiked,
    Relevance,
}

/// What a search asks for. Pages count from 1.
#[derive(Debug, Clone)]
pub struct SearchFilters {
    pub query: Option<String>,
    pub category_id: Option<i64>,
    pub tag_ids: Vec<i64>,
    pub author_id: Option<i64>,
    pub featured_only: bool,
    pub published_only: bool,
    pub sort_by: SearchSortBy,
    pub page: i32,
    pub per_page: i32,
}

/// One page of results.
#[derive(Debug, Clone)]
pub struct SearchResults {
    pub posts: Vec<PostWithMetadata>,
    pub total_count: i64,
    pub page: i32,
    pub per_page: i32,
    pub has_next_page: bool,
    pub has_prev_page: bool,
}

impl Default for SearchFilters {
    /// The first page of twenty published posts, newest first.
    fn default() -> (f: SearchFilters)
        ensures
            f.query is None,
            f.category_id is None,
            f.tag_ids@.len() == 0,
            f.author_id is None,
            !f.featured_only,
            f.published_only,
            f.sort_by == SearchSortBy::Newest,
            f.page == 1,
            f.per_page == 20,
    {
        SearchFilters {
            query: None,
            category_id: None,
            tag_ids: Vec::new(),
            author_id: None,
            featured_only: false,
            published_only: true,
            sort_by: SearchSortBy::Newest,
            page: 1,
            per_page: 20,
        }
    }
}

impl SearchSortBy {
    /// The `ORDER BY` terms of the order.
    pub open spec fn order_terms(self) -> Seq<char> {
        match self {
            SearchSortBy::Newest => "published_at DESC NULLS LAST, created_at DESC"@,
            SearchSortBy::Oldest => "published_at ASC NULLS LAST, created_at ASC"@,
            SearchSortBy::MostViewed => "views_count DESC, published_at DESC"@,
            SearchSortBy::MostLiked => "likes_count DESC, published_at DESC"@,
            SearchSortBy::Relevance => "published_at DESC"@,
        }
    }

    pub fn order_clause(&self) -> (s: &'static str)
        ensures
            s@ == self.order_terms(),
    {
        match self {
            SearchSortBy::Newest => "published_at DESC NULLS LAST, created_at DESC",
            SearchSortBy::Oldest => "published_at ASC NULLS LAST, created_at ASC",
            SearchSortBy::MostViewed => "views_count DESC, published_at DESC",
            SearchSortBy::MostLiked => "likes_count DESC, published_at DESC",
            SearchSortBy::Relevance => "published_at DESC",
        }
    }
}

/// The condition that a search puts on posts.
pub open spec fn condition(published_only: bool) -> Seq<char> {
    if published_only {
        "published_at IS NOT NULL"@
    } else {
        "1=1"@
    }
}

/// Number of posts before the page `page`.
pub open spec fn page_offset(page: i32, per_page: i32) -> int {
    (page - 1) * per_page
}

/// The query for one page of posts.
pub open spec fn posts_query_text(
    published_only: bool,
    sort_by: SearchSortBy,
    page: i32,
    per_page: i32,
) -> Seq<char> {
    "SELECT * FROM posts WHERE "@ + condition(published_only) + " ORDER BY "@
        + sort_by.order_terms() + " LIMIT "@ + decimal_of(per_page as int) + " OFFSET "@
        + decimal_of(page_offset(page, per_page))
}

/// The query for the number of posts that a search finds.
pub open spec fn count_query_text(published_only: bool) -> Seq<char> {
    "SELECT COUNT(*) FROM posts WHERE "@ + condition(published_only)
}

impl SearchFilters {
    /// Asks for the posts that hold `query`, from the first page on.
    pub fn search_for(&mut self, query: String)
        ensures
            *final(self) == (SearchFilters { query: Some(query), page: 1, ..*old(self) }),
    {
        self.query = Some(query);
        self.page = 1;
    }

    /// Asks for the posts of one category, from the first page on.
    pub fn select_category(&mut self, category_id: i64)
        ensures
            *final(self) == (SearchFilters {
                category_id: Some(category_id),
                page: 1,
                ..*old(self)
            }),
    {
        self.category_id = Some(category_id);
        self.page = 1;
    }

    /// Adds a tag to those that the posts must have, unless it is among them
    /// already, and goes back to the first page.
    pub fn select_tag(&mut self, tag_id: i64)
        ensures
            final(self).tag_ids@ == (if old(self).tag_ids@.contains(tag_id) {
                old(self).tag_ids@
            } else {
                old(self).tag_ids@.push(tag_id)
            }),
            final(self).page == 1,
            *final(self) == (SearchFilters {
                tag_ids: final(self).tag_ids,
                page: final(self).page,
                ..*old(self)
            }),
    {
        let n: usize = self.tag_ids.len();
        let mut i: usize = 0;
        let mut found = false;
        while i < n && !found
            invariant
                i <= n,
                n == self.tag_ids@.len(),
                *self == *old(self),
                found ==> self.tag_ids@.contains(tag_id),
                !found ==> forall|j: int| 0 <= j < i ==> self.tag_ids@[j] != tag_id,
            decreases n - i + (if found { 0int } else { 1int }),
        {
            if self.tag_ids[i] == tag_id {
                found = true;
            } else {
                i += 1;
            }
        }
        if !found {
            self.tag_ids.push(tag_id);
        }
        self.page = 1;
    }

    pub fn where_clause(&self) -> (s: &'static str)
        ensures
            s@ == condition(self.published_only),
    {
        if self.published_only {
            "published_at IS NOT NULL"
        } else {
            "1=1"
        }
    }

    /// Number of posts before the page asked for.
    pub fn offset(&self) -> (n: i64)
        ensures
            n == page_offset(self.page, self.per_page),
            -0x4000_0000_8000_0000 <= n <= 0x4000_0000_8000_0000,
    {
        assert(-0x8000_0001 * 0x8000_0000 <= (self.page - 1) * self.per_page <= 0x8000_0001
            * 0x8000_0000) by (nonlinear_arith)
            requires
                -0x8000_0001 <= self.page - 1 <= 0x8000_0000,
                -0x8000_0000 <= self.per_page <= 0x8000_0000,
        ;
        (self.page as i64 - 1) * (self.per_page as i64)
    }

    /// Number of posts on a page.
    pub fn limit(&self) -> (n: i64)
        ensures
            n == self.per_page,
    {
        self.per_page as i64
    }

    pub fn posts_query(&self) -> (q: String)
        ensures
            q@ == posts_query_text(self.published_only, self.sort_by, self.page, self.per_page),
    {
        let mut q = "SELECT * FROM posts WHERE ".to_owned();
        q.append(self.where_clause());
        q.append(" ORDER BY ");
        q.append(self.sort_by.order_clause());
        q.append(" LIMIT ");
        push_decimal(&mut q, self.limit());
        q.append(" OFFSET ");
        push_decimal(&mut q, self.offset());
        assert(q@ =~= posts_query_text(
            self.published_only,
            self.sort_by,
            self.page,
            self.per_page,
        ));
        q
    }

    pub fn count_query(&self) -> (q: String)
        ensures
            q@ == count_query_text(self.published_only),
    {
        let mut q = "SELECT COUNT(*) FROM posts WHERE ".to_owned();
        q.append(self.where_clause());
        q
    }
}

impl SearchResults {
    /// The page that `filters` asked for, made of the posts that the store
    /// gave and the number of posts that it counted. There is a next page
    /// where posts are left after this one, and a previous page after the
    /// first.
    pub fn assemble(posts: Vec<Post>, total_count: i64, filters: &SearchFilters) -> (r:
        SearchResults)
        ensures
            r.posts@.len() == posts@.len(),
            forall|i: int|
                0 <= i < posts@.len() ==> {
                    &&& (#[trigger] r.posts@[i]).post == posts@[i]
                    &&& r.posts@[i].author is None
                    &&& r.posts@[i].category is None
                    &&& r.posts@[i].tags@.len() == 0
                },
            r.total_count == total_count,
            r.page == filters.page,
            r.per_page == filters.per_page,
            r.has_next_page == (page_offset(filters.page, filters.per_page) + filters.per_page
                < total_count),
            r.has_prev_page == (filters.page > 1),
    {
        let ghost given = posts@;
        let mut rest = posts;
        let mut reversed: Vec<PostWithMetadata> = Vec::new();
        while rest.len() > 0
            invariant
                rest@.len() + reversed@.len() == given.len(),
                rest@ == given.take(rest@.len() as int),
                forall|i: int|
                    0 <= i < reversed@.len() ==> {
                        &&& (#[trigger] reversed@[i]).post == given[given.len() - 1 - i]
                        &&& reversed@[i].author is None
                        &&& reversed@[i].category is None
                        &&& reversed@[i].tags@.len() == 0
                    },
            decreases rest.len(),
        {
            let post = rest.pop().unwrap();
            reversed.push(PostWithMetadata { post, author: None, category: None, tags: Vec::new() });
        }
        let mut listed: Vec<PostWithMetadata> = Vec::new();
        while reversed.len() > 0
            invariant
                listed@.len() + reversed@.len() == given.len(),
                forall|i: int|
                    0 <= i < reversed@.len() ==> {
                        &&& (#[trigger] reversed@[i]).post == given[given.len() - 1 - i]
                        &&& reversed@[i].author is None
                        &&& reversed@[i].category is None
                        &&& reversed@[i].tags@.len() == 0
                    },
                forall|i: int|
                    0 <= i < listed@.len() ==> {
                        &&& (#[trigger] listed@[i]).post == given[i]
                        &&& listed@[i].author is None
                        &&& listed@[i].category is None
                        &&& listed@[i].tags@.len() == 0
                    },
            decreases reversed.len(),
        {
            let entry = reversed.pop().unwrap();
            listed.push(entry);
        }
        let offset = filters.offset();
        SearchResults {
            posts: listed,
            total_count,
            page: filters.page,
            per_page: filters.per_page,
            has_next_page: offset + filters.limit() < total_count,
            has_prev_page: filters.page > 1,
        }
    }
}

/// Whether a post may be looked up under `slug`: the slug is not empty and
/// has at most a hundred bytes.
pub open spec fn slug_is_acceptable(slug: &str) -> bool {
    0 < slug@.len() && slug.spec_bytes().len() <= 100
}

/// Refuses a slug under which no post can be stored.
pub fn check_lookup_slug(slug: &str) -> (r: Result<(), AppError>)
    ensures
        match r {
            Ok(_) => slug_is_acceptable(slug),
            Err(e) => !slug_is_acceptable(slug) && e@ == AppErrorView::Validation(
                "Invalid slug format"@,
            ),
        },
{
    if slug.is_empty() || slug.as_bytes().len() > 100 {
        Err(AppError::Validation("Invalid slug format".to_owned()))
    } else {
        Ok(())
    }
}

/// The error for a slug under which the store holds no published post.
pub fn post_not_found(slug: &str) -> (e: AppError)
    ensures
        e@ == AppErrorView::NotFound("Post with slug '"@ + slug@ + "' not found"@),
{
    let mut text = "Post with slug '".to_owned();
    text.append(slug);
    text.append("' not found");
    AppError::NotFound(text)
}

/// Number of tags to list where the caller names none: twenty.
pub fn tag_limit(limit: Option<i32>) -> (n: i32)
    ensures
        n == (match limit {
            Some(n) => n,
            None => 20i32,
        }),
{
    match limit {
        Some(n) => n,
        None => 20,
    }
}

} // verus!
