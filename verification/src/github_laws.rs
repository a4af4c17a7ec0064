//! What holds of every enumeration: what it gathers, when it ends, and that
//! it hands out nothing once a response has failed.

use vstd::prelude::*;
use crate::errors::{reply_failure, Reply};
use crate::github::{
    cursor_after, edge_names, enumerate_step, first_listing, page_complete, page_empty,
    page_listed, Edge, EnumerationView, ListingView, Page, Payload, RepositoriesView,
};

verus! {

/// The four categories of an account's repositories.
pub enum Category {
    Owned,
    Starred,
    Watched,
    Gists,
}

/// The entries of one category in a page.
pub open spec fn page_edges(page: Page, category: Category) -> Seq<Option<Edge>> {
    match category {
        Category::Owned => page.owned->0@,
        Category::Starred => page.starred->0@,
        Category::Watched => page.watched->0@,
        Category::Gists => page.gists->0@,
    }
}

/// The items of one category among those found.
pub open spec fn found_in(found: RepositoriesView, category: Category) -> Seq<Seq<char>> {
    match category {
        Category::Owned => found.owned,
        Category::Starred => found.starred,
        Category::Watched => found.watched,
        Category::Gists => found.gists,
    }
}

/// The cursor of one category in a listing.
pub open spec fn cursor_in(listing: ListingView, category: Category) -> Option<Seq<char>> {
    match category {
        Category::Owned => listing.owned_after,
        Category::Starred => listing.starred_after,
        Category::Watched => listing.watched_after,
        Category::Gists => listing.gists_after,
    }
}

/// The page that a reply carries.
pub open spec fn page_of(reply: Reply<Payload>) -> Page {
    reply->body->0->0
}

/// Whether a reply carries a page.
pub open spec fn has_page(reply: Reply<Payload>) -> bool {
    reply_failure(reply) is None && reply->body->0 is Page && page_listed(page_of(reply))
}

/// Whether a reply carries a page with at least one entry, and all of its
/// entries with their items.
pub open spec fn has_items(reply: Reply<Payload>) -> bool {
    has_page(reply) && !page_empty(page_of(reply)) && page_complete(page_of(reply))
}

/// Whether a reply carries a page without any entry.
pub open spec fn has_no_items(reply: Reply<Payload>) -> bool {
    has_page(reply) && page_empty(page_of(reply))
}

/// The enumeration that has taken the given replies in turn, from the
/// beginning. Once it has ended, further replies change nothing.
pub open spec fn enumeration_run(replies: Seq<Reply<Payload>>) -> EnumerationView
    decreases replies.len(),
{
    if replies.len() == 0 {
        EnumerationView::More(first_listing())
    } else {
        match enumeration_run(replies.drop_last()) {
            EnumerationView::More(listing) => enumerate_step(listing, replies.last()),
            ended => ended,
        }
    }
}

/// The items of one category in the pages of the given replies, in the
/// order of the replies and, within a page, of its entries.
pub open spec fn names_across(replies: Seq<Reply<Payload>>, category: Category) -> Seq<Seq<char>>
    decreases replies.len(),
{
    if replies.len() == 0 {
        Seq::empty()
    } else {
        names_across(replies.drop_last(), category) + edge_names(
            page_edges(page_of(replies.last()), category),
        )
    }
}

/// The cursor behind the last entry of one category in the pages of the
/// given replies, if there is any entry.
pub open spec fn cursor_across(replies: Seq<Reply<Payload>>, category: Category) -> Option<
    Seq<char>,
>
    decreases replies.len(),
{
    if replies.len() == 0 {
        None
    } else {
        cursor_after(
            cursor_across(replies.drop_last(), category),
            page_edges(page_of(replies.last()), category),
        )
    }
}

/// As long as every reply carries a page with entries, the enumeration goes
/// on. Its listing then holds, for each category, the items of all pages in
/// the order in which they came, and the cursor behind the last entry that
/// the category has had: a category whose pages have run empty keeps its
/// cursor while the others go on.
pub proof fn lemma_enumeration_gathers(replies: Seq<Reply<Payload>>, category: Category)
    requires
        forall|i: int| 0 <= i < replies.len() ==> has_items(#[trigger] replies[i]),
    ensures
        enumeration_run(replies) is More,
        found_in(enumeration_run(replies)->More_0.found, category) == names_across(
            replies,
            category,
        ),
        cursor_in(enumeration_run(replies)->More_0, category) == cursor_across(replies, category),
    decreases replies.len(),
{
    if replies.len() > 0 {
        let earlier = replies.drop_last();
        lemma_enumeration_gathers(earlier, category);
    }
}

/// The enumeration is complete with the first reply whose page has no
/// entry in any category, and what it hands out is exactly what the pages
/// before held, in their order.
pub proof fn lemma_enumeration_ends(
    replies: Seq<Reply<Payload>>,
    last: Reply<Payload>,
    category: Category,
)
    requires
        forall|i: int| 0 <= i < replies.len() ==> has_items(#[trigger] replies[i]),
        has_no_items(last),
    ensures
        enumeration_run(replies.push(last)) is Done,
        found_in(enumeration_run(replies.push(last))->Done_0, category) == names_across(
            replies,
            category,
        ),
{
    lemma_enumeration_gathers(replies, category);
    assert(replies.push(last).drop_last() =~= replies);
}

/// A reply that carries neither a page with entries nor an empty page
/// fails the enumeration: nothing that was gathered is handed out.
pub proof fn lemma_enumeration_fails(replies: Seq<Reply<Payload>>, last: Reply<Payload>)
    requires
        forall|i: int| 0 <= i < replies.len() ==> has_items(#[trigger] replies[i]),
        !has_items(last),
        !has_no_items(last),
    ensures
        enumeration_run(replies.push(last)) is Failed,
{
    lemma_enumeration_gathers(replies, Category::Owned);
    assert(replies.push(last).drop_last() =~= replies);
}

/// Once an enumeration has ended, no further reply changes how.
pub proof fn lemma_enumeration_stays_ended(replies: Seq<Reply<Payload>>, later: Seq<Reply<Payload>>)
    requires
        !(enumeration_run(replies) is More),
    ensures
        enumeration_run(replies + later) == enumeration_run(replies),
    decreases later.len(),
{
    if later.len() > 0 {
        lemma_enumeration_stays_ended(replies, later.drop_last());
        assert((replies + later).drop_last() =~= replies + later.drop_last());
    }
}

} // verus!
