//! The enumeration of an account's repositories: what it owns, has starred
//! and watches, and its gists, gathered page by page.
//!
//! The library decides, the caller asks the service: [`user_repos`] takes
//! what has been gathered so far and the service's answer to the query for
//! the next pages, and says how the enumeration goes on.

use vstd::prelude::*;
use crate::errors::{reply_body, reply_failure, ErrorKind, Reply};
use crate::text::{text_of, texts};

pub use crate::archive::archive_repo;

verus! {

/// The repositories of an account by category, each in the order in which
/// the service listed them.
#[derive(Clone, Debug, PartialEq, Eq)]
pub struct Repositories {
    pub owned: Vec<String>,
    pub starred: Vec<String>,
    pub watched: Vec<String>,
    pub gists: Vec<String>,
}

/// One entry of a page: an item with the cursor that stands behind it.
/// `node` is the item's name, the owner and the repository for a
/// repository, and is `None` where the service left the item out.
#[derive(Clone, Debug, PartialEq, Eq)]
pub struct Edge {
    pub cursor: String,
    pub node: Option<String>,
}

/// The next page of each category as one response carries them. A list or
/// an entry is `None` where the service left it out.
#[derive(Clone, Debug, PartialEq, Eq)]
pub struct Page {
    pub owned: Option<Vec<Option<Edge>>>,
    pub starred: Option<Vec<Option<Edge>>>,
    pub watched: Option<Vec<Option<Edge>>>,
    pub gists: Option<Vec<Option<Edge>>>,
}

/// The body of a response to the query.
#[derive(Clone, Debug, PartialEq, Eq)]
pub enum Payload {
    /// The response carries no data.
    NoData,
    /// The data holds no account.
    NoUser,
    /// The account's next pages.
    Page(Page),
}

/// Why an enumeration failed.
#[derive(Clone, Copy, Debug, PartialEq, Eq, Structural)]
pub enum ListError {
    /// The network or the connection failed.
    Transport,
    /// The service rejected the credentials.
    Auth,
    /// The response did not have the expected shape.
    Malformed,
    /// The response carried no data, or no account.
    EmptyPayload,
}

/// An enumeration under way: the cursor behind the last item of each
/// category, and the items found so far.
#[derive(Clone, Debug, PartialEq, Eq)]
pub struct Listing {
    pub owned_after: Option<String>,
    pub starred_after: Option<String>,
    pub watched_after: Option<String>,
    pub gists_after: Option<String>,
    pub found: Repositories,
}

/// How an enumeration goes on after a response.
#[derive(Clone, Debug, PartialEq, Eq)]
pub enum Enumeration {
    /// Another query is due, with the cursors of this listing.
    More(Listing),
    /// Every category is exhausted; these are the account's repositories.
    Done(Repositories),
    /// The enumeration has failed, and nothing of it is to be used.
    Failed(ListError),
}

/// The repositories of an account by the characters of their names.
pub struct RepositoriesView {
    pub owned: Seq<Seq<char>>,
    pub starred: Seq<Seq<char>>,
    pub watched: Seq<Seq<char>>,
    pub gists: Seq<Seq<char>>,
}

impl View for Repositories {
    type V = RepositoriesView;

    open spec fn view(&self) -> RepositoriesView {
        RepositoriesView {
            owned: texts(self.owned@),
            starred: texts(self.starred@),
            watched: texts(self.watched@),
            gists: texts(self.gists@),
        }
    }
}

/// An enumeration under way by the characters of its cursors and names.
pub struct ListingView {
    pub owned_after: Option<Seq<char>>,
    pub starred_after: Option<Seq<char>>,
    pub watched_after: Option<Seq<char>>,
    pub gists_after: Option<Seq<char>>,
    pub found: RepositoriesView,
}

impl View for Listing {
    type V = ListingView;

    open spec fn view(&self) -> ListingView {
        ListingView {
            owned_after: text_of(self.owned_after),
            starred_after: text_of(self.starred_after),
            watched_after: text_of(self.watched_after),
            gists_after: text_of(self.gists_after),
            found: self.found@,
        }
    }
}

/// How an enumeration goes on, by the characters of what it holds.
pub enum EnumerationView {
    More(ListingView),
    Done(RepositoriesView),
    Failed(ListError),
}

impl View for Enumeration {
    type V = EnumerationView;

    open spec fn view(&self) -> EnumerationView {
        match self {
            Enumeration::More(listing) => EnumerationView::More(listing@),
            Enumeration::Done(found) => EnumerationView::Done(found@),
            Enumeration::Failed(error) => EnumerationView::Failed(*error),
        }
    }
}

/// The kind of failure that a failed enumeration belongs to.
pub open spec fn list_error_kind(error: ListError) -> ErrorKind {
    match error {
        ListError::Transport => ErrorKind::Transport,
        ListError::Auth => ErrorKind::Auth,
        ListError::Malformed => ErrorKind::Protocol,
        ListError::EmptyPayload => ErrorKind::Protocol,
    }
}

/// The failure of an enumeration whose response failed in the given way.
pub open spec fn list_failure(kind: ErrorKind) -> ListError {
    match kind {
        ErrorKind::Transport => ListError::Transport,
        ErrorKind::Auth => ListError::Auth,
        _ => ListError::Malformed,
    }
}

/// Whether every entry of a page is there, and its item too.
pub open spec fn edges_complete(edges: Seq<Option<Edge>>) -> bool {
    forall|i: int| 0 <= i < edges.len() ==> (#[trigger] edges[i]) is Some && edges[i]->0.node is Some
}

/// The names of the items of a page, in order.
pub open spec fn edge_names(edges: Seq<Option<Edge>>) -> Seq<Seq<char>> {
    edges.map_values(|edge: Option<Edge>| edge->0.node->0@)
}

/// The cursor of a category after a page: that of the page's last entry,
/// and the one before where the page is empty.
pub open spec fn cursor_after(before: Option<Seq<char>>, edges: Seq<Option<Edge>>) -> Option<
    Seq<char>,
> {
    if edges.len() == 0 {
        before
    } else {
        Some(edges.last()->0.cursor@)
    }
}

/// Whether a page holds all four lists.
pub open spec fn page_listed(page: Page) -> bool {
    page.owned is Some && page.starred is Some && page.watched is Some && page.gists is Some
}

/// Whether none of the four lists of a page holds an entry.
pub open spec fn page_empty(page: Page) -> bool {
    &&& page.owned->0@.len() == 0
    &&& page.starred->0@.len() == 0
    &&& page.watched->0@.len() == 0
    &&& page.gists->0@.len() == 0
}

/// Whether every entry of every list of a page is there, and its item too.
pub open spec fn page_complete(page: Page) -> bool {
    &&& edges_complete(page.owned->0@)
    &&& edges_complete(page.starred->0@)
    &&& edges_complete(page.watched->0@)
    &&& edges_complete(page.gists->0@)
}

/// The listing after a page that is listed and complete: each category has
/// the page's items behind those found before, and the cursor of its last
/// entry; a category without entries is as it was.
pub open spec fn listing_after(listing: ListingView, page: Page) -> ListingView {
    ListingView {
        owned_after: cursor_after(listing.owned_after, page.owned->0@),
        starred_after: cursor_after(listing.starred_after, page.starred->0@),
        watched_after: cursor_after(listing.watched_after, page.watched->0@),
        gists_after: cursor_after(listing.gists_after, page.gists->0@),
        found: RepositoriesView {
            owned: listing.found.owned + edge_names(page.owned->0@),
            starred: listing.found.starred + edge_names(page.starred->0@),
            watched: listing.found.watched + edge_names(page.watched->0@),
            gists: listing.found.gists + edge_names(page.gists->0@),
        },
    }
}

/// One round of an enumeration. A failed response fails the enumeration,
/// and so does a body without data or account, or a page that lacks a
/// list, an entry or an item. A page without any entry ends it with what
/// was found. Any other page is added to the listing.
pub open spec fn enumerate_step(listing: ListingView, reply: Reply<Payload>) -> EnumerationView {
    match reply_failure(reply) {
        Some(kind) => EnumerationView::Failed(list_failure(kind)),
        None => match reply->body->0 {
            Payload::Page(page) => if !page_listed(page) {
                EnumerationView::Failed(ListError::Malformed)
            } else if page_empty(page) {
                EnumerationView::Done(listing.found)
            } else if !page_complete(page) {
                EnumerationView::Failed(ListError::Malformed)
            } else {
                EnumerationView::More(listing_after(listing, page))
            },
            _ => EnumerationView::Failed(ListError::EmptyPayload),
        },
    }
}

/// The listing that an enumeration begins with: no cursor, nothing found.
pub open spec fn first_listing() -> ListingView {
    ListingView {
        owned_after: None,
        starred_after: None,
        watched_after: None,
        gists_after: None,
        found: RepositoriesView {
            owned: Seq::empty(),
            starred: Seq::empty(),
            watched: Seq::empty(),
            gists: Seq::empty(),
        },
    }
}

impl ListError {
    /// The kind of failure that this one belongs to.
    pub fn kind(&self) -> (kind: ErrorKind)
        ensures
            kind == list_error_kind(*self),
    {
        match self {
            ListError::Transport => ErrorKind::Transport,
            ListError::Auth => ErrorKind::Auth,
            ListError::Malformed => ErrorKind::Protocol,
            ListError::EmptyPayload => ErrorKind::Protocol,
        }
    }
}

impl Listing {
    /// The listing that an enumeration begins with.
    pub fn new() -> (listing: Listing)
        ensures
            listing@ == first_listing(),
    {
        let listing = Listing {
            owned_after: None,
            starred_after: None,
            watched_after: None,
            gists_after: None,
            found: Repositories {
                owned: Vec::new(),
                starred: Vec::new(),
                watched: Vec::new(),
                gists: Vec::new(),
            },
        };
        assert(listing@.found.gists =~= Seq::empty());
        listing
    }
}

fn failure_of(kind: ErrorKind) -> (error: ListError)
    ensures
        error == list_failure(kind),
{
    match kind {
        ErrorKind::Transport => ListError::Transport,
        ErrorKind::Auth => ListError::Auth,
        _ => ListError::Malformed,
    }
}

/// Adds the entries of one category's page to what was found of it, and
/// moves the category's cursor behind the last of them. Says whether every
/// entry was there with its item; where one was not, what it leaves behind
/// is of no use.
fn absorb(
    after: &mut Option<String>,
    names: &mut Vec<String>,
    edges: &Vec<Option<Edge>>,
) -> (complete: bool)
    ensures
        complete == edges_complete(edges@),
        complete ==> texts(final(names)@) == texts(old(names)@) + edge_names(edges@),
        complete ==> text_of(*final(after)) == cursor_after(text_of(*old(after)), edges@),
{
    let ghost before = texts(names@);
    let mut i: usize = 0;
    while i < edges.len()
        invariant
            i <= edges.len(),
            edges_complete(edges@.take(i as int)),
            texts(names@) == before + edge_names(edges@.take(i as int)),
            text_of(*after) == cursor_after(text_of(*old(after)), edges@.take(i as int)),
        decreases edges.len() - i,
    {
        match &edges[i] {
            Some(edge) => match &edge.node {
                Some(name) => {
                    let ghost then = names@;
                    names.push(name.clone());
                    *after = Some(edge.cursor.clone());
                    proof {
                        assert(texts(names@) =~= texts(then).push(name@));
                    }
                },
                None => {
                    return false;
                },
            },
            None => {
                return false;
            },
        }
        i += 1;
    }
    proof {
        assert(edges@.take(i as int) =~= edges@);
    }
    true
}

/// Takes one round of the enumeration of an account's repositories: given
/// what has been gathered so far and the service's answer to the query with
/// the listing's cursors, says whether another query is due, the
/// enumeration is complete, or it has failed.
///
/// An enumeration begins with [`Listing::new`]. Each query asks for the
/// page of every category behind the listing's cursor; the enumeration is
/// complete with the first answer in which all four pages are empty.
pub fn user_repos(listing: Listing, reply: Reply<Payload>) -> (next: Enumeration)
    ensures
        next@ == enumerate_step(listing@, reply),
{
    let payload = match reply_body(reply) {
        Err(kind) => {
            return Enumeration::Failed(failure_of(kind));
        },
        Ok(payload) => payload,
    };
    let page = match payload {
        Payload::Page(page) => page,
        _ => {
            return Enumeration::Failed(ListError::EmptyPayload);
        },
    };
    let Page { owned, starred, watched, gists } = page;
    let (owned, starred, watched, gists) = match (owned, starred, watched, gists) {
        (Some(owned), Some(starred), Some(watched), Some(gists)) => (owned, starred, watched, gists),
        _ => {
            return Enumeration::Failed(ListError::Malformed);
        },
    };
    if owned.len() == 0 && starred.len() == 0 && watched.len() == 0 && gists.len() == 0 {
        return Enumeration::Done(listing.found);
    }
    let mut listing = listing;
    if !absorb(&mut listing.owned_after, &mut listing.found.owned, &owned) {
        return Enumeration::Failed(ListError::Malformed);
    }
    if !absorb(&mut listing.starred_after, &mut listing.found.starred, &starred) {
        return Enumeration::Failed(ListError::Malformed);
    }
    if !absorb(&mut listing.watched_after, &mut listing.found.watched, &watched) {
        return Enumeration::Failed(ListError::Malformed);
    }
    if !absorb(&mut listing.gists_after, &mut listing.found.gists, &gists) {
        return Enumeration::Failed(ListError::Malformed);
    }
    Enumeration::More(listing)
}

} // verus!
