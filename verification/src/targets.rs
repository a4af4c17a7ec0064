//! The sets of repositories that a run works on: which are exported, which
//! are mirrored, and which gists are mirrored. A name is in a set or is
//! not; two names are the same where their characters are.

use vstd::prelude::*;
use vstd::string::*;
use crate::github::{Repositories, RepositoriesView};
use crate::text::{same_text, texts};

verus! {

/// The order with the name behind it, unless it holds the name already.
pub open spec fn with_name(order: Seq<Seq<char>>, name: Seq<char>) -> Seq<Seq<char>> {
    if order.contains(name) {
        order
    } else {
        order.push(name)
    }
}

/// The order with each of the names behind it, one after the other, but
/// for those that it holds by then.
pub open spec fn with_names(order: Seq<Seq<char>>, names: Seq<Seq<char>>) -> Seq<Seq<char>>
    decreases names.len(),
{
    if names.len() == 0 {
        order
    } else {
        with_name(with_names(order, names.drop_last()), names.last())
    }
}

/// The names, where they are wanted, and none where they are not.
pub open spec fn wanted(wanted: bool, names: Seq<Seq<char>>) -> Seq<Seq<char>> {
    if wanted {
        names
    } else {
        Seq::empty()
    }
}

/// A set of names of repositories. It keeps the names in the order in which
/// they first came in, and none twice.
#[derive(Debug)]
pub struct TargetSet {
    names: Vec<String>,
}

impl View for TargetSet {
    type V = Set<Seq<char>>;

    /// The names that the set holds.
    open spec fn view(&self) -> Set<Seq<char>> {
        self.order().to_set()
    }
}

/// Adding names to an order without duplicates leaves it without, keeps
/// what it held in place, and makes it hold exactly what it held and the
/// names.
pub proof fn lemma_with_names(order: Seq<Seq<char>>, names: Seq<Seq<char>>)
    requires
        order.no_duplicates(),
    ensures
        with_names(order, names).no_duplicates(),
        with_names(order, names).to_set() == order.to_set().union(names.to_set()),
        order.len() <= with_names(order, names).len() <= order.len() + names.len(),
        with_names(order, names).take(order.len() as int) == order,
    decreases names.len(),
{
    broadcast use vstd::seq_lib::group_seq_properties;

    if names.len() > 0 {
        let earlier = names.drop_last();
        let before = with_names(order, earlier);
        let after = with_names(order, names);
        lemma_with_names(order, earlier);
        assert forall|name: Seq<char>|
            after.to_set().contains(name) <==> order.to_set().union(names.to_set()).contains(
                name,
            ) by {
            assert(names.contains(name) <==> earlier.contains(name) || name == names.last()) by {
                vstd::seq_lib::lemma_seq_contains_after_push(earlier, names.last(), name);
            }
            assert(after.contains(name) <==> before.contains(name) || name == names.last()) by {
                vstd::seq_lib::lemma_seq_contains_after_push(before, names.last(), name);
            }
            assert(before.to_set().contains(name) <==> order.to_set().contains(name)
                || earlier.to_set().contains(name));
        }
    }
}

impl TargetSet {
    #[verifier::type_invariant]
    spec fn distinct(&self) -> bool {
        texts(self.names@).no_duplicates()
    }

    /// The names of the set in the order in which they first came in.
    pub closed spec fn order(&self) -> Seq<Seq<char>> {
        texts(self.names@)
    }

    /// The set without a name.
    pub fn new() -> (set: TargetSet)
        ensures
            set.order() == Seq::<Seq<char>>::empty(),
            set@ == Set::<Seq<char>>::empty(),
    {
        let set = TargetSet { names: Vec::new() };
        set
    }

    /// How many names the set holds.
    pub fn len(&self) -> (n: usize)
        ensures
            n == self.order().len(),
            n == self@.len(),
            self.order().no_duplicates(),
    {
        proof {
            use_type_invariant(self);
            self.order().unique_seq_to_set();
        }
        self.names.len()
    }

    /// The names of the set in the order in which they first came in.
    pub fn names(&self) -> (names: &Vec<String>)
        ensures
            texts(names@) == self.order(),
            self.order().no_duplicates(),
    {
        proof {
            use_type_invariant(self);
        }
        &self.names
    }

    /// Whether the set holds the name.
    pub fn contains(&self, name: &str) -> (found: bool)
        ensures
            found == self@.contains(name@),
            found == self.order().contains(name@),
    {
        let mut i: usize = 0;
        while i < self.names.len()
            invariant
                i <= self.names.len(),
                forall|k: int| 0 <= k < i ==> self.order()[k] != name@,
            decreases self.names.len() - i,
        {
            if same_text(self.names[i].as_str(), name) {
                assert(self.order()[i as int] == name@);
                return true;
            }
            i += 1;
        }
        false
    }

    /// Puts the name into the set. Says whether the set did not hold it.
    pub fn insert(&mut self, name: &str) -> (added: bool)
        ensures
            added == !old(self).order().contains(name@),
            final(self).order() == with_name(old(self).order(), name@),
            final(self)@ == old(self)@.insert(name@),
            final(self).order().no_duplicates(),
    {
        broadcast use vstd::seq_lib::group_seq_properties;

        proof {
            use_type_invariant(&*self);
        }
        if self.contains(name) {
            false
        } else {
            let ghost before = self.order();
            let mut held = TargetSet { names: Vec::new() };
            core::mem::swap(self, &mut held);
            let mut names = held.names;
            names.push(String::from_str(name));
            proof {
                assert(texts(names@) =~= before.push(name@));
            }
            *self = TargetSet { names };
            true
        }
    }

    /// Puts each of the names into the set, one after the other.
    pub fn extend(&mut self, names: &Vec<String>)
        ensures
            final(self).order() == with_names(old(self).order(), texts(names@)),
            final(self)@ == old(self)@.union(texts(names@).to_set()),
            final(self).order().no_duplicates(),
    {
        proof {
            use_type_invariant(&*self);
        }
        let ghost all = texts(names@);
        let mut i: usize = 0;
        while i < names.len()
            invariant
                i <= names.len(),
                all == texts(names@),
                self.order() == with_names(old(self).order(), all.take(i as int)),
            decreases names.len() - i,
        {
            proof {
                assert(all.take(i + 1).drop_last() =~= all.take(i as int));
            }
            self.insert(names[i].as_str());
            i += 1;
        }
        proof {
            assert(all.take(i as int) =~= all);
            lemma_with_names(old(self).order(), all);
        }
    }
}

/// The repositories that are exported, in order: those that the account
/// owns, where that is wanted, then those that the configuration names.
pub open spec fn archive_order(
    repos: RepositoriesView,
    archive_owned: bool,
    configured: Seq<Seq<char>>,
) -> Seq<Seq<char>> {
    with_names(with_names(Seq::empty(), wanted(archive_owned, repos.owned)), configured)
}

/// The repositories that are exported: those that the account owns, where
/// that is wanted, and those that the configuration names.
pub open spec fn archive_targets(
    repos: RepositoriesView,
    archive_owned: bool,
    configured: Seq<Seq<char>>,
) -> Set<Seq<char>> {
    wanted(archive_owned, repos.owned).to_set().union(configured.to_set())
}

/// The repositories that are mirrored, in order: those that the account
/// owns, those that were exported, those that the configuration names,
/// and, where they are wanted, those that the account has starred and
/// those that it watches.
pub open spec fn clone_order(
    repos: RepositoriesView,
    configured: Seq<Seq<char>>,
    include_starred: bool,
    include_watched: bool,
    archived: Seq<Seq<char>>,
) -> Seq<Seq<char>> {
    with_names(
        with_names(
            with_names(with_names(with_names(Seq::empty(), repos.owned), archived), configured),
            wanted(include_starred, repos.starred),
        ),
        wanted(include_watched, repos.watched),
    )
}

/// The repositories that are mirrored: those that the configuration names,
/// those that the account owns, those that were exported, and, where they
/// are wanted, those that the account has starred and those that it
/// watches.
pub open spec fn clone_targets(
    repos: RepositoriesView,
    configured: Seq<Seq<char>>,
    include_starred: bool,
    include_watched: bool,
    archived: Set<Seq<char>>,
) -> Set<Seq<char>> {
    configured.to_set().union(repos.owned.to_set()).union(archived).union(
        wanted(include_starred, repos.starred).to_set(),
    ).union(wanted(include_watched, repos.watched).to_set())
}

/// The gists that are mirrored, in order: those of the account, where
/// gists are wanted.
pub open spec fn gist_order(repos: RepositoriesView, include_gists: bool) -> Seq<Seq<char>> {
    with_names(Seq::empty(), wanted(include_gists, repos.gists))
}

/// The gists that are mirrored: those of the account, where gists are
/// wanted.
pub open spec fn gist_targets(repos: RepositoriesView, include_gists: bool) -> Set<Seq<char>> {
    wanted(include_gists, repos.gists).to_set()
}

/// However the sources overlap, each repository that is mirrored is
/// mirrored once: the order names no repository twice, names exactly the
/// repositories of the sources that are wanted, and so has as many entries
/// as there are different names among them.
pub proof fn lemma_clone_set_exact(
    repos: RepositoriesView,
    configured: Seq<Seq<char>>,
    include_starred: bool,
    include_watched: bool,
    archived: Seq<Seq<char>>,
)
    ensures
        clone_order(repos, configured, include_starred, include_watched, archived).no_duplicates(),
        clone_order(repos, configured, include_starred, include_watched, archived).to_set()
            == clone_targets(
            repos,
            configured,
            include_starred,
            include_watched,
            archived.to_set(),
        ),
        clone_order(repos, configured, include_starred, include_watched, archived).len()
            == clone_targets(
            repos,
            configured,
            include_starred,
            include_watched,
            archived.to_set(),
        ).len(),
{
    let none = Seq::<Seq<char>>::empty();
    let first = with_names(none, repos.owned);
    lemma_with_names(none, repos.owned);
    let second = with_names(first, archived);
    lemma_with_names(first, archived);
    let third = with_names(second, configured);
    lemma_with_names(second, configured);
    let fourth = with_names(third, wanted(include_starred, repos.starred));
    lemma_with_names(third, wanted(include_starred, repos.starred));
    let fifth = with_names(fourth, wanted(include_watched, repos.watched));
    lemma_with_names(fourth, wanted(include_watched, repos.watched));
    fifth.unique_seq_to_set();
}

/// Each repository that is exported is exported once: the order names no
/// repository twice, and names exactly the repositories of the sources that
/// are wanted.
pub proof fn lemma_archive_set_exact(
    repos: RepositoriesView,
    archive_owned: bool,
    configured: Seq<Seq<char>>,
)
    ensures
        archive_order(repos, archive_owned, configured).no_duplicates(),
        archive_order(repos, archive_owned, configured).to_set() == archive_targets(
            repos,
            archive_owned,
            configured,
        ),
        archive_order(repos, archive_owned, configured).len() == archive_targets(
            repos,
            archive_owned,
            configured,
        ).len(),
{
    let none = Seq::<Seq<char>>::empty();
    let first = with_names(none, wanted(archive_owned, repos.owned));
    lemma_with_names(none, wanted(archive_owned, repos.owned));
    let second = with_names(first, configured);
    lemma_with_names(first, configured);
    second.unique_seq_to_set();
}

/// Each gist that is mirrored is mirrored once: the order names no gist
/// twice, and names exactly the account's gists, where gists are wanted.
pub proof fn lemma_gist_set_exact(repos: RepositoriesView, include_gists: bool)
    ensures
        gist_order(repos, include_gists).no_duplicates(),
        gist_order(repos, include_gists).to_set() == gist_targets(repos, include_gists),
        gist_order(repos, include_gists).len() == gist_targets(repos, include_gists).len(),
{
    let none = Seq::<Seq<char>>::empty();
    let first = with_names(none, wanted(include_gists, repos.gists));
    lemma_with_names(none, wanted(include_gists, repos.gists));
    first.unique_seq_to_set();
}

/// The set of the repositories that are exported.
pub fn build_archive_set(repos: &Repositories, archive_owned: bool, configured: &Vec<String>) -> (set:
    TargetSet)
    ensures
        set.order() == archive_order(repos@, archive_owned, texts(configured@)),
        set@ == archive_targets(repos@, archive_owned, texts(configured@)),
        set.order().no_duplicates(),
{
    let mut set = TargetSet::new();
    if archive_owned {
        set.extend(&repos.owned);
    }
    set.extend(configured);
    set
}

/// The set of the repositories that are mirrored.
pub fn build_clone_set(
    repos: &Repositories,
    configured: &Vec<String>,
    include_starred: bool,
    include_watched: bool,
    archived: &TargetSet,
) -> (set: TargetSet)
    ensures
        set.order() == clone_order(
            repos@,
            texts(configured@),
            include_starred,
            include_watched,
            archived.order(),
        ),
        set@ == clone_targets(
            repos@,
            texts(configured@),
            include_starred,
            include_watched,
            archived@,
        ),
        set.order().no_duplicates(),
{
    let mut set = TargetSet::new();
    set.extend(&repos.owned);
    set.extend(archived.names());
    set.extend(configured);
    if include_starred {
        set.extend(&repos.starred);
    }
    if include_watched {
        set.extend(&repos.watched);
    }
    set
}

/// The set of the gists that are mirrored.
pub fn build_gist_set(repos: &Repositories, include_gists: bool) -> (set: TargetSet)
    ensures
        set.order() == gist_order(repos@, include_gists),
        set@ == gist_targets(repos@, include_gists),
        set.order().no_duplicates(),
{
    let mut set = TargetSet::new();
    if include_gists {
        set.extend(&repos.gists);
    }
    set
}

} // verus!
