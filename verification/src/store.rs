//! An in-memory link table: the library's model of the persisted `links`
//! relation, a single table keyed by `id` with a `target_url` column. It
//! keeps the store's invariants — ids unique across all links, targets
//! canonical — and offers the two operations the coordinator needs: an
//! atomic insert that detects uniqueness conflicts, and a point lookup.

use vstd::prelude::*;

use crate::link::Link;
use crate::link::token_wf;
use crate::urls::canon_abs_url;

verus! {

/// A well-formed link: the id is a well-formed token and the target is a
/// canonical absolute URL (re-parsing it yields itself).
pub open spec fn link_wf(l: Link) -> bool {
    &&& token_wf(l.id@)
    &&& canon_abs_url(l.target_url@) == Some(l.target_url@)
}

/// No two links of the sequence share an id.
pub open spec fn ids_distinct(s: Seq<Link>) -> bool {
    forall|i: int, j: int| 0 <= i < j < s.len() ==> s[i].id@ != s[j].id@
}

/// The map from ids to targets that a sequence of links holds.
pub open spec fn links_map(s: Seq<Link>) -> Map<Seq<char>, Seq<char>>
    decreases s.len(),
{
    if s.len() == 0 {
        Map::empty()
    } else {
        links_map(s.drop_last()).insert(s.last().id@, s.last().target_url@)
    }
}

/// A key is in the map exactly when some link of the sequence carries it.
proof fn lemma_links_map_contains(s: Seq<Link>, k: Seq<char>)
    ensures
        links_map(s).contains_key(k) <==> exists|i: int|
            0 <= i < s.len() && #[trigger] s[i].id@ == k,
    decreases s.len(),
{
    if s.len() == 0 {
    } else {
        lemma_links_map_contains(s.drop_last(), k);
        if s.last().id@ == k {
            assert(s[s.len() - 1].id@ == k);
        } else {
            if exists|i: int| 0 <= i < s.len() && #[trigger] s[i].id@ == k {
                let i = choose|i: int| 0 <= i < s.len() && #[trigger] s[i].id@ == k;
                assert(s.drop_last()[i].id@ == k);
            }
            if exists|i: int| 0 <= i < s.drop_last().len() && #[trigger] s.drop_last()[i].id@
                == k {
                let i = choose|i: int|
                    0 <= i < s.drop_last().len() && #[trigger] s.drop_last()[i].id@ == k;
                assert(s[i].id@ == k);
            }
        }
    }
}

/// With distinct ids, the map sends each link's id to that link's target.
proof fn lemma_links_map_index(s: Seq<Link>, i: int)
    requires
        ids_distinct(s),
        0 <= i < s.len(),
    ensures
        links_map(s).contains_key(s[i].id@),
        links_map(s)[s[i].id@] == s[i].target_url@,
    decreases s.len(),
{
    if i == s.len() - 1 {
    } else {
        assert(ids_distinct(s.drop_last())) by {
            assert forall|x: int, y: int|
                0 <= x < y < s.drop_last().len() implies s.drop_last()[x].id@
                != s.drop_last()[y].id@ by {
                assert(s[x].id@ != s[y].id@);
            }
        }
        lemma_links_map_index(s.drop_last(), i);
        assert(s.drop_last()[i] == s[i]);
        assert(s[i].id@ != s.last().id@);
    }
}

/// With distinct ids, the map is finite and has one entry per link.
proof fn lemma_links_map_len(s: Seq<Link>)
    requires
        ids_distinct(s),
    ensures
        links_map(s).dom().finite(),
        links_map(s).len() == s.len(),
    decreases s.len(),
{
    if s.len() == 0 {
    } else {
        assert(ids_distinct(s.drop_last())) by {
            assert forall|x: int, y: int|
                0 <= x < y < s.drop_last().len() implies s.drop_last()[x].id@
                != s.drop_last()[y].id@ by {
                assert(s[x].id@ != s[y].id@);
            }
        }
        lemma_links_map_len(s.drop_last());
        lemma_links_map_contains(s.drop_last(), s.last().id@);
        assert forall|i: int|
            0 <= i < s.drop_last().len() implies s.drop_last()[i].id@ != s.last().id@ by {
            assert(s[i].id@ != s[s.len() - 1].id@);
        }
        assert(!links_map(s.drop_last()).contains_key(s.last().id@));
    }
}

/// The in-memory link table.
pub struct LinkTable {
    links: Vec<Link>,
}

impl View for LinkTable {
    type V = Map<Seq<char>, Seq<char>>;

    closed spec fn view(&self) -> Map<Seq<char>, Seq<char>> {
        links_map(self.links@)
    }
}

impl LinkTable {
    /// The table's invariants: ids are unique across all links, and every
    /// stored link is well formed.
    pub closed spec fn wf(&self) -> bool {
        &&& ids_distinct(self.links@)
        &&& forall|i: int| 0 <= i < self.links@.len() ==> link_wf(#[trigger] self.links@[i])
    }

    /// An empty table.
    pub fn new() -> (t: LinkTable)
        ensures
            t.wf(),
            t@ == Map::<Seq<char>, Seq<char>>::empty(),
    {
        let t = LinkTable { links: Vec::new() };
        proof {
            assert(t.links@.len() == 0);
        }
        t
    }

    /// The index of the link carrying the given id, if any.
    fn find_index(&self, id: &String) -> (r: Option<usize>)
        ensures
            r matches Some(i) ==> i < self.links@.len() && self.links@[i as int].id@ == id@,
            r is None ==> forall|i: int|
                0 <= i < self.links@.len() ==> self.links@[i].id@ != id@,
    {
        let n = self.links.len();
        let mut i: usize = 0;
        while i < n
            invariant
                n == self.links@.len(),
                i <= n,
                forall|j: int| 0 <= j < i ==> self.links@[j].id@ != id@,
            decreases n - i,
        {
            if self.links[i].id == *id {
                return Some(i);
            }
            i += 1;
        }
        None
    }

    /// Atomically inserts a new link, or reports a uniqueness conflict and
    /// changes nothing: either the row exists afterwards with exactly this
    /// pair, or the table is exactly as it was.
    pub fn insert_unique(&mut self, id: &String, target_url: &String) -> (r: Option<Link>)
        requires
            old(self).wf(),
            token_wf(id@),
            canon_abs_url(target_url@) == Some(target_url@),
        ensures
            final(self).wf(),
            old(self)@.contains_key(id@) ==> r is None && *final(self) == *old(self),
            !old(self)@.contains_key(id@) ==> (r matches Some(l) && l.id@ == id@
                && l.target_url@ == target_url@ && link_wf(l) && final(self)@ == old(self)@.insert(
                id@,
                target_url@,
            )),
    {
        proof {
            lemma_links_map_contains(self.links@, id@);
        }
        match self.find_index(id) {
            Some(_) => None,
            None => {
                let stored = Link { id: id.clone(), target_url: target_url.clone() };
                self.links.push(stored);
                proof {
                    assert(self.links@.drop_last() =~= old(self).links@);
                    assert(self@ == old(self)@.insert(id@, target_url@));
                    assert forall|x: int, y: int|
                        0 <= x < y < self.links@.len() implies self.links@[x].id@
                        != self.links@[y].id@ by {
                        if y == self.links@.len() - 1 {
                            assert(old(self).links@[x].id@ != id@);
                        }
                    }
                    assert forall|i: int|
                        0 <= i < self.links@.len() implies link_wf(#[trigger] self.links@[i]) by {
                        if i < self.links@.len() - 1 {
                            assert(link_wf(old(self).links@[i]));
                        }
                    }
                }
                Some(Link { id: id.clone(), target_url: target_url.clone() })
            },
        }
    }

    /// A point read by id: the stored link, or `None` when no link carries
    /// the id. The table is never changed by a lookup.
    pub fn select_by_id(&self, id: &String) -> (r: Option<Link>)
        requires
            self.wf(),
        ensures
            self@.contains_key(id@) ==> (r matches Some(l) && l.id@ == id@ && l.target_url@
                == self@[id@] && link_wf(l)),
            !self@.contains_key(id@) ==> r is None,
    {
        proof {
            lemma_links_map_contains(self.links@, id@);
        }
        match self.find_index(id) {
            Some(i) => {
                proof {
                    lemma_links_map_index(self.links@, i as int);
                }
                let l = &self.links[i];
                Some(Link { id: l.id.clone(), target_url: l.target_url.clone() })
            },
            None => None,
        }
    }

    /// How many links the table holds.
    pub fn len(&self) -> (n: usize)
        requires
            self.wf(),
        ensures
            n == self@.len(),
    {
        proof {
            lemma_links_map_len(self.links@);
        }
        self.links.len()
    }
}

} // verus!
