use vstd::prelude::*;

use crate::errors::StoreError;

verus! {

/// The sole persistent entity: a generated identifier and the normalized
/// absolute URL it redirects to.
#[derive(Debug)]
pub struct Link {
    pub id: String,
    pub target_url: String,
}

impl Link {
    /// The pair a row stands for: identifier and target.
    pub open spec fn model(self) -> (Seq<char>, Seq<char>) {
        (self.id@, self.target_url@)
    }

    /// A field-for-field copy of the row.
    pub fn duplicate(&self) -> (r: Link)
        ensures
            r == *self,
    {
        Link { id: self.id.clone(), target_url: self.target_url.clone() }
    }
}

/// Request body for creation and update: the requested target URL.
#[derive(Debug)]
pub struct LinkTarget {
    pub target_url: String,
}

/// The mapping a sequence of rows stands for, later rows taking precedence;
/// under the uniqueness invariant the order never matters.
spec fn map_of(s: Seq<Link>) -> Map<Seq<char>, Seq<char>>
    decreases s.len(),
{
    if s.len() == 0 {
        Map::empty()
    } else {
        map_of(s.drop_last()).insert(s.last().id@, s.last().target_url@)
    }
}

/// No two rows share an identifier.
spec fn ids_unique(s: Seq<Link>) -> bool {
    forall|i: int, j: int| 0 <= i < j < s.len() ==> s[i].id@ != s[j].id@
}

proof fn lemma_map_of_contains(s: Seq<Link>, k: Seq<char>)
    ensures
        map_of(s).contains_key(k) <==> exists|i: int| 0 <= i < s.len() && s[i].id@ == k,
    decreases s.len(),
{
    if s.len() > 0 {
        lemma_map_of_contains(s.drop_last(), k);
        if s.last().id@ == k {
            assert(s[s.len() - 1].id@ == k);
        } else if map_of(s).contains_key(k) {
            let i = choose|i: int| 0 <= i < s.drop_last().len() && s.drop_last()[i].id@ == k;
            assert(s[i].id@ == k);
        } else {
            assert(forall|i: int|
                0 <= i < s.len() - 1 ==> s.drop_last()[i] == s[i]);
        }
    }
}

proof fn lemma_map_of_get(s: Seq<Link>, i: int)
    requires
        ids_unique(s),
        0 <= i < s.len(),
    ensures
        map_of(s).contains_key(s[i].id@),
        map_of(s)[s[i].id@] == s[i].target_url@,
    decreases s.len(),
{
    if i == s.len() - 1 {
        assert(s.last() == s[i]);
    } else {
        assert(forall|j: int| 0 <= j < s.len() - 1 ==> s.drop_last()[j] == s[j]);
        lemma_map_of_get(s.drop_last(), i);
        assert(s[i].id@ != s.last().id@);
    }
}

proof fn lemma_map_of_push(s: Seq<Link>, l: Link)
    ensures
        map_of(s.push(l)) == map_of(s).insert(l.id@, l.target_url@),
{
    assert(s.push(l).drop_last() =~= s);
    assert(s.push(l).last() == l);
}

proof fn lemma_map_of_update(s: Seq<Link>, i: int, l: Link)
    requires
        ids_unique(s),
        0 <= i < s.len(),
        l.id@ == s[i].id@,
    ensures
        map_of(s.update(i, l)) == map_of(s).insert(l.id@, l.target_url@),
    decreases s.len(),
{
    let t = s.update(i, l);
    if i == s.len() - 1 {
        assert(t.drop_last() =~= s.drop_last());
        assert(t.last() == l);
        assert(s.last() == s[i]);
        assert(map_of(s).insert(s[i].id@, s[i].target_url@) =~= map_of(s));
        assert(map_of(t) == map_of(s.drop_last()).insert(l.id@, l.target_url@));
        assert(map_of(s.drop_last()).insert(l.id@, l.target_url@) =~= map_of(s).insert(
            l.id@,
            l.target_url@,
        ));
    } else {
        assert(forall|j: int| 0 <= j < s.len() - 1 ==> s.drop_last()[j] == s[j]);
        assert(t.drop_last() =~= s.drop_last().update(i, l));
        assert(t.last() == s.last());
        lemma_map_of_update(s.drop_last(), i, l);
        // The two inserted keys differ, so the inserts commute.
        assert(s.last().id@ != l.id@);
        assert(map_of(s.drop_last()).insert(l.id@, l.target_url@).insert(
            s.last().id@,
            s.last().target_url@,
        ) =~= map_of(s.drop_last()).insert(s.last().id@, s.last().target_url@).insert(
            l.id@,
            l.target_url@,
        ));
    }
}

/// In-memory embodiment of the relational link table: at most one row per
/// identifier; insert refuses duplicates; update replaces the target of an
/// existing row and nothing else.
pub struct LinkStore {
    links: Vec<Link>,
}

impl LinkStore {
    /// The rows hold pairwise distinct identifiers.
    pub closed spec fn wf(self) -> bool {
        ids_unique(self.links@)
    }

    /// The mapping from identifier to stored target URL.
    pub closed spec fn contents(self) -> Map<Seq<char>, Seq<char>> {
        map_of(self.links@)
    }

    /// An empty store.
    pub fn new() -> (s: LinkStore)
        ensures
            s.wf(),
            s.contents() == Map::<Seq<char>, Seq<char>>::empty(),
    {
        LinkStore { links: Vec::new() }
    }

    fn find_index(&self, id: &String) -> (r: Option<usize>)
        ensures
            r matches Some(i) ==> i < self.links@.len() && self.links@[i as int].id@ == id@,
            r is None ==> forall|j: int| 0 <= j < self.links@.len() ==> self.links@[j].id@ != id@,
    {
        let mut i: usize = 0;
        while i < self.links.len()
            invariant
                i <= self.links@.len(),
                forall|j: int| 0 <= j < i ==> self.links@[j].id@ != id@,
            decreases self.links@.len() - i,
        {
            if self.links[i].id == *id {
                return Some(i);
            }
            i += 1;
        }
        None
    }

    /// Insert a new row, atomically from the caller's point of view: refused
    /// with a duplicate-key failure, leaving the store untouched, exactly
    /// when the identifier is already present.
    pub fn insert(&mut self, link: Link) -> (r: Result<(), StoreError>)
        requires
            old(self).wf(),
        ensures
            final(self).wf(),
            old(self).contents().contains_key(link.id@) ==> r == Err::<(), StoreError>(
                StoreError::DuplicateKey,
            ) && *final(self) == *old(self),
            !old(self).contents().contains_key(link.id@) ==> r == Ok::<(), StoreError>(())
                && final(self).contents() == old(self).contents().insert(
                link.id@,
                link.target_url@,
            ),
    {
        proof {
            lemma_map_of_contains(self.links@, link.id@);
        }
        match self.find_index(&link.id) {
            Some(_) => Err(StoreError::DuplicateKey),
            None => {
                proof {
                    lemma_map_of_push(self.links@, link);
                    assert(ids_unique(self.links@.push(link)));
                }
                self.links.push(link);
                Ok(())
            },
        }
    }

    /// Look up a row by identifier: `Some` with the stored pair exactly when
    /// one exists.
    pub fn fetch_by_id(&self, id: &String) -> (r: Option<Link>)
        requires
            self.wf(),
        ensures
            r matches Some(l) ==> self.contents().contains_key(id@) && l.id@ == id@
                && l.target_url@ == self.contents()[id@],
            r is None ==> !self.contents().contains_key(id@),
    {
        proof {
            lemma_map_of_contains(self.links@, id@);
        }
        match self.find_index(id) {
            Some(i) => {
                proof {
                    lemma_map_of_get(self.links@, i as int);
                }
                Some(self.links[i].duplicate())
            },
            None => None,
        }
    }

    /// Replace the target URL of an existing row, returning the updated row;
    /// the identifier is never reassigned. Refused with a not-found failure,
    /// leaving the store untouched, exactly when no row has the identifier.
    pub fn update_target_url(&mut self, id: &String, new_url: &String) -> (r: Result<
        Link,
        StoreError,
    >)
        requires
            old(self).wf(),
        ensures
            final(self).wf(),
            old(self).contents().contains_key(id@) ==> (r matches Ok(l) && l.id@ == id@
                && l.target_url@ == new_url@) && final(self).contents() == old(
                self,
            ).contents().insert(id@, new_url@),
            !old(self).contents().contains_key(id@) ==> r == Err::<Link, StoreError>(
                StoreError::NotFound,
            ) && *final(self) == *old(self),
    {
        proof {
            lemma_map_of_contains(self.links@, id@);
        }
        match self.find_index(id) {
            Some(i) => {
                let row = Link { id: id.clone(), target_url: new_url.clone() };
                let ret = row.duplicate();
                proof {
                    lemma_map_of_update(self.links@, i as int, row);
                    assert(forall|j: int|
                        0 <= j < self.links@.len() ==> self.links@.update(i as int, row)[j].id@
                            == self.links@[j].id@);
                    assert(ids_unique(self.links@.update(i as int, row)));
                }
                self.links[i] = row;
                Ok(ret)
            },
            None => Err(StoreError::NotFound),
        }
    }
}

} // verus!
