//! Longest-match dictionary: a prefix tree from Unicode strings to an
//! arbitrary payload.  A query is matched greedily from the front: the
//! walk follows the query as deep as the tree allows and accepts the
//! payload found where it stops, so a shorter registered key is never
//! preferred over a longer one (see [`lemma_find_longest_match`]).
use vstd::prelude::*;

verus! {

/// A prefix-tree node: an optional payload for the key that ends here,
/// and one labelled subtree per distinct next character.
pub struct SpellTree<T> {
    pub meaning: Option<T>,
    pub branches: Vec<(char, SpellTree<T>)>,
}

impl<T> SpellTree<T> {
    /// True when some branch of this node is labelled `c`.
    pub open spec fn has_branch(self, c: char) -> bool {
        exists|j: int| 0 <= j < self.branches@.len() && self.branches@[j].0 == c
    }

    /// The subtree under the branch labelled `c` (well defined when the
    /// branch labels are distinct).
    pub open spec fn child(self, c: char) -> SpellTree<T> {
        self.branches@[choose|j: int|
            0 <= j < self.branches@.len() && self.branches@[j].0 == c].1
    }

    /// Well-formed: branch labels are distinct at every node.
    pub open spec fn wf(self) -> bool
        decreases self,
    {
        &&& (forall|j: int, k: int|
            0 <= j < k < self.branches@.len() ==> (#[trigger] self.branches@[j]).0 != (
            #[trigger] self.branches@[k]).0)
        &&& (forall|j: int|
            0 <= j < self.branches@.len() ==> (#[trigger] self.branches@[j]).1.wf())
    }

    /// The payload stored for the exact key `s`, if any.
    pub open spec fn val_at(self, s: Seq<char>) -> Option<T>
        decreases s.len(),
    {
        if s.len() == 0 {
            self.meaning
        } else if self.has_branch(s[0]) {
            self.child(s[0]).val_at(s.drop_first())
        } else {
            None
        }
    }

    /// True when `s` labels a node of the tree, that is, `s` is a
    /// prefix of some inserted key.
    pub open spec fn has_path(self, s: Seq<char>) -> bool
        decreases s.len(),
    {
        s.len() == 0 || (self.has_branch(s[0]) && self.child(s[0]).has_path(s.drop_first()))
    }

    /// The greedy lookup: follow the query as deep as the tree allows,
    /// then accept the payload of the node reached, handing back the
    /// unconsumed rest of the query beside it.
    pub open spec fn find_spec(self, t: Seq<char>) -> Option<(T, Seq<char>)>
        decreases t.len(),
    {
        if t.len() > 0 && self.has_branch(t[0]) {
            self.child(t[0]).find_spec(t.drop_first())
        } else {
            match self.meaning {
                Some(m) => Some((m, t)),
                None => None,
            }
        }
    }

    /// The empty dictionary.
    pub fn new() -> (r: SpellTree<T>)
        ensures
            r.wf(),
            forall|s: Seq<char>| #[trigger] r.val_at(s) is None,
            forall|p: Seq<char>| #[trigger] r.has_path(p) <==> p.len() == 0,
    {
        let r = SpellTree { meaning: None, branches: Vec::new() };
        proof {
            assert(forall|s: Seq<char>| s.len() > 0 ==> !r.has_branch(s[0]));
            assert(forall|s: Seq<char>| #[trigger] r.val_at(s) is None);
            assert(forall|p: Seq<char>| p.len() > 0 ==> !r.has_branch(p[0]));
        }
        r
    }

    /// The position of the branch labelled `c`, if one exists.
    fn branch_index(&self, c: char) -> (r: Option<usize>)
        ensures
            match r {
                Some(j) => j < self.branches@.len() && self.branches@[j as int].0 == c,
                None => !self.has_branch(c),
            },
    {
        let mut j: usize = 0;
        while j < self.branches.len()
            invariant
                j <= self.branches@.len(),
                forall|k: int| 0 <= k < j ==> (#[trigger] self.branches@[k]).0 != c,
            decreases self.branches@.len() - j,
        {
            if self.branches[j].0 == c {
                return Some(j);
            }
            j = j + 1;
        }
        None
    }

    /// In a well-formed node the branch at a position with label `c`
    /// is the subtree that `child` denotes.
    proof fn lemma_child_at(self, c: char, j: int)
        requires
            self.wf(),
            0 <= j < self.branches@.len(),
            self.branches@[j].0 == c,
        ensures
            self.has_branch(c),
            self.child(c) == self.branches@[j].1,
    {
        let k = choose|k: int| 0 <= k < self.branches@.len() && self.branches@[k].0 == c;
        assert(self.branches@[k].0 == c);
        if k != j {
            if k < j {
                assert(self.branches@[k].0 != self.branches@[j].0);
            } else {
                assert(self.branches@[j].0 != self.branches@[k].0);
            }
        }
    }

    /// Inserts the tail of `term` from character `i` on, returning the
    /// tree by value.
    fn insert_at(self, term: &str, i: usize, meaning: T) -> (r: SpellTree<T>)
        requires
            self.wf(),
            i <= term@.len(),
        ensures
            r.wf(),
            forall|s: Seq<char>|
                #[trigger] r.val_at(s) == (if s == term@.skip(i as int) {
                    Some(meaning)
                } else {
                    self.val_at(s)
                }),
            forall|p: Seq<char>|
                #[trigger] r.has_path(p) <==> (self.has_path(p) || p.is_prefix_of(
                    term@.skip(i as int),
                )),
        decreases term@.len() - i,
    {
        let ghost selfg = self;
        let ghost key = term@.skip(i as int);
        let n = term.unicode_len();
        if i == n {
            proof {
                assert(key =~= Seq::<char>::empty());
            }
            let SpellTree { meaning: _, branches } = self;
            let r = SpellTree { meaning: Some(meaning), branches };
            proof {
                lemma_same_branches(selfg, r);
                assert forall|s: Seq<char>|
                    #[trigger] r.val_at(s) == (if s == key {
                        Some(meaning)
                    } else {
                        selfg.val_at(s)
                    }) by {
                    if s.len() == 0 {
                        assert(s =~= key);
                    }
                }
                assert forall|p: Seq<char>|
                    #[trigger] r.has_path(p) <==> (selfg.has_path(p) || p.is_prefix_of(key)) by {
                    if p.len() == 0 {
                        assert(p =~= key);
                    }
                }
            }
            r
        } else {
            let c = term.get_char(i);
            proof {
                assert(key.len() > 0 && key[0] == c);
                assert(key.drop_first() =~= term@.skip(i + 1));
            }
            match self.branch_index(c) {
                Some(j) => {
                    proof {
                        self.lemma_child_at(c, j as int);
                    }
                    let SpellTree { meaning: root_meaning, branches: mut bs } = self;
                    let (bc, sub) = bs.remove(j);
                    let ghost subg = sub;
                    let sub2 = sub.insert_at(term, i + 1, meaning);
                    bs.insert(j, (bc, sub2));
                    let r = SpellTree { meaning: root_meaning, branches: bs };
                    proof {
                        assert(r.branches@ =~= selfg.branches@.update(j as int, (c, sub2)));
                        assert forall|x: char|
                            #[trigger] r.has_branch(x) == selfg.has_branch(x) by {
                            if selfg.has_branch(x) {
                                let k = choose|k: int|
                                    0 <= k < selfg.branches@.len() && selfg.branches@[k].0 == x;
                                assert(r.branches@[k].0 == x);
                            }
                            if r.has_branch(x) {
                                let k = choose|k: int|
                                    0 <= k < r.branches@.len() && r.branches@[k].0 == x;
                                assert(selfg.branches@[k].0 == x);
                            }
                        }
                        r.lemma_child_at(c, j as int);
                        assert(r.child(c) == sub2);
                        assert forall|x: char| x != c && r.has_branch(x) implies r.child(x)
                            == selfg.child(x) by {
                            let k = choose|k: int|
                                0 <= k < selfg.branches@.len() && selfg.branches@[k].0 == x;
                            assert(r.branches@[k] == selfg.branches@[k]);
                            r.lemma_child_at(x, k);
                            selfg.lemma_child_at(x, k);
                        }
                        assert forall|s: Seq<char>|
                            #[trigger] r.val_at(s) == (if s == key {
                                Some(meaning)
                            } else {
                                selfg.val_at(s)
                            }) by {
                            if s.len() == 0 {
                                assert(s != key);
                            } else if s[0] == c {
                                assert(r.val_at(s) == sub2.val_at(s.drop_first()));
                                assert(selfg.val_at(s) == subg.val_at(s.drop_first()));
                                lemma_cons_eq(s, key);
                            } else {
                                assert(s != key);
                            }
                        }
                        assert forall|p: Seq<char>|
                            #[trigger] r.has_path(p) <==> (selfg.has_path(p) || p.is_prefix_of(
                                key,
                            )) by {
                            if p.len() == 0 {
                                assert(p.is_prefix_of(key));
                            } else if p[0] == c {
                                assert(r.has_path(p) == sub2.has_path(p.drop_first()));
                                assert(selfg.has_path(p) == subg.has_path(p.drop_first()));
                                lemma_cons_prefix(p, key);
                            } else {
                                assert(!p.is_prefix_of(key)) by {
                                    if p.is_prefix_of(key) {
                                        assert(p[0] == key[0]);
                                    }
                                }
                            }
                        }
                    }
                    r
                },
                None => {
                    let sub0: SpellTree<T> = SpellTree { meaning: None, branches: Vec::new() };
                    proof {
                        assert(forall|s: Seq<char>| s.len() > 0 ==> !sub0.has_branch(s[0]));
                        assert(forall|s: Seq<char>|
                            #[trigger] sub0.val_at(s) == (if s.len() == 0 {
                                None::<T>
                            } else {
                                None::<T>
                            }));
                        assert(forall|p: Seq<char>| #[trigger] sub0.has_path(p) <==> p.len() == 0);
                    }
                    let sub2 = sub0.insert_at(term, i + 1, meaning);
                    let SpellTree { meaning: root_meaning, branches: mut bs } = self;
                    bs.push((c, sub2));
                    let r = SpellTree { meaning: root_meaning, branches: bs };
                    proof {
                        let ghost m = selfg.branches@.len() as int;
                        assert(r.branches@ =~= selfg.branches@.push((c, sub2)));
                        assert forall|x: char| x != c implies #[trigger] r.has_branch(x)
                            == selfg.has_branch(x) by {
                            if selfg.has_branch(x) {
                                let k = choose|k: int|
                                    0 <= k < selfg.branches@.len() && selfg.branches@[k].0 == x;
                                assert(r.branches@[k].0 == x);
                            }
                            if r.has_branch(x) {
                                let k = choose|k: int|
                                    0 <= k < r.branches@.len() && r.branches@[k].0 == x;
                                assert(k < m);
                                assert(selfg.branches@[k].0 == x);
                            }
                        }
                        assert(r.branches@[m].0 == c);
                        r.lemma_child_at(c, m);
                        assert(r.child(c) == sub2);
                        assert forall|x: char| x != c && r.has_branch(x) implies r.child(x)
                            == selfg.child(x) by {
                            let k = choose|k: int|
                                0 <= k < selfg.branches@.len() && selfg.branches@[k].0 == x;
                            assert(r.branches@[k] == selfg.branches@[k]);
                            r.lemma_child_at(x, k);
                            selfg.lemma_child_at(x, k);
                        }
                        assert forall|s: Seq<char>|
                            #[trigger] r.val_at(s) == (if s == key {
                                Some(meaning)
                            } else {
                                selfg.val_at(s)
                            }) by {
                            if s.len() == 0 {
                                assert(s != key);
                            } else if s[0] == c {
                                assert(r.val_at(s) == sub2.val_at(s.drop_first()));
                                assert(!selfg.has_branch(c));
                                assert(selfg.val_at(s) is None);
                                lemma_cons_eq(s, key);
                            } else {
                                assert(s != key);
                            }
                        }
                        assert forall|p: Seq<char>|
                            #[trigger] r.has_path(p) <==> (selfg.has_path(p) || p.is_prefix_of(
                                key,
                            )) by {
                            if p.len() == 0 {
                                assert(p.is_prefix_of(key));
                            } else if p[0] == c {
                                assert(r.has_path(p) == sub2.has_path(p.drop_first()));
                                assert(!selfg.has_branch(c));
                                assert(!selfg.has_path(p));
                                lemma_cons_prefix(p, key);
                            } else {
                                assert(!p.is_prefix_of(key)) by {
                                    if p.is_prefix_of(key) {
                                        assert(p[0] == key[0]);
                                    }
                                }
                            }
                        }
                    }
                    r
                },
            }
        }
    }

    /// Registers `term` with the given payload, overwriting the payload
    /// of an equal earlier key: one node is walked or created per
    /// character of the key, and the payload is set at the last.
    pub fn insert(&mut self, term: &str, meaning: T)
        requires
            old(self).wf(),
        ensures
            final(self).wf(),
            forall|s: Seq<char>|
                #[trigger] final(self).val_at(s) == (if s == term@ {
                    Some(meaning)
                } else {
                    old(self).val_at(s)
                }),
            forall|p: Seq<char>|
                #[trigger] final(self).has_path(p) <==> (old(self).has_path(p) || p.is_prefix_of(
                    term@,
                )),
    {
        let mut tmp: SpellTree<T> = SpellTree { meaning: None, branches: Vec::new() };
        core::mem::swap(self, &mut tmp);
        proof {
            assert(term@.skip(0) =~= term@);
        }
        *self = tmp.insert_at(term, 0, meaning);
    }

    /// Greedy longest-match lookup: walks branches from the front of
    /// `term` as far as the tree allows, and yields the payload found
    /// where the walk stops together with the unconsumed remainder.
    pub fn find<'a>(&self, term: &'a str) -> (r: Option<(T, &'a str)>)
        where
            T: Copy,
        requires
            self.wf(),
        ensures
            match r {
                Some(p) => self.find_spec(term@) == Some((p.0, p.1@)),
                None => self.find_spec(term@) is None,
            },
        decreases term@.len(),
    {
        let n = term.unicode_len();
        if n > 0 {
            let c = term.get_char(0);
            match self.branch_index(c) {
                Some(j) => {
                    proof {
                        self.lemma_child_at(c, j as int);
                        assert(term@.drop_first() =~= term@.subrange(1, n as int));
                    }
                    let rest = term.substring_char(1, n);
                    return self.branches[j].1.find(rest);
                },
                None => {},
            }
        }
        match &self.meaning {
            Some(m) => Some((*m, term)),
            None => None,
        }
    }

    /// True when this node has no branches at all.
    pub fn is_leaf(&self) -> (r: bool)
        ensures
            r == (self.branches@.len() == 0),
    {
        self.branches.len() == 0
    }

    /// The number that `total_nodes` reports: each leaf below this node
    /// counts one.
    pub open spec fn total_nodes_spec(self) -> nat
        decreases self, 1int, 0int,
    {
        self.count_upto(self.branches@.len() as int)
    }

    /// The leaves counted over the first `k` branches of this node.
    pub open spec fn count_upto(self, k: int) -> nat
        decreases self, 0int, k,
    {
        if k <= 0 {
            0
        } else if k > self.branches@.len() {
            self.count_upto(self.branches@.len() as int)
        } else {
            self.count_upto(k - 1) + (if self.branches@[k - 1].1.branches@.len() == 0 {
                1nat
            } else {
                self.branches@[k - 1].1.total_nodes_spec()
            })
        }
    }

    /// The count over a first part of the branches never exceeds the
    /// count over a longer first part.
    proof fn lemma_count_upto_mono(self, j: int, k: int)
        requires
            j <= k,
        ensures
            self.count_upto(j) <= self.count_upto(k),
        decreases k - j,
    {
        if j < k {
            self.lemma_count_upto_mono(j, k - 1);
        }
    }

    /// Counts the leaves reachable below this node.
    pub fn total_nodes(&self) -> (r: usize)
        requires
            self.total_nodes_spec() <= usize::MAX,
        ensures
            r == self.total_nodes_spec(),
        decreases *self,
    {
        let mut acc: usize = 0;
        let mut j: usize = 0;
        let m = self.branches.len();
        while j < m
            invariant
                j <= m,
                m == self.branches@.len(),
                acc == self.count_upto(j as int),
                self.total_nodes_spec() <= usize::MAX,
            decreases m - j,
        {
            proof {
                self.lemma_count_upto_mono(j + 1, m as int);
            }
            let node = &self.branches[j].1;
            if node.is_leaf() {
                acc = acc + 1;
            } else {
                acc = acc + node.total_nodes();
            }
            j = j + 1;
        }
        acc
    }

    /// Builds a dictionary holding every listed key with its payload;
    /// a later entry with an equal key overwrites an earlier one.
    pub fn build_from(list: &Vec<(&str, T)>) -> (r: SpellTree<T>)
        where
            T: Copy,
        ensures
            r.wf(),
            forall|s: Seq<char>| #[trigger] r.val_at(s) == entries_val(entry_views(list@), s),
            forall|p: Seq<char>|
                #[trigger] r.has_path(p) <==> (p.len() == 0 || entries_path(
                    entry_views(list@),
                    p,
                )),
    {
        let mut root: SpellTree<T> = SpellTree::new();
        let mut idx: usize = 0;
        proof {
            assert(entry_views(list@).take(0) =~= Seq::<(Seq<char>, T)>::empty());
        }
        while idx < list.len()
            invariant
                root.wf(),
                idx <= list@.len(),
                forall|s: Seq<char>|
                    #[trigger] root.val_at(s) == entries_val(
                        entry_views(list@).take(idx as int),
                        s,
                    ),
                forall|p: Seq<char>|
                    #[trigger] root.has_path(p) <==> (p.len() == 0 || entries_path(
                        entry_views(list@).take(idx as int),
                        p,
                    )),
            decreases list@.len() - idx,
        {
            let (term, meaning) = list[idx];
            root.insert(term, meaning);
            proof {
                let evs = entry_views(list@);
                assert(evs[idx as int] == (term@, meaning));
                assert(evs.take(idx + 1).drop_last() =~= evs.take(idx as int));
                assert(evs.take(idx + 1).last() == evs[idx as int]);
            }
            idx = idx + 1;
        }
        proof {
            assert(entry_views(list@).take(idx as int) =~= entry_views(list@));
        }
        root
    }
}

/// The listed entries with each key taken as its character sequence.
pub open spec fn entry_views<T>(es: Seq<(&str, T)>) -> Seq<(Seq<char>, T)> {
    es.map_values(|e: (&str, T)| (e.0@, e.1))
}

/// The payload that the listed entries give to the exact key `s`: the
/// last entry with that key wins.
pub open spec fn entries_val<T>(es: Seq<(Seq<char>, T)>, s: Seq<char>) -> Option<T>
    decreases es.len(),
{
    if es.len() == 0 {
        None
    } else if s == es.last().0 {
        Some(es.last().1)
    } else {
        entries_val(es.drop_last(), s)
    }
}

/// True when `p` is a prefix of some listed key.
pub open spec fn entries_path<T>(es: Seq<(Seq<char>, T)>, p: Seq<char>) -> bool
    decreases es.len(),
{
    if es.len() == 0 {
        false
    } else {
        p.is_prefix_of(es.last().0) || entries_path(es.drop_last(), p)
    }
}

/// Two trees with the same branches agree on every non-empty key and
/// every non-empty path, whatever their own payloads are.
proof fn lemma_same_branches<T>(a: SpellTree<T>, b: SpellTree<T>)
    requires
        a.branches@ == b.branches@,
    ensures
        forall|s: Seq<char>| s.len() > 0 ==> a.val_at(s) == b.val_at(s),
        forall|p: Seq<char>| p.len() > 0 ==> (a.has_path(p) <==> b.has_path(p)),
{
    assert(forall|c: char| a.has_branch(c) == b.has_branch(c));
    assert(forall|c: char| a.child(c) == b.child(c));
}

/// Law of the longest match: when the greedy lookup yields a payload,
/// what it matched is a registered key, the remainder is the rest of
/// the query, and no longer prefix of the query is registered — a
/// shorter key never wins over a longer one.
pub proof fn lemma_find_longest_match<T>(t: SpellTree<T>, u: Seq<char>)
    requires
        t.wf(),
    ensures
        t.find_spec(u) matches Some(p) ==> {
            let d = u.len() - p.1.len();
            &&& 0 <= d <= u.len()
            &&& p.1 == u.skip(d as int)
            &&& t.val_at(u.take(d as int)) == Some(p.0)
            &&& forall|m: int| d < m <= u.len() ==> t.val_at(u.take(m)) is None
        },
    decreases u.len(),
{
    if u.len() > 0 && t.has_branch(u[0]) {
        let c = t.child(u[0]);
        assert(c.wf());
        lemma_find_longest_match(c, u.drop_first());
        if t.find_spec(u) is Some {
            let p = t.find_spec(u)->Some_0;
            let d = u.len() - p.1.len();
            assert(c.find_spec(u.drop_first()) == Some(p));
            let d2 = u.drop_first().len() - p.1.len();
            assert(d == d2 + 1);
            assert(p.1 =~= u.skip(d as int));
            assert(u.take(d as int).len() > 0);
            assert(u.take(d as int)[0] == u[0]);
            assert(u.take(d as int).drop_first() =~= u.drop_first().take(d2 as int));
            assert(t.val_at(u.take(d as int)) == c.val_at(u.drop_first().take(d2 as int)));
            assert forall|m: int| d < m <= u.len() implies t.val_at(u.take(m)) is None by {
                assert(u.take(m).len() > 0);
                assert(u.take(m)[0] == u[0]);
                assert(u.take(m).drop_first() =~= u.drop_first().take(m - 1));
                assert(t.val_at(u.take(m)) == c.val_at(u.drop_first().take(m - 1)));
            }
        }
    } else {
        if t.find_spec(u) is Some {
            let p = t.find_spec(u)->Some_0;
            let d = u.len() - p.1.len();
            assert(p.1 == u);
            assert(d == 0);
            assert(u.take(0) =~= Seq::<char>::empty());
            assert(u.skip(0) =~= u);
            assert forall|m: int| d < m <= u.len() implies t.val_at(u.take(m)) is None by {
                assert(u.take(m).len() > 0);
                assert(u.take(m)[0] == u[0]);
                assert(!t.has_branch(u.take(m)[0]));
            }
        }
    }
}

/// The largest `m` not above `k` such that the first `m` characters of
/// the query label a node of the tree.
pub open spec fn walk_depth_upto<T>(t: SpellTree<T>, u: Seq<char>, k: int) -> int
    decreases k,
{
    if k <= 0 {
        0
    } else if t.has_path(u.take(k)) {
        k
    } else {
        walk_depth_upto(t, u, k - 1)
    }
}

/// How deep the greedy walk follows the query into the tree.
pub open spec fn walk_depth<T>(t: SpellTree<T>, u: Seq<char>) -> int {
    walk_depth_upto(t, u, u.len() as int)
}

proof fn lemma_walk_depth_upto_bounds<T>(t: SpellTree<T>, u: Seq<char>, k: int)
    ensures
        0 <= walk_depth_upto(t, u, k),
        walk_depth_upto(t, u, k) <= k || walk_depth_upto(t, u, k) == 0,
    decreases k,
{
    if k > 0 && !t.has_path(u.take(k)) {
        lemma_walk_depth_upto_bounds(t, u, k - 1);
    }
}

proof fn lemma_walk_depth_upto_zero<T>(t: SpellTree<T>, u: Seq<char>, k: int)
    requires
        forall|m: int| 1 <= m <= k ==> !t.has_path(#[trigger] u.take(m)),
    ensures
        walk_depth_upto(t, u, k) == 0,
    decreases k,
{
    if k > 0 {
        lemma_walk_depth_upto_zero(t, u, k - 1);
    }
}

proof fn lemma_walk_depth_upto_step<T>(t: SpellTree<T>, u: Seq<char>, k: int)
    requires
        u.len() > 0,
        t.has_branch(u[0]),
        1 <= k <= u.len(),
    ensures
        walk_depth_upto(t, u, k) == walk_depth_upto(t.child(u[0]), u.drop_first(), k - 1) + 1,
    decreases k,
{
    let c = t.child(u[0]);
    let ud = u.drop_first();
    assert(u.take(k).len() > 0);
    assert(u.take(k)[0] == u[0]);
    assert(u.take(k).drop_first() =~= ud.take(k - 1));
    assert(t.has_path(u.take(k)) == c.has_path(ud.take(k - 1)));
    if k == 1 {
        assert(ud.take(0) =~= Seq::<char>::empty());
        assert(c.has_path(ud.take(0)));
        assert(t.has_path(u.take(1)));
    } else if !t.has_path(u.take(k)) {
        lemma_walk_depth_upto_step(t, u, k - 1);
    }
}

/// The greedy lookup, characterized by the tree's paths and keys: the
/// walk consumes exactly `walk_depth` characters, and the result is
/// the payload registered at the node where it stops.
pub proof fn lemma_find_spec_by_paths<T>(t: SpellTree<T>, u: Seq<char>)
    requires
        t.wf(),
    ensures
        ({
            let d = walk_depth(t, u);
            &&& 0 <= d <= u.len()
            &&& t.find_spec(u) == match t.val_at(u.take(d)) {
                Some(v) => Some((v, u.skip(d))),
                None => None::<(T, Seq<char>)>,
            }
        }),
    decreases u.len(),
{
    lemma_walk_depth_upto_bounds(t, u, u.len() as int);
    if u.len() > 0 && t.has_branch(u[0]) {
        let c = t.child(u[0]);
        let ud = u.drop_first();
        assert(c.wf());
        lemma_find_spec_by_paths(c, ud);
        lemma_walk_depth_upto_step(t, u, u.len() as int);
        let d2 = walk_depth(c, ud);
        let d = walk_depth(t, u);
        assert(d == d2 + 1);
        assert(u.take(d).len() > 0);
        assert(u.take(d)[0] == u[0]);
        assert(u.take(d).drop_first() =~= ud.take(d2));
        assert(t.val_at(u.take(d)) == c.val_at(ud.take(d2)));
        assert(u.skip(d) =~= ud.skip(d2));
        assert(t.find_spec(u) == c.find_spec(ud));
    } else {
        if u.len() > 0 {
            assert forall|m: int| 1 <= m <= u.len() implies !t.has_path(#[trigger] u.take(m)) by {
                assert(u.take(m)[0] == u[0]);
            }
        }
        lemma_walk_depth_upto_zero(t, u, u.len() as int);
        let d = walk_depth(t, u);
        assert(d == 0);
        assert(u.take(0) =~= Seq::<char>::empty());
        assert(u.skip(0) =~= u);
        assert(t.val_at(u.take(0)) == t.meaning);
    }
}

/// A non-empty sequence equals another with the same head exactly when
/// their tails are equal.
proof fn lemma_cons_eq(s: Seq<char>, key: Seq<char>)
    requires
        s.len() > 0,
        key.len() > 0,
        s[0] == key[0],
    ensures
        (s == key) <==> (s.drop_first() == key.drop_first()),
{
    if s.drop_first() == key.drop_first() {
        assert(s.drop_first().len() == s.len() - 1);
        assert(key.drop_first().len() == key.len() - 1);
        assert(s.len() == key.len());
        assert forall|q: int| 0 <= q < s.len() implies s[q] == key[q] by {
            if q > 0 {
                assert(s[q] == s.drop_first()[q - 1]);
                assert(key[q] == key.drop_first()[q - 1]);
            }
        }
        assert(s =~= key);
    }
    if s == key {
        assert(s.drop_first() =~= key.drop_first());
    }
}

/// A non-empty sequence is a prefix of another with the same head
/// exactly when its tail is a prefix of the other's tail.
proof fn lemma_cons_prefix(p: Seq<char>, key: Seq<char>)
    requires
        p.len() > 0,
        key.len() > 0,
        p[0] == key[0],
    ensures
        p.is_prefix_of(key) <==> p.drop_first().is_prefix_of(key.drop_first()),
{
    let pd = p.drop_first();
    let kd = key.drop_first();
    if pd.is_prefix_of(kd) {
        assert(p.len() <= key.len());
        assert forall|q: int| 0 <= q < p.len() implies p[q] == key.subrange(
            0,
            p.len() as int,
        )[q] by {
            if q > 0 {
                assert(p[q] == pd[q - 1]);
                assert(pd[q - 1] == kd.subrange(0, pd.len() as int)[q - 1]);
                assert(kd[q - 1] == key[q]);
            }
        }
        assert(p =~= key.subrange(0, p.len() as int));
    }
    if p.is_prefix_of(key) {
        assert forall|q: int| 0 <= q < pd.len() implies pd[q] == kd.subrange(
            0,
            pd.len() as int,
        )[q] by {
            assert(pd[q] == p[q + 1]);
            assert(p[q + 1] == key.subrange(0, p.len() as int)[q + 1]);
            assert(key[q + 1] == kd[q]);
        }
        assert(pd =~= kd.subrange(0, pd.len() as int));
    }
}

} // verus!
