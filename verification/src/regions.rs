use vstd::prelude::*;

verus! {

/// The region table that a list of `(id, region)` pairs describes: each id
/// maps to the region of its last occurrence in the list.
pub open spec fn pairs_map<R>(s: Seq<(Seq<char>, R)>) -> Map<Seq<char>, R>
    decreases s.len(),
{
    if s.len() == 0 {
        Map::empty()
    } else {
        pairs_map(s.drop_last()).insert(s.last().0, s.last().1)
    }
}

/// A list of `(id, region)` pairs with each id taken by its characters.
pub open spec fn named_view<R>(s: Seq<(String, R)>) -> Seq<(Seq<char>, R)> {
    s.map_values(|e: (String, R)| (e.0@, e.1))
}

/// No id occurs twice in the list.
pub open spec fn ids_distinct<R>(s: Seq<(Seq<char>, R)>) -> bool {
    forall|i: int, j: int| 0 <= i < j < s.len() ==> #[trigger] s[i].0 != #[trigger] s[j].0
}

/// An id is in the table of a list exactly when some pair of the list has it.
pub proof fn lemma_pairs_map_dom<R>(s: Seq<(Seq<char>, R)>, k: Seq<char>)
    ensures
        pairs_map(s).dom().contains(k) <==> exists|i: int| 0 <= i < s.len() && #[trigger] s[i].0
            == k,
    decreases s.len(),
{
    if s.len() > 0 {
        lemma_pairs_map_dom(s.drop_last(), k);
        if pairs_map(s.drop_last()).dom().contains(k) {
            let i = choose|i: int| 0 <= i < s.drop_last().len() && #[trigger] s.drop_last()[i].0 == k;
            assert(s[i].0 == k);
        }
        if exists|i: int| 0 <= i < s.len() && #[trigger] s[i].0 == k {
            let i = choose|i: int| 0 <= i < s.len() && #[trigger] s[i].0 == k;
            if i < s.len() - 1 {
                assert(s.drop_last()[i].0 == k);
            }
        }
    }
}

/// The last occurrence wins: an id maps to the region of the last pair that
/// carries it.
pub proof fn lemma_last_wins<R>(s: Seq<(Seq<char>, R)>, i: int)
    requires
        0 <= i < s.len(),
        forall|j: int| i < j < s.len() ==> #[trigger] s[j].0 != s[i].0,
    ensures
        pairs_map(s).dom().contains(s[i].0),
        pairs_map(s)[s[i].0] == s[i].1,
    decreases s.len(),
{
    if i < s.len() - 1 {
        let t = s.drop_last();
        assert forall|j: int| i < j < t.len() implies #[trigger] t[j].0 != t[i].0 by {
            assert(s[j].0 != s[i].0);
        }
        lemma_last_wins(t, i);
        assert(s.last().0 != s[i].0);
    }
}

/// Putting a pair in front of a list adds its id only when the rest of the
/// list does not carry it.
proof fn lemma_pairs_map_prepend<R>(x: (Seq<char>, R), t: Seq<(Seq<char>, R)>)
    ensures
        pairs_map(seq![x] + t) == (if pairs_map(t).dom().contains(x.0) {
            pairs_map(t)
        } else {
            pairs_map(t).insert(x.0, x.1)
        }),
    decreases t.len(),
{
    let s = seq![x] + t;
    if t.len() == 0 {
        assert(s.len() == 1);
        assert(s.last() == x);
        assert(s.drop_last() =~= Seq::<(Seq<char>, R)>::empty());
        assert(pairs_map(s.drop_last()) =~= Map::<Seq<char>, R>::empty());
        assert(pairs_map(t) =~= Map::<Seq<char>, R>::empty());
        assert(pairs_map(s) =~= pairs_map(t).insert(x.0, x.1));
    } else {
        let t0 = t.drop_last();
        assert(s.drop_last() =~= seq![x] + t0);
        assert(s.last() == t.last());
        lemma_pairs_map_prepend(x, t0);
        if pairs_map(t0).dom().contains(x.0) {
            assert(pairs_map(s) =~= pairs_map(t));
        } else if t.last().0 == x.0 {
            assert(pairs_map(s) =~= pairs_map(t));
        } else {
            assert(pairs_map(s) =~= pairs_map(t).insert(x.0, x.1));
        }
    }
}

/// A table of regions keyed by id. Each id occurs once; replacing the table
/// with a list keeps, for an id that occurs several times, its last region.
///
/// The table is a vector of distinct-id pairs rather than a `HashMap`: vstd
/// specifies `HashMap` operations only for key types whose hashing it models
/// (`obeys_key_model`), which it establishes for integers and `bool` but not
/// for `String`, so nothing about a `HashMap<String, _>` could be proved here.
pub struct RegionMap<R> {
    entries: Vec<(String, R)>,
}

impl<R> View for RegionMap<R> {
    type V = Map<Seq<char>, R>;

    closed spec fn view(&self) -> Map<Seq<char>, R> {
        pairs_map(named_view(self.entries@))
    }
}

/// Whether some pair of `entries` has the id `id`.
fn contains_id<R>(entries: &Vec<(String, R)>, id: &String) -> (r: bool)
    ensures
        r == exists|i: int| 0 <= i < entries@.len() && #[trigger] entries@[i].0@ == id@,
{
    let mut j: usize = 0;
    while j < entries.len()
        invariant
            j <= entries@.len(),
            forall|i: int| 0 <= i < j ==> #[trigger] entries@[i].0@ != id@,
        decreases entries@.len() - j,
    {
        if entries[j].0 == *id {
            return true;
        }
        j += 1;
    }
    false
}

impl<R> RegionMap<R> {
    #[verifier::type_invariant]
    spec fn inv(self) -> bool {
        ids_distinct(named_view(self.entries@))
    }

    /// Each stored pair is in the table, with its region.
    proof fn lemma_entries_in_view(&self)
        requires
            self.inv(),
        ensures
            forall|i: int|
                0 <= i < self.entries@.len() ==> #[trigger] self@.dom().contains(
                    self.entries@[i].0@,
                ) && self@[self.entries@[i].0@] == self.entries@[i].1,
            forall|k: Seq<char>|
                #[trigger] self@.dom().contains(k) ==> exists|i: int|
                    0 <= i < self.entries@.len() && #[trigger] self.entries@[i].0@ == k,
    {
        let s = named_view(self.entries@);
        assert forall|i: int| 0 <= i < self.entries@.len() implies #[trigger] self@.dom().contains(
            self.entries@[i].0@,
        ) && self@[self.entries@[i].0@] == self.entries@[i].1 by {
            assert(s[i] == (self.entries@[i].0@, self.entries@[i].1));
            assert forall|j: int| i < j < s.len() implies #[trigger] s[j].0 != s[i].0 by {}
            lemma_last_wins(s, i);
        }
        assert forall|k: Seq<char>| #[trigger] self@.dom().contains(k) implies exists|i: int|
            0 <= i < self.entries@.len() && #[trigger] self.entries@[i].0@ == k by {
            lemma_pairs_map_dom(s, k);
            let i = choose|i: int| 0 <= i < s.len() && #[trigger] s[i].0 == k;
            assert(self.entries@[i].0@ == k);
        }
    }

    /// An empty table.
    pub fn new() -> (r: Self)
        ensures
            r@ == Map::<Seq<char>, R>::empty(),
    {
        let r = RegionMap { entries: Vec::new() };
        assert(r@ =~= Map::<Seq<char>, R>::empty());
        r
    }

    /// Replace the whole table with the regions in `regions`, whatever it held
    /// before. An id that occurs more than once keeps its last region.
    pub fn replace(&mut self, regions: Vec<(String, R)>)
        ensures
            final(self)@ == pairs_map(named_view(regions@)),
    {
        let ghost orig = named_view(regions@);
        let mut regions = regions;
        let mut entries: Vec<(String, R)> = Vec::new();
        proof {
            assert(orig.subrange(0, orig.len() as int) =~= orig);
            assert(orig.subrange(orig.len() as int, orig.len() as int) =~= Seq::<
                (Seq<char>, R),
            >::empty());
            assert(named_view(entries@) =~= Seq::<(Seq<char>, R)>::empty());
        }
        while regions.len() > 0
            invariant
                regions@.len() <= orig.len(),
                named_view(regions@) =~= orig.subrange(0, regions@.len() as int),
                ids_distinct(named_view(entries@)),
                pairs_map(named_view(entries@)) == pairs_map(
                    orig.subrange(regions@.len() as int, orig.len() as int),
                ),
            decreases regions@.len(),
        {
            let ghost before = regions@;
            let ghost k = (regions@.len() - 1) as int;
            let ghost old_entries = named_view(entries@);
            let (id, rect) = regions.pop().unwrap();
            proof {
                assert(regions@ =~= before.drop_last());
                assert(named_view(regions@) =~= orig.subrange(0, k));
                assert(before[k] == (id, rect));
                assert(named_view(before)[k] == (before[k].0@, before[k].1));
                assert(named_view(before)[k] == orig[k]);
                assert(orig[k] == (id@, rect));
                assert(orig.subrange(k, orig.len() as int) =~= seq![orig[k]] + orig.subrange(
                    k + 1,
                    orig.len() as int,
                ));
                lemma_pairs_map_prepend(orig[k], orig.subrange(k + 1, orig.len() as int));
                lemma_pairs_map_dom(old_entries, id@);
            }
            let present = contains_id(&entries, &id);
            if !present {
                entries.push((id, rect));
                proof {
                    let s = named_view(entries@);
                    assert(s =~= old_entries.push((id@, rect)));
                    assert(s.drop_last() =~= old_entries);
                    assert forall|i: int, j: int| 0 <= i < j < s.len() implies #[trigger] s[i].0
                        != #[trigger] s[j].0 by {
                        if j == s.len() - 1 {
                            assert(old_entries[i].0 == s[i].0);
                            assert(entries@[i].0@ == old_entries[i].0);
                        }
                    }
                }
            } else {
                proof {
                    let i = choose|i: int|
                        0 <= i < entries@.len() && #[trigger] entries@[i].0@ == id@;
                    assert(old_entries[i].0 == id@);
                }
            }
        }
        proof {
            assert(orig.subrange(0, orig.len() as int) =~= orig);
        }
        self.entries = entries;
    }

    /// The region stored under `id`, if any.
    pub fn get(&self, id: &String) -> (r: Option<&R>)
        ensures
            r is Some <==> self@.dom().contains(id@),
            r matches Some(v) ==> *v == self@[id@],
    {
        proof {
            use_type_invariant(self);
            self.lemma_entries_in_view();
        }
        let mut j: usize = 0;
        while j < self.entries.len()
            invariant
                j <= self.entries@.len(),
                forall|i: int| 0 <= i < j ==> #[trigger] self.entries@[i].0@ != id@,
                forall|i: int|
                    0 <= i < self.entries@.len() ==> #[trigger] self@.dom().contains(
                        self.entries@[i].0@,
                    ) && self@[self.entries@[i].0@] == self.entries@[i].1,
                forall|k: Seq<char>|
                    #[trigger] self@.dom().contains(k) ==> exists|i: int|
                        0 <= i < self.entries@.len() && #[trigger] self.entries@[i].0@ == k,
            decreases self.entries@.len() - j,
        {
            if self.entries[j].0 == *id {
                assert(self@.dom().contains(self.entries@[j as int].0@));
                return Some(&self.entries[j].1);
            }
            j += 1;
        }
        None
    }

    /// Whether `f` holds of some region of the table. On an empty table this
    /// is `false`; `f` is called on each region at most once.
    pub fn any<F: Fn(&R) -> bool>(&self, f: F) -> (r: bool)
        requires
            forall|k: Seq<char>| #[trigger] self@.dom().contains(k) ==> f.requires((&self@[k],)),
        ensures
            r ==> exists|k: Seq<char>| #[trigger]
                self@.dom().contains(k) && f.ensures((&self@[k],), true),
            !r ==> forall|k: Seq<char>| #[trigger]
                self@.dom().contains(k) ==> f.ensures((&self@[k],), false),
    {
        proof {
            use_type_invariant(self);
            self.lemma_entries_in_view();
        }
        let mut j: usize = 0;
        while j < self.entries.len()
            invariant
                j <= self.entries@.len(),
                forall|i: int|
                    0 <= i < j ==> f.ensures((&self@[#[trigger] self.entries@[i].0@],), false),
                forall|k: Seq<char>| #[trigger] self@.dom().contains(k) ==> f.requires((&self@[k],)),
                forall|i: int|
                    0 <= i < self.entries@.len() ==> #[trigger] self@.dom().contains(
                        self.entries@[i].0@,
                    ) && self@[self.entries@[i].0@] == self.entries@[i].1,
                forall|k: Seq<char>|
                    #[trigger] self@.dom().contains(k) ==> exists|i: int|
                        0 <= i < self.entries@.len() && #[trigger] self.entries@[i].0@ == k,
            decreases self.entries@.len() - j,
        {
            let ghost k = self.entries@[j as int].0@;
            assert(self@.dom().contains(k));
            if f(&self.entries[j].1) {
                return true;
            }
            j += 1;
        }
        proof {
            assert forall|k: Seq<char>| #[trigger] self@.dom().contains(k) implies f.ensures(
                (&self@[k],),
                false,
            ) by {
                let i = choose|i: int|
                    0 <= i < self.entries@.len() && #[trigger] self.entries@[i].0@ == k;
                assert(f.ensures((&self@[self.entries@[i].0@],), false));
            }
        }
        false
    }
}

} // verus!
