//! Tables of neighborhood records keyed by name.

use vstd::prelude::*;

use crate::types::NeighborhoodProperties;

verus! {

/// The record filed last under `name` in `s`, if any: a later record with a
/// name replaces an earlier one.
pub open spec fn lookup(s: Seq<NeighborhoodProperties>, name: Seq<char>) -> Option<NeighborhoodProperties>
    decreases s.len(),
{
    if s.len() == 0 {
        None
    } else if s.last().name@ == name {
        Some(s.last())
    } else {
        lookup(s.drop_last(), name)
    }
}

/// The number of distinct names in `s`.
pub open spec fn distinct_names(s: Seq<NeighborhoodProperties>) -> nat
    decreases s.len(),
{
    if s.len() == 0 {
        0
    } else if lookup(s.drop_last(), s.last().name@) is Some {
        distinct_names(s.drop_last())
    } else {
        distinct_names(s.drop_last()) + 1
    }
}

/// A record found under `name` carries that name.
proof fn lemma_lookup_name(s: Seq<NeighborhoodProperties>, name: Seq<char>)
    ensures
        lookup(s, name) is Some ==> lookup(s, name)->0.name@ == name,
    decreases s.len(),
{
    if s.len() > 0 && s.last().name@ != name {
        lemma_lookup_name(s.drop_last(), name);
    }
}

/// Whether `name` is one of `names`.
pub open spec fn listed(names: Seq<String>, name: Seq<char>) -> bool {
    exists|i: int| 0 <= i < names.len() && (#[trigger] names[i])@ == name
}

/// Whether the two optional records hold the same values.
pub open spec fn same_record(a: Option<NeighborhoodProperties>, b: Option<NeighborhoodProperties>) -> bool {
    match (a, b) {
        (Some(x), Some(y)) => x.same_as(y),
        (None, None) => true,
        _ => false,
    }
}

/// Neighborhood records that can be looked up by name.
#[derive(Clone, Debug)]
pub struct NeighborhoodDatabase {
    neighborhoods: Vec<NeighborhoodProperties>,
}

impl View for NeighborhoodDatabase {
    type V = Seq<NeighborhoodProperties>;

    closed spec fn view(&self) -> Seq<NeighborhoodProperties> {
        self.neighborhoods@
    }
}

/// A table of `properties` keyed by name; where two share a name, the later
/// one is kept.
pub fn lookup_neighborhoods_by_names(properties: &[NeighborhoodProperties]) -> (r: NeighborhoodDatabase)
    ensures
        forall|name: Seq<char>| #[trigger] same_record(lookup(r@, name), lookup(properties@, name)),
{
    let mut table = NeighborhoodDatabase::empty();
    let mut i: usize = 0;
    while i < properties.len()
        invariant
            i <= properties@.len(),
            forall|name: Seq<char>| #[trigger]
                same_record(lookup(table@, name), lookup(properties@.take(i as int), name)),
        decreases properties@.len() - i,
    {
        let ghost before = table@;
        let p = properties[i].duplicate();
        table.insert(p);
        proof {
            let next = properties@.take(i + 1);
            assert(next.drop_last() =~= properties@.take(i as int));
            assert(next.last() == properties@[i as int]);
            assert forall|name: Seq<char>| #[trigger]
                same_record(lookup(table@, name), lookup(next, name)) by {
                assert(same_record(lookup(before, name), lookup(properties@.take(i as int), name)));
                assert(lookup(table@, name) == if name == p.name@ {
                    Some(p)
                } else {
                    lookup(before, name)
                });
            }
        }
        i = i + 1;
    }
    assert(properties@.take(properties@.len() as int) =~= properties@);
    table
}

impl NeighborhoodDatabase {
    /// A table with no record.
    pub fn empty() -> (r: NeighborhoodDatabase)
        ensures
            r@ == Seq::<NeighborhoodProperties>::empty(),
    {
        NeighborhoodDatabase { neighborhoods: Vec::new() }
    }

    /// A table of `entries` keyed by name; where two share a name, the later
    /// one is kept.
    pub fn from_entries(entries: Vec<NeighborhoodProperties>) -> (r: NeighborhoodDatabase)
        ensures
            r@ == entries@,
    {
        NeighborhoodDatabase { neighborhoods: entries }
    }

    /// Files `p` under its name, replacing what was filed there.
    pub fn insert(&mut self, p: NeighborhoodProperties)
        ensures
            final(self)@ == old(self)@.push(p),
            forall|name: Seq<char>| #[trigger]
                lookup(final(self)@, name) == if name == p.name@ {
                    Some(p)
                } else {
                    lookup(old(self)@, name)
                },
    {
        self.neighborhoods.push(p);
        assert(self@.drop_last() =~= old(self)@);
    }

    /// A copy of the record filed under `name`, if there is one.
    pub fn find_by_name(&self, name: &str) -> (r: Option<NeighborhoodProperties>)
        ensures
            same_record(r, lookup(self@, name@)),
    {
        let key = name.to_owned();
        let mut i: usize = self.neighborhoods.len();
        assert(self@.take(self@.len() as int) =~= self@);
        while i > 0
            invariant
                i <= self@.len(),
                key@ == name@,
                lookup(self@, name@) == lookup(self@.take(i as int), name@),
            decreases i,
        {
            let p = &self.neighborhoods[i - 1];
            assert(self@.take(i as int).drop_last() =~= self@.take(i - 1));
            assert(self@.take(i as int).last() == self@[i - 1]);
            if p.name == key {
                return Some(p.duplicate());
            }
            i = i - 1;
        }
        None
    }

    /// The records filed under any of `names`, keyed by name.
    pub fn find_by_names(&self, names: &[String]) -> (r: NeighborhoodDatabase)
        ensures
            forall|name: Seq<char>|
                same_record(
                    #[trigger] lookup(r@, name),
                    if listed(names@, name) {
                        lookup(self@, name)
                    } else {
                        None
                    },
                ),
    {
        let mut result = NeighborhoodDatabase::empty();
        let mut i: usize = 0;
        while i < names.len()
            invariant
                i <= names@.len(),
                forall|name: Seq<char>|
                    same_record(
                        #[trigger] lookup(result@, name),
                        if listed(names@.take(i as int), name) {
                            lookup(self@, name)
                        } else {
                            None
                        },
                    ),
            decreases names@.len() - i,
        {
            let ghost before = result@;
            let found = self.find_by_name(names[i].as_str());
            if let Some(p) = found {
                result.insert(p);
            }
            proof {
                assert forall|name: Seq<char>|
                    listed(names@.take(i + 1), name) <==> (listed(names@.take(i as int), name)
                        || names@[i as int]@ == name) by {
                    if names@[i as int]@ == name {
                        assert(names@.take(i + 1)[i as int]@ == name);
                    }
                    if listed(names@.take(i as int), name) {
                        let j = choose|j: int| 0 <= j < i && (#[trigger] names@.take(i as int)[j])@ == name;
                        assert(names@.take(i + 1)[j]@ == name);
                    }
                    if listed(names@.take(i + 1), name) {
                        let j = choose|j: int| 0 <= j < i + 1 && (#[trigger] names@.take(i + 1)[j])@ == name;
                        if j < i {
                            assert(names@.take(i as int)[j]@ == name);
                        }
                    }
                }
                assert forall|name: Seq<char>|
                    same_record(
                        #[trigger] lookup(result@, name),
                        if listed(names@.take(i + 1), name) {
                            lookup(self@, name)
                        } else {
                            None
                        },
                    ) by {
                    assert(same_record(
                        lookup(before, name),
                        if listed(names@.take(i as int), name) {
                            lookup(self@, name)
                        } else {
                            None
                        },
                    ));
                    if let Some(p) = found {
                        lemma_lookup_name(self@, names@[i as int]@);
                        assert(lookup(result@, name) == if name == p.name@ {
                            Some(p)
                        } else {
                            lookup(before, name)
                        });
                    }
                }
            }
            i = i + 1;
        }
        assert(names@.take(names@.len() as int) =~= names@);
        result
    }

    /// The number of distinct names filed.
    pub fn count(&self) -> (r: usize)
        ensures
            r == distinct_names(self@),
    {
        let mut n: usize = 0;
        let mut i: usize = 0;
        while i < self.neighborhoods.len()
            invariant
                i <= self@.len(),
                n == distinct_names(self@.take(i as int)),
                n <= i,
            decreases self@.len() - i,
        {
            let prefix = NeighborhoodDatabase::prefix_has(&self.neighborhoods, i, self.neighborhoods[i].name.as_str());
            assert(self@.take(i + 1).drop_last() =~= self@.take(i as int));
            if !prefix {
                n = n + 1;
            }
            i = i + 1;
        }
        assert(self@.take(self@.len() as int) =~= self@);
        n
    }

    fn prefix_has(v: &Vec<NeighborhoodProperties>, len: usize, name: &str) -> (r: bool)
        requires
            len <= v@.len(),
        ensures
            r == lookup(v@.take(len as int), name@) is Some,
    {
        let key = name.to_owned();
        let mut i: usize = len;
        while i > 0
            invariant
                i <= len <= v@.len(),
                key@ == name@,
                lookup(v@.take(len as int), name@) == lookup(v@.take(i as int), name@),
            decreases i,
        {
            assert(v@.take(i as int).drop_last() =~= v@.take(i - 1));
            assert(v@.take(i as int).last() == v@[i - 1]);
            if v[i - 1].name == key {
                return true;
            }
            i = i - 1;
        }
        false
    }
}

} // verus!
