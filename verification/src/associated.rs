//! The artifacts associated with a value: an insertion-ordered set without duplicates,
//! shared behind an `Arc` and absent when empty.
//!
//! Artifacts are identified by `u64` ids.
use starlark_map::ordered_set::OrderedSet;
use std::sync::Arc;
use vstd::prelude::*;

verus! {

#[verifier::external_type_specification]
#[verifier::external_body]
#[verifier::reject_recursive_types(T)]
pub struct ExOrderedSet<T>(OrderedSet<T>);

/// What an `OrderedSet<u64>` holds, in insertion order.
pub uninterp spec fn ordered_set_contents(s: OrderedSet<u64>) -> Seq<u64>;

/// The sequence with every repeated element after its first occurrence removed.
pub open spec fn dedup(s: Seq<u64>) -> Seq<u64>
    decreases s.len(),
{
    if s.len() == 0 {
        Seq::empty()
    } else {
        let d = dedup(s.drop_last());
        if d.contains(s.last()) {
            d
        } else {
            d.push(s.last())
        }
    }
}

/// `OrderedSet::from_iter` over the items of a vector: the crate inserts them in order,
/// and inserting an element already present leaves the set unchanged, so the set holds
/// the items without repeats, in order of first occurrence.
#[verifier::external_body]
fn ordered_set_from_vec(items: Vec<u64>) -> (r: OrderedSet<u64>)
    ensures
        ordered_set_contents(r) == dedup(items@),
{
    items.into_iter().collect()
}

/// `OrderedSet::len`: the number of elements.
#[verifier::external_body]
fn ordered_set_len(s: &OrderedSet<u64>) -> (r: usize)
    ensures
        r == ordered_set_contents(*s).len(),
{
    s.len()
}

/// `OrderedSet::iter`, copied out: the elements in order.
#[verifier::external_body]
fn ordered_set_values(s: &OrderedSet<u64>) -> (r: Vec<u64>)
    ensures
        r@ == ordered_set_contents(*s),
{
    s.iter().copied().collect()
}

/// `Arc::clone`: another pointer to the same set.
#[verifier::external_body]
fn arc_set_clone(a: &Arc<OrderedSet<u64>>) -> (r: Arc<OrderedSet<u64>>)
    ensures
        r == *a,
{
    Arc::clone(a)
}

/// The artifacts associated with a value.
pub struct AssociatedArtifacts(Option<Arc<OrderedSet<u64>>>);

impl AssociatedArtifacts {
    /// The artifacts, in insertion order.
    pub closed spec fn spec_items(&self) -> Seq<u64> {
        match self.0 {
            Some(s) => ordered_set_contents(*s),
            None => Seq::empty(),
        }
    }

    /// No artifact occurs twice, and an empty set is represented by its absence.
    pub closed spec fn wf(&self) -> bool {
        &&& self.spec_items().no_duplicates()
        &&& (self.0 matches Some(s) ==> ordered_set_contents(*s).len() > 0)
    }

    /// No artifacts.
    pub fn new() -> (r: AssociatedArtifacts)
        ensures
            r.wf(),
            r.spec_items() == Seq::<u64>::empty(),
    {
        AssociatedArtifacts(None)
    }

    /// Another handle on the same artifacts.
    pub fn dupe(&self) -> (r: AssociatedArtifacts)
        ensures
            r.spec_items() == self.spec_items(),
            self.wf() ==> r.wf(),
    {
        match &self.0 {
            Some(s) => AssociatedArtifacts(Some(arc_set_clone(s))),
            None => AssociatedArtifacts(None),
        }
    }

    /// The artifacts of `self` followed by those of `other` not already present.
    pub fn union(&self, other: AssociatedArtifacts) -> (r: AssociatedArtifacts)
        requires
            self.wf(),
            other.wf(),
        ensures
            r.wf(),
            r.spec_items() == dedup(self.spec_items() + other.spec_items()),
            r.spec_items().len() >= self.spec_items().len(),
            r.spec_items().subrange(0, self.spec_items().len() as int) == self.spec_items(),
            r.spec_items().to_set() == self.spec_items().to_set() + other.spec_items().to_set(),
            r.spec_items().len() == (self.spec_items().to_set() + other.spec_items().to_set()).len(),
    {
        proof {
            lemma_union_members(self.spec_items(), other.spec_items());
            lemma_union_sets(self.spec_items(), other.spec_items());
            lemma_dedup_of_distinct(self.spec_items());
            lemma_dedup_of_distinct(other.spec_items());
            assert(self.spec_items() + Seq::<u64>::empty() =~= self.spec_items());
            assert(Seq::<u64>::empty() + other.spec_items() =~= other.spec_items());
        }
        match (&self.0, &other.0) {
            (_, None) => self.dupe(),
            (None, _) => other,
            (Some(left), Some(right)) => {
                let mut items = ordered_set_values(left);
                let mut more = ordered_set_values(right);
                items.append(&mut more);
                AssociatedArtifacts::from(items)
            },
        }
    }

    /// The given artifacts without repeats, in order of first occurrence.
    pub fn from(items: Vec<u64>) -> (r: AssociatedArtifacts)
        ensures
            r.wf(),
            r.spec_items() == dedup(items@),
    {
        let values = ordered_set_from_vec(items);
        proof {
            lemma_dedup_distinct(items@);
        }
        if ordered_set_len(&values) == 0 {
            proof {
                assert(dedup(items@) =~= Seq::<u64>::empty());
            }
            AssociatedArtifacts(None)
        } else {
            AssociatedArtifacts(Some(Arc::new(values)))
        }
    }

    /// The number of artifacts.
    pub fn len(&self) -> (r: usize)
        ensures
            r == self.spec_items().len(),
    {
        match &self.0 {
            Some(v) => ordered_set_len(v),
            None => 0,
        }
    }

    /// The artifacts, in order.
    pub fn iter(&self) -> (r: Vec<u64>)
        ensures
            r@ == self.spec_items(),
    {
        match &self.0 {
            Some(v) => ordered_set_values(v),
            None => Vec::new(),
        }
    }

    /// Whether there are no artifacts.
    pub fn is_empty(&self) -> (r: bool)
        ensures
            r == (self.spec_items().len() == 0),
    {
        self.len() == 0
    }
}

/// Valid artifacts hold no artifact twice.
pub proof fn lemma_artifacts_have_no_repeats(a: &AssociatedArtifacts)
    requires
        a.wf(),
    ensures
        a.spec_items().no_duplicates(),
{
}

/// The laws of union on valid artifacts: the union with no artifacts, on either side, is
/// the other operand, and the union of artifacts with themselves is themselves.
pub proof fn lemma_union_laws(a: &AssociatedArtifacts, b: &AssociatedArtifacts)
    requires
        a.wf(),
        b.wf(),
    ensures
        dedup(a.spec_items() + Seq::<u64>::empty()) == a.spec_items(),
        dedup(Seq::<u64>::empty() + b.spec_items()) == b.spec_items(),
        dedup(a.spec_items() + a.spec_items()) == a.spec_items(),
{
    lemma_union_with_empty(a.spec_items());
    lemma_union_with_empty(b.spec_items());
    lemma_union_idempotent(a.spec_items());
}

/// The union's artifacts are those of either operand, and there are as many as distinct
/// artifacts among them.
proof fn lemma_union_sets(a: Seq<u64>, b: Seq<u64>)
    requires
        a.no_duplicates(),
    ensures
        dedup(a + b).to_set() == a.to_set() + b.to_set(),
        dedup(a + b).len() == (a.to_set() + b.to_set()).len(),
{
    lemma_union_members(a, b);
    let d = dedup(a + b);
    assert(d.to_set() =~= a.to_set() + b.to_set()) by {
        assert forall|x: u64| d.to_set().contains(x) <==> (a.to_set() + b.to_set()).contains(x) by {
            assert(d.to_set().contains(x) <==> d.contains(x));
            assert(a.to_set().contains(x) <==> a.contains(x));
            assert(b.to_set().contains(x) <==> b.contains(x));
        }
    }
    d.unique_seq_to_set();
}

/// Removing repeats leaves no repeats, keeps exactly the elements, and never lengthens.
pub proof fn lemma_dedup_distinct(s: Seq<u64>)
    ensures
        dedup(s).no_duplicates(),
        forall|x: u64| dedup(s).contains(x) <==> s.contains(x),
        dedup(s).len() <= s.len(),
    decreases s.len(),
{
    if s.len() > 0 {
        lemma_dedup_distinct(s.drop_last());
        let d = dedup(s.drop_last());
        let p = s.drop_last();
        let l = s.last();
        assert forall|x: u64| s.contains(x) <==> (p.contains(x) || x == l) by {
            if s.contains(x) && x != l {
                let i = choose|i: int| 0 <= i < s.len() && s[i] == x;
                assert(p[i] == x);
            }
            if p.contains(x) {
                let i = choose|i: int| 0 <= i < p.len() && p[i] == x;
                assert(s[i] == x);
            }
            if x == l {
                assert(s[s.len() - 1] == x);
            }
        }
        assert forall|x: u64| d.push(l).contains(x) <==> (d.contains(x) || x == l) by {
            if d.push(l).contains(x) && x != l {
                let i = choose|i: int| 0 <= i < d.push(l).len() && d.push(l)[i] == x;
                assert(d[i] == x);
            }
            if d.contains(x) {
                let i = choose|i: int| 0 <= i < d.len() && d[i] == x;
                assert(d.push(l)[i] == x);
            }
            if x == l {
                assert(d.push(l)[d.len() as int] == x);
            }
        }
        if !d.contains(l) {
            assert forall|i: int, j: int| 0 <= i < j < d.push(l).len() implies d.push(l)[i] != d.push(l)[j] by {
                if j == d.len() {
                    assert(d[i] == d.push(l)[i]);
                }
            }
        }
    }
}

/// A sequence without repeats is left unchanged by removing repeats.
pub proof fn lemma_dedup_of_distinct(s: Seq<u64>)
    requires
        s.no_duplicates(),
    ensures
        dedup(s) == s,
    decreases s.len(),
{
    if s.len() > 0 {
        let p = s.drop_last();
        assert(p.no_duplicates());
        lemma_dedup_of_distinct(p);
        if p.contains(s.last()) {
            let i = choose|i: int| 0 <= i < p.len() && p[i] == s.last();
            assert(s[i] == s[s.len() - 1]);
        }
        assert(p.push(s.last()) =~= s);
    }
}


/// Appending artifacts that are all already present changes nothing.
proof fn lemma_dedup_absorbs_present(a: Seq<u64>, b: Seq<u64>)
    requires
        a.no_duplicates(),
        forall|i: int| 0 <= i < b.len() ==> a.contains(#[trigger] b[i]),
    ensures
        dedup(a + b) == a,
    decreases b.len(),
{
    if b.len() == 0 {
        assert(a + b =~= a);
        lemma_dedup_of_distinct(a);
    } else {
        let b2 = b.drop_last();
        lemma_dedup_absorbs_present(a, b2);
        assert((a + b).drop_last() =~= a + b2);
        assert((a + b).last() == b[b.len() - 1]);
    }
}

/// The union with no artifacts, on either side, is the other operand.
pub proof fn lemma_union_with_empty(a: Seq<u64>)
    requires
        a.no_duplicates(),
    ensures
        dedup(a + Seq::<u64>::empty()) == a,
        dedup(Seq::<u64>::empty() + a) == a,
{
    assert(a + Seq::<u64>::empty() =~= a);
    assert(Seq::<u64>::empty() + a =~= a);
    lemma_dedup_of_distinct(a);
}

/// The union of a set with itself is the set.
pub proof fn lemma_union_idempotent(a: Seq<u64>)
    requires
        a.no_duplicates(),
    ensures
        dedup(a + a) == a,
{
    assert forall|i: int| 0 <= i < a.len() implies a.contains(#[trigger] a[i]) by {}
    lemma_dedup_absorbs_present(a, a);
}

/// The union holds exactly the artifacts of either operand, once each, and starts with
/// the left operand.
pub proof fn lemma_union_members(a: Seq<u64>, b: Seq<u64>)
    requires
        a.no_duplicates(),
    ensures
        dedup(a + b).no_duplicates(),
        forall|x: u64| dedup(a + b).contains(x) <==> (a.contains(x) || b.contains(x)),
        dedup(a + b).len() >= a.len(),
        dedup(a + b).subrange(0, a.len() as int) == a,
{
    lemma_dedup_distinct(a + b);
    assert forall|x: u64| (a + b).contains(x) <==> (a.contains(x) || b.contains(x)) by {
        if (a + b).contains(x) {
            let i = choose|i: int| 0 <= i < (a + b).len() && (a + b)[i] == x;
            if i >= a.len() {
                assert(b[i - a.len()] == x);
            }
        }
        if a.contains(x) {
            let i = choose|i: int| 0 <= i < a.len() && a[i] == x;
            assert((a + b)[i] == x);
        }
        if b.contains(x) {
            let i = choose|i: int| 0 <= i < b.len() && b[i] == x;
            assert((a + b)[i + a.len()] == x);
        }
    }
    lemma_dedup_prefix(a, b);
}

/// Removing repeats from `a + b` keeps the distinct `a` in front.
proof fn lemma_dedup_prefix(a: Seq<u64>, b: Seq<u64>)
    requires
        a.no_duplicates(),
    ensures
        dedup(a + b).len() >= a.len(),
        dedup(a + b).subrange(0, a.len() as int) == a,
    decreases b.len(),
{
    if b.len() == 0 {
        assert(a + b =~= a);
        lemma_dedup_of_distinct(a);
        assert(a.subrange(0, a.len() as int) =~= a);
    } else {
        let b2 = b.drop_last();
        lemma_dedup_prefix(a, b2);
        assert((a + b).drop_last() =~= a + b2);
        let d = dedup(a + b2);
        if !d.contains((a + b).last()) {
            assert(d.push((a + b).last()).subrange(0, a.len() as int) =~= d.subrange(0, a.len() as int));
        }
    }
}

} // verus!
