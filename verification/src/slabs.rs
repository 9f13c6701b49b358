//! Trusted interface to `slab::Slab`, the keyed registry that holds waker tokens.
//!
//! Two instantiations are used: `Slab<u64>` (a waker token per entry) and
//! `Slab<(u64, u64)>` (a parent key and a waker token per entry).
use slab::Slab;
use vstd::prelude::*;

verus! {

#[verifier::external_type_specification]
#[verifier::external_body]
#[verifier::reject_recursive_types(T)]
pub struct ExSlab<T>(Slab<T>);

/// The entries of a token slab, by key.
pub type TokenEntries = Map<usize, u64>;

/// The entries of a pair slab, by key.
pub type PairEntries = Map<usize, (u64, u64)>;

/// What a `Slab<u64>` holds: its occupied keys and the value stored under each.
pub uninterp spec fn token_slab_contents(s: Slab<u64>) -> Map<usize, u64>;

/// What a `Slab<(u64, u64)>` holds: its occupied keys and the value stored under each.
pub uninterp spec fn pair_slab_contents(s: Slab<(u64, u64)>) -> Map<usize, (u64, u64)>;

/// `r` lists the values of `m` along `keys`: the keys are occupied and strictly
/// increasing, each value is the one stored under its key, and every occupied key occurs.
pub open spec fn listed_along<T>(m: Map<usize, T>, r: Seq<T>, keys: Seq<usize>) -> bool {
    &&& keys.len() == r.len()
    &&& forall|i: int, j: int| 0 <= i < j < keys.len() ==> keys[i] < keys[j]
    &&& forall|i: int| 0 <= i < keys.len() ==> m.dom().contains(#[trigger] keys[i]) && r[i] == m[keys[i]]
    &&& forall|k: usize| m.dom().contains(k) ==> #[trigger] keys.contains(k)
}

/// `r` holds the value of each entry of `m` once, in increasing key order.
pub open spec fn in_key_order<T>(m: Map<usize, T>, r: Seq<T>) -> bool {
    exists|keys: Seq<usize>| #[trigger] listed_along(m, r, keys)
}

/// `Slab::new`: the new slab has no entries.
#[verifier::external_body]
pub(crate) fn token_slab_new() -> (r: Slab<u64>)
    ensures
        token_slab_contents(r) == TokenEntries::empty(),
{
    Slab::new()
}

/// `Slab::insert`: the value is stored under a key that was vacant, which is returned;
/// no other entry changes. (It panics only when the slab's storage would exceed
/// `isize::MAX` bytes; nothing here bounds that.)
#[verifier::external_body]
pub(crate) fn token_slab_insert(s: &mut Slab<u64>, v: u64) -> (k: usize)
    ensures
        !token_slab_contents(*old(s)).dom().contains(k),
        token_slab_contents(*final(s)) == token_slab_contents(*old(s)).insert(k, v),
{
    s.insert(v)
}

/// `Slab::remove`: returns the value under an occupied key and vacates the key.
/// It panics on a vacant key, which `requires` rules out.
#[verifier::external_body]
pub(crate) fn token_slab_remove(s: &mut Slab<u64>, k: usize) -> (v: u64)
    requires
        token_slab_contents(*old(s)).dom().contains(k),
    ensures
        v == token_slab_contents(*old(s))[k],
        token_slab_contents(*final(s)) == token_slab_contents(*old(s)).remove(k),
{
    s.remove(k)
}

/// `Slab::contains`: whether the key is occupied.
#[verifier::external_body]
pub(crate) fn token_slab_contains(s: &Slab<u64>, k: usize) -> (b: bool)
    ensures
        b == token_slab_contents(*s).dom().contains(k),
{
    s.contains(k)
}

/// `Slab::is_empty`: true exactly when no key is occupied.
#[verifier::external_body]
pub(crate) fn token_slab_is_empty(s: &Slab<u64>) -> (b: bool)
    ensures
        b <==> token_slab_contents(*s).dom() == Set::<usize>::empty(),
{
    s.is_empty()
}

/// `Slab::drain`: removes every entry and yields the value of each entry once, by
/// increasing key.
#[verifier::external_body]
pub(crate) fn token_slab_drain(s: &mut Slab<u64>) -> (r: Vec<u64>)
    requires
        token_slab_contents(*old(s)).dom().finite(),
    ensures
        token_slab_contents(*final(s)) == TokenEntries::empty(),
        in_key_order(token_slab_contents(*old(s)), r@),
{
    s.drain().collect()
}

/// `Slab::new` for pairs.
#[verifier::external_body]
pub(crate) fn pair_slab_new() -> (r: Slab<(u64, u64)>)
    ensures
        pair_slab_contents(r) == PairEntries::empty(),
{
    Slab::new()
}

/// `Slab::insert` for pairs (same contract as for tokens; the allocation limit is not
/// stated either).
#[verifier::external_body]
pub(crate) fn pair_slab_insert(s: &mut Slab<(u64, u64)>, v: (u64, u64)) -> (k: usize)
    ensures
        !pair_slab_contents(*old(s)).dom().contains(k),
        pair_slab_contents(*final(s)) == pair_slab_contents(*old(s)).insert(k, v),
{
    s.insert(v)
}

/// `Slab::remove` for pairs; panics on a vacant key, which `requires` rules out.
#[verifier::external_body]
pub(crate) fn pair_slab_remove(s: &mut Slab<(u64, u64)>, k: usize) -> (v: (u64, u64))
    requires
        pair_slab_contents(*old(s)).dom().contains(k),
    ensures
        v == pair_slab_contents(*old(s))[k],
        pair_slab_contents(*final(s)) == pair_slab_contents(*old(s)).remove(k),
{
    s.remove(k)
}

/// `Slab::contains` for pairs: whether the key is occupied.
#[verifier::external_body]
pub(crate) fn pair_slab_contains(s: &Slab<(u64, u64)>, k: usize) -> (b: bool)
    ensures
        b == pair_slab_contents(*s).dom().contains(k),
{
    s.contains(k)
}

/// `Slab::is_empty` for pairs.
#[verifier::external_body]
pub(crate) fn pair_slab_is_empty(s: &Slab<(u64, u64)>) -> (b: bool)
    ensures
        b <==> pair_slab_contents(*s).dom() == Set::<usize>::empty(),
{
    s.is_empty()
}

/// `Slab::drain` for pairs: removes every entry and yields the value of each entry once,
/// by increasing key.
#[verifier::external_body]
pub(crate) fn pair_slab_drain(s: &mut Slab<(u64, u64)>) -> (r: Vec<(u64, u64)>)
    requires
        pair_slab_contents(*old(s)).dom().finite(),
    ensures
        pair_slab_contents(*final(s)) == PairEntries::empty(),
        in_key_order(pair_slab_contents(*old(s)), r@),
{
    s.drain().collect()
}

/// `Slab::iter` for pairs, keeping each stored value (the key is dropped): the value of
/// each entry once, by increasing key.
#[verifier::external_body]
pub(crate) fn pair_slab_values(s: &Slab<(u64, u64)>) -> (r: Vec<(u64, u64)>)
    requires
        pair_slab_contents(*s).dom().finite(),
    ensures
        in_key_order(pair_slab_contents(*s), r@),
{
    s.iter().map(|(_, v)| *v).collect()
}

} // verus!
