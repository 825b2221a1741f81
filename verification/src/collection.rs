//! Operations over ordered collections of tagged signals.
//!
//! Lookup, removal and replacement all go by kind equality, never by
//! payload. Removal of a batch of kinds is all-or-nothing: if any
//! requested kind is absent, nothing is removed. Replacement is lenient:
//! kinds with no match are silently skipped. The asymmetry is deliberate
//! and documented on the two operations.

use vstd::prelude::*;

use crate::io::IO;
use crate::kind::Kind;

verus! {

/// Whether some entry of `s` has the active kind `k`.
pub open spec fn has_kind<T>(s: Seq<IO<T>>, k: Kind) -> bool {
    exists|i: int| 0 <= i < s.len() && s[i].kind == k
}

/// The index of the first entry of `s` whose active kind is `k`.
/// Meaningful only when `has_kind(s, k)`.
pub open spec fn first_kind_index<T>(s: Seq<IO<T>>, k: Kind) -> int
    decreases s.len(),
{
    if s.len() == 0 {
        0
    } else if s[0].kind == k {
        0
    } else {
        1 + first_kind_index(s.drop_first(), k)
    }
}

/// The active kinds of a sequence of bare tags, in order.
pub open spec fn kinds_of(tags: Seq<IO<()>>) -> Seq<Kind> {
    tags.map_values(|t: IO<()>| t.kind)
}

/// `first_kind_index` returns the unique position that holds kind `k`
/// with no earlier match.
pub proof fn lemma_first_kind_index<T>(s: Seq<IO<T>>, k: Kind)
    requires
        has_kind(s, k),
    ensures
        0 <= first_kind_index(s, k) < s.len(),
        s[first_kind_index(s, k)].kind == k,
        forall|j: int| 0 <= j < first_kind_index(s, k) ==> s[j].kind != k,
    decreases s.len(),
{
    if s.len() == 0 {
    } else if s[0].kind == k {
    } else {
        let witness = choose|i: int| 0 <= i < s.len() && s[i].kind == k;
        assert(s.drop_first()[witness - 1] == s[witness]);
        assert(has_kind(s.drop_first(), k));
        lemma_first_kind_index(s.drop_first(), k);
        let f = first_kind_index(s.drop_first(), k);
        assert(s[1 + f] == s.drop_first()[f]);
        assert(forall|j: int| 0 <= j < 1 + f ==> s[j].kind != k) by {
            assert(forall|j: int| 1 <= j < 1 + f ==> s[j] == s.drop_first()[j - 1]);
        }
    }
}

/// Sequential batch removal: for each requested kind in order, the first
/// matching entry of the current state is removed and appended to the
/// removed list; if any requested kind has no match, the whole result is
/// nothing.
pub open spec fn spec_pops<T>(s: Seq<IO<T>>, ks: Seq<Kind>) -> Option<(Seq<IO<T>>, Seq<IO<T>>)>
    decreases ks.len(),
{
    if ks.len() == 0 {
        Some((Seq::<IO<T>>::empty(), s))
    } else if has_kind(s, ks[0]) {
        let i = first_kind_index(s, ks[0]);
        match spec_pops(s.remove(i), ks.drop_first()) {
            None => None,
            Some(pr) => Some((seq![s[i]] + pr.0, pr.1)),
        }
    } else {
        None
    }
}

/// Splitting the requested kinds in two: popping `k1 + k2` is popping
/// `k1`, then popping `k2` from what is left.
pub proof fn lemma_pops_append<T>(s: Seq<IO<T>>, k1: Seq<Kind>, k2: Seq<Kind>)
    ensures
        spec_pops(s, k1) is None ==> spec_pops(s, k1 + k2) is None,
        spec_pops(s, k1) matches Some(pr) ==> (match spec_pops(pr.1, k2) {
            None => spec_pops(s, k1 + k2) is None,
            Some(qr) => spec_pops(s, k1 + k2) matches Some(rr) && rr.0 =~= pr.0 + qr.0 && rr.1
                =~= qr.1,
        }),
    decreases k1.len(),
{
    if k1.len() == 0 {
        assert(k1 + k2 =~= k2);
        assert(spec_pops(s, k1) == Some((Seq::<IO<T>>::empty(), s)));
        match spec_pops(s, k2) {
            None => {},
            Some(qr) => {
                assert(Seq::<IO<T>>::empty() + qr.0 =~= qr.0);
            },
        }
    } else {
        assert((k1 + k2)[0] == k1[0]);
        assert((k1 + k2).len() > 0);
        if has_kind(s, k1[0]) {
            let i = first_kind_index(s, k1[0]);
            assert((k1 + k2).drop_first() =~= k1.drop_first() + k2);
            lemma_pops_append(s.remove(i), k1.drop_first(), k2);
            match spec_pops(s.remove(i), k1.drop_first()) {
                None => {
                    assert(spec_pops(s, k1) is None);
                    assert(spec_pops(s.remove(i), (k1 + k2).drop_first()) is None);
                    assert(spec_pops(s, k1 + k2) is None);
                },
                Some(pr1) => {
                    assert(spec_pops(s, k1) matches Some(pr) && pr.0 =~= seq![s[i]] + pr1.0
                        && pr.1 =~= pr1.1);
                    match spec_pops(pr1.1, k2) {
                        None => {},
                        Some(qr) => {
                            assert(seq![s[i]] + (pr1.0 + qr.0) =~= (seq![s[i]] + pr1.0) + qr.0);
                        },
                    }
                },
            }
        } else {
            assert(!has_kind(s, (k1 + k2)[0]));
        }
    }
}

/// Law: batch removal is all-or-nothing. When it succeeds, every
/// requested kind was present in the original collection; so a batch
/// naming any absent kind yields nothing, and by the contract of
/// [`pop_these`] the collection is then left fully intact.
pub proof fn lemma_pops_requires_all_present<T>(s: Seq<IO<T>>, ks: Seq<Kind>)
    requires
        spec_pops(s, ks) is Some,
    ensures
        forall|j: int| 0 <= j < ks.len() ==> has_kind(s, ks[j]),
    decreases ks.len(),
{
    if ks.len() == 0 {
    } else {
        assert(has_kind(s, ks[0]));
        lemma_first_kind_index(s, ks[0]);
        let i = first_kind_index(s, ks[0]);
        assert(spec_pops(s.remove(i), ks.drop_first()) is Some);
        lemma_pops_requires_all_present(s.remove(i), ks.drop_first());
        assert forall|j: int| 0 <= j < ks.len() implies has_kind(s, ks[j]) by {
            if j > 0 {
                assert(ks.drop_first()[j - 1] == ks[j]);
                assert(has_kind(s.remove(i), ks[j]));
                let w = choose|w: int|
                    0 <= w < s.remove(i).len() && s.remove(i)[w].kind == ks[j];
                if w < i {
                    assert(s.remove(i)[w] == s[w]);
                    assert(s[w].kind == ks[j]);
                } else {
                    assert(s.remove(i)[w] == s[w + 1]);
                    assert(s[w + 1].kind == ks[j]);
                }
                assert(has_kind(s, ks[j]));
            }
        }
    }
}

/// Law: a successful batch removal hands back exactly one entry per
/// requested kind, in request order, and shrinks the collection by as
/// many entries.
pub proof fn lemma_pops_returns_requested_kinds<T>(s: Seq<IO<T>>, ks: Seq<Kind>)
    requires
        spec_pops(s, ks) is Some,
    ensures
        spec_pops(s, ks) matches Some(pr) && pr.0.len() == ks.len() && pr.1.len() == s.len()
            - ks.len() && forall|j: int| 0 <= j < ks.len() ==> pr.0[j].kind == ks[j],
    decreases ks.len(),
{
    if ks.len() == 0 {
    } else {
        assert(has_kind(s, ks[0]));
        lemma_first_kind_index(s, ks[0]);
        let i = first_kind_index(s, ks[0]);
        assert(spec_pops(s.remove(i), ks.drop_first()) is Some);
        lemma_pops_returns_requested_kinds(s.remove(i), ks.drop_first());
        let pr = spec_pops(s, ks)->Some_0;
        let qr = spec_pops(s.remove(i), ks.drop_first())->Some_0;
        assert(pr.0 == seq![s[i]] + qr.0);
        assert forall|j: int| 0 <= j < ks.len() implies pr.0[j].kind == ks[j] by {
            if j == 0 {
                assert(pr.0[0] == s[i]);
            } else {
                assert(pr.0[j] == qr.0[j - 1]);
                assert(ks.drop_first()[j - 1] == ks[j]);
            }
        }
    }
}

/// Re-inserting removed entries at their recorded indices, last first,
/// rebuilds a sequence.
spec fn spec_restore<T>(cur: Seq<IO<T>>, at: Seq<usize>, xs: Seq<IO<T>>) -> Seq<IO<T>>
    decreases at.len(),
{
    if at.len() == 0 {
        cur
    } else {
        spec_restore(cur.insert(at.last() as int, xs.last()), at.drop_last(), xs.drop_last())
    }
}

/// Scans for the first entry of the collection that is kind-equal to the
/// given tag; nothing if the kind is absent. The companion callers use to
/// test presence before [`lookup`], whose contract demands it.
pub fn position_of_kind<T, U>(ios: &Vec<IO<T>>, tag: &IO<U>) -> (r: Option<usize>)
    ensures
        r matches Some(i) ==> i < ios@.len() && ios@[i as int].kind == tag.kind && i
            == first_kind_index(ios@, tag.kind),
        r is None ==> !has_kind(ios@, tag.kind),
{
    let mut i: usize = 0;
    while i < ios.len()
        invariant
            i <= ios@.len(),
            forall|j: int| 0 <= j < i ==> ios@[j].kind != tag.kind,
        decreases ios@.len() - i,
    {
        if ios[i].kind == tag.kind {
            proof {
                assert(ios@[i as int].kind == tag.kind);
                assert(has_kind(ios@, tag.kind));
                lemma_first_kind_index(ios@, tag.kind);
                let f = first_kind_index(ios@, tag.kind);
                assert(!(f < i) && !(i < f));
            }
            return Some(i);
        }
        i += 1;
    }
    None
}

/// Returns a reference to the first entry that is kind-equal to the tag.
/// The catalog guarantees every declared signal is present, so an absent
/// kind is a programming error: callers must establish presence, and an
/// unverified caller should treat absence as fatal.
pub fn lookup<'a, T, U>(ios: &'a Vec<IO<T>>, tag: &IO<U>) -> (r: &'a IO<T>)
    requires
        has_kind(ios@, tag.kind),
    ensures
        *r == ios@[first_kind_index(ios@, tag.kind)],
{
    let pos = position_of_kind(ios, tag);
    proof {
        lemma_first_kind_index(ios@, tag.kind);
    }
    match pos {
        Some(i) => &ios[i],
        None => vstd::pervasive::unreached(),
    }
}

/// Removes and returns, in the order of the requested tags, the first
/// entry matching each tag's kind, searching the successively reduced
/// collection. All-or-nothing: if any requested kind is absent at its
/// turn, nothing is returned and the collection is left fully intact.
pub fn pop_these<T>(ios: &mut Vec<IO<T>>, tags: &Vec<IO<()>>) -> (r: Option<Vec<IO<T>>>)
    ensures
        r is Some <==> spec_pops(old(ios)@, kinds_of(tags@)) is Some,
        r matches Some(v) ==> (spec_pops(old(ios)@, kinds_of(tags@)) matches Some(pr) && v@ == pr.0
            && final(ios)@ == pr.1),
        r is None ==> final(ios)@ == old(ios)@,
{
    let ghost orig = ios@;
    let ghost ks = kinds_of(tags@);
    let mut removed: Vec<IO<T>> = Vec::new();
    let mut undo: Vec<usize> = Vec::new();
    let mut ti: usize = 0;
    while ti < tags.len()
        invariant
            ti <= tags@.len(),
            undo@.len() == ti,
            removed@.len() == ti,
            orig == old(ios)@,
            ks == kinds_of(tags@),
            ks.len() == tags@.len(),
            ios@.len() + ti == orig.len(),
            forall|j: int| 0 <= j < ti ==> undo@[j] < orig.len() - j,
            spec_pops(orig, ks.take(ti as int)) matches Some(pr) && pr.0 == removed@ && pr.1
                == ios@,
            spec_restore(ios@, undo@, removed@) == orig,
        decreases tags@.len() - ti,
    {
        let tag = &tags[ti];
        proof {
            assert(ks[ti as int] == tags@[ti as int].kind);
        }
        match position_of_kind(ios, tag) {
            Some(i) => {
                let ghost pre_ios = ios@;
                let ghost pre_removed = removed@;
                let ghost pre_undo = undo@;
                let x = ios.remove(i);
                removed.push(x);
                undo.push(i);
                proof {
                    // One more requested kind: extend the popped prefix.
                    lemma_pops_append(orig, ks.take(ti as int), seq![ks[ti as int]]);
                    assert(ks.take(ti as int) + seq![ks[ti as int]] =~= ks.take(ti + 1));
                    let k = ks[ti as int];
                    assert(has_kind(pre_ios, k)) by {
                        assert(pre_ios[i as int].kind == k);
                    }
                    assert(seq![k].drop_first().len() == 0);
                    assert(spec_pops(pre_ios.remove(i as int), seq![k].drop_first()) == Some(
                        (Seq::<IO<T>>::empty(), pre_ios.remove(i as int)),
                    ));
                    assert(spec_pops(pre_ios, seq![k]) matches Some(qr) && qr.0
                        =~= seq![pre_ios[i as int]] && qr.1 =~= pre_ios.remove(i as int)) by {
                        assert(seq![pre_ios[i as int]] + Seq::<IO<T>>::empty()
                            =~= seq![pre_ios[i as int]]);
                    }
                    assert(spec_pops(orig, ks.take(ti + 1)) matches Some(pr) && pr.0 == removed@
                        && pr.1 == ios@) by {
                        assert(pre_removed + seq![pre_ios[i as int]] =~= removed@);
                    }
                    // The undo trail still rebuilds the original.
                    assert(spec_restore(ios@, undo@, removed@) == orig) by {
                        assert(undo@.drop_last() =~= pre_undo);
                        assert(removed@.drop_last() =~= pre_removed);
                        assert(undo@.last() == i);
                        assert(removed@.last() == pre_ios[i as int]);
                        assert(ios@.insert(i as int, pre_ios[i as int]) =~= pre_ios);
                        assert(spec_restore(ios@, undo@, removed@) == spec_restore(
                            pre_ios,
                            pre_undo,
                            pre_removed,
                        ));
                    }
                }
                ti += 1;
            },
            None => {
                proof {
                    // The requested kind is absent: the whole batch fails.
                    lemma_pops_append(orig, ks.take(ti as int), ks.skip(ti as int));
                    assert(ks.take(ti as int) + ks.skip(ti as int) =~= ks);
                    assert(ks.skip(ti as int).len() > 0);
                    assert(ks.skip(ti as int)[0] == ks[ti as int]);
                    assert(spec_pops(ios@, ks.skip(ti as int)) is None);
                    assert(spec_pops(orig, ks) is None);
                }
                // Roll back: re-insert what was removed, last first.
                while undo.len() > 0
                    invariant
                        undo@.len() == removed@.len(),
                        ios@.len() + undo@.len() == orig.len(),
                        forall|j: int| 0 <= j < undo@.len() ==> undo@[j] < orig.len() - j,
                        spec_restore(ios@, undo@, removed@) == orig,
                        orig == old(ios)@,
                        spec_pops(orig, kinds_of(tags@)) is None,
                    decreases undo@.len(),
                {
                    let ghost pre_ios = ios@;
                    let ghost pre_removed = removed@;
                    let ghost pre_undo = undo@;
                    let at = undo.pop().unwrap();
                    let x = removed.pop().unwrap();
                    ios.insert(at, x);
                    proof {
                        assert(pre_undo.drop_last() =~= undo@);
                        assert(pre_removed.drop_last() =~= removed@);
                        assert(spec_restore(pre_ios, pre_undo, pre_removed) == spec_restore(
                            ios@,
                            undo@,
                            removed@,
                        ));
                    }
                }
                proof {
                    assert(undo@.len() == 0);
                    assert(spec_restore(ios@, undo@, removed@) == ios@);
                }
                return None;
            },
        }
    }
    proof {
        assert(ks.take(ti as int) =~= ks);
    }
    Some(removed)
}

/// Removes and returns the first entry kind-equal to `tag`; nothing, and
/// no change, if the kind is absent.
pub fn pop_this<T>(ios: &mut Vec<IO<T>>, tag: &IO<()>) -> (r: Option<IO<T>>)
    ensures
        !has_kind(old(ios)@, tag.kind) ==> r is None && final(ios)@ == old(ios)@,
        has_kind(old(ios)@, tag.kind) ==> (r matches Some(x) && x == old(ios)@[first_kind_index(
            old(ios)@,
            tag.kind,
        )] && final(ios)@ == old(ios)@.remove(first_kind_index(old(ios)@, tag.kind))),
{
    match position_of_kind(ios, tag) {
        Some(i) => {
            let x = ios.remove(i);
            Some(x)
        },
        None => None,
    }
}

/// Sequential batch replacement: each given signal replaces the first
/// entry of the current state that is kind-equal to it; a signal whose
/// kind is absent is silently skipped.
pub open spec fn spec_swaps<T>(s: Seq<IO<T>>, vals: Seq<IO<T>>) -> Seq<IO<T>>
    decreases vals.len(),
{
    if vals.len() == 0 {
        s
    } else {
        let s1 = if has_kind(s, vals[0].kind) {
            s.update(first_kind_index(s, vals[0].kind), vals[0])
        } else {
            s
        };
        spec_swaps(s1, vals.drop_first())
    }
}

/// Replaces, for each given signal in order, the first kind-equal entry,
/// leaving collection order unchanged; entries with no match are silently
/// ignored. This leniency is deliberate and differs from the
/// all-or-nothing policy of [`pop_these`].
pub fn swap_these<T>(ios: &mut Vec<IO<T>>, vals: Vec<IO<T>>)
    ensures
        final(ios)@ == spec_swaps(old(ios)@, vals@),
{
    let ghost orig = ios@;
    let ghost all = vals@;
    let mut vals = vals;
    while vals.len() > 0
        invariant
            spec_swaps(orig, all) == spec_swaps(ios@, vals@),
        decreases vals@.len(),
    {
        let ghost pre_ios = ios@;
        let ghost pre_vals = vals@;
        let v = vals.remove(0);
        proof {
            assert(vals@ =~= pre_vals.drop_first());
        }
        match position_of_kind(ios, &v) {
            Some(i) => {
                ios.set(i, v);
                proof {
                    assert(pre_ios.update(
                        first_kind_index(pre_ios, pre_vals[0].kind),
                        pre_vals[0],
                    ) == ios@);
                }
            },
            None => {},
        }
    }
    proof {
        assert(spec_swaps(ios@, vals@) == ios@);
    }
}

/// Replaces the first entry kind-equal to `val` by `val`; no change if
/// the kind is absent.
pub fn swap_this<T>(ios: &mut Vec<IO<T>>, val: IO<T>)
    ensures
        !has_kind(old(ios)@, val.kind) ==> final(ios)@ == old(ios)@,
        has_kind(old(ios)@, val.kind) ==> final(ios)@ == old(ios)@.update(
            first_kind_index(old(ios)@, val.kind),
            val,
        ),
{
    match position_of_kind(ios, &val) {
        Some(i) => {
            ios.set(i, val);
        },
        None => {},
    }
}

/// Replacement never changes the collection's length, and never changes
/// the active kind standing at any position: only payloads move.
pub proof fn lemma_swaps_preserves_shape<T>(s: Seq<IO<T>>, vals: Seq<IO<T>>)
    ensures
        spec_swaps(s, vals).len() == s.len(),
        forall|i: int| 0 <= i < s.len() ==> spec_swaps(s, vals)[i].kind == s[i].kind,
    decreases vals.len(),
{
    if vals.len() == 0 {
    } else {
        if has_kind(s, vals[0].kind) {
            lemma_first_kind_index(s, vals[0].kind);
        }
        let s1 = if has_kind(s, vals[0].kind) {
            s.update(first_kind_index(s, vals[0].kind), vals[0])
        } else {
            s
        };
        lemma_swaps_preserves_shape(s1, vals.drop_first());
    }
}

/// Specialization of a vector of tagged signals: batch removal and batch
/// replacement by kind equality, with the contracts of the free functions
/// of this module.
pub trait IOVec<T>: View<V = Seq<IO<T>>> + Sized {
    /// Removes and returns the entries matching the given tags, in tag
    /// order; all-or-nothing on a missing kind. See [`pop_these`].
    fn pop_these(&mut self, vals: Vec<IO<()>>) -> (r: Option<Vec<IO<T>>>)
        ensures
            r is Some <==> spec_pops(old(self)@, kinds_of(vals@)) is Some,
            r matches Some(v) ==> (spec_pops(old(self)@, kinds_of(vals@)) matches Some(pr) && v@
                == pr.0 && final(self)@ == pr.1),
            r is None ==> final(self)@ == old(self)@,
    ;

    /// Removes and returns the first entry kind-equal to `val`, if any.
    /// See [`pop_this`].
    fn pop_this(&mut self, val: IO<()>) -> (r: Option<IO<T>>)
        ensures
            !has_kind(old(self)@, val.kind) ==> r is None && final(self)@ == old(self)@,
            has_kind(old(self)@, val.kind) ==> (r matches Some(x) && x == old(
                self,
            )@[first_kind_index(old(self)@, val.kind)] && final(self)@ == old(self)@.remove(
                first_kind_index(old(self)@, val.kind),
            )),
    ;

    /// Replaces the first kind-equal entry for each given signal; absent
    /// kinds are silently skipped. See [`swap_these`].
    fn swap_these(&mut self, vals: Vec<IO<T>>)
        ensures
            final(self)@ == spec_swaps(old(self)@, vals@),
    ;

    /// Replaces the first entry kind-equal to `val` by `val`, if any.
    /// See [`swap_this`].
    fn swap_this(&mut self, val: IO<T>)
        ensures
            !has_kind(old(self)@, val.kind) ==> final(self)@ == old(self)@,
            has_kind(old(self)@, val.kind) ==> final(self)@ == old(self)@.update(
                first_kind_index(old(self)@, val.kind),
                val,
            ),
    ;
}

impl<T> IOVec<T> for Vec<IO<T>> {
    fn pop_these(&mut self, vals: Vec<IO<()>>) -> (r: Option<Vec<IO<T>>>) {
        pop_these(self, &vals)
    }

    fn pop_this(&mut self, val: IO<()>) -> (r: Option<IO<T>>) {
        pop_this(self, &val)
    }

    fn swap_these(&mut self, vals: Vec<IO<T>>) {
        swap_these(self, vals)
    }

    fn swap_this(&mut self, val: IO<T>) {
        swap_this(self, val)
    }
}

/// A batch of signals none of whose kinds is present replaces nothing:
/// absent kinds are skipped and the collection is left as it was.
pub proof fn lemma_swaps_absent_skipped<T>(s: Seq<IO<T>>, vals: Seq<IO<T>>)
    requires
        forall|j: int| 0 <= j < vals.len() ==> !has_kind(s, vals[j].kind),
    ensures
        spec_swaps(s, vals) == s,
    decreases vals.len(),
{
    if vals.len() == 0 {
    } else {
        assert(forall|j: int| 0 <= j < vals.drop_first().len() ==> vals.drop_first()[j] == vals[j
            + 1]);
        lemma_swaps_absent_skipped(s, vals.drop_first());
    }
}

} // verus!
