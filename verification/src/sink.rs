//! The diagnostic sink.
//!
//! Accumulates the diagnostics one traversal produces and exposes them at
//! flush time as a stable sort by source position: ordered by span start,
//! ties broken by the rules' fixed identifier order, and diagnostics with
//! equal keys kept in the order they were recorded. Identical diagnostics
//! recorded by distinct node visits are both kept: the sink never
//! deduplicates.

use vstd::prelude::*;
use vstd::multiset::Multiset;
use crate::diagnostic::Diagnostic;

verus! {

/// The sort key order on diagnostics: span start first, then the rule's
/// fixed rank.
pub open spec fn key_le(a: Diagnostic, b: Diagnostic) -> bool {
    a.span.start < b.span.start || (a.span.start == b.span.start && a.rule.spec_rank()
        <= b.rule.spec_rank())
}

/// Whether the sort key admits `a` at or before `b`.
pub fn key_le_exec(a: &Diagnostic, b: &Diagnostic) -> (r: bool)
    ensures
        r == key_le(*a, *b),
{
    a.span.start < b.span.start || (a.span.start == b.span.start && a.rule.rank()
        <= b.rule.rank())
}

/// Whether a diagnostic sequence is ordered by the sort key.
pub open spec fn key_sorted(s: Seq<Diagnostic>) -> bool {
    forall|i: int, j: int| 0 <= i < j < s.len() ==> key_le(s[i], s[j])
}

/// Insert `d` into `s` after every element whose key admits `d` behind it:
/// with `s` ordered and recorded earlier than `d`, this keeps equal keys in
/// recording order.
pub open spec fn spec_insert_stable(s: Seq<Diagnostic>, d: Diagnostic) -> Seq<Diagnostic>
    decreases s.len(),
{
    if s.len() == 0 {
        seq![d]
    } else if key_le(s[0], d) {
        seq![s[0]] + spec_insert_stable(s.drop_first(), d)
    } else {
        seq![d] + s
    }
}

/// The stable sort of a diagnostic sequence: each diagnostic inserted, in
/// recording order, behind every already-placed diagnostic whose key is not
/// greater.
pub open spec fn spec_stable_sort(s: Seq<Diagnostic>) -> Seq<Diagnostic>
    decreases s.len(),
{
    if s.len() == 0 {
        Seq::empty()
    } else {
        spec_insert_stable(spec_stable_sort(s.drop_last()), s.last())
    }
}

/// Exact position of a stable insertion: when the first `j` elements admit
/// `d` behind them and the element at `j`, if any, does not, the insertion
/// splits the sequence at `j`.
proof fn lemma_insert_stable_at(s: Seq<Diagnostic>, d: Diagnostic, j: int)
    requires
        0 <= j <= s.len(),
        forall|m: int| 0 <= m < j ==> key_le(s[m], d),
        j < s.len() ==> !key_le(s[j], d),
    ensures
        spec_insert_stable(s, d) == s.subrange(0, j) + seq![d] + s.subrange(j, s.len() as int),
    decreases s.len(),
{
    if j == 0 {
        assert(spec_insert_stable(s, d) =~= s.subrange(0, 0) + seq![d] + s.subrange(
            0,
            s.len() as int,
        ));
    } else {
        let rest = s.drop_first();
        lemma_insert_stable_at(rest, d, j - 1);
        assert(spec_insert_stable(s, d) =~= s.subrange(0, j) + seq![d] + s.subrange(
            j,
            s.len() as int,
        ));
    }
}

/// Every element of a stable insertion is an element of the original
/// sequence or the inserted diagnostic.
proof fn lemma_insert_stable_elems(s: Seq<Diagnostic>, d: Diagnostic)
    ensures
        forall|i: int|
            0 <= i < spec_insert_stable(s, d).len() ==> (spec_insert_stable(s, d)[i] == d
                || exists|j: int| 0 <= j < s.len() && spec_insert_stable(s, d)[i] == s[j]),
    decreases s.len(),
{
    if s.len() != 0 && key_le(s[0], d) {
        lemma_insert_stable_elems(s.drop_first(), d);
        let r = spec_insert_stable(s, d);
        let rr = spec_insert_stable(s.drop_first(), d);
        assert forall|i: int|
            0 <= i < r.len() implies (r[i] == d || exists|j: int|
            0 <= j < s.len() && r[i] == s[j]) by {
            if i == 0 {
                assert(r[0] == s[0]);
            } else {
                assert(r[i] == rr[i - 1]);
                if rr[i - 1] != d {
                    let j = choose|j: int| 0 <= j < s.drop_first().len() && rr[i - 1]
                        == s.drop_first()[j];
                    assert(r[i] == s[j + 1]);
                }
            }
        }
    }
}

/// A stable insertion into an ordered sequence is ordered.
proof fn lemma_insert_stable_sorted(s: Seq<Diagnostic>, d: Diagnostic)
    requires
        key_sorted(s),
    ensures
        key_sorted(spec_insert_stable(s, d)),
    decreases s.len(),
{
    if s.len() == 0 {
    } else if key_le(s[0], d) {
        assert(key_sorted(s.drop_first()));
        lemma_insert_stable_sorted(s.drop_first(), d);
        lemma_insert_stable_elems(s.drop_first(), d);
        let r = spec_insert_stable(s, d);
        let rr = spec_insert_stable(s.drop_first(), d);
        assert forall|i: int, j: int| 0 <= i < j < r.len() implies key_le(r[i], r[j]) by {
            if i == 0 {
                assert(r[j] == rr[j - 1]);
                if rr[j - 1] != d {
                    let m = choose|m: int| 0 <= m < s.drop_first().len() && rr[j - 1]
                        == s.drop_first()[m];
                    assert(key_le(s[0], s[m + 1]));
                }
            } else {
                assert(r[i] == rr[i - 1] && r[j] == rr[j - 1]);
            }
        }
    } else {
        let r = spec_insert_stable(s, d);
        assert forall|i: int, j: int| 0 <= i < j < r.len() implies key_le(r[i], r[j]) by {
            if i == 0 {
                assert(!key_le(s[0], d));
                assert(key_le(d, s[0]));
                if j > 1 {
                    assert(key_le(s[0], s[j - 1]));
                }
            }
        }
    }
}

/// A stable insertion adds exactly the inserted diagnostic to the
/// sequence's multiset of elements.
proof fn lemma_insert_stable_multiset(s: Seq<Diagnostic>, d: Diagnostic)
    ensures
        spec_insert_stable(s, d).to_multiset() =~= s.to_multiset().insert(d),
    decreases s.len(),
{
    broadcast use vstd::seq_lib::group_to_multiset_ensures;

    if s.len() == 0 {
        assert(seq![d] =~= Seq::empty().push(d));
        assert(Seq::<Diagnostic>::empty().to_multiset() =~= Multiset::empty());
    } else if key_le(s[0], d) {
        lemma_insert_stable_multiset(s.drop_first(), d);
        let r = spec_insert_stable(s, d);
        let rr = spec_insert_stable(s.drop_first(), d);
        assert(r =~= rr.insert(0, s[0]));
        rr.to_multiset_ensures();
        vstd::seq_lib::lemma_multiset_commutative(seq![s[0]], rr);
        assert(r =~= seq![s[0]] + rr);
        assert(seq![s[0]] =~= Seq::empty().push(s[0]));
        assert(s =~= seq![s[0]] + s.drop_first());
        vstd::seq_lib::lemma_multiset_commutative(seq![s[0]], s.drop_first());
    } else {
        let r = spec_insert_stable(s, d);
        assert(r =~= seq![d] + s);
        vstd::seq_lib::lemma_multiset_commutative(seq![d], s);
        assert(seq![d] =~= Seq::empty().push(d));
    }
}

/// Law: the flushed view is ordered by span start, ties broken by rule
/// order.
pub proof fn lemma_stable_sort_sorted(s: Seq<Diagnostic>)
    ensures
        key_sorted(spec_stable_sort(s)),
    decreases s.len(),
{
    if s.len() != 0 {
        lemma_stable_sort_sorted(s.drop_last());
        lemma_insert_stable_sorted(spec_stable_sort(s.drop_last()), s.last());
    }
}

/// Law: flushing loses no diagnostic and invents none — the flushed view
/// holds exactly the recorded diagnostics.
pub proof fn lemma_stable_sort_multiset(s: Seq<Diagnostic>)
    ensures
        spec_stable_sort(s).to_multiset() =~= s.to_multiset(),
    decreases s.len(),
{
    broadcast use vstd::seq_lib::group_to_multiset_ensures;

    if s.len() == 0 {
        assert(Seq::<Diagnostic>::empty().to_multiset() =~= Multiset::empty());
    } else {
        lemma_stable_sort_multiset(s.drop_last());
        lemma_insert_stable_multiset(spec_stable_sort(s.drop_last()), s.last());
        assert(s =~= s.drop_last().push(s.last()));
    }
}

/// Law: a sequence already ordered by the key is its own stable sort — in
/// particular, diagnostics recorded in position order flush unchanged.
pub proof fn lemma_stable_sort_of_sorted(s: Seq<Diagnostic>)
    requires
        key_sorted(s),
    ensures
        spec_stable_sort(s) == s,
    decreases s.len(),
{
    if s.len() != 0 {
        assert(key_sorted(s.drop_last()));
        lemma_stable_sort_of_sorted(s.drop_last());
        lemma_insert_stable_at(s.drop_last(), s.last(), s.len() - 1);
        assert(spec_stable_sort(s) =~= s);
    }
}

/// Accumulates diagnostics during one traversal and hands them out
/// stable-sorted at flush time.
#[derive(Debug)]
pub struct DiagnosticSink {
    pub items: Vec<Diagnostic>,
}

impl DiagnosticSink {
    /// An empty sink.
    pub fn new() -> (s: DiagnosticSink)
        ensures
            s.items@ == Seq::<Diagnostic>::empty(),
    {
        DiagnosticSink { items: Vec::new() }
    }

    /// Record one diagnostic, behind everything recorded before.
    pub fn record(&mut self, d: Diagnostic)
        ensures
            final(self).items@ == old(self).items@.push(d),
    {
        self.items.push(d);
    }

    /// Record a batch of diagnostics, in order, behind everything recorded
    /// before.
    pub fn record_all(&mut self, ds: Vec<Diagnostic>)
        ensures
            final(self).items@ == old(self).items@ + ds@,
    {
        let mut ds = ds;
        self.items.append(&mut ds);
    }

    /// The stable-sorted view of everything recorded: ordered by span
    /// start, ties broken by rule order, equal keys kept in recording
    /// order.
    pub fn flush(self) -> (out: Vec<Diagnostic>)
        ensures
            out@ == spec_stable_sort(self.items@),
            key_sorted(out@),
            out@.to_multiset() == self.items@.to_multiset(),
    {
        let ghost input = self.items@;
        let items = self.items;
        let mut sorted: Vec<Diagnostic> = Vec::new();
        let mut i: usize = 0;
        while i < items.len()
            invariant
                i <= items.len(),
                items@ == input,
                sorted@ == spec_stable_sort(input.take(i as int)),
            decreases items.len() - i,
        {
            let d = items[i].duplicate();
            let mut j: usize = 0;
            while j < sorted.len() && key_le_exec(&sorted[j], &d)
                invariant
                    j <= sorted@.len(),
                    forall|m: int| 0 <= m < j ==> key_le(sorted@[m], d),
                decreases sorted@.len() - j,
            {
                j = j + 1;
            }
            proof {
                lemma_insert_stable_at(sorted@, d, j as int);
            }
            sorted.insert(j, d);
            proof {
                let s = input;
                assert(s.take(i as int + 1).drop_last() =~= s.take(i as int));
                assert(s.take(i as int + 1).last() == s[i as int]);
                assert(sorted@ =~= spec_stable_sort(s.take(i as int + 1)));
            }
            i = i + 1;
        }
        proof {
            assert(input.take(input.len() as int) =~= input);
            lemma_stable_sort_sorted(input);
            lemma_stable_sort_multiset(input);
        }
        sorted
    }
}

} // verus!
