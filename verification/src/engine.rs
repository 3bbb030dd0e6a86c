//! The traversal engine.
//!
//! The host enumerates the nodes of one compilation unit in its
//! deterministic depth-first visit order; the engine offers every node, in
//! that order, to each enabled rule in registration order, records every
//! diagnostic the rules produce, and hands the accumulated sequence out
//! stable-sorted by source position. Rules are independent: no node is
//! withheld from a rule because an earlier rule matched it, and rule
//! matchers are total — a node a rule cannot classify simply yields
//! nothing and never stops the traversal.

use vstd::prelude::*;
use crate::diagnostic::Diagnostic;
use crate::diagnostic::RuleKind;
use crate::node::Node;
use crate::registry::RuleEntry;
use crate::registry::RuleRegistry;
use crate::sink::spec_stable_sort;
use crate::sink::DiagnosticSink;
use crate::indexing_usage;
use crate::missing_type;
use crate::panic_usage;
use crate::unsafe_usage;

verus! {

/// The diagnostics one enabled rule produces on one node.
pub open spec fn spec_rule_check(entry: RuleEntry, node: Node) -> Seq<Diagnostic> {
    match entry.kind {
        RuleKind::UnsafeUsage => unsafe_usage::spec_check(node, entry.severity),
        RuleKind::IndexingUsage => indexing_usage::spec_check(node, entry.severity),
        RuleKind::PanicUsage => panic_usage::spec_check(node, entry.severity),
        RuleKind::MissingType => missing_type::spec_check(node, entry.severity),
    }
}

/// Offer one node to one enabled rule.
pub fn rule_check(entry: &RuleEntry, node: &Node) -> (out: Vec<Diagnostic>)
    ensures
        out@ == spec_rule_check(*entry, *node),
{
    match entry.kind {
        RuleKind::UnsafeUsage => unsafe_usage::check(node, entry.severity),
        RuleKind::IndexingUsage => indexing_usage::check(node, entry.severity),
        RuleKind::PanicUsage => panic_usage::check(node, entry.severity),
        RuleKind::MissingType => missing_type::check(node, entry.severity),
    }
}

/// The diagnostics one node yields when offered to every enabled rule in
/// registration order.
pub open spec fn spec_offer(entries: Seq<RuleEntry>, node: Node) -> Seq<Diagnostic>
    decreases entries.len(),
{
    if entries.len() == 0 {
        Seq::empty()
    } else {
        spec_offer(entries.drop_last(), node) + spec_rule_check(entries.last(), node)
    }
}

/// Offer one node to every enabled rule in registration order.
pub fn offer(registry: &RuleRegistry, node: &Node) -> (out: Vec<Diagnostic>)
    ensures
        out@ == spec_offer(registry.entries@, *node),
{
    let mut out: Vec<Diagnostic> = Vec::new();
    let mut i: usize = 0;
    while i < registry.entries.len()
        invariant
            i <= registry.entries@.len(),
            out@ == spec_offer(registry.entries@.take(i as int), *node),
        decreases registry.entries@.len() - i,
    {
        let mut found = rule_check(&registry.entries[i], node);
        out.append(&mut found);
        proof {
            let s = registry.entries@;
            assert(s.take(i as int + 1).drop_last() =~= s.take(i as int));
            assert(s.take(i as int + 1).last() == s[i as int]);
        }
        i = i + 1;
    }
    proof {
        assert(registry.entries@.take(registry.entries@.len() as int) =~= registry.entries@);
    }
    out
}

/// The diagnostics a traversal produces, in traversal order: every node,
/// exactly once, each offered to every enabled rule in registration order.
pub open spec fn spec_collect(nodes: Seq<Node>, entries: Seq<RuleEntry>) -> Seq<Diagnostic>
    decreases nodes.len(),
{
    if nodes.len() == 0 {
        Seq::empty()
    } else {
        spec_collect(nodes.drop_last(), entries) + spec_offer(entries, nodes.last())
    }
}

/// The full result of one pass: the traversal's diagnostics, stable-sorted
/// by source position.
pub open spec fn spec_run(nodes: Seq<Node>, entries: Seq<RuleEntry>) -> Seq<Diagnostic> {
    spec_stable_sort(spec_collect(nodes, entries))
}

/// Law: a traversal is compositional — visiting two node sequences one
/// after the other collects exactly the diagnostics of the first followed
/// by those of the second. In particular every node contributes exactly
/// its own diagnostics, exactly once, in visit order.
pub proof fn lemma_collect_concat(a: Seq<Node>, b: Seq<Node>, entries: Seq<RuleEntry>)
    ensures
        spec_collect(a + b, entries) == spec_collect(a, entries) + spec_collect(b, entries),
    decreases b.len(),
{
    if b.len() == 0 {
        assert(a + b =~= a);
        assert(spec_collect(a, entries) + spec_collect(b, entries) =~= spec_collect(a, entries));
    } else {
        lemma_collect_concat(a, b.drop_last(), entries);
        assert((a + b).drop_last() =~= a + b.drop_last());
        assert((a + b).last() == b.last());
        assert(spec_collect(a + b, entries) =~= spec_collect(a, entries) + spec_collect(
            b,
            entries,
        ));
    }
}

/// Law: every diagnostic a node yields is well attributed — some enabled
/// rule entry produced it, and the diagnostic carries that entry's rule
/// identity and its session severity.
pub proof fn lemma_offer_well_attributed(entries: Seq<RuleEntry>, node: Node)
    ensures
        forall|i: int|
            0 <= i < spec_offer(entries, node).len() ==> exists|j: int|
                0 <= j < entries.len() && (#[trigger] spec_offer(entries, node)[i]).rule
                    == entries[j].kind && spec_offer(entries, node)[i].severity
                    == entries[j].severity,
    decreases entries.len(),
{
    if entries.len() != 0 {
        lemma_offer_well_attributed(entries.drop_last(), node);
        let last = entries.last();
        match last.kind {
            RuleKind::UnsafeUsage => unsafe_usage::lemma_check_attributed(node, last.severity),
            RuleKind::IndexingUsage => indexing_usage::lemma_check_attributed(node, last.severity),
            RuleKind::PanicUsage => panic_usage::lemma_check_attributed(node, last.severity),
            RuleKind::MissingType => missing_type::lemma_check_attributed(node, last.severity),
        }
        let out = spec_offer(entries, node);
        let prefix = spec_offer(entries.drop_last(), node);
        assert forall|i: int| 0 <= i < out.len() implies exists|j: int|
            0 <= j < entries.len() && (#[trigger] out[i]).rule == entries[j].kind && out[i].severity
                == entries[j].severity by {
            if i < prefix.len() {
                assert(out[i] == prefix[i]);
                let j = choose|j: int|
                    0 <= j < entries.drop_last().len() && prefix[i].rule
                        == entries.drop_last()[j].kind && prefix[i].severity
                        == entries.drop_last()[j].severity;
                assert(entries.drop_last()[j] == entries[j]);
                assert(0 <= j < entries.len() && out[i].rule == entries[j].kind && out[i].severity
                    == entries[j].severity);
            } else {
                let k = i - prefix.len();
                assert(out[i] == spec_rule_check(last, node)[k]);
                let j = entries.len() - 1;
                assert(0 <= j < entries.len() && out[i].rule == entries[j].kind && out[i].severity
                    == entries[j].severity);
            }
        }
    }
}

/// Law: every diagnostic a traversal collects is well attributed.
pub proof fn lemma_collect_well_attributed(nodes: Seq<Node>, entries: Seq<RuleEntry>)
    ensures
        forall|i: int|
            0 <= i < spec_collect(nodes, entries).len() ==> exists|j: int|
                0 <= j < entries.len() && (#[trigger] spec_collect(nodes, entries)[i]).rule
                    == entries[j].kind && spec_collect(nodes, entries)[i].severity
                    == entries[j].severity,
    decreases nodes.len(),
{
    if nodes.len() != 0 {
        lemma_collect_well_attributed(nodes.drop_last(), entries);
        lemma_offer_well_attributed(entries, nodes.last());
        let out = spec_collect(nodes, entries);
        let prefix = spec_collect(nodes.drop_last(), entries);
        let tail = spec_offer(entries, nodes.last());
        assert forall|i: int| 0 <= i < out.len() implies exists|j: int|
            0 <= j < entries.len() && (#[trigger] out[i]).rule == entries[j].kind && out[i].severity
                == entries[j].severity by {
            if i < prefix.len() {
                assert(out[i] == prefix[i]);
            } else {
                assert(out[i] == tail[i - prefix.len()]);
            }
        }
    }
}

/// Law: the full pass reports only well-attributed diagnostics — each one
/// carries the identity and session severity of an enabled rule entry.
pub proof fn lemma_run_well_attributed(nodes: Seq<Node>, entries: Seq<RuleEntry>)
    ensures
        forall|d: Diagnostic|
            #[trigger] spec_run(nodes, entries).contains(d) ==> exists|j: int|
                0 <= j < entries.len() && d.rule == entries[j].kind
                    && d.severity == entries[j].severity,
{
    broadcast use vstd::seq_lib::group_to_multiset_ensures;

    lemma_collect_well_attributed(nodes, entries);
    let collected = spec_collect(nodes, entries);
    crate::sink::lemma_stable_sort_multiset(collected);
    let sorted = spec_run(nodes, entries);
    assert forall|d: Diagnostic| #[trigger] sorted.contains(d) implies exists|j: int|
        0 <= j < entries.len() && d.rule == entries[j].kind
            && d.severity == entries[j].severity by {
        assert(sorted.to_multiset().count(d) > 0);
        assert(collected.to_multiset().count(d) > 0);
        assert(collected.contains(d));
        let i = choose|i: int| 0 <= i < collected.len() && collected[i] == d;
        assert(0 <= i < collected.len() && collected[i].rule == d.rule && collected[i].severity
            == d.severity);
    }
}

/// Law: the pass is a function of the tree and the enabled rule set alone,
/// so re-running it over an unchanged tree yields an identical,
/// order-stable diagnostic sequence.
pub proof fn lemma_rerun_identical(
    nodes: Seq<Node>,
    entries: Seq<RuleEntry>,
    first: Seq<Diagnostic>,
    second: Seq<Diagnostic>,
)
    requires
        first == spec_run(nodes, entries),
        second == spec_run(nodes, entries),
    ensures
        first == second,
{
}

/// One pass over one compilation unit: the enabled rule set and the
/// accumulated diagnostics, created for the unit and destroyed after the
/// flush.
#[derive(Debug)]
pub struct LintSession {
    pub registry: RuleRegistry,
    pub sink: DiagnosticSink,
}

impl LintSession {
    /// A fresh session over an enabled rule set.
    pub fn new(registry: RuleRegistry) -> (s: LintSession)
        ensures
            s.registry == registry,
            s.sink.items@ == Seq::<Diagnostic>::empty(),
    {
        LintSession { registry, sink: DiagnosticSink::new() }
    }

    /// Offer one node of the host's depth-first enumeration to every
    /// enabled rule, recording what they produce behind everything
    /// recorded before.
    pub fn offer_node(&mut self, node: &Node)
        ensures
            final(self).registry == old(self).registry,
            final(self).sink.items@ == old(self).sink.items@ + spec_offer(
                old(self).registry.entries@,
                *node,
            ),
    {
        let found = offer(&self.registry, node);
        self.sink.record_all(found);
    }

    /// End the session: hand out everything recorded, stable-sorted by
    /// source position.
    pub fn finish(self) -> (out: Vec<Diagnostic>)
        ensures
            out@ == spec_stable_sort(self.sink.items@),
    {
        self.sink.flush()
    }
}

/// The per-compilation-unit entry point: visit every node, in the host's
/// order, offer each to every enabled rule, and hand out the diagnostics
/// stable-sorted by source position.
pub fn run(nodes: &Vec<Node>, registry: &RuleRegistry) -> (out: Vec<Diagnostic>)
    ensures
        out@ == spec_run(nodes@, registry.entries@),
{
    let mut sink = DiagnosticSink::new();
    let mut i: usize = 0;
    while i < nodes.len()
        invariant
            i <= nodes@.len(),
            sink.items@ == spec_collect(nodes@.take(i as int), registry.entries@),
        decreases nodes@.len() - i,
    {
        let found = offer(registry, &nodes[i]);
        sink.record_all(found);
        proof {
            let s = nodes@;
            assert(s.take(i as int + 1).drop_last() =~= s.take(i as int));
            assert(s.take(i as int + 1).last() == s[i as int]);
        }
        i = i + 1;
    }
    proof {
        assert(nodes@.take(nodes@.len() as int) =~= nodes@);
    }
    sink.flush()
}

} // verus!
