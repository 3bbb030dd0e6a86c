//! The rule registry and its construction from configuration.
//!
//! A registry holds the enabled rules of one session as an ordered
//! collection with no rule appearing twice. `register` builds it from a
//! recognized configuration — enable or disable per rule identifier, with
//! an optional severity override, later entries overriding earlier ones —
//! and reports every unrecognized identifier as a non-fatal configuration
//! error, leaving the remaining valid rules active.

use vstd::prelude::*;
use vstd::string::StringExecFns;
use crate::diagnostic::RuleKind;
use crate::diagnostic::Severity;
use crate::text::str_eq;

verus! {

/// One enabled rule of a session: its identity and the severity its
/// diagnostics carry.
#[derive(Clone, Copy, Debug, PartialEq, Eq, Structural)]
pub struct RuleEntry {
    pub kind: RuleKind,
    pub severity: Severity,
}

/// One configuration line: the rule identifier it names, whether the rule
/// is enabled, and an optional severity override.
#[derive(Debug)]
pub struct RuleConfig {
    pub id: String,
    pub enabled: bool,
    pub severity: Option<Severity>,
}

/// A non-fatal configuration fault: an identifier naming no known rule.
#[derive(Debug, PartialEq, Eq)]
pub struct ConfigError {
    pub id: String,
}

/// The rule a configuration identifier names, if any.
pub open spec fn spec_rule_of_id(id: Seq<char>) -> Option<RuleKind> {
    if id == RuleKind::UnsafeUsage.spec_id() {
        Some(RuleKind::UnsafeUsage)
    } else if id == RuleKind::IndexingUsage.spec_id() {
        Some(RuleKind::IndexingUsage)
    } else if id == RuleKind::PanicUsage.spec_id() {
        Some(RuleKind::PanicUsage)
    } else if id == RuleKind::MissingType.spec_id() {
        Some(RuleKind::MissingType)
    } else {
        None
    }
}

/// The rule a configuration identifier names, if any.
pub fn rule_of_id(id: &str) -> (r: Option<RuleKind>)
    ensures
        r == spec_rule_of_id(id@),
{
    if str_eq(id, "security_unsafe_usage") {
        Some(RuleKind::UnsafeUsage)
    } else if str_eq(id, "security_indexing_usage") {
        Some(RuleKind::IndexingUsage)
    } else if str_eq(id, "security_panic_usage") {
        Some(RuleKind::PanicUsage)
    } else if str_eq(id, "missing_type") {
        Some(RuleKind::MissingType)
    } else {
        None
    }
}

/// Whether configuration leaves a rule enabled: the last entry naming the
/// rule decides, and a rule no entry names is enabled.
pub open spec fn spec_enabled(config: Seq<RuleConfig>, kind: RuleKind) -> bool
    decreases config.len(),
{
    if config.len() == 0 {
        true
    } else if spec_rule_of_id(config.last().id@) == Some(kind) {
        config.last().enabled
    } else {
        spec_enabled(config.drop_last(), kind)
    }
}

/// The severity configuration gives a rule: the last override naming the
/// rule decides, and without one the rule's default severity stands.
pub open spec fn spec_severity(config: Seq<RuleConfig>, kind: RuleKind) -> Severity
    decreases config.len(),
{
    if config.len() == 0 {
        kind.spec_default_severity()
    } else if spec_rule_of_id(config.last().id@) == Some(kind) && config.last().severity is Some {
        config.last().severity->0
    } else {
        spec_severity(config.drop_last(), kind)
    }
}

/// The identifiers of the configuration entries naming no known rule, in
/// configuration order.
pub open spec fn spec_config_error_ids(config: Seq<RuleConfig>) -> Seq<Seq<char>>
    decreases config.len(),
{
    if config.len() == 0 {
        Seq::empty()
    } else if spec_rule_of_id(config.last().id@) is None {
        spec_config_error_ids(config.drop_last()).push(config.last().id@)
    } else {
        spec_config_error_ids(config.drop_last())
    }
}

/// The registration-order contribution of one rule under a configuration:
/// its entry when enabled, nothing when disabled.
pub open spec fn spec_entry_for(config: Seq<RuleConfig>, kind: RuleKind) -> Seq<RuleEntry> {
    if spec_enabled(config, kind) {
        seq![RuleEntry { kind, severity: spec_severity(config, kind) }]
    } else {
        Seq::empty()
    }
}

/// The full rule set a configuration yields, in the fixed registration
/// order of the engine's rules.
pub open spec fn spec_registry_entries(config: Seq<RuleConfig>) -> Seq<RuleEntry> {
    spec_entry_for(config, RuleKind::UnsafeUsage) + spec_entry_for(config, RuleKind::IndexingUsage)
        + spec_entry_for(config, RuleKind::PanicUsage) + spec_entry_for(
        config,
        RuleKind::MissingType,
    )
}

/// The enabled rules of one session: an ordered collection in which no
/// rule appears twice.
#[derive(Debug)]
pub struct RuleRegistry {
    pub entries: Vec<RuleEntry>,
}

impl RuleRegistry {
    /// No rule appears twice.
    pub open spec fn wf(self) -> bool {
        forall|i: int, j: int|
            0 <= i < j < self.entries@.len() ==> self.entries@[i].kind != self.entries@[j].kind
    }

    /// An empty registry.
    pub fn new() -> (r: RuleRegistry)
        ensures
            r.entries@ == Seq::<RuleEntry>::empty(),
            r.wf(),
    {
        RuleRegistry { entries: Vec::new() }
    }

    /// Whether a rule is already registered.
    pub fn contains_kind(&self, kind: RuleKind) -> (r: bool)
        ensures
            r == exists|i: int| 0 <= i < self.entries@.len() && self.entries@[i].kind == kind,
    {
        let mut i: usize = 0;
        while i < self.entries.len()
            invariant
                i <= self.entries@.len(),
                forall|m: int| 0 <= m < i ==> self.entries@[m].kind != kind,
            decreases self.entries@.len() - i,
        {
            if self.entries[i].kind == kind {
                return true;
            }
            i = i + 1;
        }
        false
    }

    /// Register one rule behind those already registered. Registering a
    /// rule a second time is refused as a configuration error and leaves
    /// the registry unchanged.
    pub fn register_rule(&mut self, entry: RuleEntry) -> (r: Result<(), ConfigError>)
        requires
            old(self).wf(),
        ensures
            final(self).wf(),
            match r {
                Ok(()) => final(self).entries@ == old(self).entries@.push(entry) && (forall|i: int|
                    0 <= i < old(self).entries@.len() ==> old(self).entries@[i].kind
                        != entry.kind),
                Err(e) => final(self).entries@ == old(self).entries@ && e.id@
                    == entry.kind.spec_id() && (exists|i: int|
                    0 <= i < old(self).entries@.len() && old(self).entries@[i].kind
                        == entry.kind),
            },
    {
        if self.contains_kind(entry.kind) {
            Err(ConfigError { id: String::from_str(entry.kind.id()) })
        } else {
            self.entries.push(entry);
            Ok(())
        }
    }

    /// The registry of every rule, in registration order, each at its
    /// default severity.
    pub fn all_rules() -> (r: RuleRegistry)
        ensures
            r.entries@ == spec_registry_entries(Seq::<RuleConfig>::empty()),
            r.wf(),
    {
        let mut entries: Vec<RuleEntry> = Vec::new();
        entries.push(RuleEntry { kind: RuleKind::UnsafeUsage, severity: Severity::Deny });
        entries.push(RuleEntry { kind: RuleKind::IndexingUsage, severity: Severity::Deny });
        entries.push(RuleEntry { kind: RuleKind::PanicUsage, severity: Severity::Deny });
        entries.push(RuleEntry { kind: RuleKind::MissingType, severity: Severity::Warn });
        proof {
            assert(entries@ =~= spec_registry_entries(Seq::<RuleConfig>::empty()));
        }
        RuleRegistry { entries }
    }
}

/// Build the enabled rule set from a recognized configuration. Every rule
/// starts enabled at its default severity; entries apply in order, later
/// ones overriding earlier ones; each entry naming no known rule yields a
/// configuration error, reported alongside the registry with the remaining
/// valid rules active.
pub fn register(config: &Vec<RuleConfig>) -> (r: (RuleRegistry, Vec<ConfigError>))
    ensures
        r.0.wf(),
        r.0.entries@ == spec_registry_entries(config@),
        r.1@.map_values(|e: ConfigError| e.id@) == spec_config_error_ids(config@),
{
    let mut on_unsafe: bool = true;
    let mut on_indexing: bool = true;
    let mut on_panic: bool = true;
    let mut on_missing: bool = true;
    let mut sev_unsafe: Severity = Severity::Deny;
    let mut sev_indexing: Severity = Severity::Deny;
    let mut sev_panic: Severity = Severity::Deny;
    let mut sev_missing: Severity = Severity::Warn;
    let mut errors: Vec<ConfigError> = Vec::new();
    let mut i: usize = 0;
    while i < config.len()
        invariant
            i <= config@.len(),
            on_unsafe == spec_enabled(config@.take(i as int), RuleKind::UnsafeUsage),
            on_indexing == spec_enabled(config@.take(i as int), RuleKind::IndexingUsage),
            on_panic == spec_enabled(config@.take(i as int), RuleKind::PanicUsage),
            on_missing == spec_enabled(config@.take(i as int), RuleKind::MissingType),
            sev_unsafe == spec_severity(config@.take(i as int), RuleKind::UnsafeUsage),
            sev_indexing == spec_severity(config@.take(i as int), RuleKind::IndexingUsage),
            sev_panic == spec_severity(config@.take(i as int), RuleKind::PanicUsage),
            sev_missing == spec_severity(config@.take(i as int), RuleKind::MissingType),
            errors@.map_values(|e: ConfigError| e.id@) == spec_config_error_ids(
                config@.take(i as int),
            ),
        decreases config@.len() - i,
    {
        let entry = &config[i];
        match rule_of_id(entry.id.as_str()) {
            Some(kind) => {
                match kind {
                    RuleKind::UnsafeUsage => {
                        on_unsafe = entry.enabled;
                        if let Some(sev) = entry.severity {
                            sev_unsafe = sev;
                        }
                    },
                    RuleKind::IndexingUsage => {
                        on_indexing = entry.enabled;
                        if let Some(sev) = entry.severity {
                            sev_indexing = sev;
                        }
                    },
                    RuleKind::PanicUsage => {
                        on_panic = entry.enabled;
                        if let Some(sev) = entry.severity {
                            sev_panic = sev;
                        }
                    },
                    RuleKind::MissingType => {
                        on_missing = entry.enabled;
                        if let Some(sev) = entry.severity {
                            sev_missing = sev;
                        }
                    },
                }
            },
            None => {
                errors.push(ConfigError { id: entry.id.clone() });
            },
        }
        proof {
            let s = config@;
            assert(s.take(i as int + 1).drop_last() =~= s.take(i as int));
            assert(s.take(i as int + 1).last() == s[i as int]);
            assert(errors@.map_values(|e: ConfigError| e.id@) =~= spec_config_error_ids(
                s.take(i as int + 1),
            ));
        }
        i = i + 1;
    }
    proof {
        assert(config@.take(config@.len() as int) =~= config@);
    }
    let mut entries: Vec<RuleEntry> = Vec::new();
    if on_unsafe {
        entries.push(RuleEntry { kind: RuleKind::UnsafeUsage, severity: sev_unsafe });
    }
    if on_indexing {
        entries.push(RuleEntry { kind: RuleKind::IndexingUsage, severity: sev_indexing });
    }
    if on_panic {
        entries.push(RuleEntry { kind: RuleKind::PanicUsage, severity: sev_panic });
    }
    if on_missing {
        entries.push(RuleEntry { kind: RuleKind::MissingType, severity: sev_missing });
    }
    proof {
        assert(entries@ =~= spec_registry_entries(config@));
    }
    let registry = RuleRegistry { entries };
    (registry, errors)
}

} // verus!
