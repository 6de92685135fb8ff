//! Delivery configuration and its per-scope resolution.
//!
//! A global default configuration can be overridden per scope (the
//! tenant/project a notification belongs to). An override wins field by
//! field, not wholesale: an optional field left unset in the override falls
//! back to the global value, while `enabled` is the override's own say over
//! its scope. Resolving a scope without an override degrades to the global
//! default and never fails.
//!
//! Policy for "enabled but unconfigured" (a missing or empty host, a missing
//! instance or recipient): the record is skipped with a reason, never
//! failed. These are expected steady-state conditions, not anomalies; the
//! worker applies the same policy on every such path.

use vstd::prelude::*;
use crate::strutil::clone_opt_string;

verus! {

/// How the recipient value is to be addressed.
#[derive(Clone, Copy, Debug, PartialEq, Eq, Structural)]
pub enum RecipientType {
    PhoneNumber,
    UserId,
}

/// The configuration surface that governs delivery for one scope.
#[derive(Debug)]
pub struct OmniConfig {
    pub enabled: bool,
    pub host: Option<String>,
    pub api_key: Option<String>,
    pub instance: Option<String>,
    pub recipient: Option<String>,
    pub recipient_type: Option<RecipientType>,
}

impl Clone for OmniConfig {
    fn clone(&self) -> (res: Self)
        ensures
            res == *self,
    {
        OmniConfig {
            enabled: self.enabled,
            host: clone_opt_string(&self.host),
            api_key: clone_opt_string(&self.api_key),
            instance: clone_opt_string(&self.instance),
            recipient: clone_opt_string(&self.recipient),
            recipient_type: match &self.recipient_type {
                Option::None => Option::None,
                Option::Some(t) => Option::Some(*t),
            },
        }
    }
}

/// The override's field when set, else the base's.
pub open spec fn spec_merge_field<T>(over: Option<T>, base: Option<T>) -> Option<T> {
    if over is Some {
        over
    } else {
        base
    }
}

impl OmniConfig {
    /// The field-wise merge of a global default and a scope override:
    /// `enabled` is the override's, every optional field is the override's
    /// when set and the global's otherwise.
    pub open spec fn spec_merged(global: OmniConfig, over: OmniConfig) -> OmniConfig {
        OmniConfig {
            enabled: over.enabled,
            host: spec_merge_field(over.host, global.host),
            api_key: spec_merge_field(over.api_key, global.api_key),
            instance: spec_merge_field(over.instance, global.instance),
            recipient: spec_merge_field(over.recipient, global.recipient),
            recipient_type: spec_merge_field(over.recipient_type, global.recipient_type),
        }
    }
}

fn merge_string_field(over: &Option<String>, base: &Option<String>) -> (r: Option<String>)
    ensures
        r == spec_merge_field(*over, *base),
{
    match over {
        Option::Some(s) => Option::Some(s.clone()),
        Option::None => clone_opt_string(base),
    }
}

/// The effective configuration for a scope: the global default when no
/// override is given, else the field-wise merge with the override winning.
pub fn effective_config(global: &OmniConfig, scope: Option<&OmniConfig>) -> (r: OmniConfig)
    ensures
        (match scope {
            Option::None => r == *global,
            Option::Some(over) => r == OmniConfig::spec_merged(*global, *over),
        }),
{
    match scope {
        Option::None => global.clone(),
        Option::Some(over) => OmniConfig {
            enabled: over.enabled,
            host: merge_string_field(&over.host, &global.host),
            api_key: merge_string_field(&over.api_key, &global.api_key),
            instance: merge_string_field(&over.instance, &global.instance),
            recipient: merge_string_field(&over.recipient, &global.recipient),
            recipient_type: match &over.recipient_type {
                Option::Some(t) => Option::Some(*t),
                Option::None => match &global.recipient_type {
                    Option::Some(t) => Option::Some(*t),
                    Option::None => Option::None,
                },
            },
        },
    }
}

/// A partial override keeps the global's unset fields: an override that
/// only sets `host` resolves to the override's `host` together with the
/// global's `api_key`, `recipient` and `recipient_type`.
pub proof fn lemma_partial_override_merges_fieldwise(global: OmniConfig, over: OmniConfig)
    requires
        over.host is Some,
        over.api_key is None,
        over.recipient is None,
        over.recipient_type is None,
    ensures
        OmniConfig::spec_merged(global, over).host == over.host,
        OmniConfig::spec_merged(global, over).api_key == global.api_key,
        OmniConfig::spec_merged(global, over).recipient == global.recipient,
        OmniConfig::spec_merged(global, over).recipient_type == global.recipient_type,
{
}

/// The stored configuration: one global default and at most one override
/// per scope identifier.
pub struct ConfigResolver {
    pub global: OmniConfig,
    pub overrides: Vec<(String, OmniConfig)>,
}

/// The first override stored for the given scope, if any.
pub open spec fn spec_lookup_override(entries: Seq<(String, OmniConfig)>, scope: Seq<char>) -> Option<
    OmniConfig,
>
    decreases entries.len(),
{
    if entries.len() == 0 {
        Option::None
    } else if entries[0].0@ == scope {
        Option::Some(entries[0].1)
    } else {
        spec_lookup_override(entries.skip(1), scope)
    }
}

impl ConfigResolver {
    /// What resolution returns for a scope: the merged override when one is
    /// stored for it, the global default otherwise — also when no scope is
    /// named at all. Resolution never fails.
    pub open spec fn spec_resolved(self, scope: Option<Seq<char>>) -> OmniConfig {
        match scope {
            Option::None => self.global,
            Option::Some(sid) => match spec_lookup_override(self.overrides@, sid) {
                Option::None => self.global,
                Option::Some(over) => OmniConfig::spec_merged(self.global, over),
            },
        }
    }

    /// The effective configuration for the given scope.
    pub fn resolve(&self, scope: Option<&str>) -> (r: OmniConfig)
        ensures
            scope is None ==> r == self.spec_resolved(Option::None),
            scope matches Option::Some(sid) ==> r == self.spec_resolved(Option::Some(sid@)),
    {
        let sid = match scope {
            Option::None => {
                return self.global.clone();
            },
            Option::Some(sid) => sid,
        };
        let n = self.overrides.len();
        let mut i: usize = 0;
        proof {
            assert(self.overrides@.skip(0) =~= self.overrides@);
        }
        while i < n
            invariant
                scope == Option::Some(sid),
                n == self.overrides@.len(),
                0 <= i <= n,
                spec_lookup_override(self.overrides@, sid@) == spec_lookup_override(
                    self.overrides@.skip(i as int),
                    sid@,
                ),
            decreases n - i,
        {
            let entry = &self.overrides[i];
            if crate::strutil::str_eq(entry.0.as_str(), sid) {
                proof {
                    assert(self.overrides@.skip(i as int)[0] == self.overrides@[i as int]);
                }
                return effective_config(&self.global, Option::Some(&entry.1));
            }
            proof {
                assert(self.overrides@.skip(i as int)[0] == self.overrides@[i as int]);
                assert(self.overrides@.skip(i as int).skip(1) =~= self.overrides@.skip(
                    i as int + 1,
                ));
            }
            i += 1;
        }
        self.global.clone()
    }
}

} // verus!
