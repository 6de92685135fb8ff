//! Messaging-bridge instances as the library presents them.
//!
//! The bridge's listing endpoint answers with raw instance descriptions;
//! the host's HTTP edge decodes them into [`RawOmniInstance`] values and
//! the conversion below normalizes them: an empty channel type becomes
//! `unknown`, a blank profile name falls back to the instance name, and
//! health is judged from the bridge's own status report when present.

use vstd::prelude::*;
use crate::strutil::{clone_opt_string, is_blank, spec_is_blank};

verus! {

/// A bridge instance as shown to callers.
#[derive(Debug)]
pub struct OmniInstance {
    pub instance_name: String,
    pub channel_type: String,
    pub display_name: String,
    pub status: String,
    pub is_healthy: bool,
}

/// A bridge instance as the bridge reports it.
#[derive(Debug)]
pub struct RawOmniInstance {
    pub name: String,
    pub channel_type: String,
    pub profile_name: Option<String>,
    pub is_active: Option<bool>,
    pub evolution_status: Option<RawEvolutionStatus>,
}

/// The bridge's own health report for an instance.
#[derive(Debug)]
pub struct RawEvolutionStatus {
    pub state: Option<String>,
    pub error: Option<String>,
}

/// The normalized channel type: `unknown` when the reported one is blank.
pub open spec fn spec_channel_type(raw: RawOmniInstance) -> Seq<char> {
    if spec_is_blank(raw.channel_type@) {
        "unknown"@
    } else {
        raw.channel_type@
    }
}

/// The display name: the profile name when present and not blank, else
/// the instance name.
pub open spec fn spec_display_name(raw: RawOmniInstance) -> Seq<char> {
    match raw.profile_name {
        Option::Some(p) => if !spec_is_blank(p@) {
            p@
        } else {
            raw.name@
        },
        Option::None => raw.name@,
    }
}

/// The status word: the health report's state when given, else `active`
/// or `inactive` from the activity flag.
pub open spec fn spec_instance_status(raw: RawOmniInstance) -> Seq<char> {
    match raw.evolution_status {
        Option::Some(es) => match es.state {
            Option::Some(st) => st@,
            Option::None => spec_activity_word(raw.is_active),
        },
        Option::None => spec_activity_word(raw.is_active),
    }
}

/// `active` when the flag says so, `inactive` otherwise.
pub open spec fn spec_activity_word(is_active: Option<bool>) -> Seq<char> {
    if is_active == Option::Some(true) {
        "active"@
    } else {
        "inactive"@
    }
}

/// Healthy when the health report carries no error; without a report,
/// when the activity flag says active.
pub open spec fn spec_is_healthy(raw: RawOmniInstance) -> bool {
    match raw.evolution_status {
        Option::Some(es) => es.error is None,
        Option::None => raw.is_active == Option::Some(true),
    }
}

impl OmniInstance {
    /// Normalize a raw instance description.
    pub fn from(raw: RawOmniInstance) -> (r: OmniInstance)
        ensures
            r.instance_name == raw.name,
            r.channel_type@ == spec_channel_type(raw),
            r.display_name@ == spec_display_name(raw),
            r.status@ == spec_instance_status(raw),
            r.is_healthy == spec_is_healthy(raw),
    {
        let channel_type: String = if is_blank(raw.channel_type.as_str()) {
            "unknown".to_owned()
        } else {
            raw.channel_type.clone()
        };
        let display_name: String = match &raw.profile_name {
            Option::Some(p) => if !is_blank(p.as_str()) {
                p.clone()
            } else {
                raw.name.clone()
            },
            Option::None => raw.name.clone(),
        };
        let activity: &str = match raw.is_active {
            Option::Some(true) => "active",
            _ => "inactive",
        };
        let status: String = match &raw.evolution_status {
            Option::Some(es) => match &es.state {
                Option::Some(st) => st.clone(),
                Option::None => activity.to_owned(),
            },
            Option::None => activity.to_owned(),
        };
        let is_healthy: bool = match &raw.evolution_status {
            Option::Some(es) => es.error.is_none(),
            Option::None => match raw.is_active {
                Option::Some(true) => true,
                _ => false,
            },
        };
        OmniInstance {
            instance_name: raw.name,
            channel_type,
            display_name,
            status,
            is_healthy,
        }
    }
}

impl Clone for RawEvolutionStatus {
    fn clone(&self) -> (res: Self)
        ensures
            res == *self,
    {
        RawEvolutionStatus {
            state: clone_opt_string(&self.state),
            error: clone_opt_string(&self.error),
        }
    }
}

} // verus!
