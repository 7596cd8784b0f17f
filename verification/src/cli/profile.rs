//! Profiles from the command line: listed, shown, exported and applied.
use vstd::prelude::*;

use crate::cli::control::{Plan, PlanError};
use crate::domain::command::ControlCommand;
use crate::domain::profile::{PerformanceProfile, ProfileEntry, ProfileRegistry};
use crate::format::{align_left, cat3, left_aligned};

verus! {

/// What is asked for.
#[derive(Debug, PartialEq)]
pub enum ProfileCmd {
    List,
    Show { name: String },
    Export { name: String },
    /// Applies a profile and holds it for so many seconds.
    Apply { name: String, hold: u64 },
}

/// What one invocation will do.
#[derive(Debug, PartialEq)]
pub enum ProfilePlan {
    /// Prints lines.
    Print(Vec<String>),
    /// Prints one profile.
    Show(PerformanceProfile),
    /// Prints one profile as the file that it can be loaded from.
    Export(PerformanceProfile),
    /// Changes the hardware.
    Change(Plan),
}

/// Why nothing is done.
#[derive(Debug, PartialEq)]
pub enum ProfileCmdError {
    Unknown { name: String },
    Refused(PlanError),
}

impl ProfileCmdError {
    pub open spec fn spec_text(self) -> Seq<char> {
        match self {
            ProfileCmdError::Unknown { name } => "unknown profile '"@ + name@ + "'"@,
            ProfileCmdError::Refused(e) => e.spec_text(),
        }
    }

    /// The error in words.
    pub fn text(&self) -> (r: String)
        ensures
            r@ == self.spec_text(),
    {
        match self {
            ProfileCmdError::Unknown { name } => cat3("unknown profile '", name.as_str(), "'"),
            ProfileCmdError::Refused(e) => e.text(),
        }
    }
}

/// One line of the list.
pub open spec fn entry_line(e: ProfileEntry) -> Seq<char> {
    left_aligned(e.name@, 16) + (if e.builtin { " built-in  "@ } else { " user      "@ }) + e.profile.description@
}

/// The lines as texts.
pub open spec fn line_texts(v: Seq<String>) -> Seq<Seq<char>> {
    Seq::new(v.len(), |i: int| v[i]@)
}

/// The list of the registered profiles, in their order.
pub fn list_lines(registry: &ProfileRegistry) -> (r: Vec<String>)
    ensures
        line_texts(r@) == registry.entries@.map_values(|e: ProfileEntry| entry_line(e)),
{
    let mut lines: Vec<String> = Vec::new();
    let mut i: usize = 0;
    while i < registry.entries.len()
        invariant
            i <= registry.entries@.len(),
            lines@.len() == i,
            forall|k: int| 0 <= k < i ==> (#[trigger] lines@[k])@ == entry_line(registry.entries@[k]),
        decreases registry.entries@.len() - i,
    {
        let e = &registry.entries[i];
        lines.push(
            cat3(
                align_left(e.name.as_str(), 16).as_str(),
                if e.builtin {
                    " built-in  "
                } else {
                    " user      "
                },
                e.profile.description.as_str(),
            ),
        );
        i = i + 1;
    }
    assert(line_texts(lines@) =~= registry.entries@.map_values(|e: ProfileEntry| entry_line(e)));
    lines
}

/// What is done for a command. Only registered profiles can be named, and a
/// profile is applied under the heartbeat, for some time.
pub fn plan_profile(cmd: ProfileCmd, registry: &ProfileRegistry) -> (r: Result<ProfilePlan, ProfileCmdError>)
    ensures
        match cmd {
            ProfileCmd::List => r matches Ok(ProfilePlan::Print(lines)) && line_texts(lines@)
                == registry.entries@.map_values(|e: ProfileEntry| entry_line(e)),
            ProfileCmd::Show { name } => r == (match registry.lookup(name@) {
                Some(p) => Ok::<ProfilePlan, ProfileCmdError>(ProfilePlan::Show(p)),
                None => Err(ProfileCmdError::Unknown { name }),
            }),
            ProfileCmd::Export { name } => r == (match registry.lookup(name@) {
                Some(p) => Ok::<ProfilePlan, ProfileCmdError>(ProfilePlan::Export(p)),
                None => Err(ProfileCmdError::Unknown { name }),
            }),
            ProfileCmd::Apply { name, hold } => r == (if hold == 0 {
                Err::<ProfilePlan, ProfileCmdError>(ProfileCmdError::Refused(PlanError::NoHold))
            } else if registry.lookup(name@) is None {
                Err(ProfileCmdError::Unknown { name })
            } else {
                Ok(ProfilePlan::Change(Plan::HpState(ControlCommand::ApplyProfile { profile: name }, hold)))
            }),
        },
{
    match cmd {
        ProfileCmd::List => Ok(ProfilePlan::Print(list_lines(registry))),
        ProfileCmd::Show { name } => match registry.get(name.as_str()) {
            Some(p) => Ok(ProfilePlan::Show(p.clone())),
            None => Err(ProfileCmdError::Unknown { name }),
        },
        ProfileCmd::Export { name } => match registry.get(name.as_str()) {
            Some(p) => Ok(ProfilePlan::Export(p.clone())),
            None => Err(ProfileCmdError::Unknown { name }),
        },
        ProfileCmd::Apply { name, hold } => {
            if hold == 0 {
                return Err(ProfileCmdError::Refused(PlanError::NoHold));
            }
            if registry.get(name.as_str()).is_none() {
                return Err(ProfileCmdError::Unknown { name });
            }
            Ok(ProfilePlan::Change(Plan::HpState(ControlCommand::ApplyProfile { profile: name }, hold)))
        },
    }
}

} // verus!
