//! Performance profiles and the registry that names them.
use vstd::prelude::*;

use super::policy::{CpuPolicy, CpuPowerLimits, FanMode, GpuPolicyPatch, ThermalMode};
use crate::text::same_text;

verus! {

/// A named bundle of settings; `None` leaves a domain alone.
#[derive(Debug, PartialEq)]
pub struct PerformanceProfile {
    pub description: String,
    pub cpu: CpuPolicy,
    pub power_limits: Option<CpuPowerLimits>,
    pub gpu_policy: Option<GpuPolicyPatch>,
    pub thermal_mode: Option<ThermalMode>,
    pub fan: Option<FanMode>,
}

impl Clone for PerformanceProfile {
    fn clone(&self) -> (r: Self)
        ensures
            r == *self,
    {
        PerformanceProfile {
            description: self.description.clone(),
            cpu: self.cpu,
            power_limits: self.power_limits,
            gpu_policy: self.gpu_policy,
            thermal_mode: self.thermal_mode,
            fan: self.fan,
        }
    }
}

impl PerformanceProfile {
    /// The profile asks for nothing.
    pub open spec fn spec_empty(self) -> bool {
        &&& self.cpu == CpuPolicy::spec_empty()
        &&& self.power_limits is None
        &&& self.gpu_policy is None
        &&& self.thermal_mode is None
        &&& self.fan is None
    }
}

impl Default for PerformanceProfile {
    fn default() -> (r: PerformanceProfile)
        ensures
            r.spec_empty(),
            r.description@ == Seq::<char>::empty(),
    {
        PerformanceProfile {
            description: String::new(),
            cpu: CpuPolicy::default(),
            power_limits: None,
            gpu_policy: None,
            thermal_mode: None,
            fan: None,
        }
    }
}

/// One registered profile.
#[derive(Debug, PartialEq)]
pub struct ProfileEntry {
    pub name: String,
    pub profile: PerformanceProfile,
    pub builtin: bool,
}

impl Clone for ProfileEntry {
    fn clone(&self) -> (r: Self)
        ensures
            r == *self,
    {
        ProfileEntry { name: self.name.clone(), profile: self.profile.clone(), builtin: self.builtin }
    }
}

/// The profiles a session knows, in display order.
#[derive(Clone, Debug, PartialEq)]
pub struct ProfileRegistry {
    pub entries: Vec<ProfileEntry>,
}

/// The position of the first entry called `name`, or the length if none is.
pub open spec fn name_index(entries: Seq<ProfileEntry>, name: Seq<char>) -> int
    decreases entries.len(),
{
    if entries.len() == 0 {
        0
    } else if entries[0].name@ == name {
        0
    } else {
        1 + name_index(entries.drop_first(), name)
    }
}

/// `name_index` is the least position holding `name`.
pub proof fn name_index_is_first(entries: Seq<ProfileEntry>, name: Seq<char>)
    ensures
        0 <= name_index(entries, name) <= entries.len(),
        name_index(entries, name) < entries.len() ==> entries[name_index(entries, name)].name@ == name,
        forall|i: int| 0 <= i < name_index(entries, name) ==> (#[trigger] entries[i]).name@ != name,
    decreases entries.len(),
{
    if entries.len() > 0 && entries[0].name@ != name {
        let rest = entries.drop_first();
        name_index_is_first(rest, name);
        assert forall|i: int| 0 <= i < name_index(entries, name) implies (#[trigger] entries[i]).name@
            != name by {
            if i > 0 {
                assert(rest[i - 1] == entries[i]);
            }
        }
    }
}

/// Only one position can be the first one holding `name`.
pub proof fn name_index_unique(entries: Seq<ProfileEntry>, name: Seq<char>, k: int)
    requires
        0 <= k <= entries.len(),
        k < entries.len() ==> entries[k].name@ == name,
        forall|i: int| 0 <= i < k ==> (#[trigger] entries[i]).name@ != name,
    ensures
        name_index(entries, name) == k,
{
    name_index_is_first(entries, name);
    let n = name_index(entries, name);
    if n < k {
        assert(entries[n].name@ != name);
    }
    if k < n {
        assert(entries[k].name@ != name);
    }
}

/// The entries once one of them is set at `i`: in place of the one that stands
/// there, else behind the last.
pub open spec fn placed_entries(entries: Seq<ProfileEntry>, i: int, entry: ProfileEntry) -> Seq<ProfileEntry> {
    if i < entries.len() { entries.update(i, entry) } else { entries.push(entry) }
}

/// One entry has been registered: a known name keeps its place, a new one
/// comes last, and every other entry stays as it is.
pub open spec fn registered(
    before: Seq<ProfileEntry>,
    after: Seq<ProfileEntry>,
    name: Seq<char>,
    profile: PerformanceProfile,
    builtin: bool,
) -> bool {
    let i = name_index(before, name);
    let entry = after[i];
    &&& entry.name@ == name
    &&& entry.profile == profile
    &&& entry.builtin == builtin
    &&& after == placed_entries(before, i, entry)
}

impl ProfileRegistry {
    /// The profile registered under `name`, if any.
    pub open spec fn lookup(self, name: Seq<char>) -> Option<PerformanceProfile> {
        let i = name_index(self.entries@, name);
        if i < self.entries@.len() { Some(self.entries@[i].profile) } else { None }
    }

    /// A registry without profiles: no name resolves.
    pub fn empty() -> (r: ProfileRegistry)
        ensures
            r.entries@.len() == 0,
            forall|name: Seq<char>| r.lookup(name) is None,
    {
        ProfileRegistry { entries: Vec::new() }
    }

    fn position(&self, name: &str) -> (r: usize)
        ensures
            r == name_index(self.entries@, name@),
            r <= self.entries@.len(),
    {
        let mut i: usize = 0;
        while i < self.entries.len()
            invariant
                i <= self.entries@.len(),
                forall|k: int| 0 <= k < i ==> (#[trigger] self.entries@[k]).name@ != name@,
            decreases self.entries@.len() - i,
        {
            if same_text(self.entries[i].name.as_str(), name) {
                proof {
                    name_index_unique(self.entries@, name@, i as int);
                }
                return i;
            }
            i = i + 1;
        }
        proof {
            name_index_unique(self.entries@, name@, i as int);
        }
        i
    }

    /// The profile registered under `name`, if any.
    pub fn get(&self, name: &str) -> (r: Option<&PerformanceProfile>)
        ensures
            r matches Some(p) ==> self.lookup(name@) == Some(*p),
            r is None ==> self.lookup(name@) is None,
    {
        let i: usize = self.position(name);
        if i < self.entries.len() { Some(&self.entries[i].profile) } else { None }
    }

    /// A built-in profile has the name.
    pub open spec fn holds_builtin(self, name: Seq<char>) -> bool {
        let i = name_index(self.entries@, name);
        i < self.entries@.len() && self.entries@[i].builtin
    }

    fn place(&mut self, i: usize, entry: ProfileEntry)
        requires
            i == name_index(old(self).entries@, entry.name@),
        ensures
            final(self).lookup(entry.name@) == Some(entry.profile),
            final(self).holds_builtin(entry.name@) == entry.builtin,
            forall|other: Seq<char>| other != entry.name@ ==> final(self).lookup(other) == old(self).lookup(other),
            forall|other: Seq<char>|
                other != entry.name@ ==> final(self).holds_builtin(other) == old(self).holds_builtin(other),
            final(self).entries@ == placed_entries(old(self).entries@, i as int, entry),
    {
        let ghost before = self.entries@;
        let ghost key = entry.name@;
        proof {
            name_index_is_first(before, key);
        }
        if i < self.entries.len() {
            self.entries.set(i, entry);
        } else {
            self.entries.push(entry);
        }
        proof {
            let after = self.entries@;
            name_index_unique(after, key, i as int);
            assert forall|other: Seq<char>| other != key implies self.lookup(other) == old(self).lookup(other)
                && self.holds_builtin(other) == old(self).holds_builtin(other) by {
                let n = name_index(before, other);
                name_index_is_first(before, other);
                assert(n != i || n == before.len());
                if n < before.len() {
                    name_index_unique(after, other, n);
                } else {
                    assert forall|k: int| 0 <= k < after.len() implies (#[trigger] after[k]).name@ != other by {
                        if k != i {
                            assert(after[k] == before[k]);
                        }
                    }
                    name_index_unique(after, other, after.len() as int);
                }
            }
        }
    }

    /// Registers a user profile: it replaces an earlier user profile of that
    /// name, else it comes last. A built-in profile is never replaced; the
    /// result says whether the profile was taken.
    pub fn insert(&mut self, name: &str, profile: PerformanceProfile) -> (r: bool)
        ensures
            r == !old(self).holds_builtin(name@),
            !r ==> *final(self) == *old(self),
            r ==> registered(old(self).entries@, final(self).entries@, name@, profile, false),
            r ==> final(self).lookup(name@) == Some(profile) && !final(self).holds_builtin(name@),
            // Whatever is registered, a built-in profile keeps its name and settings.
            forall|builtin: Seq<char>|
                old(self).holds_builtin(builtin) ==> final(self).lookup(builtin) == old(self).lookup(builtin)
                    && final(self).holds_builtin(builtin),
            forall|other: Seq<char>| other != name@ ==> final(self).lookup(other) == old(self).lookup(other),
            forall|other: Seq<char>|
                other != name@ ==> final(self).holds_builtin(other) == old(self).holds_builtin(other),
    {
        let i: usize = self.position(name);
        if i < self.entries.len() && self.entries[i].builtin {
            return false;
        }
        self.place(i, ProfileEntry { name: String::from_str(name), profile, builtin: false });
        true
    }

    /// Registers a built-in profile: it takes the place of one of that name,
    /// else it comes last.
    pub fn insert_builtin(&mut self, name: &str, profile: PerformanceProfile)
        ensures
            registered(old(self).entries@, final(self).entries@, name@, profile, true),
            final(self).lookup(name@) == Some(profile),
            final(self).holds_builtin(name@),
            forall|other: Seq<char>| other != name@ ==> final(self).lookup(other) == old(self).lookup(other),
            forall|other: Seq<char>|
                other != name@ ==> final(self).holds_builtin(other) == old(self).holds_builtin(other),
    {
        let i: usize = self.position(name);
        self.place(i, ProfileEntry { name: String::from_str(name), profile, builtin: true });
    }
}

} // verus!
