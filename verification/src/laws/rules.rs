//! Automation rules.
use vstd::prelude::*;

use crate::automation::{
    absolute, chosen_profile, first_rule, first_unknown, names_executable, rules_refusal, share_behind, used_profiles,
    ApplicationRule, AutomationConfig, AutomationError,
};
use crate::domain::automatic::PowerSource;
use crate::domain::os_policy::ProcessInfo;
use crate::domain::profile::ProfileRegistry;
use crate::text::path_codes;

verus! {

/// A character of a path without its case and the direction of a slash.
pub open spec fn folded(c: char) -> u32 {
    if c == '/' {
        '\\' as u32
    } else if 'A' as u32 <= c as u32 <= 'Z' as u32 {
        (c as u32 + 32) as u32
    } else {
        c as u32
    }
}

/// Two paths name the same file.
pub open spec fn same_file(a: Seq<char>, b: Seq<char>) -> bool {
    a.len() == b.len() && forall|i: int| 0 <= i < a.len() ==> folded(#[trigger] a[i]) == folded(b[i])
}

/// Paths are compared character by character, without regard to the case of
/// ASCII letters and the direction of slashes, and by nothing else.
pub proof fn paths_are_compared(a: Seq<char>, b: Seq<char>)
    ensures
        path_codes(a) == path_codes(b) <==> same_file(a, b),
{
    let (x, y) = (path_codes(a), path_codes(b));
    assert(forall|i: int| 0 <= i < a.len() ==> #[trigger] x[i] == folded(a[i]));
    assert(forall|i: int| 0 <= i < b.len() ==> #[trigger] y[i] == folded(b[i]));
    if same_file(a, b) {
        assert forall|i: int| 0 <= i < x.len() implies x[i] == y[i] by {
            assert(folded(a[i]) == folded(b[i]));
        }
        assert(x =~= y);
    }
    if x == y {
        assert(x.len() == a.len() && y.len() == b.len());
        assert forall|i: int| 0 <= i < a.len() implies folded(#[trigger] a[i]) == folded(b[i]) by {
            assert(x[i] == y[i]);
        }
    }
}

/// A process that can be told apart runs the rule's program, on a power source
/// that the rule is meant for.
pub open spec fn rule_is_met(rule: ApplicationRule, power: PowerSource, processes: Seq<ProcessInfo>) -> bool {
    &&& rule.power is None || rule.power == Some(power)
    &&& exists|i: int|
        0 <= i < processes.len() && (#[trigger] processes[i]).creation_time is Some && processes[i].executable is Some
            && same_file(processes[i].executable->Some_0@, rule.executable@)
}

proof fn met_rules_apply(rule: ApplicationRule, power: PowerSource, processes: Seq<ProcessInfo>)
    ensures
        crate::automation::rule_applies(rule, power, processes) <==> rule_is_met(rule, power, processes),
{
    assert forall|i: int| 0 <= i < processes.len() implies (crate::automation::runs_rule(rule, #[trigger] processes[i])
        <==> (processes[i].creation_time is Some && processes[i].executable is Some && same_file(
        processes[i].executable->Some_0@,
        rule.executable@,
    ))) by {
        if let Some(path) = processes[i].executable {
            paths_are_compared(path@, rule.executable@);
        }
    }
    if crate::automation::rule_applies(rule, power, processes) {
        let i = choose|i: int| 0 <= i < processes.len() && crate::automation::runs_rule(rule, #[trigger] processes[i]);
        assert(processes[i].creation_time is Some);
    }
    if rule_is_met(rule, power, processes) {
        let i = choose|i: int|
            0 <= i < processes.len() && (#[trigger] processes[i]).creation_time is Some
                && processes[i].executable is Some && same_file(processes[i].executable->Some_0@, rule.executable@);
        assert(crate::automation::runs_rule(rule, processes[i]));
    }
}

proof fn first_met_rule(rules: Seq<ApplicationRule>, power: PowerSource, processes: Seq<ProcessInfo>, i: int)
    requires
        0 <= i <= rules.len(),
        forall|k: int| 0 <= k < i ==> !rule_is_met(#[trigger] rules[k], power, processes),
        i < rules.len() ==> rule_is_met(rules[i], power, processes),
    ensures
        first_rule(rules, power, processes) == (if i < rules.len() { Some(rules[i].profile) } else { None }),
    decreases i,
{
    if rules.len() > 0 {
        met_rules_apply(rules[0], power, processes);
        if i > 0 {
            assert(!rule_is_met(rules[0], power, processes));
            let rest = rules.drop_first();
            assert forall|k: int| 0 <= k < i - 1 implies !rule_is_met(#[trigger] rest[k], power, processes) by {
                assert(rest[k] == rules[k + 1]);
            }
            first_met_rule(rest, power, processes, i - 1);
        }
    }
}

/// The first rule that is met chooses its profile.
pub proof fn first_met_rule_chooses(c: AutomationConfig, power: PowerSource, processes: Seq<ProcessInfo>, i: int)
    requires
        c.enabled,
        power != PowerSource::Unknown,
        0 <= i < c.applications@.len(),
        rule_is_met(c.applications@[i], power, processes),
        forall|k: int| 0 <= k < i ==> !rule_is_met(#[trigger] c.applications@[k], power, processes),
    ensures
        chosen_profile(c, power, processes) == Some(c.applications@[i].profile),
{
    first_met_rule(c.applications@, power, processes, i);
}

/// Where no rule is met, the power source's own profile is chosen, if any.
pub proof fn power_chooses_otherwise(c: AutomationConfig, power: PowerSource, processes: Seq<ProcessInfo>)
    requires
        c.enabled,
        forall|k: int| 0 <= k < c.applications@.len() ==> !rule_is_met(#[trigger] c.applications@[k], power, processes),
    ensures
        power == PowerSource::Ac ==> chosen_profile(c, power, processes) == c.ac_profile,
        power == PowerSource::Battery ==> chosen_profile(c, power, processes) == c.battery_profile,
        power == PowerSource::Unknown ==> chosen_profile(c, power, processes) is None,
{
    first_met_rule(c.applications@, power, processes, c.applications@.len() as int);
}

proof fn rule_without_effect(rules: Seq<ApplicationRule>, power: PowerSource, processes: Seq<ProcessInfo>, i: int)
    requires
        0 <= i < rules.len(),
        !rule_is_met(rules[i], power, processes),
    ensures
        first_rule(rules, power, processes) == first_rule(rules.remove(i), power, processes),
    decreases rules.len(),
{
    met_rules_apply(rules[0], power, processes);
    let without = rules.remove(i);
    if i == 0 {
        assert(without =~= rules.drop_first());
    } else {
        assert(without[0] == rules[0]);
        assert(without.drop_first() =~= rules.drop_first().remove(i - 1));
        rule_without_effect(rules.drop_first(), power, processes, i - 1);
    }
}

/// A rule that is limited to another power source never matters: with it or
/// without it the same profile is chosen, whatever runs.
pub proof fn rules_of_another_source_never_matter(
    c: AutomationConfig,
    without: AutomationConfig,
    power: PowerSource,
    processes: Seq<ProcessInfo>,
    i: int,
)
    requires
        0 <= i < c.applications@.len(),
        c.applications@[i].power is Some,
        c.applications@[i].power != Some(power),
        without.applications@ == c.applications@.remove(i),
        without == (AutomationConfig { applications: without.applications, ..c }),
    ensures
        chosen_profile(without, power, processes) == chosen_profile(c, power, processes),
{
    rule_without_effect(c.applications@, power, processes, i);
}

/// Neither does a rule whose program does not run.
pub proof fn rules_of_absent_programs_never_matter(
    c: AutomationConfig,
    without: AutomationConfig,
    power: PowerSource,
    processes: Seq<ProcessInfo>,
    i: int,
)
    requires
        0 <= i < c.applications@.len(),
        forall|k: int|
            0 <= k < processes.len() ==> (#[trigger] processes[k]).creation_time is None
                || processes[k].executable is None || !same_file(
                processes[k].executable->Some_0@,
                c.applications@[i].executable@,
            ),
        without.applications@ == c.applications@.remove(i),
        without == (AutomationConfig { applications: without.applications, ..c }),
    ensures
        chosen_profile(without, power, processes) == chosen_profile(c, power, processes),
{
    rule_without_effect(c.applications@, power, processes, i);
}

/// A profile of the registry has the name.
pub open spec fn is_registered(registry: ProfileRegistry, name: Seq<char>) -> bool {
    exists|i: int| 0 <= i < registry.entries@.len() && (#[trigger] registry.entries@[i]).name@ == name
}

/// An ASCII letter.
pub open spec fn letter(c: char) -> bool {
    'A' as u32 <= c as u32 <= 'Z' as u32 || 'a' as u32 <= c as u32 <= 'z' as u32
}

/// The full path of an executable: it starts at a drive or at a share of a
/// server, and ends in `.exe`.
pub open spec fn full_executable(p: Seq<char>) -> bool {
    let n = p.len();
    &&& {
        ||| n >= 3 && letter(p[0]) && p[1] == ':' && (p[2] == '\\' || p[2] == '/')
        ||| n >= 2 && (p[0] == '\\' || p[0] == '/') && (p[1] == '\\' || p[1] == '/') && exists|i: int|
            #[trigger] server_ends(p, i)
    }
    &&& n >= 4 && p[n - 4] == '.' && same_file(p.skip(n - 3), seq!['e', 'x', 'e'])
}

/// The server's name ends before `i`, and the share's name begins behind it.
pub open spec fn server_ends(p: Seq<char>, i: int) -> bool {
    &&& 3 <= i < p.len() - 1
    &&& p[i] == '\\' || p[i] == '/'
    &&& p[i + 1] != '\\' && p[i + 1] != '/'
    &&& forall|k: int| 2 <= k < i ==> (#[trigger] p[k]) != '\\' && p[k] != '/'
}

proof fn full_executables(p: Seq<char>)
    ensures
        full_executable(p) <==> absolute(p) && names_executable(p),
{
    let n = p.len();
    if n >= 4 {
        let e = seq!['e', 'x', 'e'];
        let t = p.skip(n - 3);
        assert(t.len() == 3 && t[0] == p[n - 3] && t[1] == p[n - 2] && t[2] == p[n - 1]);
        assert(e[0] == 'e' && e[1] == 'x' && e[2] == 'e');
        assert(same_file(t, e) <==> folded(t[0]) == folded(e[0]) && folded(t[1]) == folded(e[1]) && folded(t[2])
            == folded(e[2]));
    }
    if exists|i: int| #[trigger] server_ends(p, i) {
        let i = choose|i: int| #[trigger] server_ends(p, i);
        assert(share_behind(p, i)) by {
            assert forall|k: int| 2 <= k < i implies !crate::automation::separator(#[trigger] p[k]) by {}
        }
    }
    if exists|i: int| share_behind(p, i) {
        let i = choose|i: int| share_behind(p, i);
        assert(server_ends(p, i)) by {
            assert forall|k: int| 2 <= k < i implies (#[trigger] p[k]) != '\\' && p[k] != '/' by {
                assert(!crate::automation::separator(p[k]));
            }
        }
    }
}

proof fn lookups_find_names(registry: ProfileRegistry, name: Seq<char>)
    ensures
        registry.lookup(name) is Some <==> is_registered(registry, name),
{
    crate::domain::profile::name_index_is_first(registry.entries@, name);
    let i = crate::domain::profile::name_index(registry.entries@, name);
    if i < registry.entries@.len() {
        assert(registry.entries@[i].name@ == name);
    }
}

proof fn first_unknown_names(names: Seq<String>, registry: ProfileRegistry)
    ensures
        first_unknown(names, registry) is None <==> forall|i: int|
            0 <= i < names.len() ==> is_registered(registry, (#[trigger] names[i])@),
        first_unknown(names, registry) is Some ==> exists|i: int|
            0 <= i < names.len() && (#[trigger] names[i]) == first_unknown(names, registry)->Some_0 && !is_registered(
                registry,
                names[i]@,
            ) && forall|k: int| 0 <= k < i ==> is_registered(registry, (#[trigger] names[k])@),
    decreases names.len(),
{
    if names.len() > 0 {
        lookups_find_names(registry, names[0]@);
        let rest = names.drop_first();
        first_unknown_names(rest, registry);
        assert forall|i: int| 0 <= i < rest.len() implies rest[i] == #[trigger] names[i + 1] by {}
        if registry.lookup(names[0]@) is Some {
            if first_unknown(rest, registry) is Some {
                let i = choose|i: int|
                    0 <= i < rest.len() && (#[trigger] rest[i]) == first_unknown(rest, registry)->Some_0 && !is_registered(
                        registry,
                        rest[i]@,
                    ) && forall|k: int| 0 <= k < i ==> is_registered(registry, (#[trigger] rest[k])@);
                assert(names[i + 1] == rest[i]);
                assert forall|k: int| 0 <= k < i + 1 implies is_registered(registry, (#[trigger] names[k])@) by {
                    if k > 0 {
                        assert(rest[k - 1] == names[k]);
                    }
                }
            } else {
                assert forall|i: int| 0 <= i < names.len() implies is_registered(registry, (#[trigger] names[i])@) by {
                    if i > 0 {
                        assert(rest[i - 1] == names[i]);
                    }
                }
            }
        }
    }
}

/// Rules are accepted exactly if there are no more than sixty-four, every
/// profile that they name is registered, and every program is named by its
/// full path. Too many are refused first, then the first unknown name, that of
/// the power sources before those of the programs, then a path.
pub proof fn rules_are_accepted(config: AutomationConfig, registry: ProfileRegistry)
    ensures
        ({
            let refusal = rules_refusal(config, registry);
            let rules = config.applications@;
            let ac = config.ac_profile is Some && !is_registered(registry, config.ac_profile->Some_0@);
            let dc = config.battery_profile is Some && !is_registered(registry, config.battery_profile->Some_0@);
            let known = forall|i: int| 0 <= i < rules.len() ==> is_registered(registry, (#[trigger] rules[i]).profile@);
            let paths = forall|i: int| 0 <= i < rules.len() ==> full_executable((#[trigger] rules[i]).executable@);
            &&& refusal is None <==> rules.len() <= 64 && !ac && !dc && known && paths
            &&& rules.len() > 64 <==> refusal == Some(AutomationError::TooManyRules)
            &&& rules.len() <= 64 && ac ==> refusal == Some(
                AutomationError::UnknownProfile { name: config.ac_profile->Some_0 },
            )
            &&& rules.len() <= 64 && !ac && dc ==> refusal == Some(
                AutomationError::UnknownProfile { name: config.battery_profile->Some_0 },
            )
            &&& rules.len() <= 64 && !ac && !dc && !known ==> exists|i: int|
                0 <= i < rules.len() && !is_registered(registry, (#[trigger] rules[i]).profile@) && refusal == Some(
                    AutomationError::UnknownProfile { name: rules[i].profile },
                )
            &&& rules.len() <= 64 && !ac && !dc && known && !paths ==> refusal == Some(AutomationError::NotAnExecutable)
        }),
{
    let rules = config.applications@;
    let names = used_profiles(config);
    first_unknown_names(names, registry);
    let a: int = if config.ac_profile is Some { 1 } else { 0 };
    let b: int = if config.battery_profile is Some { 1 } else { 0 };
    assert(names.len() == a + b + rules.len());
    assert(a == 1 ==> names[0] == config.ac_profile->Some_0);
    assert(b == 1 ==> names[a] == config.battery_profile->Some_0);
    assert forall|i: int| 0 <= i < rules.len() implies #[trigger] names[a + b + i] == rules[i].profile by {}
    assert forall|i: int| 0 <= i < rules.len() implies full_executable((#[trigger] rules[i]).executable@) == (absolute(
        rules[i].executable@,
    ) && names_executable(rules[i].executable@)) by {
        full_executables(rules[i].executable@);
    }
    let ac = config.ac_profile is Some && !is_registered(registry, config.ac_profile->Some_0@);
    let dc = config.battery_profile is Some && !is_registered(registry, config.battery_profile->Some_0@);
    let known = forall|i: int| 0 <= i < rules.len() ==> is_registered(registry, (#[trigger] rules[i]).profile@);
    if first_unknown(names, registry) is None {
        assert forall|i: int| 0 <= i < rules.len() implies is_registered(registry, (#[trigger] rules[i]).profile@) by {
            assert(names[a + b + i] == rules[i].profile);
        }
    } else {
        let i = choose|i: int|
            0 <= i < names.len() && (#[trigger] names[i]) == first_unknown(names, registry)->Some_0 && !is_registered(
                registry,
                names[i]@,
            ) && forall|k: int| 0 <= k < i ==> is_registered(registry, (#[trigger] names[k])@);
        if ac {
            assert(i == 0) by {
                assert(!is_registered(registry, names[0]@));
            }
        } else if dc {
            assert(i == a) by {
                assert(!is_registered(registry, names[a]@));
            }
        } else {
            assert(i >= a + b);
            assert(names[a + b + (i - a - b)] == rules[i - a - b].profile);
            assert(!is_registered(registry, rules[i - a - b].profile@));
        }
    }
}

} // verus!
