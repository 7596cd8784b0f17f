//! Application and power rules: they own reversible sessions of the writer,
//! and never compete with what the user does by hand.
use vstd::prelude::*;

use crate::control::keepalive::{after, moment_after};
use crate::control::safety::{age, elapsed};
use crate::domain::automatic::{AutomaticMode, AutomaticSchedulerSnapshot, PowerSource};
use crate::domain::command::{control_status_succeeded, ControlCommand, ControlStatus};
use crate::domain::error::ControlError;
use crate::domain::os_policy::ProcessInfo;
use crate::domain::profile::ProfileRegistry;
use crate::text::{chars_of, lower_code, path_codes, same_path, same_text};

verus! {

/// The largest number of application rules.
pub const MAX_RULES: usize = 64;

/// Milliseconds for which a choice has to hold before it is acted on, and
/// between two scans.
pub const CONFIRM_DELAY: u64 = 1_000;

/// While the executable runs, the profile applies.
#[derive(Debug, PartialEq)]
pub struct ApplicationRule {
    /// Exact executable path, compared without regard to ASCII case.
    pub executable: String,
    pub profile: String,
    /// The power source the rule is limited to, if any.
    pub power: Option<PowerSource>,
}

impl Clone for ApplicationRule {
    fn clone(&self) -> (r: Self)
        ensures
            r == *self,
    {
        ApplicationRule { executable: self.executable.clone(), profile: self.profile.clone(), power: self.power }
    }
}

/// The rules; their order is their priority.
#[derive(Clone, Debug, PartialEq)]
pub struct AutomationConfig {
    pub enabled: bool,
    pub battery_efficiency: bool,
    pub ac_profile: Option<String>,
    pub battery_profile: Option<String>,
    pub applications: Vec<ApplicationRule>,
}

impl Default for AutomationConfig {
    fn default() -> (r: AutomationConfig)
        ensures
            !r.enabled,
            !r.battery_efficiency,
            r.ac_profile is None,
            r.battery_profile is None,
            r.applications@.len() == 0,
    {
        AutomationConfig {
            enabled: false,
            battery_efficiency: false,
            ac_profile: None,
            battery_profile: None,
            applications: Vec::new(),
        }
    }
}

/// Why a set of rules is refused.
#[derive(Debug, PartialEq)]
pub enum AutomationError {
    TooManyRules,
    UnknownProfile { name: String },
    NotAnExecutable,
}

impl AutomationError {
    pub open spec fn spec_text(self) -> Seq<char> {
        match self {
            AutomationError::TooManyRules => "应用规则最多 64 条"@,
            AutomationError::UnknownProfile { name } => "配置档不存在："@ + name@,
            AutomationError::NotAnExecutable => "应用规则需要完整的 .exe 路径"@,
        }
    }

    /// The refusal in words.
    pub fn text(&self) -> (r: String)
        ensures
            r@ == self.spec_text(),
    {
        match self {
            AutomationError::TooManyRules => String::from_str("应用规则最多 64 条"),
            AutomationError::UnknownProfile { name } => {
                let mut s = String::from_str("配置档不存在：");
                s.append(name.as_str());
                s
            },
            AutomationError::NotAnExecutable => String::from_str("应用规则需要完整的 .exe 路径"),
        }
    }
}

/// A path separator of Windows.
pub open spec fn separator(c: char) -> bool {
    c == '\\' || c == '/'
}

/// An ASCII letter.
pub open spec fn drive_letter(c: char) -> bool {
    97 <= lower_code(c) <= 122
}

/// The server's name of a network path ends before `i`, and a share's name
/// starts behind it.
pub open spec fn share_behind(p: Seq<char>, i: int) -> bool {
    &&& 2 < i < p.len() - 1
    &&& separator(p[i])
    &&& !separator(p[i + 1])
    &&& forall|k: int| 2 <= k < i ==> !separator(#[trigger] p[k])
}

/// An absolute Windows path: a drive and a separator, or two separators with a
/// server and a share behind them, neither of them empty.
pub open spec fn absolute(p: Seq<char>) -> bool {
    ||| p.len() >= 3 && drive_letter(p[0]) && p[1] == ':' && separator(p[2])
    ||| p.len() >= 2 && separator(p[0]) && separator(p[1]) && exists|i: int| share_behind(p, i)
}

/// The path ends in `.exe`, whatever the case.
pub open spec fn names_executable(p: Seq<char>) -> bool {
    &&& p.len() >= 4
    &&& p[p.len() - 4] == '.'
    &&& lower_code(p[p.len() - 3]) == 101
    &&& lower_code(p[p.len() - 2]) == 120
    &&& lower_code(p[p.len() - 1]) == 101
}

fn is_separator(c: char) -> (r: bool)
    ensures
        r == separator(c),
{
    c == '\\' || c == '/'
}

fn code(c: char) -> (r: u32)
    ensures
        r == lower_code(c),
{
    let n: u32 = c as u32;
    if 65 <= n && n <= 90 { n + 32 } else { n }
}

fn has_share(v: &Vec<char>) -> (r: bool)
    ensures
        r == exists|i: int| share_behind(v@, i),
{
    let n: usize = v.len();
    let mut i: usize = 2;
    while i < n && !is_separator(v[i])
        invariant
            2 <= i,
            n == v@.len(),
            forall|k: int| 2 <= k < i && k < n ==> !separator(#[trigger] v@[k]),
        ensures
            2 <= i,
            i < n ==> separator(v@[i as int]),
            forall|k: int| 2 <= k < i && k < n ==> !separator(#[trigger] v@[k]),
        decreases n - i,
    {
        i = i + 1;
    }
    let found = 2 < i && i < n && i + 1 < n && !is_separator(v[i + 1]);
    proof {
        if found {
            assert(share_behind(v@, i as int));
        } else if exists|j: int| share_behind(v@, j) {
            let j = choose|j: int| share_behind(v@, j);
            if j < i {
                assert(!separator(v@[j]));
            } else if i < j {
                assert(!separator(v@[i as int]));
            }
        }
    }
    found
}

fn is_full_executable_path(p: &str) -> (r: bool)
    ensures
        r == (absolute(p@) && names_executable(p@)),
{
    let v = chars_of(p);
    let n: usize = v.len();
    if n < 4 {
        return false;
    }
    let drive = 97 <= code(v[0]) && code(v[0]) <= 122 && v[1] == ':' && is_separator(v[2]);
    let share = is_separator(v[0]) && is_separator(v[1]) && has_share(&v);
    (drive || share) && v[n - 4] == '.' && code(v[n - 3]) == 101 && code(v[n - 2]) == 120 && code(v[n - 1]) == 101
}

/// The profile names that the rules use, in the order in which they are
/// checked.
pub open spec fn used_profiles(c: AutomationConfig) -> Seq<String> {
    (match c.ac_profile {
        Some(name) => seq![name],
        None => Seq::empty(),
    }) + (match c.battery_profile {
        Some(name) => seq![name],
        None => Seq::empty(),
    }) + Seq::new(c.applications@.len(), |i: int| c.applications@[i].profile)
}

/// The first name that is not registered.
pub open spec fn first_unknown(names: Seq<String>, registry: ProfileRegistry) -> Option<String>
    decreases names.len(),
{
    if names.len() == 0 {
        None
    } else if registry.lookup(names[0]@) is None {
        Some(names[0])
    } else {
        first_unknown(names.drop_first(), registry)
    }
}

/// Every rule names a full executable path.
pub open spec fn full_paths(rules: Seq<ApplicationRule>) -> bool {
    forall|i: int|
        0 <= i < rules.len() ==> absolute((#[trigger] rules[i]).executable@) && names_executable(
            rules[i].executable@,
        )
}

/// Why the rules are refused, if they are.
pub open spec fn rules_refusal(c: AutomationConfig, registry: ProfileRegistry) -> Option<AutomationError> {
    if c.applications@.len() > MAX_RULES {
        Some(AutomationError::TooManyRules)
    } else {
        match first_unknown(used_profiles(c), registry) {
            Some(name) => Some(AutomationError::UnknownProfile { name }),
            None => if full_paths(c.applications@) { None } else { Some(AutomationError::NotAnExecutable) },
        }
    }
}

fn collect_names(c: &AutomationConfig) -> (r: Vec<String>)
    ensures
        r@ == used_profiles(*c),
{
    let mut names: Vec<String> = Vec::new();
    if let Some(name) = &c.ac_profile {
        names.push(name.clone());
    }
    if let Some(name) = &c.battery_profile {
        names.push(name.clone());
    }
    let ghost front = names@;
    let ghost rules = Seq::new(c.applications@.len(), |i: int| c.applications@[i].profile);
    let mut i: usize = 0;
    assert(names@ =~= front + rules.take(0));
    while i < c.applications.len()
        invariant
            i <= c.applications@.len(),
            rules == Seq::new(c.applications@.len(), |i: int| c.applications@[i].profile),
            names@ == front + rules.take(i as int),
        decreases c.applications@.len() - i,
    {
        names.push(c.applications[i].profile.clone());
        i = i + 1;
        assert(rules.take(i as int) =~= rules.take(i - 1).push(rules[i - 1]));
        assert(names@ =~= front + rules.take(i as int));
    }
    assert(rules.take(rules.len() as int) =~= rules);
    assert(names@ =~= used_profiles(*c));
    names
}

fn find_unknown(names: &Vec<String>, registry: &ProfileRegistry) -> (r: Option<String>)
    ensures
        r == first_unknown(names@, *registry),
{
    let mut i: usize = 0;
    assert(names@.skip(0) =~= names@);
    while i < names.len()
        invariant
            i <= names@.len(),
            first_unknown(names@, *registry) == first_unknown(names@.skip(i as int), *registry),
        decreases names@.len() - i,
    {
        assert(names@.skip(i as int)[0] == names@[i as int]);
        assert(names@.skip(i as int).drop_first() =~= names@.skip(i + 1));
        if registry.get(names[i].as_str()).is_none() {
            return Some(names[i].clone());
        }
        i = i + 1;
    }
    None
}

/// The rule applies: its power source is the current one, and a process with
/// its path runs and can be told apart.
pub open spec fn rule_applies(rule: ApplicationRule, power: PowerSource, processes: Seq<ProcessInfo>) -> bool {
    &&& rule.power matches Some(p) ==> p == power
    &&& exists|i: int| 0 <= i < processes.len() && runs_rule(rule, #[trigger] processes[i])
}

/// The process is an identifiable run of the rule's executable.
pub open spec fn runs_rule(rule: ApplicationRule, p: ProcessInfo) -> bool {
    p.creation_time is Some && (p.executable matches Some(path) && path_codes(path@) == path_codes(
        rule.executable@,
    ))
}

/// The profile of the first rule that applies.
pub open spec fn first_rule(rules: Seq<ApplicationRule>, power: PowerSource, processes: Seq<ProcessInfo>) -> Option<
    String,
>
    decreases rules.len(),
{
    if rules.len() == 0 {
        None
    } else if rule_applies(rules[0], power, processes) {
        Some(rules[0].profile)
    } else {
        first_rule(rules.drop_first(), power, processes)
    }
}

/// The profile that the rules choose: the first rule that applies, else the
/// one of the power source; none while disabled or on unknown power.
pub open spec fn chosen_profile(c: AutomationConfig, power: PowerSource, processes: Seq<ProcessInfo>) -> Option<String> {
    if !c.enabled || power == PowerSource::Unknown {
        None
    } else {
        match first_rule(c.applications@, power, processes) {
            Some(profile) => Some(profile),
            None => match power {
                PowerSource::Ac => c.ac_profile,
                PowerSource::Battery => c.battery_profile,
                PowerSource::Unknown => None,
            },
        }
    }
}

fn runs(rule: &ApplicationRule, processes: &Vec<ProcessInfo>) -> (r: bool)
    ensures
        r == (exists|i: int| 0 <= i < processes@.len() && runs_rule(*rule, #[trigger] processes@[i])),
{
    let mut i: usize = 0;
    while i < processes.len()
        invariant
            i <= processes@.len(),
            forall|k: int| 0 <= k < i ==> !runs_rule(*rule, #[trigger] processes@[k]),
        decreases processes@.len() - i,
    {
        let p = &processes[i];
        if p.creation_time.is_some() {
            if let Some(path) = &p.executable {
                if same_path(path.as_str(), rule.executable.as_str()) {
                    assert(runs_rule(*rule, processes@[i as int]));
                    return true;
                }
            }
        }
        i = i + 1;
    }
    false
}

impl AutomationConfig {
    /// Checks the rules: their number, that every profile is registered, and
    /// that every rule names a full executable path.
    pub fn validate(&self, registry: &ProfileRegistry) -> (r: Result<(), AutomationError>)
        ensures
            r is Ok <==> rules_refusal(*self, *registry) is None,
            r matches Err(e) ==> rules_refusal(*self, *registry) == Some(e),
    {
        if self.applications.len() > MAX_RULES {
            return Err(AutomationError::TooManyRules);
        }
        let names = collect_names(self);
        if let Some(name) = find_unknown(&names, registry) {
            return Err(AutomationError::UnknownProfile { name });
        }
        let mut i: usize = 0;
        while i < self.applications.len()
            invariant
                i <= self.applications@.len(),
                forall|k: int|
                    0 <= k < i ==> absolute((#[trigger] self.applications@[k]).executable@) && names_executable(
                        self.applications@[k].executable@,
                    ),
                self.applications@.len() <= MAX_RULES,
                first_unknown(used_profiles(*self), *registry) is None,
            decreases self.applications@.len() - i,
        {
            if !is_full_executable_path(self.applications[i].executable.as_str()) {
                assert(!(absolute(self.applications@[i as int].executable@) && names_executable(
                    self.applications@[i as int].executable@,
                )));
                return Err(AutomationError::NotAnExecutable);
            }
            i = i + 1;
        }
        Ok(())
    }

    /// The profile that the rules choose.
    pub fn resolve(&self, power: PowerSource, processes: &Vec<ProcessInfo>) -> (r: Option<String>)
        ensures
            r == chosen_profile(*self, power, processes@),
    {
        if !self.enabled || power == PowerSource::Unknown {
            return None;
        }
        let mut i: usize = 0;
        assert(self.applications@.skip(0) =~= self.applications@);
        while i < self.applications.len()
            invariant
                i <= self.applications@.len(),
                self.enabled,
                power != PowerSource::Unknown,
                first_rule(self.applications@, power, processes@) == first_rule(
                    self.applications@.skip(i as int),
                    power,
                    processes@,
                ),
            decreases self.applications@.len() - i,
        {
            assert(self.applications@.skip(i as int)[0] == self.applications@[i as int]);
            assert(self.applications@.skip(i as int).drop_first() =~= self.applications@.skip(i + 1));
            let rule = &self.applications[i];
            let power_fits = match rule.power {
                Some(p) => p == power,
                None => true,
            };
            if power_fits && runs(rule, processes) {
                return Some(rule.profile.clone());
            }
            i = i + 1;
        }
        match power {
            PowerSource::Ac => self.ac_profile.clone(),
            PowerSource::Battery => self.battery_profile.clone(),
            PowerSource::Unknown => None,
        }
    }
}

/// Disabled rules, and rules on unknown power, choose nothing.
pub proof fn unknown_power_chooses_nothing(c: AutomationConfig, power: PowerSource, processes: Seq<ProcessInfo>)
    requires
        !c.enabled || power == PowerSource::Unknown,
    ensures
        chosen_profile(c, power, processes) is None,
{
}

/// A rule never applies through a process that cannot be told apart: without
/// any identifiable process, only the power source's profile is chosen.
pub proof fn rules_need_process_identity(c: AutomationConfig, power: PowerSource, processes: Seq<ProcessInfo>)
    requires
        c.enabled,
        forall|i: int| 0 <= i < processes.len() ==> (#[trigger] processes[i]).creation_time is None,
    ensures
        chosen_profile(c, power, processes) == (match power {
            PowerSource::Ac => c.ac_profile,
            PowerSource::Battery => c.battery_profile,
            PowerSource::Unknown => None,
        }),
{
    no_rule_without_identity(c.applications@, power, processes);
}

proof fn no_rule_without_identity(rules: Seq<ApplicationRule>, power: PowerSource, processes: Seq<ProcessInfo>)
    requires
        forall|i: int| 0 <= i < processes.len() ==> (#[trigger] processes[i]).creation_time is None,
    ensures
        first_rule(rules, power, processes) is None,
    decreases rules.len(),
{
    if rules.len() > 0 {
        no_rule_without_identity(rules.drop_first(), power, processes);
    }
}

/// A change of the automatic session that has been dispatched.
#[derive(Debug, PartialEq)]
pub enum Transition {
    Begin(u64, String),
    End(u64),
}

/// What the user should know about the rules.
#[derive(Debug, PartialEq)]
pub enum AutomationMessage {
    /// The user has taken over by hand.
    TakenOver,
    /// A change did not complete.
    Incomplete(ControlStatus),
    /// The writer is gone.
    Disconnected,
    Control(ControlError),
    Text(String),
}

/// The rules as a page shows them.
#[derive(Clone, Debug, PartialEq)]
pub struct AutomationSnapshot {
    pub initialized: bool,
    pub config: AutomationConfig,
    pub paused_by_manual: bool,
    pub active_profile: Option<String>,
    pub power: PowerSource,
    pub message: Option<String>,
    /// The automatic scheduler's state.
    pub process_policy: AutomaticSchedulerSnapshot,
}

impl AutomationSnapshot {
    /// Nothing is known of the rules.
    pub open spec fn blank(self) -> bool {
        &&& !self.initialized
        &&& !self.config.enabled
        &&& !self.config.battery_efficiency
        &&& self.config.ac_profile is None
        &&& self.config.battery_profile is None
        &&& self.config.applications@.len() == 0
        &&& !self.paused_by_manual
        &&& self.active_profile is None
        &&& self.power is Unknown
        &&& self.message is None
        &&& self.process_policy == AutomaticSchedulerSnapshot::spec_off()
    }
}

impl Default for AutomationSnapshot {
    fn default() -> (r: AutomationSnapshot)
        ensures
            r.blank(),
    {
        AutomationSnapshot {
            initialized: false,
            config: AutomationConfig::default(),
            paused_by_manual: false,
            active_profile: None,
            power: PowerSource::Unknown,
            message: None,
            process_policy: AutomaticSchedulerSnapshot::default(),
        }
    }
}

/// The automatic session that is active.
#[derive(Debug, PartialEq)]
pub struct ActiveSession {
    pub id: u64,
    pub profile: String,
}

/// The state of the rules at work, without the rules themselves.
#[derive(Debug, PartialEq)]
pub struct AutomationWorker {
    pub paused_by_manual: bool,
    pub power: PowerSource,
    pub message: Option<AutomationMessage>,
    /// A restore failed: nothing more is attempted until the rules change.
    pub recovery_failed: bool,
    pub active: Option<ActiveSession>,
    pub pending: Option<Transition>,
    /// The count of manual commands that is known.
    pub generation: u64,
    pub next_id: u64,
    /// The choice that is being confirmed, and since when.
    pub candidate: Option<String>,
    pub candidate_since: u64,
    pub next_scan: u64,
}

/// What has become of a dispatched change.
#[derive(Debug, PartialEq)]
pub enum Awaited {
    Finished(ControlStatus),
    Running,
    Gone,
}

/// Two optional names are the same.
pub open spec fn same_choice(a: Option<String>, b: Option<String>) -> bool {
    match (a, b) {
        (Some(x), Some(y)) => x@ == y@,
        (None, None) => true,
        _ => false,
    }
}

fn choices_equal(a: &Option<String>, b: &Option<String>) -> (r: bool)
    ensures
        r == same_choice(*a, *b),
{
    match (a, b) {
        (Some(x), Some(y)) => same_text(x.as_str(), y.as_str()),
        (None, None) => true,
        _ => false,
    }
}

/// The next session number.
pub open spec fn following(id: u64) -> u64 {
    if id == u64::MAX { 0 } else { (id + 1) as u64 }
}

impl AutomationWorker {
    /// Rules that have just started: nothing is active, nothing chosen.
    pub fn new(generation: u64, message: Option<AutomationMessage>, now: u64) -> (r: AutomationWorker)
        ensures
            r == (AutomationWorker {
                paused_by_manual: false,
                power: PowerSource::Unknown,
                message,
                recovery_failed: false,
                active: None,
                pending: None,
                generation,
                next_id: 1,
                candidate: None,
                candidate_since: now,
                next_scan: now,
            }),
    {
        AutomationWorker {
            paused_by_manual: false,
            power: PowerSource::Unknown,
            message,
            recovery_failed: false,
            active: None,
            pending: None,
            generation,
            next_id: 1,
            candidate: None,
            candidate_since: now,
            next_scan: now,
        }
    }

    /// Takes note of new rules: saved ones start afresh and are looked at
    /// once; a failure only leaves its message.
    pub fn configured(&mut self, result: Result<(), String>, generation: u64, now: u64)
        ensures
            *final(self) == (match result {
                Ok(_) => AutomationWorker {
                    recovery_failed: false,
                    paused_by_manual: false,
                    message: None,
                    generation,
                    next_scan: now,
                    ..*old(self)
                },
                Err(text) => AutomationWorker { message: Some(AutomationMessage::Text(text)), ..*old(self) },
            }),
    {
        match result {
            Ok(()) => {
                self.recovery_failed = false;
                self.paused_by_manual = false;
                self.message = None;
                self.generation = generation;
                self.next_scan = now;
            },
            Err(text) => {
                self.message = Some(AutomationMessage::Text(text));
            },
        }
    }

    /// The session to restore at shutdown: the active one, else the one of a
    /// change that is still under way. Its number keeps a stale restore from
    /// touching anything.
    pub fn session_to_restore(&self) -> (r: Option<u64>)
        ensures
            r == (match self.active {
                Some(session) => Some(session.id),
                None => match self.pending {
                    Some(Transition::Begin(id, _)) => Some(id),
                    Some(Transition::End(id)) => Some(id),
                    None => None,
                },
            }),
    {
        match &self.active {
            Some(session) => Some(session.id),
            None => match &self.pending {
                Some(Transition::Begin(id, _)) => Some(*id),
                Some(Transition::End(id)) => Some(*id),
                None => None,
            },
        }
    }

    /// Notices manual commands: they pause the rules.
    pub fn notice_manual(&mut self, generation: u64)
        ensures
            *final(self) == (if generation != old(self).generation {
                AutomationWorker {
                    generation,
                    paused_by_manual: true,
                    message: Some(AutomationMessage::TakenOver),
                    ..*old(self)
                }
            } else {
                *old(self)
            }),
    {
        if generation != self.generation {
            self.generation = generation;
            self.paused_by_manual = true;
            self.message = Some(AutomationMessage::TakenOver);
        }
    }

    /// The mode that the process scheduler should be in.
    pub fn scheduler_mode(&self, config: &AutomationConfig) -> (r: AutomaticMode)
        ensures
            r == (if config.enabled && config.battery_efficiency && !self.paused_by_manual {
                AutomaticMode::BatteryEfficiency
            } else {
                AutomaticMode::Off
            }),
    {
        if config.enabled && config.battery_efficiency && !self.paused_by_manual {
            AutomaticMode::BatteryEfficiency
        } else {
            AutomaticMode::Off
        }
    }

    /// The state once a change has finished. A session that began is active
    /// even if it failed, so that it gets restored; a failure pauses the
    /// rules, and a failed restore stops them.
    pub open spec fn spec_finished(self, transition: Transition, status: ControlStatus) -> AutomationWorker {
        let ok = status.succeeded();
        let message = if ok { self.message } else { Some(AutomationMessage::Incomplete(status)) };
        match transition {
            Transition::Begin(id, profile) => AutomationWorker {
                pending: None,
                active: Some(ActiveSession { id, profile }),
                paused_by_manual: self.paused_by_manual || !ok,
                message,
                ..self
            },
            Transition::End(_) => AutomationWorker {
                pending: None,
                active: if ok { None } else { self.active },
                paused_by_manual: self.paused_by_manual || !ok,
                recovery_failed: self.recovery_failed || !ok,
                message,
                ..self
            },
        }
    }

    /// Takes in what has become of the dispatched change.
    pub fn poll_pending(&mut self, awaited: Awaited)
        ensures
            *final(self) == (match old(self).pending {
                None => *old(self),
                Some(transition) => match awaited {
                    Awaited::Running => *old(self),
                    Awaited::Gone => AutomationWorker {
                        pending: None,
                        paused_by_manual: true,
                        message: Some(AutomationMessage::Disconnected),
                        ..*old(self)
                    },
                    Awaited::Finished(status) => old(self).spec_finished(transition, status),
                },
            }),
    {
        if self.pending.is_none() {
            return;
        }
        match awaited {
            Awaited::Running => {},
            Awaited::Gone => {
                self.pending = None;
                self.paused_by_manual = true;
                self.message = Some(AutomationMessage::Disconnected);
            },
            Awaited::Finished(status) => {
                let ok = control_status_succeeded(&status);
                let mut pending: Option<Transition> = None;
                core::mem::swap(&mut pending, &mut self.pending);
                match pending {
                    Some(Transition::Begin(id, profile)) => {
                        self.active = Some(ActiveSession { id, profile });
                    },
                    Some(Transition::End(_)) => {
                        if ok {
                            self.active = None;
                        } else {
                            self.recovery_failed = true;
                        }
                    },
                    None => {},
                }
                if !ok {
                    self.paused_by_manual = true;
                    self.message = Some(AutomationMessage::Incomplete(status));
                }
            },
        }
    }

    /// A scan is due: nothing is under way, nothing has failed, and there are
    /// rules or a session to look after.
    pub open spec fn spec_scan_due(self, config: AutomationConfig, now: u64) -> bool {
        now >= self.next_scan && self.pending is None && !self.recovery_failed && (config.enabled
            || self.active is Some)
    }

    /// Whether a scan is due.
    pub fn scan_due(&self, config: &AutomationConfig, now: u64) -> (r: bool)
        ensures
            r == self.spec_scan_due(*config, now),
    {
        now >= self.next_scan && self.pending.is_none() && !self.recovery_failed && (config.enabled
            || self.active.is_some())
    }

    /// What the rules choose right now: nothing while the user has taken
    /// over, or while the processes cannot be listed.
    pub open spec fn spec_selected(
        self,
        config: AutomationConfig,
        power: PowerSource,
        processes: Option<Seq<ProcessInfo>>,
    ) -> Option<String> {
        if self.paused_by_manual {
            None
        } else {
            match processes {
                Some(list) => chosen_profile(config, power, list),
                None => None,
            }
        }
    }

    /// The state after a scan, before any change.
    pub open spec fn spec_scanned(self, power: PowerSource, selected: Option<String>, now: u64) -> AutomationWorker {
        let seen = AutomationWorker { power, next_scan: after(now, CONFIRM_DELAY), ..self };
        if same_choice(selected, self.candidate) {
            seen
        } else {
            AutomationWorker { candidate: selected, candidate_since: now, ..seen }
        }
    }

    /// The session should change: the active one is not the choice, or none is
    /// active and there is a choice.
    pub open spec fn spec_command(self, now: u64) -> Option<ControlCommand> {
        if age(now, self.candidate_since) < CONFIRM_DELAY {
            None
        } else {
            match self.active {
                Some(session) => if same_choice(Some(session.profile), self.candidate) {
                    None
                } else {
                    Some(ControlCommand::RestoreScopedProfile { session_id: session.id })
                },
                None => match self.candidate {
                    Some(profile) => Some(
                        ControlCommand::ApplyScopedProfile { profile, session_id: self.next_id },
                    ),
                    None => None,
                },
            }
        }
    }

    /// Scans: the choice is made, has to hold for a second, and then asks for
    /// a change of the session. An active session always ends before another
    /// begins.
    pub fn scan(
        &mut self,
        config: &AutomationConfig,
        power: PowerSource,
        processes: Option<&Vec<ProcessInfo>>,
        now: u64,
    ) -> (r: Option<ControlCommand>)
        ensures
            ({
                let list = match processes {
                    Some(v) => Some(v@),
                    None => None,
                };
                let scanned = old(self).spec_scanned(
                    power,
                    old(self).spec_selected(*config, power, list),
                    now,
                );
                &&& r == scanned.spec_command(now)
                &&& *final(self) == (if r is Some && scanned.active is None {
                    AutomationWorker { next_id: following(scanned.next_id), ..scanned }
                } else {
                    scanned
                })
            }),
    {
        self.next_scan = moment_after(now, CONFIRM_DELAY);
        self.power = power;
        let selected = if self.paused_by_manual {
            None
        } else {
            match processes {
                Some(list) => config.resolve(power, list),
                None => None,
            }
        };
        if !choices_equal(&selected, &self.candidate) {
            self.candidate = selected;
            self.candidate_since = now;
        }
        if elapsed(now, self.candidate_since) < CONFIRM_DELAY {
            return None;
        }
        match &self.active {
            Some(session) => {
                let current = Some(session.profile.clone());
                if choices_equal(&current, &self.candidate) {
                    None
                } else {
                    Some(ControlCommand::RestoreScopedProfile { session_id: session.id })
                }
            },
            None => match &self.candidate {
                Some(profile) => {
                    let id: u64 = self.next_id;
                    let command = ControlCommand::ApplyScopedProfile { profile: profile.clone(), session_id: id };
                    self.next_id = if id == u64::MAX { 0 } else { id + 1 };
                    Some(command)
                },
                None => None,
            },
        }
    }

    /// Takes in whether a change was dispatched; if not, the rules pause.
    pub fn dispatched(&mut self, command: ControlCommand, result: Result<(), ControlError>)
        requires
            command is ApplyScopedProfile || command is RestoreScopedProfile,
        ensures
            *final(self) == (match result {
                Ok(_) => AutomationWorker {
                    pending: Some(
                        match command {
                            ControlCommand::ApplyScopedProfile { profile, session_id } => Transition::Begin(
                                session_id,
                                profile,
                            ),
                            ControlCommand::RestoreScopedProfile { session_id } => Transition::End(session_id),
                            _ => arbitrary(),
                        },
                    ),
                    ..*old(self)
                },
                Err(e) => AutomationWorker {
                    message: Some(AutomationMessage::Control(e)),
                    paused_by_manual: true,
                    ..*old(self)
                },
            }),
    {
        match result {
            Ok(()) => match command {
                ControlCommand::ApplyScopedProfile { profile, session_id } => {
                    self.pending = Some(Transition::Begin(session_id, profile));
                },
                ControlCommand::RestoreScopedProfile { session_id } => {
                    self.pending = Some(Transition::End(session_id));
                },
                _ => {},
            },
            Err(e) => {
                self.message = Some(AutomationMessage::Control(e));
                self.paused_by_manual = true;
            },
        }
    }
}

/// Sessions never overlap: a new one is only asked for while none is active.
pub proof fn sessions_never_overlap(w: AutomationWorker, now: u64)
    requires
        w.spec_command(now) matches Some(ControlCommand::ApplyScopedProfile { .. }),
    ensures
        w.active is None,
{
}

/// Once the user has taken over, an active session is ended as soon as the
/// pause has held for a second, and nothing new begins.
pub proof fn take_over_ends_the_session(
    w: AutomationWorker,
    config: AutomationConfig,
    power: PowerSource,
    processes: Option<Seq<ProcessInfo>>,
    now: u64,
)
    requires
        w.paused_by_manual,
    ensures
        w.spec_selected(config, power, processes) is None,
        ({
            let scanned = w.spec_scanned(power, w.spec_selected(config, power, processes), now);
            &&& !(scanned.spec_command(now) matches Some(ControlCommand::ApplyScopedProfile { .. }))
            &&& w.candidate is None && age(now, w.candidate_since) >= CONFIRM_DELAY && w.active is Some
                ==> scanned.spec_command(now) == Some(
                ControlCommand::RestoreScopedProfile { session_id: w.active->Some_0.id },
            )
        }),
{
}

} // verus!
