//! The definition tree: one template per group, any number of instances.

use vstd::prelude::*;

verus! {

/// The views of a list of strings, entry by entry.
pub open spec fn texts(v: Seq<String>) -> Seq<Seq<char>> {
    Seq::new(v.len(), |i: int| v[i]@)
}

/// Appending a string appends its view.
pub proof fn lemma_texts_push(v: Seq<String>, s: String)
    ensures
        texts(v.push(s)) == texts(v).push(s@),
{
    assert(texts(v.push(s)) =~= texts(v).push(s@));
}

/// The view of an optional string.
pub open spec fn opt_text(o: Option<String>) -> Option<Seq<char>> {
    match o {
        Some(s) => Some(s@),
        None => None,
    }
}

/// The view of an optional list of strings. An absent list stays absent:
/// it is not the empty list.
pub open spec fn opt_texts(o: Option<Vec<String>>) -> Option<Seq<Seq<char>>> {
    match o {
        Some(v) => Some(texts(v@)),
        None => None,
    }
}

/// When systemd restarts the service.
#[derive(Clone, Copy, Debug, PartialEq, Eq, Structural)]
pub enum Restart {
    No,
    Always,
    OnSuccess,
    OnFailure,
    OnWatchdog,
    OnAbort,
}

impl Restart {
    /// The value as a unit file spells it.
    pub open spec fn text(self) -> Seq<char> {
        match self {
            Restart::No => "no"@,
            Restart::Always => "always"@,
            Restart::OnSuccess => "on-success"@,
            Restart::OnFailure => "on-failure"@,
            Restart::OnWatchdog => "on-watchdog"@,
            Restart::OnAbort => "on-abort"@,
        }
    }

    /// The spelling as a borrowed string.
    pub fn as_str(&self) -> (s: &'static str)
        ensures
            s@ == self.text(),
    {
        match self {
            Restart::No => "no",
            Restart::Always => "always",
            Restart::OnSuccess => "on-success",
            Restart::OnFailure => "on-failure",
            Restart::OnWatchdog => "on-watchdog",
            Restart::OnAbort => "on-abort",
        }
    }

    /// The spelling as an owned string.
    pub fn to_text(&self) -> (s: String)
        ensures
            s@ == self.text(),
    {
        String::from_str(self.as_str())
    }
}

/// Whether the service counts as active after its process has left.
#[derive(Clone, Copy, Debug, PartialEq, Eq, Structural)]
pub enum RemainAfterExit {
    No,
    Yes,
}

impl RemainAfterExit {
    /// The value as a unit file spells it.
    pub open spec fn text(self) -> Seq<char> {
        match self {
            RemainAfterExit::No => "no"@,
            RemainAfterExit::Yes => "yes"@,
        }
    }

    /// The spelling as a borrowed string.
    pub fn as_str(&self) -> (s: &'static str)
        ensures
            s@ == self.text(),
    {
        match self {
            RemainAfterExit::No => "no",
            RemainAfterExit::Yes => "yes",
        }
    }

    /// The spelling as an owned string.
    pub fn to_text(&self) -> (s: String)
        ensures
            s@ == self.text(),
    {
        String::from_str(self.as_str())
    }
}

/// The start-up protocol of the service.
#[derive(Clone, Copy, Debug, PartialEq, Eq, Structural)]
pub enum ServiceType {
    Simple,
    OneShot,
    Forking,
    Notify,
    DBus,
    Idle,
}

impl ServiceType {
    /// The value as a unit file spells it: the variant's name in lower case.
    pub open spec fn text(self) -> Seq<char> {
        match self {
            ServiceType::Simple => "simple"@,
            ServiceType::OneShot => "oneshot"@,
            ServiceType::Forking => "forking"@,
            ServiceType::Notify => "notify"@,
            ServiceType::DBus => "dbus"@,
            ServiceType::Idle => "idle"@,
        }
    }

    /// The spelling as a borrowed string.
    pub fn as_str(&self) -> (s: &'static str)
        ensures
            s@ == self.text(),
    {
        match self {
            ServiceType::Simple => "simple",
            ServiceType::OneShot => "oneshot",
            ServiceType::Forking => "forking",
            ServiceType::Notify => "notify",
            ServiceType::DBus => "dbus",
            ServiceType::Idle => "idle",
        }
    }

    /// The spelling as an owned string.
    pub fn to_text(&self) -> (s: String)
        ensures
            s@ == self.text(),
    {
        String::from_str(self.as_str())
    }
}

/// The ordering lists of a template: what every instance may inherit.
#[derive(Clone, Debug)]
pub struct TemplateUnit {
    pub requires: Vec<String>,
    pub after: Vec<String>,
    pub wants: Vec<String>,
}

/// What a template's unit block holds: its three lists as texts.
pub struct TemplateUnitView {
    pub requires: Seq<Seq<char>>,
    pub after: Seq<Seq<char>>,
    pub wants: Seq<Seq<char>>,
}

impl View for TemplateUnit {
    type V = TemplateUnitView;

    open spec fn view(&self) -> TemplateUnitView {
        TemplateUnitView {
            requires: texts(self.requires@),
            after: texts(self.after@),
            wants: texts(self.wants@),
        }
    }
}

/// The unit block of one instance. An absent list adds nothing; an inherit
/// flag says whether the template's list comes first.
#[derive(Clone, Debug)]
pub struct InstanceUnit {
    pub name: String,
    pub description: String,
    pub requires: Option<Vec<String>>,
    pub after: Option<Vec<String>>,
    pub wants: Option<Vec<String>>,
    pub inherit_requires: bool,
    pub inherit_after: bool,
    pub inherit_wants: bool,
    pub requires_mounts_for: Option<Vec<String>>,
}

/// What an instance's unit block holds.
pub struct InstanceUnitView {
    pub name: Seq<char>,
    pub description: Seq<char>,
    pub requires: Option<Seq<Seq<char>>>,
    pub after: Option<Seq<Seq<char>>>,
    pub wants: Option<Seq<Seq<char>>>,
    pub inherit_requires: bool,
    pub inherit_after: bool,
    pub inherit_wants: bool,
    pub requires_mounts_for: Option<Seq<Seq<char>>>,
}

impl View for InstanceUnit {
    type V = InstanceUnitView;

    open spec fn view(&self) -> InstanceUnitView {
        InstanceUnitView {
            name: self.name@,
            description: self.description@,
            requires: opt_texts(self.requires),
            after: opt_texts(self.after),
            wants: opt_texts(self.wants),
            inherit_requires: self.inherit_requires,
            inherit_after: self.inherit_after,
            inherit_wants: self.inherit_wants,
            requires_mounts_for: opt_texts(self.requires_mounts_for),
        }
    }
}

/// The service attributes, each present or absent.
#[derive(Clone, Debug)]
pub struct Service {
    pub environment_file: Option<String>,
    pub exec_start_pre: Option<String>,
    pub exec_start: Option<String>,
    pub exec_stop: Option<String>,
    pub group: Option<String>,
    pub remain_after_exit: Option<RemainAfterExit>,
    pub restart: Option<Restart>,
    pub timeout_start_sec: Option<u32>,
    pub service_type: Option<ServiceType>,
    pub user: Option<String>,
    pub working_directory: Option<String>,
}

/// What a service block holds: each attribute as a text or a value, or
/// absent.
pub struct ServiceView {
    pub environment_file: Option<Seq<char>>,
    pub exec_start_pre: Option<Seq<char>>,
    pub exec_start: Option<Seq<char>>,
    pub exec_stop: Option<Seq<char>>,
    pub group: Option<Seq<char>>,
    pub remain_after_exit: Option<RemainAfterExit>,
    pub restart: Option<Restart>,
    pub timeout_start_sec: Option<u32>,
    pub service_type: Option<ServiceType>,
    pub user: Option<Seq<char>>,
    pub working_directory: Option<Seq<char>>,
}

impl View for Service {
    type V = ServiceView;

    open spec fn view(&self) -> ServiceView {
        ServiceView {
            environment_file: opt_text(self.environment_file),
            exec_start_pre: opt_text(self.exec_start_pre),
            exec_start: opt_text(self.exec_start),
            exec_stop: opt_text(self.exec_stop),
            group: opt_text(self.group),
            remain_after_exit: self.remain_after_exit,
            restart: self.restart,
            timeout_start_sec: self.timeout_start_sec,
            service_type: self.service_type,
            user: opt_text(self.user),
            working_directory: opt_text(self.working_directory),
        }
    }
}

/// The view of an optional service block.
pub open spec fn opt_service(o: Option<Service>) -> Option<ServiceView> {
    match o {
        Some(s) => Some(s@),
        None => None,
    }
}

/// The install block: the target that pulls the unit in.
#[derive(Clone, Debug)]
pub struct Install {
    pub wanted_by: String,
}

/// What an install block holds.
pub struct InstallView {
    pub wanted_by: Seq<char>,
}

impl View for Install {
    type V = InstallView;

    open spec fn view(&self) -> InstallView {
        InstallView { wanted_by: self.wanted_by@ }
    }
}

/// The view of an optional install block.
pub open spec fn opt_install(o: Option<Install>) -> Option<InstallView> {
    match o {
        Some(i) => Some(i@),
        None => None,
    }
}

/// The defaults of a group.
#[derive(Clone, Debug)]
pub struct TemplateServiceDef {
    pub unit: TemplateUnit,
    pub service: Service,
    pub install: Install,
}

/// What a template holds.
pub struct TemplateServiceDefView {
    pub unit: TemplateUnitView,
    pub service: ServiceView,
    pub install: InstallView,
}

impl View for TemplateServiceDef {
    type V = TemplateServiceDefView;

    open spec fn view(&self) -> TemplateServiceDefView {
        TemplateServiceDefView {
            unit: self.unit@,
            service: self.service@,
            install: self.install@,
        }
    }
}

/// One unit to generate: its own unit block and what it overrides.
#[derive(Clone, Debug)]
pub struct InstanceServiceDef {
    pub unit: InstanceUnit,
    pub service: Option<Service>,
    pub install: Option<Install>,
}

/// What an instance holds.
pub struct InstanceServiceDefView {
    pub unit: InstanceUnitView,
    pub service: Option<ServiceView>,
    pub install: Option<InstallView>,
}

impl View for InstanceServiceDef {
    type V = InstanceServiceDefView;

    open spec fn view(&self) -> InstanceServiceDefView {
        InstanceServiceDefView {
            unit: self.unit@,
            service: opt_service(self.service),
            install: opt_install(self.install),
        }
    }
}

/// A template with the instances that derive from it.
#[derive(Clone, Debug)]
pub struct TemplatesAndInstances {
    pub template: TemplateServiceDef,
    pub instances: Vec<InstanceServiceDef>,
}

/// A whole definition file: its groups in the order they were written.
#[derive(Clone, Debug)]
pub struct DefinitionFile {
    pub defs: Vec<TemplatesAndInstances>,
}

/// What a group holds: its template and its instances in their order.
pub struct TemplatesAndInstancesView {
    pub template: TemplateServiceDefView,
    pub instances: Seq<InstanceServiceDefView>,
}

impl View for TemplatesAndInstances {
    type V = TemplatesAndInstancesView;

    open spec fn view(&self) -> TemplatesAndInstancesView {
        TemplatesAndInstancesView {
            template: self.template@,
            instances: Seq::new(self.instances@.len(), |i: int| self.instances@[i]@),
        }
    }
}

/// What a definition file holds: its groups in their order.
pub struct DefinitionFileView {
    pub defs: Seq<TemplatesAndInstancesView>,
}

impl View for DefinitionFile {
    type V = DefinitionFileView;

    open spec fn view(&self) -> DefinitionFileView {
        DefinitionFileView { defs: Seq::new(self.defs@.len(), |i: int| self.defs@[i]@) }
    }
}

/// Copies a list of strings.
pub(crate) fn copy_texts(v: &Vec<String>) -> (r: Vec<String>)
    ensures
        texts(r@) == texts(v@),
{
    let mut r: Vec<String> = Vec::new();
    let mut i: usize = 0;
    assert(texts(r@) =~= texts(v@).take(0));
    while i < v.len()
        invariant
            i <= v.len(),
            texts(r@) == texts(v@).take(i as int),
        decreases v.len() - i,
    {
        proof {
            lemma_texts_push(r@, v@[i as int]);
        }
        r.push(v[i].clone());
        assert(texts(r@) =~= texts(v@).take(i as int + 1));
        i += 1;
    }
    assert(texts(v@).take(i as int) =~= texts(v@));
    r
}

fn copy_opt_texts(o: &Option<Vec<String>>) -> (r: Option<Vec<String>>)
    ensures
        opt_texts(r) == opt_texts(*o),
{
    match o {
        Some(v) => Some(copy_texts(v)),
        None => None,
    }
}

fn copy_opt_text(o: &Option<String>) -> (r: Option<String>)
    ensures
        opt_text(r) == opt_text(*o),
{
    match o {
        Some(s) => Some(s.clone()),
        None => None,
    }
}

impl TemplateUnit {
    /// A copy that holds the same lists.
    pub fn duplicate(&self) -> (r: TemplateUnit)
        ensures
            r@ == self@,
    {
        TemplateUnit {
            requires: copy_texts(&self.requires),
            after: copy_texts(&self.after),
            wants: copy_texts(&self.wants),
        }
    }
}

impl InstanceUnit {
    /// A copy that holds the same name, description, lists and flags.
    pub fn duplicate(&self) -> (r: InstanceUnit)
        ensures
            r@ == self@,
    {
        InstanceUnit {
            name: self.name.clone(),
            description: self.description.clone(),
            requires: copy_opt_texts(&self.requires),
            after: copy_opt_texts(&self.after),
            wants: copy_opt_texts(&self.wants),
            inherit_requires: self.inherit_requires,
            inherit_after: self.inherit_after,
            inherit_wants: self.inherit_wants,
            requires_mounts_for: copy_opt_texts(&self.requires_mounts_for),
        }
    }
}

impl Service {
    /// A copy that holds the same attributes.
    pub fn duplicate(&self) -> (r: Service)
        ensures
            r@ == self@,
    {
        Service {
            environment_file: copy_opt_text(&self.environment_file),
            exec_start_pre: copy_opt_text(&self.exec_start_pre),
            exec_start: copy_opt_text(&self.exec_start),
            exec_stop: copy_opt_text(&self.exec_stop),
            group: copy_opt_text(&self.group),
            remain_after_exit: self.remain_after_exit,
            restart: self.restart,
            timeout_start_sec: self.timeout_start_sec,
            service_type: self.service_type,
            user: copy_opt_text(&self.user),
            working_directory: copy_opt_text(&self.working_directory),
        }
    }
}

impl Install {
    /// A copy that names the same target.
    pub fn duplicate(&self) -> (r: Install)
        ensures
            r@ == self@,
    {
        Install { wanted_by: self.wanted_by.clone() }
    }
}

impl TemplateServiceDef {
    /// A copy that holds the same three blocks.
    pub fn duplicate(&self) -> (r: TemplateServiceDef)
        ensures
            r@ == self@,
    {
        TemplateServiceDef {
            unit: self.unit.duplicate(),
            service: self.service.duplicate(),
            install: self.install.duplicate(),
        }
    }
}

impl InstanceServiceDef {
    /// A copy that holds the same unit block and the same overrides.
    pub fn duplicate(&self) -> (r: InstanceServiceDef)
        ensures
            r@ == self@,
    {
        InstanceServiceDef {
            unit: self.unit.duplicate(),
            service: match &self.service {
                Some(s) => Some(s.duplicate()),
                None => None,
            },
            install: match &self.install {
                Some(i) => Some(i.duplicate()),
                None => None,
            },
        }
    }
}

/// A template's ordering list that the definition leaves out is empty.
pub fn default_template_deps() -> (v: Vec<String>)
    ensures
        v@ == Seq::<String>::empty(),
{
    Vec::new()
}

/// An instance inherits the template's `requires` unless it says otherwise.
pub fn default_inherit_requires() -> (b: bool)
    ensures
        b == true,
{
    true
}

/// An instance inherits the template's `after` unless it says otherwise.
pub fn default_inherit_after() -> (b: bool)
    ensures
        b == true,
{
    true
}

/// An instance inherits the template's `wants` unless it says otherwise.
pub fn default_inherit_wants() -> (b: bool)
    ensures
        b == true,
{
    true
}

/// A service block that does not say so does not remain after exit.
pub fn default_remain_after_exit() -> (r: Option<RemainAfterExit>)
    ensures
        r == Some(RemainAfterExit::No),
{
    Some(RemainAfterExit::No)
}

/// A service block that names no type has none.
pub fn default_service_type() -> (r: Option<ServiceType>)
    ensures
        r == None::<ServiceType>,
{
    None
}

/// The target of an install block that names none.
pub fn default_wanted_by() -> (s: String)
    ensures
        s@ == "default.target"@,
{
    String::from_str("default.target")
}

/// The install block of a template that has none.
pub fn default_install() -> (i: Install)
    ensures
        i@ == (InstallView { wanted_by: "default.target"@ }),
{
    Install { wanted_by: default_wanted_by() }
}

} // verus!
