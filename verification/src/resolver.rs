//! The inheritance and override rules, and the text of one instance.

use vstd::prelude::*;
use crate::model::{
    copy_texts, lemma_texts_push, opt_install, opt_service, opt_text, opt_texts, texts, Install,
    InstallView, InstanceServiceDef, InstanceServiceDefView, InstanceUnitView, RemainAfterExit,
    Restart, Service, ServiceType, ServiceView, TemplateServiceDef, TemplateServiceDefView,
    TemplateUnitView,
};
use crate::text::{
    decimal, decimal_text, entries_text, join_with_space, joined, keyed,
    lemma_entries_text_concat, opt_entry, push_keyed, push_opt_entry, Entry,
};

verus! {

/// The template's list, where it is inherited, then the instance's own
/// entries, where it has any. Nothing is reordered and nothing is dropped.
pub open spec fn merged(inherit: bool, base: Seq<Seq<char>>, own: Option<Seq<Seq<char>>>) -> Seq<
    Seq<char>,
> {
    (if inherit {
        base
    } else {
        Seq::empty()
    }) + (match own {
        Some(l) => l,
        None => Seq::empty(),
    })
}

/// The instance's value where it has one, else the template's.
pub open spec fn prefer<T>(instance: Option<T>, template: Option<T>) -> Option<T> {
    match instance {
        Some(_) => instance,
        None => template,
    }
}

/// The service block of an instance: each attribute by itself comes from
/// the instance's block where that block sets it, else from the template.
pub open spec fn overlay(instance: Option<ServiceView>, template: ServiceView) -> ServiceView {
    match instance {
        None => template,
        Some(i) => ServiceView {
            environment_file: prefer(i.environment_file, template.environment_file),
            exec_start_pre: prefer(i.exec_start_pre, template.exec_start_pre),
            exec_start: prefer(i.exec_start, template.exec_start),
            exec_stop: prefer(i.exec_stop, template.exec_stop),
            group: prefer(i.group, template.group),
            remain_after_exit: prefer(i.remain_after_exit, template.remain_after_exit),
            restart: prefer(i.restart, template.restart),
            timeout_start_sec: prefer(i.timeout_start_sec, template.timeout_start_sec),
            service_type: prefer(i.service_type, template.service_type),
            user: prefer(i.user, template.user),
            working_directory: prefer(i.working_directory, template.working_directory),
        },
    }
}

/// The install block of an instance: its own as a whole where it has one,
/// else the template's.
pub open spec fn chosen_install(instance: Option<InstallView>, template: InstallView) -> InstallView {
    match instance {
        Some(i) => i,
        None => template,
    }
}

/// The two comment lines that open every generated file.
pub open spec fn header_text() -> Seq<char> {
    "; THIS FILE IS GENERATED BY gen-systemd-svc\n"@ + "; DO NOT EDIT THIS FILE DIRECTLY!\n"@
}

/// The entries of the unit section, in the order in which they are written.
pub open spec fn unit_entries(instance: InstanceUnitView, template: TemplateUnitView) -> Seq<Entry> {
    seq![("Description"@, instance.description)]
        + keyed("Requires"@, merged(instance.inherit_requires, template.requires, instance.requires))
        + keyed("After"@, merged(instance.inherit_after, template.after, instance.after))
        + keyed("Wants"@, merged(instance.inherit_wants, template.wants, instance.wants))
        + opt_entry(
        "RequiresMountsFor"@,
        match instance.requires_mounts_for {
            Some(l) => Some(joined(l)),
            None => None,
        },
    )
}

/// The entries of the service section of a resolved block, in the order in
/// which they are written: one for each attribute that is present.
pub open spec fn service_entries(s: ServiceView) -> Seq<Entry> {
    opt_entry("EnvironmentFile"@, s.environment_file)
        + opt_entry("ExecStartPre"@, s.exec_start_pre)
        + opt_entry("ExecStart"@, s.exec_start)
        + opt_entry("ExecStop"@, s.exec_stop)
        + opt_entry("Group"@, s.group)
        + opt_entry(
        "RemainAfterExit"@,
        match s.remain_after_exit {
            Some(v) => Some(v.text()),
            None => None,
        },
    ) + opt_entry(
        "Restart"@,
        match s.restart {
            Some(v) => Some(v.text()),
            None => None,
        },
    ) + opt_entry(
        "TimeoutStartSec"@,
        match s.timeout_start_sec {
            Some(v) => Some(decimal(v as nat)),
            None => None,
        },
    ) + opt_entry(
        "Type"@,
        match s.service_type {
            Some(v) => Some(v.text()),
            None => None,
        },
    ) + opt_entry("User"@, s.user) + opt_entry("WorkingDirectory"@, s.working_directory)
}

/// The entries of the install section.
pub open spec fn install_entries(i: InstallView) -> Seq<Entry> {
    seq![("WantedBy"@, i.wanted_by)]
}

/// The service section of an instance: a blank line, the section's name,
/// and the lines of the resolved block.
pub open spec fn service_section_text(instance: Option<ServiceView>, template: ServiceView) -> Seq<
    char,
> {
    "\n[Service]\n"@ + entries_text(service_entries(overlay(instance, template)))
}

/// The whole unit file of an instance.
pub open spec fn resolved_text(
    instance: InstanceServiceDefView,
    template: TemplateServiceDefView,
) -> Seq<char> {
    header_text() + "\n[Unit]\n"@ + entries_text(unit_entries(instance.unit, template.unit))
        + service_section_text(instance.service, template.service) + "\n[Install]\n"@
        + entries_text(install_entries(chosen_install(instance.install, template.install)))
}

/// Merges one ordering list of an instance with the template's.
pub fn merge_list(inherit: bool, base: &Vec<String>, own: &Option<Vec<String>>) -> (out: Vec<
    String,
>)
    ensures
        texts(out@) == merged(inherit, texts(base@), opt_texts(*own)),
{
    let mut out: Vec<String> = if inherit {
        copy_texts(base)
    } else {
        Vec::new()
    };
    let ghost head = texts(out@);
    assert(head =~= if inherit {
        texts(base@)
    } else {
        Seq::<Seq<char>>::empty()
    });
    match own {
        Some(l) => {
            let mut j: usize = 0;
            assert(texts(out@) =~= head + texts(l@).take(0));
            while j < l.len()
                invariant
                    j <= l.len(),
                    texts(out@) == head + texts(l@).take(j as int),
                decreases l.len() - j,
            {
                proof {
                    lemma_texts_push(out@, l@[j as int]);
                }
                out.push(l[j].clone());
                assert(texts(out@) =~= head + texts(l@).take(j as int + 1));
                j += 1;
            }
            assert(texts(l@).take(j as int) =~= texts(l@));
        },
        None => {
            assert(texts(out@) =~= head + Seq::<Seq<char>>::empty());
        },
    }
    out
}

fn prefer_text(instance: &Option<String>, template: &Option<String>) -> (r: Option<String>)
    ensures
        opt_text(r) == prefer(opt_text(*instance), opt_text(*template)),
{
    match instance {
        Some(s) => Some(s.clone()),
        None => match template {
            Some(t) => Some(t.clone()),
            None => None,
        },
    }
}

fn prefer_value<T: Copy>(instance: Option<T>, template: Option<T>) -> (r: Option<T>)
    ensures
        r == prefer(instance, template),
{
    match instance {
        Some(_) => instance,
        None => template,
    }
}

/// Resolves the service block of an instance, attribute by attribute.
pub fn resolve_service(instance: &Option<Service>, template: &Service) -> (r: Service)
    ensures
        r@ == overlay(opt_service(*instance), template@),
{
    match instance {
        None => template.duplicate(),
        Some(i) => Service {
            environment_file: prefer_text(&i.environment_file, &template.environment_file),
            exec_start_pre: prefer_text(&i.exec_start_pre, &template.exec_start_pre),
            exec_start: prefer_text(&i.exec_start, &template.exec_start),
            exec_stop: prefer_text(&i.exec_stop, &template.exec_stop),
            group: prefer_text(&i.group, &template.group),
            remain_after_exit: prefer_value(i.remain_after_exit, template.remain_after_exit),
            restart: prefer_value(i.restart, template.restart),
            timeout_start_sec: prefer_value(i.timeout_start_sec, template.timeout_start_sec),
            service_type: prefer_value(i.service_type, template.service_type),
            user: prefer_text(&i.user, &template.user),
            working_directory: prefer_text(&i.working_directory, &template.working_directory),
        },
    }
}

/// Resolves the install block of an instance: its own, or the template's.
pub fn resolve_install<'a>(instance: &'a Option<Install>, template: &'a Install) -> (r: &'a Install)
    ensures
        r@ == chosen_install(opt_install(*instance), template@),
{
    match instance {
        Some(i) => i,
        None => template,
    }
}

/// The view of an optional string slice.
pub open spec fn opt_str_text(value: Option<&str>) -> Option<Seq<char>> {
    match value {
        Some(v) => Some(v@),
        None => None,
    }
}

fn as_opt_str(value: &Option<String>) -> (r: Option<&str>)
    ensures
        opt_str_text(r) == opt_text(*value),
{
    match value {
        Some(s) => Some(s.as_str()),
        None => None,
    }
}

fn add_opt_entry(
    out: &mut String,
    key: &str,
    value: Option<&str>,
    Ghost(start): Ghost<Seq<char>>,
    Ghost(done): Ghost<Seq<Entry>>,
)
    requires
        old(out)@ == start + entries_text(done),
    ensures
        final(out)@ == start + entries_text(done + opt_entry(key@, opt_str_text(value))),
{
    push_opt_entry(out, key, value);
    proof {
        lemma_entries_text_concat(done, opt_entry(key@, opt_str_text(value)));
        assert(out@ =~= start + entries_text(done + opt_entry(key@, opt_str_text(value))));
    }
}

fn add_keyed(
    out: &mut String,
    key: &str,
    values: &Vec<String>,
    Ghost(start): Ghost<Seq<char>>,
    Ghost(done): Ghost<Seq<Entry>>,
)
    requires
        old(out)@ == start + entries_text(done),
    ensures
        final(out)@ == start + entries_text(done + keyed(key@, texts(values@))),
{
    push_keyed(out, key, values);
    proof {
        lemma_entries_text_concat(done, keyed(key@, texts(values@)));
        assert(out@ =~= start + entries_text(done + keyed(key@, texts(values@))));
    }
}

fn restart_str(value: Option<Restart>) -> (r: Option<&'static str>)
    ensures
        opt_str_text(r) == (match value {
            Some(v) => Some(v.text()),
            None => None,
        }),
{
    match value {
        Some(v) => Some(v.as_str()),
        None => None,
    }
}

fn remain_str(value: Option<RemainAfterExit>) -> (r: Option<&'static str>)
    ensures
        opt_str_text(r) == (match value {
            Some(v) => Some(v.text()),
            None => None,
        }),
{
    match value {
        Some(v) => Some(v.as_str()),
        None => None,
    }
}

fn type_str(value: Option<ServiceType>) -> (r: Option<&'static str>)
    ensures
        opt_str_text(r) == (match value {
            Some(v) => Some(v.text()),
            None => None,
        }),
{
    match value {
        Some(v) => Some(v.as_str()),
        None => None,
    }
}

fn timeout_string(value: Option<u32>) -> (r: Option<String>)
    ensures
        opt_text(r) == (match value {
            Some(v) => Some(decimal(v as nat)),
            None => None,
        }),
{
    match value {
        Some(v) => Some(decimal_text(v)),
        None => None,
    }
}

fn mounts_string(value: &Option<Vec<String>>) -> (r: Option<String>)
    ensures
        opt_text(r) == (match opt_texts(*value) {
            Some(l) => Some(joined(l)),
            None => None,
        }),
{
    match value {
        Some(v) => Some(join_with_space(v)),
        None => None,
    }
}

/// Appends the service section of an instance to `memo`: the blank line and
/// the section's name, then one line for each attribute that the instance or
/// the template sets.
pub fn resolve_service_section(
    instance_service: Option<Service>,
    template_service: Service,
    memo: String,
) -> (out: String)
    ensures
        out@ == memo@ + service_section_text(opt_service(instance_service), template_service@),
{
    let s = resolve_service(&instance_service, &template_service);
    let mut out = memo;
    out.append("\n[Service]\n");
    let ghost start = out@;
    let ghost mut done: Seq<Entry> = Seq::empty();
    assert(out@ =~= start + entries_text(done));

    add_opt_entry(
        &mut out,
        "EnvironmentFile",
        as_opt_str(&s.environment_file),
        Ghost(start),
        Ghost(done),
    );
    proof {
        done = done + opt_entry("EnvironmentFile"@, s@.environment_file);
        assert(done =~= opt_entry("EnvironmentFile"@, s@.environment_file));
    }
    add_opt_entry(
        &mut out,
        "ExecStartPre",
        as_opt_str(&s.exec_start_pre),
        Ghost(start),
        Ghost(done),
    );
    proof {
        done = done + opt_entry("ExecStartPre"@, s@.exec_start_pre);
    }
    add_opt_entry(&mut out, "ExecStart", as_opt_str(&s.exec_start), Ghost(start), Ghost(done));
    proof {
        done = done + opt_entry("ExecStart"@, s@.exec_start);
    }
    add_opt_entry(&mut out, "ExecStop", as_opt_str(&s.exec_stop), Ghost(start), Ghost(done));
    proof {
        done = done + opt_entry("ExecStop"@, s@.exec_stop);
    }
    add_opt_entry(&mut out, "Group", as_opt_str(&s.group), Ghost(start), Ghost(done));
    proof {
        done = done + opt_entry("Group"@, s@.group);
    }
    let remain = remain_str(s.remain_after_exit);
    add_opt_entry(&mut out, "RemainAfterExit", remain, Ghost(start), Ghost(done));
    proof {
        done = done + opt_entry("RemainAfterExit"@, opt_str_text(remain));
    }
    let restart = restart_str(s.restart);
    add_opt_entry(&mut out, "Restart", restart, Ghost(start), Ghost(done));
    proof {
        done = done + opt_entry("Restart"@, opt_str_text(restart));
    }
    let timeout = timeout_string(s.timeout_start_sec);
    add_opt_entry(&mut out, "TimeoutStartSec", as_opt_str(&timeout), Ghost(start), Ghost(done));
    proof {
        done = done + opt_entry("TimeoutStartSec"@, opt_text(timeout));
    }
    let service_type = type_str(s.service_type);
    add_opt_entry(&mut out, "Type", service_type, Ghost(start), Ghost(done));
    proof {
        done = done + opt_entry("Type"@, opt_str_text(service_type));
    }
    add_opt_entry(&mut out, "User", as_opt_str(&s.user), Ghost(start), Ghost(done));
    proof {
        done = done + opt_entry("User"@, s@.user);
    }
    add_opt_entry(
        &mut out,
        "WorkingDirectory",
        as_opt_str(&s.working_directory),
        Ghost(start),
        Ghost(done),
    );
    proof {
        done = done + opt_entry("WorkingDirectory"@, s@.working_directory);
        assert(done == service_entries(s@));
        assert(out@ =~= memo@ + service_section_text(
            opt_service(instance_service),
            template_service@,
        ));
    }
    out
}

/// Writes the unit file of one instance of a template.
///
/// The text is the header, then the unit, service and install sections,
/// each after a blank line and under its name. Within a section the keys
/// stand in one fixed order; an absent value leaves no line.
pub fn resolve(instance: InstanceServiceDef, template: TemplateServiceDef) -> (out: String)
    ensures
        out@ == resolved_text(instance@, template@),
{
    let ghost whole = resolved_text(instance@, template@);
    let ghost unit = unit_entries(instance@.unit, template@.unit);
    let ghost description = instance@.unit.description;
    let mut memo = String::from_str("; THIS FILE IS GENERATED BY gen-systemd-svc\n");
    memo.append("; DO NOT EDIT THIS FILE DIRECTLY!\n");
    memo.append("\n[Unit]\n");
    let ghost start = memo@;
    let ghost mut done: Seq<Entry> = Seq::empty();
    assert(memo@ =~= start + entries_text(done));

    add_opt_entry(
        &mut memo,
        "Description",
        Some(instance.unit.description.as_str()),
        Ghost(start),
        Ghost(done),
    );
    proof {
        done = done + opt_entry("Description"@, Some(description));
        assert(done =~= seq![("Description"@, description)]);
    }

    let required = merge_list(
        instance.unit.inherit_requires,
        &template.unit.requires,
        &instance.unit.requires,
    );
    add_keyed(&mut memo, "Requires", &required, Ghost(start), Ghost(done));
    proof {
        done = done + keyed("Requires"@, texts(required@));
    }

    let afters = merge_list(instance.unit.inherit_after, &template.unit.after, &instance.unit.after);
    add_keyed(&mut memo, "After", &afters, Ghost(start), Ghost(done));
    proof {
        done = done + keyed("After"@, texts(afters@));
    }

    let wants = merge_list(instance.unit.inherit_wants, &template.unit.wants, &instance.unit.wants);
    add_keyed(&mut memo, "Wants", &wants, Ghost(start), Ghost(done));
    proof {
        done = done + keyed("Wants"@, texts(wants@));
    }

    let mounts = mounts_string(&instance.unit.requires_mounts_for);
    add_opt_entry(&mut memo, "RequiresMountsFor", as_opt_str(&mounts), Ghost(start), Ghost(done));
    proof {
        done = done + opt_entry("RequiresMountsFor"@, opt_text(mounts));
        assert(done == unit);
    }

    let install = resolve_install(&instance.install, &template.install);
    let wanted_by = install.wanted_by.clone();
    let mut memo = resolve_service_section(instance.service, template.service, memo);

    memo.append("\n[Install]\n");
    push_opt_entry(&mut memo, "WantedBy", Some(wanted_by.as_str()));
    proof {
        assert(opt_entry("WantedBy"@, Some(wanted_by@)) =~= install_entries(install@));
        assert(memo@ =~= whole);
    }
    memo
}

} // verus!
