//! What holds of the resolver on every input.

use vstd::prelude::*;
use crate::model::{
    InstallView, InstanceServiceDef, InstanceServiceDefView, InstanceUnitView, RemainAfterExit,
    ServiceView, TemplateServiceDef, TemplateServiceDefView, TemplateUnitView,
};
use crate::resolver::{
    chosen_install, header_text, install_entries, merged, overlay, resolved_text,
    service_entries, unit_entries,
};
use crate::text::{
    decimal, entries_text, entry_text, lemma_entries_text_concat, opt_entry, Entry,
};

verus! {

/// No entry of the run stands under the key.
pub open spec fn no_entry_under(entries: Seq<Entry>, key: Seq<char>) -> bool {
    forall|k: int| 0 <= k < entries.len() ==> (#[trigger] entries[k]).0 != key
}

/// The text holds the line somewhere: it is what stands before the line,
/// the line, and what stands after it.
pub open spec fn holds_line(text: Seq<char>, line: Seq<char>) -> bool {
    exists|before: Seq<char>, after: Seq<char>| text == before + line + after
}

/// With the inherit flag set, the merged list is the template's entries
/// followed by the instance's, in their order and with nothing removed.
/// With the flag cleared it is the instance's entries alone.
pub proof fn law_inheritance_toggle(base: Seq<Seq<char>>, own: Seq<Seq<char>>)
    ensures
        merged(true, base, Some(own)) == base + own,
        merged(false, base, Some(own)) == own,
{
    assert(merged(false, base, Some(own)) =~= own);
}

/// An instance that leaves a list out and inherits gets the template's
/// list unchanged; one that leaves it out and does not inherit gets nothing.
/// An empty list of its own adds nothing either, but is not absent.
pub proof fn law_absent_list_adds_nothing(base: Seq<Seq<char>>)
    ensures
        merged(true, base, None) == base,
        merged(false, base, None) == Seq::<Seq<char>>::empty(),
        merged(true, base, Some(Seq::empty())) == base,
{
    assert(merged(true, base, None) =~= base);
    assert(merged(false, base, None) =~= Seq::<Seq<char>>::empty());
    assert(merged(true, base, Some(Seq::empty())) =~= base);
}

/// The unit section writes the merged lists under their keys: after the
/// description, one `Requires` entry for each merged entry, then the `After`
/// and the `Wants` entries in the same way.
pub proof fn law_unit_entries_follow_merged_lists(
    instance: InstanceUnitView,
    template: TemplateUnitView,
)
    ensures
        ({
            let r = merged(instance.inherit_requires, template.requires, instance.requires);
            let a = merged(instance.inherit_after, template.after, instance.after);
            let w = merged(instance.inherit_wants, template.wants, instance.wants);
            let e = unit_entries(instance, template);
            &&& e.len() >= 1 + r.len() + a.len() + w.len()
            &&& e[0] == ("Description"@, instance.description)
            &&& forall|k: int| 0 <= k < r.len() ==> #[trigger] e[1 + k] == ("Requires"@, r[k])
            &&& forall|k: int| 0 <= k < a.len() ==> #[trigger] e[1 + r.len() + k] == ("After"@, a[k])
            &&& forall|k: int|
                0 <= k < w.len() ==> #[trigger] e[1 + r.len() + a.len() + k] == ("Wants"@, w[k])
        }),
{
}

/// An instance's service block overrides attribute by attribute: each
/// attribute that it sets wins, each that it leaves out keeps the
/// template's value. An instance without a service block has the template's.
pub proof fn law_service_override_is_per_field(instance: ServiceView, template: ServiceView)
    ensures
        overlay(None, template) == template,
        ({
            let r = overlay(Some(instance), template);
            &&& r.environment_file == if instance.environment_file is Some {
                instance.environment_file
            } else {
                template.environment_file
            }
            &&& r.exec_start_pre == if instance.exec_start_pre is Some {
                instance.exec_start_pre
            } else {
                template.exec_start_pre
            }
            &&& r.exec_start == if instance.exec_start is Some {
                instance.exec_start
            } else {
                template.exec_start
            }
            &&& r.exec_stop == if instance.exec_stop is Some {
                instance.exec_stop
            } else {
                template.exec_stop
            }
            &&& r.group == if instance.group is Some {
                instance.group
            } else {
                template.group
            }
            &&& r.remain_after_exit == if instance.remain_after_exit is Some {
                instance.remain_after_exit
            } else {
                template.remain_after_exit
            }
            &&& r.restart == if instance.restart is Some {
                instance.restart
            } else {
                template.restart
            }
            &&& r.timeout_start_sec == if instance.timeout_start_sec is Some {
                instance.timeout_start_sec
            } else {
                template.timeout_start_sec
            }
            &&& r.service_type == if instance.service_type is Some {
                instance.service_type
            } else {
                template.service_type
            }
            &&& r.user == if instance.user is Some {
                instance.user
            } else {
                template.user
            }
            &&& r.working_directory == if instance.working_directory is Some {
                instance.working_directory
            } else {
                template.working_directory
            }
        }),
{
}

/// An instance's install block replaces the template's as a whole: the
/// install section then has the one line of the instance's target, whatever
/// the template names.
pub proof fn law_install_override_is_wholesale(instance: InstallView, template: InstallView)
    ensures
        chosen_install(Some(instance), template) == instance,
        chosen_install(None, template) == template,
        entries_text(install_entries(chosen_install(Some(instance), template))) == entry_text(
            "WantedBy"@,
            instance.wanted_by,
        ),
{
    lemma_single_entry_text("WantedBy"@, instance.wanted_by);
}

proof fn lemma_no_entry_under_concat(a: Seq<Entry>, b: Seq<Entry>, key: Seq<char>)
    requires
        no_entry_under(a, key),
        no_entry_under(b, key),
    ensures
        no_entry_under(a + b, key),
{
    assert forall|k: int| 0 <= k < (a + b).len() implies (#[trigger] (a + b)[k]).0 != key by {
        if k < a.len() {
            assert((a + b)[k] == a[k]);
        } else {
            assert((a + b)[k] == b[k - a.len()]);
        }
    }
}

proof fn lemma_opt_entry_other_key(key: Seq<char>, value: Option<Seq<char>>, other: Seq<char>)
    requires
        key != other,
    ensures
        no_entry_under(opt_entry(key, value), other),
{
}

proof fn lemma_type_key_is_its_own()
    ensures
        "Type"@ != "EnvironmentFile"@,
        "Type"@ != "ExecStartPre"@,
        "Type"@ != "ExecStart"@,
        "Type"@ != "ExecStop"@,
        "Type"@ != "Group"@,
        "Type"@ != "RemainAfterExit"@,
        "Type"@ != "Restart"@,
        "Type"@ != "TimeoutStartSec"@,
        "Type"@ != "User"@,
        "Type"@ != "WorkingDirectory"@,
{
    reveal_strlit("Type");
    reveal_strlit("EnvironmentFile");
    reveal_strlit("ExecStartPre");
    reveal_strlit("ExecStart");
    reveal_strlit("ExecStop");
    reveal_strlit("Group");
    reveal_strlit("RemainAfterExit");
    reveal_strlit("Restart");
    reveal_strlit("TimeoutStartSec");
    reveal_strlit("User");
    reveal_strlit("WorkingDirectory");
    assert("Type"@.len() == 4);
    assert("TimeoutStartSec"@.len() == 15);
    assert("Type"@[0] != "User"@[0]);
}

/// Where neither the template nor the instance names a service type, the
/// service section has no entry under `Type`.
pub proof fn law_unset_type_writes_no_entry(instance: Option<ServiceView>, template: ServiceView)
    requires
        template.service_type is None,
        instance is Some ==> instance->0.service_type is None,
    ensures
        no_entry_under(service_entries(overlay(instance, template)), "Type"@),
{
    let s = overlay(instance, template);
    let t = "Type"@;
    lemma_type_key_is_its_own();
    let e1 = opt_entry("EnvironmentFile"@, s.environment_file);
    let e2 = opt_entry("ExecStartPre"@, s.exec_start_pre);
    let e3 = opt_entry("ExecStart"@, s.exec_start);
    let e4 = opt_entry("ExecStop"@, s.exec_stop);
    let e5 = opt_entry("Group"@, s.group);
    let e6 = opt_entry(
        "RemainAfterExit"@,
        match s.remain_after_exit {
            Some(v) => Some(v.text()),
            None => None,
        },
    );
    let e7 = opt_entry(
        "Restart"@,
        match s.restart {
            Some(v) => Some(v.text()),
            None => None,
        },
    );
    let e8 = opt_entry(
        "TimeoutStartSec"@,
        match s.timeout_start_sec {
            Some(v) => Some(decimal(v as nat)),
            None => None,
        },
    );
    let e9 = opt_entry("Type"@, None);
    let e10 = opt_entry("User"@, s.user);
    let e11 = opt_entry("WorkingDirectory"@, s.working_directory);
    lemma_no_entry_under_concat(e1, e2, t);
    lemma_no_entry_under_concat(e1 + e2, e3, t);
    lemma_no_entry_under_concat(e1 + e2 + e3, e4, t);
    lemma_no_entry_under_concat(e1 + e2 + e3 + e4, e5, t);
    lemma_no_entry_under_concat(e1 + e2 + e3 + e4 + e5, e6, t);
    lemma_no_entry_under_concat(e1 + e2 + e3 + e4 + e5 + e6, e7, t);
    lemma_no_entry_under_concat(e1 + e2 + e3 + e4 + e5 + e6 + e7, e8, t);
    lemma_no_entry_under_concat(e1 + e2 + e3 + e4 + e5 + e6 + e7 + e8, e9, t);
    lemma_no_entry_under_concat(e1 + e2 + e3 + e4 + e5 + e6 + e7 + e8 + e9, e10, t);
    lemma_no_entry_under_concat(e1 + e2 + e3 + e4 + e5 + e6 + e7 + e8 + e9 + e10, e11, t);
}

proof fn lemma_concat_assoc<T>(a: Seq<T>, b: Seq<T>, c: Seq<T>)
    ensures
        (a + b) + c == a + (b + c),
{
    assert((a + b) + c =~= a + (b + c));
}

proof fn lemma_single_entry_text(key: Seq<char>, value: Seq<char>)
    ensures
        entries_text(seq![(key, value)]) == entry_text(key, value),
{
    let e: Seq<Entry> = seq![(key, value)];
    assert(e.drop_last() =~= Seq::<Entry>::empty());
    assert(entries_text(e.drop_last()) =~= Seq::<char>::empty());
    assert(entries_text(e) =~= entry_text(key, value));
}

proof fn lemma_remain_line()
    ensures
        entry_text("RemainAfterExit"@, "no"@) == "RemainAfterExit=no\n"@,
{
    reveal_strlit("RemainAfterExit=no\n");
    reveal_strlit("RemainAfterExit");
    reveal_strlit("no");
    assert(entry_text("RemainAfterExit"@, "no"@) =~= "RemainAfterExit=no\n"@);
}

proof fn lemma_line_in_the_middle(
    top: Seq<char>,
    name: Seq<char>,
    head: Seq<char>,
    line: Seq<char>,
    tail: Seq<char>,
    rest_name: Seq<char>,
    rest: Seq<char>,
)
    ensures
        top + (name + (head + line + tail)) + rest_name + rest == (top + name + head) + line + (tail
            + rest_name + rest),
{
    assert(top + (name + (head + line + tail)) + rest_name + rest =~= (top + name + head) + line
        + (tail + rest_name + rest));
}

/// Where the template does not remain after exit, as one that leaves the
/// attribute out does not, and the instance does not set the attribute, the
/// unit file holds the line `RemainAfterExit=no`.
pub proof fn law_remain_after_exit_default_is_written(
    instance: InstanceServiceDefView,
    template: TemplateServiceDefView,
)
    requires
        template.service.remain_after_exit == Some(RemainAfterExit::No),
        instance.service is Some ==> instance.service->0.remain_after_exit is None,
    ensures
        holds_line(resolved_text(instance, template), "RemainAfterExit=no\n"@),
{
    let s = overlay(instance.service, template.service);
    let head = opt_entry("EnvironmentFile"@, s.environment_file) + opt_entry(
        "ExecStartPre"@,
        s.exec_start_pre,
    ) + opt_entry("ExecStart"@, s.exec_start) + opt_entry("ExecStop"@, s.exec_stop) + opt_entry(
        "Group"@,
        s.group,
    );
    let own: Seq<Entry> = seq![("RemainAfterExit"@, "no"@)];
    let e7 = opt_entry(
        "Restart"@,
        match s.restart {
            Some(v) => Some(v.text()),
            None => None,
        },
    );
    let e8 = opt_entry(
        "TimeoutStartSec"@,
        match s.timeout_start_sec {
            Some(v) => Some(decimal(v as nat)),
            None => None,
        },
    );
    let e9 = opt_entry(
        "Type"@,
        match s.service_type {
            Some(v) => Some(v.text()),
            None => None,
        },
    );
    let e10 = opt_entry("User"@, s.user);
    let e11 = opt_entry("WorkingDirectory"@, s.working_directory);
    let tail = e7 + e8 + e9 + e10 + e11;
    assert(s.remain_after_exit == Some(RemainAfterExit::No));
    assert(service_entries(s) == head + own + e7 + e8 + e9 + e10 + e11);
    lemma_concat_assoc(head + own, e7, e8);
    lemma_concat_assoc(head + own, e7 + e8, e9);
    lemma_concat_assoc(head + own, e7 + e8 + e9, e10);
    lemma_concat_assoc(head + own, e7 + e8 + e9 + e10, e11);
    assert(service_entries(s) == head + own + tail);
    lemma_entries_text_concat(head, own);
    lemma_entries_text_concat(head + own, tail);
    lemma_single_entry_text("RemainAfterExit"@, "no"@);
    lemma_remain_line();
    let line = "RemainAfterExit=no\n"@;
    assert(entries_text(service_entries(s)) == entries_text(head) + line + entries_text(tail));
    let top = header_text() + "\n[Unit]\n"@ + entries_text(
        unit_entries(instance.unit, template.unit),
    );
    let rest = entries_text(install_entries(chosen_install(instance.install, template.install)));
    lemma_line_in_the_middle(
        top,
        "\n[Service]\n"@,
        entries_text(head),
        line,
        entries_text(tail),
        "\n[Install]\n"@,
        rest,
    );
    let before = top + "\n[Service]\n"@ + entries_text(head);
    let after = entries_text(tail) + "\n[Install]\n"@ + rest;
    assert(resolved_text(instance, template) == before + line + after);
}

/// A template that carries a value for `RemainAfterExit` gives every
/// instance an entry under that key, whatever else the two set: the entry
/// holds the instance's value where its service block sets one, else the
/// template's.
pub proof fn law_remain_after_exit_is_always_written(
    instance: Option<ServiceView>,
    template: ServiceView,
)
    requires
        template.remain_after_exit is Some,
    ensures
        overlay(instance, template).remain_after_exit is Some,
        service_entries(overlay(instance, template)).contains(
            ("RemainAfterExit"@, overlay(instance, template).remain_after_exit->0.text()),
        ),
{
    let s = overlay(instance, template);
    let head = opt_entry("EnvironmentFile"@, s.environment_file) + opt_entry(
        "ExecStartPre"@,
        s.exec_start_pre,
    ) + opt_entry("ExecStart"@, s.exec_start) + opt_entry("ExecStop"@, s.exec_stop) + opt_entry(
        "Group"@,
        s.group,
    );
    let k = head.len() as int;
    assert(service_entries(s)[k] == ("RemainAfterExit"@, s.remain_after_exit->0.text()));
}

/// The text of a unit file depends on nothing but what the instance and the
/// template hold: two resolutions of the same pair give the same text.
pub proof fn law_same_input_same_text(
    first_instance: InstanceServiceDef,
    first_template: TemplateServiceDef,
    second_instance: InstanceServiceDef,
    second_template: TemplateServiceDef,
)
    requires
        first_instance@ == second_instance@,
        first_template@ == second_template@,
    ensures
        resolved_text(first_instance@, first_template@) == resolved_text(
            second_instance@,
            second_template@,
        ),
{
}

} // verus!
