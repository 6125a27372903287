use gen_systemd_svc::{
    default_inherit_after, default_inherit_requires, default_inherit_wants, default_install,
    default_remain_after_exit, default_service_type, default_template_deps, merge_list, resolve,
    resolve_install, resolve_service, resolve_service_section, Install, InstanceServiceDef,
    InstanceUnit, RemainAfterExit, Restart, Service, ServiceType, TemplateServiceDef,
    TemplateUnit,
};

const HEADER: &str =
    "; THIS FILE IS GENERATED BY gen-systemd-svc\n; DO NOT EDIT THIS FILE DIRECTLY!\n";

fn strings(items: &[&str]) -> Vec<String> {
    items.iter().map(|s| s.to_string()).collect()
}

fn bare_service() -> Service {
    Service {
        environment_file: None,
        exec_start_pre: None,
        exec_start: None,
        exec_stop: None,
        group: None,
        remain_after_exit: None,
        restart: None,
        timeout_start_sec: None,
        service_type: None,
        user: None,
        working_directory: None,
    }
}

fn decoded_service() -> Service {
    Service {
        remain_after_exit: default_remain_after_exit(),
        service_type: default_service_type(),
        ..bare_service()
    }
}

fn template(requires: &[&str], after: &[&str], wants: &[&str], service: Service) -> TemplateServiceDef {
    TemplateServiceDef {
        unit: TemplateUnit {
            requires: strings(requires),
            after: strings(after),
            wants: strings(wants),
        },
        service,
        install: default_install(),
    }
}

fn instance(name: &str, description: &str) -> InstanceServiceDef {
    InstanceServiceDef {
        unit: InstanceUnit {
            name: name.to_string(),
            description: description.to_string(),
            requires: None,
            after: None,
            wants: None,
            inherit_requires: default_inherit_requires(),
            inherit_after: default_inherit_after(),
            inherit_wants: default_inherit_wants(),
            requires_mounts_for: None,
        },
        service: None,
        install: None,
    }
}

fn lines_under(text: &str, key: &str) -> Vec<String> {
    let prefix = format!("{}=", key);
    text.lines()
        .filter(|l| l.starts_with(&prefix))
        .map(|l| l[prefix.len()..].to_string())
        .collect()
}

#[test]
fn defaults_are_the_documented_ones() {
    assert!(default_template_deps().is_empty());
    assert!(default_inherit_requires());
    assert!(default_inherit_after());
    assert!(default_inherit_wants());
    assert_eq!(default_remain_after_exit(), Some(RemainAfterExit::No));
    assert_eq!(default_service_type(), None);
    assert_eq!(default_install().wanted_by, "default.target");
}

#[test]
fn inherit_flag_puts_template_entries_first() {
    let t = template(&["A", "B"], &[], &[], decoded_service());
    let mut i = instance("x", "X");
    i.unit.requires = Some(strings(&["C"]));
    i.unit.inherit_requires = true;
    let text = resolve(i, t);
    assert_eq!(lines_under(&text, "Requires"), strings(&["A", "B", "C"]));
}

#[test]
fn cleared_inherit_flag_keeps_instance_entries_only() {
    let t = template(&["A", "B"], &[], &[], decoded_service());
    let mut i = instance("x", "X");
    i.unit.requires = Some(strings(&["C"]));
    i.unit.inherit_requires = false;
    let text = resolve(i, t);
    assert_eq!(lines_under(&text, "Requires"), strings(&["C"]));
}

#[test]
fn merge_list_follows_the_flag() {
    let base = strings(&["A", "B"]);
    let own = Some(strings(&["C"]));
    assert_eq!(merge_list(true, &base, &own), strings(&["A", "B", "C"]));
    assert_eq!(merge_list(false, &base, &own), strings(&["C"]));
    assert_eq!(merge_list(true, &base, &None), strings(&["A", "B"]));
    assert_eq!(merge_list(false, &base, &None), Vec::<String>::new());
    assert_eq!(merge_list(true, &base, &Some(vec![])), strings(&["A", "B"]));
    assert_eq!(merge_list(true, &vec![], &None), Vec::<String>::new());
}

#[test]
fn merge_list_keeps_duplicates_and_order() {
    let base = strings(&["b", "a", "b"]);
    let own = Some(strings(&["a", "b"]));
    assert_eq!(merge_list(true, &base, &own), strings(&["b", "a", "b", "a", "b"]));
}

#[test]
fn absent_list_yields_the_template_list() {
    let t = template(&["A", "B"], &["C"], &["D", "E"], decoded_service());
    let i = instance("x", "X");
    let text = resolve(i, t);
    assert_eq!(lines_under(&text, "Requires"), strings(&["A", "B"]));
    assert_eq!(lines_under(&text, "After"), strings(&["C"]));
    assert_eq!(lines_under(&text, "Wants"), strings(&["D", "E"]));
}

#[test]
fn absent_list_without_inheritance_yields_no_line() {
    let t = template(&["A", "B"], &["C"], &["D"], decoded_service());
    let mut i = instance("x", "X");
    i.unit.inherit_requires = false;
    i.unit.inherit_after = false;
    i.unit.inherit_wants = false;
    let text = resolve(i, t);
    assert_eq!(
        text,
        format!(
            "{}\n[Unit]\nDescription=X\n\n[Service]\nRemainAfterExit=no\n\n[Install]\nWantedBy=default.target\n",
            HEADER
        )
    );
}

#[test]
fn service_override_is_per_field() {
    let mut ts = decoded_service();
    ts.exec_start = Some("X".to_string());
    ts.user = Some("U".to_string());
    let t = template(&[], &[], &[], ts);
    let mut i = instance("x", "X");
    let mut is = bare_service();
    is.user = Some("V".to_string());
    i.service = Some(is);
    let text = resolve(i, t);
    assert_eq!(lines_under(&text, "ExecStart"), strings(&["X"]));
    assert_eq!(lines_under(&text, "User"), strings(&["V"]));
    assert_eq!(lines_under(&text, "RemainAfterExit"), strings(&["no"]));
}

#[test]
fn resolve_service_prefers_instance_fields() {
    let mut ts = decoded_service();
    ts.exec_start = Some("X".to_string());
    ts.user = Some("U".to_string());
    ts.restart = Some(Restart::Always);
    ts.timeout_start_sec = Some(30);
    let mut is = bare_service();
    is.user = Some("V".to_string());
    is.remain_after_exit = Some(RemainAfterExit::Yes);
    is.timeout_start_sec = Some(5);
    is.service_type = Some(ServiceType::Forking);
    let r = resolve_service(&Some(is), &ts);
    assert_eq!(r.exec_start, Some("X".to_string()));
    assert_eq!(r.user, Some("V".to_string()));
    assert_eq!(r.restart, Some(Restart::Always));
    assert_eq!(r.remain_after_exit, Some(RemainAfterExit::Yes));
    assert_eq!(r.timeout_start_sec, Some(5));
    assert_eq!(r.service_type, Some(ServiceType::Forking));
    assert_eq!(r.group, None);

    let same = resolve_service(&None, &ts);
    assert_eq!(same.exec_start, Some("X".to_string()));
    assert_eq!(same.user, Some("U".to_string()));
    assert_eq!(same.restart, Some(Restart::Always));
    assert_eq!(same.remain_after_exit, Some(RemainAfterExit::No));
    assert_eq!(same.timeout_start_sec, Some(30));
    assert_eq!(same.service_type, None);
}

#[test]
fn install_override_is_wholesale() {
    let t = template(&[], &[], &[], decoded_service());
    let mut i = instance("x", "X");
    i.install = Some(Install { wanted_by: "multi-user.target".to_string() });
    let text = resolve(i, t);
    assert_eq!(lines_under(&text, "WantedBy"), strings(&["multi-user.target"]));
    assert!(!text.contains("default.target"));
}

#[test]
fn resolve_install_picks_one_block() {
    let t = default_install();
    let own = Some(Install { wanted_by: "multi-user.target".to_string() });
    assert_eq!(resolve_install(&own, &t).wanted_by, "multi-user.target");
    assert_eq!(resolve_install(&None, &t).wanted_by, "default.target");
}

#[test]
fn remain_after_exit_default_is_written() {
    let t = template(&[], &[], &[], decoded_service());
    let text = resolve(instance("x", "X"), t);
    assert!(text.contains("RemainAfterExit=no\n"));
}

#[test]
fn unset_type_leaves_no_line() {
    let t = template(&[], &[], &[], decoded_service());
    let text = resolve(instance("x", "X"), t);
    assert!(!text.contains("Type="));
}

#[test]
fn resolving_twice_gives_the_same_text() {
    let mut ts = decoded_service();
    ts.exec_start = Some("/bin/true".to_string());
    let t = template(&["a"], &["b"], &["c"], ts);
    let mut i = instance("x", "X");
    i.unit.wants = Some(strings(&["d"]));
    let first = resolve(i.clone(), t.clone());
    let second = resolve(i, t);
    assert_eq!(first, second);
}

#[test]
fn end_to_end_one_group_one_instance() {
    let mut ts = decoded_service();
    ts.exec_start = Some("/bin/true".to_string());
    let t = template(&["net.target"], &["base.service"], &[], ts);
    let mut i = instance("foo", "Foo service");
    i.unit.after = Some(strings(&["other.service"]));
    i.unit.inherit_after = true;
    let name = gen_systemd_svc::output_file_name(&i.unit.name);
    assert_eq!(name, Some("foo.service".to_string()));
    let text = resolve(i, t);
    assert_eq!(
        text,
        format!(
            "{}\n[Unit]\nDescription=Foo service\nRequires=net.target\nAfter=base.service\nAfter=other.service\n\n[Service]\nExecStart=/bin/true\nRemainAfterExit=no\n\n[Install]\nWantedBy=default.target\n",
            HEADER
        )
    );
}

#[test]
fn every_field_is_written_in_the_fixed_order() {
    let ts = Service {
        environment_file: Some("/etc/env".to_string()),
        exec_start_pre: Some("/bin/pre".to_string()),
        exec_start: Some("/bin/run".to_string()),
        exec_stop: Some("/bin/stop".to_string()),
        group: Some("staff".to_string()),
        remain_after_exit: Some(RemainAfterExit::Yes),
        restart: Some(Restart::OnFailure),
        timeout_start_sec: Some(90),
        service_type: Some(ServiceType::OneShot),
        user: Some("svc".to_string()),
        working_directory: Some("/srv".to_string()),
    };
    let t = template(&["r1"], &["a1"], &["w1"], ts);
    let mut i = instance("full", "Full");
    i.unit.requires = Some(strings(&["r2"]));
    i.unit.after = Some(strings(&["a2"]));
    i.unit.wants = Some(strings(&["w2"]));
    i.unit.requires_mounts_for = Some(strings(&["/mnt/a", "/mnt/b"]));
    let text = resolve(i, t);
    assert_eq!(
        text,
        format!(
            "{}{}",
            HEADER,
            "\n[Unit]\nDescription=Full\nRequires=r1\nRequires=r2\nAfter=a1\nAfter=a2\nWants=w1\nWants=w2\nRequiresMountsFor=/mnt/a /mnt/b\n\n[Service]\nEnvironmentFile=/etc/env\nExecStartPre=/bin/pre\nExecStart=/bin/run\nExecStop=/bin/stop\nGroup=staff\nRemainAfterExit=yes\nRestart=on-failure\nTimeoutStartSec=90\nType=oneshot\nUser=svc\nWorkingDirectory=/srv\n\n[Install]\nWantedBy=default.target\n"
        )
    );
}

#[test]
fn empty_mount_list_still_writes_its_key() {
    let t = template(&[], &[], &[], decoded_service());
    let mut i = instance("x", "X");
    i.unit.requires_mounts_for = Some(vec![]);
    let text = resolve(i, t);
    assert!(text.contains("Description=X\nRequiresMountsFor=\n\n[Service]\n"));
}

#[test]
fn service_section_is_appended_to_what_was_written() {
    let mut ts = bare_service();
    ts.restart = Some(Restart::OnWatchdog);
    ts.timeout_start_sec = Some(0);
    let out = resolve_service_section(None, ts, "before\n".to_string());
    assert_eq!(out, "before\n\n[Service]\nRestart=on-watchdog\nTimeoutStartSec=0\n");
}

#[test]
fn service_section_of_nothing_is_its_name_only() {
    let out = resolve_service_section(None, bare_service(), String::new());
    assert_eq!(out, "\n[Service]\n");
    let again = resolve_service_section(Some(bare_service()), bare_service(), String::new());
    assert_eq!(again, "\n[Service]\n");
}

#[test]
fn instance_can_override_remain_after_exit_and_type() {
    let t = template(&[], &[], &[], decoded_service());
    let mut i = instance("x", "X");
    let mut is = bare_service();
    is.remain_after_exit = Some(RemainAfterExit::Yes);
    is.service_type = Some(ServiceType::DBus);
    i.service = Some(is);
    let text = resolve(i, t);
    assert_eq!(lines_under(&text, "RemainAfterExit"), strings(&["yes"]));
    assert_eq!(lines_under(&text, "Type"), strings(&["dbus"]));
}
