use gen_systemd_svc::{
    default_install, first_collision, generate, render_instance, DefinitionFile, GenerateError,
    InstanceServiceDef, InstanceUnit, OutputFile, RemainAfterExit, Service, TemplateServiceDef,
    TemplateUnit, TemplatesAndInstances,
};

fn plain_template(exec_start: &str, after: &[&str]) -> TemplateServiceDef {
    TemplateServiceDef {
        unit: TemplateUnit {
            requires: vec![],
            after: after.iter().map(|s| s.to_string()).collect(),
            wants: vec![],
        },
        service: Service {
            environment_file: None,
            exec_start_pre: None,
            exec_start: Some(exec_start.to_string()),
            exec_stop: None,
            group: None,
            remain_after_exit: Some(RemainAfterExit::No),
            restart: None,
            timeout_start_sec: None,
            service_type: None,
            user: None,
            working_directory: None,
        },
        install: default_install(),
    }
}

fn named(name: &str) -> InstanceServiceDef {
    InstanceServiceDef {
        unit: InstanceUnit {
            name: name.to_string(),
            description: format!("{} service", name),
            requires: None,
            after: None,
            wants: None,
            inherit_requires: true,
            inherit_after: true,
            inherit_wants: true,
            requires_mounts_for: None,
        },
        service: None,
        install: None,
    }
}

fn group(exec_start: &str, names: &[&str]) -> TemplatesAndInstances {
    TemplatesAndInstances {
        template: plain_template(exec_start, &[]),
        instances: names.iter().map(|n| named(n)).collect(),
    }
}

fn expected_text(name: &str, exec_start: &str) -> String {
    format!(
        "; THIS FILE IS GENERATED BY gen-systemd-svc\n; DO NOT EDIT THIS FILE DIRECTLY!\n\n[Unit]\nDescription={} service\n\n[Service]\nExecStart={}\nRemainAfterExit=no\n\n[Install]\nWantedBy=default.target\n",
        name, exec_start
    )
}

#[test]
fn render_instance_names_and_resolves() {
    let t = plain_template("/bin/true", &["base.service"]);
    let file = render_instance(&named("foo"), &t).unwrap();
    assert_eq!(file.name, "foo.service");
    assert_eq!(
        file.contents,
        "; THIS FILE IS GENERATED BY gen-systemd-svc\n; DO NOT EDIT THIS FILE DIRECTLY!\n\n[Unit]\nDescription=foo service\nAfter=base.service\n\n[Service]\nExecStart=/bin/true\nRemainAfterExit=no\n\n[Install]\nWantedBy=default.target\n"
    );
}

#[test]
fn render_instance_refuses_an_unusable_name() {
    let t = plain_template("/bin/true", &[]);
    assert!(render_instance(&named(""), &t).is_none());
    assert!(render_instance(&named("a/b"), &t).is_none());
}

#[test]
fn generate_keeps_the_order_of_groups_and_instances() {
    let def = DefinitionFile {
        defs: vec![group("/bin/one", &["b", "a"]), group("/bin/two", &[]), group("/bin/three", &["c"])],
    };
    let files = generate(&def).unwrap();
    let names: Vec<&str> = files.iter().map(|f| f.name.as_str()).collect();
    assert_eq!(names, vec!["b.service", "a.service", "c.service"]);
    assert_eq!(files[0].contents, expected_text("b", "/bin/one"));
    assert_eq!(files[1].contents, expected_text("a", "/bin/one"));
    assert_eq!(files[2].contents, expected_text("c", "/bin/three"));
}

#[test]
fn generate_of_nothing_is_nothing() {
    assert!(generate(&DefinitionFile { defs: vec![] }).unwrap().is_empty());
    assert!(generate(&DefinitionFile { defs: vec![group("/bin/one", &[])] }).unwrap().is_empty());
}

#[test]
fn generate_reports_the_first_unusable_name() {
    let def = DefinitionFile {
        defs: vec![group("/bin/one", &["a"]), group("/bin/two", &["b", "x/y", ""])],
    };
    assert_eq!(
        generate(&def).unwrap_err(),
        GenerateError::InvalidName { group: 1, instance: 1 }
    );
}

#[test]
fn generate_reports_the_first_collision() {
    let def = DefinitionFile {
        defs: vec![group("/bin/one", &["a", "b"]), group("/bin/two", &["c", "b", "a"])],
    };
    assert_eq!(
        generate(&def).unwrap_err(),
        GenerateError::NameCollision { first: 1, second: 3 }
    );
}

#[test]
fn generate_checks_names_before_collisions() {
    let def = DefinitionFile {
        defs: vec![group("/bin/one", &["a", "a"]), group("/bin/two", &[""])],
    };
    assert_eq!(
        generate(&def).unwrap_err(),
        GenerateError::InvalidName { group: 1, instance: 0 }
    );
}

#[test]
fn first_collision_finds_the_earliest_repeat() {
    let file = |n: &str| OutputFile { name: n.to_string(), contents: String::new() };
    assert_eq!(first_collision(&vec![]), None);
    assert_eq!(first_collision(&vec![file("a"), file("b"), file("c")]), None);
    assert_eq!(first_collision(&vec![file("a"), file("b"), file("a"), file("b")]), Some((0, 2)));
    assert_eq!(first_collision(&vec![file("x"), file("y"), file("y"), file("x")]), Some((1, 2)));
    assert_eq!(first_collision(&vec![file("a"), file("a"), file("a")]), Some((0, 1)));
}

#[test]
fn duplicates_hold_the_same_values() {
    let t = plain_template("/bin/true", &["x", "y"]);
    let copy = t.duplicate();
    assert_eq!(copy.unit.after, t.unit.after);
    assert_eq!(copy.service.exec_start, t.service.exec_start);
    assert_eq!(copy.install.wanted_by, t.install.wanted_by);
    let mut i = named("n");
    i.unit.wants = Some(vec!["w".to_string()]);
    i.unit.inherit_after = false;
    let again = i.duplicate();
    assert_eq!(again.unit.name, "n");
    assert_eq!(again.unit.description, "n service");
    assert_eq!(again.unit.wants, Some(vec!["w".to_string()]));
    assert_eq!(again.unit.requires, None);
    assert!(!again.unit.inherit_after);
    assert!(again.unit.inherit_requires);
}
