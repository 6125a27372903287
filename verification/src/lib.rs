//! Turns a template service and its instances into systemd unit files.
//!
//! `model` holds the definition tree and its defaults, `text` the line
//! grammar of a unit file, `resolver` the inheritance and override rules
//! together with the rendering of one instance, `naming` the name of the
//! file that an instance is written to, `generate` the files of a whole
//! definition file, and `laws` what holds of all of these on every input.

pub mod model;
pub mod text;
pub mod resolver;
pub mod naming;
pub mod generate;
pub mod laws;

pub use model::{
    default_inherit_after, default_inherit_requires, default_inherit_wants, default_install,
    default_remain_after_exit, default_service_type, default_template_deps, default_wanted_by,
    DefinitionFile, Install, InstanceServiceDef, InstanceUnit, RemainAfterExit, Restart, Service,
    ServiceType, TemplateServiceDef, TemplateUnit, TemplatesAndInstances,
};
pub use resolver::{
    merge_list, resolve, resolve_install, resolve_service, resolve_service_section,
};
pub use naming::output_file_name;
pub use text::{decimal_text, join_with_space};
pub use generate::{first_collision, generate, render_instance, GenerateError, OutputFile};
