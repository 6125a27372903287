//! From a whole definition file to the files that are to be written.

use vstd::prelude::*;
use crate::model::{
    DefinitionFile, InstanceServiceDef, InstanceServiceDefView, TemplateServiceDef,
    TemplateServiceDefView, TemplatesAndInstancesView,
};
use crate::naming::{file_name_of, is_file_stem, output_file_name};
use crate::resolver::{resolve, resolved_text};

verus! {

/// One file to write: its name within the output directory and its text.
#[derive(Clone, Debug)]
pub struct OutputFile {
    pub name: String,
    pub contents: String,
}

/// What an output file holds.
pub struct OutputFileView {
    pub name: Seq<char>,
    pub contents: Seq<char>,
}

impl View for OutputFile {
    type V = OutputFileView;

    open spec fn view(&self) -> OutputFileView {
        OutputFileView { name: self.name@, contents: self.contents@ }
    }
}

/// Why a definition file yields no files.
#[derive(Clone, Copy, Debug, PartialEq, Eq, Structural)]
pub enum GenerateError {
    /// The instance at this place has a name that is empty or holds a path
    /// separator. It is the first such instance of the file.
    InvalidName { group: usize, instance: usize },
    /// Two instances, counted through all groups in the order of the file,
    /// would be written to the same file.
    NameCollision { first: usize, second: usize },
}

/// The views of a list of files, one by one.
pub open spec fn output_views(files: Seq<OutputFile>) -> Seq<OutputFileView> {
    Seq::new(files.len(), |i: int| files[i]@)
}

/// The file of one instance of a template.
pub open spec fn output_of(
    instance: InstanceServiceDefView,
    template: TemplateServiceDefView,
) -> OutputFileView {
    OutputFileView {
        name: file_name_of(instance.unit.name),
        contents: resolved_text(instance, template),
    }
}

/// The files of one group: one for each instance, in their order, each
/// resolved against the group's own template.
pub open spec fn group_outputs(group: TemplatesAndInstancesView) -> Seq<OutputFileView> {
    Seq::new(group.instances.len(), |i: int| output_of(group.instances[i], group.template))
}

/// The files of all groups: those of the first group, then those of the
/// second, and so on.
pub open spec fn all_outputs(defs: Seq<TemplatesAndInstancesView>) -> Seq<OutputFileView>
    decreases defs.len(),
{
    if defs.len() == 0 {
        Seq::empty()
    } else {
        all_outputs(defs.drop_last()) + group_outputs(defs.last())
    }
}

/// Every instance of the group, before the given place, has a usable name.
pub open spec fn names_usable_before(group: TemplatesAndInstancesView, end: int) -> bool {
    forall|i: int| 0 <= i < end ==> is_file_stem((#[trigger] group.instances[i]).unit.name)
}

/// Every instance of the group has a usable name.
pub open spec fn group_names_usable(group: TemplatesAndInstancesView) -> bool {
    names_usable_before(group, group.instances.len() as int)
}

/// Every instance of every group has a usable name.
pub open spec fn names_usable(defs: Seq<TemplatesAndInstancesView>) -> bool {
    forall|g: int| 0 <= g < defs.len() ==> group_names_usable(#[trigger] defs[g])
}

/// No file before the given place has the name of an earlier one.
pub open spec fn names_distinct_before(files: Seq<OutputFileView>, end: int) -> bool {
    forall|a: int, b: int|
        0 <= a < b < end ==> (#[trigger] files[a]).name != (#[trigger] files[b]).name
}

/// No two files have the same name.
pub open spec fn names_distinct(files: Seq<OutputFileView>) -> bool {
    names_distinct_before(files, files.len() as int)
}

/// The file of one instance, or nothing where its name cannot name a file.
pub fn render_instance(instance: &InstanceServiceDef, template: &TemplateServiceDef) -> (r: Option<
    OutputFile,
>)
    ensures
        is_file_stem(instance@.unit.name) ==> r is Some && r->0@ == output_of(instance@, template@),
        !is_file_stem(instance@.unit.name) ==> r is None,
{
    match output_file_name(instance.unit.name.as_str()) {
        Some(name) => {
            let contents = resolve(instance.duplicate(), template.duplicate());
            Some(OutputFile { name, contents })
        },
        None => None,
    }
}

/// The first two files of the list that share a name: the later one is the
/// first file whose name was used before, the earlier one the first that
/// used it. Nothing where all names differ.
pub fn first_collision(files: &Vec<OutputFile>) -> (r: Option<(usize, usize)>)
    ensures
        r is None ==> names_distinct(output_views(files@)),
        r is Some ==> ({
            let (first, second) = r->0;
            &&& first < second < files@.len()
            &&& files@[first as int]@.name == files@[second as int]@.name
            &&& names_distinct_before(output_views(files@), second as int)
            &&& forall|a: int|
                0 <= a < first ==> (#[trigger] files@[a])@.name != files@[second as int]@.name
        }),
{
    let ghost views = output_views(files@);
    let mut second: usize = 0;
    while second < files.len()
        invariant
            second <= files.len(),
            views == output_views(files@),
            names_distinct_before(views, second as int),
        decreases files.len() - second,
    {
        let mut first: usize = 0;
        while first < second
            invariant
                first <= second < files.len(),
                views == output_views(files@),
                names_distinct_before(views, second as int),
                forall|a: int|
                    0 <= a < first ==> (#[trigger] files@[a])@.name != files@[second as int]@.name,
            decreases second - first,
        {
            if files[first].name == files[second].name {
                return Some((first, second));
            }
            first += 1;
        }
        assert forall|a: int, b: int| 0 <= a < b < second + 1 implies (#[trigger] views[a]).name
            != (#[trigger] views[b]).name by {
            if b == second {
                assert(files@[a]@.name != files@[second as int]@.name);
            }
        }
        second += 1;
    }
    None
}

proof fn lemma_all_outputs_step(defs: Seq<TemplatesAndInstancesView>, g: int)
    requires
        0 <= g < defs.len(),
    ensures
        all_outputs(defs.take(g + 1)) == all_outputs(defs.take(g)) + group_outputs(defs[g]),
{
    assert(defs.take(g + 1).drop_last() =~= defs.take(g));
    assert(defs.take(g + 1).last() == defs[g]);
}

/// The files of a definition file, in the order of its groups and of their
/// instances, each instance resolved against the template of its own group.
///
/// The file yields them only where every instance has a usable name and no
/// two instances share one; otherwise the error names the first instance
/// with an unusable name or, where all are usable, the first collision.
pub fn generate(def_file: &DefinitionFile) -> (r: Result<Vec<OutputFile>, GenerateError>)
    ensures
        match r {
            Ok(files) => {
                &&& names_usable(def_file@.defs)
                &&& names_distinct(all_outputs(def_file@.defs))
                &&& output_views(files@) == all_outputs(def_file@.defs)
            },
            Err(GenerateError::InvalidName { group, instance }) => {
                &&& group < def_file@.defs.len()
                &&& instance < def_file@.defs[group as int].instances.len()
                &&& !is_file_stem(def_file@.defs[group as int].instances[instance as int].unit.name)
                &&& names_usable(def_file@.defs.take(group as int))
                &&& names_usable_before(def_file@.defs[group as int], instance as int)
            },
            Err(GenerateError::NameCollision { first, second }) => {
                let all = all_outputs(def_file@.defs);
                &&& names_usable(def_file@.defs)
                &&& first < second < all.len()
                &&& all[first as int].name == all[second as int].name
                &&& names_distinct_before(all, second as int)
                &&& forall|a: int|
                    0 <= a < first ==> (#[trigger] all[a]).name != all[second as int].name
            },
        },
{
    let ghost defs = def_file@.defs;
    let mut files: Vec<OutputFile> = Vec::new();
    let mut g: usize = 0;
    assert(output_views(files@) =~= all_outputs(defs.take(0)));
    while g < def_file.defs.len()
        invariant
            g <= def_file.defs.len(),
            defs == def_file@.defs,
            names_usable(defs.take(g as int)),
            output_views(files@) == all_outputs(defs.take(g as int)),
        decreases def_file.defs.len() - g,
    {
        let group = &def_file.defs[g];
        let ghost before = all_outputs(defs.take(g as int));
        let ghost here = group_outputs(defs[g as int]);
        assert(defs[g as int] == group@);
        let mut i: usize = 0;
        assert(output_views(files@) =~= before + here.take(0));
        while i < group.instances.len()
            invariant
                i <= group.instances.len(),
                g < def_file.defs.len(),
                defs == def_file@.defs,
                defs[g as int] == group@,
                before == all_outputs(defs.take(g as int)),
                here == group_outputs(defs[g as int]),
                names_usable(defs.take(g as int)),
                names_usable_before(group@, i as int),
                output_views(files@) == before + here.take(i as int),
            decreases group.instances.len() - i,
        {
            assert(group@.instances[i as int] == group.instances@[i as int]@);
            match render_instance(&group.instances[i], &group.template) {
                Some(file) => {
                    let ghost prev = files@;
                    files.push(file);
                    assert(output_views(files@) =~= output_views(prev).push(file@));
                    assert(here.take(i as int + 1) =~= here.take(i as int).push(file@));
                    assert(output_views(files@) =~= before + here.take(i as int + 1));
                },
                None => {
                    return Err(GenerateError::InvalidName { group: g, instance: i });
                },
            }
            i += 1;
        }
        proof {
            assert(here.take(i as int) =~= here);
            lemma_all_outputs_step(defs, g as int);
            assert forall|k: int| 0 <= k < g + 1 implies group_names_usable(
                #[trigger] defs.take(g as int + 1)[k],
            ) by {
                if k < g {
                    assert(defs.take(g as int)[k] == defs.take(g as int + 1)[k]);
                }
            }
        }
        g += 1;
    }
    assert(defs.take(g as int) =~= defs);
    match first_collision(&files) {
        Some((first, second)) => {
            proof {
                let all = all_outputs(defs);
                assert forall|a: int| 0 <= a < first implies (#[trigger] all[a]).name
                    != all[second as int].name by {
                    assert(all[a] == files@[a]@);
                }
            }
            Err(GenerateError::NameCollision { first, second })
        },
        None => Ok(files),
    }
}

} // verus!
