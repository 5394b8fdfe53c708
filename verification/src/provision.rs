//! Which directories a run has to provide, and in which order.
//!
//! Nothing here touches the file system. A plan is a list of requests that
//! the caller carries out one after the other, stopping at the first that
//! fails.

use crate::error::Error;
use crate::error::ErrorView;
use crate::platform::bytes_of;
use crate::platform::path_file_name;
use crate::platform::path_is_taken;
use crate::platform::path_parent;
use crate::template::template_of;
use crate::template::Template;
use crate::template::TemplateView;
use vstd::prelude::*;
use vstd::slice::slice_to_vec;
use vstd::utf8::valid_utf8;

verus! {

/// How a temporary directory gets its name.
#[derive(Debug, PartialEq, Eq)]
pub enum Naming {
    /// As whoever makes the directory names one by default.
    Default,
    /// `prefix`, then `random_length` random characters, then `suffix`.
    Pattern { prefix: Vec<u8>, random_length: usize, suffix: Vec<u8> },
}

/// The mathematical value of a [`Naming`].
pub enum NamingView {
    Default,
    Pattern { prefix: Seq<u8>, random_length: nat, suffix: Seq<u8> },
}

impl View for Naming {
    type V = NamingView;

    open spec fn view(&self) -> NamingView {
        match *self {
            Naming::Default => NamingView::Default,
            Naming::Pattern { prefix, random_length, suffix } => NamingView::Pattern {
                prefix: prefix@,
                random_length: random_length as nat,
                suffix: suffix@,
            },
        }
    }
}

/// One request to the file system.
#[derive(Debug, PartialEq, Eq)]
pub enum Step {
    /// Create this directory and every ancestor of it that is missing; one
    /// that exists already is no failure.
    CreateDirectories(Vec<u8>),
    /// Make this directory the working directory.
    ChangeDirectory(Vec<u8>),
    /// Create a new directory in `parent`, or where the system keeps its
    /// temporary files if there is none, named as `naming` says. A
    /// directory of that name that exists already is a failure. The
    /// directory is to be deleted when the run is over.
    CreateTemporary { parent: Option<Vec<u8>>, naming: Naming },
    /// Make the directory that was just created the working directory.
    EnterTemporary,
}

/// The mathematical value of a [`Step`].
pub enum StepView {
    CreateDirectories(Seq<u8>),
    ChangeDirectory(Seq<u8>),
    CreateTemporary { parent: Option<Seq<u8>>, naming: NamingView },
    EnterTemporary,
}

impl View for Step {
    type V = StepView;

    open spec fn view(&self) -> StepView {
        match *self {
            Step::CreateDirectories(path) => StepView::CreateDirectories(path@),
            Step::ChangeDirectory(path) => StepView::ChangeDirectory(path@),
            Step::CreateTemporary { parent, naming } => StepView::CreateTemporary {
                parent: bytes_of(parent),
                naming: naming@,
            },
            Step::EnterTemporary => StepView::EnterTemporary,
        }
    }
}

/// The mathematical value of a list of steps.
pub open spec fn steps_of(steps: Vec<Step>) -> Seq<StepView> {
    steps@.map_values(|step: Step| step@)
}

/// The mathematical value of a plan, or of the failure to make one.
pub open spec fn plan_of(plan: Result<Vec<Step>, Error>) -> Result<Seq<StepView>, ErrorView> {
    match plan {
        Ok(steps) => Ok(steps_of(steps)),
        Err(error) => Err(error@),
    }
}

/// The naming that a template asks for.
pub open spec fn naming_of(template: TemplateView) -> NamingView {
    if template.is_unnamed() {
        NamingView::Default
    } else {
        NamingView::Pattern {
            prefix: template.prefix,
            random_length: template.filler_length,
            suffix: template.suffix,
        }
    }
}

/// The steps that lead into the directory `path`: it is created first if
/// `create` is set, with its missing ancestors, and entered in any case.
pub open spec fn directory_steps(path: Seq<u8>, create: bool) -> Seq<StepView> {
    if create {
        seq![StepView::CreateDirectories(path), StepView::ChangeDirectory(path)]
    } else {
        seq![StepView::ChangeDirectory(path)]
    }
}

/// The steps that lead into a new temporary directory made to `template`:
/// the parent is created first if `create` is set and there is one; then
/// the directory is created and entered.
pub open spec fn temporary_steps(template: TemplateView, create: bool) -> Seq<StepView> {
    let make = seq![
        StepView::CreateTemporary { parent: template.parent, naming: naming_of(template) },
        StepView::EnterTemporary,
    ];
    match template.parent {
        Some(parent) if create => seq![StepView::CreateDirectories(parent)] + make,
        _ => make,
    }
}

/// The plan for a temporary directory at `path`, given what the platform
/// makes of the path: whether it takes the bytes as a path, and the final
/// segment and the parent that it finds in them.
pub open spec fn temporary_plan_of(
    path: Seq<u8>,
    taken: bool,
    name: Option<Seq<u8>>,
    parent: Option<Seq<u8>>,
    create: bool,
) -> Result<Seq<StepView>, ErrorView> {
    match template_of(path, taken, name, parent) {
        Ok(template) => Ok(temporary_steps(template, create)),
        Err(error) => Err(error),
    }
}

/// An owned copy of an optional byte string.
fn copy_of(value: &Option<Vec<u8>>) -> (copy: Option<Vec<u8>>)
    ensures
        bytes_of(copy) == bytes_of(*value),
{
    match value {
        Some(bytes) => Some(slice_to_vec(bytes.as_slice())),
        None => None,
    }
}

impl Template {
    /// The naming that this template asks for.
    pub fn naming(self) -> (naming: Naming)
        ensures
            naming@ == naming_of(self@),
    {
        if self.is_unnamed() {
            Naming::Default
        } else {
            Naming::Pattern {
                prefix: self.prefix,
                random_length: self.filler_length,
                suffix: self.suffix,
            }
        }
    }
}

/// Plans the change into the directory `path`, which is created first if
/// `create` is set.
pub fn ensure_directory(path: &[u8], create: bool) -> (steps: Vec<Step>)
    ensures
        steps_of(steps) == directory_steps(path@, create),
{
    let mut steps: Vec<Step> = Vec::new();
    if create {
        steps.push(Step::CreateDirectories(slice_to_vec(path)));
    }
    steps.push(Step::ChangeDirectory(slice_to_vec(path)));
    assert(steps_of(steps) =~= directory_steps(path@, create));
    steps
}

/// Plans the change into a new temporary directory made to `template`,
/// whose parent is created first if `create` is set.
pub fn temporary_plan(template: Template, create: bool) -> (steps: Vec<Step>)
    ensures
        steps_of(steps) == temporary_steps(template@, create),
{
    let mut steps: Vec<Step> = Vec::new();
    if create {
        if let Some(parent) = &template.parent {
            steps.push(Step::CreateDirectories(slice_to_vec(parent.as_slice())));
        }
    }
    let parent = copy_of(&template.parent);
    let ghost asked = template@;
    steps.push(Step::CreateTemporary { parent, naming: template.naming() });
    steps.push(Step::EnterTemporary);
    assert(steps_of(steps) =~= temporary_steps(asked, create));
    steps
}

/// Plans the change into a new temporary directory that `path` describes:
/// the path is read as a template, and the plan is made to it. Bytes that
/// are UTF-8 are taken as a path on every platform.
pub fn ensure_temporary_directory(path: &[u8], create: bool) -> (plan: Result<Vec<Step>, Error>)
    ensures
        plan_of(plan) == temporary_plan_of(
            path@,
            path_is_taken(path@),
            path_file_name(path@),
            path_parent(path@),
            create,
        ),
        valid_utf8(path@) ==> path_is_taken(path@),
{
    match Template::resolve(path) {
        Ok(template) => Ok(temporary_plan(template, create)),
        Err(error) => Err(error),
    }
}

} // verus!
