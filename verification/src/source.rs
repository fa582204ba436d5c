//! Where the script of a run comes from: out of the request, or out of a file.

use crate::error::{ErrorView, ToolError};
use crate::json::{json_of, optional_str, text_field, Json};
use crate::text::{join2, join4, trimmed};
use serde_json::Value;
use vstd::prelude::*;

verus! {

/// A path by its parts: its components, from the root on, the text that shows it, and
/// whether it is valid UTF-8 (the text is then the path itself).
#[derive(Debug)]
pub struct SourcePath {
    pub components: Vec<Vec<u8>>,
    pub display: String,
    pub is_utf8: bool,
}

/// The parts of a path.
#[verifier::ext_equal]
pub struct PathView {
    pub components: Seq<Seq<u8>>,
    pub display: Seq<char>,
    pub is_utf8: bool,
}

impl View for SourcePath {
    type V = PathView;

    open spec fn view(&self) -> PathView {
        PathView {
            components: self.components@.map_values(|component: Vec<u8>| component@),
            display: self.display@,
            is_utf8: self.is_utf8,
        }
    }
}

/// The view of a path that may be missing.
pub open spec fn path_opt(path: Option<SourcePath>) -> Option<PathView> {
    match path {
        Some(path) => Some(path@),
        None => None,
    }
}

/// Whether `path` is `root` or lies under it: whether the components of `root` begin it.
pub open spec fn lies_inside(path: PathView, root: PathView) -> bool {
    root.components.len() <= path.components.len() && root.components == path.components.take(
        root.components.len() as int,
    )
}

/// The script of a run, and the file that it was read from, if any.
#[derive(Debug)]
pub struct WorkflowSource {
    pub source: String,
    pub path: Option<SourcePath>,
}

/// Where a request says the script is.
#[derive(Debug)]
pub enum SourcePlan {
    /// In the request itself.
    Inline { source: String },
    /// In the file of that name.
    File { path: String },
}

/// A `SourcePlan` by its text.
pub enum SourcePlanView {
    Inline(Seq<char>),
    File(Seq<char>),
}

impl View for SourcePlan {
    type V = SourcePlanView;

    open spec fn view(&self) -> SourcePlanView {
        match self {
            SourcePlan::Inline { source } => SourcePlanView::Inline(source@),
            SourcePlan::File { path } => SourcePlanView::File(path@),
        }
    }
}

/// Where the script is, by the script and the file name that a request gives: it gives one of
/// the two, and a script of white space alone is none.
pub open spec fn planned_source(
    script: Option<Seq<char>>,
    path: Option<Seq<char>>,
) -> Result<SourcePlanView, ErrorView> {
    match (script, path) {
        (Some(script), None) => if trimmed(script).len() > 0 {
            Ok(SourcePlanView::Inline(script))
        } else {
            Err(ErrorView::MissingField("script"@))
        },
        (None, Some(path)) => Ok(SourcePlanView::File(path)),
        (Some(_), Some(_)) => Err(
            ErrorView::InvalidInput("Use either script or source_path, not both"@),
        ),
        (None, None) => Err(ErrorView::MissingField("script"@)),
    }
}

/// The text under the first of two keys that has one.
pub open spec fn either_text(doc: Json, first: Seq<char>, second: Seq<char>) -> Option<Seq<char>> {
    match text_field(doc, first) {
        Some(text) => Some(text),
        None => text_field(doc, second),
    }
}

/// A plan or an error, by their views.
pub open spec fn plan_outcome(
    result: Result<SourcePlan, ToolError>,
) -> Result<SourcePlanView, ErrorView> {
    match result {
        Ok(plan) => Ok(plan@),
        Err(error) => Err(error@),
    }
}

/// The text under the first of two keys that has one.
fn either_str<'a>(input: &'a Value, first: &str, second: &str) -> (text: Option<&'a str>)
    ensures
        match text {
            Some(text) => either_text(json_of(*input), first@, second@) == Some(text@),
            None => either_text(json_of(*input), first@, second@) is None,
        },
{
    match optional_str(input, first) {
        Some(text) => Some(text),
        None => optional_str(input, second),
    }
}

/// Where the script is, by the script and the file name that a request gives.
pub fn plan_source(script: Option<&str>, path: Option<&str>) -> (plan: Result<
    SourcePlan,
    ToolError,
>)
    ensures
        plan_outcome(plan) == planned_source(
            match script {
                Some(text) => Some(text@),
                None => None,
            },
            match path {
                Some(text) => Some(text@),
                None => None,
            },
        ),
{
    match script {
        Some(script) => match path {
            None => if !script.trim().is_empty() {
                Ok(SourcePlan::Inline { source: script.to_owned() })
            } else {
                Err(ToolError::missing_field("script"))
            },
            Some(_) => Err(
                ToolError::invalid_input("Use either script or source_path, not both".to_owned()),
            ),
        },
        None => match path {
            Some(path) => Ok(SourcePlan::File { path: path.to_owned() }),
            None => Err(ToolError::missing_field("script")),
        },
    }
}

/// Where a request says the script is: under `script` or `source`, or in the file named under
/// `source_path` or `path`.
pub fn workflow_source(input: &Value) -> (plan: Result<SourcePlan, ToolError>)
    ensures
        plan_outcome(plan) == planned_source(
            either_text(json_of(*input), "script"@, "source"@),
            either_text(json_of(*input), "source_path"@, "path"@),
        ),
{
    plan_source(either_str(input, "script", "source"), either_str(input, "source_path", "path"))
}

/// Which file a name stands for.
#[derive(Debug, Clone, Copy, PartialEq, Eq, Structural)]
pub enum SourceTarget {
    /// The one that the name itself leads to.
    AsGiven,
    /// The one that the name leads to from the workspace.
    InWorkspace,
}

/// Which file a name stands for: an absolute one is taken as it is, any other is looked up in
/// the workspace.
pub fn source_target(is_absolute: bool) -> (target: SourceTarget)
    ensures
        target == if is_absolute {
            SourceTarget::AsGiven
        } else {
            SourceTarget::InWorkspace
        },
{
    if is_absolute {
        SourceTarget::AsGiven
    } else {
        SourceTarget::InWorkspace
    }
}

/// What the reading of a script from a file comes to next.
#[derive(Debug)]
pub enum SourceStep {
    /// The workspace has to be resolved, for the resolved `path` is to lie inside it.
    ResolveWorkspace { path: SourcePath },
    /// The file is to be read.
    ReadFile { path: SourcePath },
}

/// A `SourceStep` by its path.
pub enum SourceStepView {
    ResolveWorkspace(PathView),
    ReadFile(PathView),
}

impl View for SourceStep {
    type V = SourceStepView;

    open spec fn view(&self) -> SourceStepView {
        match self {
            SourceStep::ResolveWorkspace { path } => SourceStepView::ResolveWorkspace(path@),
            SourceStep::ReadFile { path } => SourceStepView::ReadFile(path@),
        }
    }
}

/// A step or an error, by their views.
pub open spec fn step_outcome(
    result: Result<SourceStep, ToolError>,
) -> Result<SourceStepView, ErrorView> {
    match result {
        Ok(step) => Ok(step@),
        Err(error) => Err(error@),
    }
}

/// What follows once the path of a file has been resolved, or could not be: a trusted caller
/// may read any file, any other only one of the workspace.
pub open spec fn after_path(
    path: Seq<char>,
    trust_mode: bool,
    resolved: Result<PathView, Seq<char>>,
) -> Result<SourceStepView, ErrorView> {
    match resolved {
        Ok(resolved) => if trust_mode {
            Ok(SourceStepView::ReadFile(resolved))
        } else {
            Ok(SourceStepView::ResolveWorkspace(resolved))
        },
        Err(error) => Err(
            ErrorView::InvalidInput(
                "Failed to resolve workflow source_path '"@ + path + "': "@ + error,
            ),
        ),
    }
}

/// The directory that a file has to lie in: the workspace, resolved where that was possible.
pub open spec fn workspace_root(resolved: Option<PathView>, workspace: PathView) -> PathView {
    match resolved {
        Some(resolved) => resolved,
        None => workspace,
    }
}

/// What follows once the workspace has been resolved: the file is read if it lies inside.
pub open spec fn after_workspace(path: PathView, root: PathView) -> Result<
    SourceStepView,
    ErrorView,
> {
    if lies_inside(path, root) {
        Ok(SourceStepView::ReadFile(path))
    } else {
        Err(
            ErrorView::PermissionDenied(
                "workflow source_path must stay inside the workspace: "@ + path.display,
            ),
        )
    }
}

/// A `WorkflowSource` as values.
pub struct SourceView {
    pub source: Seq<char>,
    pub path: Option<PathView>,
}

impl View for WorkflowSource {
    type V = SourceView;

    open spec fn view(&self) -> SourceView {
        SourceView { source: self.source@, path: path_opt(self.path) }
    }
}

/// A source or an error, by their views.
pub open spec fn source_outcome(
    result: Result<WorkflowSource, ToolError>,
) -> Result<SourceView, ErrorView> {
    match result {
        Ok(source) => Ok(source@),
        Err(error) => Err(error@),
    }
}

/// What comes of reading a file.
pub open spec fn after_read(path: PathView, content: Result<Seq<char>, Seq<char>>) -> Result<
    SourceView,
    ErrorView,
> {
    match content {
        Ok(source) => Ok(SourceView { source, path: Some(path) }),
        Err(error) => Err(
            ErrorView::ExecutionFailed(
                "Failed to read workflow source_path '"@ + path.display + "': "@ + error,
            ),
        ),
    }
}

/// The view of a result whose error is a text.
pub open spec fn path_or_text(result: Result<SourcePath, String>) -> Result<PathView, Seq<char>> {
    match result {
        Ok(path) => Ok(path@),
        Err(error) => Err(error@),
    }
}

/// The view of a text or of an error that is a text.
pub open spec fn text_or_text(result: Result<String, String>) -> Result<Seq<char>, Seq<char>> {
    match result {
        Ok(text) => Ok(text@),
        Err(error) => Err(error@),
    }
}

impl SourcePath {
    /// A copy of the path.
    pub fn copy(&self) -> (copy: SourcePath)
        ensures
            copy@ == self@,
    {
        let mut components: Vec<Vec<u8>> = Vec::new();
        let mut i: usize = 0;
        while i < self.components.len()
            invariant
                i <= self.components.len(),
                components.len() == i,
                forall|j: int| 0 <= j < i ==> (#[trigger] components[j])@ == self.components[j]@,
            decreases self.components.len() - i,
        {
            components.push(self.components[i].clone());
            i += 1;
        }
        let copy = SourcePath { components, display: self.display.clone(), is_utf8: self.is_utf8 };
        assert(copy@ =~= self@);
        copy
    }

    /// Whether the path is `root` or lies under it.
    pub fn lies_inside(&self, root: &SourcePath) -> (inside: bool)
        ensures
            inside == lies_inside(self@, root@),
    {
        if root.components.len() > self.components.len() {
            return false;
        }
        let mut i: usize = 0;
        while i < root.components.len()
            invariant
                i <= root.components.len() <= self.components.len(),
                forall|j: int| 0 <= j < i ==> (#[trigger] root.components[j])@
                    == self.components[j]@,
            decreases root.components.len() - i,
        {
            if !same_bytes(&root.components[i], &self.components[i]) {
                assert(root@.components[i as int] != self@.components.take(
                    root@.components.len() as int,
                )[i as int]);
                return false;
            }
            i += 1;
        }
        assert(root@.components =~= self@.components.take(root@.components.len() as int));
        true
    }
}

/// Whether two lists of bytes are the same.
fn same_bytes(left: &Vec<u8>, right: &Vec<u8>) -> (same: bool)
    ensures
        same == (left@ == right@),
{
    if left.len() != right.len() {
        return false;
    }
    let mut i: usize = 0;
    while i < left.len()
        invariant
            i <= left.len() == right.len(),
            forall|j: int| 0 <= j < i ==> left[j] == right[j],
        decreases left.len() - i,
    {
        if left[i] != right[i] {
            return false;
        }
        i += 1;
    }
    assert(left@ =~= right@);
    true
}

/// Takes in what came of resolving the path of a file.
pub fn path_resolved(
    path: &str,
    trust_mode: bool,
    resolved: Result<SourcePath, String>,
) -> (step: Result<SourceStep, ToolError>)
    ensures
        step_outcome(step) == after_path(path@, trust_mode, path_or_text(resolved)),
{
    match resolved {
        Ok(resolved) => if trust_mode {
            Ok(SourceStep::ReadFile { path: resolved })
        } else {
            Ok(SourceStep::ResolveWorkspace { path: resolved })
        },
        Err(error) => Err(
            ToolError::invalid_input(
                join4("Failed to resolve workflow source_path '", path, "': ", &error),
            ),
        ),
    }
}

/// Takes in what came of resolving the workspace.
pub fn workspace_resolved(
    path: SourcePath,
    resolved: Option<SourcePath>,
    workspace: SourcePath,
) -> (step: Result<SourceStep, ToolError>)
    ensures
        step_outcome(step) == after_workspace(
            path@,
            workspace_root(path_opt(resolved), workspace@),
        ),
{
    let root = match resolved {
        Some(resolved) => resolved,
        None => workspace,
    };
    if path.lies_inside(&root) {
        Ok(SourceStep::ReadFile { path })
    } else {
        Err(
            ToolError::permission_denied(
                join2("workflow source_path must stay inside the workspace: ", &path.display),
            ),
        )
    }
}

/// Takes in what came of reading the file.
pub fn file_read(path: SourcePath, content: Result<String, String>) -> (source: Result<
    WorkflowSource,
    ToolError,
>)
    ensures
        source_outcome(source) == after_read(path@, text_or_text(content)),
{
    match content {
        Ok(source) => Ok(WorkflowSource { source, path: Some(path) }),
        Err(error) => Err(
            ToolError::execution_failed(
                join4("Failed to read workflow source_path '", &path.display, "': ", &error),
            ),
        ),
    }
}

} // verus!
