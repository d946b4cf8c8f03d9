//! Spec abstraction layer: domain types and the adapter trait through which
//! the agent layer reads stories, scenarios and verification commands.

pub mod openspec;
pub mod prompt;
pub mod types;

pub use types::{
    Context, ContextView, Learning, Pattern, Priority, Scenario, Story, Task, UserStory, VerifyCommands,
    WorkContext, WorkStatus,
};

use vstd::prelude::*;

use crate::error::{Error, ErrorView};
use crate::spec::types::{scenarios_view, stories_view, ScenarioView, StoryView};
use crate::text::strs;
use crate::spec::openspec::{
    change_stories, parse_spec_files, verify_commands_for, AdapterView, ChangeFiles, OpenSpecAdapter,
    ProjectMarkers,
};

verus! {

/// Read-only access to a spec system's stories, scenarios and commands.
///
/// Each method's outcome is described by a spec function of the adapter:
/// what it gives when it succeeds, and the view of its error where it
/// fails. An
/// implementation defines these functions; where it does not, they are left
/// unspecified.
pub trait SpecAdapter {
    /// The stories that [`SpecAdapter::stories`] gives, if it succeeds.
    open spec fn stories_spec(&self) -> Result<Seq<StoryView>, ErrorView> {
        arbitrary()
    }

    /// The scenarios that [`SpecAdapter::scenarios`] gives, if it succeeds.
    open spec fn scenarios_spec(&self) -> Result<Seq<ScenarioView>, ErrorView> {
        arbitrary()
    }

    /// The context that [`SpecAdapter::context`] gives for a story id, if it
    /// succeeds.
    open spec fn context_spec(&self, story_id: Seq<char>) -> Result<ContextView, ErrorView> {
        arbitrary()
    }

    /// The checks and test command that [`SpecAdapter::verify_commands`]
    /// gives, if it succeeds.
    open spec fn verify_spec(&self) -> Result<(Seq<Seq<char>>, Seq<char>), ErrorView> {
        arbitrary()
    }

    /// The text that [`SpecAdapter::tool_prompt`] gives.
    open spec fn tool_spec(&self) -> Seq<char> {
        arbitrary()
    }

    /// Returns all stories with their tasks.
    fn stories(&self) -> (r: Result<Vec<Story>, Error>)
        ensures
            match r {
                Ok(v) => self.stories_spec() == Ok::<_, ErrorView>(stories_view(v@)),
                Err(e) => self.stories_spec() == Err::<Seq<StoryView>, _>(e@),
            };

    /// Returns all verification scenarios.
    fn scenarios(&self) -> (r: Result<Vec<Scenario>, Error>)
        ensures
            match r {
                Ok(v) => self.scenarios_spec() == Ok::<_, ErrorView>(scenarios_view(v@)),
                Err(e) => self.scenarios_spec() == Err::<Seq<ScenarioView>, _>(e@),
            };

    /// Returns complete context for working on a story.
    fn context(&self, story_id: &str) -> (r: Result<Context, Error>)
        ensures
            match r {
                Ok(c) => self.context_spec(story_id@) == Ok::<_, ErrorView>(c@),
                Err(e) => self.context_spec(story_id@) == Err::<ContextView, _>(e@),
            };

    /// Returns verification commands (checks and tests) for the project.
    fn verify_commands(&self) -> (r: Result<VerifyCommands, Error>)
        ensures
            match r {
                Ok(c) => self.verify_spec() == Ok::<_, ErrorView>((strs(c.checks@), c.tests@)),
                Err(e) => self.verify_spec() == Err::<(Seq<Seq<char>>, Seq<char>), _>(e@),
            };

    /// Returns spec-tool-specific usage instructions for the agent.
    fn tool_prompt(&self) -> (p: String)
        ensures
            p@ == self.tool_spec();
}

/// Creates a spec adapter for a change; OpenSpec is the only spec system.
pub fn create_adapter(change_name: &str, files: ChangeFiles, markers: ProjectMarkers) -> (r: Result<
    OpenSpecAdapter,
    Error,
>)
    ensures
        r matches Ok(a) && a@ == (AdapterView {
            change_name: change_name@,
            change_dir: files.change_dir@,
            stories: change_stories(files.tasks_md),
            scenarios: parse_spec_files(files.spec_files@),
            proposal: files.proposal@,
            design: files.design@,
            checks: verify_commands_for(markers).0,
            tests: verify_commands_for(markers).1,
        }),
{
    OpenSpecAdapter::new(change_name, files, markers)
}

} // verus!
