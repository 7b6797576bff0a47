use vstd::prelude::*;

verus! {

/// The parsed command line; the argument parser in the embedding
/// program maps its syntax onto this grammar.
#[derive(Debug, Clone, PartialEq)]
pub struct Cli {
    pub command: Commands,
}

/// The subcommands of the assistant.
#[derive(Debug, Clone, PartialEq)]
pub enum Commands {
    /// Manage authentication.
    Auth { subcommand: AuthCommands },
    /// Create or manage issues from a natural-language description.
    Issue { description: String },
    /// Summarize an existing issue.
    Summarize { issue_id: String },
    /// Suggest an assignee for an issue.
    Suggest { issue_id: String },
    /// Check one user's workload.
    Workload { username: String },
    /// Query issues using natural language, optionally against a
    /// specific project.
    Query { question: String, project: Option<String> },
    /// Start interactive mode.
    Interactive,
    /// Project management commands.
    Project { subcommand: ProjectCommands },
}

/// The authentication subcommands.
#[derive(Debug, Clone, PartialEq)]
pub enum AuthCommands {
    Login,
    Status,
    Logout,
}

/// The project-management subcommands.
#[derive(Debug, Clone, PartialEq)]
pub enum ProjectCommands {
    /// List available projects, optionally searching by name or
    /// restricting to owned ones.
    List { search: Option<String>, mine: bool },
    /// Set the default project.
    SetDefault { project_id: String },
    /// Show the current default project.
    Current,
    /// Update the cached project context.
    UpdateContext,
}

} // verus!
