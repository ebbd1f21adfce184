//! The commands of the tool and the job each one asks for.

use vstd::prelude::*;

verus! {

/// What to do with snippets.
#[derive(Debug)]
pub enum SnippetSubcommand {
    /// List the snippets on offer.
    List,
    /// Write the snippet of a resource.
    New { resource: String, name: Option<String> },
}

/// A command as given on the command line.
#[derive(Debug)]
pub enum Commands {
    /// Build a project with the wizard.
    Interactive { suppress_file: bool },
    /// Build a project, or the snippet of a resource, without the wizard.
    New { project_name: String, resource: Option<String> },
    /// Work with snippets.
    Snippet { subcommand: SnippetSubcommand },
    /// Open the configuration editor.
    Config { resource: Option<String> },
}

/// A parsed command line.
#[derive(Debug)]
pub struct Cli {
    pub command: Commands,
}

/// What a command comes down to.
#[derive(Debug)]
pub enum Job {
    /// Run the wizard and generate the project it describes.
    Wizard { suppress_file: bool },
    /// Generate a project with the default record under this name.
    Project { project_name: String },
    /// Write the snippet of a resource under the name of a project.
    ProjectSnippet { project_name: String, resource: String },
    /// Write the snippet of a resource under a name, if one is given.
    Snippet { name: Option<String>, resource: String },
    /// Print the list of snippets.
    SnippetList,
    /// Turn down a snippet that names no resource.
    MissingResource,
    /// Open the configuration editor.
    Editor { subject: Option<String> },
}

impl Cli {
    pub fn new(command: Commands) -> (cli: Cli)
        ensures
            cli.command == command,
    {
        Cli { command }
    }

    /// The job that the command line asks for.
    pub fn plan(self) -> (job: Job)
        ensures
            job == spec_plan(self.command),
    {
        plan(self.command)
    }
}

/// The job of a command. `New` with a resource writes that resource's
/// snippet under the project's name, and without one generates the
/// project. A new snippet must name its resource.
pub open spec fn spec_plan(command: Commands) -> Job {
    match command {
        Commands::Interactive { suppress_file } => Job::Wizard { suppress_file },
        Commands::New { project_name, resource: Some(resource) } => Job::ProjectSnippet {
            project_name,
            resource,
        },
        Commands::New { project_name, resource: None } => Job::Project { project_name },
        Commands::Snippet { subcommand: SnippetSubcommand::List } => Job::SnippetList,
        Commands::Snippet { subcommand: SnippetSubcommand::New { resource, name } } => {
            if resource@.len() > 0 {
                Job::Snippet { name, resource }
            } else {
                Job::MissingResource
            }
        },
        Commands::Config { resource } => Job::Editor { subject: resource },
    }
}

/// Works out the job of a command.
pub fn plan(command: Commands) -> (job: Job)
    ensures
        job == spec_plan(command),
{
    match command {
        Commands::Interactive { suppress_file } => Job::Wizard { suppress_file },
        Commands::New { project_name, resource } => match resource {
            Some(resource) => Job::ProjectSnippet { project_name, resource },
            None => Job::Project { project_name },
        },
        Commands::Snippet { subcommand } => match subcommand {
            SnippetSubcommand::List => Job::SnippetList,
            SnippetSubcommand::New { resource, name } => {
                if !resource.as_str().is_empty() {
                    Job::Snippet { name, resource }
                } else {
                    Job::MissingResource
                }
            },
        },
        Commands::Config { resource } => Job::Editor { subject: resource },
    }
}

} // verus!
