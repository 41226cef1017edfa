use vstd::prelude::*;

verus! {

/// The command line of the service.
pub struct Cli {
    /// What to run; the service where nothing is given.
    pub command: Option<Command>,
    /// Perform a health check and exit.
    pub health_check: bool,
}

/// The subcommands.
pub enum Command {
    /// Run the gametable service.
    Service,
    /// Access various tools.
    Tools { tool: Tool },
}

/// The tools.
pub enum Tool {
    /// Queue a match for one to four players and wait for its result.
    QueueMatch { players: Vec<String> },
}

/// What the process runs.
pub enum RunMode {
    HealthCheck,
    Tools,
    Service,
}

/// What a command line asks the process to run: the health check wherever it
/// is asked for, else the tools where they are named, else the service.
pub fn run_mode(cli: &Cli) -> (r: RunMode)
    ensures
        cli.health_check ==> r is HealthCheck,
        !cli.health_check ==> (r is Tools <==> (cli.command matches Some(Command::Tools { .. }))),
        !cli.health_check ==> (r is Service <==> !(cli.command matches Some(Command::Tools { .. }))),
{
    if cli.health_check {
        RunMode::HealthCheck
    } else {
        match &cli.command {
            Some(Command::Tools { .. }) => RunMode::Tools,
            _ => RunMode::Service,
        }
    }
}

} // verus!
