use vstd::prelude::*;

verus! {

/// An invocation of the command line, as parsed.
#[derive(Debug, Clone)]
pub struct Cli {
    /// The service to run the command in; the project's first service when
    /// absent.
    pub service: Option<String>,
    pub offline: Option<bool>,
    pub command: Option<Commands>,
    /// Words after the options when no subcommand is given: a command to run
    /// in the service.
    pub exec_command: Vec<String>,
}

/// The operations that the command line offers.
#[derive(Debug, Clone, PartialEq, Eq)]
pub enum Commands {
    Init,
    Start,
    Stop { remove_data: bool },
    Restart,
    Poweroff,
    Exec { service: Option<String>, user: Option<String>, command: Vec<String> },
    Run { command: Vec<String> },
    Shell,
    Launch,
    Status,
    GlobalStatus,
}

impl Commands {
    /// Whether the operation is purely local: it needs no container backend.
    pub open spec fn is_offline(&self) -> bool {
        self is Init || self is Launch
    }

    pub fn requires_docker(&self) -> (r: bool)
        ensures
            r == !self.is_offline(),
    {
        match self {
            Commands::Init | Commands::Launch => false,
            _ => true,
        }
    }
}

/// What an invocation asks for.
#[derive(Debug, Clone)]
pub enum Operation {
    /// Run `command` (a shell when it is empty) in `service` (the project's
    /// first service when absent).
    Exec { service: Option<String>, user: Option<String>, command: Vec<String> },
    /// Neither a subcommand nor words to run: show the usage.
    ShowHelp,
    /// A subcommand that is not available yet.
    NotImplemented(Commands),
}

impl Cli {
    /// The operation that this invocation asks for. Words given without a
    /// subcommand are run in the selected service.
    pub fn operation(self) -> (r: Operation)
        ensures
            match self.command {
                None => if self.exec_command@.len() == 0 {
                    r is ShowHelp
                } else {
                    r == (Operation::Exec {
                        service: self.service,
                        user: None,
                        command: self.exec_command,
                    })
                },
                Some(Commands::Exec { service, user, command }) => r == (Operation::Exec {
                    service,
                    user,
                    command,
                }),
                Some(c) => r == Operation::NotImplemented(c),
            },
    {
        match self.command {
            None => {
                if self.exec_command.len() == 0 {
                    Operation::ShowHelp
                } else {
                    Operation::Exec { service: self.service, user: None, command: self.exec_command }
                }
            },
            Some(Commands::Exec { service, user, command }) => Operation::Exec {
                service,
                user,
                command,
            },
            Some(c) => Operation::NotImplemented(c),
        }
    }
}

/// Whether an invocation needs the container backend: a subcommand that is not
/// purely local does, and so do words to run when no subcommand is given.
pub open spec fn docker_required_spec(command: Option<Commands>, exec_command: Seq<String>) -> bool {
    match command {
        Some(c) => !c.is_offline() || exec_command.len() > 0,
        None => exec_command.len() > 0,
    }
}

pub fn is_docker_required(command: &Option<Commands>, exec_command: &Vec<String>) -> (r: bool)
    ensures
        r == docker_required_spec(*command, exec_command@),
{
    let required_by_command = match command {
        Some(c) => c.requires_docker(),
        None => false,
    };
    required_by_command || exec_command.len() > 0
}

} // verus!
