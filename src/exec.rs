use vstd::prelude::*;

use crate::docker_compose::{keys, Config};
use crate::path::opt_view;

verus! {

/// Why no command can be run.
#[derive(Debug, Clone, PartialEq, Eq)]
pub enum DispatchError {
    /// The service asked for is not one of the project's.
    UnknownService(String),
    /// No service was asked for and the project has none.
    NoServices,
}

/// What to start in the service's container.
#[derive(Debug, Clone, PartialEq, Eq)]
pub enum ExecAction {
    /// Run this command line.
    Command(Vec<String>),
    /// Open an interactive shell.
    Shell,
}

/// An interactive execution to hand to the container backend.
#[derive(Debug, Clone, PartialEq, Eq)]
pub struct ExecRequest {
    pub service: String,
    /// Passed on as given; the backend checks it.
    pub user: Option<String>,
    pub action: ExecAction,
}

/// The service that a request resolves to in a project whose services have
/// the names `names`: the one named, if the project has it; else the first
/// one.
pub open spec fn resolve_spec(names: Seq<Seq<char>>, requested: Option<Seq<char>>) -> Option<
    Seq<char>,
> {
    match requested {
        Some(n) => if names.contains(n) {
            Some(n)
        } else {
            None
        },
        None => if names.len() > 0 {
            Some(names[0])
        } else {
            None
        },
    }
}

/// The service to run in: `requested` when the project has it, the first
/// service of the project when nothing is requested.
pub fn resolve_service(config: &Config, requested: Option<String>) -> (r: Result<String, DispatchError>)
    ensures
        r is Ok <==> resolve_spec(keys(config.services_spec()), opt_view(requested)) is Some,
        r is Ok ==> r->Ok_0@ == resolve_spec(keys(config.services_spec()), opt_view(requested))->0,
        requested is Some && r is Err ==> r == Err::<String, DispatchError>(
            DispatchError::UnknownService(requested->0),
        ),
        requested is None && r is Err ==> r == Err::<String, DispatchError>(DispatchError::NoServices),
{
    match requested {
        Some(name) => match config.service_index(&name) {
            Some(i) => {
                assert(keys(config.services_spec())[i as int] == name@);
                Ok(name)
            },
            None => Err(DispatchError::UnknownService(name)),
        },
        None => match config.first_service() {
            Some(first) => {
                assert(keys(config.services_spec())[0] == config.services_spec()[0].0@);
                Ok(first.clone())
            },
            None => Err(DispatchError::NoServices),
        },
    }
}

/// The execution to request for `command` in `service` as `user`: the
/// command line when there is one, else an interactive shell.
pub fn run(config: &Config, service: Option<String>, user: Option<String>, command: Vec<String>) -> (r:
    Result<ExecRequest, DispatchError>)
    ensures
        r is Ok <==> resolve_spec(keys(config.services_spec()), opt_view(service)) is Some,
        r is Ok ==> ({
            let req = r->Ok_0;
            &&& req.service@ == resolve_spec(keys(config.services_spec()), opt_view(service))->0
            &&& req.user == user
            &&& req.action == (if command@.len() == 0 {
                ExecAction::Shell
            } else {
                ExecAction::Command(command)
            })
        }),
        service is Some && r is Err ==> r == Err::<ExecRequest, DispatchError>(
            DispatchError::UnknownService(service->0),
        ),
        service is None && r is Err ==> r == Err::<ExecRequest, DispatchError>(
            DispatchError::NoServices,
        ),
{
    match resolve_service(config, service) {
        Ok(service) => {
            let action = if command.len() == 0 {
                ExecAction::Shell
            } else {
                ExecAction::Command(command)
            };
            Ok(ExecRequest { service, user, action })
        },
        Err(e) => Err(e),
    }
}

} // verus!
