//! The values that are fixed when the helper is spawned, and the spawn
//! request that is made of them.

use vstd::prelude::*;

verus! {

/// The port on which the helper listens.
pub const BACKEND_PORT: &'static str = "3001";

/// The name under which the host resolves the helper's executable.
pub const BACKEND_SIDECAR_NAME: &'static str = "verse-backend";

/// The environment variable that tells the helper its port.
pub const PORT_VARIABLE: &'static str = "PORT";

/// The environment variable that tells the helper its data directory.
pub const PROJECTS_DIR_VARIABLE: &'static str = "VERSE_PROJECTS_DIR";

/// The name of the helper's data directory below the application's own.
pub const PROJECTS_DIR_NAME: &'static str = "projects";

/// What the supervisor needs to know to spawn the helper.
#[derive(Debug, PartialEq, Eq)]
pub struct SupervisorConfig {
    /// The name under which the host resolves the helper's executable.
    pub sidecar: String,
    /// The port on which the helper is to listen.
    pub port: String,
    /// The helper's data directory: the directory named
    /// [`PROJECTS_DIR_NAME`] below the application's data directory.
    pub projects_dir: String,
}

/// A configuration as a plain value.
pub struct SupervisorConfigView {
    pub sidecar: Seq<char>,
    pub port: Seq<char>,
    pub projects_dir: Seq<char>,
}

impl View for SupervisorConfig {
    type V = SupervisorConfigView;

    open spec fn view(&self) -> SupervisorConfigView {
        SupervisorConfigView {
            sidecar: self.sidecar@,
            port: self.port@,
            projects_dir: self.projects_dir@,
        }
    }
}

/// A request to spawn the helper: the program to resolve and the
/// environment variables to add, in the order in which they are set.
#[derive(Debug, PartialEq, Eq)]
pub struct SpawnRequest {
    pub program: String,
    pub environment: Vec<(String, String)>,
}

/// A spawn request as a plain value.
pub struct SpawnRequestView {
    pub program: Seq<char>,
    pub environment: Seq<(Seq<char>, Seq<char>)>,
}

impl View for SpawnRequest {
    type V = SpawnRequestView;

    open spec fn view(&self) -> SpawnRequestView {
        SpawnRequestView {
            program: self.program@,
            environment: self.environment.deep_view(),
        }
    }
}

/// The environment that a helper configured by `config` is started with:
/// its port, then its data directory.
pub open spec fn environment_of(config: SupervisorConfigView) -> Seq<(Seq<char>, Seq<char>)> {
    seq![(PORT_VARIABLE@, config.port), (PROJECTS_DIR_VARIABLE@, config.projects_dir)]
}

/// The spawn request for a helper configured by `config`.
pub open spec fn spawn_request_of(config: SupervisorConfigView) -> SpawnRequestView {
    SpawnRequestView { program: config.sidecar, environment: environment_of(config) }
}

impl SupervisorConfig {
    /// The configuration of the backend helper, with the given data
    /// directory.
    pub fn new(projects_dir: String) -> (config: Self)
        ensures
            config@ == (SupervisorConfigView {
                sidecar: BACKEND_SIDECAR_NAME@,
                port: BACKEND_PORT@,
                projects_dir: projects_dir@,
            }),
    {
        SupervisorConfig {
            sidecar: BACKEND_SIDECAR_NAME.to_owned(),
            port: BACKEND_PORT.to_owned(),
            projects_dir,
        }
    }

    /// The environment variables that the helper is started with.
    pub fn environment(&self) -> (environment: Vec<(String, String)>)
        ensures
            environment.deep_view() == environment_of(self@),
    {
        let mut environment: Vec<(String, String)> = Vec::new();
        environment.push((PORT_VARIABLE.to_owned(), self.port.clone()));
        environment.push((PROJECTS_DIR_VARIABLE.to_owned(), self.projects_dir.clone()));
        assert(environment.deep_view() =~= environment_of(self@));
        environment
    }

    /// The request to spawn the helper.
    pub fn spawn_request(&self) -> (request: SpawnRequest)
        ensures
            request@ == spawn_request_of(self@),
    {
        SpawnRequest { program: self.sidecar.clone(), environment: self.environment() }
    }
}

} // verus!
