use vstd::prelude::*;

verus! {

/// Loopback address that the backend server binds.
pub const BACKEND_HOST: &'static str = "127.0.0.1";

/// Port that the backend server listens on.
pub const BACKEND_PORT: &'static str = "8000";

/// Working directory used in packaged mode when no application-data
/// directory can be resolved.
pub const FALLBACK_BACKEND_DIR: &'static str = ".";

/// Outcome of a non-blocking liveness probe on a spawned process.
#[derive(Clone, Copy, Debug, PartialEq, Eq, Structural)]
pub enum ExitProbe {
    /// The process has not exited yet.
    StillRunning,
    /// The process has exited.
    Exited,
    /// The probe itself failed.
    Failed,
}

/// Why starting the backend failed.
#[derive(Debug, PartialEq, Eq)]
pub enum StartError {
    /// Development mode: the current directory has no parent to run from.
    NoWorkingDirectory,
    /// The operating system refused to spawn the process; carries its reason.
    SpawnFailure(String),
}

/// Everything needed to spawn the backend server.
#[derive(Debug, PartialEq, Eq)]
pub struct LaunchPlan {
    pub program: &'static str,
    pub args: Vec<&'static str>,
    pub working_dir: String,
}

/// Owner of the handle of the spawned backend process, if there is one.
pub struct BackendProcess<H> {
    handle: Option<H>,
}

impl<H> View for BackendProcess<H> {
    type V = Option<H>;

    closed spec fn view(&self) -> Option<H> {
        self.handle
    }
}

impl<H> BackendProcess<H> {
    /// A supervisor that owns no process yet.
    pub fn new() -> (r: Self)
        ensures
            r@ is None,
    {
        BackendProcess { handle: None }
    }

    /// Borrows the handle, if any, without taking it, so that the process can
    /// be probed.
    pub fn handle_mut(&mut self) -> (r: Option<&mut H>)
        ensures
            match old(self)@ {
                None => r is None && final(self)@ is None,
                Some(h) => r is Some && *r.unwrap() == h && final(self)@ == Some(
                    *final(r.unwrap()),
                ),
            },
    {
        self.handle.as_mut()
    }
}

/// Name of the Python interpreter: one name on Windows, another elsewhere.
pub open spec fn interpreter_for(windows: bool) -> &'static str {
    if windows {
        "python"
    } else {
        "python3"
    }
}

/// Arguments that run the server on the fixed loopback host and port.
pub open spec fn server_args() -> Seq<&'static str> {
    seq!["-m", "uvicorn", "backend.main:app", "--host", BACKEND_HOST, "--port", BACKEND_PORT]
}

/// Directory the backend runs in: the parent of the current directory in
/// development mode, else the application-data directory, or the fallback.
pub open spec fn directory_for(
    development: bool,
    cwd_parent: Option<String>,
    app_data_dir: Option<String>,
) -> Option<Seq<char>> {
    if development {
        match cwd_parent {
            Some(d) => Some(d@),
            None => None,
        }
    } else {
        match app_data_dir {
            Some(d) => Some(d@),
            None => Some(FALLBACK_BACKEND_DIR@),
        }
    }
}

/// The handle held after one start attempt: a spawned process replaces what
/// was held, a failed spawn leaves it as it was.
pub open spec fn after_start<H>(prior: Option<H>, spawned: Result<H, String>) -> Option<H> {
    match spawned {
        Ok(h) => Some(h),
        Err(_) => prior,
    }
}

/// The handle held after a sequence of start attempts, with no stop between.
pub open spec fn after_starts<H>(prior: Option<H>, attempts: Seq<Result<H, String>>) -> Option<H>
    decreases attempts.len(),
{
    if attempts.len() == 0 {
        prior
    } else {
        after_start(after_starts(prior, attempts.drop_last()), attempts.last())
    }
}

/// What a liveness query reports for a held handle and a probe outcome.
pub open spec fn reports_running<H>(held: Option<H>, probe: ExitProbe) -> bool {
    held is Some && probe is StillRunning
}

/// The handle that stop hands over for termination.
pub open spec fn taken_by_stop<H>(held: Option<H>) -> Option<H> {
    held
}

/// What is held after stop.
pub open spec fn after_stop<H>(held: Option<H>) -> Option<H> {
    None
}

/// Picks the interpreter executable for the host's OS family.
pub fn interpreter_command(windows: bool) -> (r: &'static str)
    ensures
        r == interpreter_for(windows),
{
    if windows {
        "python"
    } else {
        "python3"
    }
}

/// The fixed command-line arguments of the server.
pub fn server_arguments() -> (r: Vec<&'static str>)
    ensures
        r@ == server_args(),
{
    let r = vec!["-m", "uvicorn", "backend.main:app", "--host", BACKEND_HOST, "--port", BACKEND_PORT];
    assert(r@ =~= server_args());
    r
}

/// Resolves the backend's working directory.
pub fn backend_directory(
    development: bool,
    cwd_parent: Option<String>,
    app_data_dir: Option<String>,
) -> (r: Result<String, StartError>)
    ensures
        match directory_for(development, cwd_parent, app_data_dir) {
            Some(d) => r is Ok && r.unwrap()@ == d,
            None => r == Err::<String, StartError>(StartError::NoWorkingDirectory),
        },
{
    if development {
        match cwd_parent {
            Some(d) => Ok(d),
            None => Err(StartError::NoWorkingDirectory),
        }
    } else {
        match app_data_dir {
            Some(d) => Ok(d),
            None => Ok(FALLBACK_BACKEND_DIR.to_owned()),
        }
    }
}

/// Resolves interpreter, arguments and working directory of the server.
pub fn launch_plan(
    windows: bool,
    development: bool,
    cwd_parent: Option<String>,
    app_data_dir: Option<String>,
) -> (r: Result<LaunchPlan, StartError>)
    ensures
        match directory_for(development, cwd_parent, app_data_dir) {
            Some(d) => r matches Ok(p) && p.program == interpreter_for(windows) && p.args@
                == server_args() && p.working_dir@ == d,
            None => r matches Err(StartError::NoWorkingDirectory),
        },
{
    match backend_directory(development, cwd_parent, app_data_dir) {
        Ok(dir) => Ok(
            LaunchPlan {
                program: interpreter_command(windows),
                args: server_arguments(),
                working_dir: dir,
            },
        ),
        Err(e) => Err(e),
    }
}

/// Records the outcome of spawning the backend: a spawned process is held
/// from now on; a spawn failure is reported with the OS's reason.
pub fn start_backend_server<H>(backend: &mut BackendProcess<H>, spawned: Result<H, String>) -> (r:
    Result<(), StartError>)
    ensures
        final(backend)@ == after_start(old(backend)@, spawned),
        match spawned {
            Ok(_) => r is Ok,
            Err(reason) => r == Err::<(), StartError>(StartError::SpawnFailure(reason)),
        },
{
    match spawned {
        Ok(h) => {
            backend.handle = Some(h);
            Ok(())
        },
        Err(reason) => Err(StartError::SpawnFailure(reason)),
    }
}

/// Takes the handle out, leaving none; the caller terminates the process it
/// returns. With no handle held this does nothing.
pub fn stop_backend_server<H>(backend: &mut BackendProcess<H>) -> (r: Option<H>)
    ensures
        r == taken_by_stop(old(backend)@),
        final(backend)@ == after_stop(old(backend)@),
{
    backend.handle.take()
}

/// Whether the backend runs: a handle is held and the probe found the
/// process not yet exited. A failed probe counts as not running.
pub fn is_backend_running<H>(backend: &BackendProcess<H>, probe: ExitProbe) -> (r: bool)
    ensures
        r == reports_running(backend@, probe),
{
    match backend.handle {
        Some(_) => match probe {
            ExitProbe::StillRunning => true,
            _ => false,
        },
        None => false,
    }
}

/// After a run of start attempts with no stop between, of which any one
/// spawned a process, a handle is held, and the backend is reported running
/// exactly while the probe finds the process not yet exited.
pub proof fn lemma_running_after_successful_start<H>(
    prior: Option<H>,
    attempts: Seq<Result<H, String>>,
    i: int,
)
    requires
        0 <= i < attempts.len(),
        attempts[i] is Ok,
    ensures
        after_starts(prior, attempts) is Some,
        forall|probe: ExitProbe|
            reports_running(after_starts(prior, attempts), probe) <==> probe is StillRunning,
    decreases attempts.len(),
{
    if i < attempts.len() - 1 {
        assert(attempts.drop_last()[i] == attempts[i]);
        lemma_running_after_successful_start(prior, attempts.drop_last(), i);
    }
}

/// Stopping when no start attempt ever spawned a process hands nothing over
/// for termination and leaves nothing held.
pub proof fn lemma_stop_without_start<H>(attempts: Seq<Result<H, String>>)
    requires
        forall|i: int| 0 <= i < attempts.len() ==> (#[trigger] attempts[i]) is Err,
    ensures
        taken_by_stop(after_starts(None, attempts)) is None,
        after_stop(after_starts(None, attempts)) is None,
    decreases attempts.len(),
{
    if attempts.len() > 0 {
        assert forall|i: int| 0 <= i < attempts.drop_last().len() implies (
        #[trigger] attempts.drop_last()[i]) is Err by {
            assert(attempts.drop_last()[i] == attempts[i]);
        }
        lemma_stop_without_start(attempts.drop_last());
        assert(attempts[attempts.len() - 1] is Err);
    }
}

/// A second stop right after a first one hands nothing over and changes
/// nothing.
pub proof fn lemma_stop_twice<H>(held: Option<H>)
    ensures
        taken_by_stop(after_stop(held)) is None,
        after_stop(after_stop(held)) == after_stop(held),
{
}

} // verus!
