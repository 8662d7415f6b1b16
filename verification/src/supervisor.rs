//! Process supervision: how the backend server is launched, and the record
//! of its process handle between launch and application exit.
//!
//! Launching and terminating processes is the caller's business. This module
//! says with which configuration to launch, and keeps the one handle.

use vstd::prelude::*;
use vstd::string::*;
use crate::layout::server_port_text;
use crate::layout::SERVER_HOST;

verus! {

/// Name of the environment variable that carries the listening port.
pub const PORT_VARIABLE: &'static str = "PORT";

/// Name of the environment variable that carries the bind host.
pub const HOST_VARIABLE: &'static str = "HOSTNAME";

/// Name of the environment variable that marks the runtime environment.
pub const MODE_VARIABLE: &'static str = "NODE_ENV";

/// The runtime environment marker.
pub const MODE_VALUE: &'static str = "production";

/// What becomes of one of the child's output streams.
#[derive(Clone, Copy, PartialEq, Eq, Debug, Structural)]
pub enum StreamMode {
    /// The stream is discarded.
    Discard,
    /// The stream is captured through a pipe.
    Capture,
}

/// One environment variable for the child.
pub struct EnvVar {
    pub name: String,
    pub value: String,
}

/// Everything needed to launch the backend server.
pub struct SpawnPlan {
    /// The runtime executable.
    pub program: String,
    /// Its one argument: the server's entry point.
    pub argument: String,
    /// Variables added to the child's environment, in this order.
    pub env: Vec<EnvVar>,
    /// The child's working directory.
    pub working_dir: String,
    /// The child's standard output.
    pub stdout: StreamMode,
    /// The child's standard error.
    pub stderr: StreamMode,
}

/// Whether `plan` launches `runtime` on `entry_point` in `server_dir` with
/// the fixed port, host and environment marker, standard output discarded
/// and standard error captured.
pub open spec fn is_server_launch(
    plan: SpawnPlan,
    runtime: Seq<char>,
    server_dir: Seq<char>,
    entry_point: Seq<char>,
) -> bool {
    &&& plan.program@ == runtime
    &&& plan.argument@ == entry_point
    &&& plan.working_dir@ == server_dir
    &&& plan.env@.len() == 3
    &&& plan.env@[0].name@ == PORT_VARIABLE@
    &&& plan.env@[0].value@ == "13210"@
    &&& plan.env@[1].name@ == HOST_VARIABLE@
    &&& plan.env@[1].value@ == SERVER_HOST@
    &&& plan.env@[2].name@ == MODE_VARIABLE@
    &&& plan.env@[2].value@ == MODE_VALUE@
    &&& plan.stdout == StreamMode::Discard
    &&& plan.stderr == StreamMode::Capture
}

/// The launch of the backend server: `runtime` run on `entry_point` with
/// `server_dir` as working directory.
pub fn spawn_plan(runtime: String, server_dir: String, entry_point: String) -> (plan: SpawnPlan)
    ensures
        is_server_launch(plan, runtime@, server_dir@, entry_point@),
{
    let mut env: Vec<EnvVar> = Vec::new();
    env.push(EnvVar { name: String::from_str(PORT_VARIABLE), value: server_port_text() });
    env.push(
        EnvVar { name: String::from_str(HOST_VARIABLE), value: String::from_str(SERVER_HOST) },
    );
    env.push(EnvVar { name: String::from_str(MODE_VARIABLE), value: String::from_str(MODE_VALUE) });
    SpawnPlan {
        program: runtime,
        argument: entry_point,
        env,
        working_dir: server_dir,
        stdout: StreamMode::Discard,
        stderr: StreamMode::Capture,
    }
}

/// The record of the backend server's process: at most one handle of type
/// `H`, set when the server is launched and taken when the application
/// exits. The caller shares it between the launching thread and the exit
/// handler behind a lock, held only for the one call.
pub struct ServerState<H> {
    child: Option<H>,
}

impl<H> ServerState<H> {
    /// The handle on record, if any.
    pub closed spec fn held(self) -> Option<H> {
        self.child
    }

    /// The state left behind by an application exit, and the handle to
    /// terminate.
    pub closed spec fn exit(self) -> (ServerState<H>, Option<H>) {
        (ServerState { child: None }, self.child)
    }

    /// A record without a handle.
    pub fn new() -> (state: Self)
        ensures
            state.held() is None,
    {
        ServerState { child: None }
    }

    /// Whether a handle is on record.
    pub fn is_tracking(&self) -> (b: bool)
        ensures
            b == self.held() is Some,
    {
        self.child.is_some()
    }

    /// Puts `handle` on record after a successful launch and returns the
    /// handle that it replaces (there should be none).
    pub fn track(&mut self, handle: H) -> (previous: Option<H>)
        ensures
            final(self).held() == Some(handle),
            previous == old(self).held(),
    {
        let previous = self.child.take();
        self.child = Some(handle);
        previous
    }

    /// Handles the application's exit: takes the handle off the record and
    /// returns it for the caller to terminate. Without a handle on record
    /// nothing changes and nothing is returned.
    pub fn take_for_exit(&mut self) -> (handle: Option<H>)
        ensures
            (*final(self), handle) == old(self).exit(),
            handle == old(self).held(),
            final(self).held() is None,
    {
        self.child.take()
    }
}

/// An exit hands out the handle on record exactly once: the first exit
/// returns it and leaves none behind, and an exit without a handle on record
/// returns nothing and changes nothing.
pub proof fn lemma_exit_terminates_once<H>(state: ServerState<H>)
    ensures
        state.exit().1 == state.held(),
        state.exit().0.held() is None,
        state.exit().0.exit().1 is None,
        state.held() is None ==> state.exit() == (state, None::<H>),
{
}

} // verus!
