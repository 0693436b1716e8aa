use vstd::prelude::*;

use crate::adapter::{Adapter, AdapterV};
use crate::encoders::{spec_available_encoders, Encoder};
use crate::recorder::{
    spec_adapter0, spec_config_error_message, spec_configure, spec_get_handle, spec_initialize,
    spec_session_error_message, spec_shutdown, spec_start, spec_stop, InpRecorder, RecorderV,
};
use crate::settings::{RecorderSettings, SettingsV};

verus! {

/// One request from the controller to the worker. Each command draws exactly
/// one response, except `Exit`, which ends the worker's command loop.
#[derive(Debug)]
pub enum IpcCommand {
    Init {
        libobs_data_path: Option<String>,
        plugin_bin_path: Option<String>,
        plugin_data_path: Option<String>,
    },
    Configure(RecorderSettings),
    Encoders,
    Adapter,
    StartRecording,
    StopRecording,
    IsRecording,
    Shutdown,
    Exit,
}

/// The mathematical value of an `IpcCommand`.
pub ghost enum CommandV {
    Init {
        libobs_data_path: Option<Seq<char>>,
        plugin_bin_path: Option<Seq<char>>,
        plugin_data_path: Option<Seq<char>>,
    },
    Configure(SettingsV),
    Encoders,
    Adapter,
    StartRecording,
    StopRecording,
    IsRecording,
    Shutdown,
    Exit,
}

impl View for IpcCommand {
    type V = CommandV;

    open spec fn view(&self) -> CommandV {
        match self {
            IpcCommand::Init { libobs_data_path, plugin_bin_path, plugin_data_path } => CommandV::Init {
                libobs_data_path: match libobs_data_path {
                    Some(p) => Some(p@),
                    None => None,
                },
                plugin_bin_path: match plugin_bin_path {
                    Some(p) => Some(p@),
                    None => None,
                },
                plugin_data_path: match plugin_data_path {
                    Some(p) => Some(p@),
                    None => None,
                },
            },
            IpcCommand::Configure(s) => CommandV::Configure(s@),
            IpcCommand::Encoders => CommandV::Encoders,
            IpcCommand::Adapter => CommandV::Adapter,
            IpcCommand::StartRecording => CommandV::StartRecording,
            IpcCommand::StopRecording => CommandV::StopRecording,
            IpcCommand::IsRecording => CommandV::IsRecording,
            IpcCommand::Shutdown => CommandV::Shutdown,
            IpcCommand::Exit => CommandV::Exit,
        }
    }
}

/// One response from the worker to the controller: acceptance, a queried
/// value, or a protocol-level failure with its diagnostic.
#[derive(Debug)]
pub enum IpcResponse {
    Accepted,
    Encoders { available: Vec<Encoder>, selected: Encoder },
    Adapter(Adapter),
    Recording(bool),
    Failure(String),
}

/// The mathematical value of an `IpcResponse`.
pub ghost enum ResponseV {
    Accepted,
    Encoders { available: Seq<Encoder>, selected: Encoder },
    Adapter(AdapterV),
    Recording(bool),
    Failure(Seq<char>),
}

impl View for IpcResponse {
    type V = ResponseV;

    open spec fn view(&self) -> ResponseV {
        match self {
            IpcResponse::Accepted => ResponseV::Accepted,
            IpcResponse::Encoders { available, selected } => ResponseV::Encoders {
                available: available@,
                selected: *selected,
            },
            IpcResponse::Adapter(a) => ResponseV::Adapter(a@),
            IpcResponse::Recording(b) => ResponseV::Recording(*b),
            IpcResponse::Failure(m) => ResponseV::Failure(m@),
        }
    }
}

/// The view of an optional response.
pub open spec fn spec_opt_response(r: Option<IpcResponse>) -> Option<ResponseV> {
    match r {
        Some(resp) => Some(resp@),
        None => None,
    }
}

/// The worker-side endpoint of the control protocol: the dispatch state
/// machine between the commands the controller sends and the one session
/// manager the worker owns. Reading framed commands and writing framed
/// responses is the embedding program's business; this type decides, for
/// each command, the response and the next state.
pub struct IpcLinkSlave {
    pub rec: InpRecorder,
    pub session: bool,
    pub thread: u64,
}

/// The mathematical value of an `IpcLinkSlave`.
#[verifier::ext_equal]
pub ghost struct SlaveV {
    pub rec: RecorderV,
    pub session: bool,
    pub thread: u64,
}

impl View for IpcLinkSlave {
    type V = SlaveV;

    open spec fn view(&self) -> SlaveV {
        SlaveV { rec: self.rec@, session: self.session, thread: self.thread }
    }
}

impl SlaveV {
    /// The slave's invariant: the environment is well formed, the session
    /// flag mirrors the backend's handle count (the worker holds at most one
    /// session), and a held session implies an initialized backend.
    pub open spec fn wf(self) -> bool {
        &&& self.rec.env_wf()
        &&& self.rec.ref_count == (if self.session {
            1u32
        } else {
            0u32
        })
        &&& (self.session ==> self.rec.initialized)
    }
}

/// The diagnostic sent for any session command that arrives before `Init`.
pub open spec fn spec_not_initialized_message() -> Seq<char> {
    "recorder not initialized"@
}

/// The diagnostic sent for an `Exit` that arrives while a session is held.
pub open spec fn spec_exit_refused_message() -> Seq<char> {
    "recorder is not shut down"@
}

/// What dispatching one command does: the worker's next state, and its
/// response — `None` exactly for the `Exit` that ends the command loop.
/// `Init` initializes the backend and acquires the one session handle.
/// Session commands before a successful `Init` are refused. `Shutdown`
/// first stops any active recording and releases the session, then shuts
/// the backend down. `Exit` is refused while the session is held, so a
/// worker never exits with the backend alive.
pub open spec fn spec_handle(pre: SlaveV, cmd: CommandV) -> (SlaveV, Option<ResponseV>) {
    match cmd {
        CommandV::Init { libobs_data_path, plugin_bin_path, plugin_data_path } => {
            let (rec1, r1) = spec_initialize(
                pre.rec,
                pre.thread,
                libobs_data_path,
                plugin_bin_path,
                plugin_data_path,
            );
            match r1 {
                Err(e) => (
                    (SlaveV { rec: rec1, ..pre }),
                    Some(ResponseV::Failure(spec_session_error_message(e))),
                ),
                Ok(()) => {
                    let (rec2, r2) = spec_get_handle(rec1, pre.thread);
                    match r2 {
                        Ok(()) => (
                            (SlaveV { rec: rec2, session: true, ..pre }),
                            Some(ResponseV::Accepted),
                        ),
                        Err(e) => (
                            (SlaveV { rec: rec2, ..pre }),
                            Some(ResponseV::Failure(spec_session_error_message(e))),
                        ),
                    }
                },
            }
        },
        CommandV::Configure(s) => {
            if !pre.session {
                (pre, Some(ResponseV::Failure(spec_not_initialized_message())))
            } else {
                let (rec1, r) = spec_configure(pre.rec, s);
                match r {
                    Ok(()) => ((SlaveV { rec: rec1, ..pre }), Some(ResponseV::Accepted)),
                    Err(e) => (
                        (SlaveV { rec: rec1, ..pre }),
                        Some(ResponseV::Failure(spec_config_error_message(e))),
                    ),
                }
            }
        },
        CommandV::Encoders => {
            if !pre.session {
                (pre, Some(ResponseV::Failure(spec_not_initialized_message())))
            } else {
                (pre, Some(ResponseV::Encoders {
                    available: spec_available_encoders(
                        pre.rec.encoder_ids,
                        spec_adapter0(pre.rec.adapters).adapter_type,
                    ),
                    selected: pre.rec.bound_encoder,
                }))
            }
        },
        CommandV::Adapter => {
            if !pre.session {
                (pre, Some(ResponseV::Failure(spec_not_initialized_message())))
            } else {
                (pre, Some(ResponseV::Adapter(spec_adapter0(pre.rec.adapters))))
            }
        },
        CommandV::StartRecording => {
            if !pre.session {
                (pre, Some(ResponseV::Failure(spec_not_initialized_message())))
            } else {
                let (rec1, r) = spec_start(pre.rec);
                match r {
                    Ok(()) => ((SlaveV { rec: rec1, ..pre }), Some(ResponseV::Accepted)),
                    Err(m) => (
                        (SlaveV { rec: rec1, ..pre }),
                        Some(ResponseV::Failure("failed to start recording: "@ + m)),
                    ),
                }
            }
        },
        CommandV::StopRecording => {
            if !pre.session {
                (pre, Some(ResponseV::Failure(spec_not_initialized_message())))
            } else {
                ((SlaveV { rec: spec_stop(pre.rec).0, ..pre }), Some(ResponseV::Accepted))
            }
        },
        CommandV::IsRecording => {
            if !pre.session {
                (pre, Some(ResponseV::Failure(spec_not_initialized_message())))
            } else {
                (pre, Some(ResponseV::Recording(pre.rec.output_active)))
            }
        },
        CommandV::Shutdown => {
            let rec1 = if pre.session {
                RecorderV {
                    ref_count: (spec_stop(pre.rec).0.ref_count - 1) as u32,
                    ..spec_stop(pre.rec).0
                }
            } else {
                pre.rec
            };
            let (rec2, r) = spec_shutdown(rec1, pre.thread);
            match r {
                Ok(()) => ((SlaveV { rec: rec2, session: false, ..pre }), Some(ResponseV::Accepted)),
                Err(e) => (
                    (SlaveV { rec: rec2, session: false, ..pre }),
                    Some(ResponseV::Failure(spec_session_error_message(e))),
                ),
            }
        },
        CommandV::Exit => {
            if pre.session {
                (pre, Some(ResponseV::Failure(spec_exit_refused_message())))
            } else {
                (pre, None)
            }
        },
    }
}

impl IpcLinkSlave {
    /// A worker endpoint owning the given session manager, pinned to the
    /// worker's one thread.
    pub fn new(rec: InpRecorder, thread: u64) -> (r: IpcLinkSlave)
        requires
            rec@.env_wf(),
            rec@.ref_count == 0,
        ensures
            r@ == (SlaveV { rec: rec@, session: false, thread }),
            r@.wf(),
    {
        IpcLinkSlave { rec, session: false, thread }
    }

    /// Whether the worker currently holds its session.
    pub fn session_held(&self) -> (r: bool)
        ensures
            r == self@.session,
    {
        self.session
    }

    /// Dispatches one command to the session manager and produces its
    /// response; see `spec_handle`. Returns `None` exactly when the command
    /// loop should end. The caller writes the response out and, after
    /// `None`, one final acceptance so a controller waiting on `Exit` is
    /// answered.
    #[verifier::rlimit(80)]
    pub fn handle_command(&mut self, cmd: IpcCommand) -> (r: Option<IpcResponse>)
        requires
            old(self)@.wf(),
        ensures
            (final(self)@, spec_opt_response(r)) == spec_handle(old(self)@, cmd@),
            final(self)@.wf(),
    {
        match cmd {
            IpcCommand::Init { libobs_data_path, plugin_bin_path, plugin_data_path } => {
                let data_path = match &libobs_data_path {
                    Some(p) => Some(p.as_str()),
                    None => None,
                };
                let bin_path = match &plugin_bin_path {
                    Some(p) => Some(p.as_str()),
                    None => None,
                };
                let plugin_path = match &plugin_data_path {
                    Some(p) => Some(p.as_str()),
                    None => None,
                };
                let thread = self.thread;
                if let Err(e) = self.rec.initialize(thread, data_path, bin_path, plugin_path) {
                    return Some(IpcResponse::Failure(e.message().to_owned()));
                }
                match self.rec.get_handle(thread) {
                    Ok(()) => {
                        self.session = true;
                        Some(IpcResponse::Accepted)
                    },
                    Err(e) => Some(IpcResponse::Failure(e.message().to_owned())),
                }
            },
            IpcCommand::Configure(settings) => {
                if !self.session {
                    return Some(IpcResponse::Failure("recorder not initialized".to_owned()));
                }
                match self.rec.configure(&settings) {
                    Ok(()) => Some(IpcResponse::Accepted),
                    Err(e) => Some(IpcResponse::Failure(e.message().to_owned())),
                }
            },
            IpcCommand::Encoders => {
                if !self.session {
                    return Some(IpcResponse::Failure("recorder not initialized".to_owned()));
                }
                Some(IpcResponse::Encoders {
                    available: self.rec.get_available_encoders(),
                    selected: self.rec.selected_encoder(),
                })
            },
            IpcCommand::Adapter => {
                if !self.session {
                    return Some(IpcResponse::Failure("recorder not initialized".to_owned()));
                }
                Some(IpcResponse::Adapter(self.rec.get_adapter_info()))
            },
            IpcCommand::StartRecording => {
                if !self.session {
                    return Some(IpcResponse::Failure("recorder not initialized".to_owned()));
                }
                match self.rec.start_recording() {
                    Ok(()) => Some(IpcResponse::Accepted),
                    Err(e) => {
                        let mut message = "failed to start recording: ".to_owned();
                        message.append(e.as_str());
                        Some(IpcResponse::Failure(message))
                    },
                }
            },
            IpcCommand::StopRecording => {
                if !self.session {
                    return Some(IpcResponse::Failure("recorder not initialized".to_owned()));
                }
                if self.rec.is_recording() {
                    let _polls = self.rec.stop_recording();
                }
                Some(IpcResponse::Accepted)
            },
            IpcCommand::IsRecording => {
                if !self.session {
                    return Some(IpcResponse::Failure("recorder not initialized".to_owned()));
                }
                Some(IpcResponse::Recording(self.rec.is_recording()))
            },
            IpcCommand::Shutdown => {
                if self.session {
                    let _polls = self.rec.stop_recording();
                    self.rec.release_handle();
                    self.session = false;
                }
                let thread = self.thread;
                match self.rec.shutdown(thread) {
                    Ok(()) => Some(IpcResponse::Accepted),
                    Err(e) => Some(IpcResponse::Failure(e.message().to_owned())),
                }
            },
            IpcCommand::Exit => {
                if self.session {
                    Some(IpcResponse::Failure("recorder is not shut down".to_owned()))
                } else {
                    None
                }
            },
        }
    }
}

/// Protocol liveness at teardown: an `Exit` that arrives while the session
/// is held draws a failure response — the worker neither hangs nor exits,
/// and its state is untouched. Only once the session is gone does `Exit`
/// end the command loop.
pub proof fn lemma_exit_refused_while_session_held(pre: SlaveV)
    ensures
        pre.session ==> spec_handle(pre, CommandV::Exit) == (
            pre,
            Some(ResponseV::Failure(spec_exit_refused_message())),
        ),
        !pre.session ==> spec_handle(pre, CommandV::Exit) == (pre, None::<ResponseV>),
{
}

/// The protocol's epilogue: once the session is gone and the backend shut
/// down, the worker accepts nothing more. `Init` is refused because the
/// backend cannot come back, every session command is refused for want of a
/// session, a repeated `Shutdown` is harmlessly accepted, and only `Exit`
/// ends the loop. The worker's state never changes again.
pub proof fn lemma_after_shutdown_only_exit(pre: SlaveV, cmd: CommandV)
    requires
        !pre.session,
        pre.rec.shut_down,
        pre.rec.initialized,
        pre.rec.init_thread == pre.thread,
    ensures
        spec_handle(pre, cmd).0 == pre,
        cmd is Exit ==> spec_handle(pre, cmd).1 is None,
        cmd is Shutdown ==> spec_handle(pre, cmd).1 == Some(ResponseV::Accepted),
        !(cmd is Exit) && !(cmd is Shutdown) ==> (spec_handle(pre, cmd).1 matches Some(r)
            && r is Failure),
{
    assert(spec_handle(pre, cmd).0 =~= pre);
}

/// How the controller went wrong reading a response: the worker rejected
/// the operation with a diagnostic, or it answered with a response of the
/// wrong shape.
#[derive(Debug)]
pub enum MasterError {
    Rejected(String),
    UnexpectedResponse,
}

/// The mathematical value of a `MasterError`.
pub ghost enum MasterErrorV {
    Rejected(Seq<char>),
    UnexpectedResponse,
}

impl View for MasterError {
    type V = MasterErrorV;

    open spec fn view(&self) -> MasterErrorV {
        match self {
            MasterError::Rejected(m) => MasterErrorV::Rejected(m@),
            MasterError::UnexpectedResponse => MasterErrorV::UnexpectedResponse,
        }
    }
}

/// What a controller makes of a response to a command whose answer is plain
/// acceptance.
pub open spec fn spec_expect_ok(resp: ResponseV) -> Result<(), MasterErrorV> {
    match resp {
        ResponseV::Accepted => Ok(()),
        ResponseV::Failure(m) => Err(MasterErrorV::Rejected(m)),
        _ => Err(MasterErrorV::UnexpectedResponse),
    }
}

/// Reads a response to a command whose answer is plain acceptance.
pub fn expect_ok(resp: IpcResponse) -> (r: Result<(), MasterError>)
    ensures
        (match r {
            Ok(()) => Ok(()),
            Err(e) => Err(e@),
        }) == spec_expect_ok(resp@),
{
    match resp {
        IpcResponse::Accepted => Ok(()),
        IpcResponse::Failure(m) => Err(MasterError::Rejected(m)),
        _ => Err(MasterError::UnexpectedResponse),
    }
}

/// What a controller makes of a response to the `Encoders` query.
pub open spec fn spec_expect_encoders(resp: ResponseV) -> Result<
    (Seq<Encoder>, Encoder),
    MasterErrorV,
> {
    match resp {
        ResponseV::Encoders { available, selected } => Ok((available, selected)),
        ResponseV::Failure(m) => Err(MasterErrorV::Rejected(m)),
        _ => Err(MasterErrorV::UnexpectedResponse),
    }
}

/// Reads a response to the `Encoders` query: the available encoders in
/// preference order, and the selected one.
pub fn expect_encoders(resp: IpcResponse) -> (r: Result<(Vec<Encoder>, Encoder), MasterError>)
    ensures
        (match r {
            Ok((a, s)) => Ok((a@, s)),
            Err(e) => Err(e@),
        }) == spec_expect_encoders(resp@),
{
    match resp {
        IpcResponse::Encoders { available, selected } => Ok((available, selected)),
        IpcResponse::Failure(m) => Err(MasterError::Rejected(m)),
        _ => Err(MasterError::UnexpectedResponse),
    }
}

/// What a controller makes of a response to the `Adapter` query.
pub open spec fn spec_expect_adapter(resp: ResponseV) -> Result<AdapterV, MasterErrorV> {
    match resp {
        ResponseV::Adapter(a) => Ok(a),
        ResponseV::Failure(m) => Err(MasterErrorV::Rejected(m)),
        _ => Err(MasterErrorV::UnexpectedResponse),
    }
}

/// Reads a response to the `Adapter` query.
pub fn expect_adapter(resp: IpcResponse) -> (r: Result<Adapter, MasterError>)
    ensures
        (match r {
            Ok(a) => Ok(a@),
            Err(e) => Err(e@),
        }) == spec_expect_adapter(resp@),
{
    match resp {
        IpcResponse::Adapter(a) => Ok(a),
        IpcResponse::Failure(m) => Err(MasterError::Rejected(m)),
        _ => Err(MasterError::UnexpectedResponse),
    }
}

/// What a controller makes of a response to the `IsRecording` query.
pub open spec fn spec_expect_recording(resp: ResponseV) -> Result<bool, MasterErrorV> {
    match resp {
        ResponseV::Recording(b) => Ok(b),
        ResponseV::Failure(m) => Err(MasterErrorV::Rejected(m)),
        _ => Err(MasterErrorV::UnexpectedResponse),
    }
}

/// Reads a response to the `IsRecording` query.
pub fn expect_recording(resp: IpcResponse) -> (r: Result<bool, MasterError>)
    ensures
        (match r {
            Ok(b) => Ok(b),
            Err(e) => Err(e@),
        }) == spec_expect_recording(resp@),
{
    match resp {
        IpcResponse::Recording(b) => Ok(b),
        IpcResponse::Failure(m) => Err(MasterError::Rejected(m)),
        _ => Err(MasterError::UnexpectedResponse),
    }
}

/// How long the teardown waits for the worker process to exit before
/// killing it, in seconds.
pub const TEARDOWN_WAIT_SECS: u32 = 3;

/// The outcome of the bounded wait for the worker process at teardown.
#[derive(Debug, Copy, Clone, PartialEq, Eq, Structural)]
pub enum WaitOutcome {
    /// the worker exited with a success status inside the timeout
    ExitedSuccess,
    /// the worker exited with a failure status
    ExitedFailure,
    /// the worker was still running when the timeout elapsed
    TimedOut,
    /// the wait itself failed
    WaitFailed,
}

/// The commands a controller writes, fire-and-forget and in this order, when
/// it is disposed: stop any recording, release the backend, end the loop.
/// Each step is attempted whether or not the previous one got through.
pub fn teardown_commands() -> (r: Vec<IpcCommand>)
    ensures
        r@.len() == 3,
        r@[0] is StopRecording,
        r@[1] is Shutdown,
        r@[2] is Exit,
{
    let mut commands: Vec<IpcCommand> = Vec::new();
    commands.push(IpcCommand::StopRecording);
    commands.push(IpcCommand::Shutdown);
    commands.push(IpcCommand::Exit);
    commands
}

/// Whether teardown must kill the worker after the bounded wait: on every
/// outcome but a clean, in-time exit.
pub open spec fn spec_must_kill(outcome: WaitOutcome) -> bool {
    !(outcome is ExitedSuccess)
}

/// Decides, from the bounded wait's outcome, whether the worker process must
/// be killed.
pub fn must_kill(outcome: WaitOutcome) -> (r: bool)
    ensures
        r == spec_must_kill(outcome),
{
    match outcome {
        WaitOutcome::ExitedSuccess => false,
        _ => true,
    }
}

/// Teardown guarantee: whatever the bounded wait observes — a clean exit, a
/// failed exit, a worker still running at the timeout, or a failed wait —
/// either the worker has already exited cleanly or the decision is to kill
/// it. On no outcome does the worker outlive the controller.
pub proof fn lemma_teardown_terminates(outcome: WaitOutcome)
    ensures
        outcome is ExitedSuccess || spec_must_kill(outcome),
{
}

} // verus!
