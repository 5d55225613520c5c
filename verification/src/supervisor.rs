use vstd::prelude::*;
use vstd::string::StringExecFns;
use crate::control::{AlreadyBound, ControlPortSlot, spec_bind};
use crate::decimal::{dec_string, u16_to_string};
use crate::log_sink::{LogSink, StreamTag, evict_push};
use crate::pipe::lossy_decode;
use crate::resolver::{byte_views, first_acceptable, resolve_candidate, trim_spec};

verus! {

/// The one active mode of the supervised backend. Exactly one holds at a
/// time; transitions are driven only by the supervisor's operations and by
/// the watcher that reports a spawned process's exit.
#[derive(Clone, Copy, PartialEq, Eq, Structural, Debug)]
pub enum SupervisorState {
    NotInstalled,
    Installing,
    Stopped,
    Running,
}

/// Why a start request was not carried out.
#[derive(Clone, Copy, PartialEq, Eq, Structural, Debug)]
pub enum StartRefused {
    NotInstalled,
    InstallInProgress,
    AlreadyRunning,
    PortUnbound,
}

/// Why a setup request was not carried out.
#[derive(Clone, Copy, PartialEq, Eq, Structural, Debug)]
pub enum SetupRefused {
    AlreadyInstalled,
    InstallInProgress,
}

/// The child-process invocation the caller is to spawn: the program and its
/// arguments, to be run in the project root with both output pipes captured.
pub struct SetupPlan {
    pub program: String,
    pub args: Vec<String>,
}

/// The supervisor: owns the lifecycle state machine, the once-bound control
/// endpoint, and the start/setup configuration. The caller performs the
/// process and socket work it is handed and reports each outcome back
/// through one of the `mark_*`/`on_*` operations.
pub struct Supervisor {
    pub state: SupervisorState,
    pub control: ControlPortSlot,
    pub has_handle: bool,
    pub python_cmd: String,
    pub webhook_url: String,
    pub webhook_saved: String,
    pub webhook_dirty: bool,
    pub verbose: bool,
}

/// The backend handle (child process and control stream) is held exactly
/// while the backend is `Running`; both are torn down together on the
/// transition to `Stopped`.
pub open spec fn wf(s: Supervisor) -> bool {
    s.state == SupervisorState::Running <==> s.has_handle
}

/// A successful handshake: the backend connected on the control channel, so
/// it is alive and listening; the supervisor takes ownership of the handle
/// and commits the webhook value that was handed to the spawn.
pub open spec fn spec_mark_server_started(s: Supervisor) -> Supervisor {
    Supervisor {
        state: SupervisorState::Running,
        has_handle: true,
        webhook_saved: s.webhook_url,
        ..s
    }
}

/// Teardown of a running backend: the handle is released; a backend that was
/// not running leaves the mode untouched.
pub open spec fn spec_mark_server_stopped(s: Supervisor) -> Supervisor {
    Supervisor {
        state: if s.state == SupervisorState::Running {
            SupervisorState::Stopped
        } else {
            s.state
        },
        has_handle: false,
        ..s
    }
}

/// A stop request: tears the backend down, and asks for the shutdown token
/// to be sent exactly when a backend was running.
pub open spec fn spec_stop(s: Supervisor) -> (Supervisor, bool) {
    (spec_mark_server_stopped(s), s.state == SupervisorState::Running)
}

/// Recording the prerequisite check: meaningful while nothing is running or
/// installing.
pub open spec fn spec_setup_exists(s: Supervisor, present: bool) -> Supervisor {
    match s.state {
        SupervisorState::NotInstalled | SupervisorState::Stopped => Supervisor {
            state: if present {
                SupervisorState::Stopped
            } else {
                SupervisorState::NotInstalled
            },
            ..s
        },
        _ => s,
    }
}

/// A setup request: accepted only while the prerequisites are absent and no
/// installation runs.
pub open spec fn spec_run_setup(s: Supervisor) -> (Supervisor, bool) {
    if s.state == SupervisorState::NotInstalled {
        (Supervisor { state: SupervisorState::Installing, ..s }, true)
    } else {
        (s, false)
    }
}

pub open spec fn spec_on_setup_spawn_failed(s: Supervisor) -> Supervisor {
    if s.state == SupervisorState::Installing {
        Supervisor { state: SupervisorState::NotInstalled, ..s }
    } else {
        s
    }
}

pub open spec fn spec_on_setup_finished(s: Supervisor, success: bool) -> Supervisor {
    if s.state == SupervisorState::Installing {
        Supervisor {
            state: if success {
                SupervisorState::Stopped
            } else {
                SupervisorState::NotInstalled
            },
            ..s
        }
    } else {
        s
    }
}

/// A start request: accepted only from `Stopped` with the control port
/// bound; the webhook-changed flag is consumed by the invocation it decides.
pub open spec fn spec_start(s: Supervisor) -> (Supervisor, bool) {
    if s.state == SupervisorState::Stopped && s.control.bound() is Some {
        (Supervisor { webhook_dirty: false, ..s }, true)
    } else {
        (s, false)
    }
}

pub open spec fn spec_start_refusal(s: Supervisor) -> StartRefused {
    if s.state == SupervisorState::NotInstalled {
        StartRefused::NotInstalled
    } else if s.state == SupervisorState::Installing {
        StartRefused::InstallInProgress
    } else if s.state == SupervisorState::Running {
        StartRefused::AlreadyRunning
    } else {
        StartRefused::PortUnbound
    }
}

/// The argument list of the backend invocation: unbuffered output, the entry
/// script, the verbose flag when enabled, the assigned control port, and the
/// webhook override exactly when it changed since the last run.
pub open spec fn spec_start_args(verbose: bool, port: u16, dirty: bool, url: Seq<char>) -> Seq<
    Seq<char>,
> {
    seq!["-u"@, "main.py"@] + (if verbose {
        seq!["-v"@]
    } else {
        Seq::<Seq<char>>::empty()
    }) + seq!["--control-port"@, dec_string(port as nat)] + (if dirty {
        seq!["--set-webhook"@, url]
    } else {
        Seq::<Seq<char>>::empty()
    })
}

/// The argument list of the installation invocation.
pub open spec fn spec_setup_args(verbose: bool) -> Seq<Seq<char>> {
    seq!["main.py"@, "--setup"@] + (if verbose {
        seq!["-v"@]
    } else {
        Seq::<Seq<char>>::empty()
    })
}

pub open spec fn msg_spawn_failed(reason: Seq<char>) -> Seq<char> {
    "Failed to spawn Python: "@ + reason
}

pub open spec fn msg_setup_spawn_failed(reason: Seq<char>) -> Seq<char> {
    "Failed to launch Python: "@ + reason
}

pub open spec fn msg_setup_started_first() -> Seq<char> {
    "Starting setup..."@
}

pub open spec fn msg_setup_started_second() -> Seq<char> {
    "Please don't close this window."@
}

pub open spec fn msg_setup_finished(success: bool) -> Seq<char> {
    if success {
        "Setup success!"@
    } else {
        "Setup failed."@
    }
}

pub open spec fn msg_exec_setup(cmd: Seq<char>) -> Seq<char> {
    "Executing: "@ + cmd + " main.py --setup"@
}

pub open spec fn msg_python_found(cmd: Seq<char>) -> Seq<char> {
    "Python found: "@ + cmd
}

pub open spec fn msg_no_python() -> Seq<char> {
    "No verified Python path found. Using default."@
}

pub open spec fn msg_child_exit(success: bool) -> Seq<char> {
    if success {
        "Backend exited."@
    } else {
        "Backend exited with an error."@
    }
}

pub open spec fn msg_handshake_failed() -> Seq<char> {
    "Control connection failed; terminating the backend."@
}

/// The interpreter command the resolver settles on: the first usable
/// candidate, decoded; otherwise the launcher when it answered, otherwise
/// the bare default.
pub open spec fn spec_resolved_cmd(
    lines: Seq<Seq<u8>>,
    py_launcher_ok: bool,
) -> Seq<char> {
    match first_acceptable(lines) {
        Option::Some(i) => lossy_decode(trim_spec(lines[i])),
        Option::None => if py_launcher_ok {
            "py"@
        } else {
            "python"@
        },
    }
}

/// `sink` gained exactly the one line `text`, tagged as supervisor output.
pub open spec fn logged_one(a: Seq<crate::log_sink::LogLineModel>, b: Seq<
    crate::log_sink::LogLineModel,
>, cap: nat, text: Seq<char>) -> bool {
    &&& b == evict_push(a, cap, b.last())
    &&& b.last().tag == StreamTag::Info
    &&& b.last().text == text
}

impl Supervisor {
    /// A fresh supervisor: nothing installed, nothing bound, the default
    /// interpreter, no webhook.
    pub fn new() -> (r: Supervisor)
        ensures
            wf(r),
            r.state == SupervisorState::NotInstalled,
            r.control.bound() is None,
            !r.has_handle,
            r.python_cmd@ == "python"@,
            r.webhook_url@ == Seq::<char>::empty(),
            r.webhook_saved@ == Seq::<char>::empty(),
            !r.webhook_dirty,
            !r.verbose,
    {
        Supervisor {
            state: SupervisorState::NotInstalled,
            control: ControlPortSlot::new(),
            has_handle: false,
            python_cmd: String::from_str("python"),
            webhook_url: String::new(),
            webhook_saved: String::new(),
            webhook_dirty: false,
            verbose: false,
        }
    }

    /// Registers the port of the once-bound loopback listener. A second
    /// registration is refused: the control endpoint is a singleton for the
    /// supervisor's lifetime.
    pub fn bind_control_port(&mut self, port: u16) -> (r: Result<u16, AlreadyBound>)
        ensures
            final(self).control.bound() == spec_bind(old(self).control.bound(), port).0,
            r is Ok <==> spec_bind(old(self).control.bound(), port).1,
            r is Ok ==> r.unwrap() == port,
            final(self).state == old(self).state,
            final(self).has_handle == old(self).has_handle,
            final(self).python_cmd == old(self).python_cmd,
            final(self).webhook_url == old(self).webhook_url,
            final(self).webhook_saved == old(self).webhook_saved,
            final(self).webhook_dirty == old(self).webhook_dirty,
            final(self).verbose == old(self).verbose,
    {
        self.control.bind(port)
    }

    /// Records whether the prerequisite directory is present.
    pub fn setup_exists(&mut self, present: bool)
        requires
            wf(*old(self)),
        ensures
            wf(*final(self)),
            *final(self) == spec_setup_exists(*old(self), present),
    {
        match self.state {
            SupervisorState::NotInstalled | SupervisorState::Stopped => {
                self.state = if present {
                    SupervisorState::Stopped
                } else {
                    SupervisorState::NotInstalled
                };
            },
            _ => (),
        }
    }

    /// Settles on an interpreter command from the resolved candidate lines
    /// of the executable search, falling back to the launcher and then to
    /// the bare name; the fallback to the bare name is the one outcome that
    /// warns, and a verbose run reports a found path.
    pub fn detect_and_set_python(
        &mut self,
        sink: &mut LogSink,
        lines: &Vec<Vec<u8>>,
        py_launcher_ok: bool,
    )
        requires
            wf(*old(self)),
            old(sink).wf(),
        ensures
            wf(*final(self)),
            final(sink).wf(),
            final(sink).cap() == old(sink).cap(),
            final(self).state == old(self).state,
            final(self).control == old(self).control,
            final(self).has_handle == old(self).has_handle,
            final(self).webhook_url == old(self).webhook_url,
            final(self).webhook_saved == old(self).webhook_saved,
            final(self).webhook_dirty == old(self).webhook_dirty,
            final(self).verbose == old(self).verbose,
            final(self).python_cmd@ == spec_resolved_cmd(byte_views(lines@), py_launcher_ok),
            ({
                let found = first_acceptable(byte_views(lines@)) is Some;
                if found && old(self).verbose {
                    logged_one(
                        old(sink)@,
                        final(sink)@,
                        old(sink).cap(),
                        msg_python_found(final(self).python_cmd@),
                    )
                } else if !found && !py_launcher_ok {
                    logged_one(old(sink)@, final(sink)@, old(sink).cap(), msg_no_python())
                } else {
                    final(sink)@ == old(sink)@
                }
            }),
    {
        match resolve_candidate(lines) {
            Some(t) => {
                self.python_cmd = crate::pipe::decode_lossy(&t);
                if self.verbose {
                    let mut m = String::from_str("Python found: ");
                    m.append(self.python_cmd.as_str());
                    sink.append_now(StreamTag::Info, m);
                }
            },
            None => {
                if py_launcher_ok {
                    self.python_cmd = String::from_str("py");
                } else {
                    self.python_cmd = String::from_str("python");
                    sink.append_now(
                        StreamTag::Info,
                        String::from_str("No verified Python path found. Using default."),
                    );
                }
            },
        }
    }

    /// Decides a setup request: from `NotInstalled` it switches to
    /// `Installing` and hands back the installation invocation to spawn; any
    /// other mode refuses. A verbose run logs the invocation.
    pub fn run_setup(&mut self, sink: &mut LogSink) -> (r: Result<SetupPlan, SetupRefused>)
        requires
            wf(*old(self)),
            old(sink).wf(),
        ensures
            wf(*final(self)),
            final(sink).wf(),
            final(sink).cap() == old(sink).cap(),
            *final(self) == spec_run_setup(*old(self)).0,
            r is Ok <==> spec_run_setup(*old(self)).1,
            match r {
                Result::Ok(plan) => {
                    &&& plan.program == old(self).python_cmd
                    &&& plan.args@.map_values(|s: String| s@) == spec_setup_args(
                        old(self).verbose,
                    )
                },
                Result::Err(e) => e == (if old(self).state == SupervisorState::Installing {
                    SetupRefused::InstallInProgress
                } else {
                    SetupRefused::AlreadyInstalled
                }),
            },
            if r is Ok && old(self).verbose {
                logged_one(
                    old(sink)@,
                    final(sink)@,
                    old(sink).cap(),
                    msg_exec_setup(old(self).python_cmd@),
                )
            } else {
                final(sink)@ == old(sink)@
            },
    {
        match self.state {
            SupervisorState::NotInstalled => {
                self.state = SupervisorState::Installing;
                let mut args: Vec<String> = Vec::new();
                args.push(String::from_str("main.py"));
                args.push(String::from_str("--setup"));
                if self.verbose {
                    args.push(String::from_str("-v"));
                }
                proof {
                    assert(args@.map_values(|s: String| s@) =~= spec_setup_args(
                        old(self).verbose,
                    ));
                }
                if self.verbose {
                    let mut m = String::from_str("Executing: ");
                    m.append(self.python_cmd.as_str());
                    m.append(" main.py --setup");
                    sink.append_now(StreamTag::Info, m);
                }
                Ok(SetupPlan { program: self.python_cmd.clone(), args })
            },
            SupervisorState::Installing => Err(SetupRefused::InstallInProgress),
            _ => Err(SetupRefused::AlreadyInstalled),
        }
    }

    /// The installation subprocess came up: two fixed notices are logged;
    /// the mode stays as it is.
    pub fn on_setup_spawned(&self, sink: &mut LogSink)
        requires
            old(sink).wf(),
        ensures
            final(sink).wf(),
            final(sink).cap() == old(sink).cap(),
            crate::log_sink::extended_by(
                old(sink)@,
                final(sink)@,
                old(sink).cap(),
                StreamTag::Info,
                seq![msg_setup_started_first(), msg_setup_started_second()],
            ),
    {
        let mut texts: Vec<String> = Vec::new();
        texts.push(String::from_str("Starting setup..."));
        texts.push(String::from_str("Please don't close this window."));
        sink.append_texts(StreamTag::Info, &texts);
        proof {
            assert(texts@.map_values(|s: String| s@) =~= seq![
                msg_setup_started_first(),
                msg_setup_started_second(),
            ]);
        }
    }

    /// The installation subprocess could not be spawned: exactly one error
    /// line carries the reason, and the mode falls back to `NotInstalled`.
    pub fn on_setup_spawn_failed(&mut self, sink: &mut LogSink, reason: &String)
        requires
            wf(*old(self)),
            old(sink).wf(),
        ensures
            wf(*final(self)),
            final(sink).wf(),
            final(sink).cap() == old(sink).cap(),
            *final(self) == spec_on_setup_spawn_failed(*old(self)),
            logged_one(old(sink)@, final(sink)@, old(sink).cap(), msg_setup_spawn_failed(reason@)),
    {
        if let SupervisorState::Installing = self.state {
            self.state = SupervisorState::NotInstalled;
        }
        let mut m = String::from_str("Failed to launch Python: ");
        m.append(reason.as_str());
        sink.append_now(StreamTag::Info, m);
    }

    /// The watcher saw the installation subprocess exit: success settles the
    /// prerequisites and failure discards them, and either way one line says
    /// which; outside an installation this is a no-op.
    pub fn on_setup_finished(&mut self, sink: &mut LogSink, success: bool)
        requires
            wf(*old(self)),
            old(sink).wf(),
        ensures
            wf(*final(self)),
            final(sink).wf(),
            final(sink).cap() == old(sink).cap(),
            *final(self) == spec_on_setup_finished(*old(self), success),
            if old(self).state == SupervisorState::Installing {
                logged_one(old(sink)@, final(sink)@, old(sink).cap(), msg_setup_finished(success))
            } else {
                final(sink)@ == old(sink)@
            },
    {
        if let SupervisorState::Installing = self.state {
            if success {
                self.state = SupervisorState::Stopped;
                sink.append_now(StreamTag::Info, String::from_str("Setup success!"));
            } else {
                self.state = SupervisorState::NotInstalled;
                sink.append_now(StreamTag::Info, String::from_str("Setup failed."));
            }
        }
    }

    /// Decides a start request: accepted only from `Stopped` with the
    /// control port bound. On acceptance it hands back the backend's
    /// argument list — consuming the webhook-changed flag — and the caller
    /// spawns, attaches the pipe monitors, and blocks on the control accept.
    /// The mode is promoted only by `mark_server_started`, after that accept
    /// returns a connection.
    pub fn start(&mut self) -> (r: Result<Vec<String>, StartRefused>)
        requires
            wf(*old(self)),
        ensures
            wf(*final(self)),
            *final(self) == spec_start(*old(self)).0,
            r is Ok <==> spec_start(*old(self)).1,
            match r {
                Result::Ok(args) => args@.map_values(|s: String| s@) == spec_start_args(
                    old(self).verbose,
                    old(self).control.bound().unwrap(),
                    old(self).webhook_dirty,
                    old(self).webhook_url@,
                ),
                Result::Err(e) => e == spec_start_refusal(*old(self)),
            },
    {
        match self.state {
            SupervisorState::NotInstalled => Err(StartRefused::NotInstalled),
            SupervisorState::Installing => Err(StartRefused::InstallInProgress),
            SupervisorState::Running => Err(StartRefused::AlreadyRunning),
            SupervisorState::Stopped => {
                let port = match self.control.get() {
                    Some(p) => p,
                    None => {
                        return Err(StartRefused::PortUnbound);
                    },
                };
                let mut args: Vec<String> = Vec::new();
                args.push(String::from_str("-u"));
                args.push(String::from_str("main.py"));
                if self.verbose {
                    args.push(String::from_str("-v"));
                }
                args.push(String::from_str("--control-port"));
                args.push(u16_to_string(port));
                if self.webhook_dirty {
                    self.webhook_dirty = false;
                    args.push(String::from_str("--set-webhook"));
                    args.push(self.webhook_url.clone());
                }
                proof {
                    assert(args@.map_values(|s: String| s@) =~= spec_start_args(
                        old(self).verbose,
                        old(self).control.bound().unwrap(),
                        old(self).webhook_dirty,
                        old(self).webhook_url@,
                    ));
                }
                Ok(args)
            },
        }
    }

    /// The backend failed to spawn: the attempt is abandoned with exactly
    /// one logged error line carrying the reason, and every part of the
    /// supervisor is left unchanged.
    pub fn on_spawn_failed(&self, sink: &mut LogSink, reason: &String)
        requires
            old(sink).wf(),
        ensures
            final(sink).wf(),
            final(sink).cap() == old(sink).cap(),
            logged_one(old(sink)@, final(sink)@, old(sink).cap(), msg_spawn_failed(reason@)),
    {
        let mut m = String::from_str("Failed to spawn Python: ");
        m.append(reason.as_str());
        sink.append_now(StreamTag::Info, m);
    }

    /// The control accept failed after the spawn: the attempt is abandoned,
    /// the mode stays `Stopped`, one line is logged, and the result directs
    /// the caller to terminate the spawned child so it is never left
    /// unmanaged.
    pub fn on_handshake_failed(&self, sink: &mut LogSink) -> (kill_child: bool)
        requires
            old(sink).wf(),
        ensures
            final(sink).wf(),
            final(sink).cap() == old(sink).cap(),
            kill_child,
            logged_one(old(sink)@, final(sink)@, old(sink).cap(), msg_handshake_failed()),
    {
        sink.append_now(
            StreamTag::Info,
            String::from_str("Control connection failed; terminating the backend."),
        );
        true
    }

    /// The backend connected on the control channel: only now is the mode
    /// promoted to `Running`, the handle owned, and the webhook value
    /// committed as the last one applied.
    pub fn mark_server_started(&mut self)
        requires
            wf(*old(self)),
            old(self).state == SupervisorState::Stopped,
        ensures
            wf(*final(self)),
            *final(self) == spec_mark_server_started(*old(self)),
    {
        self.state = SupervisorState::Running;
        self.has_handle = true;
        self.webhook_saved = self.webhook_url.clone();
    }

    /// Releases the handle and control stream together and records the
    /// backend as stopped.
    pub fn mark_server_stopped(&mut self)
        requires
            wf(*old(self)),
        ensures
            wf(*final(self)),
            *final(self) == spec_mark_server_stopped(*old(self)),
    {
        if let SupervisorState::Running = self.state {
            self.state = SupervisorState::Stopped;
        }
        self.has_handle = false;
    }

    /// A stop request: always lands in a state with no backend handle, and
    /// asks the caller to send the shutdown token exactly when a backend was
    /// running. Stopping an already stopped supervisor is an exact no-op, so
    /// repeated stop requests are idempotent.
    pub fn stop(&mut self) -> (send_shutdown: bool)
        requires
            wf(*old(self)),
        ensures
            wf(*final(self)),
            *final(self) == spec_stop(*old(self)).0,
            send_shutdown == spec_stop(*old(self)).1,
            old(self).state == SupervisorState::Stopped ==> *final(self) == *old(self),
    {
        let was_running = match self.state {
            SupervisorState::Running => true,
            _ => false,
        };
        self.mark_server_stopped();
        was_running
    }

    /// The watcher saw the running backend exit on its own: the supervisor
    /// demotes itself to `Stopped` and logs one line that distinguishes a
    /// clean exit from a failure; when nothing was running (the backend was
    /// already torn down) this is a no-op.
    pub fn on_child_exit(&mut self, sink: &mut LogSink, success: bool)
        requires
            wf(*old(self)),
            old(sink).wf(),
        ensures
            wf(*final(self)),
            final(sink).wf(),
            final(sink).cap() == old(sink).cap(),
            *final(self) == spec_mark_server_stopped(*old(self)),
            if old(self).state == SupervisorState::Running {
                logged_one(old(sink)@, final(sink)@, old(sink).cap(), msg_child_exit(success))
            } else {
                final(sink)@ == old(sink)@
            },
    {
        if let SupervisorState::Running = self.state {
            self.mark_server_stopped();
            if success {
                sink.append_now(StreamTag::Info, String::from_str("Backend exited."));
            } else {
                sink.append_now(
                    StreamTag::Info,
                    String::from_str("Backend exited with an error."),
                );
            }
        }
    }

    /// Adopts the webhook value found in the persisted configuration as both
    /// the current and the last applied one.
    pub fn load_webhook(&mut self, url: String)
        ensures
            final(self).webhook_url == url,
            final(self).webhook_saved == url,
            !final(self).webhook_dirty,
            final(self).state == old(self).state,
            final(self).control == old(self).control,
            final(self).has_handle == old(self).has_handle,
            final(self).python_cmd == old(self).python_cmd,
            final(self).verbose == old(self).verbose,
    {
        self.webhook_saved = url.clone();
        self.webhook_url = url;
        self.webhook_dirty = false;
    }

    /// Edits the webhook value: it is marked changed exactly when it differs
    /// from the last applied one.
    pub fn set_webhook_url(&mut self, url: String)
        ensures
            final(self).webhook_url == url,
            final(self).webhook_dirty == (url@ != old(self).webhook_saved@),
            final(self).webhook_saved == old(self).webhook_saved,
            final(self).state == old(self).state,
            final(self).control == old(self).control,
            final(self).has_handle == old(self).has_handle,
            final(self).python_cmd == old(self).python_cmd,
            final(self).verbose == old(self).verbose,
    {
        self.webhook_dirty = !(url == self.webhook_saved);
        self.webhook_url = url;
    }

    /// Reverts the webhook edit to the last applied value.
    pub fn revert_webhook(&mut self)
        ensures
            final(self).webhook_url == old(self).webhook_saved,
            final(self).webhook_saved == old(self).webhook_saved,
            !final(self).webhook_dirty,
            final(self).state == old(self).state,
            final(self).control == old(self).control,
            final(self).has_handle == old(self).has_handle,
            final(self).python_cmd == old(self).python_cmd,
            final(self).verbose == old(self).verbose,
    {
        self.webhook_url = self.webhook_saved.clone();
        self.webhook_dirty = false;
    }

    pub fn set_verbose(&mut self, v: bool)
        ensures
            final(self).verbose == v,
            final(self).state == old(self).state,
            final(self).control == old(self).control,
            final(self).has_handle == old(self).has_handle,
            final(self).python_cmd == old(self).python_cmd,
            final(self).webhook_url == old(self).webhook_url,
            final(self).webhook_saved == old(self).webhook_saved,
            final(self).webhook_dirty == old(self).webhook_dirty,
    {
        self.verbose = v;
    }

    pub fn is_running(&self) -> (r: bool)
        ensures
            r == (self.state == SupervisorState::Running),
    {
        match self.state {
            SupervisorState::Running => true,
            _ => false,
        }
    }

    pub fn is_installed(&self) -> (r: bool)
        ensures
            r == (self.state == SupervisorState::Stopped || self.state
                == SupervisorState::Running),
    {
        match self.state {
            SupervisorState::Stopped | SupervisorState::Running => true,
            _ => false,
        }
    }

    pub fn is_installing(&self) -> (r: bool)
        ensures
            r == (self.state == SupervisorState::Installing),
    {
        match self.state {
            SupervisorState::Installing => true,
            _ => false,
        }
    }

    pub fn control_port(&self) -> (r: Option<u16>)
        ensures
            r == self.control.bound(),
    {
        self.control.get()
    }
}

/// Law: a start that reaches its handshake followed at once by a stop walks
/// the modes `Stopped -> Running -> Stopped`, and afterwards neither a
/// process handle nor a control stream reference is owned.
pub proof fn lemma_start_stop_round_trip(s: Supervisor)
    requires
        wf(s),
        s.state == SupervisorState::Stopped,
    ensures
        spec_start(s).0.state == SupervisorState::Stopped,
        spec_mark_server_started(spec_start(s).0).state == SupervisorState::Running,
        spec_mark_server_started(spec_start(s).0).has_handle,
        wf(spec_mark_server_started(spec_start(s).0)),
        spec_stop(spec_mark_server_started(spec_start(s).0)).0.state == SupervisorState::Stopped,
        !spec_stop(spec_mark_server_started(spec_start(s).0)).0.has_handle,
        wf(spec_stop(spec_mark_server_started(spec_start(s).0)).0),
        spec_stop(spec_mark_server_started(spec_start(s).0)).1,
{
}

/// Law: stop requests while no backend runs are idempotent no-ops — the
/// supervisor is left exactly as it was, no shutdown send is requested, and
/// a second stop changes nothing either.
pub proof fn lemma_stop_idempotent(s: Supervisor)
    requires
        wf(s),
        s.state == SupervisorState::Stopped,
    ensures
        spec_stop(s).0 == s,
        !spec_stop(s).1,
        spec_stop(spec_stop(s).0).0 == s,
{
}

/// Law: of all the supervisor's transitions, only `mark_server_started` —
/// invoked on an actually accepted control connection — yields `Running`;
/// every other operation leaves a non-running supervisor non-running.
pub proof fn lemma_running_only_via_handshake(s: Supervisor, present: bool, success: bool)
    requires
        s.state != SupervisorState::Running,
    ensures
        spec_start(s).0.state != SupervisorState::Running,
        spec_stop(s).0.state != SupervisorState::Running,
        spec_mark_server_stopped(s).state != SupervisorState::Running,
        spec_setup_exists(s, present).state != SupervisorState::Running,
        spec_run_setup(s).0.state != SupervisorState::Running,
        spec_on_setup_spawn_failed(s).state != SupervisorState::Running,
        spec_on_setup_finished(s, success).state != SupervisorState::Running,
{
}

} // verus!
