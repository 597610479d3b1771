//! The course of one tunnel session: from the probe of the origin to the end of the
//! tunnel process. The application performs the outside work (probes, files,
//! processes, timers) and reports each result; the driver decides what happens next.
use vstd::prelude::*;
use vstd::string::StringExecFns;

use crate::machine_laws::{after_events, all_applied, lemma_after_events_push};
use crate::patterns::regex_accepts;
use crate::services::OriginProbe;
use crate::state::{
    idle_machine, step, CommandError, ErrorModel, EventModel, MachineModel, TransitionEvent,
    TunnelError, TunnelErrorCode, TunnelPhase,
};
use crate::text::{decimal, port_text};
use crate::url_parser::{
    ansi_source, candidate_source, extractor_step, ExtractorModel, PublicUrlExtractor,
};
use crate::tunnel::failure_event;

verus! {

/// What the application reports to the driver.
pub enum SessionInput {
    /// The probe of the origin ended.
    OriginProbed(Result<OriginProbe, CommandError>),
    /// The phase of the tunnel, read after the driver asked for it.
    PhaseObserved(TunnelPhase),
    /// The isolated tunnel configuration was written (its path), or could not be.
    ConfigPrepared(Result<String, CommandError>),
    /// The compatibility route started on the given local port, or could not.
    ProxyStarted(Option<u16>),
    /// Whether the bundled tunnel component was found.
    SidecarFound(bool),
    /// Whether the tunnel process started.
    Spawned(bool),
    /// Under the lock, before the new process is kept: whether the session is still
    /// the active one, and the phase.
    Registration { session_matches: bool, phase: TunnelPhase },
    /// Bytes the tunnel process wrote to its standard output or error.
    Output(Vec<u8>),
    /// A message about the tunnel process.
    ProcessMessage(Vec<u8>),
    /// The tunnel process ended, or its events stopped.
    Terminated,
    /// No public URL came within the startup time.
    TimedOut,
    /// Whether the compatibility route accepted the public URL.
    ProxyConfigured(bool),
    /// A periodic check of the origin: whether it accepted a connection.
    OriginChecked(bool),
}

/// What the driver asks the application to do, in order.
pub enum SessionEffect {
    /// Apply an event to the tunnel machine and publish the snapshot.
    Apply(TransitionEvent),
    /// Record a diagnostic line.
    Diagnostic(String),
    /// Record process output (decoded, redacted).
    RecordOutput(Vec<u8>),
    /// Probe the origin.
    ProbeOrigin,
    /// Read the phase and report it.
    ObservePhase,
    /// Write the isolated tunnel configuration.
    PrepareConfig,
    /// Start the compatibility route in front of the origin.
    StartProxy,
    /// Shut the compatibility route down.
    ShutdownProxy,
    /// Look for the bundled tunnel component.
    FindSidecar,
    /// Start the tunnel process with these arguments.
    Spawn(Vec<String>),
    /// Lock the runtime and report the registration check.
    Register,
    /// Kill the tunnel process that was not kept.
    KillChild,
    /// Keep the process and the route in the runtime.
    KeepResources,
    /// Kill the kept process and shut the kept route down.
    ReleaseResources,
    /// Drop the kept process (it has ended) and shut the kept route down.
    ForgetChildAndShutdownProxy,
    /// Forward the process's output until a public URL, its end, or the startup time.
    AwaitStartupOutput,
    /// Give the public URL to the compatibility route.
    ConfigureProxy(String),
    /// Ask to stop the session after this many minutes, if it is still active.
    ScheduleStop(u16),
    /// Forward the process's output and check the origin periodically.
    Monitor,
    /// The session's course is over.
    Finish,
}

/// Where the session's course stands.
pub enum SessionStage {
    Probing,
    AwaitingStartCheck,
    PreparingConfig,
    StartingProxy { config_path: String },
    AwaitingProxyCheck { config_path: String, proxy_port: u16 },
    LocatingSidecar { config_path: String, proxy_port: u16 },
    Spawning,
    Registering,
    AwaitingUrl,
    AwaitingStopCheck,
    ConfiguringProxy { public_url: String },
    Monitoring { origin_reachable: bool },
    AwaitingExitCheck,
    Finished,
}

/// Drives one session.
pub struct SessionDriver {
    session_id: String,
    port: u16,
    stop_after_minutes: Option<u16>,
    stage: SessionStage,
    extractor: Option<PublicUrlExtractor>,
}

// ---------------------------------------------------------------------------
// Models
// ---------------------------------------------------------------------------

/// The model of an input.
pub ghost enum InputModel {
    OriginProbed(Result<OriginProbe, (Seq<char>, Seq<char>)>),
    PhaseObserved(TunnelPhase),
    ConfigPrepared(Result<Seq<char>, (Seq<char>, Seq<char>)>),
    ProxyStarted(Option<u16>),
    SidecarFound(bool),
    Spawned(bool),
    Registration { session_matches: bool, phase: TunnelPhase },
    Output(Seq<u8>),
    ProcessMessage(Seq<u8>),
    Terminated,
    TimedOut,
    ProxyConfigured(bool),
    OriginChecked(bool),
}

/// The model of an effect.
pub ghost enum EffectModel {
    Apply(EventModel),
    Diagnostic(Seq<char>),
    RecordOutput(Seq<u8>),
    ProbeOrigin,
    ObservePhase,
    PrepareConfig,
    StartProxy,
    ShutdownProxy,
    FindSidecar,
    Spawn(Seq<Seq<char>>),
    Register,
    KillChild,
    KeepResources,
    ReleaseResources,
    ForgetChildAndShutdownProxy,
    AwaitStartupOutput,
    ConfigureProxy(Seq<char>),
    ScheduleStop(u16),
    Monitor,
    Finish,
}

/// The model of a stage.
pub ghost enum StageModel {
    Probing,
    AwaitingStartCheck,
    PreparingConfig,
    StartingProxy { config_path: Seq<char> },
    AwaitingProxyCheck { config_path: Seq<char>, proxy_port: u16 },
    LocatingSidecar { config_path: Seq<char>, proxy_port: u16 },
    Spawning,
    Registering,
    AwaitingUrl,
    AwaitingStopCheck,
    ConfiguringProxy { public_url: Seq<char> },
    Monitoring { origin_reachable: bool },
    AwaitingExitCheck,
    Finished,
}

/// The model of a driver.
pub ghost struct DriverModel {
    pub session_id: Seq<char>,
    pub port: u16,
    pub stop_after_minutes: Option<u16>,
    pub stage: StageModel,
    pub extractor: Option<ExtractorModel>,
}

/// The model of a command error: code and message.
pub open spec fn command_error_model(e: CommandError) -> (Seq<char>, Seq<char>) {
    (e.code@, e.message@)
}

impl View for SessionInput {
    type V = InputModel;

    open spec fn view(&self) -> InputModel {
        match self {
            SessionInput::OriginProbed(r) => InputModel::OriginProbed(
                match r {
                    Ok(p) => Ok(*p),
                    Err(e) => Err(command_error_model(*e)),
                },
            ),
            SessionInput::PhaseObserved(p) => InputModel::PhaseObserved(*p),
            SessionInput::ConfigPrepared(r) => InputModel::ConfigPrepared(
                match r {
                    Ok(p) => Ok(p@),
                    Err(e) => Err(command_error_model(*e)),
                },
            ),
            SessionInput::ProxyStarted(p) => InputModel::ProxyStarted(*p),
            SessionInput::SidecarFound(b) => InputModel::SidecarFound(*b),
            SessionInput::Spawned(b) => InputModel::Spawned(*b),
            SessionInput::Registration { session_matches, phase } => InputModel::Registration {
                session_matches: *session_matches,
                phase: *phase,
            },
            SessionInput::Output(b) => InputModel::Output(b@),
            SessionInput::ProcessMessage(b) => InputModel::ProcessMessage(b@),
            SessionInput::Terminated => InputModel::Terminated,
            SessionInput::TimedOut => InputModel::TimedOut,
            SessionInput::ProxyConfigured(b) => InputModel::ProxyConfigured(*b),
            SessionInput::OriginChecked(b) => InputModel::OriginChecked(*b),
        }
    }
}

impl View for SessionEffect {
    type V = EffectModel;

    open spec fn view(&self) -> EffectModel {
        match self {
            SessionEffect::Apply(e) => EffectModel::Apply(e@),
            SessionEffect::Diagnostic(s) => EffectModel::Diagnostic(s@),
            SessionEffect::RecordOutput(b) => EffectModel::RecordOutput(b@),
            SessionEffect::ProbeOrigin => EffectModel::ProbeOrigin,
            SessionEffect::ObservePhase => EffectModel::ObservePhase,
            SessionEffect::PrepareConfig => EffectModel::PrepareConfig,
            SessionEffect::StartProxy => EffectModel::StartProxy,
            SessionEffect::ShutdownProxy => EffectModel::ShutdownProxy,
            SessionEffect::FindSidecar => EffectModel::FindSidecar,
            SessionEffect::Spawn(args) => EffectModel::Spawn(
                args@.map_values(|s: String| s@),
            ),
            SessionEffect::Register => EffectModel::Register,
            SessionEffect::KillChild => EffectModel::KillChild,
            SessionEffect::KeepResources => EffectModel::KeepResources,
            SessionEffect::ReleaseResources => EffectModel::ReleaseResources,
            SessionEffect::ForgetChildAndShutdownProxy => EffectModel::ForgetChildAndShutdownProxy,
            SessionEffect::AwaitStartupOutput => EffectModel::AwaitStartupOutput,
            SessionEffect::ConfigureProxy(s) => EffectModel::ConfigureProxy(s@),
            SessionEffect::ScheduleStop(m) => EffectModel::ScheduleStop(*m),
            SessionEffect::Monitor => EffectModel::Monitor,
            SessionEffect::Finish => EffectModel::Finish,
        }
    }
}

/// The models of a sequence of effects.
pub open spec fn effects_model(v: Seq<SessionEffect>) -> Seq<EffectModel> {
    v.map_values(|e: SessionEffect| e@)
}

impl View for SessionStage {
    type V = StageModel;

    open spec fn view(&self) -> StageModel {
        match self {
            SessionStage::Probing => StageModel::Probing,
            SessionStage::AwaitingStartCheck => StageModel::AwaitingStartCheck,
            SessionStage::PreparingConfig => StageModel::PreparingConfig,
            SessionStage::StartingProxy { config_path } => StageModel::StartingProxy {
                config_path: config_path@,
            },
            SessionStage::AwaitingProxyCheck { config_path, proxy_port } =>
                StageModel::AwaitingProxyCheck { config_path: config_path@, proxy_port: *proxy_port },
            SessionStage::LocatingSidecar { config_path, proxy_port } =>
                StageModel::LocatingSidecar { config_path: config_path@, proxy_port: *proxy_port },
            SessionStage::Spawning => StageModel::Spawning,
            SessionStage::Registering => StageModel::Registering,
            SessionStage::AwaitingUrl => StageModel::AwaitingUrl,
            SessionStage::AwaitingStopCheck => StageModel::AwaitingStopCheck,
            SessionStage::ConfiguringProxy { public_url } => StageModel::ConfiguringProxy {
                public_url: public_url@,
            },
            SessionStage::Monitoring { origin_reachable } => StageModel::Monitoring {
                origin_reachable: *origin_reachable,
            },
            SessionStage::AwaitingExitCheck => StageModel::AwaitingExitCheck,
            SessionStage::Finished => StageModel::Finished,
        }
    }
}

impl View for SessionDriver {
    type V = DriverModel;

    closed spec fn view(&self) -> DriverModel {
        DriverModel {
            session_id: self.session_id@,
            port: self.port,
            stop_after_minutes: self.stop_after_minutes,
            stage: self.stage@,
            extractor: match self.extractor {
                Some(x) => Some(x@),
                None => None,
            },
        }
    }
}

// ---------------------------------------------------------------------------
// The specification of a session's course
// ---------------------------------------------------------------------------

/// The failure event of the session, with no active exposure.
pub open spec fn failed(
    session_id: Seq<char>,
    code: TunnelErrorCode,
    cause: Seq<char>,
    recovery: Seq<char>,
) -> EffectModel {
    EffectModel::Apply(
        EventModel::Failed {
            session_id,
            error: ErrorModel { code, cause, exposure_active: false, recovery },
        },
    )
}

/// The arguments that start the tunnel process for the compatibility route's port.
pub open spec fn tunnel_arguments(config_path: Seq<char>, proxy_port: u16) -> Seq<Seq<char>> {
    seq![
        "tunnel"@,
        "--config"@,
        config_path,
        "--no-autoupdate"@,
        "--loglevel"@,
        "info"@,
        "--transport-loglevel"@,
        "warn"@,
        "--url"@,
        "http://127.0.0.1:"@ + decimal(proxy_port as nat),
    ]
}

/// The driver with another stage.
pub open spec fn at_stage(d: DriverModel, stage: StageModel) -> DriverModel {
    DriverModel { stage, ..d }
}

/// What one input does: the next driver and the effects, in order. Inputs that do
/// not belong to the current stage change nothing.
pub open spec fn session_step(d: DriverModel, input: InputModel) -> (DriverModel, Seq<EffectModel>) {
    let sid = d.session_id;
    let finished = at_stage(d, StageModel::Finished);
    match (d.stage, input) {
        (StageModel::Probing, InputModel::OriginProbed(Ok(probe))) => (
            at_stage(d, StageModel::AwaitingStartCheck),
            seq![EffectModel::Apply(EventModel::OriginAvailable { session_id: sid })] + (
            if probe.http_responded {
                Seq::empty()
            } else {
                seq![
                    EffectModel::Diagnostic(
                        "The port accepted a connection, but the HTTP probe did not complete."@,
                    ),
                ]
            }) + seq![EffectModel::ObservePhase],
        ),
        (StageModel::Probing, InputModel::OriginProbed(Err(e))) => (
            finished,
            seq![
                failed(
                    sid,
                    TunnelErrorCode::OriginClosed,
                    e.1,
                    "Start the local server, refresh services, then retry."@,
                ),
                EffectModel::Finish,
            ],
        ),
        (StageModel::AwaitingStartCheck, InputModel::PhaseObserved(phase)) => if phase
            == TunnelPhase::Starting {
            (at_stage(d, StageModel::PreparingConfig), seq![EffectModel::PrepareConfig])
        } else {
            (finished, seq![EffectModel::Finish])
        },
        (StageModel::PreparingConfig, InputModel::ConfigPrepared(Ok(path))) => (
            at_stage(d, StageModel::StartingProxy { config_path: path }),
            seq![EffectModel::StartProxy],
        ),
        (StageModel::PreparingConfig, InputModel::ConfigPrepared(Err(e))) => (
            finished,
            seq![
                failed(sid, TunnelErrorCode::QuickTunnelConfigConflict, e.1, "Retry the tunnel."@),
                EffectModel::Finish,
            ],
        ),
        (StageModel::StartingProxy { config_path }, InputModel::ProxyStarted(started)) =>
            match started {
            Some(proxy_port) => (
                at_stage(d, StageModel::AwaitingProxyCheck { config_path, proxy_port }),
                seq![EffectModel::ObservePhase],
            ),
            None => (
                finished,
                seq![
                    failed(
                        sid,
                        TunnelErrorCode::SidecarSpawnFailed,
                        "LocaRay could not start its local compatibility service."@,
                        "Check whether local security software blocked LocaRay, then retry."@,
                    ),
                    EffectModel::Finish,
                ],
            ),
        },
        (
            StageModel::AwaitingProxyCheck { config_path, proxy_port },
            InputModel::PhaseObserved(phase),
        ) => if phase == TunnelPhase::Starting {
            (
                at_stage(d, StageModel::LocatingSidecar { config_path, proxy_port }),
                seq![EffectModel::FindSidecar],
            )
        } else {
            (finished, seq![EffectModel::ShutdownProxy, EffectModel::Finish])
        },
        (
            StageModel::LocatingSidecar { config_path, proxy_port },
            InputModel::SidecarFound(found),
        ) => if found {
            (
                at_stage(d, StageModel::Spawning),
                seq![EffectModel::Spawn(tunnel_arguments(config_path, proxy_port))],
            )
        } else {
            (
                finished,
                seq![
                    EffectModel::ShutdownProxy,
                    failed(
                        sid,
                        TunnelErrorCode::SidecarMissing,
                        "The bundled tunnel component is unavailable."@,
                        "Repair or reinstall LocaRay."@,
                    ),
                    EffectModel::Finish,
                ],
            )
        },
        (StageModel::Spawning, InputModel::Spawned(spawned)) => if spawned {
            (at_stage(d, StageModel::Registering), seq![EffectModel::Register])
        } else {
            (
                finished,
                seq![
                    EffectModel::ShutdownProxy,
                    failed(
                        sid,
                        TunnelErrorCode::SidecarSpawnFailed,
                        "Windows did not allow the tunnel component to start."@,
                        "Open diagnostics, then repair or reinstall LocaRay."@,
                    ),
                    EffectModel::Finish,
                ],
            )
        },
        (StageModel::Registering, InputModel::Registration { session_matches, phase }) => if !session_matches || phase != TunnelPhase::Starting {
            (
                finished,
                seq![EffectModel::KillChild, EffectModel::ShutdownProxy, EffectModel::Finish],
            )
        } else if regex_accepts(ansi_source()) && regex_accepts(candidate_source()) {
            (
                DriverModel {
                    stage: StageModel::AwaitingUrl,
                    extractor: Some(ExtractorModel { accumulator: Seq::empty(), accepted: false }),
                    ..d
                },
                seq![
                    EffectModel::KeepResources,
                    EffectModel::Apply(EventModel::SidecarStarted { session_id: sid }),
                    EffectModel::AwaitStartupOutput,
                ],
            )
        } else {
            (
                finished,
                seq![
                    EffectModel::KeepResources,
                    EffectModel::Apply(EventModel::SidecarStarted { session_id: sid }),
                    EffectModel::ReleaseResources,
                    failed(
                        sid,
                        TunnelErrorCode::PublicUrlInvalid,
                        "Public address validation could not start."@,
                        "Retry the tunnel."@,
                    ),
                    EffectModel::Finish,
                ],
            )
        },
        (StageModel::AwaitingUrl, InputModel::Output(bytes)) => {
            let (x, found) = extractor_step(d.extractor->0, bytes);
            match found {
                Some(url) => (
                    DriverModel {
                        stage: StageModel::ConfiguringProxy { public_url: url },
                        extractor: Some(x),
                        ..d
                    },
                    seq![EffectModel::RecordOutput(bytes), EffectModel::ConfigureProxy(url)],
                ),
                None => (
                    DriverModel { extractor: Some(x), ..d },
                    seq![EffectModel::RecordOutput(bytes)],
                ),
            }
        },
        (StageModel::AwaitingUrl, InputModel::ProcessMessage(bytes)) => (
            d,
            seq![EffectModel::RecordOutput(bytes)],
        ),
        (StageModel::AwaitingUrl, InputModel::Terminated) | (
            StageModel::AwaitingUrl,
            InputModel::TimedOut,
        ) => (
            at_stage(d, StageModel::AwaitingStopCheck),
            seq![EffectModel::ReleaseResources, EffectModel::ObservePhase],
        ),
        (StageModel::AwaitingStopCheck, InputModel::PhaseObserved(phase)) => if phase
            == TunnelPhase::Stopping {
            (
                finished,
                seq![
                    EffectModel::Apply(EventModel::Stopped { session_id: sid }),
                    EffectModel::Finish,
                ],
            )
        } else {
            (
                finished,
                seq![
                    failed(
                        sid,
                        TunnelErrorCode::TunnelTimeout,
                        "Cloudflare did not provide a trusted public address in time."@,
                        "Check the network, open diagnostics, then retry."@,
                    ),
                    EffectModel::Finish,
                ],
            )
        },
        (StageModel::ConfiguringProxy { public_url }, InputModel::ProxyConfigured(configured)) =>
            if configured {
            (
                at_stage(d, StageModel::Monitoring { origin_reachable: true }),
                seq![
                    EffectModel::Apply(
                        EventModel::CandidateFound { session_id: sid, public_url },
                    ),
                    EffectModel::Apply(EventModel::PublicUrlVerified { session_id: sid }),
                ] + (match d.stop_after_minutes {
                    Some(minutes) => seq![EffectModel::ScheduleStop(minutes)],
                    None => Seq::empty(),
                }) + seq![EffectModel::Monitor],
            )
        } else {
            (
                finished,
                seq![
                    EffectModel::ReleaseResources,
                    failed(
                        sid,
                        TunnelErrorCode::PublicUrlInvalid,
                        "LocaRay could not secure the development compatibility route."@,
                        "Retry the tunnel."@,
                    ),
                    EffectModel::Finish,
                ],
            )
        },
        (StageModel::Monitoring { .. }, InputModel::Output(bytes)) => (
            d,
            seq![EffectModel::RecordOutput(bytes)],
        ),
        (StageModel::Monitoring { .. }, InputModel::ProcessMessage(bytes)) => (
            d,
            seq![EffectModel::RecordOutput(bytes)],
        ),
        (StageModel::Monitoring { origin_reachable }, InputModel::OriginChecked(reachable)) =>
            if reachable == origin_reachable {
            (d, Seq::empty())
        } else {
            (
                at_stage(d, StageModel::Monitoring { origin_reachable: reachable }),
                seq![
                    EffectModel::Apply(
                        if reachable {
                            EventModel::ConnectionRestored { session_id: sid }
                        } else {
                            EventModel::ConnectionLost { session_id: sid }
                        },
                    ),
                ],
            )
        },
        (StageModel::Monitoring { .. }, InputModel::Terminated) => (
            at_stage(d, StageModel::AwaitingExitCheck),
            seq![EffectModel::ObservePhase],
        ),
        (StageModel::AwaitingExitCheck, InputModel::PhaseObserved(phase)) => (
            finished,
            seq![
                EffectModel::ForgetChildAndShutdownProxy,
                EffectModel::Apply(
                    if phase == TunnelPhase::Stopping {
                        EventModel::Stopped { session_id: sid }
                    } else {
                        EventModel::ChildExited {
                            session_id: sid,
                            error: ErrorModel {
                                code: TunnelErrorCode::ChildExited,
                                cause: "The tunnel process ended unexpectedly."@,
                                exposure_active: false,
                                recovery: "Retry the tunnel."@,
                            },
                        }
                    },
                ),
                EffectModel::Finish,
            ],
        ),
        _ => (d, Seq::empty()),
    }
}

// ---------------------------------------------------------------------------
// Executable code
// ---------------------------------------------------------------------------

/// The effects of a vector, by their models.
pub open spec fn effects_of(v: Vec<SessionEffect>) -> Seq<EffectModel> {
    effects_model(v@)
}

/// The tunnel arguments for the compatibility route's port.
fn tunnel_args(config_path: &String, proxy_port: u16) -> (r: Vec<String>)
    ensures
        r@.map_values(|s: String| s@) == tunnel_arguments(config_path@, proxy_port),
{
    let mut url = "http://127.0.0.1:".to_owned();
    let digits = port_text(proxy_port);
    url.append(digits.as_str());
    let mut r: Vec<String> = Vec::new();
    r.push("tunnel".to_owned());
    r.push("--config".to_owned());
    r.push(config_path.clone());
    r.push("--no-autoupdate".to_owned());
    r.push("--loglevel".to_owned());
    r.push("info".to_owned());
    r.push("--transport-loglevel".to_owned());
    r.push("warn".to_owned());
    r.push("--url".to_owned());
    r.push(url);
    assert(r@.map_values(|s: String| s@) =~= tunnel_arguments(config_path@, proxy_port));
    r
}

impl SessionDriver {
    /// The driver's well-formedness: while it waits for the public URL it holds a
    /// well-formed extractor.
    pub closed spec fn wf(&self) -> bool {
        self.stage@ == StageModel::AwaitingUrl ==> (self.extractor is Some
            && self.extractor->0.wf())
    }

    /// The course of a new session; it begins with a probe of the origin.
    pub fn start(session_id: String, port: u16, stop_after_minutes: Option<u16>) -> (r: (
        SessionDriver,
        Vec<SessionEffect>,
    ))
        ensures
            r.0.wf(),
            r.0@ == (DriverModel {
                session_id: session_id@,
                port,
                stop_after_minutes,
                stage: StageModel::Probing,
                extractor: None,
            }),
            effects_of(r.1) == seq![EffectModel::ProbeOrigin],
    {
        let mut effects: Vec<SessionEffect> = Vec::new();
        effects.push(SessionEffect::ProbeOrigin);
        assert(effects_of(effects) =~= seq![EffectModel::ProbeOrigin]);
        (
            SessionDriver {
                session_id,
                port,
                stop_after_minutes,
                stage: SessionStage::Probing,
                extractor: None,
            },
            effects,
        )
    }

    /// The session this driver runs.
    pub fn session_id(&self) -> (r: &String)
        ensures
            r@ == self@.session_id,
    {
        &self.session_id
    }

    /// The port of the origin.
    pub fn port(&self) -> (r: u16)
        ensures
            r == self@.port,
    {
        self.port
    }

    /// Whether the session's course is over.
    pub fn is_finished(&self) -> (r: bool)
        ensures
            r == (self@.stage == StageModel::Finished),
    {
        match self.stage {
            SessionStage::Finished => true,
            _ => false,
        }
    }

    /// The failure of this session, with no active exposure.
    fn fail(&self, code: TunnelErrorCode, cause: &str, recovery: &str) -> (r: SessionEffect)
        ensures
            r@ == failed(self@.session_id, code, cause@, recovery@),
    {
        SessionEffect::Apply(failure_event(&self.session_id, code, cause, recovery, false))
    }

    /// Handles one input: `(final(self)@, effects)` is `session_step(old(self)@, input@)`.
    pub fn step(&mut self, input: SessionInput) -> (r: Vec<SessionEffect>)
        requires
            old(self).wf(),
        ensures
            final(self).wf(),
            (final(self)@, effects_of(r)) == session_step(old(self)@, input@),
    {
        let mut effects: Vec<SessionEffect> = Vec::new();
        let ghost d = self@;
        let sid = self.session_id.clone();
        match input {
            SessionInput::OriginProbed(result) => {
                if let SessionStage::Probing = self.stage {
                    match result {
                        Ok(probe) => {
                            effects.push(SessionEffect::Apply(TransitionEvent::OriginAvailable { session_id: sid }));
                            if !probe.http_responded {
                                effects.push(SessionEffect::Diagnostic(
                                    "The port accepted a connection, but the HTTP probe did not complete.".to_owned(),
                                ));
                            }
                            effects.push(SessionEffect::ObservePhase);
                            self.stage = SessionStage::AwaitingStartCheck;
                        },
                        Err(error) => {
                            effects.push(self.fail(
                                TunnelErrorCode::OriginClosed,
                                error.message.as_str(),
                                "Start the local server, refresh services, then retry.",
                            ));
                            effects.push(SessionEffect::Finish);
                            self.stage = SessionStage::Finished;
                        },
                    }
                }
            },
            SessionInput::PhaseObserved(phase) => {
                match &self.stage {
                    SessionStage::AwaitingStartCheck => {
                        if phase == TunnelPhase::Starting {
                            effects.push(SessionEffect::PrepareConfig);
                            self.stage = SessionStage::PreparingConfig;
                        } else {
                            effects.push(SessionEffect::Finish);
                            self.stage = SessionStage::Finished;
                        }
                    },
                    SessionStage::AwaitingProxyCheck { config_path, proxy_port } => {
                        if phase == TunnelPhase::Starting {
                            let config_path = config_path.clone();
                            let proxy_port = *proxy_port;
                            effects.push(SessionEffect::FindSidecar);
                            self.stage = SessionStage::LocatingSidecar { config_path, proxy_port };
                        } else {
                            effects.push(SessionEffect::ShutdownProxy);
                            effects.push(SessionEffect::Finish);
                            self.stage = SessionStage::Finished;
                        }
                    },
                    SessionStage::AwaitingStopCheck => {
                        if phase == TunnelPhase::Stopping {
                            effects.push(SessionEffect::Apply(TransitionEvent::Stopped { session_id: sid }));
                        } else {
                            effects.push(self.fail(
                                TunnelErrorCode::TunnelTimeout,
                                "Cloudflare did not provide a trusted public address in time.",
                                "Check the network, open diagnostics, then retry.",
                            ));
                        }
                        effects.push(SessionEffect::Finish);
                        self.stage = SessionStage::Finished;
                    },
                    SessionStage::AwaitingExitCheck => {
                        effects.push(SessionEffect::ForgetChildAndShutdownProxy);
                        if phase == TunnelPhase::Stopping {
                            effects.push(SessionEffect::Apply(TransitionEvent::Stopped { session_id: sid }));
                        } else {
                            effects.push(SessionEffect::Apply(TransitionEvent::ChildExited {
                                session_id: sid,
                                error: TunnelError {
                                    code: TunnelErrorCode::ChildExited,
                                    cause: "The tunnel process ended unexpectedly.".to_owned(),
                                    exposure_active: false,
                                    recovery: "Retry the tunnel.".to_owned(),
                                },
                            }));
                        }
                        effects.push(SessionEffect::Finish);
                        self.stage = SessionStage::Finished;
                    },
                    _ => {},
                }
            },
            SessionInput::ConfigPrepared(result) => {
                if let SessionStage::PreparingConfig = self.stage {
                    match result {
                        Ok(path) => {
                            effects.push(SessionEffect::StartProxy);
                            self.stage = SessionStage::StartingProxy { config_path: path };
                        },
                        Err(error) => {
                            effects.push(self.fail(
                                TunnelErrorCode::QuickTunnelConfigConflict,
                                error.message.as_str(),
                                "Retry the tunnel.",
                            ));
                            effects.push(SessionEffect::Finish);
                            self.stage = SessionStage::Finished;
                        },
                    }
                }
            },
            SessionInput::ProxyStarted(started) => {
                if let SessionStage::StartingProxy { config_path } = &self.stage {
                    match started {
                        Some(proxy_port) => {
                            let config_path = config_path.clone();
                            effects.push(SessionEffect::ObservePhase);
                            self.stage = SessionStage::AwaitingProxyCheck { config_path, proxy_port };
                        },
                        None => {
                            effects.push(self.fail(
                                TunnelErrorCode::SidecarSpawnFailed,
                                "LocaRay could not start its local compatibility service.",
                                "Check whether local security software blocked LocaRay, then retry.",
                            ));
                            effects.push(SessionEffect::Finish);
                            self.stage = SessionStage::Finished;
                        },
                    }
                }
            },
            SessionInput::SidecarFound(found) => {
                if let SessionStage::LocatingSidecar { config_path, proxy_port } = &self.stage {
                    if found {
                        let args = tunnel_args(config_path, *proxy_port);
                        effects.push(SessionEffect::Spawn(args));
                        self.stage = SessionStage::Spawning;
                    } else {
                        effects.push(SessionEffect::ShutdownProxy);
                        effects.push(self.fail(
                            TunnelErrorCode::SidecarMissing,
                            "The bundled tunnel component is unavailable.",
                            "Repair or reinstall LocaRay.",
                        ));
                        effects.push(SessionEffect::Finish);
                        self.stage = SessionStage::Finished;
                    }
                }
            },
            SessionInput::Spawned(spawned) => {
                if let SessionStage::Spawning = self.stage {
                    if spawned {
                        effects.push(SessionEffect::Register);
                        self.stage = SessionStage::Registering;
                    } else {
                        effects.push(SessionEffect::ShutdownProxy);
                        effects.push(self.fail(
                            TunnelErrorCode::SidecarSpawnFailed,
                            "Windows did not allow the tunnel component to start.",
                            "Open diagnostics, then repair or reinstall LocaRay.",
                        ));
                        effects.push(SessionEffect::Finish);
                        self.stage = SessionStage::Finished;
                    }
                }
            },
            SessionInput::Registration { session_matches, phase } => {
                if let SessionStage::Registering = self.stage {
                    if !session_matches || phase != TunnelPhase::Starting {
                        effects.push(SessionEffect::KillChild);
                        effects.push(SessionEffect::ShutdownProxy);
                        effects.push(SessionEffect::Finish);
                        self.stage = SessionStage::Finished;
                    } else {
                        effects.push(SessionEffect::KeepResources);
                        effects.push(SessionEffect::Apply(TransitionEvent::SidecarStarted { session_id: sid }));
                        match PublicUrlExtractor::new() {
                            Ok(extractor) => {
                                effects.push(SessionEffect::AwaitStartupOutput);
                                self.extractor = Some(extractor);
                                self.stage = SessionStage::AwaitingUrl;
                            },
                            Err(_) => {
                                effects.push(SessionEffect::ReleaseResources);
                                effects.push(self.fail(
                                    TunnelErrorCode::PublicUrlInvalid,
                                    "Public address validation could not start.",
                                    "Retry the tunnel.",
                                ));
                                effects.push(SessionEffect::Finish);
                                self.stage = SessionStage::Finished;
                            },
                        }
                    }
                }
            },
            SessionInput::Output(bytes) => {
                match self.stage {
                    SessionStage::AwaitingUrl => {
                        let found = match &mut self.extractor {
                            Some(extractor) => extractor.push(bytes.as_slice()),
                            None => None,
                        };
                        effects.push(SessionEffect::RecordOutput(bytes));
                        if let Some(url) = found {
                            effects.push(SessionEffect::ConfigureProxy(url.clone()));
                            self.stage = SessionStage::ConfiguringProxy { public_url: url };
                        }
                    },
                    SessionStage::Monitoring { .. } => {
                        effects.push(SessionEffect::RecordOutput(bytes));
                    },
                    _ => {},
                }
            },
            SessionInput::ProcessMessage(bytes) => {
                match self.stage {
                    SessionStage::AwaitingUrl | SessionStage::Monitoring { .. } => {
                        effects.push(SessionEffect::RecordOutput(bytes));
                    },
                    _ => {},
                }
            },
            SessionInput::Terminated => {
                match self.stage {
                    SessionStage::AwaitingUrl => {
                        effects.push(SessionEffect::ReleaseResources);
                        effects.push(SessionEffect::ObservePhase);
                        self.stage = SessionStage::AwaitingStopCheck;
                    },
                    SessionStage::Monitoring { .. } => {
                        effects.push(SessionEffect::ObservePhase);
                        self.stage = SessionStage::AwaitingExitCheck;
                    },
                    _ => {},
                }
            },
            SessionInput::TimedOut => {
                if let SessionStage::AwaitingUrl = self.stage {
                    effects.push(SessionEffect::ReleaseResources);
                    effects.push(SessionEffect::ObservePhase);
                    self.stage = SessionStage::AwaitingStopCheck;
                }
            },
            SessionInput::ProxyConfigured(configured) => {
                if let SessionStage::ConfiguringProxy { public_url } = &self.stage {
                    if configured {
                        let public_url = public_url.clone();
                        effects.push(SessionEffect::Apply(TransitionEvent::CandidateFound {
                            session_id: sid.clone(),
                            public_url,
                        }));
                        effects.push(SessionEffect::Apply(TransitionEvent::PublicUrlVerified { session_id: sid }));
                        if let Some(minutes) = self.stop_after_minutes {
                            effects.push(SessionEffect::ScheduleStop(minutes));
                        }
                        effects.push(SessionEffect::Monitor);
                        self.stage = SessionStage::Monitoring { origin_reachable: true };
                    } else {
                        effects.push(SessionEffect::ReleaseResources);
                        effects.push(self.fail(
                            TunnelErrorCode::PublicUrlInvalid,
                            "LocaRay could not secure the development compatibility route.",
                            "Retry the tunnel.",
                        ));
                        effects.push(SessionEffect::Finish);
                        self.stage = SessionStage::Finished;
                    }
                }
            },
            SessionInput::OriginChecked(reachable) => {
                if let SessionStage::Monitoring { origin_reachable } = self.stage {
                    if reachable != origin_reachable {
                        if reachable {
                            effects.push(SessionEffect::Apply(TransitionEvent::ConnectionRestored { session_id: sid }));
                        } else {
                            effects.push(SessionEffect::Apply(TransitionEvent::ConnectionLost { session_id: sid }));
                        }
                        self.stage = SessionStage::Monitoring { origin_reachable: reachable };
                    }
                }
            },
        }
        effects
    }
}


/// A finished course ignores every input.
pub proof fn law_finished_course_ignores_input(d: DriverModel, input: InputModel)
    requires
        d.stage == StageModel::Finished,
    ensures
        session_step(d, input) == (d, Seq::<EffectModel>::empty()),
{
}

/// The course applies `PublicUrlVerified` only once the compatibility route has
/// accepted the public URL, right after the URL is registered as the candidate.
pub proof fn law_verification_follows_the_route(d: DriverModel, input: InputModel, i: int)
    requires
        0 <= i < session_step(d, input).1.len(),
        session_step(d, input).1[i] matches EffectModel::Apply(EventModel::PublicUrlVerified { .. }),
    ensures
        d.stage is ConfiguringProxy,
        input == InputModel::ProxyConfigured(true),
        i == 1,
        session_step(d, input).1[0] == EffectModel::Apply(
            EventModel::CandidateFound {
                session_id: d.session_id,
                public_url: d.stage->ConfiguringProxy_public_url,
            },
        ),
{
}

/// Every failure that the course reports states that no public exposure is active.
pub proof fn law_failures_report_no_exposure(d: DriverModel, input: InputModel, i: int)
    requires
        0 <= i < session_step(d, input).1.len(),
        session_step(d, input).1[i] matches EffectModel::Apply(EventModel::Failed { .. }),
    ensures
        !session_step(d, input).1[i]->Apply_0->Failed_error.exposure_active,
        session_step(d, input).1[i]->Apply_0->Failed_session_id == d.session_id,
        session_step(d, input).0.stage == StageModel::Finished,
{
}

/// Every event the course applies belongs to its own session.
pub proof fn law_events_belong_to_the_session(d: DriverModel, input: InputModel, i: int)
    requires
        0 <= i < session_step(d, input).1.len(),
        session_step(d, input).1[i] is Apply,
    ensures
        crate::state::event_session(session_step(d, input).1[i]->Apply_0) == Some(d.session_id),
{
}

/// The tunnel process is always started with self-update disabled, with the
/// isolated configuration, and pointed at the compatibility route on this machine.
pub proof fn law_tunnel_process_is_isolated(d: DriverModel, input: InputModel, i: int)
    requires
        0 <= i < session_step(d, input).1.len(),
        session_step(d, input).1[i] is Spawn,
    ensures
        d.stage is LocatingSidecar,
        session_step(d, input).1[i] == EffectModel::Spawn(
            tunnel_arguments(
                d.stage->LocatingSidecar_config_path,
                d.stage->LocatingSidecar_proxy_port,
            ),
        ),
        session_step(d, input).1[i]->Spawn_0.contains("--no-autoupdate"@),
        session_step(d, input).1[i]->Spawn_0.last() == "http://127.0.0.1:"@ + decimal(
            d.stage->LocatingSidecar_proxy_port as nat,
        ),
{
    let args = session_step(d, input).1[i]->Spawn_0;
    assert(args[3] == "--no-autoupdate"@);
}

/// The events that a sequence of effects applies to the machine, in order.
pub open spec fn applied_events(effects: Seq<EffectModel>) -> Seq<EventModel>
    decreases effects.len(),
{
    if effects.len() == 0 {
        Seq::empty()
    } else {
        match effects[0] {
            EffectModel::Apply(e) => seq![e] + applied_events(effects.drop_first()),
            _ => applied_events(effects.drop_first()),
        }
    }
}

proof fn lemma_applied_events_cons(first: EffectModel, rest: Seq<EffectModel>)
    ensures
        applied_events(seq![first] + rest) == match first {
            EffectModel::Apply(e) => seq![e] + applied_events(rest),
            _ => applied_events(rest),
        },
{
    assert((seq![first] + rest).drop_first() =~= rest);
    assert((seq![first] + rest)[0] == first);
}

/// When the user stops a session whose tunnel process runs (waiting for its URL, or
/// connected and monitored), the machine is already stopping for that session. The
/// process then ends; the driver reads the phase, confirms the stop and finishes, and
/// the events it applies bring the machine back to idle. It never reports the end of
/// the process as an unexpected exit.
pub proof fn law_user_stop_completes(d: DriverModel, m: MachineModel)
    requires
        d.stage is Monitoring || d.stage == StageModel::AwaitingUrl,
        m.snapshot.phase == TunnelPhase::Stopping,
        m.snapshot.session_id == Some(d.session_id),
    ensures
        ({
            let first = session_step(d, InputModel::Terminated);
            let second = session_step(first.0, InputModel::PhaseObserved(TunnelPhase::Stopping));
            &&& first.1.contains(EffectModel::ObservePhase)
            &&& second.0.stage == StageModel::Finished
            &&& second.1.contains(EffectModel::Apply(EventModel::Stopped { session_id: d.session_id }))
            &&& second.1.last() == EffectModel::Finish
            &&& applied_events(first.1 + second.1) == seq![EventModel::Stopped { session_id: d.session_id }]
            &&& after_events(m, applied_events(first.1 + second.1)) == idle_machine()
        }),
{
    let sid = d.session_id;
    let first = session_step(d, InputModel::Terminated);
    let second = session_step(first.0, InputModel::PhaseObserved(TunnelPhase::Stopping));
    let stopped = EventModel::Stopped { session_id: sid };
    let empty = Seq::<EffectModel>::empty();
    lemma_applied_events_cons(EffectModel::Finish, empty);
    lemma_applied_events_cons(EffectModel::Apply(stopped), seq![EffectModel::Finish]);
    assert(applied_events(empty) == Seq::<EventModel>::empty());
    assert(seq![EffectModel::Finish] =~= seq![EffectModel::Finish] + empty);
    assert(seq![EffectModel::Apply(stopped), EffectModel::Finish] =~= seq![EffectModel::Apply(stopped)] + seq![EffectModel::Finish]);
    let tail = seq![EffectModel::Apply(stopped), EffectModel::Finish];
    assert(applied_events(tail) =~= seq![stopped]);
    if d.stage is Monitoring {
        assert(first.1 =~= seq![EffectModel::ObservePhase]);
        assert(first.1[0] == EffectModel::ObservePhase);
        let with_forget = seq![EffectModel::ForgetChildAndShutdownProxy] + tail;
        lemma_applied_events_cons(EffectModel::ForgetChildAndShutdownProxy, tail);
        assert(second.1 =~= with_forget);
        assert(second.1[1] == EffectModel::Apply(stopped));
        lemma_applied_events_cons(EffectModel::ObservePhase, with_forget);
        assert(first.1 + second.1 =~= seq![EffectModel::ObservePhase] + with_forget);
    } else {
        let release = seq![EffectModel::ReleaseResources, EffectModel::ObservePhase];
        assert(first.1 =~= release);
        assert(first.1[1] == EffectModel::ObservePhase);
        assert(second.1 =~= tail);
        assert(second.1[0] == EffectModel::Apply(stopped));
        lemma_applied_events_cons(EffectModel::ObservePhase, tail);
        assert(seq![EffectModel::ObservePhase] + tail =~= seq![EffectModel::ObservePhase, EffectModel::Apply(stopped), EffectModel::Finish]);
        lemma_applied_events_cons(EffectModel::ReleaseResources, seq![EffectModel::ObservePhase] + tail);
        assert(first.1 + second.1 =~= seq![EffectModel::ReleaseResources] + (seq![EffectModel::ObservePhase] + tail));
    }
    let evs = seq![stopped];
    assert(evs.drop_first() =~= Seq::<EventModel>::empty());
    assert(after_events(m, evs) == after_events(step(m, stopped).0, evs.drop_first()));
}

proof fn lemma_applied_events_concat(a: Seq<EffectModel>, b: Seq<EffectModel>)
    ensures
        applied_events(a + b) == applied_events(a) + applied_events(b),
    decreases a.len(),
{
    if a.len() == 0 {
        assert(a + b =~= b);
        assert(applied_events(a) + applied_events(b) =~= applied_events(b));
    } else {
        assert((a + b).drop_first() =~= a.drop_first() + b);
        assert((a + b)[0] == a[0]);
        lemma_applied_events_concat(a.drop_first(), b);
        match a[0] {
            EffectModel::Apply(e) => {
                assert(seq![e] + (applied_events(a.drop_first()) + applied_events(b)) =~= (seq![e]
                    + applied_events(a.drop_first())) + applied_events(b));
            },
            _ => {},
        }
    }
}

proof fn lemma_applied_events_single(x: EffectModel)
    ensures
        applied_events(seq![x]) == match x {
            EffectModel::Apply(e) => seq![e],
            _ => Seq::<EventModel>::empty(),
        },
{
    lemma_applied_events_cons(x, Seq::<EffectModel>::empty());
    assert(seq![x] + Seq::<EffectModel>::empty() =~= seq![x]);
    assert(applied_events(Seq::<EffectModel>::empty()) == Seq::<EventModel>::empty());
    match x {
        EffectModel::Apply(e) => {
            assert(seq![e] + Seq::<EventModel>::empty() =~= seq![e]);
        },
        _ => {},
    }
}

/// Applying exactly one event, when a sequence of effects applies just that one.
proof fn lemma_one_applied(m: MachineModel, events: Seq<EventModel>, e: EventModel)
    requires
        events == seq![e],
    ensures
        after_events(m, events) == step(m, e).0,
        all_applied(m, events) == (step(m, e).1 == Ok::<crate::state::TransitionOutcome, (TunnelPhase, Seq<char>)>(
            crate::state::TransitionOutcome::Applied,
        )),
{
    crate::machine_laws::lemma_after_one_event(m, e);
}

/// The probe of the origin decides how the session goes on: an origin that accepts a
/// connection moves the machine, checking the origin for this session, on to
/// starting; a closed origin puts it in error, reporting the closed origin, with no
/// public URL, and the course ends.
pub proof fn law_probe_outcome_moves_the_machine(d: DriverModel, m: MachineModel, probe: Result<OriginProbe, (Seq<char>, Seq<char>)>)
    requires
        d.stage == StageModel::Probing,
        m.snapshot.phase == TunnelPhase::CheckingOrigin,
        m.snapshot.session_id == Some(d.session_id),
    ensures
        ({
            let (next, effects) = session_step(d, InputModel::OriginProbed(probe));
            let after = after_events(m, applied_events(effects));
            &&& all_applied(m, applied_events(effects))
            &&& probe is Ok ==> after.snapshot.phase == TunnelPhase::Starting && next.stage
                == StageModel::AwaitingStartCheck
            &&& probe is Err ==> (after.snapshot.phase == TunnelPhase::Error && after.snapshot.public_url
                is None && next.stage == StageModel::Finished && (after.snapshot.error matches Some(
                err) && err.code == TunnelErrorCode::OriginClosed && !err.exposure_active))
        }),
{
    let sid = d.session_id;
    let effects = session_step(d, InputModel::OriginProbed(probe)).1;
    match probe {
        Ok(p) => {
            let head = seq![EffectModel::Apply(EventModel::OriginAvailable { session_id: sid })];
            let middle = if p.http_responded {
                Seq::<EffectModel>::empty()
            } else {
                seq![
                    EffectModel::Diagnostic(
                        "The port accepted a connection, but the HTTP probe did not complete."@,
                    ),
                ]
            };
            let tail = seq![EffectModel::ObservePhase];
            assert(effects == head + middle + tail);
            lemma_applied_events_concat(head + middle, tail);
            lemma_applied_events_concat(head, middle);
            lemma_applied_events_single(EffectModel::Apply(EventModel::OriginAvailable { session_id: sid }));
            lemma_applied_events_single(EffectModel::ObservePhase);
            if !p.http_responded {
                lemma_applied_events_single(middle[0]);
                assert(middle =~= seq![middle[0]]);
            }
            assert(applied_events(middle) =~= Seq::<EventModel>::empty());
            assert(applied_events(effects) =~= seq![EventModel::OriginAvailable { session_id: sid }]);
            lemma_one_applied(m, applied_events(effects), EventModel::OriginAvailable { session_id: sid });
        },
        Err(e) => {
            let f = failed(
                sid,
                TunnelErrorCode::OriginClosed,
                e.1,
                "Start the local server, refresh services, then retry."@,
            );
            assert(effects =~= seq![f] + seq![EffectModel::Finish]);
            lemma_applied_events_concat(seq![f], seq![EffectModel::Finish]);
            lemma_applied_events_single(f);
            lemma_applied_events_single(EffectModel::Finish);
            assert(applied_events(effects) =~= seq![f->Apply_0]);
            lemma_one_applied(m, applied_events(effects), f->Apply_0);
        },
    }
}

/// Once the compatibility route accepts the public URL, the events the course
/// applies move the machine, starting for this session, to connected under exactly
/// that URL; the course then monitors the connection.
pub proof fn law_accepted_url_connects(d: DriverModel, m: MachineModel)
    requires
        d.stage is ConfiguringProxy,
        m.snapshot.phase == TunnelPhase::Starting,
        m.snapshot.session_id == Some(d.session_id),
    ensures
        ({
            let (next, effects) = session_step(d, InputModel::ProxyConfigured(true));
            let after = after_events(m, applied_events(effects));
            &&& all_applied(m, applied_events(effects))
            &&& after.snapshot.phase == TunnelPhase::Connected
            &&& after.snapshot.public_url == Some(d.stage->ConfiguringProxy_public_url)
            &&& after.snapshot.tunnel_connected
            &&& after.snapshot.session_id == Some(d.session_id)
            &&& next.stage == (StageModel::Monitoring { origin_reachable: true })
            &&& effects.last() == EffectModel::Monitor
        }),
{
    let sid = d.session_id;
    let url = d.stage->ConfiguringProxy_public_url;
    let effects = session_step(d, InputModel::ProxyConfigured(true)).1;
    let cf = EventModel::CandidateFound { session_id: sid, public_url: url };
    let pv = EventModel::PublicUrlVerified { session_id: sid };
    let head = seq![EffectModel::Apply(cf), EffectModel::Apply(pv)];
    let sched = match d.stop_after_minutes {
        Some(minutes) => seq![EffectModel::ScheduleStop(minutes)],
        None => Seq::<EffectModel>::empty(),
    };
    let tail = seq![EffectModel::Monitor];
    assert(effects == head + sched + tail);
    lemma_applied_events_concat(head + sched, tail);
    lemma_applied_events_concat(head, sched);
    assert(head =~= seq![EffectModel::Apply(cf)] + seq![EffectModel::Apply(pv)]);
    lemma_applied_events_concat(seq![EffectModel::Apply(cf)], seq![EffectModel::Apply(pv)]);
    lemma_applied_events_single(EffectModel::Apply(cf));
    lemma_applied_events_single(EffectModel::Apply(pv));
    lemma_applied_events_single(EffectModel::Monitor);
    if d.stop_after_minutes is Some {
        lemma_applied_events_single(sched[0]);
        assert(sched =~= seq![sched[0]]);
    }
    assert(applied_events(sched) =~= Seq::<EventModel>::empty());
    assert(applied_events(effects) =~= seq![cf, pv]);
    let e0 = Seq::<EventModel>::empty();
    assert(after_events(m, e0) == m);
    assert(all_applied(m, e0));
    lemma_after_events_push(m, e0, cf);
    assert(e0.push(cf) =~= seq![cf]);
    lemma_after_events_push(m, seq![cf], pv);
    assert(seq![cf].push(pv) =~= seq![cf, pv]);
}

/// While the connection is monitored, the origin checks drive the machine: an
/// unreachable origin moves a connected machine to reconnecting, a reachable one
/// moves a reconnecting machine back to connected, and a check that agrees with the
/// current state changes nothing. The public URL stays as it is.
pub proof fn law_origin_checks_follow_the_connection(d: DriverModel, m: MachineModel, reachable: bool)
    requires
        d.stage is Monitoring,
        m.snapshot.session_id == Some(d.session_id),
        m.snapshot.phase == (if d.stage->Monitoring_origin_reachable {
            TunnelPhase::Connected
        } else {
            TunnelPhase::Reconnecting
        }),
    ensures
        ({
            let (next, effects) = session_step(d, InputModel::OriginChecked(reachable));
            let after = after_events(m, applied_events(effects));
            &&& all_applied(m, applied_events(effects))
            &&& after.snapshot.phase == (if reachable {
                TunnelPhase::Connected
            } else {
                TunnelPhase::Reconnecting
            })
            &&& after.snapshot.public_url == m.snapshot.public_url
            &&& next.stage == (StageModel::Monitoring { origin_reachable: reachable })
        }),
{
    let sid = d.session_id;
    let effects = session_step(d, InputModel::OriginChecked(reachable)).1;
    if reachable == d.stage->Monitoring_origin_reachable {
        assert(applied_events(effects) == Seq::<EventModel>::empty());
        assert(after_events(m, Seq::<EventModel>::empty()) == m);
    } else {
        let e = if reachable {
            EventModel::ConnectionRestored { session_id: sid }
        } else {
            EventModel::ConnectionLost { session_id: sid }
        };
        assert(effects == seq![EffectModel::Apply(e)]);
        lemma_applied_events_single(EffectModel::Apply(e));
        lemma_one_applied(m, applied_events(effects), e);
    }
}

/// When the tunnel process ends on its own while the connection is monitored (the
/// phase read is not `Stopping`), the course reports an unexpected exit of its
/// session; the machine, connected or reconnecting, accepts it, withdraws the public
/// URL and the connection, and shows the exit with no active exposure.
pub proof fn law_unexpected_exit_is_reported(d: DriverModel, m: MachineModel, phase: TunnelPhase)
    requires
        d.stage == StageModel::AwaitingExitCheck,
        phase != TunnelPhase::Stopping,
        m.snapshot.session_id == Some(d.session_id),
        m.snapshot.phase == TunnelPhase::Connected || m.snapshot.phase == TunnelPhase::Reconnecting,
    ensures
        ({
            let (next, effects) = session_step(d, InputModel::PhaseObserved(phase));
            let after = after_events(m, applied_events(effects));
            &&& all_applied(m, applied_events(effects))
            &&& after.snapshot.phase == TunnelPhase::Exited
            &&& after.snapshot.public_url is None
            &&& !after.snapshot.tunnel_connected
            &&& after.snapshot.error matches Some(err) && err.code == TunnelErrorCode::ChildExited
                && !err.exposure_active
            &&& next.stage == StageModel::Finished
            &&& effects[0] == EffectModel::ForgetChildAndShutdownProxy
        }),
{
    let effects = session_step(d, InputModel::PhaseObserved(phase)).1;
    let x = effects[1];
    assert(effects =~= seq![EffectModel::ForgetChildAndShutdownProxy] + seq![x] + seq![EffectModel::Finish]);
    lemma_applied_events_concat(seq![EffectModel::ForgetChildAndShutdownProxy] + seq![x], seq![EffectModel::Finish]);
    lemma_applied_events_concat(seq![EffectModel::ForgetChildAndShutdownProxy], seq![x]);
    lemma_applied_events_single(EffectModel::ForgetChildAndShutdownProxy);
    lemma_applied_events_single(x);
    lemma_applied_events_single(EffectModel::Finish);
    assert(applied_events(effects) =~= seq![x->Apply_0]);
    lemma_one_applied(m, applied_events(effects), x->Apply_0);
}

} // verus!
