//! One transport session: optional kernel-driver detachment, claim of
//! interface 0, endpoint resolution, the writes (a raw print sends the
//! initialize frame first, on its own), and release of the
//! interface on every path. The caller performs each action that
//! `next_action` names and hands its outcome to `advance`.
use vstd::prelude::*;
use crate::escpos::{initialize, build_self_test_page, build_drawer_kick, initialize_bytes, self_test_page_bytes, drawer_kick_bytes};
use crate::locator::{EndpointInfo, DEFAULT_ENDPOINT, endpoint_for, find_bulk_out_endpoint};
use crate::report::{PrintResult, concat, decimal, decimal_string};

verus! {

/// What a session sends.
pub enum Job {
    /// Caller-framed bytes, sent after the initialize sequence.
    RawPrint(Vec<u8>),
    /// The fixed self-test page.
    SelfTest,
    /// The cash-drawer pulse.
    DrawerKick,
}

/// Where a session stands. Phases only move forward.
#[derive(Clone, Copy, Debug, PartialEq, Eq, Structural)]
pub enum Phase {
    CheckDriver,
    Detach,
    Claim,
    ResolveEndpoint,
    Initialize,
    Write,
    Release,
    Done,
}

/// The step at which a session failed.
#[derive(Clone, Copy, Debug, PartialEq, Eq, Structural)]
pub enum FailStage {
    Claim,
    Initialize,
    Write,
}

/// A fatal failure, with the transport's description of it.
pub struct Failure {
    pub stage: FailStage,
    pub detail: String,
}

/// What the caller reports after performing an action.
pub enum StepOutcome {
    /// The action completed with nothing to report.
    Completed,
    /// Whether a kernel driver holds the interface.
    DriverActive(bool),
    /// A write went through with this many bytes.
    Wrote(usize),
    /// The action failed, as described.
    Failed(String),
    /// The active configuration's endpoints, or `None` when unreadable.
    Endpoints(Option<Vec<EndpointInfo>>),
}

/// What the caller is to do next.
pub enum SessionAction {
    /// Ask whether a kernel driver is active on interface 0.
    QueryKernelDriver,
    /// Detach the kernel driver from interface 0; failure is tolerated.
    DetachKernelDriver,
    /// Claim interface 0.
    ClaimInterface,
    /// Read the endpoints of the active configuration.
    ReadEndpoints,
    /// Write the payload to the endpoint with the timeout, in seconds.
    Write { endpoint: u8, payload: Vec<u8>, timeout_secs: u64 },
    /// Release interface 0; failure is tolerated.
    ReleaseInterface,
    /// The session is over; this is its result.
    Finish(Result<PrintResult, String>),
}

/// A session over an opened device handle.
pub struct Session {
    pub job: Job,
    pub phase: Phase,
    pub endpoint: u8,
    pub written: usize,
    pub failure: Option<Failure>,
}

pub open spec fn rank(p: Phase) -> int {
    match p {
        Phase::CheckDriver => 0,
        Phase::Detach => 1,
        Phase::Claim => 2,
        Phase::ResolveEndpoint => 3,
        Phase::Initialize => 4,
        Phase::Write => 5,
        Phase::Release => 6,
        Phase::Done => 7,
    }
}

/// The content frame a job writes. A raw print is preceded by its own
/// initialize write.
pub open spec fn payload_bytes(job: Job) -> Seq<u8> {
    match job {
        Job::RawPrint(data) => data@,
        Job::SelfTest => self_test_page_bytes(),
        Job::DrawerKick => drawer_kick_bytes(),
    }
}

/// The timeout of the initialize write, a control-only frame.
pub open spec fn initialize_timeout() -> u64 {
    2
}

/// Control-only frames get two seconds, content five.
pub open spec fn timeout_for(job: Job) -> u64 {
    match job {
        Job::DrawerKick => 2,
        _ => 5,
    }
}

pub open spec fn failure_prefix(job: Job, stage: FailStage) -> Seq<char> {
    match stage {
        FailStage::Claim => "Failed to claim interface: "@,
        FailStage::Initialize => "Failed to initialize printer: "@,
        FailStage::Write => match job {
            Job::RawPrint(_) => "Failed to write to printer: "@,
            Job::SelfTest => "Failed to print test page: "@,
            Job::DrawerKick => "Failed to open cash drawer: "@,
        },
    }
}

pub open spec fn success_message(job: Job, written: usize) -> Seq<char> {
    match job {
        Job::RawPrint(_) => "Printed "@ + decimal(written as nat) + " bytes successfully"@,
        Job::SelfTest => "Test page printed successfully"@,
        Job::DrawerKick => "Cash drawer opened"@,
    }
}

/// The result a finished session reports.
pub open spec fn result_matches(s: Session, r: Result<PrintResult, String>) -> bool {
    match s.failure {
        Some(f) => r matches Err(m) && m@ == failure_prefix(s.job, f.stage) + f.detail@,
        None => r matches Ok(p) && p.success && p.message@ == success_message(s.job, s.written),
    }
}

pub open spec fn endpoints_view(config: Option<Vec<EndpointInfo>>) -> Option<Seq<EndpointInfo>> {
    match config {
        Some(v) => Some(v@),
        None => None,
    }
}

/// A raw print starts its writes with the initialize frame; other jobs write
/// their one frame directly.
pub open spec fn first_write_phase(job: Job) -> Phase {
    match job {
        Job::RawPrint(_) => Phase::Initialize,
        _ => Phase::Write,
    }
}

/// The session after the caller reports the outcome of the current action.
/// Any outcome but `Failed` counts as success of a claim or a write; a write
/// reported otherwise than by `Wrote` counts as zero bytes.
pub open spec fn step(s: Session, o: StepOutcome) -> Session {
    match s.phase {
        Phase::CheckDriver => Session {
            phase: if o matches StepOutcome::DriverActive(true) {
                Phase::Detach
            } else {
                Phase::Claim
            },
            ..s
        },
        Phase::Detach => Session { phase: Phase::Claim, ..s },
        Phase::Claim => match o {
            StepOutcome::Failed(e) => Session {
                phase: Phase::Release,
                failure: Some(Failure { stage: FailStage::Claim, detail: e }),
                ..s
            },
            _ => Session { phase: Phase::ResolveEndpoint, ..s },
        },
        Phase::ResolveEndpoint => match o {
            StepOutcome::Endpoints(config) => Session {
                phase: first_write_phase(s.job),
                endpoint: endpoint_for(endpoints_view(config)),
                ..s
            },
            _ => Session { phase: first_write_phase(s.job), endpoint: DEFAULT_ENDPOINT, ..s },
        },
        Phase::Initialize => match o {
            StepOutcome::Failed(e) => Session {
                phase: Phase::Release,
                failure: Some(Failure { stage: FailStage::Initialize, detail: e }),
                ..s
            },
            _ => Session { phase: Phase::Write, ..s },
        },
        Phase::Write => match o {
            StepOutcome::Wrote(n) => Session { phase: Phase::Release, written: n, ..s },
            StepOutcome::Failed(e) => Session {
                phase: Phase::Release,
                failure: Some(Failure { stage: FailStage::Write, detail: e }),
                ..s
            },
            _ => Session { phase: Phase::Release, written: 0, ..s },
        },
        Phase::Release => Session { phase: Phase::Done, ..s },
        Phase::Done => s,
    }
}

/// The action the caller is to perform in a session.
pub open spec fn action_matches(s: Session, a: SessionAction) -> bool {
    match s.phase {
        Phase::CheckDriver => a is QueryKernelDriver,
        Phase::Detach => a is DetachKernelDriver,
        Phase::Claim => a is ClaimInterface,
        Phase::ResolveEndpoint => a is ReadEndpoints,
        Phase::Initialize => a matches SessionAction::Write { endpoint, payload, timeout_secs }
            && endpoint == s.endpoint && payload@ == initialize_bytes() && timeout_secs
            == initialize_timeout(),
        Phase::Write => a matches SessionAction::Write { endpoint, payload, timeout_secs }
            && endpoint == s.endpoint && payload@ == payload_bytes(s.job) && timeout_secs
            == timeout_for(s.job),
        Phase::Release => a is ReleaseInterface,
        Phase::Done => a matches SessionAction::Finish(r) && result_matches(s, r),
    }
}

fn copy_bytes(v: &Vec<u8>) -> (r: Vec<u8>)
    ensures
        r@ == v@,
{
    let mut r: Vec<u8> = Vec::new();
    let mut i: usize = 0;
    while i < v.len()
        invariant
            i <= v@.len(),
            r@ == v@.subrange(0, i as int),
        decreases v@.len() - i,
    {
        r.push(v[i]);
        assert(r@ =~= v@.subrange(0, i + 1));
        i = i + 1;
    }
    assert(r@ =~= v@);
    r
}

/// The frame that a job writes.
pub fn build_payload(job: &Job) -> (r: Vec<u8>)
    ensures
        r@ == payload_bytes(*job),
{
    match job {
        Job::RawPrint(data) => copy_bytes(data),
        Job::SelfTest => build_self_test_page(),
        Job::DrawerKick => build_drawer_kick(),
    }
}

impl Session {
    /// A session over a freshly opened handle. `detaches_kernel_driver` is
    /// set on the platform whose kernel driver must be detached before a claim.
    pub fn new(job: Job, detaches_kernel_driver: bool) -> (r: Session)
        ensures
            r.job == job,
            r.phase == (if detaches_kernel_driver {
                Phase::CheckDriver
            } else {
                Phase::Claim
            }),
            r.endpoint == DEFAULT_ENDPOINT,
            r.written == 0,
            r.failure is None,
    {
        Session {
            job,
            phase: if detaches_kernel_driver {
                Phase::CheckDriver
            } else {
                Phase::Claim
            },
            endpoint: DEFAULT_ENDPOINT,
            written: 0,
            failure: None,
        }
    }

    /// The action to perform now.
    pub fn next_action(&self) -> (r: SessionAction)
        ensures
            action_matches(*self, r),
    {
        match self.phase {
            Phase::CheckDriver => SessionAction::QueryKernelDriver,
            Phase::Detach => SessionAction::DetachKernelDriver,
            Phase::Claim => SessionAction::ClaimInterface,
            Phase::ResolveEndpoint => SessionAction::ReadEndpoints,
            Phase::Initialize => SessionAction::Write {
                endpoint: self.endpoint,
                payload: initialize(),
                timeout_secs: 2,
            },
            Phase::Write => {
                let timeout_secs: u64 = match self.job {
                    Job::DrawerKick => 2,
                    _ => 5,
                };
                SessionAction::Write {
                    endpoint: self.endpoint,
                    payload: build_payload(&self.job),
                    timeout_secs,
                }
            },
            Phase::Release => SessionAction::ReleaseInterface,
            Phase::Done => SessionAction::Finish(self.result()),
        }
    }

    /// The result of the session as it stands.
    pub fn result(&self) -> (r: Result<PrintResult, String>)
        ensures
            result_matches(*self, r),
    {
        match &self.failure {
            Some(f) => {
                let prefix: &str = match f.stage {
                    FailStage::Claim => "Failed to claim interface: ",
                    FailStage::Initialize => "Failed to initialize printer: ",
                    FailStage::Write => match self.job {
                        Job::RawPrint(_) => "Failed to write to printer: ",
                        Job::SelfTest => "Failed to print test page: ",
                        Job::DrawerKick => "Failed to open cash drawer: ",
                    },
                };
                Err(concat(prefix, f.detail.as_str()))
            },
            None => {
                let message = match self.job {
                    Job::RawPrint(_) => {
                        let head = concat("Printed ", decimal_string(self.written).as_str());
                        concat(head.as_str(), " bytes successfully")
                    },
                    Job::SelfTest => String::from_str("Test page printed successfully"),
                    Job::DrawerKick => String::from_str("Cash drawer opened"),
                };
                Ok(PrintResult { success: true, message })
            },
        }
    }

    /// Takes in the outcome of the action last performed.
    pub fn advance(&mut self, o: StepOutcome)
        ensures
            *final(self) == step(*old(self), o),
    {
        match self.phase {
            Phase::CheckDriver => {
                self.phase = match o {
                    StepOutcome::DriverActive(true) => Phase::Detach,
                    _ => Phase::Claim,
                };
            },
            Phase::Detach => {
                self.phase = Phase::Claim;
            },
            Phase::Claim => match o {
                StepOutcome::Failed(e) => {
                    self.phase = Phase::Release;
                    self.failure = Some(Failure { stage: FailStage::Claim, detail: e });
                },
                _ => {
                    self.phase = Phase::ResolveEndpoint;
                },
            },
            Phase::ResolveEndpoint => {
                match o {
                    StepOutcome::Endpoints(config) => {
                        self.endpoint = find_bulk_out_endpoint(&config);
                    },
                    _ => {
                        self.endpoint = DEFAULT_ENDPOINT;
                    },
                }
                self.phase = match self.job {
                    Job::RawPrint(_) => Phase::Initialize,
                    _ => Phase::Write,
                };
            },
            Phase::Initialize => match o {
                StepOutcome::Failed(e) => {
                    self.phase = Phase::Release;
                    self.failure = Some(Failure { stage: FailStage::Initialize, detail: e });
                },
                _ => {
                    self.phase = Phase::Write;
                },
            },
            Phase::Write => match o {
                StepOutcome::Wrote(n) => {
                    self.written = n;
                    self.phase = Phase::Release;
                },
                StepOutcome::Failed(e) => {
                    self.phase = Phase::Release;
                    self.failure = Some(Failure { stage: FailStage::Write, detail: e });
                },
                _ => {
                    self.written = 0;
                    self.phase = Phase::Release;
                },
            },
            Phase::Release => {
                self.phase = Phase::Done;
            },
            Phase::Done => {},
        }
    }
}

/// The session after the caller reports each outcome in turn.
pub open spec fn run(s: Session, outcomes: Seq<StepOutcome>) -> Session
    decreases outcomes.len(),
{
    if outcomes.len() == 0 {
        s
    } else {
        run(step(s, outcomes[0]), outcomes.drop_first())
    }
}

/// How many times the caller is told to release the interface while it
/// reports the outcomes in turn.
pub open spec fn releases(s: Session, outcomes: Seq<StepOutcome>) -> nat
    decreases outcomes.len(),
{
    if outcomes.len() == 0 {
        0
    } else {
        (if s.phase == Phase::Release {
            1nat
        } else {
            0nat
        }) + releases(step(s, outcomes[0]), outcomes.drop_first())
    }
}

proof fn lemma_done_stays(s: Session, outcomes: Seq<StepOutcome>)
    requires
        s.phase == Phase::Done,
    ensures
        releases(s, outcomes) == 0,
        run(s, outcomes).phase == Phase::Done,
    decreases outcomes.len(),
{
    if outcomes.len() > 0 {
        lemma_done_stays(step(s, outcomes[0]), outcomes.drop_first());
    }
}

proof fn lemma_release_once(s: Session, outcomes: Seq<StepOutcome>)
    requires
        s.phase != Phase::Done,
    ensures
        releases(s, outcomes) <= 1,
        run(s, outcomes).phase == Phase::Done ==> releases(s, outcomes) == 1,
    decreases outcomes.len(),
{
    if outcomes.len() > 0 {
        let next = step(s, outcomes[0]);
        if s.phase == Phase::Release {
            lemma_done_stays(next, outcomes.drop_first());
        } else {
            lemma_release_once(next, outcomes.drop_first());
        }
    }
}

proof fn lemma_finishes(s: Session, outcomes: Seq<StepOutcome>)
    requires
        outcomes.len() >= 7 - rank(s.phase),
    ensures
        run(s, outcomes).phase == Phase::Done,
    decreases outcomes.len(),
{
    if s.phase == Phase::Done {
        lemma_done_stays(s, outcomes);
    } else {
        lemma_finishes(step(s, outcomes[0]), outcomes.drop_first());
    }
}

/// Whatever the transport reports at each step, a session tells its caller
/// to release the interface at most once, and a session that has finished
/// has told it exactly once, on success and on failure alike. Every session
/// has finished after seven reported outcomes.
pub proof fn lemma_release_exactly_once(job: Job, detaches_kernel_driver: bool, outcomes: Seq<StepOutcome>)
    ensures
        ({
            let s = Session {
                job,
                phase: if detaches_kernel_driver {
                    Phase::CheckDriver
                } else {
                    Phase::Claim
                },
                endpoint: DEFAULT_ENDPOINT,
                written: 0,
                failure: None,
            };
            &&& releases(s, outcomes) <= 1
            &&& run(s, outcomes).phase == Phase::Done ==> releases(s, outcomes) == 1
            &&& outcomes.len() >= 7 ==> run(s, outcomes).phase == Phase::Done
        }),
{
    let s = Session {
        job,
        phase: if detaches_kernel_driver {
            Phase::CheckDriver
        } else {
            Phase::Claim
        },
        endpoint: DEFAULT_ENDPOINT,
        written: 0,
        failure: None,
    };
    lemma_release_once(s, outcomes);
    if outcomes.len() >= 7 {
        lemma_finishes(s, outcomes);
    }
}

} // verus!
