//! One transfer invocation as a state machine: acquire the source through the
//! transport its protocol selects, then either run the custom install
//! descriptor, or the clean / configure / compile sequence, or nothing.
//!
//! The session decides; the caller performs each returned action and reports
//! what came of it as the next event.
use vstd::prelude::*;
use crate::ktp::{
    advisories_for, ftp_failure, ftp_names_file, ftp_target_of, http_file_name, is_success_status, last_segment,
    opt_view, resolve_ftp, scp_final_url, scp_locator, url_rejected,
    Advisory, FtpTarget, KtpController, KtpError, TransferOptions, TransferProtocol,
};

verus! {

#[derive(Clone, Copy, Debug, PartialEq, Eq, Structural)]
pub enum Phase {
    Ready,
    /// An FTP connection and login are under way.
    LoggingIn,
    /// An SCP copy or an FTP retrieval is under way.
    Acquiring,
    /// An HTTP request is under way; its status decides what follows.
    Requesting,
    /// A successful HTTP response body is being written out.
    Storing,
    /// The destination is being checked for the install descriptor.
    Probing,
    Installing,
    Cleaning,
    Configuring,
    Compiling,
    Succeeded,
    Failed,
}

/// What the caller reports after performing an action.
#[derive(Clone, Debug)]
pub enum Event {
    /// Starts the session.
    Begin,
    /// The action ran to its end; the flag is its success (an exit status).
    Completed(bool),
    /// The status code of an HTTP response.
    Status(u16),
    /// Whether the install descriptor exists in the destination root.
    Probed(bool),
    /// The action could not be carried out; the message is its cause.
    Broken(String),
}

/// What the caller is asked to perform next.
#[derive(Debug)]
pub enum Action {
    /// `scp -r <locator> <destination>`.
    ScpCopy { locator: String, destination: String },
    /// Create `destination` if missing, then GET `url`.
    HttpRequest { url: String, destination: String },
    /// Stream the response body to `destination` joined with `file_name`.
    HttpStore { destination: String, file_name: String },
    /// Connect to the target's host and port and log in.
    FtpLogin(FtpTarget),
    /// On the logged-in connection, retrieve the remote file into the
    /// destination.
    FtpRetrieve(FtpTarget),
    /// Check whether `directory` holds the install descriptor.
    ProbeDescriptor { directory: String },
    /// `make -f <directory>/KTP.mk`, run in `directory`.
    RunDescriptor { directory: String },
    /// `make clean` in `directory`.
    Clean { directory: String },
    /// `make menuconfig` in `directory`.
    Configure { directory: String },
    /// `make` in `directory`.
    Compile { directory: String },
    /// The invocation is over, with this outcome.
    Finish(Result<(), KtpError>),
}

pub struct TransferSession {
    pub options: TransferOptions,
    pub phase: Phase,
    /// Whether the install descriptor was found, once probed.
    pub descriptor: Option<bool>,
    /// Advisories raised so far, oldest first.
    pub advisories: Vec<Advisory>,
}

pub open spec fn is_build_phase(p: Phase) -> bool {
    p == Phase::Cleaning || p == Phase::Configuring || p == Phase::Compiling
}

pub open spec fn is_terminal(p: Phase) -> bool {
    p == Phase::Succeeded || p == Phase::Failed
}

/// The phase that follows `p` on event `e`. An FTP session also fails at its
/// start where its locator cannot be resolved.
pub open spec fn phase_after(p: Phase, o: TransferOptions, descriptor: Option<bool>, e: Event) -> Phase {
    if is_terminal(p) {
        p
    } else {
        match (p, e) {
            (Phase::Ready, Event::Begin) => if url_rejected(o.protocol, o.source_url@) {
                Phase::Failed
            } else if o.protocol == TransferProtocol::FTP && ftp_failure(o.source_url@) is Some {
                Phase::Failed
            } else if o.protocol == TransferProtocol::HTTP {
                Phase::Requesting
            } else if o.protocol == TransferProtocol::FTP {
                Phase::LoggingIn
            } else {
                Phase::Acquiring
            },
            (Phase::LoggingIn, Event::Completed(true)) => if ftp_names_file(o.source_url@) {
                Phase::Acquiring
            } else {
                Phase::Failed
            },
            (Phase::Acquiring, Event::Completed(true)) => Phase::Probing,
            (Phase::Requesting, Event::Status(c)) => if is_success_status(c) {
                Phase::Storing
            } else {
                Phase::Failed
            },
            (Phase::Storing, Event::Completed(true)) => Phase::Probing,
            (Phase::Probing, Event::Probed(true)) => Phase::Installing,
            (Phase::Probing, Event::Probed(false)) => if o.auto_compile {
                Phase::Cleaning
            } else {
                Phase::Succeeded
            },
            (Phase::Installing, Event::Completed(true)) => Phase::Succeeded,
            (Phase::Cleaning, Event::Completed(_)) => Phase::Configuring,
            (Phase::Configuring, Event::Completed(_)) => Phase::Compiling,
            (Phase::Compiling, Event::Completed(true)) => Phase::Succeeded,
            _ => Phase::Failed,
        }
    }
}

/// The error a session ends with when event `e` in phase `p` fails it.
pub open spec fn failure_of(p: Phase, o: TransferOptions, e: Event) -> KtpError {
    match (p, e) {
        (Phase::Ready, Event::Begin) => if url_rejected(o.protocol, o.source_url@) {
            KtpError::InvalidSshUrl
        } else {
            match ftp_failure(o.source_url@) {
                Some(err) => err,
                None => KtpError::OutOfOrder,
            }
        },
        (Phase::LoggingIn, Event::Completed(true)) => KtpError::FtpNoFileName,
        (Phase::LoggingIn, Event::Broken(m)) => KtpError::Transport(m),
        (Phase::Acquiring, Event::Completed(false)) => if o.protocol == TransferProtocol::FTP {
            KtpError::FtpTransferFailed
        } else {
            KtpError::ScpFailed
        },
        (Phase::Acquiring, Event::Broken(m)) => KtpError::Transport(m),
        (Phase::Requesting, Event::Status(c)) => KtpError::HttpStatus(c),
        (Phase::Requesting, Event::Broken(m)) => KtpError::Transport(m),
        (Phase::Storing, Event::Broken(m)) => KtpError::Transport(m),
        (Phase::Installing, Event::Completed(false)) => KtpError::InstallFailed,
        (Phase::Installing, Event::Broken(m)) => KtpError::Io(m),
        (Phase::Cleaning, Event::Broken(m)) => KtpError::Io(m),
        (Phase::Configuring, Event::Broken(m)) => KtpError::Io(m),
        (Phase::Compiling, Event::Completed(false)) => KtpError::CompileFailed,
        (Phase::Compiling, Event::Broken(m)) => KtpError::Io(m),
        _ => KtpError::OutOfOrder,
    }
}

/// The advisories that event `e` in phase `p` adds.
pub open spec fn advisories_after(p: Phase, o: TransferOptions, e: Event) -> Seq<Advisory> {
    match (p, e) {
        (Phase::Ready, Event::Begin) => if url_rejected(o.protocol, o.source_url@) {
            seq![]
        } else {
            advisories_for(o.protocol, o.source_url@)
        },
        (Phase::Cleaning, Event::Completed(false)) => seq![Advisory::CleanFailed],
        (Phase::Configuring, Event::Completed(false)) => seq![Advisory::ConfigureCancelled],
        _ => seq![],
    }
}

pub open spec fn descriptor_after(p: Phase, descriptor: Option<bool>, e: Event) -> Option<bool> {
    match (p, e) {
        (Phase::Probing, Event::Probed(b)) => Some(b),
        _ => descriptor,
    }
}

/// The action that entering phase `p` asks for.
pub open spec fn action_fits(p: Phase, o: TransferOptions, a: Action) -> bool {
    let dest = o.destination_path@;
    match p {
        Phase::Acquiring => if o.protocol == TransferProtocol::FTP {
            match a {
                Action::FtpRetrieve(t) => t.file_name is Some && ftp_target_of(
                    t,
                    o.source_url@,
                    dest,
                    opt_view(o.username),
                    opt_view(o.password),
                ),
                _ => false,
            }
        } else {
            match a {
                Action::ScpCopy { locator, destination } => locator@ == scp_locator(
                    o.source_url@,
                    opt_view(o.username),
                ) && destination@ == dest,
                _ => false,
            }
        },
        Phase::LoggingIn => match a {
            Action::FtpLogin(t) => ftp_target_of(
                t,
                o.source_url@,
                dest,
                opt_view(o.username),
                opt_view(o.password),
            ),
            _ => false,
        },
        Phase::Requesting => match a {
            Action::HttpRequest { url, destination } => url@ == o.source_url@ && destination@
                == dest,
            _ => false,
        },
        Phase::Storing => match a {
            Action::HttpStore { destination, file_name } => destination@ == dest && file_name@
                == last_segment(o.source_url@),
            _ => false,
        },
        Phase::Probing => match a {
            Action::ProbeDescriptor { directory } => directory@ == dest,
            _ => false,
        },
        Phase::Installing => match a {
            Action::RunDescriptor { directory } => directory@ == dest,
            _ => false,
        },
        Phase::Cleaning => match a {
            Action::Clean { directory } => directory@ == dest,
            _ => false,
        },
        Phase::Configuring => match a {
            Action::Configure { directory } => directory@ == dest,
            _ => false,
        },
        Phase::Compiling => match a {
            Action::Compile { directory } => directory@ == dest,
            _ => false,
        },
        Phase::Succeeded => a == Action::Finish(Ok(())),
        Phase::Failed => a matches Action::Finish(Err(_)),
        Phase::Ready => false,
    }
}

impl TransferSession {
    /// The session's standing facts: a found descriptor excludes the default
    /// build, which runs only when requested and when no descriptor was found.
    pub open spec fn wf(&self) -> bool {
        &&& self.phase == Phase::Installing ==> self.descriptor == Some(true)
        &&& is_build_phase(self.phase) ==> self.descriptor == Some(false)
            && self.options.auto_compile
        &&& self.descriptor == Some(true) ==> (self.phase == Phase::Installing || is_terminal(
            self.phase,
        ))
        &&& (self.phase == Phase::LoggingIn || (self.phase == Phase::Acquiring
            && self.options.protocol == TransferProtocol::FTP)) ==> ftp_failure(
            self.options.source_url@,
        ) is None
        &&& self.phase == Phase::LoggingIn ==> self.options.protocol == TransferProtocol::FTP
        &&& (self.phase == Phase::Ready || self.phase == Phase::LoggingIn || self.phase
            == Phase::Acquiring || self.phase
            == Phase::Requesting || self.phase == Phase::Storing || self.phase == Phase::Probing)
            ==> self.descriptor is None
    }

    pub fn new(options: TransferOptions) -> (r: Self)
        ensures
            r.options == options,
            r.phase == Phase::Ready,
            r.descriptor is None,
            r.advisories@.len() == 0,
            r.wf(),
    {
        TransferSession { options, phase: Phase::Ready, descriptor: None, advisories: Vec::new() }
    }

    fn dest(&self) -> (r: String)
        ensures
            r@ == self.options.destination_path@,
    {
        self.options.destination_path.clone()
    }

    fn fail(&mut self, e: KtpError) -> (a: Action)
        ensures
            final(self).phase == Phase::Failed,
            final(self).options == old(self).options,
            final(self).descriptor == old(self).descriptor,
            final(self).advisories == old(self).advisories,
            a == Action::Finish(Err(e)),
    {
        self.phase = Phase::Failed;
        Action::Finish(Err(e))
    }

    /// Advances the session on `event` and returns what to perform next.
    pub fn step(&mut self, event: Event) -> (a: Action)
        requires
            old(self).wf(),
        ensures
            final(self).wf(),
            final(self).options == old(self).options,
            final(self).advisories@ == old(self).advisories@ + advisories_after(
                old(self).phase,
                old(self).options,
                event,
            ),
            final(self).descriptor == descriptor_after(old(self).phase, old(self).descriptor, event),
            final(self).phase == phase_after(
                old(self).phase,
                old(self).options,
                old(self).descriptor,
                event,
            ),
            is_terminal(old(self).phase) ==> a == Action::Finish(Err(KtpError::OutOfOrder)),
            !is_terminal(old(self).phase) ==> action_fits(final(self).phase, final(self).options, a),
            !is_terminal(old(self).phase) && final(self).phase == Phase::Failed ==> a
                == Action::Finish(Err(failure_of(old(self).phase, old(self).options, event))),
    {
        let phase = self.phase;
        match phase {
            Phase::Succeeded | Phase::Failed => Action::Finish(Err(KtpError::OutOfOrder)),
            Phase::Ready => match event {
                Event::Begin => self.begin(),
                _ => self.fail(KtpError::OutOfOrder),
            },
            Phase::LoggingIn => match event {
                Event::Completed(true) => {
                    let dest = self.dest();
                    match resolve_ftp(
                        self.options.source_url.as_str(),
                        dest.as_str(),
                        &self.options.username,
                        &self.options.password,
                    ) {
                        Ok(t) => {
                            if t.file_name.is_some() {
                                self.phase = Phase::Acquiring;
                                Action::FtpRetrieve(t)
                            } else {
                                self.fail(KtpError::FtpNoFileName)
                            }
                        },
                        Err(e) => self.fail(e),
                    }
                },
                Event::Broken(m) => self.fail(KtpError::Transport(m)),
                _ => self.fail(KtpError::OutOfOrder),
            },
            Phase::Acquiring => match event {
                Event::Completed(true) => self.probe(),
                Event::Completed(false) => {
                    if self.options.protocol == TransferProtocol::FTP {
                        self.fail(KtpError::FtpTransferFailed)
                    } else {
                        self.fail(KtpError::ScpFailed)
                    }
                },
                Event::Broken(m) => self.fail(KtpError::Transport(m)),
                _ => self.fail(KtpError::OutOfOrder),
            },
            Phase::Requesting => match event {
                Event::Status(c) => {
                    if 200 <= c && c <= 299 {
                        self.phase = Phase::Storing;
                        let file_name = http_file_name(self.options.source_url.as_str());
                        Action::HttpStore { destination: self.dest(), file_name }
                    } else {
                        self.fail(KtpError::HttpStatus(c))
                    }
                },
                Event::Broken(m) => self.fail(KtpError::Transport(m)),
                _ => self.fail(KtpError::OutOfOrder),
            },
            Phase::Storing => match event {
                Event::Completed(true) => self.probe(),
                Event::Broken(m) => self.fail(KtpError::Transport(m)),
                _ => self.fail(KtpError::OutOfOrder),
            },
            Phase::Probing => match event {
                Event::Probed(found) => {
                    self.descriptor = Some(found);
                    if found {
                        self.phase = Phase::Installing;
                        Action::RunDescriptor { directory: self.dest() }
                    } else if self.options.auto_compile {
                        self.phase = Phase::Cleaning;
                        Action::Clean { directory: self.dest() }
                    } else {
                        self.phase = Phase::Succeeded;
                        Action::Finish(Ok(()))
                    }
                },
                _ => self.fail(KtpError::OutOfOrder),
            },
            Phase::Installing => match event {
                Event::Completed(true) => {
                    self.phase = Phase::Succeeded;
                    Action::Finish(Ok(()))
                },
                Event::Completed(false) => self.fail(KtpError::InstallFailed),
                Event::Broken(m) => self.fail(KtpError::Io(m)),
                _ => self.fail(KtpError::OutOfOrder),
            },
            Phase::Cleaning => match event {
                Event::Completed(ok) => {
                    if !ok {
                        self.advisories.push(Advisory::CleanFailed);
                    }
                    self.phase = Phase::Configuring;
                    Action::Configure { directory: self.dest() }
                },
                Event::Broken(m) => self.fail(KtpError::Io(m)),
                _ => self.fail(KtpError::OutOfOrder),
            },
            Phase::Configuring => match event {
                Event::Completed(ok) => {
                    if !ok {
                        self.advisories.push(Advisory::ConfigureCancelled);
                    }
                    self.phase = Phase::Compiling;
                    Action::Compile { directory: self.dest() }
                },
                Event::Broken(m) => self.fail(KtpError::Io(m)),
                _ => self.fail(KtpError::OutOfOrder),
            },
            Phase::Compiling => match event {
                Event::Completed(true) => {
                    self.phase = Phase::Succeeded;
                    Action::Finish(Ok(()))
                },
                Event::Completed(false) => self.fail(KtpError::CompileFailed),
                Event::Broken(m) => self.fail(KtpError::Io(m)),
                _ => self.fail(KtpError::OutOfOrder),
            },
        }
    }

    fn probe(&mut self) -> (a: Action)
        ensures
            final(self).phase == Phase::Probing,
            final(self).options == old(self).options,
            final(self).descriptor == old(self).descriptor,
            final(self).advisories == old(self).advisories,
            action_fits(Phase::Probing, old(self).options, a),
    {
        self.phase = Phase::Probing;
        Action::ProbeDescriptor { directory: self.dest() }
    }

    fn begin(&mut self) -> (a: Action)
        requires
            old(self).phase == Phase::Ready,
            old(self).descriptor is None,
        ensures
            final(self).options == old(self).options,
            final(self).descriptor is None,
            final(self).advisories@ == old(self).advisories@ + advisories_after(
                Phase::Ready,
                old(self).options,
                Event::Begin,
            ),
            final(self).phase == phase_after(Phase::Ready, old(self).options, None, Event::Begin),
            action_fits(final(self).phase, final(self).options, a),
            final(self).phase == Phase::Failed ==> a == Action::Finish(
                Err(failure_of(Phase::Ready, old(self).options, Event::Begin)),
            ),
    {
        let controller = KtpController::new();
        let protocol = self.options.protocol;
        let found = controller.validate_url(protocol, self.options.source_url.as_str());
        match found {
            Err(e) => self.fail(e),
            Ok(advs) => {
                let mut i: usize = 0;
                let ghost start = self.advisories@;
                while i < advs.len()
                    invariant
                        i <= advs@.len(),
                        self.advisories@ == start + advs@.subrange(0, i as int),
                        self.options == old(self).options,
                        self.phase == old(self).phase,
                        self.descriptor == old(self).descriptor,
                    decreases advs@.len() - i,
                {
                    self.advisories.push(advs[i]);
                    proof {
                        assert(advs@.subrange(0, i + 1) =~= advs@.subrange(0, i as int).push(
                            advs@[i as int],
                        ));
                    }
                    i = i + 1;
                }
                proof {
                    assert(advs@.subrange(0, advs@.len() as int) =~= advs@);
                }
                let dest = self.dest();
                match protocol {
                    TransferProtocol::SSH | TransferProtocol::Cloud => {
                        self.phase = Phase::Acquiring;
                        let locator = scp_final_url(
                            self.options.source_url.as_str(),
                            &self.options.username,
                        );
                        Action::ScpCopy { locator, destination: dest }
                    },
                    TransferProtocol::HTTP => {
                        self.phase = Phase::Requesting;
                        Action::HttpRequest { url: self.options.source_url.clone(), destination: dest }
                    },
                    TransferProtocol::FTP => {
                        match resolve_ftp(
                            self.options.source_url.as_str(),
                            dest.as_str(),
                            &self.options.username,
                            &self.options.password,
                        ) {
                            Ok(t) => {
                                self.phase = Phase::LoggingIn;
                                Action::FtpLogin(t)
                            },
                            Err(e) => self.fail(e),
                        }
                    },
                }
            },
        }
    }
}

/// Once the install descriptor has been found, no later step of the same
/// session enters the clean, configure or compile phase, and the finding
/// stands; this holds whether or not an automatic build was requested.
pub proof fn lemma_descriptor_preempts_build(s: TransferSession, e: Event)
    requires
        s.wf(),
        s.descriptor == Some(true),
    ensures
        !is_build_phase(phase_after(s.phase, s.options, s.descriptor, e)),
        descriptor_after(s.phase, s.descriptor, e) == Some(true),
{
}

/// A descriptor found by the probe is run, and nothing else is started,
/// whatever the automatic-build flag says.
pub proof fn lemma_found_descriptor_runs_alone(o: TransferOptions, d: Option<bool>)
    ensures
        phase_after(Phase::Probing, o, d, Event::Probed(true)) == Phase::Installing,
        phase_after(Phase::Installing, o, Some(true), Event::Completed(false)) == Phase::Failed,
        failure_of(Phase::Installing, o, Event::Completed(false)) == KtpError::InstallFailed,
{
}

/// An HTTP response is written out exactly when its status lies in
/// 200..=299; any other status ends the session with that status and
/// nothing stored.
pub proof fn lemma_http_status_gate(o: TransferOptions, d: Option<bool>, c: u16)
    ensures
        (phase_after(Phase::Requesting, o, d, Event::Status(c)) == Phase::Storing)
            == is_success_status(c),
        !is_success_status(c) ==> phase_after(Phase::Requesting, o, d, Event::Status(c))
            == Phase::Failed && failure_of(Phase::Requesting, o, Event::Status(c))
            == KtpError::HttpStatus(c),
{
}

/// An FTP session whose locator resolves starts with a login, and where no
/// credentials were supplied that login is anonymous/anonymous.
pub proof fn lemma_ftp_start_logs_in_anonymously(o: TransferOptions, t: FtpTarget)
    requires
        o.protocol == TransferProtocol::FTP,
        ftp_failure(o.source_url@) is None,
        o.username is None,
        o.password is None,
        action_fits(Phase::LoggingIn, o, Action::FtpLogin(t)),
    ensures
        phase_after(Phase::Ready, o, None, Event::Begin) == Phase::LoggingIn,
        t.user@ == "anonymous"@,
        t.pass@ == "anonymous"@,
{
}

} // verus!
