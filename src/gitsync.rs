//! The repository synchronization workflow: open or clone, fetch, stage
//! everything, commit, and push when asked. Each step runs once, in order;
//! any failure ends the workflow.
use vstd::prelude::*;

verus! {

/// The parameters of one synchronization.
#[derive(Clone, Debug)]
pub struct SyncOptions {
    pub source: String,
    pub local_path: String,
    pub commit_message: String,
    /// Kept with the request; the commit identity is the repository's own
    /// configured signature.
    pub author_name: String,
    pub author_email: String,
    pub remote_name: String,
    pub branch: String,
    pub push: bool,
}

#[derive(Clone, Copy, Debug, PartialEq, Eq, Structural)]
pub enum SyncPhase {
    Absent,
    Opening,
    Cloning,
    Fetching,
    Staging,
    ReadingHead,
    Committing,
    Pushing,
    Succeeded,
    Failed,
}

/// What the caller reports after performing a step.
#[derive(Clone, Debug)]
pub enum SyncEvent {
    /// Starts the workflow; the flag tells whether the local path already
    /// holds a `.git` directory.
    Begin(bool),
    /// The step succeeded.
    Done,
    /// Whether the repository has a current branch tip.
    Head(bool),
    /// The step failed; the message is its cause.
    Failed(String),
}

#[derive(Clone, Debug, PartialEq, Eq)]
pub enum SyncError {
    /// An error of the repository layer, with its message.
    Repository(String),
    /// An event that the workflow does not expect in its current phase.
    OutOfOrder,
}

/// What the caller is asked to perform next.
#[derive(Debug)]
pub enum SyncAction {
    Open { path: String },
    Clone { url: String, path: String },
    /// Fetch all refs and tags of the remote.
    Fetch { remote: String },
    /// Stage every change of the working tree and write the index.
    StageAll,
    /// Look up the current branch tip.
    ReadHead,
    /// Commit the index to `HEAD`, on top of the tip when `parented`.
    Commit { message: String, parented: bool },
    Push { remote: String, refspec: String },
    Finish(Result<(), SyncError>),
}

pub struct SyncSession {
    pub options: SyncOptions,
    pub phase: SyncPhase,
}

pub open spec fn heads_prefix() -> Seq<char> {
    "refs/heads/"@
}

/// The phase that follows `p` on event `e`.
pub open spec fn sync_phase_after(p: SyncPhase, push: bool, e: SyncEvent) -> SyncPhase {
    match (p, e) {
        (SyncPhase::Succeeded, _) => SyncPhase::Succeeded,
        (SyncPhase::Failed, _) => SyncPhase::Failed,
        (SyncPhase::Absent, SyncEvent::Begin(has_git)) => if has_git {
            SyncPhase::Opening
        } else {
            SyncPhase::Cloning
        },
        (SyncPhase::Opening, SyncEvent::Done) => SyncPhase::Fetching,
        (SyncPhase::Cloning, SyncEvent::Done) => SyncPhase::Fetching,
        (SyncPhase::Fetching, SyncEvent::Done) => SyncPhase::Staging,
        (SyncPhase::Staging, SyncEvent::Done) => SyncPhase::ReadingHead,
        (SyncPhase::ReadingHead, SyncEvent::Head(_)) => SyncPhase::Committing,
        (SyncPhase::Committing, SyncEvent::Done) => if push {
            SyncPhase::Pushing
        } else {
            SyncPhase::Succeeded
        },
        (SyncPhase::Pushing, SyncEvent::Done) => SyncPhase::Succeeded,
        _ => SyncPhase::Failed,
    }
}

/// The error the workflow ends with when event `e` fails it.
pub open spec fn sync_failure_of(e: SyncEvent) -> SyncError {
    match e {
        SyncEvent::Failed(m) => SyncError::Repository(m),
        _ => SyncError::OutOfOrder,
    }
}

/// The action that entering phase `p` on event `e` asks for.
pub open spec fn sync_action_fits(p: SyncPhase, o: SyncOptions, e: SyncEvent, a: SyncAction) -> bool {
    match p {
        SyncPhase::Opening => a matches SyncAction::Open { path } && path@ == o.local_path@,
        SyncPhase::Cloning => match a {
            SyncAction::Clone { url, path } => url@ == o.source@ && path@ == o.local_path@,
            _ => false,
        },
        SyncPhase::Fetching => a matches SyncAction::Fetch { remote } && remote@
            == o.remote_name@,
        SyncPhase::Staging => a is StageAll,
        SyncPhase::ReadingHead => a is ReadHead,
        SyncPhase::Committing => match a {
            SyncAction::Commit { message, parented } => message@ == o.commit_message@ && e
                == SyncEvent::Head(parented),
            _ => false,
        },
        SyncPhase::Pushing => match a {
            SyncAction::Push { remote, refspec } => remote@ == o.remote_name@ && refspec@
                == heads_prefix() + o.branch@,
            _ => false,
        },
        SyncPhase::Succeeded => a == SyncAction::Finish(Ok(())),
        SyncPhase::Failed => a == SyncAction::Finish(Err(sync_failure_of(e))),
        SyncPhase::Absent => false,
    }
}

/// The reference pushed for `branch`: `refs/heads/<branch>`.
pub fn push_refspec(branch: &str) -> (r: String)
    ensures
        r@ == heads_prefix() + branch@,
{
    let mut r = "refs/heads/".to_string();
    r.append(branch);
    r
}

/// The user name offered to the key agent: the one the remote URL gives,
/// else `git`.
pub fn credential_user(from_url: Option<&str>) -> (r: String)
    ensures
        r@ == (match from_url {
            Some(u) => u@,
            None => "git"@,
        }),
{
    match from_url {
        Some(u) => u.to_string(),
        None => "git".to_string(),
    }
}

impl SyncSession {
    pub fn new(options: SyncOptions) -> (r: Self)
        ensures
            r.options == options,
            r.phase == SyncPhase::Absent,
    {
        SyncSession { options, phase: SyncPhase::Absent }
    }

    fn fail(&mut self, e: SyncError) -> (a: SyncAction)
        ensures
            final(self).phase == SyncPhase::Failed,
            final(self).options == old(self).options,
            a == SyncAction::Finish(Err(e)),
    {
        self.phase = SyncPhase::Failed;
        SyncAction::Finish(Err(e))
    }

    /// Advances the workflow on `event` and returns the next step.
    pub fn step(&mut self, event: SyncEvent) -> (a: SyncAction)
        ensures
            final(self).options == old(self).options,
            final(self).phase == sync_phase_after(old(self).phase, old(self).options.push, event),
            (old(self).phase == SyncPhase::Succeeded || old(self).phase == SyncPhase::Failed)
                ==> a == SyncAction::Finish(Err(SyncError::OutOfOrder)),
            !(old(self).phase == SyncPhase::Succeeded || old(self).phase == SyncPhase::Failed)
                ==> sync_action_fits(final(self).phase, final(self).options, event, a),
    {
        let phase = self.phase;
        match phase {
            SyncPhase::Succeeded | SyncPhase::Failed => SyncAction::Finish(
                Err(SyncError::OutOfOrder),
            ),
            SyncPhase::Absent => match event {
                SyncEvent::Begin(has_git) => {
                    if has_git {
                        self.phase = SyncPhase::Opening;
                        SyncAction::Open { path: self.options.local_path.clone() }
                    } else {
                        self.phase = SyncPhase::Cloning;
                        SyncAction::Clone {
                            url: self.options.source.clone(),
                            path: self.options.local_path.clone(),
                        }
                    }
                },
                SyncEvent::Failed(m) => self.fail(SyncError::Repository(m)),
                _ => self.fail(SyncError::OutOfOrder),
            },
            SyncPhase::Opening | SyncPhase::Cloning => match event {
                SyncEvent::Done => {
                    self.phase = SyncPhase::Fetching;
                    SyncAction::Fetch { remote: self.options.remote_name.clone() }
                },
                SyncEvent::Failed(m) => self.fail(SyncError::Repository(m)),
                _ => self.fail(SyncError::OutOfOrder),
            },
            SyncPhase::Fetching => match event {
                SyncEvent::Done => {
                    self.phase = SyncPhase::Staging;
                    SyncAction::StageAll
                },
                SyncEvent::Failed(m) => self.fail(SyncError::Repository(m)),
                _ => self.fail(SyncError::OutOfOrder),
            },
            SyncPhase::Staging => match event {
                SyncEvent::Done => {
                    self.phase = SyncPhase::ReadingHead;
                    SyncAction::ReadHead
                },
                SyncEvent::Failed(m) => self.fail(SyncError::Repository(m)),
                _ => self.fail(SyncError::OutOfOrder),
            },
            SyncPhase::ReadingHead => match event {
                SyncEvent::Head(parented) => {
                    self.phase = SyncPhase::Committing;
                    SyncAction::Commit { message: self.options.commit_message.clone(), parented }
                },
                SyncEvent::Failed(m) => self.fail(SyncError::Repository(m)),
                _ => self.fail(SyncError::OutOfOrder),
            },
            SyncPhase::Committing => match event {
                SyncEvent::Done => {
                    if self.options.push {
                        self.phase = SyncPhase::Pushing;
                        let refspec = push_refspec(self.options.branch.as_str());
                        SyncAction::Push { remote: self.options.remote_name.clone(), refspec }
                    } else {
                        self.phase = SyncPhase::Succeeded;
                        SyncAction::Finish(Ok(()))
                    }
                },
                SyncEvent::Failed(m) => self.fail(SyncError::Repository(m)),
                _ => self.fail(SyncError::OutOfOrder),
            },
            SyncPhase::Pushing => match event {
                SyncEvent::Done => {
                    self.phase = SyncPhase::Succeeded;
                    SyncAction::Finish(Ok(()))
                },
                SyncEvent::Failed(m) => self.fail(SyncError::Repository(m)),
                _ => self.fail(SyncError::OutOfOrder),
            },
        }
    }
}

/// A fresh clone is followed by a fetch, as an opened repository is; after
/// staging, the commit is made whether or not the repository has a tip, so
/// an empty index still yields a commit, on top of the existing history
/// where there is one.
pub proof fn lemma_clone_then_fetch_then_commit(push: bool, has_tip: bool)
    ensures
        sync_phase_after(SyncPhase::Absent, push, SyncEvent::Begin(false)) == SyncPhase::Cloning,
        sync_phase_after(SyncPhase::Cloning, push, SyncEvent::Done) == SyncPhase::Fetching,
        sync_phase_after(SyncPhase::Opening, push, SyncEvent::Done) == SyncPhase::Fetching,
        sync_phase_after(SyncPhase::Fetching, push, SyncEvent::Done) == SyncPhase::Staging,
        sync_phase_after(SyncPhase::Staging, push, SyncEvent::Done) == SyncPhase::ReadingHead,
        sync_phase_after(SyncPhase::ReadingHead, push, SyncEvent::Head(has_tip))
            == SyncPhase::Committing,
{
}

/// A push runs only after the commit step succeeded, and its failure ends
/// the workflow with the push's own error.
pub proof fn lemma_push_failure_keeps_commit(m: String)
    ensures
        sync_phase_after(SyncPhase::Committing, true, SyncEvent::Done) == SyncPhase::Pushing,
        sync_phase_after(SyncPhase::Pushing, true, SyncEvent::Failed(m)) == SyncPhase::Failed,
        sync_failure_of(SyncEvent::Failed(m)) == SyncError::Repository(m),
{
}

} // verus!
