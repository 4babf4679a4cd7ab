//! Launching paths with the platform's default handler.
//!
//! A batch of paths is opened one process at a time, in order.  The
//! first spawn failure aborts the whole batch: no later path is
//! attempted.  The spawning itself is a process-level side effect done
//! outside the library; here live the command strategy per platform,
//! the batch's state machine, and the failure message.

use vstd::prelude::*;

verus! {

/// Build-time target platform, which selects the canonical
/// "open with default handler" command.
#[derive(Clone, Copy, PartialEq, Eq, Structural)]
pub enum Platform {
    MacOs,
    Windows,
    OtherUnix,
}

/// The failure message for one path: the path, then the spawn error.
pub open spec fn launch_failure_text(path: Seq<char>, err: Seq<char>) -> Seq<char> {
    "Failed to launch "@ + path + ": "@ + err
}

/// Formats the failure message for one path.
pub fn launch_error_message(path: &String, err: &String) -> (r: String)
    ensures
        r@ == launch_failure_text(path@, err@),
{
    String::from_str("Failed to launch ").concat(path.as_str()).concat(": ").concat(
        err.as_str(),
    )
}

/// The argument vector of the platform's "open with default handler"
/// command for one path: program first, then its arguments.
pub fn open_command(platform: Platform, path: &String) -> (r: Vec<String>)
    ensures
        platform == Platform::MacOs ==> r@.len() == 2 && r@[0]@ == "open"@ && r@[1]@ == path@,
        platform == Platform::Windows ==> r@.len() == 5 && r@[0]@ == "cmd"@ && r@[1]@ == "/C"@
            && r@[2]@ == "start"@ && r@[3]@ == ""@ && r@[4]@ == path@,
        platform == Platform::OtherUnix ==> r@.len() == 2 && r@[0]@ == "xdg-open"@ && r@[1]@
            == path@,
{
    match platform {
        Platform::MacOs => {
            let mut v: Vec<String> = Vec::new();
            v.push(String::from_str("open"));
            v.push(path.clone());
            v
        },
        Platform::Windows => {
            let mut v: Vec<String> = Vec::new();
            v.push(String::from_str("cmd"));
            v.push(String::from_str("/C"));
            v.push(String::from_str("start"));
            v.push(String::from_str(""));
            v.push(path.clone());
            v
        },
        Platform::OtherUnix => {
            let mut v: Vec<String> = Vec::new();
            v.push(String::from_str("xdg-open"));
            v.push(path.clone());
            v
        },
    }
}

/// One batch of paths to open, attempted strictly in order.
///
/// The caller repeatedly asks for the next path, spawns it, and
/// records the outcome.  A recorded failure freezes the batch: no
/// further path is ever offered.
pub struct LaunchBatch {
    paths: Vec<String>,
    next: usize,
    failure: Option<String>,
}

impl LaunchBatch {
    /// The paths the batch was created with.
    pub closed spec fn spec_paths(&self) -> Seq<String> {
        self.paths@
    }

    /// How many paths have been attempted so far.
    pub closed spec fn spec_attempted(&self) -> int {
        self.next as int
    }

    /// The failure message, once a spawn has failed.
    pub closed spec fn spec_failure(&self) -> Option<String> {
        self.failure
    }

    /// Attempts never outrun the batch.
    pub open spec fn wf(&self) -> bool {
        self.spec_attempted() <= self.spec_paths().len()
    }

    /// A spawn has failed and the batch is aborted.
    pub open spec fn has_failed(&self) -> bool {
        self.spec_failure() is Some
    }

    /// Another path is still to be attempted.
    pub open spec fn pending(&self) -> bool {
        !self.has_failed() && self.spec_attempted() < self.spec_paths().len()
    }

    /// Starts a batch over the given paths.
    pub fn new(paths: Vec<String>) -> (b: LaunchBatch)
        ensures
            b.wf(),
            b.spec_paths() == paths@,
            b.spec_attempted() == 0,
            !b.has_failed(),
    {
        LaunchBatch { paths, next: 0, failure: None }
    }

    /// The next path to spawn, in input order; nothing once the batch
    /// is exhausted or aborted.
    pub fn current(&self) -> (r: Option<&String>)
        requires
            self.wf(),
        ensures
            match r {
                Some(p) => self.pending() && *p == self.spec_paths()[self.spec_attempted()],
                None => !self.pending(),
            },
    {
        if self.failure.is_none() && self.next < self.paths.len() {
            Some(&self.paths[self.next])
        } else {
            None
        }
    }

    /// Records that the current path's process was spawned; the batch
    /// moves on to the next path.
    pub fn record_spawned(&mut self)
        requires
            old(self).wf(),
            old(self).pending(),
        ensures
            final(self).wf(),
            final(self).spec_paths() == old(self).spec_paths(),
            final(self).spec_attempted() == old(self).spec_attempted() + 1,
            !final(self).has_failed(),
    {
        let n = self.paths.len();
        assert(self.next < n);
        self.next = self.next + 1;
    }

    /// Records that spawning the current path failed; the batch is
    /// aborted with the failure message, and no later path counts as
    /// attempted.
    pub fn record_failure(&mut self, err: &String)
        requires
            old(self).wf(),
            old(self).pending(),
        ensures
            final(self).wf(),
            final(self).spec_paths() == old(self).spec_paths(),
            final(self).spec_attempted() == old(self).spec_attempted(),
            final(self).has_failed(),
            final(self).spec_failure() matches Some(m) && m@ == launch_failure_text(
                old(self).spec_paths()[old(self).spec_attempted()]@,
                err@,
            ),
    {
        let msg = launch_error_message(&self.paths[self.next], err);
        self.failure = Some(msg);
    }

    /// The batch's result once nothing is pending: the first failure
    /// message if a spawn failed, success if every path was spawned.
    pub fn outcome(&self) -> (r: Result<(), String>)
        requires
            self.wf(),
            !self.pending(),
        ensures
            self.has_failed() <==> r is Err,
            self.spec_failure() matches Some(m) ==> (r matches Err(e) && e == m),
            !self.has_failed() ==> self.spec_attempted() == self.spec_paths().len(),
    {
        match &self.failure {
            Some(m) => Err(m.clone()),
            None => Ok(()),
        }
    }
}

/// A failed spawn halts the batch: once a failure is recorded, no
/// further path is pending, so no later path in the same call is ever
/// attempted.
pub proof fn lemma_failure_halts_batch(b: LaunchBatch)
    requires
        b.has_failed(),
    ensures
        !b.pending(),
{
}

} // verus!
