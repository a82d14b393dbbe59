//! The process-wide state: the tabs, the current tab, the queue of
//! background jobs and the messages waiting for display.
use vstd::prelude::*;
use vstd::string::*;
use std::collections::VecDeque;
use crate::command::Options;
use crate::error::{JoshutoError, JoshutoErrorKind, JoshutoResult};
use crate::tab::{JoshutoTab, SortOption};

verus! {

#[derive(Clone, Copy, Debug, PartialEq, Eq, Structural)]
pub enum JobKind {
    Copy,
    Move,
    Delete,
}

/// One batch of file operations for the background worker.
#[derive(Debug)]
pub struct IOWorkerJob {
    pub kind: JobKind,
    pub sources: Vec<String>,
    pub dest: String,
    pub options: Options,
    /// The tab whose listing the job changes.
    pub tab_index: usize,
}

/// Settings read at start-up.
#[derive(Debug)]
pub struct JoshutoConfig {
    pub home_dir: Option<String>,
    pub sort_option: SortOption,
}

pub struct JoshutoContext {
    pub exit: bool,
    pub curr_tab_index: usize,
    pub tabs: Vec<JoshutoTab>,
    pub worker_queue: VecDeque<IOWorkerJob>,
    pub worker_busy: bool,
    pub worker_msg: Option<String>,
    pub message_queue: VecDeque<String>,
    pub config_t: JoshutoConfig,
}

impl JoshutoContext {
    /// The current index points at a tab (or is 0 while there is none) and
    /// every tab is well formed.
    pub open spec fn wf(&self) -> bool {
        &&& if self.tabs@.len() == 0 { self.curr_tab_index == 0 } else { self.curr_tab_index < self.tabs@.len() }
        &&& forall|k: int| 0 <= k < self.tabs@.len() ==> (#[trigger] self.tabs@[k]).wf()
    }

    pub fn new(config_t: JoshutoConfig) -> (r: Self)
        ensures
            r.wf(),
            !r.exit,
            r.curr_tab_index == 0,
            r.tabs@.len() == 0,
            r.worker_queue@.len() == 0,
            !r.worker_busy,
            r.worker_msg is None,
            r.message_queue@.len() == 0,
            r.config_t == config_t,
    {
        JoshutoContext {
            exit: false,
            curr_tab_index: 0,
            tabs: Vec::new(),
            worker_queue: VecDeque::with_capacity(10),
            worker_busy: false,
            worker_msg: None,
            message_queue: VecDeque::with_capacity(4),
            config_t,
        }
    }

    pub fn curr_tab_ref(&self) -> (r: &JoshutoTab)
        requires
            self.wf(),
            self.tabs@.len() > 0,
        ensures
            *r == self.tabs@[self.curr_tab_index as int],
    {
        &self.tabs[self.curr_tab_index]
    }

    pub fn curr_tab_mut(&mut self) -> (r: &mut JoshutoTab)
        requires
            old(self).wf(),
            old(self).tabs@.len() > 0,
        ensures
            *r == old(self).tabs@[old(self).curr_tab_index as int],
            final(self).tabs@ == old(self).tabs@.update(old(self).curr_tab_index as int, *final(r)),
            final(self).curr_tab_index == old(self).curr_tab_index,
            final(self).exit == old(self).exit,
            final(self).worker_queue == old(self).worker_queue,
            final(self).worker_busy == old(self).worker_busy,
            final(self).worker_msg == old(self).worker_msg,
            final(self).message_queue == old(self).message_queue,
            final(self).config_t == old(self).config_t,
    {
        &mut self.tabs[self.curr_tab_index]
    }

    pub fn add_new_worker(&mut self, job: IOWorkerJob)
        ensures
            final(self).worker_queue@ == old(self).worker_queue@.push(job),
            final(self).tabs == old(self).tabs,
            final(self).curr_tab_index == old(self).curr_tab_index,
            final(self).worker_busy == old(self).worker_busy,
            final(self).worker_msg == old(self).worker_msg,
            final(self).message_queue == old(self).message_queue,
            final(self).config_t == old(self).config_t,
            final(self).exit == old(self).exit,
    {
        self.worker_queue.push_back(job);
    }

    /// Appends `tab` and makes it current.
    pub fn push_tab(&mut self, tab: JoshutoTab)
        requires
            old(self).wf(),
            tab.wf(),
            old(self).tabs@.len() < usize::MAX,
        ensures
            final(self).wf(),
            final(self).tabs@ == old(self).tabs@.push(tab),
            final(self).curr_tab_index == old(self).tabs@.len(),
            final(self).worker_queue == old(self).worker_queue,
            final(self).worker_busy == old(self).worker_busy,
            final(self).message_queue == old(self).message_queue,
            final(self).worker_msg == old(self).worker_msg,
            final(self).config_t == old(self).config_t,
            final(self).exit == old(self).exit,
    {
        self.tabs.push(tab);
        self.curr_tab_index = self.tabs.len() - 1;
    }

    /// Starts the next queued job, unless one is running already: jobs run
    /// one at a time, in the order they were queued.
    pub fn start_next_worker(&mut self) -> (r: Option<IOWorkerJob>)
        ensures
            start_outcome(*old(self), *final(self), r),
    {
        if self.worker_busy || self.worker_queue.len() == 0 {
            return None;
        }
        match self.worker_queue.pop_front() {
            Some(job) => {
                self.worker_busy = true;
                Some(job)
            },
            None => None,
        }
    }

    /// Records the end of the running job: its status line joins the
    /// message queue, the worker is free again, and the listing of the tab
    /// the job touched (if it is still open) is marked stale so that it is
    /// read again.
    pub fn finish_worker(&mut self, status: String, touched_tab: usize)
        requires
            old(self).wf(),
        ensures
            final(self).wf(),
            finish_outcome(*old(self), *final(self), status),
            touched_tab < old(self).tabs@.len() ==> final(self).tabs@[touched_tab as int].curr_list.need_update,
            forall|k: int| 0 <= k < final(self).tabs@.len() && k != touched_tab
                ==> #[trigger] final(self).tabs@[k] == old(self).tabs@[k],
    {
        self.worker_busy = false;
        self.worker_msg = None;
        self.message_queue.push_back(status);
        if touched_tab < self.tabs.len() {
            let i = touched_tab;
            let mut tab = self.tabs.remove(i);
            tab.curr_list.set_stale();
            self.tabs.insert(i, tab);
        }
    }

    /// Leaves the program, unless a background job is running.
    pub fn quit(&mut self) -> (r: JoshutoResult<()>)
        ensures
            quit_outcome(*old(self), *final(self), r is Ok),
            r is Err ==> r->Err_0.kind == JoshutoErrorKind::WorkerBusy,
    {
        if self.worker_busy {
            Err(JoshutoError::new(
                JoshutoErrorKind::WorkerBusy,
                String::from_str("operations running in background, use force_quit to quit"),
            ))
        } else {
            self.exit = true;
            Ok(())
        }
    }
}

/// What `start_next_worker` does: while a job runs, or none is queued,
/// nothing changes; otherwise the first queued job leaves the queue and runs.
pub open spec fn start_outcome(before: JoshutoContext, after: JoshutoContext, r: Option<IOWorkerJob>) -> bool {
    if before.worker_busy || before.worker_queue@.len() == 0 {
        r is None && after == before
    } else {
        &&& r == Some(before.worker_queue@[0])
        &&& after.worker_queue@ == before.worker_queue@.drop_first()
        &&& after.worker_busy
        &&& after.tabs == before.tabs
        &&& after.curr_tab_index == before.curr_tab_index
        &&& after.message_queue == before.message_queue
        &&& after.exit == before.exit
    }
}

/// What `finish_worker` does: the status line joins the end of the message
/// queue and the worker is free; the queue of waiting jobs is untouched.
pub open spec fn finish_outcome(before: JoshutoContext, after: JoshutoContext, status: String) -> bool {
    &&& !after.worker_busy
    &&& after.message_queue@ == before.message_queue@.push(status)
    &&& after.worker_queue == before.worker_queue
    &&& after.curr_tab_index == before.curr_tab_index
    &&& after.tabs@.len() == before.tabs@.len()
    &&& after.exit == before.exit
}

/// While a job runs, asking to start another starts nothing.
pub proof fn lemma_no_start_while_running(c0: JoshutoContext, c1: JoshutoContext, c2: JoshutoContext, first: IOWorkerJob, second: Option<IOWorkerJob>)
    requires
        start_outcome(c0, c1, Some(first)),
        start_outcome(c1, c2, second),
    ensures
        second is None,
        c2 == c1,
{
}

/// Two jobs started and finished one after the other are the first two
/// that were queued, in queue order, and their status lines reach the
/// message queue in that same order.
pub proof fn lemma_jobs_finish_in_start_order(
    c0: JoshutoContext,
    c1: JoshutoContext,
    c2: JoshutoContext,
    c3: JoshutoContext,
    c4: JoshutoContext,
    j1: IOWorkerJob,
    j2: IOWorkerJob,
    m1: String,
    m2: String,
)
    requires
        start_outcome(c0, c1, Some(j1)),
        finish_outcome(c1, c2, m1),
        start_outcome(c2, c3, Some(j2)),
        finish_outcome(c3, c4, m2),
    ensures
        j1 == c0.worker_queue@[0],
        j2 == c0.worker_queue@[1],
        c4.message_queue@ == c0.message_queue@ + seq![m1, m2],
{
    assert(c4.message_queue@ =~= c0.message_queue@ + seq![m1, m2]);
}

/// What `quit` does: with a job running nothing changes and it fails;
/// otherwise only the exit flag is set.
pub open spec fn quit_outcome(before: JoshutoContext, after: JoshutoContext, ok: bool) -> bool {
    if before.worker_busy {
        !ok && after == before
    } else {
        ok && after == (JoshutoContext { exit: true, ..before })
    }
}

} // verus!
