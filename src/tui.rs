//! The state behind the terminal dashboard: which tab is shown, the recent
//! log lines, and the text lines for the workers and tasks tabs. Drawing it
//! on a terminal happens outside this library.

use vstd::prelude::*;
use vstd::string::*;

use crate::protocol::{WorkerInfo, WorkerInfoView};
use crate::text::{decimal, decimal_string, pad_right, padded, string_views};

verus! {

/// Log lines kept; older ones are dropped first.
pub const MAX_LOG_LINES: usize = 100;

/// Width of the name column of the workers tab.
pub const NAME_COLUMN_WIDTH: usize = 20;

/// The dashboard's tabs.
#[derive(Debug, Clone, Copy, PartialEq, Eq, Structural)]
pub enum Tab {
    Workers,
    Tasks,
    Logs,
}

/// The line that shows worker `w` on the workers tab.
pub open spec fn worker_line(w: WorkerInfoView) -> Seq<char> {
    padded(w.name, NAME_COLUMN_WIDTH as nat) + " | "@ + (if w.is_idle() {
        "[IDLE]"@
    } else {
        "[BUSY]"@
    }) + " | Jobs: "@ + decimal(w.current_jobs as nat) + "/"@ + decimal(w.max_jobs as nat)
        + " | "@ + w.platform
}

/// The lines of the tasks tab.
pub open spec fn task_lines(completed: usize, queued: usize) -> Seq<Seq<char>> {
    seq![
        "Completed Tasks: "@ + decimal(completed as nat),
        "Queued Tasks: "@ + decimal(queued as nat),
    ]
}

/// The log after `line` is added: the newest lines, at most the limit.
pub open spec fn log_with(log: Seq<Seq<char>>, line: Seq<char>) -> Seq<Seq<char>> {
    if log.len() + 1 > MAX_LOG_LINES {
        log.push(line).drop_first()
    } else {
        log.push(line)
    }
}

/// What the dashboard shows.
pub struct Dashboard {
    current_tab: usize,
    tabs: Vec<&'static str>,
    logs: Vec<String>,
    workers_display: Vec<String>,
    tasks_display: Vec<String>,
}

/// What a [`Dashboard`] holds.
pub struct DashboardView {
    pub current_tab: nat,
    pub tab_count: nat,
    pub logs: Seq<Seq<char>>,
    pub workers_display: Seq<Seq<char>>,
    pub tasks_display: Seq<Seq<char>>,
}

impl View for Dashboard {
    type V = DashboardView;

    closed spec fn view(&self) -> DashboardView {
        DashboardView {
            current_tab: self.current_tab as nat,
            tab_count: self.tabs@.len(),
            logs: string_views(self.logs@),
            workers_display: string_views(self.workers_display@),
            tasks_display: string_views(self.tasks_display@),
        }
    }
}

impl Dashboard {
    /// Three tabs, one of them selected, and a log within its limit.
    pub closed spec fn wf(&self) -> bool {
        &&& self.tabs@.len() == 3
        &&& self.current_tab < 3
        &&& self.logs@.len() <= MAX_LOG_LINES
    }

    /// The workers tab selected, and nothing to show yet.
    pub fn new() -> (r: Dashboard)
        ensures
            r.wf(),
            r@.current_tab == 0,
            r@.tab_count == 3,
            r@.logs.len() == 0,
            r@.workers_display.len() == 0,
            r@.tasks_display.len() == 0,
    {
        let r = Dashboard {
            current_tab: 0,
            tabs: vec!["Workers", "Tasks", "Logs"],
            logs: Vec::new(),
            workers_display: Vec::new(),
            tasks_display: Vec::new(),
        };
        assert(r@.logs =~= Seq::<Seq<char>>::empty());
        assert(r@.workers_display =~= Seq::<Seq<char>>::empty());
        assert(r@.tasks_display =~= Seq::<Seq<char>>::empty());
        r
    }

    /// The index of the selected tab.
    pub fn current_tab(&self) -> (r: usize)
        ensures
            r == self@.current_tab,
    {
        self.current_tab
    }

    /// The selected tab.
    pub fn tab(&self) -> (r: Tab)
        requires
            self.wf(),
        ensures
            r == (if self@.current_tab == 0 {
                Tab::Workers
            } else if self@.current_tab == 1 {
                Tab::Tasks
            } else {
                Tab::Logs
            }),
    {
        if self.current_tab == 0 {
            Tab::Workers
        } else if self.current_tab == 1 {
            Tab::Tasks
        } else {
            Tab::Logs
        }
    }

    /// The tab titles, in order.
    pub fn tabs(&self) -> (r: &Vec<&'static str>)
        ensures
            r@.len() == self@.tab_count,
    {
        &self.tabs
    }

    /// The kept log lines, oldest first.
    pub fn logs(&self) -> (r: &Vec<String>)
        ensures
            string_views(r@) == self@.logs,
    {
        &self.logs
    }

    /// The lines of the workers tab.
    pub fn workers_display(&self) -> (r: &Vec<String>)
        ensures
            string_views(r@) == self@.workers_display,
    {
        &self.workers_display
    }

    /// The lines of the tasks tab.
    pub fn tasks_display(&self) -> (r: &Vec<String>)
        ensures
            string_views(r@) == self@.tasks_display,
    {
        &self.tasks_display
    }

    /// Selects the next tab, wrapping from the last to the first.
    pub fn next_tab(&mut self)
        requires
            old(self).wf(),
        ensures
            final(self).wf(),
            final(self)@ == (DashboardView {
                current_tab: (old(self)@.current_tab + 1) % 3,
                ..old(self)@
            }),
    {
        self.current_tab = (self.current_tab + 1) % self.tabs.len();
    }

    /// Selects the previous tab, wrapping from the first to the last.
    pub fn prev_tab(&mut self)
        requires
            old(self).wf(),
        ensures
            final(self).wf(),
            final(self)@ == (DashboardView {
                current_tab: if old(self)@.current_tab > 0 {
                    (old(self)@.current_tab - 1) as nat
                } else {
                    2
                },
                ..old(self)@
            }),
    {
        if self.current_tab > 0 {
            self.current_tab = self.current_tab - 1;
        } else {
            self.current_tab = self.tabs.len() - 1;
        }
    }

    /// Adds a log line, dropping the oldest when the log is full.
    pub fn add_log(&mut self, message: String)
        requires
            old(self).wf(),
        ensures
            final(self).wf(),
            final(self)@ == (DashboardView {
                logs: log_with(old(self)@.logs, message@),
                ..old(self)@
            }),
    {
        let ghost line = message@;
        self.logs.push(message);
        assert(string_views(self.logs@) =~= old(self)@.logs.push(line));
        if self.logs.len() > MAX_LOG_LINES {
            self.logs.remove(0);
            assert(string_views(self.logs@) =~= old(self)@.logs.push(line).drop_first());
        }
    }

    /// Rebuilds the workers tab from `workers`, one line each, in order.
    pub fn update_workers(&mut self, workers: Vec<WorkerInfo>)
        requires
            old(self).wf(),
        ensures
            final(self).wf(),
            final(self)@ == (DashboardView {
                workers_display: workers@.map_values(|w: WorkerInfo| worker_line(w@)),
                ..old(self)@
            }),
    {
        proof {
            reveal_strlit(" | ");
        }
        let mut lines: Vec<String> = Vec::new();
        let mut i: usize = 0;
        while i < workers.len()
            invariant
                i <= workers@.len(),
                string_views(lines@) == workers@.subrange(0, i as int).map_values(
                    |w: WorkerInfo| worker_line(w@),
                ),
            decreases workers@.len() - i,
        {
            let w = &workers[i];
            let status = if w.is_idle() {
                "[IDLE]"
            } else {
                "[BUSY]"
            };
            let line = pad_right(w.name.as_str(), NAME_COLUMN_WIDTH).concat(" | ").concat(
                status,
            ).concat(" | Jobs: ").concat(decimal_string(w.current_jobs as u64).as_str()).concat(
                "/",
            ).concat(decimal_string(w.max_jobs as u64).as_str()).concat(" | ").concat(
                w.platform.as_str(),
            );
            assert(line@ == worker_line(w@));
            let ghost before = string_views(lines@);
            lines.push(line);
            assert(string_views(lines@) =~= before.push(worker_line(workers@[i as int]@)));
            assert(workers@.subrange(0, i + 1).map_values(|w: WorkerInfo| worker_line(w@))
                =~= workers@.subrange(0, i as int).map_values(|w: WorkerInfo| worker_line(w@)).push(
                worker_line(workers@[i as int]@),
            ));
            i = i + 1;
        }
        assert(workers@.subrange(0, workers@.len() as int) =~= workers@);
        self.workers_display = lines;
    }

    /// Rebuilds the tasks tab from the number of completed and queued tasks.
    pub fn update_tasks(&mut self, completed: usize, queued: usize)
        requires
            old(self).wf(),
        ensures
            final(self).wf(),
            final(self)@ == (DashboardView {
                tasks_display: task_lines(completed, queued),
                ..old(self)@
            }),
    {
        let mut lines: Vec<String> = Vec::new();
        lines.push(String::from_str("Completed Tasks: ").concat(decimal_string(completed as u64).as_str()));
        lines.push(String::from_str("Queued Tasks: ").concat(decimal_string(queued as u64).as_str()));
        assert(string_views(lines@) =~= task_lines(completed, queued));
        self.tasks_display = lines;
    }
}

impl Default for Dashboard {
    fn default() -> (r: Dashboard)
        ensures
            r.wf(),
            r@.current_tab == 0,
            r@.logs.len() == 0,
    {
        Dashboard::new()
    }
}

} // verus!
