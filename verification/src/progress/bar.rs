//! Multi-task progress: the task store and the row renderer.

use vstd::prelude::*;

verus! {

use crate::console::RenderContext;
use crate::progress::columns::{
    BarColumn,
    ColumnKind,
    PercentageColumn,
    TextColumn,
    TimeRemainingColumn,
};
use crate::renderable::{Renderable, Segment};
use crate::style::{Color, Style};
use crate::text::Span;

/// A task tracked by a progress display.
pub struct Task {
    /// Task identifier
    pub id: usize,
    /// What the task does
    pub description: String,
    /// Total units of work, if known
    pub total: Option<u64>,
    /// Completed units
    pub completed: u64,
    /// When the task started, in milliseconds since the epoch
    pub start_millis: u64,
    /// Whether the task is finished
    pub finished: bool,
    /// Style hint for columns
    pub style: Style,
}

impl Task {
    /// Create a task, started now.
    pub fn new(id: usize, description: &str, total: Option<u64>) -> (t: Task)
        ensures
            t.id == id,
            t.description@ == description@,
            t.total == total,
            t.completed == 0,
            !t.finished,
    {
        Task {
            id,
            description: description.to_owned(),
            total,
            completed: 0,
            start_millis: crate::clock::now_epoch_millis(),
            finished: false,
            style: Style::new().foreground(Color::Cyan),
        }
    }

    /// The elapsed time of the task, in milliseconds.
    pub fn elapsed(&self) -> u64 {
        let now = crate::clock::now_epoch_millis();
        if now >= self.start_millis {
            now - self.start_millis
        } else {
            0
        }
    }

    /// The estimated time remaining, in seconds: the remaining units over
    /// the units completed per second so far. `None` before any progress.
    pub fn eta(&self) -> (r: Option<u64>)
        ensures
            self.completed == 0 ==> r is None,
            self.total is None ==> r is None,
    {
        if self.completed == 0 {
            return None;
        }
        match self.total {
            Some(total) => {
                let remaining = if total >= self.completed {
                    total - self.completed
                } else {
                    0
                };
                let elapsed_ms = self.elapsed();
                if elapsed_ms == 0 {
                    return Some(0);
                }
                let remaining_capped = if remaining <= 0xFFFF_FFFF_FFFF {
                    remaining
                } else {
                    0xFFFF_FFFF_FFFF
                };
                let elapsed_capped = if elapsed_ms <= 0xFFFF_FFFF {
                    elapsed_ms
                } else {
                    0xFFFF_FFFF
                };
                proof {
                    assert(remaining_capped * elapsed_capped <= 0xFFFF_FFFF_FFFFu64 * 0xFFFF_FFFFu64
                        || remaining_capped * elapsed_capped <= u64::MAX) by (nonlinear_arith)
                        requires
                            remaining_capped <= 0xFFFF_FFFF_FFFF,
                            elapsed_capped <= 0xFFFF_FFFF,
                    ;
                }
                let num = (remaining_capped as u128) * (elapsed_capped as u128);
                let secs = num / (self.completed as u128) / 1000;
                let capped = if secs <= u64::MAX as u128 {
                    secs as u64
                } else {
                    u64::MAX
                };
                Some(capped)
            },
            None => None,
        }
    }
}

/// A single progress bar's drawing configuration.
pub struct ProgressBar {
    /// Width of the bar portion
    pub bar_width: usize,
    /// Character for the completed portion
    pub complete_char: char,
    /// Character for the remaining portion
    pub remaining_char: char,
    /// Style for the completed portion
    pub complete_style: Style,
    /// Style for the remaining portion
    pub remaining_style: Style,
}

impl ProgressBar {
    /// Create a bar with the default forty-cell width.
    pub fn new() -> (b: ProgressBar)
        ensures
            b.bar_width == 40,
            b.complete_char == '\u{2501}',
            b.remaining_char == '\u{2501}',
    {
        ProgressBar {
            bar_width: 40,
            complete_char: '\u{2501}',
            remaining_char: '\u{2501}',
            complete_style: Style::new().foreground(Color::Cyan),
            remaining_style: Style::new().foreground(Color::BrightBlack),
        }
    }

    /// Set the bar width.
    pub fn width(self, width: usize) -> (b: ProgressBar)
        ensures
            b.bar_width == width,
            b.complete_char == self.complete_char,
            b.remaining_char == self.remaining_char,
    {
        ProgressBar { bar_width: width, ..self }
    }
}

impl Default for ProgressBar {
    /// The default bar.
    fn default() -> (b: ProgressBar)
        ensures
            b.bar_width == 40,
    {
        ProgressBar::new()
    }
}

/// A multi-task progress display.
pub struct Progress {
    /// The tracked tasks, in creation order
    pub tasks: Vec<Task>,
    /// The next task identifier
    pub next_id: usize,
    /// The columns of each row
    pub columns: Vec<ColumnKind>,
    /// Whether the display is shown
    pub visible: bool,
    /// Refresh rate in milliseconds
    pub refresh_rate_ms: u64,
}

/// The index of the first task with the given identifier, or the task count
/// when there is none.
pub open spec fn task_index(ts: Seq<Task>, id: usize) -> int
    decreases ts.len(),
{
    if ts.len() == 0 {
        0
    } else if ts[0].id == id {
        0
    } else {
        1 + task_index(ts.drop_first(), id)
    }
}

proof fn lemma_task_index_at(ts: Seq<Task>, id: usize, k: int)
    requires
        0 <= k <= ts.len(),
        forall|m: int| 0 <= m < k ==> (#[trigger] ts[m]).id != id,
        k == ts.len() || ts[k].id == id,
    ensures
        task_index(ts, id) == k,
    decreases k,
{
    if k > 0 {
        assert forall|m: int| 0 <= m < k - 1 implies (#[trigger] ts.drop_first()[m]).id != id by {
            assert(ts.drop_first()[m] == ts[m + 1]);
        }
        lemma_task_index_at(ts.drop_first(), id, k - 1);
    }
}

impl Progress {
    /// Create a progress display with the default columns: description,
    /// bar, percentage, and time remaining.
    pub fn new() -> (p: Progress)
        ensures
            p.tasks@.len() == 0,
            p.next_id == 0,
            p.columns@.len() == 4,
            p.visible,
            p.refresh_rate_ms == 100,
    {
        let mut columns: Vec<ColumnKind> = Vec::new();
        columns.push(ColumnKind::Text(TextColumn::new("[progress.description]")));
        columns.push(ColumnKind::Bar(BarColumn::new(40)));
        columns.push(ColumnKind::Percentage(PercentageColumn::new()));
        columns.push(ColumnKind::TimeRemaining(TimeRemainingColumn));
        Progress { tasks: Vec::new(), next_id: 0, columns, visible: true, refresh_rate_ms: 100 }
    }

    /// Replace the columns.
    pub fn with_columns(self, columns: Vec<ColumnKind>) -> (p: Progress)
        ensures
            p.columns@ == columns@,
            p.tasks@ == self.tasks@,
            p.next_id == self.next_id,
    {
        Progress { columns, ..self }
    }

    /// Add a task and return its identifier; identifiers count up from
    /// zero.
    pub fn add_task(&mut self, description: &str, total: Option<u64>) -> (id: usize)
        requires
            old(self).next_id < usize::MAX,
        ensures
            id == old(self).next_id,
            final(self).next_id == old(self).next_id + 1,
            final(self).tasks@.len() == old(self).tasks@.len() + 1,
            final(self).tasks@.last().id == id,
            final(self).tasks@.last().completed == 0,
            !final(self).tasks@.last().finished,
            final(self).tasks@.subrange(0, old(self).tasks@.len() as int) == old(self).tasks@,
    {
        let id = self.next_id;
        self.next_id = self.next_id + 1;
        let task = Task::new(id, description, total);
        proof {
            assert(self.tasks@.push(task).subrange(0, self.tasks@.len() as int) =~= self.tasks@);
        }
        self.tasks.push(task);
        id
    }

    /// Advance the first task with the given identifier by the given
    /// amount, saturating; the task finishes exactly when it reaches a
    /// known total. Other tasks are untouched, and nothing changes when no
    /// task matches.
    pub fn advance(&mut self, task_id: usize, amount: u64)
        ensures
            final(self).tasks@.len() == old(self).tasks@.len(),
            final(self).next_id == old(self).next_id,
            final(self).columns@ == old(self).columns@,
            forall|k: int|
                0 <= k < old(self).tasks@.len() && k != task_index(old(self).tasks@, task_id)
                    ==> final(self).tasks@[k] == old(self).tasks@[k],
            task_index(old(self).tasks@, task_id) < old(self).tasks@.len() ==> ({
                let t0 = old(self).tasks@[task_index(old(self).tasks@, task_id)];
                let c2: u64 = if t0.completed + amount <= u64::MAX {
                    (t0.completed + amount) as u64
                } else {
                    u64::MAX
                };
                final(self).tasks@[task_index(old(self).tasks@, task_id)] == (Task {
                    completed: c2,
                    finished: (match t0.total {
                        Some(total) => c2 >= total,
                        None => t0.finished,
                    }),
                    ..t0
                })
            }),
    {
        let n = self.tasks.len();
        let mut i: usize = 0;
        while i < n
            invariant
                i <= n,
                n == self.tasks@.len(),
                forall|m: int| 0 <= m < i ==> (#[trigger] old(self).tasks@[m]).id != task_id,
                self.tasks@ == old(self).tasks@,
                self.next_id == old(self).next_id,
                self.columns@ == old(self).columns@,
            decreases n - i,
        {
            if self.tasks[i].id == task_id {
                proof {
                    lemma_task_index_at(old(self).tasks@, task_id, i as int);
                }
                let t0 = self.tasks.remove(i);
                let completed = if t0.completed <= u64::MAX - amount {
                    t0.completed + amount
                } else {
                    u64::MAX
                };
                let finished = match t0.total {
                    Some(total) => completed >= total,
                    None => t0.finished,
                };
                let updated = Task { completed, finished, ..t0 };
                self.tasks.insert(i, updated);
                proof {
                    assert(self.tasks@ =~= old(self).tasks@.update(i as int, updated));
                }
                return ;
            }
            i = i + 1;
        }
        proof {
            lemma_task_index_at(old(self).tasks@, task_id, n as int);
        }
    }

    /// Set the completed count of the first task with the given
    /// identifier; the task finishes exactly when it reaches a known
    /// total. Other tasks are untouched.
    pub fn update(&mut self, task_id: usize, completed: u64)
        ensures
            final(self).tasks@.len() == old(self).tasks@.len(),
            final(self).next_id == old(self).next_id,
            final(self).columns@ == old(self).columns@,
            forall|k: int|
                0 <= k < old(self).tasks@.len() && k != task_index(old(self).tasks@, task_id)
                    ==> final(self).tasks@[k] == old(self).tasks@[k],
            task_index(old(self).tasks@, task_id) < old(self).tasks@.len() ==> ({
                let t0 = old(self).tasks@[task_index(old(self).tasks@, task_id)];
                final(self).tasks@[task_index(old(self).tasks@, task_id)] == (Task {
                    completed,
                    finished: (match t0.total {
                        Some(total) => completed >= total,
                        None => t0.finished,
                    }),
                    ..t0
                })
            }),
    {
        let n = self.tasks.len();
        let mut i: usize = 0;
        while i < n
            invariant
                i <= n,
                n == self.tasks@.len(),
                forall|m: int| 0 <= m < i ==> (#[trigger] old(self).tasks@[m]).id != task_id,
                self.tasks@ == old(self).tasks@,
                self.next_id == old(self).next_id,
                self.columns@ == old(self).columns@,
            decreases n - i,
        {
            if self.tasks[i].id == task_id {
                proof {
                    lemma_task_index_at(old(self).tasks@, task_id, i as int);
                }
                let t0 = self.tasks.remove(i);
                let finished = match t0.total {
                    Some(total) => completed >= total,
                    None => t0.finished,
                };
                let updated = Task { completed, finished, ..t0 };
                self.tasks.insert(i, updated);
                proof {
                    assert(self.tasks@ =~= old(self).tasks@.update(i as int, updated));
                }
                return ;
            }
            i = i + 1;
        }
        proof {
            lemma_task_index_at(old(self).tasks@, task_id, n as int);
        }
    }

    /// Mark the first task with the given identifier as finished; other
    /// tasks are untouched.
    pub fn finish(&mut self, task_id: usize)
        ensures
            final(self).tasks@.len() == old(self).tasks@.len(),
            final(self).next_id == old(self).next_id,
            final(self).columns@ == old(self).columns@,
            forall|k: int|
                0 <= k < old(self).tasks@.len() && k != task_index(old(self).tasks@, task_id)
                    ==> final(self).tasks@[k] == old(self).tasks@[k],
            task_index(old(self).tasks@, task_id) < old(self).tasks@.len() ==> final(self).tasks@[
                task_index(old(self).tasks@, task_id)
            ] == (Task { finished: true, ..old(self).tasks@[task_index(old(self).tasks@, task_id)] }),
    {
        let n = self.tasks.len();
        let mut i: usize = 0;
        while i < n
            invariant
                i <= n,
                n == self.tasks@.len(),
                forall|m: int| 0 <= m < i ==> (#[trigger] old(self).tasks@[m]).id != task_id,
                self.tasks@ == old(self).tasks@,
                self.next_id == old(self).next_id,
                self.columns@ == old(self).columns@,
            decreases n - i,
        {
            if self.tasks[i].id == task_id {
                proof {
                    lemma_task_index_at(old(self).tasks@, task_id, i as int);
                }
                let t0 = self.tasks.remove(i);
                let updated = Task { finished: true, ..t0 };
                self.tasks.insert(i, updated);
                proof {
                    assert(self.tasks@ =~= old(self).tasks@.update(i as int, updated));
                }
                return ;
            }
            i = i + 1;
        }
        proof {
            lemma_task_index_at(old(self).tasks@, task_id, n as int);
        }
    }

    /// Remove every task with the given identifier.
    pub fn remove(&mut self, task_id: usize)
        ensures
            final(self).tasks@.len() <= old(self).tasks@.len(),
            forall|k: int|
                0 <= k < final(self).tasks@.len() ==> (#[trigger] final(self).tasks@[k]).id
                    != task_id,
    {
        let mut kept: Vec<Task> = Vec::new();
        let n = self.tasks.len();
        let mut i: usize = 0;
        while i < n
            invariant
                i <= n,
                n == self.tasks@.len(),
                self.tasks@ == old(self).tasks@,
                kept@.len() <= i,
                forall|k: int| 0 <= k < kept@.len() ==> (#[trigger] kept@[k]).id != task_id,
            decreases n - i,
        {
            if self.tasks[i].id != task_id {
                let t = &self.tasks[i];
                kept.push(
                    Task {
                        id: t.id,
                        description: t.description.clone(),
                        total: t.total,
                        completed: t.completed,
                        start_millis: t.start_millis,
                        finished: t.finished,
                        style: t.style,
                    },
                );
            }
            i = i + 1;
        }
        self.tasks = kept;
    }

    /// Whether every task is finished; an empty display counts as
    /// finished.
    pub fn is_finished(&self) -> (r: bool)
        ensures
            r == (forall|k: int| 0 <= k < self.tasks@.len() ==> (#[trigger] self.tasks@[k]).finished),
    {
        let mut i: usize = 0;
        while i < self.tasks.len()
            invariant
                i <= self.tasks@.len(),
                forall|k: int| 0 <= k < i ==> (#[trigger] self.tasks@[k]).finished,
            decreases self.tasks@.len() - i,
        {
            if !self.tasks[i].finished {
                return false;
            }
            i = i + 1;
        }
        true
    }

    /// Render the display to plain text, one line per task, at a default
    /// eighty-column width.
    pub fn render_to_string(&self) -> String {
        let context = RenderContext {
            width: 80,
            height: None,
            direction: crate::bidi::TextDirection::Auto,
        };
        let segments = self.render(&context);
        crate::console::segments_to_text(&segments)
    }
}

impl Renderable for Progress {
    /// Render one line per task: the columns in order, separated by single
    /// spaces.
    fn render(&self, _context: &RenderContext) -> Vec<Segment> {
        let mut segments: Vec<Segment> = Vec::new();
        let mut i: usize = 0;
        while i < self.tasks.len()
            invariant
                i <= self.tasks@.len(),
            decreases self.tasks@.len() - i,
        {
            let task = &self.tasks[i];
            let mut spans: Vec<Span> = Vec::new();
            let mut c: usize = 0;
            while c < self.columns.len()
                invariant
                    c <= self.columns@.len(),
                    i < self.tasks@.len(),
                decreases self.columns@.len() - c,
            {
                if c > 0 {
                    spans.push(Span::raw(" "));
                }
                let rendered = self.columns[c].render_column(task);
                let mut k: usize = 0;
                while k < rendered.len()
                    decreases rendered.len() - k,
                {
                    spans.push(rendered[k].clone());
                    k = k + 1;
                }
                c = c + 1;
            }
            segments.push(Segment::line(spans));
            i = i + 1;
        }
        segments
    }
}

impl Default for Progress {
    /// A progress display with the default columns.
    fn default() -> (p: Progress)
        ensures
            p.tasks@.len() == 0,
    {
        Progress::new()
    }
}

} // verus!
