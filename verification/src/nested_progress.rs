//! Nested progress: a tree of tasks, each with its own total and count.

use vstd::prelude::*;

verus! {

/// A progress node with children.
pub struct NestedProgress {
    /// What the task does
    pub description: String,
    /// Total units of work
    pub total: u64,
    /// Completed units, never above the total
    pub current: u64,
    /// Child tasks
    pub children: Vec<NestedProgress>,
}

impl NestedProgress {
    /// Create a progress node.
    pub fn new(description: &str, total: u64) -> (p: NestedProgress)
        ensures
            p.description@ == description@,
            p.total == total,
            p.current == 0,
            p.children@.len() == 0,
    {
        NestedProgress {
            description: description.to_owned(),
            total,
            current: 0,
            children: Vec::new(),
        }
    }

    /// Add a child task and return it for further updates.
    pub fn add_child(&mut self, description: &str, total: u64) -> (r: &mut NestedProgress)
        ensures
            final(self).children@.len() == old(self).children@.len() + 1,
            final(self).total == old(self).total,
            final(self).current == old(self).current,
            final(self).description == old(self).description,
    {
        let child = NestedProgress::new(description, total);
        self.children.push(child);
        let idx = self.children.len() - 1;
        &mut self.children[idx]
    }

    /// Add progress, never past the total.
    pub fn update(&mut self, amount: u64)
        ensures
            final(self).current == (if old(self).current + amount <= old(self).total {
                (old(self).current + amount) as u64
            } else {
                old(self).total
            }),
            final(self).total == old(self).total,
            final(self).description == old(self).description,
            final(self).children@ == old(self).children@,
    {
        let next = if self.current <= u64::MAX - amount {
            self.current + amount
        } else {
            u64::MAX
        };
        self.current = if next < self.total {
            next
        } else {
            self.total
        };
        proof {
            if old(self).current + amount <= old(self).total {
                assert(self.current == old(self).current + amount);
            }
        }
    }

    /// The number of child tasks.
    pub fn child_count(&self) -> (r: usize)
        ensures
            r == self.children@.len(),
    {
        self.children.len()
    }
}

} // verus!
