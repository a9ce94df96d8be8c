use vstd::prelude::*;

use crate::window::{PageWindow, next_window, window_at, window_count, lemma_window_count};

verus! {

/// Where the processing of one document stands.
#[derive(Clone, Copy, Debug, PartialEq, Eq, Structural)]
pub enum Phase {
    Scheduling,
    Rendering,
    Filtering,
    Writing,
    Done,
    Aborted,
}

/// What the caller is to do next.
#[derive(Clone, Copy, Debug, PartialEq, Eq, Structural)]
pub enum Action {
    /// Render the pages of the window, one at a time, in ascending order.
    Render(PageWindow),
    /// Filter the window's images, in index order.
    Filter(PageWindow),
    /// Write the window's images, numbered from the window's start.
    Write(PageWindow),
    /// Every page has been written.
    Finish,
    /// A step failed: the document is abandoned.
    Abort,
}

/// The window scheduler of one document: it moves through
/// `Scheduling → Rendering → Filtering → Writing → (Scheduling | Done)`,
/// and to `Aborted` on any failure.
#[derive(Clone, Copy, Debug, PartialEq, Eq, Structural)]
pub struct Scheduler {
    pub page_count: u16,
    pub capacity: u16,
    pub current: u16,
    pub window: PageWindow,
    pub phase: Phase,
}

/// The window that starts at `current`.
pub open spec fn window_from(current: int, page_count: int, capacity: int) -> PageWindow {
    PageWindow {
        start: current as u16,
        end: if current + capacity <= page_count { (current + capacity) as u16 } else { page_count as u16 },
    }
}

impl Scheduler {
    /// The capacity is positive; `current` is a window boundary; while a window is
    /// in flight it is the one that starts at `current`.
    pub open spec fn wf(&self) -> bool {
        &&& self.capacity >= 1
        &&& self.current <= self.page_count
        &&& (self.current as int) % (self.capacity as int) == 0 || self.current == self.page_count
        &&& (self.phase == Phase::Rendering || self.phase == Phase::Filtering || self.phase == Phase::Writing)
            ==> self.current < self.page_count
            && self.window == window_from(self.current as int, self.page_count as int, self.capacity as int)
    }

    /// What one step does: the next state and the action it asks for.
    /// `succeeded` reports on the action asked for last.
    pub open spec fn step_spec(self, succeeded: bool) -> (Scheduler, Action) {
        let schedule = |s: Scheduler| if s.current >= s.page_count {
            (Scheduler { phase: Phase::Done, ..s }, Action::Finish)
        } else {
            let w = window_from(s.current as int, s.page_count as int, s.capacity as int);
            (Scheduler { phase: Phase::Rendering, window: w, ..s }, Action::Render(w))
        };
        match self.phase {
            Phase::Scheduling => schedule(self),
            Phase::Rendering => if succeeded {
                (Scheduler { phase: Phase::Filtering, ..self }, Action::Filter(self.window))
            } else {
                (Scheduler { phase: Phase::Aborted, ..self }, Action::Abort)
            },
            Phase::Filtering => if succeeded {
                (Scheduler { phase: Phase::Writing, ..self }, Action::Write(self.window))
            } else {
                (Scheduler { phase: Phase::Aborted, ..self }, Action::Abort)
            },
            Phase::Writing => if succeeded {
                schedule(Scheduler { current: self.window.end, ..self })
            } else {
                (Scheduler { phase: Phase::Aborted, ..self }, Action::Abort)
            },
            Phase::Done => (self, Action::Finish),
            Phase::Aborted => (self, Action::Abort),
        }
    }

    /// A scheduler at the first page of a document.
    pub fn new(page_count: u16, capacity: u16) -> (r: Scheduler)
        requires
            capacity >= 1,
        ensures
            r.wf(),
            r.page_count == page_count,
            r.capacity == capacity,
            r.current == 0,
            r.phase == Phase::Scheduling,
    {
        Scheduler {
            page_count,
            capacity,
            current: 0,
            window: PageWindow { start: 0, end: 0 },
            phase: Phase::Scheduling,
        }
    }

    fn schedule(&mut self) -> (r: Action)
        requires
            old(self).capacity >= 1,
            old(self).current <= old(self).page_count,
            (old(self).current as int) % (old(self).capacity as int) == 0
                || old(self).current == old(self).page_count,
        ensures
            final(self).wf(),
            (*final(self), r) == (if old(self).current >= old(self).page_count {
                (Scheduler { phase: Phase::Done, ..*old(self) }, Action::Finish)
            } else {
                let w = window_from(old(self).current as int, old(self).page_count as int, old(self).capacity as int);
                (Scheduler { phase: Phase::Rendering, window: w, ..*old(self) }, Action::Render(w))
            }),
    {
        match next_window(self.current, self.page_count, self.capacity) {
            None => {
                self.phase = Phase::Done;
                Action::Finish
            },
            Some(w) => {
                self.window = w;
                self.phase = Phase::Rendering;
                Action::Render(w)
            },
        }
    }

    /// Advances by one step, given whether the last action succeeded.
    /// A window to render is the next of the document's windows, in order.
    pub fn step(&mut self, succeeded: bool) -> (r: Action)
        requires
            old(self).wf(),
        ensures
            final(self).wf(),
            (*final(self), r) == old(self).step_spec(succeeded),
            r matches Action::Render(w) ==> {
                let k = final(self).current as int / final(self).capacity as int;
                &&& 0 <= k < window_count(final(self).page_count as int, final(self).capacity as int)
                &&& w == window_at(final(self).page_count as int, final(self).capacity as int, k)
            },
    {
        let r = match self.phase {
            Phase::Scheduling => self.schedule(),
            Phase::Rendering => {
                if succeeded {
                    self.phase = Phase::Filtering;
                    Action::Filter(self.window)
                } else {
                    self.phase = Phase::Aborted;
                    Action::Abort
                }
            },
            Phase::Filtering => {
                if succeeded {
                    self.phase = Phase::Writing;
                    Action::Write(self.window)
                } else {
                    self.phase = Phase::Aborted;
                    Action::Abort
                }
            },
            Phase::Writing => {
                if succeeded {
                    proof {
                        let c = self.capacity as int;
                        let cur = self.current as int;
                        if self.window.end < self.page_count {
                            assert((cur + c) % c == 0) by (nonlinear_arith)
                                requires
                                    cur % c == 0,
                                    c >= 1,
                            ;
                        }
                    }
                    self.current = self.window.end;
                    self.schedule()
                } else {
                    self.phase = Phase::Aborted;
                    Action::Abort
                }
            },
            Phase::Done => Action::Finish,
            Phase::Aborted => Action::Abort,
        };
        proof {
            if let Action::Render(w) = r {
                let c = self.capacity as int;
                let cur = self.current as int;
                let k = cur / c;
                assert(cur == k * c && k >= 0) by (nonlinear_arith)
                    requires
                        cur % c == 0,
                        c >= 1,
                        cur >= 0,
                        k == cur / c,
                ;
                lemma_window_count(self.page_count as int, c, k);
            }
        }
        r
    }
}

} // verus!
