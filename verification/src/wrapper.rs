use crate::date::Date;
use crate::habit::{Bit, BitView, Count, CountView, Habit, TrackEvent, ViewMode};
use vstd::prelude::*;

verus! {

/// One record of the heterogeneous habit collection: a closed sum over the
/// concrete habit kinds. Every shared operation is dispatched by a match on
/// the kind, so one ordered collection can hold mixed kinds behind one
/// interface. Rendering and input hooks belong to the shell around this core,
/// which reads `remaining`, `goal`, `view_mode` and `view_month_offset` here.
#[derive(Debug)]
pub enum HabitWrapper {
    Count(Count),
    Bit(Bit),
}

/// Model of a wrapped habit.
#[verifier::ext_equal]
pub enum HabitView {
    Count(CountView),
    Bit(BitView),
}

impl View for HabitWrapper {
    type V = HabitView;

    open spec fn view(&self) -> HabitView {
        match self {
            HabitWrapper::Count(c) => HabitView::Count(c@),
            HabitWrapper::Bit(b) => HabitView::Bit(b@),
        }
    }
}

impl HabitView {
    pub open spec fn name(self) -> Seq<char> {
        match self {
            HabitView::Count(c) => c.name,
            HabitView::Bit(b) => b.name,
        }
    }

    /// The numeric projection of the goal: a counter's goal, one for a toggle.
    pub open spec fn goal_units(self) -> u32 {
        match self {
            HabitView::Count(c) => c.goal,
            HabitView::Bit(_) => 1,
        }
    }

    pub open spec fn remaining(self, date: Date) -> u32 {
        match self {
            HabitView::Count(c) => c.remaining(date),
            HabitView::Bit(b) => b.remaining(date),
        }
    }

    pub open spec fn reached_goal(self, date: Date) -> bool {
        match self {
            HabitView::Count(c) => c.reached_goal(date),
            HabitView::Bit(b) => b.reached_goal(date),
        }
    }

    /// The wrapped habit after one track event: the same kind with its
    /// per-date values changed as that kind prescribes, all else untouched.
    pub open spec fn modified(self, date: Date, event: TrackEvent) -> HabitView {
        match self {
            HabitView::Count(c) => HabitView::Count(
                CountView { stats: c.modified(date, event), ..c },
            ),
            HabitView::Bit(b) => HabitView::Bit(BitView { stats: b.modified(date), ..b }),
        }
    }

    pub open spec fn view_mode(self) -> ViewMode {
        match self {
            HabitView::Count(c) => c.view_mode,
            HabitView::Bit(b) => b.view_mode,
        }
    }

    pub open spec fn view_month_offset(self) -> u32 {
        match self {
            HabitView::Count(c) => c.view_month_offset,
            HabitView::Bit(b) => b.view_month_offset,
        }
    }

    pub open spec fn with_view_mode(self, mode: ViewMode) -> HabitView {
        match self {
            HabitView::Count(c) => HabitView::Count(CountView { view_mode: mode, ..c }),
            HabitView::Bit(b) => HabitView::Bit(BitView { view_mode: mode, ..b }),
        }
    }

    pub open spec fn with_view_month_offset(self, offset: u32) -> HabitView {
        match self {
            HabitView::Count(c) => HabitView::Count(
                CountView { view_month_offset: offset, ..c },
            ),
            HabitView::Bit(b) => HabitView::Bit(BitView { view_month_offset: offset, ..b }),
        }
    }

    /// The same habit with its view state back at the defaults, as after a
    /// load from persistence.
    pub open spec fn with_default_view(self) -> HabitView {
        self.with_view_mode(ViewMode::Day).with_view_month_offset(0)
    }
}

impl HabitWrapper {
    pub fn remaining(&self, date: Date) -> (r: u32)
        ensures
            r == self@.remaining(date),
    {
        match self {
            HabitWrapper::Count(c) => c.remaining(date),
            HabitWrapper::Bit(b) => b.remaining(date),
        }
    }

    pub fn goal(&self) -> (r: u32)
        ensures
            r == self@.goal_units(),
    {
        match self {
            HabitWrapper::Count(c) => c.goal(),
            HabitWrapper::Bit(b) => b.goal(),
        }
    }

    pub fn reached_goal(&self, date: Date) -> (r: bool)
        ensures
            r == self@.reached_goal(date),
    {
        match self {
            HabitWrapper::Count(c) => c.reached_goal(date),
            HabitWrapper::Bit(b) => b.reached_goal(date),
        }
    }

    pub fn modify(&mut self, date: Date, event: TrackEvent)
        ensures
            final(self)@ == old(self)@.modified(date, event),
    {
        match self {
            HabitWrapper::Count(c) => c.modify(date, event),
            HabitWrapper::Bit(b) => b.modify(date, event),
        }
    }

    pub fn get_name(&self) -> (r: String)
        ensures
            r@ == self@.name(),
    {
        match self {
            HabitWrapper::Count(c) => c.name(),
            HabitWrapper::Bit(b) => b.name(),
        }
    }

    pub fn set_view_month_offset(&mut self, offset: u32)
        ensures
            final(self)@ == old(self)@.with_view_month_offset(offset),
    {
        match self {
            HabitWrapper::Count(c) => c.set_view_month_offset(offset),
            HabitWrapper::Bit(b) => b.set_view_month_offset(offset),
        }
    }

    pub fn view_month_offset(&self) -> (r: u32)
        ensures
            r == self@.view_month_offset(),
    {
        match self {
            HabitWrapper::Count(c) => c.view_month_offset(),
            HabitWrapper::Bit(b) => b.view_month_offset(),
        }
    }

    pub fn set_view_mode(&mut self, mode: ViewMode)
        ensures
            final(self)@ == old(self)@.with_view_mode(mode),
    {
        match self {
            HabitWrapper::Count(c) => c.set_view_mode(mode),
            HabitWrapper::Bit(b) => b.set_view_mode(mode),
        }
    }

    pub fn view_mode(&self) -> (r: ViewMode)
        ensures
            r == self@.view_mode(),
    {
        match self {
            HabitWrapper::Count(c) => c.view_mode(),
            HabitWrapper::Bit(b) => b.view_mode(),
        }
    }
}

} // verus!
