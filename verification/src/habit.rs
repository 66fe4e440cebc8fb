use crate::date::Date;
use crate::store::{map_seq, unique_dates, DateMap};
use vstd::prelude::*;

verus! {

/// One user-initiated change to a habit's value on a given date.
#[derive(Debug, Clone, Copy, PartialEq, Eq, Structural)]
pub enum TrackEvent {
    Increment,
    Decrement,
}

/// Display granularity of a habit's history. Any mode is reachable from any
/// other; the mode restricts nothing, it only selects what a renderer shows.
#[derive(Debug, Clone, Copy, PartialEq, Eq, Structural)]
pub enum ViewMode {
    Day,
    Month,
    Year,
}

impl Default for ViewMode {
    /// The mode every habit starts in.
    fn default() -> (r: Self)
        ensures
            r == ViewMode::Day,
    {
        ViewMode::Day
    }
}

/// A boolean progress value with a custom two-glyph rendering. Storage and
/// comparison are on the plain boolean; the glyphs are presentation only.
#[derive(Debug, Clone, Copy, PartialEq, Eq, Structural)]
pub struct CustomBool(pub bool);

impl From<bool> for CustomBool {
    fn from(b: bool) -> (r: CustomBool) {
        CustomBool(b)
    }
}

impl vstd::std_specs::convert::FromSpecImpl<bool> for CustomBool {
    open spec fn obeys_from_spec() -> bool {
        true
    }

    open spec fn from_spec(b: bool) -> CustomBool {
        CustomBool(b)
    }
}

impl CustomBool {
    /// Renders the value as one of the two given glyphs with one space of
    /// padding on either side, which centers a one-column glyph in a
    /// three-column field.
    pub fn display(self, true_glyph: &str, false_glyph: &str) -> (r: String)
        ensures
            r@ == seq![' '] + (if self.0 {
                true_glyph@
            } else {
                false_glyph@
            }) + seq![' '],
    {
        proof {
            reveal_strlit(" ");
            assert(" "@ =~= seq![' ']);
        }
        let glyph: &str = if self.0 {
            true_glyph
        } else {
            false_glyph
        };
        let mut s = String::from_str(" ");
        s.append(glyph);
        s.append(" ");
        s
    }
}

/// The largest value a counter can store; one more increment stays here.
pub open spec fn counter_increment(v: u32) -> u32 {
    if v < u32::MAX {
        (v + 1) as u32
    } else {
        u32::MAX
    }
}

/// One decrement, stopping at zero.
pub open spec fn counter_decrement(v: u32) -> u32 {
    if v > 0 {
        (v - 1) as u32
    } else {
        0
    }
}

/// Model of a counter habit: the persisted fields (name, per-date values,
/// goal) beside the transient view state.
#[verifier::ext_equal]
pub struct CountView {
    pub name: Seq<char>,
    pub stats: Map<Date, u32>,
    pub goal: u32,
    pub view_month_offset: u32,
    pub view_mode: ViewMode,
}

impl CountView {
    /// The stored value on a date, or `None` when the date was never tracked.
    pub open spec fn value(self, date: Date) -> Option<u32> {
        if self.stats.contains_key(date) {
            Some(self.stats[date])
        } else {
            None
        }
    }

    /// The goal is reached on a date exactly when a stored value is at least
    /// the goal; an untracked date never reaches it.
    pub open spec fn reached_goal(self, date: Date) -> bool {
        self.stats.contains_key(date) && self.stats[date] >= self.goal
    }

    /// Progress still owed on a date: the goal less the stored value, clamped
    /// at zero; the full goal when the date was never tracked.
    pub open spec fn remaining(self, date: Date) -> u32 {
        if !self.stats.contains_key(date) {
            self.goal
        } else if self.stats[date] >= self.goal {
            0
        } else {
            (self.goal - self.stats[date]) as u32
        }
    }

    /// The stored values after one track event on a date: a first touch
    /// stores one whatever the event; on an existing entry Increment adds one
    /// and Decrement subtracts one, stopping at zero.
    pub open spec fn modified(self, date: Date, event: TrackEvent) -> Map<Date, u32> {
        if !self.stats.contains_key(date) {
            self.stats.insert(date, 1)
        } else {
            match event {
                TrackEvent::Increment => self.stats.insert(
                    date,
                    counter_increment(self.stats[date]),
                ),
                TrackEvent::Decrement => self.stats.insert(
                    date,
                    counter_decrement(self.stats[date]),
                ),
            }
        }
    }
}

/// The capability set every habit kind offers, uniform across kinds:
/// naming, a goal, per-date value storage, goal arithmetic, mutation by
/// track event, and the transient view state. Each implementation states
/// its exact contract on its own impl, over that kind's model.
pub trait Habit {
    type HabitType;

    /// Renames the habit; empty names are permitted.
    fn set_name(&mut self, name: &str);

    /// Replaces the goal value. For a toggle this stores the flag but fixes
    /// nothing: a toggle's numeric goal stays one.
    fn set_goal(&mut self, goal: Self::HabitType);

    fn name(&self) -> String;

    /// Looks a date up; `None` means the date was never tracked, which is
    /// distinct from a stored zero or false value.
    fn get_by_date(&self, date: Date) -> Option<Self::HabitType>;

    /// Upsert: an existing entry for the date is overwritten
    /// unconditionally, an absent one is created.
    fn insert_entry(&mut self, date: Date, value: Self::HabitType);

    fn reached_goal(&self, date: Date) -> bool;

    /// How much is still owed on the date; never underflows.
    fn remaining(&self, date: Date) -> u32;

    /// The numeric projection of the goal.
    fn goal(&self) -> u32;

    /// The sole user-facing mutation path.
    fn modify(&mut self, date: Date, event: TrackEvent);

    fn set_view_month_offset(&mut self, offset: u32);

    fn view_month_offset(&self) -> u32;

    fn set_view_mode(&mut self, mode: ViewMode);

    fn view_mode(&self) -> ViewMode;
}

/// A habit whose progress on a date is an unsigned count toward an unsigned
/// goal.
#[derive(Debug)]
pub struct Count {
    name: String,
    stats: DateMap<u32>,
    goal: u32,
    view_month_offset: u32,
    view_mode: ViewMode,
}

impl View for Count {
    type V = CountView;

    closed spec fn view(&self) -> CountView {
        CountView {
            name: self.name@,
            stats: self.stats@,
            goal: self.goal,
            view_month_offset: self.view_month_offset,
            view_mode: self.view_mode,
        }
    }
}

impl Count {
    /// A fresh counter habit: no history, the given goal, default view state.
    pub fn new(name: &str, goal: u32) -> (r: Count)
        ensures
            r@.name == name@,
            r@.stats == Map::<Date, u32>::empty(),
            r@.goal == goal,
            r@.view_month_offset == 0,
            r@.view_mode == ViewMode::Day,
    {
        Count {
            name: String::from_str(name),
            stats: DateMap::new(),
            goal,
            view_month_offset: 0,
            view_mode: ViewMode::Day,
        }
    }

    /// Assembles a counter habit from persisted fields; view state starts at
    /// its defaults.
    pub fn from_parts(name: String, stats: DateMap<u32>, goal: u32) -> (r: Count)
        ensures
            r@ == (CountView {
                name: name@,
                stats: stats@,
                goal,
                view_month_offset: 0,
                view_mode: ViewMode::Day,
            }),
    {
        Count { name, stats, goal, view_month_offset: 0, view_mode: ViewMode::Day }
    }

    /// The stored entries as date/value pairs, one per tracked date.
    pub fn entries(&self) -> (r: Vec<(Date, u32)>)
        ensures
            unique_dates(r@),
            map_seq(r@) == self@.stats,
    {
        self.stats.to_entries()
    }
}

impl Habit for Count {
    type HabitType = u32;

    fn name(&self) -> (r: String)
        ensures
            r@ == self@.name,
    {
        self.name.clone()
    }

    /// Renames the habit; empty names are permitted.
    fn set_name(&mut self, name: &str)
        ensures
            final(self)@ == (CountView { name: name@, ..old(self)@ }),
    {
        self.name = String::from_str(name);
    }

    fn set_goal(&mut self, goal: u32)
        ensures
            final(self)@ == (CountView { goal, ..old(self)@ }),
    {
        self.goal = goal;
    }

    fn get_by_date(&self, date: Date) -> (r: Option<u32>)
        ensures
            r == self@.value(date),
    {
        self.stats.get(date)
    }

    /// Upsert: an existing entry for the date is overwritten unconditionally,
    /// an absent one is created.
    fn insert_entry(&mut self, date: Date, value: u32)
        ensures
            final(self)@ == (CountView { stats: old(self)@.stats.insert(date, value), ..old(
                self,
            )@ }),
    {
        self.stats.upsert(date, value);
    }

    fn reached_goal(&self, date: Date) -> (r: bool)
        ensures
            r == self@.reached_goal(date),
    {
        match self.stats.get(date) {
            Some(v) => v >= self.goal,
            None => false,
        }
    }

    fn remaining(&self, date: Date) -> (r: u32)
        ensures
            r == self@.remaining(date),
    {
        if self.reached_goal(date) {
            0
        } else {
            match self.stats.get(date) {
                Some(v) => self.goal - v,
                None => self.goal,
            }
        }
    }

    fn goal(&self) -> (r: u32)
        ensures
            r == self@.goal,
    {
        self.goal
    }

    /// The sole user-facing mutation path; see `CountView::modified` for the
    /// effect. Only the per-date values change.
    fn modify(&mut self, date: Date, event: TrackEvent)
        ensures
            final(self)@ == (CountView { stats: old(self)@.modified(date, event), ..old(
                self,
            )@ }),
    {
        match self.stats.get(date) {
            Some(v) => {
                let next: u32 = match event {
                    TrackEvent::Increment => {
                        if v < u32::MAX {
                            v + 1
                        } else {
                            u32::MAX
                        }
                    },
                    TrackEvent::Decrement => {
                        if v > 0 {
                            v - 1
                        } else {
                            0
                        }
                    },
                };
                self.stats.upsert(date, next);
            },
            None => {
                self.stats.upsert(date, 1);
            },
        }
    }

    fn set_view_month_offset(&mut self, offset: u32)
        ensures
            final(self)@ == (CountView { view_month_offset: offset, ..old(self)@ }),
    {
        self.view_month_offset = offset;
    }

    fn view_month_offset(&self) -> (r: u32)
        ensures
            r == self@.view_month_offset,
    {
        self.view_month_offset
    }

    fn set_view_mode(&mut self, mode: ViewMode)
        ensures
            final(self)@ == (CountView { view_mode: mode, ..old(self)@ }),
    {
        self.view_mode = mode;
    }

    fn view_mode(&self) -> (r: ViewMode)
        ensures
            r == self@.view_mode,
    {
        self.view_mode
    }
}

/// Model of a toggle habit: the persisted fields beside the transient view
/// state. The stored goal flag is persisted but fixes nothing: the numeric
/// goal of a toggle is structurally one.
#[verifier::ext_equal]
pub struct BitView {
    pub name: Seq<char>,
    pub stats: Map<Date, CustomBool>,
    pub goal: CustomBool,
    pub view_month_offset: u32,
    pub view_mode: ViewMode,
}

impl BitView {
    /// The stored flag on a date, or `None` when the date was never tracked.
    pub open spec fn value(self, date: Date) -> Option<CustomBool> {
        if self.stats.contains_key(date) {
            Some(self.stats[date])
        } else {
            None
        }
    }

    /// The goal is reached on a date exactly when the stored flag is true; an
    /// untracked date never reaches it.
    pub open spec fn reached_goal(self, date: Date) -> bool {
        self.stats.contains_key(date) && self.stats[date].0
    }

    /// Zero when the stored flag is true, one otherwise (also one when the
    /// date was never tracked).
    pub open spec fn remaining(self, date: Date) -> u32 {
        if self.stats.contains_key(date) && self.stats[date].0 {
            0
        } else {
            1
        }
    }

    /// The stored flags after one track event on a date, whatever the event's
    /// kind: a first touch stores true; an existing flag is negated.
    pub open spec fn modified(self, date: Date) -> Map<Date, CustomBool> {
        if !self.stats.contains_key(date) {
            self.stats.insert(date, CustomBool(true))
        } else {
            self.stats.insert(date, CustomBool(!self.stats[date].0))
        }
    }
}

/// A habit whose progress on a date is a single flag; its numeric goal is
/// structurally one.
#[derive(Debug)]
pub struct Bit {
    name: String,
    stats: DateMap<CustomBool>,
    goal: CustomBool,
    view_month_offset: u32,
    view_mode: ViewMode,
}

impl View for Bit {
    type V = BitView;

    closed spec fn view(&self) -> BitView {
        BitView {
            name: self.name@,
            stats: self.stats@,
            goal: self.goal,
            view_month_offset: self.view_month_offset,
            view_mode: self.view_mode,
        }
    }
}

impl Bit {
    /// A fresh toggle habit: no history, default view state.
    pub fn new(name: &str) -> (r: Bit)
        ensures
            r@.name == name@,
            r@.stats == Map::<Date, CustomBool>::empty(),
            r@.goal == CustomBool(true),
            r@.view_month_offset == 0,
            r@.view_mode == ViewMode::Day,
    {
        Bit {
            name: String::from_str(name),
            stats: DateMap::new(),
            goal: CustomBool(true),
            view_month_offset: 0,
            view_mode: ViewMode::Day,
        }
    }

    /// Assembles a toggle habit from persisted fields; view state starts at
    /// its defaults.
    pub fn from_parts(name: String, stats: DateMap<CustomBool>, goal: CustomBool) -> (r: Bit)
        ensures
            r@ == (BitView {
                name: name@,
                stats: stats@,
                goal,
                view_month_offset: 0,
                view_mode: ViewMode::Day,
            }),
    {
        Bit { name, stats, goal, view_month_offset: 0, view_mode: ViewMode::Day }
    }

    /// The stored entries as date/flag pairs, one per tracked date.
    pub fn entries(&self) -> (r: Vec<(Date, CustomBool)>)
        ensures
            unique_dates(r@),
            map_seq(r@) == self@.stats,
    {
        self.stats.to_entries()
    }

    /// The stored goal flag, as the persisted form carries it.
    pub fn goal_flag(&self) -> (r: CustomBool)
        ensures
            r == self@.goal,
    {
        self.goal
    }
}

impl Habit for Bit {
    type HabitType = CustomBool;

    fn name(&self) -> (r: String)
        ensures
            r@ == self@.name,
    {
        self.name.clone()
    }

    /// Renames the habit; empty names are permitted.
    fn set_name(&mut self, name: &str)
        ensures
            final(self)@ == (BitView { name: name@, ..old(self)@ }),
    {
        self.name = String::from_str(name);
    }

    /// Stores the flag, but fixes nothing: a toggle's numeric goal stays one.
    fn set_goal(&mut self, goal: CustomBool)
        ensures
            final(self)@ == (BitView { goal, ..old(self)@ }),
    {
        self.goal = goal;
    }

    fn get_by_date(&self, date: Date) -> (r: Option<CustomBool>)
        ensures
            r == self@.value(date),
    {
        self.stats.get(date)
    }

    /// Upsert: an existing entry for the date is overwritten unconditionally,
    /// an absent one is created.
    fn insert_entry(&mut self, date: Date, value: CustomBool)
        ensures
            final(self)@ == (BitView { stats: old(self)@.stats.insert(date, value), ..old(
                self,
            )@ }),
    {
        self.stats.upsert(date, value);
    }

    fn reached_goal(&self, date: Date) -> (r: bool)
        ensures
            r == self@.reached_goal(date),
    {
        match self.stats.get(date) {
            Some(v) => v.0,
            None => false,
        }
    }

    fn remaining(&self, date: Date) -> (r: u32)
        ensures
            r == self@.remaining(date),
    {
        match self.stats.get(date) {
            Some(v) => {
                if v.0 {
                    0
                } else {
                    1
                }
            },
            None => 1,
        }
    }

    /// A toggle's numeric goal is one, whatever flag `set_goal` stored.
    fn goal(&self) -> (r: u32)
        ensures
            r == 1,
    {
        1
    }

    /// The sole user-facing mutation path; see `BitView::modified` for the
    /// effect. The event's kind is ignored; only the per-date flags change.
    fn modify(&mut self, date: Date, _event: TrackEvent)
        ensures
            final(self)@ == (BitView { stats: old(self)@.modified(date), ..old(self)@ }),
    {
        match self.stats.get(date) {
            Some(v) => {
                self.stats.upsert(date, CustomBool(!v.0));
            },
            None => {
                self.stats.upsert(date, CustomBool(true));
            },
        }
    }

    fn set_view_month_offset(&mut self, offset: u32)
        ensures
            final(self)@ == (BitView { view_month_offset: offset, ..old(self)@ }),
    {
        self.view_month_offset = offset;
    }

    fn view_month_offset(&self) -> (r: u32)
        ensures
            r == self@.view_month_offset,
    {
        self.view_month_offset
    }

    fn set_view_mode(&mut self, mode: ViewMode)
        ensures
            final(self)@ == (BitView { view_mode: mode, ..old(self)@ }),
    {
        self.view_mode = mode;
    }

    fn view_mode(&self) -> (r: ViewMode)
        ensures
            r == self@.view_mode,
    {
        self.view_mode
    }
}

/// A date never tracked on a counter owes the full goal and has not reached
/// it.
pub proof fn lemma_counter_untracked(c: CountView, date: Date)
    requires
        !c.stats.contains_key(date),
    ensures
        c.remaining(date) == c.goal,
        !c.reached_goal(date),
{
}

/// A track event on a date a counter never saw stores one, whatever the
/// event's kind.
pub proof fn lemma_counter_first_touch(c: CountView, date: Date, event: TrackEvent)
    requires
        !c.stats.contains_key(date),
    ensures
        c.modified(date, event).contains_key(date),
        c.modified(date, event)[date] == 1,
{
}

/// Decrement on an existing entry yields the old value less one, clamped at
/// zero; in particular repeated decrements never pass below zero.
pub proof fn lemma_counter_decrement_floor(c: CountView, date: Date)
    requires
        c.stats.contains_key(date),
    ensures
        c.modified(date, TrackEvent::Decrement)[date] == (if c.stats[date] > 0 {
            (c.stats[date] - 1) as u32
        } else {
            0u32
        }),
        c.modified(date, TrackEvent::Decrement)[date] >= 0,
{
}

/// A counter's goal is reached on a date exactly when the looked-up value is
/// present and at least the goal.
pub proof fn lemma_counter_reached_iff(c: CountView, date: Date)
    ensures
        c.reached_goal(date) <==> (c.value(date) matches Some(v) && v >= c.goal),
{
}

/// A track event on a toggle stores true on a date never seen and otherwise
/// negates the stored flag, whatever the event's kind.
pub proof fn lemma_toggle_modify(b: BitView, date: Date)
    ensures
        !b.stats.contains_key(date) ==> b.modified(date)[date] == CustomBool(true),
        b.stats.contains_key(date) ==> b.modified(date)[date] == CustomBool(!b.stats[date].0),
{
}

/// A track event never removes a date from a counter: the tracked dates
/// afterwards are exactly the old ones plus the touched date.
pub proof fn lemma_counter_dates_never_removed(c: CountView, date: Date, event: TrackEvent)
    ensures
        c.modified(date, event).dom() =~= c.stats.dom().insert(date),
{
}

/// A track event never removes a date from a toggle: the tracked dates
/// afterwards are exactly the old ones plus the touched date.
pub proof fn lemma_toggle_dates_never_removed(b: BitView, date: Date)
    ensures
        b.modified(date).dom() =~= b.stats.dom().insert(date),
{
}

} // verus!
