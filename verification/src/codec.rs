use crate::date::Date;
use crate::habit::{Bit, BitView, Count, CountView, CustomBool, Habit, ViewMode};
use crate::store::{lemma_map_seq_map_values, map_seq, DateMap};
use crate::wrapper::{HabitView, HabitWrapper};
use vstd::prelude::*;

verus! {

/// Discriminant that marks a counter record.
pub const KIND_COUNT: u64 = 1;

/// Discriminant that marks a toggle record.
pub const KIND_BIT: u64 = 2;

/// The persisted form of one habit: a kind discriminant beside the habit's
/// persisted fields. View state is deliberately absent from this form; a
/// decoded habit always starts at the default view state.
#[derive(Debug)]
pub struct EncodedHabit {
    pub kind: u64,
    pub name: String,
    pub entries: Vec<(Date, u64)>,
    pub goal: u64,
}

/// Model of an encoded record. Entry order carries no meaning, so the
/// entries stand for the map they spell.
#[verifier::ext_equal]
pub struct EncodedView {
    pub kind: u64,
    pub name: Seq<char>,
    pub values: Map<Date, u64>,
    pub goal: u64,
}

impl View for EncodedHabit {
    type V = EncodedView;

    open spec fn view(&self) -> EncodedView {
        EncodedView {
            kind: self.kind,
            name: self.name@,
            values: map_seq(self.entries@),
            goal: self.goal,
        }
    }
}

/// Failure of decoding. The only fallible condition: a record whose
/// discriminant names no known habit kind. Such a record yields no habit at
/// all, never a default one.
#[derive(Debug, Clone, Copy, PartialEq, Eq, Structural)]
pub enum DecodeError {
    UnknownVariant(u64),
}

impl DecodeError {
    /// A short report of the failure for callers that print errors.
    pub fn message(&self) -> (r: String)
        ensures
            r@ == "unknown habit kind"@,
    {
        String::from_str("unknown habit kind")
    }
}

/// The counter value a persisted number stands for: numbers beyond the
/// counter's range clamp to the largest counter value.
pub open spec fn spec_count_of(v: u64) -> u32 {
    if v <= u32::MAX {
        v as u32
    } else {
        u32::MAX
    }
}

/// The flag a persisted number stands for: zero is false, anything else true.
pub open spec fn spec_flag_of(v: u64) -> CustomBool {
    CustomBool(v != 0)
}

/// The number a flag is persisted as.
pub open spec fn spec_flag_to_num(b: CustomBool) -> u64 {
    if b.0 {
        1
    } else {
        0
    }
}

/// The record a habit encodes to: its kind's discriminant beside the
/// persisted fields, every date-keyed value kept exactly.
pub open spec fn spec_encode(h: HabitView) -> EncodedView {
    match h {
        HabitView::Count(c) => EncodedView {
            kind: KIND_COUNT,
            name: c.name,
            values: c.stats.map_values(|v: u32| v as u64),
            goal: c.goal as u64,
        },
        HabitView::Bit(b) => EncodedView {
            kind: KIND_BIT,
            name: b.name,
            values: b.stats.map_values(|v: CustomBool| spec_flag_to_num(v)),
            goal: spec_flag_to_num(b.goal),
        },
    }
}

/// The habit a record decodes to, with view state at its defaults, or the
/// error when the record's discriminant names no known kind.
pub open spec fn spec_decode(e: EncodedView) -> Result<HabitView, DecodeError> {
    if e.kind == KIND_COUNT {
        Ok(
            HabitView::Count(
                CountView {
                    name: e.name,
                    stats: e.values.map_values(|v: u64| spec_count_of(v)),
                    goal: spec_count_of(e.goal),
                    view_month_offset: 0,
                    view_mode: ViewMode::Day,
                },
            ),
        )
    } else if e.kind == KIND_BIT {
        Ok(
            HabitView::Bit(
                BitView {
                    name: e.name,
                    stats: e.values.map_values(|v: u64| spec_flag_of(v)),
                    goal: spec_flag_of(e.goal),
                    view_month_offset: 0,
                    view_mode: ViewMode::Day,
                },
            ),
        )
    } else {
        Err(DecodeError::UnknownVariant(e.kind))
    }
}

/// Whether an executable decoding result models a specified one.
pub open spec fn decode_matches(
    r: Result<HabitWrapper, DecodeError>,
    s: Result<HabitView, DecodeError>,
) -> bool {
    match (r, s) {
        (Ok(h), Ok(hv)) => h@ == hv,
        (Err(a), Err(b)) => a == b,
        _ => false,
    }
}

/// Serializes one habit into its tagged record.
pub fn encode(h: &HabitWrapper) -> (e: EncodedHabit)
    ensures
        e@ == spec_encode(h@),
{
    match h {
        HabitWrapper::Count(c) => {
            let src = c.entries();
            let n = src.len();
            let mut entries: Vec<(Date, u64)> = Vec::new();
            let mut idx: usize = 0;
            while idx < n
                invariant
                    n == src@.len(),
                    idx <= n,
                    entries@.len() == idx,
                    forall|j: int| 0 <= j < idx ==> entries@[j] == (src@[j].0, src@[j].1 as u64),
                decreases n - idx,
            {
                entries.push((src[idx].0, src[idx].1 as u64));
                idx += 1;
            }
            proof {
                lemma_map_seq_map_values(src@, entries@, |v: u32| v as u64);
                assert(map_seq(entries@) =~= c@.stats.map_values(|v: u32| v as u64));
            }
            EncodedHabit { kind: KIND_COUNT, name: c.name(), entries, goal: c.goal() as u64 }
        },
        HabitWrapper::Bit(b) => {
            let src = b.entries();
            let n = src.len();
            let mut entries: Vec<(Date, u64)> = Vec::new();
            let mut idx: usize = 0;
            while idx < n
                invariant
                    n == src@.len(),
                    idx <= n,
                    entries@.len() == idx,
                    forall|j: int|
                        0 <= j < idx ==> entries@[j] == (src@[j].0, spec_flag_to_num(src@[j].1)),
                decreases n - idx,
            {
                let flag = src[idx].1;
                let num: u64 = if flag.0 {
                    1
                } else {
                    0
                };
                entries.push((src[idx].0, num));
                idx += 1;
            }
            proof {
                lemma_map_seq_map_values(src@, entries@, |v: CustomBool| spec_flag_to_num(v));
                assert(map_seq(entries@) =~= b@.stats.map_values(|v: CustomBool| spec_flag_to_num(v)));
            }
            let flag = b.goal_flag();
            let goal: u64 = if flag.0 {
                1
            } else {
                0
            };
            EncodedHabit { kind: KIND_BIT, name: b.name(), entries, goal }
        },
    }
}

/// Rebuilds the habit a record stands for, dispatching on the record's
/// discriminant; a record of unknown kind is rejected whole.
pub fn decode(e: &EncodedHabit) -> (r: Result<HabitWrapper, DecodeError>)
    ensures
        decode_matches(r, spec_decode(e@)),
        r is Ok <==> (e@.kind == KIND_COUNT || e@.kind == KIND_BIT),
{
    if e.kind == KIND_COUNT {
        let n = e.entries.len();
        let mut entries: Vec<(Date, u32)> = Vec::new();
        let mut idx: usize = 0;
        while idx < n
            invariant
                n == e.entries@.len(),
                idx <= n,
                entries@.len() == idx,
                forall|j: int|
                    0 <= j < idx ==> entries@[j] == (e.entries@[j].0, spec_count_of(
                        e.entries@[j].1,
                    )),
            decreases n - idx,
        {
            let v = e.entries[idx].1;
            let c: u32 = if v <= u32::MAX as u64 {
                v as u32
            } else {
                u32::MAX
            };
            entries.push((e.entries[idx].0, c));
            idx += 1;
        }
        let stats = DateMap::<u32>::from_entries(&entries);
        proof {
            lemma_map_seq_map_values(e.entries@, entries@, |v: u64| spec_count_of(v));
            assert(map_seq(entries@) =~= e@.values.map_values(|v: u64| spec_count_of(v)));
        }
        let goal: u32 = if e.goal <= u32::MAX as u64 {
            e.goal as u32
        } else {
            u32::MAX
        };
        Ok(HabitWrapper::Count(Count::from_parts(e.name.clone(), stats, goal)))
    } else if e.kind == KIND_BIT {
        let n = e.entries.len();
        let mut entries: Vec<(Date, CustomBool)> = Vec::new();
        let mut idx: usize = 0;
        while idx < n
            invariant
                n == e.entries@.len(),
                idx <= n,
                entries@.len() == idx,
                forall|j: int|
                    0 <= j < idx ==> entries@[j] == (e.entries@[j].0, spec_flag_of(
                        e.entries@[j].1,
                    )),
            decreases n - idx,
        {
            let v = e.entries[idx].1;
            entries.push((e.entries[idx].0, CustomBool(v != 0)));
            idx += 1;
        }
        let stats = DateMap::<CustomBool>::from_entries(&entries);
        proof {
            lemma_map_seq_map_values(e.entries@, entries@, |v: u64| spec_flag_of(v));
            assert(map_seq(entries@) =~= e@.values.map_values(|v: u64| spec_flag_of(v)));
        }
        let goal = CustomBool(e.goal != 0);
        Ok(HabitWrapper::Bit(Bit::from_parts(e.name.clone(), stats, goal)))
    } else {
        Err(DecodeError::UnknownVariant(e.kind))
    }
}

/// Serializes a mixed collection, one tagged record per habit, in order.
pub fn encode_all(habits: &Vec<HabitWrapper>) -> (r: Vec<EncodedHabit>)
    ensures
        r@.len() == habits@.len(),
        forall|i: int| 0 <= i < habits@.len() ==> #[trigger] r@[i]@ == spec_encode(habits@[i]@),
{
    let n = habits.len();
    let mut r: Vec<EncodedHabit> = Vec::new();
    let mut idx: usize = 0;
    while idx < n
        invariant
            n == habits@.len(),
            idx <= n,
            r@.len() == idx,
            forall|i: int| 0 <= i < idx ==> #[trigger] r@[i]@ == spec_encode(habits@[i]@),
        decreases n - idx,
    {
        let e = encode(&habits[idx]);
        r.push(e);
        idx += 1;
    }
    r
}

/// Rebuilds a whole collection; the first record of unknown kind fails the
/// load, and then no habit at all is produced.
pub fn decode_all(records: &Vec<EncodedHabit>) -> (r: Result<Vec<HabitWrapper>, DecodeError>)
    ensures
        r matches Ok(habits) ==> habits@.len() == records@.len() && forall|i: int|
            0 <= i < records@.len() ==> decode_matches(
                Ok(#[trigger] habits@[i]),
                spec_decode(records@[i]@),
            ),
        r matches Err(err) ==> exists|i: int|
            0 <= i < records@.len() && spec_decode(#[trigger] records@[i]@) == Err::<
                HabitView,
                DecodeError,
            >(err),
        r is Ok <==> (forall|i: int|
            0 <= i < records@.len() ==> spec_decode(#[trigger] records@[i]@) is Ok),
{
    let n = records.len();
    let mut habits: Vec<HabitWrapper> = Vec::new();
    let mut idx: usize = 0;
    while idx < n
        invariant
            n == records@.len(),
            idx <= n,
            habits@.len() == idx,
            forall|i: int| 0 <= i < idx ==> decode_matches(
                Ok(#[trigger] habits@[i]),
                spec_decode(records@[i]@),
            ),
        decreases n - idx,
    {
        match decode(&records[idx]) {
            Ok(h) => {
                habits.push(h);
            },
            Err(err) => {
                proof {
                    assert(spec_decode(records@[idx as int]@) == Err::<HabitView, DecodeError>(
                        err,
                    ));
                }
                return Err(err);
            },
        }
        idx += 1;
    }
    proof {
        assert forall|i: int| 0 <= i < records@.len() implies spec_decode(
            #[trigger] records@[i]@,
        ) is Ok by {
            assert(decode_matches(Ok(habits@[i]), spec_decode(records@[i]@)));
        }
    }
    Ok(habits)
}

/// Round trip: encoding a habit and decoding the record rebuilds the same
/// kind with the same name, the same goal and the same date-keyed values,
/// while the view state comes back at its defaults whatever it was before.
pub proof fn lemma_round_trip(h: HabitView)
    ensures
        spec_decode(spec_encode(h)) == Ok::<HabitView, DecodeError>(h.with_default_view()),
{
    match h {
        HabitView::Count(c) => {
            assert(c.stats.map_values(|v: u32| v as u64).map_values(|v: u64| spec_count_of(v))
                =~= c.stats);
            assert(spec_decode(spec_encode(h))->Ok_0 =~= h.with_default_view());
        },
        HabitView::Bit(b) => {
            assert(b.stats.map_values(|v: CustomBool| spec_flag_to_num(v)).map_values(
                |v: u64| spec_flag_of(v),
            ) =~= b.stats);
            assert(spec_decode(spec_encode(h))->Ok_0 =~= h.with_default_view());
        },
    }
}

/// A record decodes exactly when its discriminant names a known kind; an
/// unknown discriminant is reported as such, carrying the discriminant.
pub proof fn lemma_unknown_kind(e: EncodedView)
    ensures
        spec_decode(e) is Err <==> (e.kind != KIND_COUNT && e.kind != KIND_BIT),
        spec_decode(e) is Err ==> spec_decode(e) == Err::<HabitView, DecodeError>(
            DecodeError::UnknownVariant(e.kind),
        ),
{
}

} // verus!
