//! The run store: finished runs, in the order in which they were added.
//!
//! The store is the list in memory. Reading it from disk and writing it back
//! are the caller's.

use crate::aggregate::{RunResult, RunView};
use crate::units::{clamp_i64, quotient, toward_zero, FULL_SCALE};
use vstd::prelude::*;
use vstd::string::StringExecFns;

verus! {

/// Why a request to the run store was turned down.
#[derive(Clone, Copy, Debug, PartialEq, Eq)]
pub enum StoreError {
    /// The store has no run of that id.
    NotFound,
}

/// The runs of a store in figures.
#[derive(Clone, Copy, Debug, PartialEq, Eq)]
pub struct StatsSummary {
    pub total_runs: usize,
    pub total_carbon_micro_g: i128,
    pub total_energy_micro_wh: i128,
    /// Carbon per run; zero for a store without runs.
    pub avg_carbon_micro_g: i64,
    /// By how much the carbon of the last run exceeds that of the run before
    /// it, as a share of the latter; zero where there are fewer than two
    /// runs, or the run before the last has no carbon.
    pub trend_micro_pct: i64,
}

/// The views of `runs`, in order.
pub open spec fn views_of(runs: Seq<RunResult>) -> Seq<RunView> {
    runs.map_values(|run: RunResult| run@)
}

/// Whether some run of `runs` has the id `id`.
pub open spec fn has_id(runs: Seq<RunView>, id: Seq<char>) -> bool {
    exists|i: int| 0 <= i < runs.len() && #[trigger] runs[i].id == id
}

/// The first run of `runs` with the id `id`.
pub open spec fn first_with_id(runs: Seq<RunView>, id: Seq<char>) -> Option<RunView>
    decreases runs.len(),
{
    if runs.len() == 0 {
        None
    } else if runs[0].id == id {
        Some(runs[0])
    } else {
        first_with_id(runs.drop_first(), id)
    }
}

/// `runs` without those of the id `id`, the others in their order.
pub open spec fn without_id(runs: Seq<RunView>, id: Seq<char>) -> Seq<RunView>
    decreases runs.len(),
{
    if runs.len() == 0 {
        Seq::empty()
    } else if runs.last().id == id {
        without_id(runs.drop_last(), id)
    } else {
        without_id(runs.drop_last(), id).push(runs.last())
    }
}

/// The carbon of `runs`, in all.
pub open spec fn carbon_total(runs: Seq<RunView>) -> int
    decreases runs.len(),
{
    if runs.len() == 0 {
        0
    } else {
        carbon_total(runs.drop_last()) + runs.last().carbon.total_micro_g
    }
}

/// The energy of `runs`, in all.
pub open spec fn energy_total(runs: Seq<RunView>) -> int
    decreases runs.len(),
{
    if runs.len() == 0 {
        0
    } else {
        energy_total(runs.drop_last()) + runs.last().energy.total_micro_wh
    }
}

/// By how much `last` exceeds `previous`, as a share of `previous`; zero
/// where `previous` is not positive.
pub open spec fn trend_of(previous: i64, last: i64) -> i64 {
    if previous > 0 {
        clamp_i64(toward_zero((last - previous) * FULL_SCALE, previous as int))
    } else {
        0
    }
}

/// The figures of `runs`.
pub open spec fn summary_of(runs: Seq<RunView>) -> StatsSummary {
    StatsSummary {
        total_runs: runs.len() as usize,
        total_carbon_micro_g: carbon_total(runs) as i128,
        total_energy_micro_wh: energy_total(runs) as i128,
        avg_carbon_micro_g: if runs.len() > 0 {
            clamp_i64(toward_zero(carbon_total(runs), runs.len() as int))
        } else {
            0
        },
        trend_micro_pct: if runs.len() >= 2 {
            trend_of(
                runs[runs.len() - 2].carbon.total_micro_g,
                runs[runs.len() - 1].carbon.total_micro_g,
            )
        } else {
            0
        },
    }
}

/// The text of [`StoreError::NotFound`] for the id `id`.
pub open spec fn not_found_text(id: Seq<char>) -> Seq<char> {
    "Run "@ + id + " not found"@
}

/// Totals of `n` runs are within `n` times the range of one.
proof fn lemma_totals_bounds(runs: Seq<RunView>)
    ensures
        runs.len() * i64::MIN <= carbon_total(runs) <= runs.len() * i64::MAX,
        runs.len() * i64::MIN <= energy_total(runs) <= runs.len() * i64::MAX,
    decreases runs.len(),
{
    if runs.len() > 0 {
        lemma_totals_bounds(runs.drop_last());
    }
}

/// A run that no run before it shares its id with is the one that its id
/// finds.
proof fn lemma_first_with_id_after_push(runs: Seq<RunView>, run: RunView, id: Seq<char>)
    ensures
        first_with_id(runs.push(run), id) == match first_with_id(runs, id) {
            Some(found) => Some(found),
            None => if run.id == id {
                Some(run)
            } else {
                None
            },
        },
    decreases runs.len(),
{
    let pushed = runs.push(run);
    if runs.len() == 0 {
        assert(pushed.drop_first().len() == 0);
    } else {
        assert(pushed[0] == runs[0]);
        assert(pushed.drop_first() =~= runs.drop_first().push(run));
        if runs[0].id != id {
            lemma_first_with_id_after_push(runs.drop_first(), run, id);
        }
    }
}

/// What a store hands back for an id is what was added under it: a run
/// added to a store that has none of its id is found by that id, the same
/// in every field.
pub proof fn law_append_then_get(runs: Seq<RunView>, run: RunView)
    requires
        first_with_id(runs, run.id) is None,
    ensures
        first_with_id(runs.push(run), run.id) == Some(run),
{
    lemma_first_with_id_after_push(runs, run, run.id);
}

/// Adding a run changes what no other id finds.
pub proof fn law_append_keeps_others(runs: Seq<RunView>, run: RunView, id: Seq<char>)
    requires
        id != run.id,
    ensures
        first_with_id(runs.push(run), id) == first_with_id(runs, id),
{
    lemma_first_with_id_after_push(runs, run, id);
}

/// An id finds a run exactly where some run has it.
pub proof fn law_get_finds_what_is_there(runs: Seq<RunView>, id: Seq<char>)
    ensures
        first_with_id(runs, id) is Some <==> has_id(runs, id),
        first_with_id(runs, id) matches Some(found) ==> found.id == id && runs.contains(found),
    decreases runs.len(),
{
    if runs.len() > 0 {
        let rest = runs.drop_first();
        law_get_finds_what_is_there(rest, id);
        if runs[0].id != id {
            if has_id(rest, id) {
                let i = choose|i: int| 0 <= i < rest.len() && #[trigger] rest[i].id == id;
                assert(runs[i + 1].id == id);
            }
            if has_id(runs, id) {
                let i = choose|i: int| 0 <= i < runs.len() && #[trigger] runs[i].id == id;
                assert(rest[i - 1].id == id);
            }
            if first_with_id(rest, id) is Some {
                let found = first_with_id(rest, id)->0;
                let j = choose|j: int| 0 <= j < rest.len() && rest[j] == found;
                assert(runs[j + 1] == found);
            }
        }
    }
}

/// Taking out an id that no run has changes nothing, and after taking out
/// an id no run has it.
proof fn lemma_without_id(runs: Seq<RunView>, id: Seq<char>)
    ensures
        !has_id(runs, id) ==> without_id(runs, id) == runs,
        has_id(runs, id) ==> without_id(runs, id).len() < runs.len(),
        without_id(runs, id).len() <= runs.len(),
        !has_id(without_id(runs, id), id),
    decreases runs.len(),
{
    if runs.len() > 0 {
        let front = runs.drop_last();
        lemma_without_id(front, id);
        let kept = without_id(front, id);
        if has_id(front, id) {
            let i = choose|i: int| 0 <= i < front.len() && #[trigger] front[i].id == id;
            assert(runs[i].id == id);
        }
        if runs.last().id != id {
            if has_id(runs, id) {
                let i = choose|i: int| 0 <= i < runs.len() && #[trigger] runs[i].id == id;
                assert(front[i].id == id);
            } else {
                assert(kept.push(runs.last()) =~= runs);
            }
            let out = kept.push(runs.last());
            if has_id(out, id) {
                let i = choose|i: int| 0 <= i < out.len() && #[trigger] out[i].id == id;
                assert(kept[i].id == id);
            }
        }
    }
}

/// The text of [`StoreError::NotFound`] for the id `id`.
pub fn not_found_message(id: &str) -> (text: String)
    ensures
        text@ == not_found_text(id@),
{
    let mut text = "Run ".to_owned();
    text.append(id);
    text.append(" not found");
    text
}

/// Finished runs, oldest first.
#[derive(Clone, Debug, PartialEq, Eq)]
pub struct RunStore {
    runs: Vec<RunResult>,
}

impl View for RunStore {
    type V = Seq<RunView>;

    closed spec fn view(&self) -> Seq<RunView> {
        views_of(self.runs@)
    }
}

impl RunStore {
    /// A store without runs.
    pub fn new() -> (store: RunStore)
        ensures
            store@ == Seq::<RunView>::empty(),
    {
        RunStore { runs: Vec::new() }
    }

    /// The store of `runs`, in their order.
    pub fn from_runs(runs: Vec<RunResult>) -> (store: RunStore)
        ensures
            store@ == views_of(runs@),
    {
        RunStore { runs }
    }

    /// All runs, oldest first.
    pub fn get_runs(&self) -> (runs: &Vec<RunResult>)
        ensures
            views_of(runs@) == self@,
    {
        &self.runs
    }

    /// Adds `run` behind the others.
    pub fn append(&mut self, run: RunResult)
        ensures
            final(self)@ == old(self)@.push(run@),
    {
        self.runs.push(run);
    }

    /// The first run of the id `id`.
    pub fn get_run(&self, id: &str) -> (found: Option<&RunResult>)
        ensures
            match found {
                Some(run) => first_with_id(self@, id@) == Some(run@),
                None => first_with_id(self@, id@) is None,
            },
    {
        let key: String = id.to_owned();
        let ghost all = views_of(self.runs@);
        assert(all.skip(0) =~= all);
        let mut i: usize = 0;
        while i < self.runs.len()
            invariant
                i <= self.runs.len(),
                key@ == id@,
                all == views_of(self.runs@),
                first_with_id(all, id@) == first_with_id(all.skip(i as int), id@),
            decreases self.runs.len() - i,
        {
            assert(all.skip(i as int)[0] == self.runs@[i as int]@);
            assert(all.skip(i as int).drop_first() =~= all.skip(i + 1));
            if self.runs[i].id == key {
                return Some(&self.runs[i]);
            }
            i += 1;
        }
        None
    }

    /// Takes out every run of the id `id`; the others keep their order.
    /// Fails, and changes nothing, where no run has that id.
    pub fn delete_run(&mut self, id: &str) -> (outcome: Result<(), StoreError>)
        ensures
            has_id(old(self)@, id@) ==> outcome is Ok && final(self)@ == without_id(
                old(self)@,
                id@,
            ),
            !has_id(old(self)@, id@) ==> outcome == Err::<(), StoreError>(StoreError::NotFound)
                && final(self)@ == old(self)@,
    {
        let key: String = id.to_owned();
        let ghost before = views_of(self.runs@);
        let before_len = self.runs.len();
        let mut i: usize = 0;
        let mut seen: usize = 0;
        assert(views_of(self.runs@) =~= without_id(before.take(0), id@) + before.skip(0));
        while seen < before_len
            invariant
                key@ == id@,
                before_len == before.len(),
                seen <= before_len,
                i == without_id(before.take(seen as int), id@).len(),
                i <= seen,
                self.runs.len() == i + (before_len - seen),
                views_of(self.runs@) == without_id(before.take(seen as int), id@) + before.skip(
                    seen as int,
                ),
            decreases before_len - seen,
        {
            let ghost kept = without_id(before.take(seen as int), id@);
            proof {
                let next = before.take(seen + 1);
                assert(next.drop_last() =~= before.take(seen as int));
                assert(next.last() == before[seen as int]);
                assert(views_of(self.runs@)[i as int] == before.skip(seen as int)[0]);
                assert(self.runs@[i as int]@ == before[seen as int]);
            }
            if self.runs[i].id == key {
                let ghost prior = self.runs@;
                self.runs.remove(i);
                proof {
                    let after = views_of(self.runs@);
                    let target = kept + before.skip(seen + 1);
                    assert(after.len() == target.len());
                    assert forall|j: int| 0 <= j < after.len() implies after[j] == target[j] by {
                        if j < i {
                            assert(after[j] == views_of(prior)[j]);
                        } else {
                            assert(after[j] == views_of(prior)[j + 1]);
                            assert(views_of(prior)[j + 1] == before.skip(seen as int)[j + 1 - i]);
                        }
                    }
                    assert(after =~= target);
                }
            } else {
                assert(views_of(self.runs@) =~= kept.push(before[seen as int]) + before.skip(
                    seen + 1,
                ));
                i += 1;
            }
            seen += 1;
        }
        proof {
            assert(before.take(before_len as int) =~= before);
            assert(views_of(self.runs@) =~= without_id(before, id@));
            lemma_without_id(before, id@);
        }
        if self.runs.len() == before_len {
            Err(StoreError::NotFound)
        } else {
            Ok(())
        }
    }

    /// The figures of the runs.
    pub fn get_stats_summary(&self) -> (summary: StatsSummary)
        ensures
            summary == summary_of(self@),
    {
        let n = self.runs.len();
        let ghost all = views_of(self.runs@);
        let mut total_carbon: i128 = 0;
        let mut total_energy: i128 = 0;
        let mut i: usize = 0;
        while i < n
            invariant
                n == self.runs.len(),
                all == views_of(self.runs@),
                i <= n,
                total_carbon == carbon_total(all.take(i as int)),
                total_energy == energy_total(all.take(i as int)),
            decreases n - i,
        {
            proof {
                let next = all.take(i + 1);
                assert(next.drop_last() =~= all.take(i as int));
                assert(next.last() == self.runs@[i as int]@);
                lemma_totals_bounds(next);
            }
            total_carbon = total_carbon + self.runs[i].carbon.total_micro_g as i128;
            total_energy = total_energy + self.runs[i].energy.total_micro_wh as i128;
            i += 1;
        }
        proof {
            assert(all.take(n as int) =~= all);
        }
        let avg_carbon = if n > 0 {
            quotient(total_carbon, n as u64)
        } else {
            0
        };
        let trend = if n >= 2 {
            let last = self.runs[n - 1].carbon.total_micro_g;
            let previous = self.runs[n - 2].carbon.total_micro_g;
            if previous > 0 {
                let rise: i128 = last as i128 - previous as i128;
                assert(-0x1_0000_0000_0000_0000 * 100_000_000 <= rise * FULL_SCALE
                    <= 0x1_0000_0000_0000_0000 * 100_000_000) by (nonlinear_arith)
                    requires
                        -0x1_0000_0000_0000_0000 <= rise <= 0x1_0000_0000_0000_0000,
                        FULL_SCALE == 100_000_000,
                ;
                quotient(rise * (FULL_SCALE as i128), previous as u64)
            } else {
                0
            }
        } else {
            0
        };
        StatsSummary {
            total_runs: n,
            total_carbon_micro_g: total_carbon,
            total_energy_micro_wh: total_energy,
            avg_carbon_micro_g: avg_carbon,
            trend_micro_pct: trend,
        }
    }
}

} // verus!
