//! Removing old results.

use crate::storage::result_path;
use crate::text::{chars_of, same_text, string_of};
use crate::topology::CLEANUP_INTERVAL_SECS;
use vstd::prelude::*;
use vstd::string::*;

verus! {

/// What is to be done next to keep the directory clean.
#[derive(Debug, Clone, Copy, PartialEq, Eq, Structural)]
pub enum CleanupStep {
    /// Wait until the next sweep is due.
    AwaitSweep,
    /// Open the directory.
    OpenDir,
    /// Take the next entry of the directory, and find its age.
    NextEntry,
    /// Remove the entry that was taken.
    RemoveEntry,
}

/// Where the work stands. There is no end to it.
#[derive(Debug, Clone, Copy, PartialEq, Eq, Structural)]
pub struct Cleanup {
    /// When the sweep that runs, or else the next one, is due: in seconds after
    /// the work began.
    pub due_secs: u64,
    pub step: CleanupStep,
}

/// What came of the step that was to be done.
#[derive(Debug)]
pub enum CleanupEvent {
    /// The sweep is due, the directory is open, or the entry is removed.
    Done,
    /// The directory or its next entry could not be read, or the entry not removed.
    Failed,
    /// The next entry has this name, and was last changed this many seconds ago,
    /// where that can be told.
    Entry { name: String, age_secs: Option<u64> },
    /// There is no further entry.
    NoMoreEntries,
}

/// The contents of an event.
#[verifier::ext_equal]
pub enum CleanupEventView {
    Done,
    Failed,
    Entry { name: Seq<char>, age_secs: Option<u64> },
    NoMoreEntries,
}

impl View for CleanupEvent {
    type V = CleanupEventView;

    open spec fn view(&self) -> CleanupEventView {
        match self {
            CleanupEvent::Done => CleanupEventView::Done,
            CleanupEvent::Failed => CleanupEventView::Failed,
            CleanupEvent::Entry { name, age_secs } => CleanupEventView::Entry {
                name: name@,
                age_secs: *age_secs,
            },
            CleanupEvent::NoMoreEntries => CleanupEventView::NoMoreEntries,
        }
    }
}

/// The name of a result: it ends in `.json`.
pub open spec fn is_result(name: Seq<char>) -> bool {
    name.len() >= 5 && name.skip(name.len() - 5) == ".json"@
}

/// An entry that is to be removed: a result whose age is known and above the limit.
pub open spec fn expired(name: Seq<char>, age_secs: Option<u64>, max_age_secs: u64) -> bool {
    is_result(name) && (age_secs matches Some(age) && age > max_age_secs)
}

/// When the sweep after the one at `due_secs` is due.
pub open spec fn next_due(due_secs: u64) -> u64 {
    if due_secs + CLEANUP_INTERVAL_SECS <= u64::MAX {
        (due_secs + CLEANUP_INTERVAL_SECS) as u64
    } else {
        u64::MAX
    }
}

/// Where the work stands after `event`, where results may be `max_age_secs` old.
/// An event that does not answer the step changes nothing.
pub open spec fn cleanup_next(
    max_age_secs: u64,
    state: Cleanup,
    event: CleanupEventView,
) -> Cleanup {
    let over = Cleanup { due_secs: next_due(state.due_secs), step: CleanupStep::AwaitSweep };
    match (state.step, event) {
        (CleanupStep::AwaitSweep, CleanupEventView::Done) => Cleanup {
            step: CleanupStep::OpenDir,
            ..state
        },
        (CleanupStep::OpenDir, CleanupEventView::Done) => Cleanup {
            step: CleanupStep::NextEntry,
            ..state
        },
        (CleanupStep::OpenDir, CleanupEventView::Failed) => over,
        (CleanupStep::NextEntry, CleanupEventView::Entry { name, age_secs }) => if expired(
            name,
            age_secs,
            max_age_secs,
        ) {
            Cleanup { step: CleanupStep::RemoveEntry, ..state }
        } else {
            state
        },
        (CleanupStep::NextEntry, CleanupEventView::NoMoreEntries) => over,
        (CleanupStep::NextEntry, CleanupEventView::Failed) => over,
        (CleanupStep::RemoveEntry, CleanupEventView::Done) => Cleanup {
            step: CleanupStep::NextEntry,
            ..state
        },
        (CleanupStep::RemoveEntry, CleanupEventView::Failed) => Cleanup {
            step: CleanupStep::NextEntry,
            ..state
        },
        _ => state,
    }
}

/// Whether an entry with this name is a result.
pub fn is_result_name(name: &str) -> (r: bool)
    ensures
        r == is_result(name@),
{
    let chars = chars_of(name);
    let n: usize = chars.len();
    if n < 5 {
        return false;
    }
    let suffix = string_of(&chars, n - 5, n);
    assert(suffix@ =~= name@.skip(name@.len() - 5));
    same_text(suffix.as_str(), ".json")
}

/// Whether an entry with this name and age is to be removed.
pub fn is_expired(name: &str, age_secs: Option<u64>, max_age_secs: u64) -> (r: bool)
    ensures
        r == expired(name@, age_secs, max_age_secs),
        age_secs is None ==> !r,
        age_secs matches Some(age) ==> (r <==> age > max_age_secs && is_result(name@)),
{
    match age_secs {
        Some(age) => age > max_age_secs && is_result_name(name),
        None => false,
    }
}

impl Cleanup {
    /// The begin of the work: the first sweep is due at once.
    pub fn start() -> (r: Cleanup)
        ensures
            r == cleanup_start(),
    {
        Cleanup { due_secs: 0, step: CleanupStep::AwaitSweep }
    }

    /// The end of a sweep: the next one is due an interval after this one was.
    fn sweep_over(self) -> (r: Cleanup)
        ensures
            r == (Cleanup { due_secs: next_due(self.due_secs), step: CleanupStep::AwaitSweep }),
    {
        let due_secs: u64 = match self.due_secs.checked_add(CLEANUP_INTERVAL_SECS) {
            Some(due_secs) => due_secs,
            None => u64::MAX,
        };
        Cleanup { due_secs, step: CleanupStep::AwaitSweep }
    }

    /// Where the work stands after `event`, where results may be `max_age_secs` old.
    pub fn next(self, event: CleanupEvent, max_age_secs: u64) -> (r: Cleanup)
        ensures
            r == cleanup_next(max_age_secs, self, event@),
            r.step is RemoveEntry ==> self == r || (event matches CleanupEvent::Entry {
                name,
                age_secs,
            } && is_result(name@) && (age_secs matches Some(age) && age > max_age_secs)),
    {
        match (self.step, event) {
            (CleanupStep::AwaitSweep, CleanupEvent::Done) => Cleanup {
                step: CleanupStep::OpenDir,
                ..self
            },
            (CleanupStep::OpenDir, CleanupEvent::Done) => Cleanup {
                step: CleanupStep::NextEntry,
                ..self
            },
            (CleanupStep::OpenDir, CleanupEvent::Failed) => self.sweep_over(),
            (CleanupStep::NextEntry, CleanupEvent::Entry { name, age_secs }) => if is_expired(
                name.as_str(),
                age_secs,
                max_age_secs,
            ) {
                Cleanup { step: CleanupStep::RemoveEntry, ..self }
            } else {
                self
            },
            (CleanupStep::NextEntry, CleanupEvent::NoMoreEntries) => self.sweep_over(),
            (CleanupStep::NextEntry, CleanupEvent::Failed) => self.sweep_over(),
            (CleanupStep::RemoveEntry, CleanupEvent::Done) => Cleanup {
                step: CleanupStep::NextEntry,
                ..self
            },
            (CleanupStep::RemoveEntry, CleanupEvent::Failed) => Cleanup {
                step: CleanupStep::NextEntry,
                ..self
            },
            _ => self,
        }
    }
}

/// The begin of the work.
pub open spec fn cleanup_start() -> Cleanup {
    Cleanup { due_secs: 0, step: CleanupStep::AwaitSweep }
}

/// Where the work stands after `events`.
pub open spec fn cleanup_run(
    max_age_secs: u64,
    state: Cleanup,
    events: Seq<CleanupEventView>,
) -> Cleanup
    decreases events.len(),
{
    if events.len() == 0 {
        state
    } else {
        cleanup_run(
            max_age_secs,
            cleanup_next(max_age_secs, state, events.first()),
            events.drop_first(),
        )
    }
}

/// How many sweeps come to their end in the course of `events`.
pub open spec fn sweeps_over(
    max_age_secs: u64,
    state: Cleanup,
    events: Seq<CleanupEventView>,
) -> nat
    decreases events.len(),
{
    if events.len() == 0 {
        0
    } else {
        let next = cleanup_next(max_age_secs, state, events.first());
        let here: nat = if next.step is AwaitSweep && state.step !is AwaitSweep {
            1
        } else {
            0
        };
        here + sweeps_over(max_age_secs, next, events.drop_first())
    }
}

/// Whether each entry of a directory is to be removed in a sweep: the entries are
/// taken in order, each with its name and age, and `removed` tells whether each
/// removal works.
pub open spec fn removals(
    max_age_secs: u64,
    state: Cleanup,
    entries: Seq<(Seq<char>, Option<u64>)>,
    removed: Seq<bool>,
) -> Seq<bool>
    decreases entries.len(),
{
    if entries.len() == 0 {
        Seq::empty()
    } else {
        let (name, age_secs) = entries.first();
        let taken = cleanup_next(max_age_secs, state, CleanupEventView::Entry { name, age_secs });
        let after = if taken.step is RemoveEntry {
            cleanup_next(
                max_age_secs,
                taken,
                if removed.first() {
                    CleanupEventView::Done
                } else {
                    CleanupEventView::Failed
                },
            )
        } else {
            taken
        };
        seq![taken.step is RemoveEntry] + removals(
            max_age_secs,
            after,
            entries.drop_first(),
            removed.drop_first(),
        )
    }
}

/// In a sweep, exactly the results that are older than the limit are to be
/// removed. An entry whose age is not known is passed over, and that the removal
/// of one fails does not keep any other.
pub proof fn law_exactly_the_old_results_are_removed(
    max_age_secs: u64,
    due_secs: u64,
    entries: Seq<(Seq<char>, Option<u64>)>,
    removed: Seq<bool>,
)
    ensures
        removals(
            max_age_secs,
            Cleanup { due_secs, step: CleanupStep::NextEntry },
            entries,
            removed,
        ) == entries.map_values(
            |entry: (Seq<char>, Option<u64>)| expired(entry.0, entry.1, max_age_secs),
        ),
    decreases entries.len(),
{
    let is_old = |entry: (Seq<char>, Option<u64>)| expired(entry.0, entry.1, max_age_secs);
    let state = Cleanup { due_secs, step: CleanupStep::NextEntry };
    if entries.len() > 0 {
        let rest = entries.drop_first();
        law_exactly_the_old_results_are_removed(
            max_age_secs,
            due_secs,
            rest,
            removed.drop_first(),
        );
        assert(entries.map_values(is_old) =~= seq![is_old(entries.first())] + rest.map_values(
            is_old,
        ));
    } else {
        assert(removals(max_age_secs, state, entries, removed) =~= entries.map_values(is_old));
    }
}

/// No failure does more than it must: a directory or an entry that cannot be read
/// ends the sweep and leaves the next one to come, and an entry that cannot be
/// removed leaves the others to come.
pub proof fn law_failures_are_passed_over(max_age_secs: u64, state: Cleanup)
    ensures
        state.step is OpenDir || state.step is NextEntry ==> cleanup_next(
            max_age_secs,
            state,
            CleanupEventView::Failed,
        ) == (Cleanup { due_secs: next_due(state.due_secs), step: CleanupStep::AwaitSweep }),
        state.step is RemoveEntry ==> cleanup_next(max_age_secs, state, CleanupEventView::Failed)
            == (Cleanup { step: CleanupStep::NextEntry, ..state }),
        state.step is AwaitSweep ==> cleanup_next(max_age_secs, state, CleanupEventView::Failed)
            == state,
{
}

/// Whatever happens, and even if everything fails from then on, the directory is
/// opened again for a further sweep: the work never ends.
pub proof fn law_sweeps_never_end(
    max_age_secs: u64,
    state: Cleanup,
    events: Seq<CleanupEventView>,
)
    ensures
        cleanup_run(
            max_age_secs,
            cleanup_run(max_age_secs, state, events),
            seq![CleanupEventView::Failed, CleanupEventView::Failed, CleanupEventView::Done],
        ).step is OpenDir,
{
    let failing = seq![CleanupEventView::Failed, CleanupEventView::Failed, CleanupEventView::Done];
    reveal_with_fuel(cleanup_run, 4);
    assert(failing.drop_first().first() is Failed);
    assert(failing.drop_first().drop_first().first() is Done);
    assert(failing.drop_first().drop_first().drop_first() =~= Seq::empty());
}

/// The first sweep is due at once, and every further one an interval after the
/// one before it, whatever happens in between: the sweep after `n` others is due
/// after `n` intervals, as far as that can be counted.
pub proof fn law_sweeps_are_due_at_intervals(max_age_secs: u64, events: Seq<CleanupEventView>)
    ensures
        ({
            let due = CLEANUP_INTERVAL_SECS * sweeps_over(max_age_secs, cleanup_start(), events);
            cleanup_run(max_age_secs, cleanup_start(), events).due_secs == (if due <= u64::MAX {
                due
            } else {
                u64::MAX as int
            })
        }),
{
    lemma_due(max_age_secs, cleanup_start(), events);
}

proof fn lemma_due(max_age_secs: u64, state: Cleanup, events: Seq<CleanupEventView>)
    ensures
        ({
            let due = state.due_secs + CLEANUP_INTERVAL_SECS * sweeps_over(
                max_age_secs,
                state,
                events,
            );
            cleanup_run(max_age_secs, state, events).due_secs == (if due <= u64::MAX {
                due
            } else {
                u64::MAX as int
            })
        }),
    decreases events.len(),
{
    if events.len() > 0 {
        let next = cleanup_next(max_age_secs, state, events.first());
        lemma_due(max_age_secs, next, events.drop_first());
    }
}

/// The file of every result is a result by its name, so that it is removed once
/// it is old.
pub proof fn law_results_are_swept(dir: Seq<char>, task_id: Seq<char>)
    ensures
        result_path(dir, task_id) == dir + "/"@ + (task_id + ".json"@),
        is_result(task_id + ".json"@),
{
    reveal_strlit(".json");
    let name = task_id + ".json"@;
    assert(result_path(dir, task_id) =~= dir + "/"@ + name);
    assert(name.skip(name.len() - 5) =~= ".json"@);
}

/// The names of results are those that end in `.json`.
pub proof fn law_names_of_results(name: Seq<char>, stem: Seq<char>)
    ensures
        is_result(stem + ".json"@),
        is_result(name) <==> exists|front: Seq<char>| name == #[trigger] (front + ".json"@),
{
    reveal_strlit(".json");
    let whole = stem + ".json"@;
    assert(whole.skip(whole.len() - 5) =~= ".json"@);
    if is_result(name) {
        assert(name =~= name.take(name.len() - 5) + ".json"@);
    }
    if exists|front: Seq<char>| name == #[trigger] (front + ".json"@) {
        let front = choose|front: Seq<char>| name == #[trigger] (front + ".json"@);
        assert(name.skip(name.len() - 5) =~= ".json"@);
    }
}

/// In a sweep, nothing is removed that is not older than the limit, or whose age is not
/// known, or that is not named like a result: it is passed over.
pub proof fn law_young_results_are_kept(
    max_age_secs: u64,
    state: Cleanup,
    name: Seq<char>,
    age_secs: Option<u64>,
)
    requires
        state.step is NextEntry,
        age_secs is None || age_secs->Some_0 <= max_age_secs || !exists|front: Seq<char>|
            name == #[trigger] (front + ".json"@),
    ensures
        cleanup_next(max_age_secs, state, CleanupEventView::Entry { name, age_secs }) == state,
{
    law_names_of_results(name, name);
}

/// In a sweep, every result that is older than the limit is removed, by however much.
pub proof fn law_old_results_are_removed(
    max_age_secs: u64,
    state: Cleanup,
    task_id: Seq<char>,
    age: u64,
)
    requires
        state.step is NextEntry,
        age > max_age_secs,
    ensures
        cleanup_next(
            max_age_secs,
            state,
            CleanupEventView::Entry { name: task_id + ".json"@, age_secs: Some(age) },
        ) == (Cleanup { due_secs: state.due_secs, step: CleanupStep::RemoveEntry }),
{
    law_names_of_results(task_id, task_id);
}

/// Whether an entry is removed in a sweep is a matter of its own name and age, and not
/// of what stands before or after it, or of whether other removals work.
pub proof fn law_sweep_goes_by_name_and_age(
    max_age_secs: u64,
    due_secs: u64,
    entries: Seq<(Seq<char>, Option<u64>)>,
    removed: Seq<bool>,
    i: int,
)
    requires
        0 <= i < entries.len(),
    ensures
        ({
            let decided = removals(
                max_age_secs,
                Cleanup { due_secs, step: CleanupStep::NextEntry },
                entries,
                removed,
            );
            &&& decided.len() == entries.len()
            &&& decided[i] <==> (entries[i].1 matches Some(age) && age > max_age_secs) && exists|
                front: Seq<char>,
            | entries[i].0 == #[trigger] (front + ".json"@)
        }),
{
    law_exactly_the_old_results_are_removed(max_age_secs, due_secs, entries, removed);
    law_names_of_results(entries[i].0, entries[i].0);
}

/// A sweep begins with the directory and goes from entry to entry. When there is none
/// left, the next sweep is due ten minutes after this one was.
pub proof fn law_sweep_goes_on(max_age_secs: u64, due_secs: u64)
    ensures
        cleanup_start() == (Cleanup { due_secs: 0, step: CleanupStep::AwaitSweep }),
        cleanup_next(
            max_age_secs,
            Cleanup { due_secs, step: CleanupStep::AwaitSweep },
            CleanupEventView::Done,
        ) == (Cleanup { due_secs, step: CleanupStep::OpenDir }),
        cleanup_next(
            max_age_secs,
            Cleanup { due_secs, step: CleanupStep::OpenDir },
            CleanupEventView::Done,
        ) == (Cleanup { due_secs, step: CleanupStep::NextEntry }),
        cleanup_next(
            max_age_secs,
            Cleanup { due_secs, step: CleanupStep::RemoveEntry },
            CleanupEventView::Done,
        ) == (Cleanup { due_secs, step: CleanupStep::NextEntry }),
        due_secs + 600 <= u64::MAX ==> cleanup_next(
            max_age_secs,
            Cleanup { due_secs, step: CleanupStep::NextEntry },
            CleanupEventView::NoMoreEntries,
        ) == (Cleanup { due_secs: (due_secs + 600) as u64, step: CleanupStep::AwaitSweep }),
        due_secs + 600 <= u64::MAX ==> cleanup_next(
            max_age_secs,
            Cleanup { due_secs, step: CleanupStep::OpenDir },
            CleanupEventView::Failed,
        ) == (Cleanup { due_secs: (due_secs + 600) as u64, step: CleanupStep::AwaitSweep }),
{
}

/// What does not answer the step that is to be done changes nothing.
pub proof fn law_cleanup_waits_for_its_step(
    max_age_secs: u64,
    state: Cleanup,
    event: CleanupEventView,
)
    ensures
        state.step is AwaitSweep && event !is Done ==> cleanup_next(max_age_secs, state, event)
            == state,
        state.step is NextEntry && event is Done ==> cleanup_next(max_age_secs, state, event)
            == state,
        state.step !is NextEntry && (event is Entry || event is NoMoreEntries) ==> cleanup_next(
            max_age_secs,
            state,
            event,
        ) == state,
{
}

} // verus!
