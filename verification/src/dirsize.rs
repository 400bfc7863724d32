use crate::error::walk_failure_record;
use crate::error::classify_walk_failure;
use crate::error::DirsizeError;
use vstd::arithmetic::div_mod::lemma_div_basics_2;
use vstd::arithmetic::div_mod::lemma_div_nonincreasing;
use vstd::arithmetic::div_mod::lemma_div_pos_is_pos;
use vstd::prelude::*;

verus! {

/// Byte-magnitude units a caller may ask the total to be displayed in.
/// The unit is purely a presentation concern: the core always aggregates raw
/// bytes and attaches the selected unit to the result for the boundary to
/// apply.
#[derive(Debug, Clone, Copy, PartialEq, Eq, Structural)]
pub enum SizeUnit {
    B,
    KB,
    KiB,
    MB,
    MiB,
    GB,
    GiB,
    TB,
    TiB,
    PB,
    PiB,
}

/// A request to measure one directory tree: the root path, an optional
/// worker-pool size (absent means "let the runtime pick"), a flag for the
/// per-file logging collaborator, and an optional display unit (absent means
/// the default, `SizeUnit::GB`).
pub struct DirsizeRequest {
    pub path: String,
    pub threads: Option<usize>,
    pub verbose: bool,
    pub unit: Option<SizeUnit>,
}

/// A discovered filesystem entry, before its metadata is resolved.
pub struct Entry {
    pub path: String,
    pub is_symlink: bool,
}

/// Whether the walk should resolve this entry's metadata and count it.
/// A symbolic link is neither dereferenced nor counted as a file; traversal
/// of the directory containing it continues with the other entries.
pub fn should_resolve(entry: &Entry) -> (r: bool)
    ensures
        r <==> !entry.is_symlink,
{
    !entry.is_symlink
}

/// The outcome of discovering one filesystem entry and resolving its
/// metadata. Workers produce one outcome per entry, in no particular order.
#[derive(Debug)]
pub enum EntryOutcome {
    /// The metadata query succeeded: the entry's raw byte length and its
    /// hard-link count (at least one for any existing file).
    Resolved { path: String, len: u64, nlink: u64 },
    /// The metadata query failed after the entry was discovered.
    MetadataFailed { path: String },
    /// The walk itself failed to visit something: `permission_denied` says
    /// whether the underlying operating-system error was a refusal of
    /// access, and `path` carries the offending path where it is known.
    WalkFailed { path: Option<String>, permission_denied: bool },
}

/// A resolved outcome is well formed when its hard-link count is at least
/// one, as a filesystem reports for any file that exists.
pub open spec fn outcome_wf(o: EntryOutcome) -> bool {
    match o {
        EntryOutcome::Resolved { nlink, .. } => nlink >= 1,
        _ => true,
    }
}

/// Every outcome in the sequence is well formed.
pub open spec fn all_wf(s: Seq<EntryOutcome>) -> bool {
    forall|i: int| 0 <= i < s.len() ==> outcome_wf(#[trigger] s[i])
}

/// The adjusted contribution of one outcome to the total size: a resolved
/// file contributes `floor(len / nlink)`, spreading its size evenly across
/// every hard link the filesystem reports; a failure contributes nothing.
pub open spec fn contrib_of(o: EntryOutcome) -> int {
    match o {
        EntryOutcome::Resolved { len, nlink, .. } => len as int / nlink as int,
        _ => 0,
    }
}

/// What one outcome adds to the file count: one for a resolved file,
/// nothing for a failure.
pub open spec fn resolved_one(o: EntryOutcome) -> int {
    if o is Resolved {
        1
    } else {
        0
    }
}

/// The error records one outcome produces: none for a resolved file, a
/// `Metadata` record for a failed metadata query, and the classified record
/// for a walk failure.
pub open spec fn record_seq(o: EntryOutcome) -> Seq<DirsizeError> {
    match o {
        EntryOutcome::Resolved { .. } => Seq::empty(),
        EntryOutcome::MetadataFailed { path } => seq![DirsizeError::Metadata(path)],
        EntryOutcome::WalkFailed { path, permission_denied } => seq![
            walk_failure_record(path, permission_denied),
        ],
    }
}

/// The exact total adjusted size of a sequence of outcomes.
pub open spec fn sum_contribs(s: Seq<EntryOutcome>) -> int
    decreases s.len(),
{
    if s.len() == 0 {
        0
    } else {
        sum_contribs(s.drop_last()) + contrib_of(s.last())
    }
}

/// The number of outcomes whose metadata resolution succeeded.
pub open spec fn count_resolved(s: Seq<EntryOutcome>) -> int
    decreases s.len(),
{
    if s.len() == 0 {
        0
    } else {
        count_resolved(s.drop_last()) + resolved_one(s.last())
    }
}

/// The error records of a sequence of outcomes, one per failed entry, in
/// the order the outcomes stand in the sequence.
pub open spec fn errors_of(s: Seq<EntryOutcome>) -> Seq<DirsizeError>
    decreases s.len(),
{
    if s.len() == 0 {
        Seq::empty()
    } else {
        errors_of(s.drop_last()) + record_seq(s.last())
    }
}

/// A contribution is at most the file's raw length, so it always fits in
/// the same machine word as the length itself.
pub proof fn lemma_contrib_bounds(o: EntryOutcome)
    requires
        outcome_wf(o),
    ensures
        0 <= contrib_of(o) <= u64::MAX,
{
    match o {
        EntryOutcome::Resolved { len, nlink, .. } => {
            lemma_div_nonincreasing(len as int, nlink as int);
            lemma_div_pos_is_pos(len as int, nlink as int);
        },
        _ => {},
    }
}

/// The adjusted contribution of one resolved file: its raw byte length
/// divided (floor) by its hard-link count. The division deliberately spreads
/// the size across however many hard links exist system-wide for the file's
/// inode, not only the links inside the scanned tree, so the aggregate can
/// undercount when some links lie outside the tree. A file with a single
/// hard link contributes exactly its raw length.
pub fn adjusted_contribution(len: u64, nlink: u64) -> (r: u64)
    requires
        nlink >= 1,
    ensures
        r as int == len as int / nlink as int,
        nlink == 1 ==> r == len,
{
    proof {
        lemma_div_basics_2(len as int);
    }
    len / nlink
}

/// The state of one traversal while outcomes are being folded in: the size
/// and count accumulators and the collected error records. The fold is
/// commutative over outcomes (see `lemma_aggregation_order_independent` in
/// `laws`), so workers may hand their outcomes over in any order. Once every
/// outcome is in, the state is retired into an immutable [`DirSize`].
pub struct TraversalState {
    /// Total adjusted size so far, in raw bytes.
    pub total_size: u128,
    /// Number of successfully resolved files so far.
    pub file_cnt: usize,
    /// Error records collected so far.
    pub errors: Vec<DirsizeError>,
}

impl TraversalState {
    /// The state before any outcome has been folded in.
    pub fn new() -> (r: TraversalState)
        ensures
            r.total_size == 0,
            r.file_cnt == 0,
            r.errors@ == Seq::<DirsizeError>::empty(),
    {
        TraversalState { total_size: 0, file_cnt: 0, errors: Vec::new() }
    }

    /// Fold one outcome into the state: a resolved file adds its adjusted
    /// contribution to the total and one to the file count; a failure
    /// appends exactly one record to the error collection and changes
    /// neither accumulator.
    pub fn record_outcome(&mut self, outcome: EntryOutcome)
        requires
            outcome_wf(outcome),
            old(self).total_size as int + contrib_of(outcome) <= u128::MAX,
            outcome is Resolved ==> old(self).file_cnt < usize::MAX,
        ensures
            final(self).total_size as int == old(self).total_size as int + contrib_of(outcome),
            final(self).file_cnt as int == old(self).file_cnt as int + resolved_one(outcome),
            final(self).errors@ == old(self).errors@ + record_seq(outcome),
    {
        match outcome {
            EntryOutcome::Resolved { path: _, len, nlink } => {
                let contribution = adjusted_contribution(len, nlink);
                self.total_size = self.total_size + contribution as u128;
                self.file_cnt = self.file_cnt + 1;
                proof {
                    assert(self.errors@ =~= old(self).errors@ + record_seq(outcome));
                }
            },
            EntryOutcome::MetadataFailed { path } => {
                self.errors.push(DirsizeError::Metadata(path));
                proof {
                    assert(self.errors@ =~= old(self).errors@ + record_seq(outcome));
                }
            },
            EntryOutcome::WalkFailed { path, permission_denied } => {
                let record = classify_walk_failure(path, permission_denied);
                self.errors.push(record);
                proof {
                    assert(self.errors@ =~= old(self).errors@ + record_seq(outcome));
                }
            },
        }
    }

    /// Retire the accumulators into an immutable result carrying the
    /// requested display unit. The error list is absent exactly when no
    /// failure was recorded.
    pub fn into_result(self, unit: SizeUnit) -> (r: DirSize)
        ensures
            r.spec_size() == self.total_size,
            r.spec_file_cnt() == self.file_cnt,
            r.spec_unit() == unit,
            self.errors@.len() == 0 ==> r.error_list() is None,
            self.errors@.len() > 0 ==> r.error_list() == Option::Some(self.errors@),
    {
        let TraversalState { total_size, file_cnt, errors } = self;
        let errors = if errors.len() > 0 {
            Option::Some(errors)
        } else {
            Option::None
        };
        DirSize { size: total_size, file_cnt, unit, errors }
    }
}

/// The immutable result of one traversal: the total adjusted size in raw
/// bytes, the unit the boundary should display it in, the count of
/// successfully resolved files, and a take-once list of the failures.
pub struct DirSize {
    /// The total adjusted size, as a raw byte count; conversion into `unit`
    /// is applied at the presentation boundary.
    pub size: u128,
    /// Total number of files counted.
    pub file_cnt: usize,
    /// The unit the total should be displayed in.
    pub unit: SizeUnit,
    /// The failures encountered, absent when there were none or once taken.
    errors: Option<Vec<DirsizeError>>,
}

impl DirSize {
    /// The total adjusted size, in raw bytes.
    pub closed spec fn spec_size(self) -> u128 {
        self.size
    }

    /// The count of successfully resolved files.
    pub closed spec fn spec_file_cnt(self) -> usize {
        self.file_cnt
    }

    /// The unit the total should be displayed in.
    pub closed spec fn spec_unit(self) -> SizeUnit {
        self.unit
    }

    /// The error records still held by the result: absent when the
    /// traversal had no failure or once they have been taken.
    pub closed spec fn error_list(self) -> Option<Seq<DirsizeError>> {
        match self.errors {
            Option::Some(v) => Option::Some(v@),
            Option::None => Option::None,
        }
    }

    /// Did the traversal encounter any errors (that have not been taken)?
    pub fn has_errors(&self) -> (r: bool)
        ensures
            r <==> self.error_list() is Some,
    {
        self.errors.is_some()
    }

    /// Retrieve the errors, consuming them: the list is handed to the
    /// caller once, and a second call yields nothing.
    pub fn take_errors(&mut self) -> (r: Option<Vec<DirsizeError>>)
        ensures
            final(self).error_list() is None,
            final(self).spec_size() == old(self).spec_size(),
            final(self).spec_file_cnt() == old(self).spec_file_cnt(),
            final(self).spec_unit() == old(self).spec_unit(),
            match r {
                Option::Some(v) => old(self).error_list() == Option::Some(v@),
                Option::None => old(self).error_list() is None,
            },
    {
        self.errors.take()
    }
}

/// Aggregate every outcome of one completed walk into the final result: the
/// total is the exact sum of the adjusted contributions, the file count is
/// the number of successfully resolved entries, and the error list carries
/// exactly one record per failed entry, absent when nothing failed. The
/// display unit defaults to `SizeUnit::GB` when the request named none.
///
/// The outcomes may arrive in any order the workers produced them: the
/// aggregation is order-independent (see
/// `lemma_aggregation_order_independent` in `laws`).
pub fn aggregate_outcomes(outcomes: Vec<EntryOutcome>, unit: Option<SizeUnit>) -> (r: DirSize)
    requires
        all_wf(outcomes@),
        outcomes@.len() <= u64::MAX,
    ensures
        r.spec_size() as int == sum_contribs(outcomes@),
        r.spec_file_cnt() as int == count_resolved(outcomes@),
        match unit {
            Option::Some(u) => r.spec_unit() == u,
            Option::None => r.spec_unit() == SizeUnit::GB,
        },
        errors_of(outcomes@).len() == 0 ==> r.error_list() is None,
        errors_of(outcomes@).len() > 0 ==> r.error_list() == Option::Some(errors_of(outcomes@)),
{
    let ghost all = outcomes@;
    let mut remaining = outcomes;
    let mut state = TraversalState::new();
    let n_entries = remaining.len();
    proof {
        assert(all.len() == n_entries);
        assert(all.subrange(0, 0) =~= Seq::<EntryOutcome>::empty());
        assert(remaining@ =~= all.subrange(0, all.len() as int));
    }
    while remaining.len() > 0
        invariant
            all_wf(all),
            all.len() <= u64::MAX,
            all.len() <= usize::MAX,
            remaining@.len() <= all.len(),
            remaining@ == all.subrange(all.len() - remaining@.len(), all.len() as int),
            state.total_size as int == sum_contribs(
                all.subrange(0, all.len() - remaining@.len()),
            ),
            state.total_size as int <= (all.len() - remaining@.len()) * (u64::MAX as int),
            state.file_cnt as int == count_resolved(all.subrange(0, all.len() - remaining@.len())),
            state.file_cnt as int <= all.len() - remaining@.len(),
            state.errors@ == errors_of(all.subrange(0, all.len() - remaining@.len())),
        decreases remaining@.len(),
    {
        let ghost k = all.len() - remaining@.len();
        let ghost prefix = all.subrange(0, k);
        let outcome = remaining.remove(0);
        proof {
            assert(outcome == all[k]);
            assert(remaining@ =~= all.subrange(k + 1, all.len() as int));
            assert(outcome_wf(outcome));
            lemma_contrib_bounds(outcome);
            assert(state.total_size as int + contrib_of(outcome) <= k * (u64::MAX as int) + (
            u64::MAX as int));
            assert(k * (u64::MAX as int) + (u64::MAX as int) == (k + 1) * (u64::MAX as int));
            assert((k + 1) * (u64::MAX as int) <= (u64::MAX as int) * (u64::MAX as int));
            assert(state.total_size as int + contrib_of(outcome) <= u128::MAX);
            assert(state.file_cnt < usize::MAX);
        }
        state.record_outcome(outcome);
        proof {
            let prefix1 = all.subrange(0, k + 1);
            assert(prefix1.drop_last() =~= prefix);
            assert(prefix1.last() == outcome);
            assert(state.total_size as int == sum_contribs(prefix1));
            assert(state.file_cnt as int == count_resolved(prefix1));
            assert(state.errors@ == errors_of(prefix1));
        }
    }
    proof {
        assert(all.subrange(0, all.len() as int) =~= all);
    }
    state.into_result(resolve_unit(unit))
}

/// The worker-pool size to use for a request: an explicit choice is
/// honored, and absence becomes zero, the conventional request for the
/// runtime's available parallelism.
pub fn resolve_threads(threads: Option<usize>) -> (r: usize)
    ensures
        match threads {
            Option::Some(t) => r == t,
            Option::None => r == 0,
        },
{
    match threads {
        Option::Some(t) => t,
        Option::None => 0,
    }
}

/// The display unit to use for a request: an explicit choice is honored,
/// and absence becomes the default, `SizeUnit::GB`.
pub fn resolve_unit(unit: Option<SizeUnit>) -> (r: SizeUnit)
    ensures
        match unit {
            Option::Some(u) => r == u,
            Option::None => r == SizeUnit::GB,
        },
{
    match unit {
        Option::Some(u) => u,
        Option::None => SizeUnit::GB,
    }
}

} // verus!
