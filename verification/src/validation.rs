//! Aggregation of per-validator outcomes into a decision on one entry.
//!
//! Every validator that evaluates an entry reports one [`ValidationOutcome`].
//! The reports are folded, in arrival order, into an [`EntryStatus`]: the entry
//! is accepted once enough validators have agreed and nobody has objected, and
//! a single objection rejects it for good.

use vstd::prelude::*;

verus! {

/// What one validator says of an entry.
#[derive(Debug)]
pub enum ValidationOutcome {
    Valid,
    Invalid(String),
}

/// The aggregated state of one entry.
#[derive(Debug)]
pub enum EntryStatus {
    /// Still collecting: so many validators have agreed so far.
    Pending(u8),
    /// Enough validators agreed; the entry is visible to the rest of the system.
    Accepted,
    /// Some validator objected; the reason of the first objection is kept.
    Rejected(String),
}

/// Mathematical model of a [`ValidationOutcome`].
pub enum OutcomeModel {
    Valid,
    Invalid(Seq<char>),
}

/// Mathematical model of an [`EntryStatus`].
pub enum StatusModel {
    Pending(nat),
    Accepted,
    Rejected(Seq<char>),
}

impl View for ValidationOutcome {
    type V = OutcomeModel;

    open spec fn view(&self) -> OutcomeModel {
        match self {
            ValidationOutcome::Valid => OutcomeModel::Valid,
            ValidationOutcome::Invalid(reason) => OutcomeModel::Invalid(reason@),
        }
    }
}

impl View for EntryStatus {
    type V = StatusModel;

    open spec fn view(&self) -> StatusModel {
        match self {
            EntryStatus::Pending(count) => StatusModel::Pending(*count as nat),
            EntryStatus::Accepted => StatusModel::Accepted,
            EntryStatus::Rejected(reason) => StatusModel::Rejected(reason@),
        }
    }
}

/// One step of the aggregation: the status after `outcome` has been recorded
/// against `status`, for an entry type that asks for `required` agreeing
/// validators.
pub open spec fn step(status: StatusModel, required: nat, outcome: OutcomeModel) -> StatusModel {
    match status {
        StatusModel::Pending(count) => match outcome {
            OutcomeModel::Invalid(reason) => StatusModel::Rejected(reason),
            OutcomeModel::Valid => if count + 1 >= required {
                StatusModel::Accepted
            } else {
                StatusModel::Pending(count + 1)
            },
        },
        StatusModel::Accepted => StatusModel::Accepted,
        StatusModel::Rejected(reason) => StatusModel::Rejected(reason),
    }
}

/// The status after all of `outcomes` have been recorded, oldest first,
/// starting from `status`.
pub open spec fn fold(status: StatusModel, required: nat, outcomes: Seq<OutcomeModel>)
    -> StatusModel
    decreases outcomes.len(),
{
    if outcomes.len() == 0 {
        status
    } else {
        step(fold(status, required, outcomes.drop_last()), required, outcomes.last())
    }
}

/// The views of a slice of outcomes, in order.
pub open spec fn outcome_models(outcomes: Seq<ValidationOutcome>) -> Seq<OutcomeModel> {
    outcomes.map_values(|o: ValidationOutcome| o@)
}

impl EntryStatus {
    /// The status of an entry that no validator has reported on yet.
    pub fn proposed() -> (status: EntryStatus)
        ensures
            status@ == StatusModel::Pending(0),
    {
        EntryStatus::Pending(0)
    }

    /// Whether no further outcome can change this status.
    pub fn is_terminal(&self) -> (terminal: bool)
        ensures
            terminal == !(self@ is Pending),
    {
        match self {
            EntryStatus::Pending(_) => false,
            _ => true,
        }
    }

    /// Records one validator's outcome.
    pub fn record(self, required_validations: u8, outcome: &ValidationOutcome) -> (next:
        EntryStatus)
        ensures
            next@ == step(self@, required_validations as nat, outcome@),
    {
        match self {
            EntryStatus::Pending(count) => match outcome {
                ValidationOutcome::Invalid(reason) => EntryStatus::Rejected(reason.clone()),
                ValidationOutcome::Valid => {
                    if count >= required_validations || count + 1 >= required_validations {
                        EntryStatus::Accepted
                    } else {
                        EntryStatus::Pending(count + 1)
                    }
                },
            },
            EntryStatus::Accepted => EntryStatus::Accepted,
            EntryStatus::Rejected(reason) => EntryStatus::Rejected(reason),
        }
    }
}

/// Aggregates the outcomes that validators reported for one entry, oldest
/// first, into the entry's status.
pub fn aggregate(required_validations: u8, outcomes: &[ValidationOutcome]) -> (status:
    EntryStatus)
    ensures
        status@ == fold(
            StatusModel::Pending(0),
            required_validations as nat,
            outcome_models(outcomes@),
        ),
{
    let mut status = EntryStatus::proposed();
    let mut i: usize = 0;
    while i < outcomes.len()
        invariant
            i <= outcomes.len(),
            status@ == fold(
                StatusModel::Pending(0),
                required_validations as nat,
                outcome_models(outcomes@.take(i as int)),
            ),
        decreases outcomes.len() - i,
    {
        proof {
            let next = outcome_models(outcomes@.take(i + 1));
            assert(next.drop_last() =~= outcome_models(outcomes@.take(i as int)));
            assert(next.last() == outcomes@[i as int]@);
        }
        status = status.record(required_validations, &outcomes[i]);
        i += 1;
    }
    proof {
        assert(outcomes@.take(i as int) =~= outcomes@);
    }
    status
}

/// Whether the first `n` outcomes are all `Valid`.
pub open spec fn all_valid(outcomes: Seq<OutcomeModel>, n: int) -> bool {
    forall|i: int| 0 <= i < n ==> #[trigger] outcomes[i] is Valid
}

/// Whether the outcome at `at` is the first objection, with this reason, and
/// comes before `required` validators have agreed.
pub open spec fn first_objection(
    outcomes: Seq<OutcomeModel>,
    required: nat,
    at: int,
    reason: Seq<char>,
) -> bool {
    &&& 0 <= at < outcomes.len()
    &&& at < required
    &&& outcomes[at] == OutcomeModel::Invalid(reason)
    &&& all_valid(outcomes, at)
}

/// Whether some validator objected with this reason before `required`
/// validators had agreed, and was the first to object.
pub open spec fn objected(outcomes: Seq<OutcomeModel>, required: nat, reason: Seq<char>) -> bool {
    exists|at: int| #[trigger] first_objection(outcomes, required, at, reason)
}

/// What the status of an entry says of the outcomes that led to it, for an
/// entry type that asks for at least one validator.
pub open spec fn explains(status: StatusModel, required: nat, outcomes: Seq<OutcomeModel>) -> bool {
    match status {
        StatusModel::Pending(count) => {
            &&& count == outcomes.len()
            &&& outcomes.len() < required
            &&& all_valid(outcomes, outcomes.len() as int)
        },
        StatusModel::Accepted => {
            &&& outcomes.len() >= required
            &&& all_valid(outcomes, required as int)
        },
        StatusModel::Rejected(reason) => objected(outcomes, required, reason),
    }
}

/// The aggregation rule, read backwards: an entry is pending only while
/// fewer validators than required have reported and all agreed; it is
/// accepted only when the first `required` reports all agreed; it is
/// rejected only when a validator objected before that, with the reason of
/// the first to object.
pub proof fn status_explains_outcomes(required: nat, outcomes: Seq<OutcomeModel>)
    requires
        required >= 1,
    ensures
        explains(fold(StatusModel::Pending(0), required, outcomes), required, outcomes),
    decreases outcomes.len(),
{
    if outcomes.len() > 0 {
        let front = outcomes.drop_last();
        status_explains_outcomes(required, front);
        assert forall|i: int| 0 <= i < front.len() implies front[i] == outcomes[i] by {}
        match fold(StatusModel::Pending(0), required, front) {
            StatusModel::Pending(count) => {
                assert(all_valid(outcomes, front.len() as int));
                match outcomes.last() {
                    OutcomeModel::Valid => {
                        assert(all_valid(outcomes, outcomes.len() as int));
                    },
                    OutcomeModel::Invalid(reason) => {
                        assert(first_objection(outcomes, required, front.len() as int, reason));
                    },
                }
            },
            StatusModel::Accepted => {
                assert(all_valid(outcomes, required as int));
            },
            StatusModel::Rejected(reason) => {
                let at = choose|at: int| first_objection(front, required, at, reason);
                assert(all_valid(outcomes, at));
                assert(first_objection(outcomes, required, at, reason));
            },
        }
    }
}

/// An entry is accepted exactly when at least `required` validators have
/// reported and the first `required` of them all found it valid.
pub proof fn accepted_iff_quorum_agreed(required: nat, outcomes: Seq<OutcomeModel>)
    requires
        required >= 1,
    ensures
        fold(StatusModel::Pending(0), required, outcomes) is Accepted <==> outcomes.len()
            >= required && all_valid(outcomes, required as int),
{
    status_explains_outcomes(required, outcomes);
    let status = fold(StatusModel::Pending(0), required, outcomes);
    if outcomes.len() >= required && all_valid(outcomes, required as int) {
        match status {
            StatusModel::Rejected(reason) => {
                let at = choose|at: int| first_objection(outcomes, required, at, reason);
                assert(outcomes[at] is Valid);
            },
            _ => {},
        }
    }
}

/// One objection is enough: where a validator objects before `required`
/// validators have agreed, the entry is rejected with the reason of the first
/// to object, however many agree before or after.
pub proof fn objection_rejects(
    required: nat,
    outcomes: Seq<OutcomeModel>,
    at: int,
    reason: Seq<char>,
)
    requires
        required >= 1,
        first_objection(outcomes, required, at, reason),
    ensures
        fold(StatusModel::Pending(0), required, outcomes) == StatusModel::Rejected(reason),
{
    status_explains_outcomes(required, outcomes);
    match fold(StatusModel::Pending(0), required, outcomes) {
        StatusModel::Pending(_) => {
            assert(outcomes[at] is Valid);
        },
        StatusModel::Accepted => {
            assert(outcomes[at] is Valid);
        },
        StatusModel::Rejected(other) => {
            let first = choose|first: int| first_objection(outcomes, required, first, other);
            if first < at {
                assert(outcomes[first] is Valid);
            } else if at < first {
                assert(outcomes[at] is Valid);
            }
        },
    }
}

/// Accepted and rejected are final: no later outcome changes either.
pub proof fn decided_status_is_final(status: StatusModel, required: nat, outcome: OutcomeModel)
    requires
        !(status is Pending),
    ensures
        step(status, required, outcome) == status,
{
}

} // verus!
