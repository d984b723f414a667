use vstd::prelude::*;

use crate::outcome::{success_message, SaveOutcome, StatusCode};

verus! {

/// The first status in `s` at or after `i` that is not `Success`, if any.
pub open spec fn first_failure_from(s: Seq<StatusCode>, i: int) -> Option<StatusCode>
    decreases s.len() - i,
{
    if i < 0 || i >= s.len() {
        None
    } else if s[i] != StatusCode::Success {
        Some(s[i])
    } else {
        first_failure_from(s, i + 1)
    }
}

/// The first status in `s` that is not `Success`, if any.
pub open spec fn first_failure(s: Seq<StatusCode>) -> Option<StatusCode> {
    first_failure_from(s, 0)
}

/// `parts` joined with `sep` between each two neighbours.
pub open spec fn join(parts: Seq<Seq<char>>, sep: Seq<char>) -> Seq<char>
    decreases parts.len(),
{
    if parts.len() == 0 {
        Seq::empty()
    } else if parts.len() == 1 {
        parts[0]
    } else {
        join(parts.drop_last(), sep) + sep + parts.last()
    }
}

pub open spec fn statuses_of(outs: Seq<(StatusCode, Seq<char>)>) -> Seq<StatusCode> {
    outs.map_values(|o: (StatusCode, Seq<char>)| o.0)
}

/// The messages of the outcomes that are not `Success`, in order.
pub open spec fn failure_messages(outs: Seq<(StatusCode, Seq<char>)>) -> Seq<Seq<char>>
    decreases outs.len(),
{
    if outs.len() == 0 {
        Seq::empty()
    } else {
        let rest = failure_messages(outs.drop_last());
        if outs.last().0 != StatusCode::Success {
            rest.push(outs.last().1)
        } else {
            rest
        }
    }
}

/// What a batch reports: the first failing status with every failure
/// message joined by `"; "`, or `(Success, "successfully")` when all succeeded.
pub open spec fn aggregate_of(outs: Seq<(StatusCode, Seq<char>)>) -> (StatusCode, Seq<char>) {
    match first_failure(statuses_of(outs)) {
        Some(s) => (s, join(failure_messages(outs), "; "@)),
        None => (StatusCode::Success, success_message()),
    }
}

pub open spec fn views_of(v: Seq<String>) -> Seq<Seq<char>> {
    v.map_values(|s: String| s@)
}

pub open spec fn outcome_views(v: Seq<SaveOutcome>) -> Seq<(StatusCode, Seq<char>)> {
    v.map_values(|o: SaveOutcome| o@)
}

/// `parts` joined by `sep`.
fn join_strings(parts: &Vec<String>, sep: &str) -> (r: String)
    ensures
        r@ == join(views_of(parts@), sep@),
{
    let mut acc = String::new();
    let mut i: usize = 0;
    while i < parts.len()
        invariant
            i <= parts@.len(),
            acc@ == join(views_of(parts@).take(i as int), sep@),
        decreases parts@.len() - i,
    {
        let ghost prev = views_of(parts@).take(i as int);
        let ghost next = views_of(parts@).take(i as int + 1);
        assert(next.drop_last() =~= prev);
        if i == 0 {
            acc = String::from_str(parts[i].as_str());
            assert(next =~= seq![parts@[0]@]);
        } else {
            acc = acc.concat(sep).concat(parts[i].as_str());
        }
        i = i + 1;
    }
    assert(views_of(parts@).take(parts@.len() as int) =~= views_of(parts@));
    acc
}

/// Folds the statuses of a batch, and the messages of its failures, into one
/// outcome: the first status that is not `Success` wins and the message is
/// every error joined by `"; "`; with no failure, `(Success, "successfully")`.
pub fn get_response_by_status_and_errors(statuses: Vec<StatusCode>, errors: Vec<String>) -> (r: SaveOutcome)
    ensures
        r@ == match first_failure(statuses@) {
            Some(s) => (s, join(views_of(errors@), "; "@)),
            None => (StatusCode::Success, success_message()),
        },
{
    let mut i: usize = 0;
    while i < statuses.len()
        invariant
            i <= statuses@.len(),
            first_failure(statuses@) == first_failure_from(statuses@, i as int),
        decreases statuses@.len() - i,
    {
        let s = statuses[i];
        match s {
            StatusCode::Success => {},
            _ => {
                return SaveOutcome { status: s, message: join_strings(&errors, "; ") };
            },
        }
        i = i + 1;
    }
    SaveOutcome::success()
}

/// Folds the outcomes of a batch, in arrival order, into one outcome.
pub fn aggregate(outcomes: &Vec<SaveOutcome>) -> (r: SaveOutcome)
    ensures
        r@ == aggregate_of(outcome_views(outcomes@)),
{
    let ghost outs = outcome_views(outcomes@);
    let mut statuses: Vec<StatusCode> = Vec::new();
    let mut errors: Vec<String> = Vec::new();
    let mut i: usize = 0;
    while i < outcomes.len()
        invariant
            i <= outcomes@.len(),
            outs == outcome_views(outcomes@),
            statuses@ == statuses_of(outs.take(i as int)),
            views_of(errors@) == failure_messages(outs.take(i as int)),
        decreases outcomes@.len() - i,
    {
        let o = &outcomes[i];
        proof {
            assert(outs.take(i as int + 1).drop_last() =~= outs.take(i as int));
        }
        statuses.push(o.status);
        if o.status != StatusCode::Success {
            errors.push(o.message.clone());
        }
        assert(statuses@ =~= statuses_of(outs.take(i as int + 1)));
        assert(views_of(errors@) =~= failure_messages(outs.take(i as int + 1)));
        i = i + 1;
    }
    assert(outs.take(outcomes@.len() as int) =~= outs);
    get_response_by_status_and_errors(statuses, errors)
}

proof fn lemma_first_failure_at(s: Seq<StatusCode>, i: int, k: int)
    requires
        0 <= i <= k < s.len(),
        s[k] != StatusCode::Success,
        forall|j: int| 0 <= j < k ==> s[j] == StatusCode::Success,
    ensures
        first_failure_from(s, i) == Some(s[k]),
    decreases k - i,
{
    if i < k {
        lemma_first_failure_at(s, i + 1, k);
    }
}

proof fn lemma_no_failure_from(s: Seq<StatusCode>, i: int)
    requires
        0 <= i <= s.len(),
        forall|j: int| 0 <= j < s.len() ==> s[j] == StatusCode::Success,
    ensures
        first_failure_from(s, i) is None,
    decreases s.len() - i,
{
    if i < s.len() {
        lemma_no_failure_from(s, i + 1);
    }
}

/// When entry `k` is the first outcome of a batch that is not `Success`, the
/// batch answers with its status, and with the messages of all the failing
/// outcomes, in order, joined by `"; "`.
pub proof fn lemma_aggregate_first_failure(outs: Seq<(StatusCode, Seq<char>)>, k: int)
    requires
        0 <= k < outs.len(),
        outs[k].0 != StatusCode::Success,
        forall|j: int| 0 <= j < k ==> outs[j].0 == StatusCode::Success,
    ensures
        aggregate_of(outs) == (outs[k].0, join(failure_messages(outs), "; "@)),
{
    lemma_first_failure_at(statuses_of(outs), 0, k);
}

/// A batch in which every outcome is `Success` answers `(Success, "successfully")`.
pub proof fn lemma_aggregate_all_success(outs: Seq<(StatusCode, Seq<char>)>)
    requires
        forall|j: int| 0 <= j < outs.len() ==> outs[j].0 == StatusCode::Success,
    ensures
        aggregate_of(outs) == (StatusCode::Success, success_message()),
{
    lemma_no_failure_from(statuses_of(outs), 0);
}

} // verus!
