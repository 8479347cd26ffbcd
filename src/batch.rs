//! The trial batch, and the accept-or-reject decision on a request body.
use vstd::prelude::*;

use crate::json::{field, find_field, json_parse, parse_json, Json};
use crate::trial::{decode_trial, trial_of, Trial, TrialView};

verus! {

/// The trials of one submission, in presentation order; it may be empty.
#[derive(Debug)]
pub struct TrialBatch {
    pub trials: Vec<Trial>,
}

impl View for TrialBatch {
    type V = Seq<TrialView>;

    open spec fn view(&self) -> Seq<TrialView> {
        self.trials@.map_values(|t: Trial| t@)
    }
}

/// Every item of `a` describes a trial.
pub open spec fn all_trials(a: Seq<Json>) -> bool {
    forall|i: int| 0 <= i < a.len() ==> (#[trigger] trial_of(a[i])) is Some
}

/// The trials that the items of a `trials` array describe: all of them, or
/// `None` where any one item fails.
pub open spec fn batch_of_items(a: Seq<Json>) -> Option<Seq<TrialView>> {
    if all_trials(a) {
        Some(a.map_values(|x: Json| trial_of(x)->0))
    } else {
        None
    }
}

/// The batch that a JSON value describes: an object whose `trials` member is
/// an array of trials. Other members are ignored.
pub open spec fn batch_of(v: Json) -> Option<Seq<TrialView>> {
    match v {
        Json::Object(e) => match field(e@, "trials"@) {
            Some(Json::Array(a)) => batch_of_items(a@),
            _ => None,
        },
        _ => None,
    }
}

/// Decodes the items of a `trials` array: exactly [`batch_of_items`].
fn decode_items(a: &Vec<Json>) -> (r: Option<TrialBatch>)
    ensures
        match r {
            Some(b) => batch_of_items(a@) == Some(b@),
            None => batch_of_items(a@) is None,
        },
{
    let mut trials: Vec<Trial> = Vec::new();
    let mut i: usize = 0;
    while i < a.len()
        invariant
            i <= a@.len(),
            trials@.len() == i,
            forall|j: int| 0 <= j < i ==> #[trigger] trial_of(a@[j]) == Some(trials@[j]@),
        decreases a@.len() - i,
    {
        match decode_trial(&a[i]) {
            Some(t) => trials.push(t),
            None => {
                assert(trial_of(a@[i as int]) is None);
                return None;
            },
        }
        i = i + 1;
    }
    let b = TrialBatch { trials };
    assert(b@ =~= a@.map_values(|x: Json| trial_of(x)->0));
    Some(b)
}

/// Decodes a batch from a JSON value: exactly [`batch_of`].
pub fn decode_batch(v: &Json) -> (r: Option<TrialBatch>)
    ensures
        match r {
            Some(b) => batch_of(*v) == Some(b@),
            None => batch_of(*v) is None,
        },
{
    match v {
        Json::Object(e) => match find_field(e, "trials") {
            Some(i) => match &e[i].1 {
                Json::Array(a) => decode_items(a),
                _ => None,
            },
            None => None,
        },
        _ => None,
    }
}

/// Why a body was rejected.
#[derive(PartialEq, Eq, Structural, Debug, Clone, Copy)]
pub enum RejectReason {
    /// The body is not one well-formed JSON document.
    MalformedJson,
    /// The body is JSON, but not a batch of trials.
    SchemaMismatch,
}

/// The decision on a body whose parse gave `parsed`.
pub open spec fn verdict(parsed: Option<Json>) -> Result<Seq<TrialView>, RejectReason> {
    match parsed {
        None => Err(RejectReason::MalformedJson),
        Some(v) => match batch_of(v) {
            Some(b) => Ok(b),
            None => Err(RejectReason::SchemaMismatch),
        },
    }
}

pub open spec fn outcome_view(r: Result<TrialBatch, RejectReason>) -> Result<
    Seq<TrialView>,
    RejectReason,
> {
    match r {
        Ok(b) => Ok(b@),
        Err(e) => Err(e),
    }
}

/// The decision on a parsed body: the batch, or why it was rejected.
pub fn read_batch(parsed: Option<Json>) -> (r: Result<TrialBatch, RejectReason>)
    ensures
        outcome_view(r) == verdict(parsed),
{
    match parsed {
        None => Err(RejectReason::MalformedJson),
        Some(v) => match decode_batch(&v) {
            Some(b) => Ok(b),
            None => Err(RejectReason::SchemaMismatch),
        },
    }
}

/// Decides on a raw request body: parse it as JSON, then decode the batch.
/// The whole batch is accepted, or none of it.
pub fn submit_trials(body: &[u8]) -> (r: Result<TrialBatch, RejectReason>)
    ensures
        outcome_view(r) == verdict(json_parse(body@)),
{
    read_batch(parse_json(body))
}

/// The HTTP status that answers a decision: 200 on accept, 400 on reject.
pub fn status_code(r: &Result<TrialBatch, RejectReason>) -> (s: u16)
    ensures
        s == (if r is Ok { 200u16 } else { 400u16 }),
{
    match r {
        Ok(_) => 200,
        Err(_) => 400,
    }
}

/// The `success` member of the first trial, for the diagnostic record;
/// `None` for an empty batch, which gets no record.
pub fn first_success(b: &TrialBatch) -> (r: Option<Option<bool>>)
    ensures
        r == (if b@.len() == 0 { None::<Option<bool>> } else { Some(b@[0].success) }),
{
    if b.trials.len() == 0 {
        None
    } else {
        Some(b.trials[0].success)
    }
}

} // verus!
