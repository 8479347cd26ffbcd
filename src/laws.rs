//! What holds of every body: the acceptance rules of trial ingestion.
use vstd::prelude::*;

use crate::batch::{all_trials, batch_of, batch_of_items, verdict, RejectReason};
use crate::json::{field, json_parse, Json};
use crate::trial::{
    opt_bool_of, opt_string_of, opt_strings_of, opt_u32_of, string_of, trial_of,
    trial_of_entries, u32_of, lemma_member_keys_distinct, TrialView,
};

verus! {

/// The items of the `trials` array of `v`, where `v` is an object with one.
pub open spec fn trials_member(v: Json) -> Option<Seq<Json>> {
    match v {
        Json::Object(e) => match field(e@, "trials"@) {
            Some(Json::Array(a)) => Some(a@),
            _ => None,
        },
        _ => None,
    }
}

/// The members of `e` that the schema requires are present, with their types.
pub open spec fn required_members_typed(e: Seq<(String, Json)>) -> bool {
    &&& string_of(field(e, "trial_type"@)) is Some
    &&& u32_of(field(e, "trial_index"@)) is Some
    &&& string_of(field(e, "plugin_version"@)) is Some
    &&& u32_of(field(e, "time_elapsed"@)) is Some
}

/// Each optional member of `e` is absent, `null`, or of its type.
pub open spec fn optional_members_typed(e: Seq<(String, Json)>) -> bool {
    &&& opt_bool_of(field(e, "success"@)) is Some
    &&& opt_bool_of(field(e, "timeout"@)) is Some
    &&& opt_strings_of(field(e, "failed_images"@)) is Some
    &&& opt_strings_of(field(e, "failed_audio"@)) is Some
    &&& opt_strings_of(field(e, "failed_video"@)) is Some
    &&& opt_u32_of(field(e, "rt"@)) is Some
    &&& opt_string_of(field(e, "stimulus"@)) is Some
    &&& opt_string_of(field(e, "response"@)) is Some
    &&& opt_string_of(field(e, "task"@)) is Some
    &&& opt_string_of(field(e, "correct_response"@)) is Some
    &&& opt_bool_of(field(e, "correct"@)) is Some
}

/// A member that the schema requires is absent from `e`.
pub open spec fn misses_required(e: Seq<(String, Json)>) -> bool {
    ||| field(e, "trial_type"@) is None
    ||| field(e, "trial_index"@) is None
    ||| field(e, "plugin_version"@) is None
    ||| field(e, "time_elapsed"@) is None
}

/// `key` names one of the optional members of a trial.
pub open spec fn is_optional_member(key: Seq<char>) -> bool {
    ||| key == "success"@
    ||| key == "timeout"@
    ||| key == "failed_images"@
    ||| key == "failed_audio"@
    ||| key == "failed_video"@
    ||| key == "rt"@
    ||| key == "stimulus"@
    ||| key == "response"@
    ||| key == "task"@
    ||| key == "correct_response"@
    ||| key == "correct"@
}

/// The members of `e` without those whose key is `key`.
pub open spec fn omit(e: Seq<(String, Json)>, key: Seq<char>) -> Seq<(String, Json)>
    decreases e.len(),
{
    if e.len() == 0 {
        e
    } else if e[0].0@ == key {
        omit(e.drop_first(), key)
    } else {
        seq![e[0]] + omit(e.drop_first(), key)
    }
}

/// A body that is not well-formed JSON is rejected as malformed.
pub proof fn lemma_malformed_body_rejected(body: Seq<u8>)
    requires
        json_parse(body) is None,
    ensures
        verdict(json_parse(body)) == Err::<Seq<TrialView>, RejectReason>(
            RejectReason::MalformedJson,
        ),
{
}

/// JSON that is not an object whose `trials` member is an array is rejected
/// as a schema mismatch.
pub proof fn lemma_without_trials_array_rejected(v: Json)
    requires
        trials_member(v) is None,
    ensures
        verdict(Some(v)) == Err::<Seq<TrialView>, RejectReason>(RejectReason::SchemaMismatch),
{
}

/// A `trials` array whose items are all objects that supply the required
/// members with their types, and no optional member of another type, is
/// accepted, with one trial per item.
pub proof fn lemma_well_typed_batch_accepted(v: Json)
    requires
        trials_member(v) is Some,
        forall|i: int|
            0 <= i < trials_member(v)->0.len() ==> (#[trigger] trials_member(v)->0[i]) is Object
                && required_members_typed(trials_member(v)->0[i]->Object_0@)
                && optional_members_typed(trials_member(v)->0[i]->Object_0@),
    ensures
        verdict(Some(v)) is Ok,
        verdict(Some(v))->Ok_0.len() == trials_member(v)->0.len(),
{
    let a = trials_member(v)->0;
    assert forall|i: int| 0 <= i < a.len() implies (#[trigger] trial_of(a[i])) is Some by {
        assert(a[i] is Object);
    }
    assert(all_trials(a));
}

/// One item of the `trials` array that misses a required member has the whole
/// batch rejected, whatever the other items hold.
pub proof fn lemma_missing_member_rejects_batch(v: Json, i: int)
    requires
        trials_member(v) is Some,
        0 <= i < trials_member(v)->0.len(),
        trials_member(v)->0[i] is Object,
        misses_required(trials_member(v)->0[i]->Object_0@),
    ensures
        verdict(Some(v)) == Err::<Seq<TrialView>, RejectReason>(RejectReason::SchemaMismatch),
{
    let a = trials_member(v)->0;
    assert(trial_of(a[i]) is None);
    assert(!all_trials(a));
}

/// Leaving out the members with key `key` leaves every other member as it was.
pub proof fn lemma_field_of_omit(e: Seq<(String, Json)>, key: Seq<char>, k: Seq<char>)
    ensures
        field(omit(e, key), k) == (if k == key {
            None
        } else {
            field(e, k)
        }),
    decreases e.len(),
{
    if e.len() > 0 {
        lemma_field_of_omit(e.drop_first(), key, k);
        if e[0].0@ != key {
            assert((seq![e[0]] + omit(e.drop_first(), key)).drop_first() =~= omit(
                e.drop_first(),
                key,
            ));
        }
    }
}

/// An optional member can be left out of a trial without making it invalid;
/// the trial then has that member unset.
pub proof fn lemma_optional_member_omittable(e: Seq<(String, Json)>, key: Seq<char>)
    requires
        is_optional_member(key),
        trial_of_entries(e) is Some,
    ensures
        trial_of_entries(omit(e, key)) is Some,
{
    lemma_member_keys_distinct();
    lemma_field_of_omit(e, key, "success"@);
    lemma_field_of_omit(e, key, "timeout"@);
    lemma_field_of_omit(e, key, "failed_images"@);
    lemma_field_of_omit(e, key, "failed_audio"@);
    lemma_field_of_omit(e, key, "failed_video"@);
    lemma_field_of_omit(e, key, "trial_type"@);
    lemma_field_of_omit(e, key, "trial_index"@);
    lemma_field_of_omit(e, key, "plugin_version"@);
    lemma_field_of_omit(e, key, "time_elapsed"@);
    lemma_field_of_omit(e, key, "rt"@);
    lemma_field_of_omit(e, key, "stimulus"@);
    lemma_field_of_omit(e, key, "response"@);
    lemma_field_of_omit(e, key, "task"@);
    lemma_field_of_omit(e, key, "correct_response"@);
    lemma_field_of_omit(e, key, "correct"@);
}

/// In an accepted `trials` array, leaving out of each item one optional
/// member (`keys[i]` out of item `i`) keeps the whole batch accepted.
pub proof fn lemma_optional_members_omittable_in_batch(
    a: Seq<Json>,
    b: Seq<Json>,
    keys: Seq<Seq<char>>,
)
    requires
        batch_of_items(a) is Some,
        b.len() == a.len(),
        keys.len() == a.len(),
        forall|i: int|
            0 <= i < a.len() ==> is_optional_member(#[trigger] keys[i]) && b[i] is Object
                && b[i]->Object_0@ == omit(a[i]->Object_0@, keys[i]),
    ensures
        batch_of_items(b) is Some,
{
    assert forall|i: int| 0 <= i < b.len() implies (#[trigger] trial_of(b[i])) is Some by {
        assert(trial_of(a[i]) is Some);
        lemma_optional_member_omittable(a[i]->Object_0@, keys[i]);
    }
    assert(all_trials(b));
}

} // verus!
