//! Encoding of trials and batches as [`Json`] trees that decode back to them.
use vstd::prelude::*;

use crate::batch::{all_trials, batch_of, TrialBatch};
use crate::json::{field, Json};
use crate::trial::{
    all_strings, opt_bool_of, opt_string_of, opt_string_view, opt_strings_of, opt_strings_view,
    opt_u32_of, string_items, strings_view, trial_of, lemma_member_keys_distinct, member_keys, Trial,
};

verus! {

/// Where the first `i` members of `e` have keys other than `k` and member `i`
/// has key `k`, member `i` is what `field` finds.
proof fn lemma_field_first(e: Seq<(String, Json)>, i: int, k: Seq<char>)
    requires
        0 <= i < e.len(),
        e[i].0@ == k,
        forall|j: int| 0 <= j < i ==> (#[trigger] e[j]).0@ != k,
    ensures
        field(e, k) == Some(e[i].1),
    decreases i,
{
    if i > 0 {
        assert forall|j: int| 0 <= j < i - 1 implies (#[trigger] e.drop_first()[j]).0@ != k by {
            assert(e.drop_first()[j] == e[j + 1]);
        }
        lemma_field_first(e.drop_first(), i - 1, k);
    }
}

/// Members keyed as [`member_keys`] are each found by `field`.
proof fn lemma_fields_of_members(e: Seq<(String, Json)>)
    requires
        e.len() == 15,
        forall|j: int| 0 <= j < 15 ==> (#[trigger] e[j]).0@ == member_keys()[j],
    ensures
        forall|j: int| 0 <= j < 15 ==> field(e, #[trigger] member_keys()[j]) == Some(e[j].1),
{
    lemma_member_keys_distinct();
    assert forall|j: int| 0 <= j < 15 implies field(e, #[trigger] member_keys()[j]) == Some(
        e[j].1,
    ) by {
        assert forall|m: int| 0 <= m < j implies (#[trigger] e[m]).0@ != member_keys()[j] by {
            assert(member_keys()[m] != member_keys()[j]);
        }
        lemma_field_first(e, j, member_keys()[j]);
    }
}

fn opt_bool_json(o: Option<bool>) -> (r: Json)
    ensures
        opt_bool_of(Some(r)) == Some(o),
{
    match o {
        Some(b) => Json::Bool(b),
        None => Json::Null,
    }
}

fn opt_u32_json(o: Option<u32>) -> (r: Json)
    ensures
        opt_u32_of(Some(r)) == Some(o),
{
    match o {
        Some(n) => Json::Number(Some(n as u64)),
        None => Json::Null,
    }
}

fn opt_string_json(o: &Option<String>) -> (r: Json)
    ensures
        opt_string_of(Some(r)) == Some(opt_string_view(*o)),
{
    match o {
        Some(s) => Json::Str(s.clone()),
        None => Json::Null,
    }
}

fn opt_strings_json(o: &Option<Vec<String>>) -> (r: Json)
    ensures
        opt_strings_of(Some(r)) == Some(opt_strings_view(*o)),
{
    match o {
        Some(v) => {
            let mut a: Vec<Json> = Vec::new();
            let mut i: usize = 0;
            while i < v.len()
                invariant
                    i <= v@.len(),
                    a@.len() == i,
                    forall|j: int| 0 <= j < i ==> (#[trigger] a@[j]) is Str && a@[j]->Str_0@ == v@[j]@,
                decreases v@.len() - i,
            {
                a.push(Json::Str(v[i].clone()));
                i = i + 1;
            }
            assert(all_strings(a@));
            assert(string_items(a@) =~= strings_view(*v));
            Json::Array(a)
        },
        None => Json::Null,
    }
}

/// Encodes a trial as a JSON object with one member per field, `null` where
/// an optional field is unset; it decodes back to the same trial.
pub fn trial_to_json(t: &Trial) -> (r: Json)
    ensures
        r is Object,
        r->Object_0@.len() == 15,
        forall|j: int| 0 <= j < 15 ==> (#[trigger] r->Object_0@[j]).0@ == member_keys()[j],
        trial_of(r) == Some(t@),
{
    let mut e: Vec<(String, Json)> = Vec::new();
    e.push(("success".to_owned(), opt_bool_json(t.success)));
    e.push(("timeout".to_owned(), opt_bool_json(t.timeout)));
    e.push(("failed_images".to_owned(), opt_strings_json(&t.failed_images)));
    e.push(("failed_audio".to_owned(), opt_strings_json(&t.failed_audio)));
    e.push(("failed_video".to_owned(), opt_strings_json(&t.failed_video)));
    e.push(("trial_type".to_owned(), Json::Str(t.trial_type.clone())));
    e.push(("trial_index".to_owned(), Json::Number(Some(t.trial_index as u64))));
    e.push(("plugin_version".to_owned(), Json::Str(t.plugin_version.clone())));
    e.push(("time_elapsed".to_owned(), Json::Number(Some(t.time_elapsed as u64))));
    e.push(("rt".to_owned(), opt_u32_json(t.rt)));
    e.push(("stimulus".to_owned(), opt_string_json(&t.stimulus)));
    e.push(("response".to_owned(), opt_string_json(&t.response)));
    e.push(("task".to_owned(), opt_string_json(&t.task)));
    e.push(("correct_response".to_owned(), opt_string_json(&t.correct_response)));
    e.push(("correct".to_owned(), opt_bool_json(t.correct)));
    proof {
        assert forall|j: int| 0 <= j < 15 implies (#[trigger] e@[j]).0@ == member_keys()[j] by {
        }
        lemma_fields_of_members(e@);
    }
    Json::Object(e)
}

/// Encodes a batch as an object whose `trials` member holds each trial in
/// order; it decodes back to the same batch.
pub fn batch_to_json(b: &TrialBatch) -> (r: Json)
    ensures
        r is Object,
        r->Object_0@.len() == 1,
        r->Object_0@[0].0@ == "trials"@,
        r->Object_0@[0].1 is Array,
        r->Object_0@[0].1->Array_0@.len() == b.trials@.len(),
        forall|i: int|
            0 <= i < b.trials@.len() ==> {
                let item = #[trigger] r->Object_0@[0].1->Array_0@[i];
                &&& item is Object
                &&& item->Object_0@.len() == 15
                &&& forall|j: int|
                    0 <= j < 15 ==> (#[trigger] item->Object_0@[j]).0@ == member_keys()[j]
            },
        batch_of(r) == Some(b@),
{
    let mut a: Vec<Json> = Vec::new();
    let mut i: usize = 0;
    while i < b.trials.len()
        invariant
            i <= b.trials@.len(),
            a@.len() == i,
            forall|j: int| 0 <= j < i ==> #[trigger] trial_of(a@[j]) == Some(b.trials@[j]@),
            forall|j: int|
                0 <= j < i ==> {
                    let item = #[trigger] a@[j];
                    &&& item is Object
                    &&& item->Object_0@.len() == 15
                    &&& forall|k: int|
                        0 <= k < 15 ==> (#[trigger] item->Object_0@[k]).0@ == member_keys()[k]
                },
        decreases b.trials@.len() - i,
    {
        a.push(trial_to_json(&b.trials[i]));
        i = i + 1;
    }
    assert(all_trials(a@));
    assert(a@.map_values(|x: Json| trial_of(x)->0) =~= b@);
    let mut e: Vec<(String, Json)> = Vec::new();
    e.push(("trials".to_owned(), Json::Array(a)));
    Json::Object(e)
}

} // verus!
