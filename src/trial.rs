//! The trial record, its schema over [`Json`], and its decoding.
use vstd::prelude::*;

use crate::json::{field, find_field, Json};

verus! {

/// One row of behavioural-experiment output.
#[derive(Debug)]
pub struct Trial {
    pub success: Option<bool>,
    pub timeout: Option<bool>,
    pub failed_images: Option<Vec<String>>,
    pub failed_audio: Option<Vec<String>>,
    pub failed_video: Option<Vec<String>>,
    pub trial_type: String,
    pub trial_index: u32,
    pub plugin_version: String,
    pub time_elapsed: u32,
    pub rt: Option<u32>,
    pub stimulus: Option<String>,
    pub response: Option<String>,
    pub task: Option<String>,
    pub correct_response: Option<String>,
    pub correct: Option<bool>,
}

/// A trial as mathematical values: strings as sequences of characters.
pub struct TrialView {
    pub success: Option<bool>,
    pub timeout: Option<bool>,
    pub failed_images: Option<Seq<Seq<char>>>,
    pub failed_audio: Option<Seq<Seq<char>>>,
    pub failed_video: Option<Seq<Seq<char>>>,
    pub trial_type: Seq<char>,
    pub trial_index: u32,
    pub plugin_version: Seq<char>,
    pub time_elapsed: u32,
    pub rt: Option<u32>,
    pub stimulus: Option<Seq<char>>,
    pub response: Option<Seq<char>>,
    pub task: Option<Seq<char>>,
    pub correct_response: Option<Seq<char>>,
    pub correct: Option<bool>,
}

pub open spec fn strings_view(v: Vec<String>) -> Seq<Seq<char>> {
    v@.map_values(|s: String| s@)
}

pub open spec fn opt_strings_view(o: Option<Vec<String>>) -> Option<Seq<Seq<char>>> {
    match o {
        Some(v) => Some(strings_view(v)),
        None => None,
    }
}

pub open spec fn opt_string_view(o: Option<String>) -> Option<Seq<char>> {
    match o {
        Some(s) => Some(s@),
        None => None,
    }
}

impl View for Trial {
    type V = TrialView;

    open spec fn view(&self) -> TrialView {
        TrialView {
            success: self.success,
            timeout: self.timeout,
            failed_images: opt_strings_view(self.failed_images),
            failed_audio: opt_strings_view(self.failed_audio),
            failed_video: opt_strings_view(self.failed_video),
            trial_type: self.trial_type@,
            trial_index: self.trial_index,
            plugin_version: self.plugin_version@,
            time_elapsed: self.time_elapsed,
            rt: self.rt,
            stimulus: opt_string_view(self.stimulus),
            response: opt_string_view(self.response),
            task: opt_string_view(self.task),
            correct_response: opt_string_view(self.correct_response),
            correct: self.correct,
        }
    }
}

/// The keys of a trial's members, in the order the encoder writes them.
pub open spec fn member_keys() -> Seq<Seq<char>> {
    seq![
        "success"@,
        "timeout"@,
        "failed_images"@,
        "failed_audio"@,
        "failed_video"@,
        "trial_type"@,
        "trial_index"@,
        "plugin_version"@,
        "time_elapsed"@,
        "rt"@,
        "stimulus"@,
        "response"@,
        "task"@,
        "correct_response"@,
        "correct"@,
    ]
}

/// No two members of a trial share a key.
pub proof fn lemma_member_keys_distinct()
    ensures
        member_keys().len() == 15,
        forall|i: int, j: int|
            0 <= i < j < 15 ==> #[trigger] member_keys()[i] != #[trigger] member_keys()[j],
{
    reveal_strlit("success");
    reveal_strlit("timeout");
    reveal_strlit("failed_images");
    reveal_strlit("failed_audio");
    reveal_strlit("failed_video");
    reveal_strlit("trial_type");
    reveal_strlit("trial_index");
    reveal_strlit("plugin_version");
    reveal_strlit("time_elapsed");
    reveal_strlit("rt");
    reveal_strlit("stimulus");
    reveal_strlit("response");
    reveal_strlit("task");
    reveal_strlit("correct_response");
    reveal_strlit("correct");
    assert("success"@[0] != "timeout"@[0]);
    assert("success"@.len() != "failed_images"@.len());
    assert("success"@.len() != "failed_audio"@.len());
    assert("success"@.len() != "failed_video"@.len());
    assert("success"@.len() != "trial_type"@.len());
    assert("success"@.len() != "trial_index"@.len());
    assert("success"@.len() != "plugin_version"@.len());
    assert("success"@.len() != "time_elapsed"@.len());
    assert("success"@.len() != "rt"@.len());
    assert("success"@.len() != "stimulus"@.len());
    assert("success"@.len() != "response"@.len());
    assert("success"@.len() != "task"@.len());
    assert("success"@.len() != "correct_response"@.len());
    assert("success"@[0] != "correct"@[0]);
    assert("timeout"@.len() != "failed_images"@.len());
    assert("timeout"@.len() != "failed_audio"@.len());
    assert("timeout"@.len() != "failed_video"@.len());
    assert("timeout"@.len() != "trial_type"@.len());
    assert("timeout"@.len() != "trial_index"@.len());
    assert("timeout"@.len() != "plugin_version"@.len());
    assert("timeout"@.len() != "time_elapsed"@.len());
    assert("timeout"@.len() != "rt"@.len());
    assert("timeout"@.len() != "stimulus"@.len());
    assert("timeout"@.len() != "response"@.len());
    assert("timeout"@.len() != "task"@.len());
    assert("timeout"@.len() != "correct_response"@.len());
    assert("timeout"@[0] != "correct"@[0]);
    assert("failed_images"@.len() != "failed_audio"@.len());
    assert("failed_images"@.len() != "failed_video"@.len());
    assert("failed_images"@.len() != "trial_type"@.len());
    assert("failed_images"@.len() != "trial_index"@.len());
    assert("failed_images"@.len() != "plugin_version"@.len());
    assert("failed_images"@.len() != "time_elapsed"@.len());
    assert("failed_images"@.len() != "rt"@.len());
    assert("failed_images"@.len() != "stimulus"@.len());
    assert("failed_images"@.len() != "response"@.len());
    assert("failed_images"@.len() != "task"@.len());
    assert("failed_images"@.len() != "correct_response"@.len());
    assert("failed_images"@.len() != "correct"@.len());
    assert("failed_audio"@[7] != "failed_video"@[7]);
    assert("failed_audio"@.len() != "trial_type"@.len());
    assert("failed_audio"@.len() != "trial_index"@.len());
    assert("failed_audio"@.len() != "plugin_version"@.len());
    assert("failed_audio"@[0] != "time_elapsed"@[0]);
    assert("failed_audio"@.len() != "rt"@.len());
    assert("failed_audio"@.len() != "stimulus"@.len());
    assert("failed_audio"@.len() != "response"@.len());
    assert("failed_audio"@.len() != "task"@.len());
    assert("failed_audio"@.len() != "correct_response"@.len());
    assert("failed_audio"@.len() != "correct"@.len());
    assert("failed_video"@.len() != "trial_type"@.len());
    assert("failed_video"@.len() != "trial_index"@.len());
    assert("failed_video"@.len() != "plugin_version"@.len());
    assert("failed_video"@[0] != "time_elapsed"@[0]);
    assert("failed_video"@.len() != "rt"@.len());
    assert("failed_video"@.len() != "stimulus"@.len());
    assert("failed_video"@.len() != "response"@.len());
    assert("failed_video"@.len() != "task"@.len());
    assert("failed_video"@.len() != "correct_response"@.len());
    assert("failed_video"@.len() != "correct"@.len());
    assert("trial_type"@.len() != "trial_index"@.len());
    assert("trial_type"@.len() != "plugin_version"@.len());
    assert("trial_type"@.len() != "time_elapsed"@.len());
    assert("trial_type"@.len() != "rt"@.len());
    assert("trial_type"@.len() != "stimulus"@.len());
    assert("trial_type"@.len() != "response"@.len());
    assert("trial_type"@.len() != "task"@.len());
    assert("trial_type"@.len() != "correct_response"@.len());
    assert("trial_type"@.len() != "correct"@.len());
    assert("trial_index"@.len() != "plugin_version"@.len());
    assert("trial_index"@.len() != "time_elapsed"@.len());
    assert("trial_index"@.len() != "rt"@.len());
    assert("trial_index"@.len() != "stimulus"@.len());
    assert("trial_index"@.len() != "response"@.len());
    assert("trial_index"@.len() != "task"@.len());
    assert("trial_index"@.len() != "correct_response"@.len());
    assert("trial_index"@.len() != "correct"@.len());
    assert("plugin_version"@.len() != "time_elapsed"@.len());
    assert("plugin_version"@.len() != "rt"@.len());
    assert("plugin_version"@.len() != "stimulus"@.len());
    assert("plugin_version"@.len() != "response"@.len());
    assert("plugin_version"@.len() != "task"@.len());
    assert("plugin_version"@.len() != "correct_response"@.len());
    assert("plugin_version"@.len() != "correct"@.len());
    assert("time_elapsed"@.len() != "rt"@.len());
    assert("time_elapsed"@.len() != "stimulus"@.len());
    assert("time_elapsed"@.len() != "response"@.len());
    assert("time_elapsed"@.len() != "task"@.len());
    assert("time_elapsed"@.len() != "correct_response"@.len());
    assert("time_elapsed"@.len() != "correct"@.len());
    assert("rt"@.len() != "stimulus"@.len());
    assert("rt"@.len() != "response"@.len());
    assert("rt"@.len() != "task"@.len());
    assert("rt"@.len() != "correct_response"@.len());
    assert("rt"@.len() != "correct"@.len());
    assert("stimulus"@[0] != "response"@[0]);
    assert("stimulus"@.len() != "task"@.len());
    assert("stimulus"@.len() != "correct_response"@.len());
    assert("stimulus"@.len() != "correct"@.len());
    assert("response"@.len() != "task"@.len());
    assert("response"@.len() != "correct_response"@.len());
    assert("response"@.len() != "correct"@.len());
    assert("task"@.len() != "correct_response"@.len());
    assert("task"@.len() != "correct"@.len());
    assert("correct_response"@.len() != "correct"@.len());
}

/// A required string member: present and a JSON string.
pub open spec fn string_of(f: Option<Json>) -> Option<Seq<char>> {
    match f {
        Some(Json::Str(s)) => Some(s@),
        _ => None,
    }
}

/// A required unsigned member: present and a whole number that fits in `u32`.
pub open spec fn u32_of(f: Option<Json>) -> Option<u32> {
    match f {
        Some(Json::Number(Some(n))) => if n <= u32::MAX {
            Some(n as u32)
        } else {
            None
        },
        _ => None,
    }
}

/// An optional member reads as `Some(None)` when it is absent or `null`,
/// `Some(Some(x))` when it holds a value of its type, and `None` otherwise.
pub open spec fn opt_bool_of(f: Option<Json>) -> Option<Option<bool>> {
    match f {
        None => Some(None),
        Some(Json::Null) => Some(None),
        Some(Json::Bool(b)) => Some(Some(b)),
        _ => None,
    }
}

pub open spec fn opt_string_of(f: Option<Json>) -> Option<Option<Seq<char>>> {
    match f {
        None => Some(None),
        Some(Json::Null) => Some(None),
        Some(Json::Str(s)) => Some(Some(s@)),
        _ => None,
    }
}

pub open spec fn opt_u32_of(f: Option<Json>) -> Option<Option<u32>> {
    match f {
        None => Some(None),
        Some(Json::Null) => Some(None),
        _ => match u32_of(f) {
            Some(n) => Some(Some(n)),
            None => None,
        },
    }
}

/// Every item of `a` is a JSON string.
pub open spec fn all_strings(a: Seq<Json>) -> bool {
    forall|i: int| 0 <= i < a.len() ==> (#[trigger] a[i]) is Str
}

pub open spec fn string_items(a: Seq<Json>) -> Seq<Seq<char>> {
    Seq::new(a.len(), |i: int| a[i]->Str_0@)
}

pub open spec fn opt_strings_of(f: Option<Json>) -> Option<Option<Seq<Seq<char>>>> {
    match f {
        None => Some(None),
        Some(Json::Null) => Some(None),
        Some(Json::Array(a)) => if all_strings(a@) {
            Some(Some(string_items(a@)))
        } else {
            None
        },
        _ => None,
    }
}

/// The trial that the members `e` of a JSON object describe, or `None` where a
/// required member is missing or a member of the schema has the wrong type.
/// Members outside the schema are ignored.
pub open spec fn trial_of_entries(e: Seq<(String, Json)>) -> Option<TrialView> {
    let success = opt_bool_of(field(e, "success"@));
    let timeout = opt_bool_of(field(e, "timeout"@));
    let failed_images = opt_strings_of(field(e, "failed_images"@));
    let failed_audio = opt_strings_of(field(e, "failed_audio"@));
    let failed_video = opt_strings_of(field(e, "failed_video"@));
    let trial_type = string_of(field(e, "trial_type"@));
    let trial_index = u32_of(field(e, "trial_index"@));
    let plugin_version = string_of(field(e, "plugin_version"@));
    let time_elapsed = u32_of(field(e, "time_elapsed"@));
    let rt = opt_u32_of(field(e, "rt"@));
    let stimulus = opt_string_of(field(e, "stimulus"@));
    let response = opt_string_of(field(e, "response"@));
    let task = opt_string_of(field(e, "task"@));
    let correct_response = opt_string_of(field(e, "correct_response"@));
    let correct = opt_bool_of(field(e, "correct"@));
    if success is Some && timeout is Some && failed_images is Some && failed_audio is Some
        && failed_video is Some && trial_type is Some && trial_index is Some
        && plugin_version is Some && time_elapsed is Some && rt is Some && stimulus is Some
        && response is Some && task is Some && correct_response is Some && correct is Some {
        Some(
            TrialView {
                success: success->0,
                timeout: timeout->0,
                failed_images: failed_images->0,
                failed_audio: failed_audio->0,
                failed_video: failed_video->0,
                trial_type: trial_type->0,
                trial_index: trial_index->0,
                plugin_version: plugin_version->0,
                time_elapsed: time_elapsed->0,
                rt: rt->0,
                stimulus: stimulus->0,
                response: response->0,
                task: task->0,
                correct_response: correct_response->0,
                correct: correct->0,
            },
        )
    } else {
        None
    }
}

/// The trial that a JSON value describes: it must be an object.
pub open spec fn trial_of(v: Json) -> Option<TrialView> {
    match v {
        Json::Object(e) => trial_of_entries(e@),
        _ => None,
    }
}

fn read_string(e: &Vec<(String, Json)>, key: &str) -> (r: Option<String>)
    ensures
        opt_string_view(r) == string_of(field(e@, key@)),
{
    match find_field(e, key) {
        Some(i) => match &e[i].1 {
            Json::Str(s) => Some(s.clone()),
            _ => None,
        },
        None => None,
    }
}

fn read_u32(e: &Vec<(String, Json)>, key: &str) -> (r: Option<u32>)
    ensures
        r == u32_of(field(e@, key@)),
{
    match find_field(e, key) {
        Some(i) => match &e[i].1 {
            Json::Number(Some(n)) => if *n <= u32::MAX as u64 {
                Some(*n as u32)
            } else {
                None
            },
            _ => None,
        },
        None => None,
    }
}

fn read_opt_bool(e: &Vec<(String, Json)>, key: &str) -> (r: Option<Option<bool>>)
    ensures
        r == opt_bool_of(field(e@, key@)),
{
    match find_field(e, key) {
        Some(i) => match &e[i].1 {
            Json::Null => Some(None),
            Json::Bool(b) => Some(Some(*b)),
            _ => None,
        },
        None => Some(None),
    }
}

fn read_opt_string(e: &Vec<(String, Json)>, key: &str) -> (r: Option<Option<String>>)
    ensures
        match r {
            Some(o) => opt_string_of(field(e@, key@)) == Some(opt_string_view(o)),
            None => opt_string_of(field(e@, key@)) is None,
        },
{
    match find_field(e, key) {
        Some(i) => match &e[i].1 {
            Json::Null => Some(None),
            Json::Str(s) => Some(Some(s.clone())),
            _ => None,
        },
        None => Some(None),
    }
}

fn read_opt_u32(e: &Vec<(String, Json)>, key: &str) -> (r: Option<Option<u32>>)
    ensures
        r == opt_u32_of(field(e@, key@)),
{
    match find_field(e, key) {
        Some(i) => match &e[i].1 {
            Json::Null => Some(None),
            Json::Number(Some(n)) => if *n <= u32::MAX as u64 {
                Some(Some(*n as u32))
            } else {
                None
            },
            _ => None,
        },
        None => Some(None),
    }
}

/// The strings of `a`, or `None` where an item is not a JSON string.
fn strings_of_array(a: &Vec<Json>) -> (r: Option<Vec<String>>)
    ensures
        match r {
            Some(v) => all_strings(a@) && strings_view(v) == string_items(a@),
            None => !all_strings(a@),
        },
{
    let mut out: Vec<String> = Vec::new();
    let mut i: usize = 0;
    while i < a.len()
        invariant
            i <= a@.len(),
            out@.len() == i,
            forall|j: int| 0 <= j < i ==> (#[trigger] a@[j]) is Str && out@[j]@ == a@[j]->Str_0@,
        decreases a@.len() - i,
    {
        match &a[i] {
            Json::Str(s) => out.push(s.clone()),
            _ => return None,
        }
        i = i + 1;
    }
    assert(strings_view(out) =~= string_items(a@));
    Some(out)
}

fn read_opt_strings(e: &Vec<(String, Json)>, key: &str) -> (r: Option<Option<Vec<String>>>)
    ensures
        match r {
            Some(o) => opt_strings_of(field(e@, key@)) == Some(opt_strings_view(o)),
            None => opt_strings_of(field(e@, key@)) is None,
        },
{
    match find_field(e, key) {
        Some(i) => match &e[i].1 {
            Json::Null => Some(None),
            Json::Array(a) => match strings_of_array(a) {
                Some(v) => Some(Some(v)),
                None => None,
            },
            _ => None,
        },
        None => Some(None),
    }
}

/// Decodes one trial from a JSON value: exactly [`trial_of`].
pub fn decode_trial(v: &Json) -> (r: Option<Trial>)
    ensures
        match r {
            Some(t) => trial_of(*v) == Some(t@),
            None => trial_of(*v) is None,
        },
{
    match v {
        Json::Object(e) => {
            let success = match read_opt_bool(e, "success") {
                Some(x) => x,
                None => return None,
            };
            let timeout = match read_opt_bool(e, "timeout") {
                Some(x) => x,
                None => return None,
            };
            let failed_images = match read_opt_strings(e, "failed_images") {
                Some(x) => x,
                None => return None,
            };
            let failed_audio = match read_opt_strings(e, "failed_audio") {
                Some(x) => x,
                None => return None,
            };
            let failed_video = match read_opt_strings(e, "failed_video") {
                Some(x) => x,
                None => return None,
            };
            let trial_type = match read_string(e, "trial_type") {
                Some(x) => x,
                None => return None,
            };
            let trial_index = match read_u32(e, "trial_index") {
                Some(x) => x,
                None => return None,
            };
            let plugin_version = match read_string(e, "plugin_version") {
                Some(x) => x,
                None => return None,
            };
            let time_elapsed = match read_u32(e, "time_elapsed") {
                Some(x) => x,
                None => return None,
            };
            let rt = match read_opt_u32(e, "rt") {
                Some(x) => x,
                None => return None,
            };
            let stimulus = match read_opt_string(e, "stimulus") {
                Some(x) => x,
                None => return None,
            };
            let response = match read_opt_string(e, "response") {
                Some(x) => x,
                None => return None,
            };
            let task = match read_opt_string(e, "task") {
                Some(x) => x,
                None => return None,
            };
            let correct_response = match read_opt_string(e, "correct_response") {
                Some(x) => x,
                None => return None,
            };
            let correct = match read_opt_bool(e, "correct") {
                Some(x) => x,
                None => return None,
            };
            Some(Trial {
                success,
                timeout,
                failed_images,
                failed_audio,
                failed_video,
                trial_type,
                trial_index,
                plugin_version,
                time_elapsed,
                rt,
                stimulus,
                response,
                task,
                correct_response,
                correct,
            })
        },
        _ => None,
    }
}

} // verus!
