//! Probe status as the control surface reports it: the three process states
//! and the `{id, name, status}` rows, with their JSON codec.

use crate::json::{
    distinct_keys, encode_int, jview_obj, lemma_opt_members_lookup, obj_lookup, opt_members,
    req_int_field, req_str_field, Json, JsonV,
};
use vstd::prelude::*;

verus! {

/// The state of one probe process.
#[derive(Clone, Copy, Debug, PartialEq, Eq, Structural)]
pub enum ProcessStatus {
    Running,
    Stopped,
    Disabled,
}

/// The JSON text of a process status.
pub open spec fn process_status_name(s: ProcessStatus) -> Seq<char> {
    match s {
        ProcessStatus::Running => "running"@,
        ProcessStatus::Stopped => "stopped"@,
        ProcessStatus::Disabled => "disabled"@,
    }
}

/// Reads a process status back from its JSON text.
pub open spec fn process_status_of_name(k: Seq<char>) -> Option<ProcessStatus> {
    if k == "running"@ {
        Some(ProcessStatus::Running)
    } else if k == "stopped"@ {
        Some(ProcessStatus::Stopped)
    } else if k == "disabled"@ {
        Some(ProcessStatus::Disabled)
    } else {
        None
    }
}

/// The JSON text of a process status.
pub fn process_status_to_str(s: &ProcessStatus) -> (r: &'static str)
    ensures
        r@ == process_status_name(*s),
{
    match s {
        ProcessStatus::Running => "running",
        ProcessStatus::Stopped => "stopped",
        ProcessStatus::Disabled => "disabled",
    }
}

/// Reads a process status back from its JSON text.
pub fn process_status_from_str(s: &str) -> (r: Option<ProcessStatus>)
    ensures
        r == process_status_of_name(s@),
{
    if crate::chars::str_eq(s, "running") {
        Some(ProcessStatus::Running)
    } else if crate::chars::str_eq(s, "stopped") {
        Some(ProcessStatus::Stopped)
    } else if crate::chars::str_eq(s, "disabled") {
        Some(ProcessStatus::Disabled)
    } else {
        None
    }
}

/// A process status reads back from its own text.
pub proof fn lemma_process_status_name_round_trip(s: ProcessStatus)
    ensures
        process_status_of_name(process_status_name(s)) == Some(s),
{
    reveal_strlit("running");
    reveal_strlit("stopped");
    reveal_strlit("disabled");
    assert(("running"@).len() == 7);
    assert(("stopped"@).len() == 7);
    assert(("disabled"@).len() == 8);
    assert(("running"@)[0] != ("stopped"@)[0]);
}

/// One row of the status listing.
#[derive(Debug, Clone, PartialEq)]
pub struct Status {
    pub id: i32,
    pub name: String,
    pub status: ProcessStatus,
}

/// Mathematical view of [`Status`].
#[verifier::ext_equal]
pub struct StatusV {
    pub id: i32,
    pub name: Seq<char>,
    pub status: ProcessStatus,
}

impl View for Status {
    type V = StatusV;

    open spec fn view(&self) -> StatusV {
        StatusV { id: self.id, name: self.name@, status: self.status }
    }
}

/// Field list of a status row's JSON object.
pub open spec fn status_fields(s: StatusV) -> Seq<(Seq<char>, Option<JsonV>)> {
    seq![
        ("id"@, Some(encode_int(s.id as int))),
        ("name"@, Some(JsonV::Str(s.name))),
        ("status"@, Some(JsonV::Str(process_status_name(s.status)))),
    ]
}

/// JSON form of a status row.
pub open spec fn encode_status(s: StatusV) -> JsonV {
    JsonV::Obj(opt_members(status_fields(s)))
}

/// Decodes a status row: every field is required.
pub open spec fn decode_status(j: JsonV) -> Option<StatusV> {
    match j {
        JsonV::Obj(ms) => {
            let id = req_int_field(ms, "id"@, i32::MIN as int, i32::MAX as int);
            let name = req_str_field(ms, "name"@);
            let status = match req_str_field(ms, "status"@) {
                Some(k) => process_status_of_name(k),
                None => None,
            };
            if id is Some && name is Some && status is Some {
                Some(
                    StatusV { id: id.unwrap() as i32, name: name.unwrap(), status: status.unwrap() },
                )
            } else {
                None
            }
        },
        _ => None,
    }
}

impl Status {
    /// JSON form of this row.
    pub fn to_json(&self) -> (r: Json)
        ensures
            r@ == encode_status(self@),
    {
        let ghost fs = status_fields(self@);
        let mut ms: Vec<(String, Json)> = Vec::new();
        proof {
            assert(jview_obj(ms@, 0) =~= opt_members(fs.take(0)));
        }
        crate::json::push_opt_member(&mut ms, "id", Some(crate::json::x_encode_int(self.id as i64)));
        proof {
            crate::json::lemma_opt_members_snoc(fs, 0);
            assert(jview_obj(ms@, 0) == opt_members(fs.take(1)));
        }
        crate::json::push_opt_member(&mut ms, "name", Some(Json::Str(self.name.clone())));
        proof {
            crate::json::lemma_opt_members_snoc(fs, 1);
            assert(jview_obj(ms@, 0) == opt_members(fs.take(2)));
        }
        crate::json::push_opt_member(
            &mut ms,
            "status",
            Some(Json::Str(process_status_to_str(&self.status).to_owned())),
        );
        proof {
            crate::json::lemma_opt_members_snoc(fs, 2);
            assert(jview_obj(ms@, 0) == opt_members(fs.take(3)));
            assert(fs.take(3) =~= fs);
        }
        Json::Obj(ms)
    }

    /// Reads a row back from JSON.
    pub fn from_json(v: &Json) -> (r: Option<Status>)
        ensures
            match r {
                Some(s) => decode_status(v@) == Some(s@),
                None => decode_status(v@) == None::<StatusV>,
            },
    {
        match v {
            Json::Obj(ms) => {
                let id = match crate::json::x_req_int(ms, "id", i32::MIN as i64, i32::MAX as i64) {
                    Some(n) => n as i32,
                    None => {
                        return None;
                    },
                };
                let name = match crate::json::x_req_str(ms, "name") {
                    Some(s) => s,
                    None => {
                        return None;
                    },
                };
                let status = match crate::json::x_req_str(ms, "status") {
                    Some(s) => match process_status_from_str(s.as_str()) {
                        Some(x) => x,
                        None => {
                            return None;
                        },
                    },
                    None => {
                        return None;
                    },
                };
                Some(Status { id, name, status })
            },
            _ => None,
        }
    }

    /// Parses a row from JSON text.
    pub fn from_json_text(s: &str) -> (r: Option<Status>)
        ensures
            match r {
                Some(st) => spec_status_of_text(s@) == Some(st@),
                None => spec_status_of_text(s@) == None::<StatusV>,
            },
    {
        match crate::json::parse_json(s) {
            Some(v) => Status::from_json(&v),
            None => None,
        }
    }
}

/// The status row denoted by a JSON text, if any.
pub open spec fn spec_status_of_text(s: Seq<char>) -> Option<StatusV> {
    match crate::json::spec_parse_json(s) {
        Some(j) => decode_status(j),
        None => None,
    }
}

/// A status row decodes back from its own JSON form unchanged.
pub proof fn lemma_status_round_trip(s: StatusV)
    ensures
        decode_status(encode_status(s)) == Some(s),
{
    let fs = status_fields(s);
    assert(distinct_keys(fs)) by {
        reveal_strlit("id");
        reveal_strlit("name");
        reveal_strlit("status");
        assert(("id"@).len() == 2);
        assert(("name"@).len() == 4);
        assert(("status"@).len() == 6);
    }
    lemma_opt_members_lookup(fs, 0);
    lemma_opt_members_lookup(fs, 1);
    lemma_opt_members_lookup(fs, 2);
    crate::chars::lemma_dec_int_round_trip(s.id as int);
    lemma_process_status_name_round_trip(s.status);
}

} // verus!
