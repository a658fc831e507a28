//! User-registered webhooks: the data model with its JSON codec, and the
//! dispatch plan — which hooks a published message is sent to, with what
//! method, headers and body. The HTTP requests themselves happen outside the
//! library; the plan pins everything about them.

use crate::json::{
    distinct_keys, encode_int, jview, jview_obj, lemma_opt_members_lookup, obj_lookup, opt_members,
    print_json, req_int_field, req_str_field, Json, JsonV,
};
use crate::messages::{encode_message, Message, MessageV};
use vstd::prelude::*;

verus! {

/// The HTTP method a webhook is called with.
#[derive(Clone, Copy, Debug, PartialEq, Eq, Structural)]
pub enum WebhookRequestMethod {
    Get,
    Post,
    Put,
}

/// The JSON text of a request method.
pub open spec fn method_name(m: WebhookRequestMethod) -> Seq<char> {
    match m {
        WebhookRequestMethod::Get => "GET"@,
        WebhookRequestMethod::Post => "POST"@,
        WebhookRequestMethod::Put => "PUT"@,
    }
}

/// Reads a request method back from its JSON text.
pub open spec fn method_of_name(k: Seq<char>) -> Option<WebhookRequestMethod> {
    if k == "GET"@ {
        Some(WebhookRequestMethod::Get)
    } else if k == "POST"@ {
        Some(WebhookRequestMethod::Post)
    } else if k == "PUT"@ {
        Some(WebhookRequestMethod::Put)
    } else {
        None
    }
}

/// The JSON text of a request method.
pub fn method_to_str(m: &WebhookRequestMethod) -> (r: &'static str)
    ensures
        r@ == method_name(*m),
{
    match m {
        WebhookRequestMethod::Get => "GET",
        WebhookRequestMethod::Post => "POST",
        WebhookRequestMethod::Put => "PUT",
    }
}

/// Reads a request method back from its JSON text.
pub fn method_from_str(s: &str) -> (r: Option<WebhookRequestMethod>)
    ensures
        r == method_of_name(s@),
{
    if crate::chars::str_eq(s, "GET") {
        Some(WebhookRequestMethod::Get)
    } else if crate::chars::str_eq(s, "POST") {
        Some(WebhookRequestMethod::Post)
    } else if crate::chars::str_eq(s, "PUT") {
        Some(WebhookRequestMethod::Put)
    } else {
        None
    }
}

/// A request method reads back from its own text.
pub proof fn lemma_method_name_round_trip(m: WebhookRequestMethod)
    ensures
        method_of_name(method_name(m)) == Some(m),
{
    reveal_strlit("GET");
    reveal_strlit("POST");
    reveal_strlit("PUT");
    assert(("GET"@).len() == 3);
    assert(("POST"@).len() == 4);
    assert(("PUT"@).len() == 3);
    assert(("GET"@)[0] != ("PUT"@)[0]);
}

/// Which message kinds a webhook receives.
#[derive(Clone, Copy, Debug, PartialEq, Eq, Structural)]
pub enum WebhookStatsType {
    Alarms,
    Both,
    Data,
}

/// The JSON text of a type filter.
pub open spec fn stats_type_name(t: WebhookStatsType) -> Seq<char> {
    match t {
        WebhookStatsType::Alarms => "alarms"@,
        WebhookStatsType::Both => "both"@,
        WebhookStatsType::Data => "data"@,
    }
}

/// Reads a type filter back from its JSON text.
pub open spec fn stats_type_of_name(k: Seq<char>) -> Option<WebhookStatsType> {
    if k == "alarms"@ {
        Some(WebhookStatsType::Alarms)
    } else if k == "both"@ {
        Some(WebhookStatsType::Both)
    } else if k == "data"@ {
        Some(WebhookStatsType::Data)
    } else {
        None
    }
}

/// The JSON text of a type filter.
pub fn stats_type_to_str(t: &WebhookStatsType) -> (r: &'static str)
    ensures
        r@ == stats_type_name(*t),
{
    match t {
        WebhookStatsType::Alarms => "alarms",
        WebhookStatsType::Both => "both",
        WebhookStatsType::Data => "data",
    }
}

/// Reads a type filter back from its JSON text.
pub fn stats_type_from_str(s: &str) -> (r: Option<WebhookStatsType>)
    ensures
        r == stats_type_of_name(s@),
{
    if crate::chars::str_eq(s, "alarms") {
        Some(WebhookStatsType::Alarms)
    } else if crate::chars::str_eq(s, "both") {
        Some(WebhookStatsType::Both)
    } else if crate::chars::str_eq(s, "data") {
        Some(WebhookStatsType::Data)
    } else {
        None
    }
}

/// A type filter reads back from its own text.
pub proof fn lemma_stats_type_name_round_trip(t: WebhookStatsType)
    ensures
        stats_type_of_name(stats_type_name(t)) == Some(t),
{
    reveal_strlit("alarms");
    reveal_strlit("both");
    reveal_strlit("data");
    assert(("alarms"@).len() == 6);
    assert(("both"@).len() == 4);
    assert(("data"@).len() == 4);
    assert(("both"@)[0] != ("data"@)[0]);
}

// ------------------------------------------------------------------
// Headers
// ------------------------------------------------------------------
/// View of a header list.
pub open spec fn headers_view(h: Seq<(String, String)>, i: int) -> Seq<(Seq<char>, Seq<char>)>
    decreases h.len() - i,
{
    if i < 0 || i >= h.len() {
        Seq::empty()
    } else {
        seq![(h[i].0@, h[i].1@)] + headers_view(h, i + 1)
    }
}

pub proof fn lemma_headers_view(h: Seq<(String, String)>, i: int)
    requires
        0 <= i <= h.len(),
    ensures
        headers_view(h, i).len() == h.len() - i,
        forall|j: int|
            i <= j < h.len() ==> headers_view(h, i)[j - i] == ((#[trigger] h[j]).0@, h[j].1@),
    decreases h.len() - i,
{
    if i < h.len() {
        lemma_headers_view(h, i + 1);
    }
}

pub proof fn lemma_headers_view_push(h: Seq<(String, String)>, x: (String, String), i: int)
    requires
        0 <= i <= h.len(),
    ensures
        headers_view(h.push(x), i) == headers_view(h, i).push((x.0@, x.1@)),
    decreases h.len() - i,
{
    let a = h.push(x);
    if i < h.len() {
        lemma_headers_view_push(h, x, i + 1);
        assert(a[i] == h[i]);
        assert(headers_view(a, i) =~= headers_view(h, i).push((x.0@, x.1@)));
    } else {
        assert(a[i] == x);
        assert(headers_view(a, i + 1) =~= Seq::<(Seq<char>, Seq<char>)>::empty());
        assert(headers_view(a, i) =~= headers_view(h, i).push((x.0@, x.1@)));
    }
}

/// The JSON members of a header map: each pair becomes a string member, in
/// order.
pub open spec fn headers_members(h: Seq<(Seq<char>, Seq<char>)>) -> Seq<(Seq<char>, JsonV)>
    decreases h.len(),
{
    if h.len() == 0 {
        Seq::empty()
    } else {
        seq![(h[0].0, JsonV::Str(h[0].1))] + headers_members(h.drop_first())
    }
}

proof fn lemma_headers_members_snoc(h: Seq<(Seq<char>, Seq<char>)>, i: int)
    requires
        0 <= i < h.len(),
    ensures
        headers_members(h.take(i + 1)) == headers_members(h.take(i)).push((h[i].0, JsonV::Str(
            h[i].1,
        ))),
    decreases i,
{
    let a = h.take(i + 1);
    let b = h.take(i);
    if i == 0 {
        assert(a.drop_first() =~= Seq::<(Seq<char>, Seq<char>)>::empty());
        assert(headers_members(a.drop_first()) =~= Seq::<(Seq<char>, JsonV)>::empty());
        assert(a[0] == h[0]);
        assert(headers_members(a) =~= headers_members(b).push((h[0].0, JsonV::Str(h[0].1))));
    } else {
        lemma_headers_members_snoc(h.drop_first(), i - 1);
        assert(a.drop_first() =~= h.drop_first().take(i));
        assert(b.drop_first() =~= h.drop_first().take(i - 1));
        assert(a[0] == h[0] && b[0] == h[0]);
        assert(h.drop_first()[i - 1] == h[i]);
        assert(headers_members(a) == seq![(h[0].0, JsonV::Str(h[0].1))] + headers_members(
            h.drop_first().take(i - 1),
        ).push((h[i].0, JsonV::Str(h[i].1))));
        assert(headers_members(b).push((h[i].0, JsonV::Str(h[i].1))) =~= seq![
            (h[0].0, JsonV::Str(h[0].1)),
        ] + headers_members(h.drop_first().take(i - 1)).push((h[i].0, JsonV::Str(h[i].1))));
    }
}

/// Reads a header map back: every member value must be a string; order is
/// kept.
pub open spec fn decode_headers(ms: Seq<(Seq<char>, JsonV)>) -> Option<Seq<(Seq<char>, Seq<char>)>>
    decreases ms.len(),
{
    if ms.len() == 0 {
        Some(Seq::empty())
    } else {
        match ms[0].1 {
            JsonV::Str(v) => match decode_headers(ms.drop_first()) {
                Some(rest) => Some(seq![(ms[0].0, v)] + rest),
                None => None,
            },
            _ => None,
        }
    }
}

/// A header map decodes back from its own members unchanged.
pub proof fn lemma_headers_round_trip(h: Seq<(Seq<char>, Seq<char>)>)
    ensures
        decode_headers(headers_members(h)) == Some(h),
    decreases h.len(),
{
    if h.len() == 0 {
        assert(headers_members(h) =~= Seq::<(Seq<char>, JsonV)>::empty());
        assert(decode_headers(headers_members(h)) == Some(Seq::<(Seq<char>, Seq<char>)>::empty()));
        assert(h =~= Seq::<(Seq<char>, Seq<char>)>::empty());
    } else {
        lemma_headers_round_trip(h.drop_first());
        let ms = headers_members(h);
        assert(ms == seq![(h[0].0, JsonV::Str(h[0].1))] + headers_members(h.drop_first()));
        assert(ms[0] == (h[0].0, JsonV::Str(h[0].1)));
        assert(ms.drop_first() =~= headers_members(h.drop_first()));
        assert(seq![(h[0].0, h[0].1)] + h.drop_first() =~= h);
    }
}

/// Prefixes decoded headers of a partial read.
pub open spec fn with_headers(
    p: Seq<(Seq<char>, Seq<char>)>,
    o: Option<Seq<(Seq<char>, Seq<char>)>>,
) -> Option<Seq<(Seq<char>, Seq<char>)>> {
    match o {
        Some(r) => Some(p + r),
        None => None,
    }
}

/// Reads a header map back from a JSON object's members.
pub fn headers_from_members(ms: &Vec<(String, Json)>) -> (r: Option<Vec<(String, String)>>)
    ensures
        match r {
            Some(h) => decode_headers(jview_obj(ms@, 0)) == Some(headers_view(h@, 0)),
            None => decode_headers(jview_obj(ms@, 0)) == None::<Seq<(Seq<char>, Seq<char>)>>,
        },
{
    let ghost vms = jview_obj(ms@, 0);
    proof {
        crate::json::lemma_jview_obj(ms@, 0);
    }
    let mut acc: Vec<(String, String)> = Vec::new();
    let mut i: usize = 0;
    proof {
        assert(vms.skip(0) =~= vms);
        assert(headers_view(acc@, 0) + Seq::<(Seq<char>, Seq<char>)>::empty() =~= headers_view(
            acc@,
            0,
        ));
    }
    loop
        invariant
            0 <= i <= ms.len(),
            vms == jview_obj(ms@, 0),
            vms.len() == ms@.len(),
            forall|j: int|
                0 <= j < ms@.len() ==> vms[j] == (#[trigger] ms@[j].0@, jview(ms@[j].1)),
            decode_headers(vms) == with_headers(
                headers_view(acc@, 0),
                decode_headers(vms.skip(i as int)),
            ),
        decreases ms.len() - i,
    {
        if i >= ms.len() {
            assert(vms.skip(i as int) =~= Seq::<(Seq<char>, JsonV)>::empty());
            assert(headers_view(acc@, 0) + Seq::<(Seq<char>, Seq<char>)>::empty() =~= headers_view(
                acc@,
                0,
            ));
            return Some(acc);
        }
        assert(vms.skip(i as int)[0] == vms[i as int]);
        assert(vms.skip(i as int).drop_first() =~= vms.skip(i + 1));
        match &ms[i].1 {
            Json::Str(v) => {
                let pair = (ms[i].0.clone(), v.clone());
                let ghost old_acc = acc@;
                proof {
                    lemma_headers_view_push(acc@, pair, 0);
                }
                acc.push(pair);
                proof {
                    let tail = decode_headers(vms.skip(i + 1));
                    match tail {
                        Some(rest) => {
                            assert(headers_view(old_acc, 0) + (seq![(vms[i as int].0, v@)] + rest)
                                =~= headers_view(acc@, 0) + rest);
                        },
                        None => {},
                    }
                }
                i += 1;
            },
            _ => {
                proof {
                    assert(vms[i as int] == (ms@[i as int].0@, jview(ms@[i as int].1)));
                    let x = ms@[i as int].1;
                    match x {
                        Json::Null => {},
                        Json::Bool(_) => {},
                        Json::Num(_) => {},
                        Json::Str(_) => {},
                        Json::Arr(_) => {},
                        Json::Obj(_) => {},
                    }
                    assert(!(jview(x) is Str));
                }
                return None;
            },
        }
    }
}

// ------------------------------------------------------------------
// The webhook itself
// ------------------------------------------------------------------
/// One user-registered HTTP callback.
#[derive(Debug, Clone, PartialEq)]
pub struct Webhook {
    pub name: String,
    pub address: String,
    pub method: WebhookRequestMethod,
    pub headers: Vec<(String, String)>,
    pub stats_type: WebhookStatsType,
}

/// Mathematical view of [`Webhook`].
#[verifier::ext_equal]
pub struct WebhookV {
    pub name: Seq<char>,
    pub address: Seq<char>,
    pub method: WebhookRequestMethod,
    pub headers: Seq<(Seq<char>, Seq<char>)>,
    pub stats_type: WebhookStatsType,
}

impl View for Webhook {
    type V = WebhookV;

    open spec fn view(&self) -> WebhookV {
        WebhookV {
            name: self.name@,
            address: self.address@,
            method: self.method,
            headers: headers_view(self.headers@, 0),
            stats_type: self.stats_type,
        }
    }
}

/// Field list of a webhook's JSON object; the header map is skipped when
/// empty.
pub open spec fn webhook_fields(w: WebhookV) -> Seq<(Seq<char>, Option<JsonV>)> {
    seq![
        ("name"@, Some(JsonV::Str(w.name))),
        ("address"@, Some(JsonV::Str(w.address))),
        ("method"@, Some(JsonV::Str(method_name(w.method)))),
        (
            "headers"@,
            if w.headers.len() == 0 {
                None
            } else {
                Some(JsonV::Obj(headers_members(w.headers)))
            },
        ),
        ("type"@, Some(JsonV::Str(stats_type_name(w.stats_type)))),
    ]
}

/// JSON form of a webhook.
pub open spec fn encode_webhook(w: WebhookV) -> JsonV {
    JsonV::Obj(opt_members(webhook_fields(w)))
}

/// Decodes a webhook: name and address are required, the rest take defaults
/// (method POST, headers empty, type both).
pub open spec fn decode_webhook(j: JsonV) -> Option<WebhookV> {
    match j {
        JsonV::Obj(ms) => {
            let name = req_str_field(ms, "name"@);
            let address = req_str_field(ms, "address"@);
            let method = match obj_lookup(ms, "method"@) {
                None => Some(WebhookRequestMethod::Post),
                Some(JsonV::Str(k)) => method_of_name(k),
                Some(_) => None,
            };
            let headers = match obj_lookup(ms, "headers"@) {
                None => Some(Seq::<(Seq<char>, Seq<char>)>::empty()),
                Some(JsonV::Obj(hs)) => decode_headers(hs),
                Some(_) => None,
            };
            let stats_type = match obj_lookup(ms, "type"@) {
                None => Some(WebhookStatsType::Both),
                Some(JsonV::Str(k)) => stats_type_of_name(k),
                Some(_) => None,
            };
            if name is Some && address is Some && method is Some && headers is Some && stats_type
                is Some {
                Some(
                    WebhookV {
                        name: name.unwrap(),
                        address: address.unwrap(),
                        method: method.unwrap(),
                        headers: headers.unwrap(),
                        stats_type: stats_type.unwrap(),
                    },
                )
            } else {
                None
            }
        },
        _ => None,
    }
}

impl Webhook {
    /// JSON form of this webhook.
    #[verifier::rlimit(100)]
    #[verifier::spinoff_prover]
    pub fn to_json(&self) -> (r: Json)
        ensures
            r@ == encode_webhook(self@),
    {
        let ghost fs = webhook_fields(self@);
        let mut ms: Vec<(String, Json)> = Vec::new();
        proof {
            assert(jview_obj(ms@, 0) =~= opt_members(fs.take(0)));
        }
        crate::json::push_opt_member(&mut ms, "name", Some(Json::Str(self.name.clone())));
        proof {
            crate::json::lemma_opt_members_snoc(fs, 0);
            assert(jview_obj(ms@, 0) == opt_members(fs.take(1)));
        }
        crate::json::push_opt_member(&mut ms, "address", Some(Json::Str(self.address.clone())));
        proof {
            crate::json::lemma_opt_members_snoc(fs, 1);
            assert(jview_obj(ms@, 0) == opt_members(fs.take(2)));
        }
        crate::json::push_opt_member(
            &mut ms,
            "method",
            Some(Json::Str(method_to_str(&self.method).to_owned())),
        );
        proof {
            crate::json::lemma_opt_members_snoc(fs, 2);
            assert(jview_obj(ms@, 0) == opt_members(fs.take(3)));
        }
        let headers_v: Option<Json> = if self.headers.len() == 0 {
            None
        } else {
            Some(Json::Obj(self.headers_to_members()))
        };
        crate::json::push_opt_member(&mut ms, "headers", headers_v);
        proof {
            crate::json::lemma_opt_members_snoc(fs, 3);
            assert(jview_obj(ms@, 0) == opt_members(fs.take(4)));
        }
        crate::json::push_opt_member(
            &mut ms,
            "type",
            Some(Json::Str(stats_type_to_str(&self.stats_type).to_owned())),
        );
        proof {
            crate::json::lemma_opt_members_snoc(fs, 4);
            assert(jview_obj(ms@, 0) == opt_members(fs.take(5)));
            assert(fs.take(5) =~= fs);
        }
        Json::Obj(ms)
    }

    /// The JSON members of this webhook's header map.
    fn headers_to_members(&self) -> (r: Vec<(String, Json)>)
        ensures
            jview_obj(r@, 0) == headers_members(headers_view(self.headers@, 0)),
    {
        let ghost hv = headers_view(self.headers@, 0);
        proof {
            lemma_headers_view(self.headers@, 0);
        }
        let mut ms: Vec<(String, Json)> = Vec::new();
        let mut i: usize = 0;
        proof {
            assert(hv.take(0) =~= Seq::<(Seq<char>, Seq<char>)>::empty());
            assert(jview_obj(ms@, 0) =~= headers_members(hv.take(0)));
        }
        while i < self.headers.len()
            invariant
                0 <= i <= self.headers.len(),
                hv == headers_view(self.headers@, 0),
                hv.len() == self.headers@.len(),
                forall|j: int|
                    0 <= j < self.headers@.len() ==> hv[j] == ((#[trigger] self.headers@[j]).0@, self.headers@[j].1@),
                jview_obj(ms@, 0) == headers_members(hv.take(i as int)),
            decreases self.headers.len() - i,
        {
            let v = Json::Str(self.headers[i].1.clone());
            crate::json::push_member(&mut ms, self.headers[i].0.as_str(), v);
            proof {
                lemma_headers_members_snoc(hv, i as int);
                assert(jview_obj(ms@, 0) == headers_members(hv.take(i + 1)));
            }
            i += 1;
        }
        proof {
            assert(hv.take(hv.len() as int) =~= hv);
        }
        ms
    }

    /// Reads a webhook back from JSON.
    pub fn from_json(v: &Json) -> (r: Option<Webhook>)
        ensures
            match r {
                Some(w) => decode_webhook(v@) == Some(w@),
                None => decode_webhook(v@) == None::<WebhookV>,
            },
    {
        match v {
            Json::Obj(ms) => {
                let name = match crate::json::x_req_str(ms, "name") {
                    Some(s) => s,
                    None => {
                        return None;
                    },
                };
                let address = match crate::json::x_req_str(ms, "address") {
                    Some(s) => s,
                    None => {
                        return None;
                    },
                };
                let method = match crate::json::obj_get(ms, "method") {
                    None => WebhookRequestMethod::Post,
                    Some(mv) => match mv {
                        Json::Str(k) => match method_from_str(k.as_str()) {
                            Some(x) => x,
                            None => {
                                return None;
                            },
                        },
                        _ => {
                            return None;
                        },
                    },
                };
                let headers: Vec<(String, String)> = match crate::json::obj_get(ms, "headers") {
                    None => {
                        let empty: Vec<(String, String)> = Vec::new();
                        proof {
                            assert(headers_view(empty@, 0) =~= Seq::<
                                (Seq<char>, Seq<char>),
                            >::empty());
                        }
                        empty
                    },
                    Some(hv) => match hv {
                        Json::Obj(hs) => match headers_from_members(hs) {
                            Some(h) => h,
                            None => {
                                return None;
                            },
                        },
                        _ => {
                            return None;
                        },
                    },
                };
                let stats_type = match crate::json::obj_get(ms, "type") {
                    None => WebhookStatsType::Both,
                    Some(tv) => match tv {
                        Json::Str(k) => match stats_type_from_str(k.as_str()) {
                            Some(x) => x,
                            None => {
                                return None;
                            },
                        },
                        _ => {
                            return None;
                        },
                    },
                };
                Some(Webhook { name, address, method, headers, stats_type })
            },
            _ => None,
        }
    }

    /// Parses a webhook from JSON text.
    pub fn from_json_text(s: &str) -> (r: Option<Webhook>)
        ensures
            match r {
                Some(w) => spec_webhook_of_text(s@) == Some(w@),
                None => spec_webhook_of_text(s@) == None::<WebhookV>,
            },
    {
        match crate::json::parse_json(s) {
            Some(v) => Webhook::from_json(&v),
            None => None,
        }
    }
}

/// The webhook denoted by a JSON text, if any.
pub open spec fn spec_webhook_of_text(s: Seq<char>) -> Option<WebhookV> {
    match crate::json::spec_parse_json(s) {
        Some(j) => decode_webhook(j),
        None => None,
    }
}

/// A webhook decodes back from its own JSON form unchanged.
#[verifier::rlimit(100)]
#[verifier::spinoff_prover]
pub proof fn lemma_webhook_round_trip(w: WebhookV)
    ensures
        decode_webhook(encode_webhook(w)) == Some(w),
{
    let fs = webhook_fields(w);
    assert(distinct_keys(fs)) by {
        reveal_strlit("name");
        reveal_strlit("address");
        reveal_strlit("method");
        reveal_strlit("headers");
        reveal_strlit("type");
        assert(("name"@).len() == 4);
        assert(("address"@).len() == 7);
        assert(("method"@).len() == 6);
        assert(("headers"@).len() == 7);
        assert(("type"@).len() == 4);
        assert(("name"@)[0] != ("type"@)[0]);
        assert(("address"@)[0] != ("headers"@)[0]);
    }
    lemma_opt_members_lookup(fs, 0);
    lemma_opt_members_lookup(fs, 1);
    lemma_opt_members_lookup(fs, 2);
    lemma_opt_members_lookup(fs, 3);
    lemma_opt_members_lookup(fs, 4);
    lemma_method_name_round_trip(w.method);
    lemma_stats_type_name_round_trip(w.stats_type);
    if w.headers.len() == 0 {
        assert(w.headers =~= Seq::<(Seq<char>, Seq<char>)>::empty());
    } else {
        lemma_headers_round_trip(w.headers);
    }
    assert(decode_webhook(encode_webhook(w)) == Some(w));
}

/// One row of the webhook listing.
#[derive(Debug, Clone, PartialEq)]
pub struct WebhookItem {
    pub id: i32,
    pub name: String,
}

/// Mathematical view of [`WebhookItem`].
#[verifier::ext_equal]
pub struct WebhookItemV {
    pub id: i32,
    pub name: Seq<char>,
}

impl View for WebhookItem {
    type V = WebhookItemV;

    open spec fn view(&self) -> WebhookItemV {
        WebhookItemV { id: self.id, name: self.name@ }
    }
}

/// Field list of a listing row's JSON object.
pub open spec fn webhook_item_fields(it: WebhookItemV) -> Seq<(Seq<char>, Option<JsonV>)> {
    seq![("id"@, Some(encode_int(it.id as int))), ("name"@, Some(JsonV::Str(it.name)))]
}

/// JSON form of a listing row.
pub open spec fn encode_webhook_item(it: WebhookItemV) -> JsonV {
    JsonV::Obj(opt_members(webhook_item_fields(it)))
}

/// Decodes a listing row: both fields are required.
pub open spec fn decode_webhook_item(j: JsonV) -> Option<WebhookItemV> {
    match j {
        JsonV::Obj(ms) => {
            let id = req_int_field(ms, "id"@, i32::MIN as int, i32::MAX as int);
            let name = req_str_field(ms, "name"@);
            if id is Some && name is Some {
                Some(WebhookItemV { id: id.unwrap() as i32, name: name.unwrap() })
            } else {
                None
            }
        },
        _ => None,
    }
}

impl WebhookItem {
    /// JSON form of this row.
    pub fn to_json(&self) -> (r: Json)
        ensures
            r@ == encode_webhook_item(self@),
    {
        let ghost fs = webhook_item_fields(self@);
        let mut ms: Vec<(String, Json)> = Vec::new();
        proof {
            assert(jview_obj(ms@, 0) =~= opt_members(fs.take(0)));
        }
        crate::json::push_opt_member(&mut ms, "id", Some(crate::json::x_encode_int(self.id as i64)));
        proof {
            crate::json::lemma_opt_members_snoc(fs, 0);
            assert(jview_obj(ms@, 0) == opt_members(fs.take(1)));
        }
        crate::json::push_opt_member(&mut ms, "name", Some(Json::Str(self.name.clone())));
        proof {
            crate::json::lemma_opt_members_snoc(fs, 1);
            assert(jview_obj(ms@, 0) == opt_members(fs.take(2)));
            assert(fs.take(2) =~= fs);
        }
        Json::Obj(ms)
    }

    /// Reads a row back from JSON.
    pub fn from_json(v: &Json) -> (r: Option<WebhookItem>)
        ensures
            match r {
                Some(it) => decode_webhook_item(v@) == Some(it@),
                None => decode_webhook_item(v@) == None::<WebhookItemV>,
            },
    {
        match v {
            Json::Obj(ms) => {
                let id = match crate::json::x_req_int(ms, "id", i32::MIN as i64, i32::MAX as i64) {
                    Some(n) => n as i32,
                    None => {
                        return None;
                    },
                };
                let name = match crate::json::x_req_str(ms, "name") {
                    Some(s) => s,
                    None => {
                        return None;
                    },
                };
                Some(WebhookItem { id, name })
            },
            _ => None,
        }
    }
}

/// A listing row decodes back from its own JSON form unchanged.
pub proof fn lemma_webhook_item_round_trip(it: WebhookItemV)
    ensures
        decode_webhook_item(encode_webhook_item(it)) == Some(it),
{
    let fs = webhook_item_fields(it);
    assert(distinct_keys(fs)) by {
        reveal_strlit("id");
        reveal_strlit("name");
        assert(("id"@).len() == 2);
        assert(("name"@).len() == 4);
    }
    lemma_opt_members_lookup(fs, 0);
    lemma_opt_members_lookup(fs, 1);
    crate::chars::lemma_dec_int_round_trip(it.id as int);
}

// ------------------------------------------------------------------
// The dispatch plan
// ------------------------------------------------------------------
/// Whether a webhook's filter selects a message: `both` always, `alarms` and
/// `data` by the message's kind.
pub open spec fn should_send(t: WebhookStatsType, m: MessageV) -> bool {
    match t {
        WebhookStatsType::Both => true,
        WebhookStatsType::Alarms => m is Alarm,
        WebhookStatsType::Data => m is Data,
    }
}

/// One planned HTTP send.
#[derive(Debug, Clone, PartialEq)]
pub struct SendPlan {
    pub id: i32,
    pub method: WebhookRequestMethod,
    pub address: String,
    pub headers: Vec<(String, String)>,
    pub body: String,
}

/// Mathematical view of [`SendPlan`].
#[verifier::ext_equal]
pub struct SendPlanV {
    pub id: i32,
    pub method: WebhookRequestMethod,
    pub address: Seq<char>,
    pub headers: Seq<(Seq<char>, Seq<char>)>,
    pub body: Seq<char>,
}

impl View for SendPlan {
    type V = SendPlanV;

    open spec fn view(&self) -> SendPlanV {
        SendPlanV {
            id: self.id,
            method: self.method,
            address: self.address@,
            headers: headers_view(self.headers@, 0),
            body: self.body@,
        }
    }
}

/// The send one webhook receives: its method and address, the content-type
/// header ahead of its own headers, and the shared message body.
pub open spec fn plan_of(id: i32, w: WebhookV, body: Seq<char>) -> SendPlanV {
    SendPlanV {
        id: id,
        method: w.method,
        address: w.address,
        headers: seq![("Content-Type"@, "application/json"@)] + w.headers,
        body: body,
    }
}

/// View of a webhook snapshot.
pub open spec fn hooks_view(hooks: Seq<(i32, Webhook)>, i: int) -> Seq<(i32, WebhookV)>
    decreases hooks.len() - i,
{
    if i < 0 || i >= hooks.len() {
        Seq::empty()
    } else {
        seq![(hooks[i].0, hooks[i].1@)] + hooks_view(hooks, i + 1)
    }
}

pub proof fn lemma_hooks_view(hooks: Seq<(i32, Webhook)>, i: int)
    requires
        0 <= i <= hooks.len(),
    ensures
        hooks_view(hooks, i).len() == hooks.len() - i,
        forall|j: int|
            i <= j < hooks.len() ==> hooks_view(hooks, i)[j - i] == ((#[trigger] hooks[j]).0, hooks[j].1@),
    decreases hooks.len() - i,
{
    if i < hooks.len() {
        lemma_hooks_view(hooks, i + 1);
    }
}

/// View of a plan list.
pub open spec fn plans_view(plans: Seq<SendPlan>, i: int) -> Seq<SendPlanV>
    decreases plans.len() - i,
{
    if i < 0 || i >= plans.len() {
        Seq::empty()
    } else {
        seq![plans[i]@] + plans_view(plans, i + 1)
    }
}

pub proof fn lemma_plans_view_push(plans: Seq<SendPlan>, x: SendPlan, i: int)
    requires
        0 <= i <= plans.len(),
    ensures
        plans_view(plans.push(x), i) == plans_view(plans, i).push(x@),
    decreases plans.len() - i,
{
    let a = plans.push(x);
    if i < plans.len() {
        lemma_plans_view_push(plans, x, i + 1);
        assert(a[i] == plans[i]);
        assert(plans_view(a, i) =~= plans_view(plans, i).push(x@));
    } else {
        assert(a[i] == x);
        assert(plans_view(a, i + 1) =~= Seq::<SendPlanV>::empty());
        assert(plans_view(a, i) =~= plans_view(plans, i).push(x@));
    }
}

/// The sends a message triggers, from entry `i` of the snapshot on: exactly
/// one per selected webhook, in snapshot order.
pub open spec fn plan_from(hooks: Seq<(i32, WebhookV)>, m: MessageV, body: Seq<char>, i: int)
    -> Seq<SendPlanV>
    decreases hooks.len() - i,
{
    if i < 0 || i >= hooks.len() {
        Seq::empty()
    } else {
        (if should_send(hooks[i].1.stats_type, m) {
            seq![plan_of(hooks[i].0, hooks[i].1, body)]
        } else {
            Seq::empty()
        }) + plan_from(hooks, m, body, i + 1)
    }
}

/// The full dispatch plan of a message: its JSON text is printed once and
/// shared by every selected webhook.
pub open spec fn spec_plan_dispatch(hooks: Seq<(i32, WebhookV)>, m: MessageV) -> Seq<SendPlanV> {
    plan_from(hooks, m, print_json(encode_message(m)), 0)
}

/// Builds the headers one send carries: the content type, then the user
/// headers in order.
fn build_plan_headers(user: &Vec<(String, String)>) -> (r: Vec<(String, String)>)
    ensures
        headers_view(r@, 0) == seq![("Content-Type"@, "application/json"@)] + headers_view(
            user@,
            0,
        ),
{
    proof {
        lemma_headers_view(user@, 0);
    }
    let mut out: Vec<(String, String)> = Vec::new();
    let first = ("Content-Type".to_owned(), "application/json".to_owned());
    proof {
        lemma_headers_view_push(out@, first, 0);
    }
    out.push(first);
    let ghost base = headers_view(out@, 0);
    proof {
        assert(base =~= seq![("Content-Type"@, "application/json"@)]);
        assert(headers_view(user@, 0).take(0) =~= Seq::<(Seq<char>, Seq<char>)>::empty());
        assert(headers_view(out@, 0) =~= base + headers_view(user@, 0).take(0));
    }
    let mut i: usize = 0;
    while i < user.len()
        invariant
            0 <= i <= user.len(),
            base == seq![("Content-Type"@, "application/json"@)],
            headers_view(user@, 0).len() == user@.len(),
            forall|j: int|
                0 <= j < user@.len() ==> headers_view(user@, 0)[j] == ((#[trigger] user@[j]).0@, user@[j].1@),
            headers_view(out@, 0) == base + headers_view(user@, 0).take(i as int),
        decreases user.len() - i,
    {
        let pair = (user[i].0.clone(), user[i].1.clone());
        proof {
            lemma_headers_view_push(out@, pair, 0);
        }
        out.push(pair);
        proof {
            assert(headers_view(user@, 0).take(i + 1) =~= headers_view(user@, 0).take(
                i as int,
            ).push(headers_view(user@, 0)[i as int]));
            assert(headers_view(out@, 0) =~= base + headers_view(user@, 0).take(i + 1));
        }
        i += 1;
    }
    proof {
        assert(headers_view(user@, 0).take(user@.len() as int) =~= headers_view(user@, 0));
    }
    out
}

fn plan_items(
    snapshot: &Vec<(i32, Webhook)>,
    i: usize,
    m: &Message,
    body: &String,
    out: &mut Vec<SendPlan>,
)
    requires
        i <= snapshot@.len(),
    ensures
        plans_view(final(out)@, 0) == plans_view(old(out)@, 0) + plan_from(
            hooks_view(snapshot@, 0),
            m@,
            body@,
            i as int,
        ),
    decreases snapshot@.len() - i,
{
    proof {
        lemma_hooks_view(snapshot@, 0);
    }
    let ghost hv = hooks_view(snapshot@, 0);
    if i < snapshot.len() {
        let w = &snapshot[i].1;
        let selected: bool = match (&w.stats_type, m) {
            (WebhookStatsType::Both, _) => true,
            (WebhookStatsType::Alarms, Message::Alarm(_)) => true,
            (WebhookStatsType::Data, Message::Data(_)) => true,
            _ => false,
        };
        if selected {
            let plan = SendPlan {
                id: snapshot[i].0,
                method: w.method,
                address: w.address.clone(),
                headers: build_plan_headers(&w.headers),
                body: body.clone(),
            };
            proof {
                assert(plan@ == plan_of(hv[i as int].0, hv[i as int].1, body@));
                lemma_plans_view_push(out@, plan, 0);
            }
            out.push(plan);
        }
        let ghost mid = plans_view(out@, 0);
        plan_items(snapshot, i + 1, m, body, out);
        proof {
            assert(plans_view(out@, 0) =~= plans_view(old(out)@, 0) + plan_from(
                hv,
                m@,
                body@,
                i as int,
            ));
        }
    } else {
        proof {
            assert(plans_view(out@, 0) =~= plans_view(old(out)@, 0) + plan_from(
                hv,
                m@,
                body@,
                i as int,
            ));
        }
    }
}

/// Plans the sends one published message triggers against a webhook
/// snapshot: exactly one send per selected webhook, in order, each with the
/// webhook's method and address, the content type ahead of its headers, and
/// the message's JSON text printed once as the shared body.
pub fn plan_dispatch(snapshot: &Vec<(i32, Webhook)>, m: &Message) -> (r: Vec<SendPlan>)
    requires
        m@.wf(),
    ensures
        plans_view(r@, 0) == spec_plan_dispatch(hooks_view(snapshot@, 0), m@),
{
    let body = m.to_json();
    let mut out: Vec<SendPlan> = Vec::new();
    proof {
        assert(plans_view(out@, 0) =~= Seq::<SendPlanV>::empty());
    }
    plan_items(snapshot, 0, m, &body, &mut out);
    proof {
        assert(Seq::<SendPlanV>::empty() + plan_from(hooks_view(snapshot@, 0), m@, body@, 0)
            =~= plan_from(hooks_view(snapshot@, 0), m@, body@, 0));
    }
    out
}

/// How many of the snapshot's webhooks, from entry `i` on, select the
/// message.
pub open spec fn selected_count(hooks: Seq<(i32, WebhookV)>, m: MessageV, i: int) -> int
    decreases hooks.len() - i,
{
    if i < 0 || i >= hooks.len() {
        0
    } else {
        (if should_send(hooks[i].1.stats_type, m) {
            1int
        } else {
            0int
        }) + selected_count(hooks, m, i + 1)
    }
}

/// The dispatch plan holds exactly one send per selected webhook: its length
/// is the number of selected webhooks, and each selected webhook's send is in
/// it. A webhook with the `both` filter is selected for every message.
pub proof fn lemma_dispatch_exactly_selected(
    hooks: Seq<(i32, WebhookV)>,
    m: MessageV,
    body: Seq<char>,
    i: int,
)
    requires
        0 <= i <= hooks.len(),
    ensures
        plan_from(hooks, m, body, i).len() == selected_count(hooks, m, i),
        forall|j: int|
            i <= j < hooks.len() && should_send((#[trigger] hooks[j]).1.stats_type, m)
                ==> plan_from(hooks, m, body, i).contains(plan_of(hooks[j].0, hooks[j].1, body)),
    decreases hooks.len() - i,
{
    if i < hooks.len() {
        lemma_dispatch_exactly_selected(hooks, m, body, i + 1);
        let here = plan_from(hooks, m, body, i);
        let rest = plan_from(hooks, m, body, i + 1);
        assert forall|j: int|
            i <= j < hooks.len() && should_send((#[trigger] hooks[j]).1.stats_type, m) implies
            here.contains(plan_of(hooks[j].0, hooks[j].1, body)) by {
            let p = plan_of(hooks[j].0, hooks[j].1, body);
            if j == i {
                assert(here[0] == p);
            } else {
                assert(rest.contains(p));
                let k = choose|k: int| 0 <= k < rest.len() && rest[k] == p;
                if should_send(hooks[i].1.stats_type, m) {
                    assert(here[k + 1] == p);
                } else {
                    assert(here[k] == p);
                }
            }
        }
    }
}

/// Owner of the webhook snapshot the dispatcher reads: a webhook change
/// replaces the snapshot whole, and each published message is planned
/// against the snapshot current at that moment.
pub struct WebhookManager {
    pub webhooks: Vec<(i32, Webhook)>,
}

impl WebhookManager {
    /// A manager over the store's current webhook rows.
    pub fn new(webhooks: Vec<(i32, Webhook)>) -> (r: WebhookManager)
        ensures
            r.webhooks@ == webhooks@,
    {
        WebhookManager { webhooks }
    }

    /// Replaces the snapshot with the store's fresh rows.
    pub fn update(&mut self, webhooks: Vec<(i32, Webhook)>)
        ensures
            final(self).webhooks@ == webhooks@,
    {
        self.webhooks = webhooks;
    }

    /// Plans the sends one message triggers against the current snapshot.
    pub fn dispatch(&self, m: &Message) -> (r: Vec<SendPlan>)
        requires
            m@.wf(),
        ensures
            plans_view(r@, 0) == spec_plan_dispatch(hooks_view(self.webhooks@, 0), m@),
    {
        plan_dispatch(&self.webhooks, m)
    }
}

} // verus!
