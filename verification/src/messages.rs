//! Probe telemetry: alarm and data messages, their JSON codec, and the test
//! alarm synthesis.
//!
//! Numeric observations are held as their JSON number lexeme, so a message
//! survives the store and the webhook path byte for byte.

use crate::json::{
    def_num_field, def_str_field, distinct_keys, encode_int, is_json_number, jview_obj,
    lemma_opt_members_lookup, obj_lookup, opt_members, opt_num_field, req_int_field, req_num_field,
    req_str_field, Json, JsonV,
};
use vstd::prelude::*;

verus! {

/// The two kinds of probe message.
#[derive(Clone, Copy, Debug, PartialEq, Eq, Structural)]
pub enum MessageType {
    Alarm,
    Data,
}

/// The JSON text of a message type.
pub open spec fn message_type_name(t: MessageType) -> Seq<char> {
    match t {
        MessageType::Alarm => "alarm"@,
        MessageType::Data => "data"@,
    }
}

/// Reads a message type back from its JSON text.
pub open spec fn message_type_of_name(k: Seq<char>) -> Option<MessageType> {
    if k == "alarm"@ {
        Some(MessageType::Alarm)
    } else if k == "data"@ {
        Some(MessageType::Data)
    } else {
        None
    }
}

pub fn message_type_to_str(t: &MessageType) -> (r: &'static str)
    ensures
        r@ == message_type_name(*t),
{
    match t {
        MessageType::Alarm => "alarm",
        MessageType::Data => "data",
    }
}

fn message_type_from_str(s: &str) -> (r: Option<MessageType>)
    ensures
        r == message_type_of_name(s@),
{
    if crate::chars::str_eq(s, "alarm") {
        Some(MessageType::Alarm)
    } else if crate::chars::str_eq(s, "data") {
        Some(MessageType::Data)
    } else {
        None
    }
}

/// A message type's two names differ.
pub proof fn lemma_message_type_name_round_trip(t: MessageType)
    ensures
        message_type_of_name(message_type_name(t)) == Some(t),
{
    reveal_strlit("alarm");
    reveal_strlit("data");
    assert(("alarm"@).len() == 5);
    assert(("data"@).len() == 4);
}

/// The computed statistics a probe reports.
#[derive(Clone, Copy, Debug, PartialEq, Eq, Structural)]
pub enum Stat {
    AvgPktSize,
    Perf,
    RAck,
    RArp,
    RDstSrc,
    RDstSrcPort,
    RIcmp,
    RIp,
    RSyn,
    Traffic,
}

/// The JSON text of a statistic identifier.
pub open spec fn stat_name(s: Stat) -> Seq<char> {
    match s {
        Stat::AvgPktSize => "AVG_PKT_SIZE"@,
        Stat::Perf => "PERF"@,
        Stat::RAck => "R_ACK"@,
        Stat::RArp => "R_ARP"@,
        Stat::RDstSrc => "R_DST_SRC"@,
        Stat::RDstSrcPort => "R_DST_SRC_PORT"@,
        Stat::RIcmp => "R_ICMP"@,
        Stat::RIp => "R_IP"@,
        Stat::RSyn => "R_SYN"@,
        Stat::Traffic => "TRAFFIC"@,
    }
}

/// Reads a statistic identifier back from its JSON text.
pub open spec fn stat_of_name(k: Seq<char>) -> Option<Stat> {
    if k == "AVG_PKT_SIZE"@ {
        Some(Stat::AvgPktSize)
    } else if k == "PERF"@ {
        Some(Stat::Perf)
    } else if k == "R_ACK"@ {
        Some(Stat::RAck)
    } else if k == "R_ARP"@ {
        Some(Stat::RArp)
    } else if k == "R_DST_SRC"@ {
        Some(Stat::RDstSrc)
    } else if k == "R_DST_SRC_PORT"@ {
        Some(Stat::RDstSrcPort)
    } else if k == "R_ICMP"@ {
        Some(Stat::RIcmp)
    } else if k == "R_IP"@ {
        Some(Stat::RIp)
    } else if k == "R_SYN"@ {
        Some(Stat::RSyn)
    } else if k == "TRAFFIC"@ {
        Some(Stat::Traffic)
    } else {
        None
    }
}

pub fn stat_to_str(s: &Stat) -> (r: &'static str)
    ensures
        r@ == stat_name(*s),
{
    match s {
        Stat::AvgPktSize => "AVG_PKT_SIZE",
        Stat::Perf => "PERF",
        Stat::RAck => "R_ACK",
        Stat::RArp => "R_ARP",
        Stat::RDstSrc => "R_DST_SRC",
        Stat::RDstSrcPort => "R_DST_SRC_PORT",
        Stat::RIcmp => "R_ICMP",
        Stat::RIp => "R_IP",
        Stat::RSyn => "R_SYN",
        Stat::Traffic => "TRAFFIC",
    }
}

fn stat_from_str(s: &str) -> (r: Option<Stat>)
    ensures
        r == stat_of_name(s@),
{
    if crate::chars::str_eq(s, "AVG_PKT_SIZE") {
        Some(Stat::AvgPktSize)
    } else if crate::chars::str_eq(s, "PERF") {
        Some(Stat::Perf)
    } else if crate::chars::str_eq(s, "R_ACK") {
        Some(Stat::RAck)
    } else if crate::chars::str_eq(s, "R_ARP") {
        Some(Stat::RArp)
    } else if crate::chars::str_eq(s, "R_DST_SRC") {
        Some(Stat::RDstSrc)
    } else if crate::chars::str_eq(s, "R_DST_SRC_PORT") {
        Some(Stat::RDstSrcPort)
    } else if crate::chars::str_eq(s, "R_ICMP") {
        Some(Stat::RIcmp)
    } else if crate::chars::str_eq(s, "R_IP") {
        Some(Stat::RIp)
    } else if crate::chars::str_eq(s, "R_SYN") {
        Some(Stat::RSyn)
    } else if crate::chars::str_eq(s, "TRAFFIC") {
        Some(Stat::Traffic)
    } else {
        None
    }
}

/// A statistic identifier reads back from its own text.
pub proof fn lemma_stat_name_round_trip(s: Stat)
    ensures
        stat_of_name(stat_name(s)) == Some(s),
{
    reveal_strlit("AVG_PKT_SIZE");
    reveal_strlit("PERF");
    reveal_strlit("R_ACK");
    reveal_strlit("R_ARP");
    reveal_strlit("R_DST_SRC");
    reveal_strlit("R_DST_SRC_PORT");
    reveal_strlit("R_ICMP");
    reveal_strlit("R_IP");
    reveal_strlit("R_SYN");
    reveal_strlit("TRAFFIC");
    assert(("AVG_PKT_SIZE"@).len() == 12);
    assert(("PERF"@).len() == 4);
    assert(("R_ACK"@).len() == 5);
    assert(("R_ARP"@).len() == 5);
    assert(("R_DST_SRC"@).len() == 9);
    assert(("R_DST_SRC_PORT"@).len() == 14);
    assert(("R_ICMP"@).len() == 6);
    assert(("R_IP"@).len() == 4);
    assert(("R_SYN"@).len() == 5);
    assert(("TRAFFIC"@).len() == 7);
    assert(("PERF"@)[0] != ("R_IP"@)[0]);
    assert(("R_ACK"@)[2] != ("R_SYN"@)[2]);
    assert(("R_ARP"@)[2] != ("R_SYN"@)[2]);
    assert(("R_ACK"@)[3] != ("R_ARP"@)[3]);
}

/// Alarm direction.
#[derive(Clone, Copy, Debug, PartialEq, Eq, Structural)]
pub enum AlertStatus {
    DownAlert,
    UpAlert,
}

/// The JSON text of an alarm direction.
pub open spec fn alert_status_name(s: AlertStatus) -> Seq<char> {
    match s {
        AlertStatus::DownAlert => "DOWN_ALERT"@,
        AlertStatus::UpAlert => "UP_ALERT"@,
    }
}

/// Reads an alarm direction back from its JSON text.
pub open spec fn alert_status_of_name(k: Seq<char>) -> Option<AlertStatus> {
    if k == "DOWN_ALERT"@ {
        Some(AlertStatus::DownAlert)
    } else if k == "UP_ALERT"@ {
        Some(AlertStatus::UpAlert)
    } else {
        None
    }
}

pub fn alert_status_to_str(s: &AlertStatus) -> (r: &'static str)
    ensures
        r@ == alert_status_name(*s),
{
    match s {
        AlertStatus::DownAlert => "DOWN_ALERT",
        AlertStatus::UpAlert => "UP_ALERT",
    }
}

fn alert_status_from_str(s: &str) -> (r: Option<AlertStatus>)
    ensures
        r == alert_status_of_name(s@),
{
    if crate::chars::str_eq(s, "DOWN_ALERT") {
        Some(AlertStatus::DownAlert)
    } else if crate::chars::str_eq(s, "UP_ALERT") {
        Some(AlertStatus::UpAlert)
    } else {
        None
    }
}

/// An alarm direction reads back from its own text.
pub proof fn lemma_alert_status_name_round_trip(s: AlertStatus)
    ensures
        alert_status_of_name(alert_status_name(s)) == Some(s),
{
    reveal_strlit("DOWN_ALERT");
    reveal_strlit("UP_ALERT");
    assert(("DOWN_ALERT"@).len() == 10);
    assert(("UP_ALERT"@).len() == 8);
}

/// One anomaly alarm from a probe.
#[derive(Debug, Clone, PartialEq)]
pub struct AlarmMessage {
    pub time: i64,
    pub name: String,
    pub series: String,
    pub stat: Stat,
    pub status: AlertStatus,
    /// Observed value, as its decimal lexeme.
    pub value: String,
    /// Estimated exceedance probability, as its decimal lexeme.
    pub probability: String,
    pub code: i32,
    pub msg_type: MessageType,
}

/// Mathematical view of [`AlarmMessage`].
#[verifier::ext_equal]
pub struct AlarmMessageV {
    pub time: i64,
    pub name: Seq<char>,
    pub series: Seq<char>,
    pub stat: Stat,
    pub status: AlertStatus,
    pub value: Seq<char>,
    pub probability: Seq<char>,
    pub code: i32,
    pub msg_type: MessageType,
}

impl View for AlarmMessage {
    type V = AlarmMessageV;

    open spec fn view(&self) -> AlarmMessageV {
        AlarmMessageV {
            time: self.time,
            name: self.name@,
            series: self.series@,
            stat: self.stat,
            status: self.status,
            value: self.value@,
            probability: self.probability@,
            code: self.code,
            msg_type: self.msg_type,
        }
    }
}

impl AlarmMessageV {
    /// The numeric lexemes are well-formed JSON numbers.
    pub open spec fn wf(self) -> bool {
        is_json_number(self.value) && is_json_number(self.probability)
    }
}

/// Field list of an alarm message's JSON object.
pub open spec fn alarm_fields(m: AlarmMessageV) -> Seq<(Seq<char>, Option<JsonV>)> {
    seq![
        ("time"@, Some(encode_int(m.time as int))),
        ("name"@, Some(JsonV::Str(m.name))),
        ("series"@, Some(JsonV::Str(m.series))),
        ("stat"@, Some(JsonV::Str(stat_name(m.stat)))),
        ("status"@, Some(JsonV::Str(alert_status_name(m.status)))),
        ("value"@, Some(JsonV::Num(m.value))),
        ("probability"@, Some(JsonV::Num(m.probability))),
        ("code"@, Some(encode_int(m.code as int))),
        ("type"@, Some(JsonV::Str(message_type_name(m.msg_type)))),
    ]
}

/// JSON form of an alarm message.
pub open spec fn encode_alarm(m: AlarmMessageV) -> JsonV {
    JsonV::Obj(opt_members(alarm_fields(m)))
}

/// Reads one enumerated text member.
pub open spec fn req_enum_field(ms: Seq<(Seq<char>, JsonV)>, key: Seq<char>) -> Option<Seq<char>> {
    req_str_field(ms, key)
}

/// Decodes an alarm message: every field is required.
pub open spec fn decode_alarm(j: JsonV) -> Option<AlarmMessageV> {
    match j {
        JsonV::Obj(ms) => {
            let time = req_int_field(ms, "time"@, i64::MIN as int, i64::MAX as int);
            let name = req_str_field(ms, "name"@);
            let series = req_str_field(ms, "series"@);
            let stat = match req_str_field(ms, "stat"@) {
                Some(k) => stat_of_name(k),
                None => None,
            };
            let status = match req_str_field(ms, "status"@) {
                Some(k) => alert_status_of_name(k),
                None => None,
            };
            let value = req_num_field(ms, "value"@);
            let probability = req_num_field(ms, "probability"@);
            let code = req_int_field(ms, "code"@, i32::MIN as int, i32::MAX as int);
            let msg_type = match req_str_field(ms, "type"@) {
                Some(k) => message_type_of_name(k),
                None => None,
            };
            if time is Some && name is Some && series is Some && stat is Some && status is Some
                && value is Some && probability is Some && code is Some && msg_type is Some {
                Some(
                    AlarmMessageV {
                        time: time.unwrap() as i64,
                        name: name.unwrap(),
                        series: series.unwrap(),
                        stat: stat.unwrap(),
                        status: status.unwrap(),
                        value: value.unwrap(),
                        probability: probability.unwrap(),
                        code: code.unwrap() as i32,
                        msg_type: msg_type.unwrap(),
                    },
                )
            } else {
                None
            }
        },
        _ => None,
    }
}

impl AlarmMessage {
    /// JSON form of this alarm.
    #[verifier::rlimit(100)]
    #[verifier::spinoff_prover]
    pub fn to_json(&self) -> (r: Json)
        requires
            self@.wf(),
        ensures
            r@ == encode_alarm(self@),
    {
        let ghost fs = alarm_fields(self@);
        let mut ms: Vec<(String, Json)> = Vec::new();
        proof {
            assert(jview_obj(ms@, 0) =~= opt_members(fs.take(0)));
        }
        crate::json::push_opt_member(&mut ms, "time", Some(crate::json::x_encode_int(self.time)));
        proof {
            crate::json::lemma_opt_members_snoc(fs, 0);
            assert(jview_obj(ms@, 0) == opt_members(fs.take(1)));
        }
        crate::json::push_opt_member(&mut ms, "name", Some(Json::Str(self.name.clone())));
        proof {
            crate::json::lemma_opt_members_snoc(fs, 1);
            assert(jview_obj(ms@, 0) == opt_members(fs.take(2)));
        }
        crate::json::push_opt_member(&mut ms, "series", Some(Json::Str(self.series.clone())));
        proof {
            crate::json::lemma_opt_members_snoc(fs, 2);
            assert(jview_obj(ms@, 0) == opt_members(fs.take(3)));
        }
        crate::json::push_opt_member(
            &mut ms,
            "stat",
            Some(Json::Str(stat_to_str(&self.stat).to_owned())),
        );
        proof {
            crate::json::lemma_opt_members_snoc(fs, 3);
            assert(jview_obj(ms@, 0) == opt_members(fs.take(4)));
        }
        crate::json::push_opt_member(
            &mut ms,
            "status",
            Some(Json::Str(alert_status_to_str(&self.status).to_owned())),
        );
        proof {
            crate::json::lemma_opt_members_snoc(fs, 4);
            assert(jview_obj(ms@, 0) == opt_members(fs.take(5)));
        }
        crate::json::push_opt_member(&mut ms, "value", Some(Json::Num(self.value.clone())));
        proof {
            crate::json::lemma_opt_members_snoc(fs, 5);
            assert(jview_obj(ms@, 0) == opt_members(fs.take(6)));
        }
        crate::json::push_opt_member(
            &mut ms,
            "probability",
            Some(Json::Num(self.probability.clone())),
        );
        proof {
            crate::json::lemma_opt_members_snoc(fs, 6);
            assert(jview_obj(ms@, 0) == opt_members(fs.take(7)));
        }
        crate::json::push_opt_member(
            &mut ms,
            "code",
            Some(crate::json::x_encode_int(self.code as i64)),
        );
        proof {
            crate::json::lemma_opt_members_snoc(fs, 7);
            assert(jview_obj(ms@, 0) == opt_members(fs.take(8)));
        }
        crate::json::push_opt_member(
            &mut ms,
            "type",
            Some(Json::Str(message_type_to_str(&self.msg_type).to_owned())),
        );
        proof {
            crate::json::lemma_opt_members_snoc(fs, 8);
            assert(jview_obj(ms@, 0) == opt_members(fs.take(9)));
            assert(fs.take(9) =~= fs);
        }
        Json::Obj(ms)
    }

    /// Reads an alarm back from JSON.
    pub fn from_json(v: &Json) -> (r: Option<AlarmMessage>)
        ensures
            match r {
                Some(m) => decode_alarm(v@) == Some(m@) && m@.wf(),
                None => decode_alarm(v@) == None::<AlarmMessageV>,
            },
    {
        match v {
            Json::Obj(ms) => {
                let time = match crate::json::x_req_int(ms, "time", i64::MIN, i64::MAX) {
                    Some(n) => n,
                    None => {
                        return None;
                    },
                };
                let name = match crate::json::x_req_str(ms, "name") {
                    Some(s) => s,
                    None => {
                        return None;
                    },
                };
                let series = match crate::json::x_req_str(ms, "series") {
                    Some(s) => s,
                    None => {
                        return None;
                    },
                };
                let stat = match crate::json::x_req_str(ms, "stat") {
                    Some(s) => match stat_from_str(s.as_str()) {
                        Some(x) => x,
                        None => {
                            return None;
                        },
                    },
                    None => {
                        return None;
                    },
                };
                let status = match crate::json::x_req_str(ms, "status") {
                    Some(s) => match alert_status_from_str(s.as_str()) {
                        Some(x) => x,
                        None => {
                            return None;
                        },
                    },
                    None => {
                        return None;
                    },
                };
                let value = match crate::json::x_req_num(ms, "value") {
                    Some(t) => t,
                    None => {
                        return None;
                    },
                };
                let probability = match crate::json::x_req_num(ms, "probability") {
                    Some(t) => t,
                    None => {
                        return None;
                    },
                };
                let code = match crate::json::x_req_int(ms, "code", i32::MIN as i64, i32::MAX as i64) {
                    Some(n) => n as i32,
                    None => {
                        return None;
                    },
                };
                let msg_type = match crate::json::x_req_str(ms, "type") {
                    Some(s) => match message_type_from_str(s.as_str()) {
                        Some(x) => x,
                        None => {
                            return None;
                        },
                    },
                    None => {
                        return None;
                    },
                };
                Some(
                    AlarmMessage {
                        time,
                        name,
                        series,
                        stat,
                        status,
                        value,
                        probability,
                        code,
                        msg_type,
                    },
                )
            },
            _ => None,
        }
    }

    /// Parses an alarm from JSON text.
    pub fn from_json_text(s: &str) -> (r: Option<AlarmMessage>)
        ensures
            match r {
                Some(m) => spec_alarm_of_text(s@) == Some(m@) && m@.wf(),
                None => spec_alarm_of_text(s@) == None::<AlarmMessageV>,
            },
    {
        match crate::json::parse_json(s) {
            Some(v) => AlarmMessage::from_json(&v),
            None => None,
        }
    }
}

/// The alarm denoted by a JSON text, if any.
pub open spec fn spec_alarm_of_text(s: Seq<char>) -> Option<AlarmMessageV> {
    match crate::json::spec_parse_json(s) {
        Some(j) => decode_alarm(j),
        None => None,
    }
}

/// An alarm decodes back from its own JSON form unchanged.
#[verifier::rlimit(100)]
#[verifier::spinoff_prover]
pub proof fn lemma_alarm_round_trip(m: AlarmMessageV)
    requires
        m.wf(),
    ensures
        decode_alarm(encode_alarm(m)) == Some(m),
{
    let fs = alarm_fields(m);
    assert(distinct_keys(fs)) by {
        reveal_strlit("time");
        reveal_strlit("name");
        reveal_strlit("series");
        reveal_strlit("stat");
        reveal_strlit("status");
        reveal_strlit("value");
        reveal_strlit("probability");
        reveal_strlit("code");
        reveal_strlit("type");
        assert(("time"@).len() == 4);
        assert(("name"@).len() == 4);
        assert(("series"@).len() == 6);
        assert(("stat"@).len() == 4);
        assert(("status"@).len() == 6);
        assert(("value"@).len() == 5);
        assert(("probability"@).len() == 11);
        assert(("code"@).len() == 4);
        assert(("type"@).len() == 4);
        assert(("time"@)[0] != ("name"@)[0]);
        assert(("time"@)[0] != ("stat"@)[0]);
        assert(("time"@)[0] != ("code"@)[0]);
        assert(("time"@)[1] != ("type"@)[1]);
        assert(("name"@)[0] != ("stat"@)[0]);
        assert(("name"@)[0] != ("code"@)[0]);
        assert(("name"@)[0] != ("type"@)[0]);
        assert(("stat"@)[0] != ("code"@)[0]);
        assert(("stat"@)[2] != ("type"@)[2]);
        assert(("code"@)[0] != ("type"@)[0]);
        assert(("series"@)[1] != ("status"@)[1]);
    }
    lemma_opt_members_lookup(fs, 0);
    lemma_opt_members_lookup(fs, 1);
    lemma_opt_members_lookup(fs, 2);
    lemma_opt_members_lookup(fs, 3);
    lemma_opt_members_lookup(fs, 4);
    lemma_opt_members_lookup(fs, 5);
    lemma_opt_members_lookup(fs, 6);
    lemma_opt_members_lookup(fs, 7);
    lemma_opt_members_lookup(fs, 8);
    crate::chars::lemma_dec_int_round_trip(m.time as int);
    crate::chars::lemma_dec_int_round_trip(m.code as int);
    lemma_stat_name_round_trip(m.stat);
    lemma_alert_status_name_round_trip(m.status);
    lemma_message_type_name_round_trip(m.msg_type);
    assert(decode_alarm(encode_alarm(m)) == Some(m));
}

/// One periodic data snapshot from a probe: optional per-statistic triplets.
#[derive(Debug, Clone, PartialEq)]
pub struct DataMessage {
    pub time: i64,
    pub name: String,
    pub series: String,
    pub avg_pkt_size: Option<String>,
    pub avg_pkt_size_down: Option<String>,
    pub avg_pkt_size_up: Option<String>,
    pub perf: Option<String>,
    pub perf_down: Option<String>,
    pub perf_up: Option<String>,
    pub r_ack: Option<String>,
    pub r_ack_down: Option<String>,
    pub r_ack_up: Option<String>,
    pub r_arp: Option<String>,
    pub r_arp_down: Option<String>,
    pub r_arp_up: Option<String>,
    pub r_dst_src: Option<String>,
    pub r_dst_src_down: Option<String>,
    pub r_dst_src_up: Option<String>,
    pub r_dst_src_port: Option<String>,
    pub r_dst_src_port_down: Option<String>,
    pub r_dst_src_port_up: Option<String>,
    pub r_icmp: Option<String>,
    pub r_icmp_down: Option<String>,
    pub r_icmp_up: Option<String>,
    pub r_ip: Option<String>,
    pub r_ip_down: Option<String>,
    pub r_ip_up: Option<String>,
    pub r_syn: Option<String>,
    pub r_syn_down: Option<String>,
    pub r_syn_up: Option<String>,
    pub traffic: Option<String>,
    pub traffic_down: Option<String>,
    pub traffic_up: Option<String>,
    pub msg_type: MessageType,
}

/// Mathematical view of [`DataMessage`].
#[verifier::ext_equal]
pub struct DataMessageV {
    pub time: i64,
    pub name: Seq<char>,
    pub series: Seq<char>,
    pub avg_pkt_size: Option<Seq<char>>,
    pub avg_pkt_size_down: Option<Seq<char>>,
    pub avg_pkt_size_up: Option<Seq<char>>,
    pub perf: Option<Seq<char>>,
    pub perf_down: Option<Seq<char>>,
    pub perf_up: Option<Seq<char>>,
    pub r_ack: Option<Seq<char>>,
    pub r_ack_down: Option<Seq<char>>,
    pub r_ack_up: Option<Seq<char>>,
    pub r_arp: Option<Seq<char>>,
    pub r_arp_down: Option<Seq<char>>,
    pub r_arp_up: Option<Seq<char>>,
    pub r_dst_src: Option<Seq<char>>,
    pub r_dst_src_down: Option<Seq<char>>,
    pub r_dst_src_up: Option<Seq<char>>,
    pub r_dst_src_port: Option<Seq<char>>,
    pub r_dst_src_port_down: Option<Seq<char>>,
    pub r_dst_src_port_up: Option<Seq<char>>,
    pub r_icmp: Option<Seq<char>>,
    pub r_icmp_down: Option<Seq<char>>,
    pub r_icmp_up: Option<Seq<char>>,
    pub r_ip: Option<Seq<char>>,
    pub r_ip_down: Option<Seq<char>>,
    pub r_ip_up: Option<Seq<char>>,
    pub r_syn: Option<Seq<char>>,
    pub r_syn_down: Option<Seq<char>>,
    pub r_syn_up: Option<Seq<char>>,
    pub traffic: Option<Seq<char>>,
    pub traffic_down: Option<Seq<char>>,
    pub traffic_up: Option<Seq<char>>,
    pub msg_type: MessageType,
}

impl View for DataMessage {
    type V = DataMessageV;

    open spec fn view(&self) -> DataMessageV {
        DataMessageV {
            time: self.time,
            name: self.name@,
            series: self.series@,
            avg_pkt_size: match self.avg_pkt_size {
                Some(ref t) => Some(t@),
                None => None,
            },
            avg_pkt_size_down: match self.avg_pkt_size_down {
                Some(ref t) => Some(t@),
                None => None,
            },
            avg_pkt_size_up: match self.avg_pkt_size_up {
                Some(ref t) => Some(t@),
                None => None,
            },
            perf: match self.perf {
                Some(ref t) => Some(t@),
                None => None,
            },
            perf_down: match self.perf_down {
                Some(ref t) => Some(t@),
                None => None,
            },
            perf_up: match self.perf_up {
                Some(ref t) => Some(t@),
                None => None,
            },
            r_ack: match self.r_ack {
                Some(ref t) => Some(t@),
                None => None,
            },
            r_ack_down: match self.r_ack_down {
                Some(ref t) => Some(t@),
                None => None,
            },
            r_ack_up: match self.r_ack_up {
                Some(ref t) => Some(t@),
                None => None,
            },
            r_arp: match self.r_arp {
                Some(ref t) => Some(t@),
                None => None,
            },
            r_arp_down: match self.r_arp_down {
                Some(ref t) => Some(t@),
                None => None,
            },
            r_arp_up: match self.r_arp_up {
                Some(ref t) => Some(t@),
                None => None,
            },
            r_dst_src: match self.r_dst_src {
                Some(ref t) => Some(t@),
                None => None,
            },
            r_dst_src_down: match self.r_dst_src_down {
                Some(ref t) => Some(t@),
                None => None,
            },
            r_dst_src_up: match self.r_dst_src_up {
                Some(ref t) => Some(t@),
                None => None,
            },
            r_dst_src_port: match self.r_dst_src_port {
                Some(ref t) => Some(t@),
                None => None,
            },
            r_dst_src_port_down: match self.r_dst_src_port_down {
                Some(ref t) => Some(t@),
                None => None,
            },
            r_dst_src_port_up: match self.r_dst_src_port_up {
                Some(ref t) => Some(t@),
                None => None,
            },
            r_icmp: match self.r_icmp {
                Some(ref t) => Some(t@),
                None => None,
            },
            r_icmp_down: match self.r_icmp_down {
                Some(ref t) => Some(t@),
                None => None,
            },
            r_icmp_up: match self.r_icmp_up {
                Some(ref t) => Some(t@),
                None => None,
            },
            r_ip: match self.r_ip {
                Some(ref t) => Some(t@),
                None => None,
            },
            r_ip_down: match self.r_ip_down {
                Some(ref t) => Some(t@),
                None => None,
            },
            r_ip_up: match self.r_ip_up {
                Some(ref t) => Some(t@),
                None => None,
            },
            r_syn: match self.r_syn {
                Some(ref t) => Some(t@),
                None => None,
            },
            r_syn_down: match self.r_syn_down {
                Some(ref t) => Some(t@),
                None => None,
            },
            r_syn_up: match self.r_syn_up {
                Some(ref t) => Some(t@),
                None => None,
            },
            traffic: match self.traffic {
                Some(ref t) => Some(t@),
                None => None,
            },
            traffic_down: match self.traffic_down {
                Some(ref t) => Some(t@),
                None => None,
            },
            traffic_up: match self.traffic_up {
                Some(ref t) => Some(t@),
                None => None,
            },
            msg_type: self.msg_type,
        }
    }
}

impl DataMessageV {
    /// Every present observation is a well-formed JSON number lexeme.
    pub open spec fn wf(self) -> bool {
        &&& (self.avg_pkt_size is Some ==> is_json_number(self.avg_pkt_size.unwrap()))
        &&& (self.avg_pkt_size_down is Some ==> is_json_number(self.avg_pkt_size_down.unwrap()))
        &&& (self.avg_pkt_size_up is Some ==> is_json_number(self.avg_pkt_size_up.unwrap()))
        &&& (self.perf is Some ==> is_json_number(self.perf.unwrap()))
        &&& (self.perf_down is Some ==> is_json_number(self.perf_down.unwrap()))
        &&& (self.perf_up is Some ==> is_json_number(self.perf_up.unwrap()))
        &&& (self.r_ack is Some ==> is_json_number(self.r_ack.unwrap()))
        &&& (self.r_ack_down is Some ==> is_json_number(self.r_ack_down.unwrap()))
        &&& (self.r_ack_up is Some ==> is_json_number(self.r_ack_up.unwrap()))
        &&& (self.r_arp is Some ==> is_json_number(self.r_arp.unwrap()))
        &&& (self.r_arp_down is Some ==> is_json_number(self.r_arp_down.unwrap()))
        &&& (self.r_arp_up is Some ==> is_json_number(self.r_arp_up.unwrap()))
        &&& (self.r_dst_src is Some ==> is_json_number(self.r_dst_src.unwrap()))
        &&& (self.r_dst_src_down is Some ==> is_json_number(self.r_dst_src_down.unwrap()))
        &&& (self.r_dst_src_up is Some ==> is_json_number(self.r_dst_src_up.unwrap()))
        &&& (self.r_dst_src_port is Some ==> is_json_number(self.r_dst_src_port.unwrap()))
        &&& (self.r_dst_src_port_down is Some ==> is_json_number(self.r_dst_src_port_down.unwrap()))
        &&& (self.r_dst_src_port_up is Some ==> is_json_number(self.r_dst_src_port_up.unwrap()))
        &&& (self.r_icmp is Some ==> is_json_number(self.r_icmp.unwrap()))
        &&& (self.r_icmp_down is Some ==> is_json_number(self.r_icmp_down.unwrap()))
        &&& (self.r_icmp_up is Some ==> is_json_number(self.r_icmp_up.unwrap()))
        &&& (self.r_ip is Some ==> is_json_number(self.r_ip.unwrap()))
        &&& (self.r_ip_down is Some ==> is_json_number(self.r_ip_down.unwrap()))
        &&& (self.r_ip_up is Some ==> is_json_number(self.r_ip_up.unwrap()))
        &&& (self.r_syn is Some ==> is_json_number(self.r_syn.unwrap()))
        &&& (self.r_syn_down is Some ==> is_json_number(self.r_syn_down.unwrap()))
        &&& (self.r_syn_up is Some ==> is_json_number(self.r_syn_up.unwrap()))
        &&& (self.traffic is Some ==> is_json_number(self.traffic.unwrap()))
        &&& (self.traffic_down is Some ==> is_json_number(self.traffic_down.unwrap()))
        &&& (self.traffic_up is Some ==> is_json_number(self.traffic_up.unwrap()))
    }
}

/// Field list of a data message's JSON object, in the probe's order.
pub open spec fn data_fields(m: DataMessageV) -> Seq<(Seq<char>, Option<JsonV>)> {
    seq![
        ("time"@, Some(encode_int(m.time as int))),
        ("name"@, Some(JsonV::Str(m.name))),
        ("series"@, Some(JsonV::Str(m.series))),
        ("AVG_PKT_SIZE"@, crate::json::jv_opt_num(m.avg_pkt_size)),
        ("AVG_PKT_SIZE_DOWN"@, crate::json::jv_opt_num(m.avg_pkt_size_down)),
        ("AVG_PKT_SIZE_UP"@, crate::json::jv_opt_num(m.avg_pkt_size_up)),
        ("PERF"@, crate::json::jv_opt_num(m.perf)),
        ("PERF_DOWN"@, crate::json::jv_opt_num(m.perf_down)),
        ("PERF_UP"@, crate::json::jv_opt_num(m.perf_up)),
        ("R_ACK"@, crate::json::jv_opt_num(m.r_ack)),
        ("R_ACK_DOWN"@, crate::json::jv_opt_num(m.r_ack_down)),
        ("R_ACK_UP"@, crate::json::jv_opt_num(m.r_ack_up)),
        ("R_ARP"@, crate::json::jv_opt_num(m.r_arp)),
        ("R_ARP_DOWN"@, crate::json::jv_opt_num(m.r_arp_down)),
        ("R_ARP_UP"@, crate::json::jv_opt_num(m.r_arp_up)),
        ("R_DST_SRC"@, crate::json::jv_opt_num(m.r_dst_src)),
        ("R_DST_SRC_DOWN"@, crate::json::jv_opt_num(m.r_dst_src_down)),
        ("R_DST_SRC_UP"@, crate::json::jv_opt_num(m.r_dst_src_up)),
        ("R_DST_SRC_PORT"@, crate::json::jv_opt_num(m.r_dst_src_port)),
        ("R_DST_SRC_PORT_DOWN"@, crate::json::jv_opt_num(m.r_dst_src_port_down)),
        ("R_DST_SRC_PORT_UP"@, crate::json::jv_opt_num(m.r_dst_src_port_up)),
        ("R_ICMP"@, crate::json::jv_opt_num(m.r_icmp)),
        ("R_ICMP_DOWN"@, crate::json::jv_opt_num(m.r_icmp_down)),
        ("R_ICMP_UP"@, crate::json::jv_opt_num(m.r_icmp_up)),
        ("R_IP"@, crate::json::jv_opt_num(m.r_ip)),
        ("R_IP_DOWN"@, crate::json::jv_opt_num(m.r_ip_down)),
        ("R_IP_UP"@, crate::json::jv_opt_num(m.r_ip_up)),
        ("R_SYN"@, crate::json::jv_opt_num(m.r_syn)),
        ("R_SYN_DOWN"@, crate::json::jv_opt_num(m.r_syn_down)),
        ("R_SYN_UP"@, crate::json::jv_opt_num(m.r_syn_up)),
        ("TRAFFIC"@, crate::json::jv_opt_num(m.traffic)),
        ("TRAFFIC_DOWN"@, crate::json::jv_opt_num(m.traffic_down)),
        ("TRAFFIC_UP"@, crate::json::jv_opt_num(m.traffic_up)),
        ("type"@, Some(JsonV::Str(message_type_name(m.msg_type)))),
    ]
}

/// JSON form of a data message.
pub open spec fn encode_data(m: DataMessageV) -> JsonV {
    JsonV::Obj(opt_members(data_fields(m)))
}

/// Decodes a data message: the time, names and type are required, each
/// observation is optional.
pub open spec fn decode_data(j: JsonV) -> Option<DataMessageV> {
    match j {
        JsonV::Obj(ms) => {
            let time = req_int_field(ms, "time"@, i64::MIN as int, i64::MAX as int);
            let name = req_str_field(ms, "name"@);
            let series = req_str_field(ms, "series"@);
            let avg_pkt_size = opt_num_field(ms, "AVG_PKT_SIZE"@);
            let avg_pkt_size_down = opt_num_field(ms, "AVG_PKT_SIZE_DOWN"@);
            let avg_pkt_size_up = opt_num_field(ms, "AVG_PKT_SIZE_UP"@);
            let perf = opt_num_field(ms, "PERF"@);
            let perf_down = opt_num_field(ms, "PERF_DOWN"@);
            let perf_up = opt_num_field(ms, "PERF_UP"@);
            let r_ack = opt_num_field(ms, "R_ACK"@);
            let r_ack_down = opt_num_field(ms, "R_ACK_DOWN"@);
            let r_ack_up = opt_num_field(ms, "R_ACK_UP"@);
            let r_arp = opt_num_field(ms, "R_ARP"@);
            let r_arp_down = opt_num_field(ms, "R_ARP_DOWN"@);
            let r_arp_up = opt_num_field(ms, "R_ARP_UP"@);
            let r_dst_src = opt_num_field(ms, "R_DST_SRC"@);
            let r_dst_src_down = opt_num_field(ms, "R_DST_SRC_DOWN"@);
            let r_dst_src_up = opt_num_field(ms, "R_DST_SRC_UP"@);
            let r_dst_src_port = opt_num_field(ms, "R_DST_SRC_PORT"@);
            let r_dst_src_port_down = opt_num_field(ms, "R_DST_SRC_PORT_DOWN"@);
            let r_dst_src_port_up = opt_num_field(ms, "R_DST_SRC_PORT_UP"@);
            let r_icmp = opt_num_field(ms, "R_ICMP"@);
            let r_icmp_down = opt_num_field(ms, "R_ICMP_DOWN"@);
            let r_icmp_up = opt_num_field(ms, "R_ICMP_UP"@);
            let r_ip = opt_num_field(ms, "R_IP"@);
            let r_ip_down = opt_num_field(ms, "R_IP_DOWN"@);
            let r_ip_up = opt_num_field(ms, "R_IP_UP"@);
            let r_syn = opt_num_field(ms, "R_SYN"@);
            let r_syn_down = opt_num_field(ms, "R_SYN_DOWN"@);
            let r_syn_up = opt_num_field(ms, "R_SYN_UP"@);
            let traffic = opt_num_field(ms, "TRAFFIC"@);
            let traffic_down = opt_num_field(ms, "TRAFFIC_DOWN"@);
            let traffic_up = opt_num_field(ms, "TRAFFIC_UP"@);
            let msg_type = match req_str_field(ms, "type"@) {
                Some(k) => message_type_of_name(k),
                None => None,
            };
            if time is Some && name is Some && series is Some
                && avg_pkt_size is Some
                && avg_pkt_size_down is Some
                && avg_pkt_size_up is Some
                && perf is Some
                && perf_down is Some
                && perf_up is Some
                && r_ack is Some
                && r_ack_down is Some
                && r_ack_up is Some
                && r_arp is Some
                && r_arp_down is Some
                && r_arp_up is Some
                && r_dst_src is Some
                && r_dst_src_down is Some
                && r_dst_src_up is Some
                && r_dst_src_port is Some
                && r_dst_src_port_down is Some
                && r_dst_src_port_up is Some
                && r_icmp is Some
                && r_icmp_down is Some
                && r_icmp_up is Some
                && r_ip is Some
                && r_ip_down is Some
                && r_ip_up is Some
                && r_syn is Some
                && r_syn_down is Some
                && r_syn_up is Some
                && traffic is Some
                && traffic_down is Some
                && traffic_up is Some
                && msg_type is Some {
                Some(
                    DataMessageV {
                        time: time.unwrap() as i64,
                        name: name.unwrap(),
                        series: series.unwrap(),
                        avg_pkt_size: avg_pkt_size.unwrap(),
                        avg_pkt_size_down: avg_pkt_size_down.unwrap(),
                        avg_pkt_size_up: avg_pkt_size_up.unwrap(),
                        perf: perf.unwrap(),
                        perf_down: perf_down.unwrap(),
                        perf_up: perf_up.unwrap(),
                        r_ack: r_ack.unwrap(),
                        r_ack_down: r_ack_down.unwrap(),
                        r_ack_up: r_ack_up.unwrap(),
                        r_arp: r_arp.unwrap(),
                        r_arp_down: r_arp_down.unwrap(),
                        r_arp_up: r_arp_up.unwrap(),
                        r_dst_src: r_dst_src.unwrap(),
                        r_dst_src_down: r_dst_src_down.unwrap(),
                        r_dst_src_up: r_dst_src_up.unwrap(),
                        r_dst_src_port: r_dst_src_port.unwrap(),
                        r_dst_src_port_down: r_dst_src_port_down.unwrap(),
                        r_dst_src_port_up: r_dst_src_port_up.unwrap(),
                        r_icmp: r_icmp.unwrap(),
                        r_icmp_down: r_icmp_down.unwrap(),
                        r_icmp_up: r_icmp_up.unwrap(),
                        r_ip: r_ip.unwrap(),
                        r_ip_down: r_ip_down.unwrap(),
                        r_ip_up: r_ip_up.unwrap(),
                        r_syn: r_syn.unwrap(),
                        r_syn_down: r_syn_down.unwrap(),
                        r_syn_up: r_syn_up.unwrap(),
                        traffic: traffic.unwrap(),
                        traffic_down: traffic_down.unwrap(),
                        traffic_up: traffic_up.unwrap(),
                        msg_type: msg_type.unwrap(),
                    },
                )
            } else {
                None
            }
        },
        _ => None,
    }
}

/// The empty snapshot: zero time, empty names, no observations.
pub open spec fn data_message_default() -> DataMessageV {
    DataMessageV {
        time: 0,
        name: Seq::empty(),
        series: Seq::empty(),
        avg_pkt_size: None,
        avg_pkt_size_down: None,
        avg_pkt_size_up: None,
        perf: None,
        perf_down: None,
        perf_up: None,
        r_ack: None,
        r_ack_down: None,
        r_ack_up: None,
        r_arp: None,
        r_arp_down: None,
        r_arp_up: None,
        r_dst_src: None,
        r_dst_src_down: None,
        r_dst_src_up: None,
        r_dst_src_port: None,
        r_dst_src_port_down: None,
        r_dst_src_port_up: None,
        r_icmp: None,
        r_icmp_down: None,
        r_icmp_up: None,
        r_ip: None,
        r_ip_down: None,
        r_ip_up: None,
        r_syn: None,
        r_syn_down: None,
        r_syn_up: None,
        traffic: None,
        traffic_down: None,
        traffic_up: None,
        msg_type: MessageType::Alarm,
    }
}

impl Default for DataMessage {
    /// An empty snapshot.
    fn default() -> (r: DataMessage)
        ensures
            r@ == data_message_default(),
    {
        DataMessage {
            time: 0,
            name: String::new(),
            series: String::new(),
            avg_pkt_size: None,
            avg_pkt_size_down: None,
            avg_pkt_size_up: None,
            perf: None,
            perf_down: None,
            perf_up: None,
            r_ack: None,
            r_ack_down: None,
            r_ack_up: None,
            r_arp: None,
            r_arp_down: None,
            r_arp_up: None,
            r_dst_src: None,
            r_dst_src_down: None,
            r_dst_src_up: None,
            r_dst_src_port: None,
            r_dst_src_port_down: None,
            r_dst_src_port_up: None,
            r_icmp: None,
            r_icmp_down: None,
            r_icmp_up: None,
            r_ip: None,
            r_ip_down: None,
            r_ip_up: None,
            r_syn: None,
            r_syn_down: None,
            r_syn_up: None,
            traffic: None,
            traffic_down: None,
            traffic_up: None,
            msg_type: MessageType::Alarm,
        }
    }
}

impl DataMessage {
    /// JSON form of this snapshot.
    #[verifier::rlimit(100)]
    #[verifier::spinoff_prover]
    pub fn to_json(&self) -> (r: Json)
        requires
            self@.wf(),
        ensures
            r@ == encode_data(self@),
    {
        let ghost fs = data_fields(self@);
        let mut ms: Vec<(String, Json)> = Vec::new();
        proof {
            assert(jview_obj(ms@, 0) =~= opt_members(fs.take(0)));
        }
        crate::json::push_opt_member(&mut ms, "time", Some(crate::json::x_encode_int(self.time)));
        proof {
            crate::json::lemma_opt_members_snoc(fs, 0);
            assert(jview_obj(ms@, 0) == opt_members(fs.take(1)));
        }
        crate::json::push_opt_member(&mut ms, "name", Some(Json::Str(self.name.clone())));
        proof {
            crate::json::lemma_opt_members_snoc(fs, 1);
            assert(jview_obj(ms@, 0) == opt_members(fs.take(2)));
        }
        crate::json::push_opt_member(&mut ms, "series", Some(Json::Str(self.series.clone())));
        proof {
            crate::json::lemma_opt_members_snoc(fs, 2);
            assert(jview_obj(ms@, 0) == opt_members(fs.take(3)));
        }
        let avg_pkt_size_v: Option<Json> = match &self.avg_pkt_size {
            Some(t) => Some(Json::Num(t.clone())),
            None => None,
        };
        crate::json::push_opt_member(&mut ms, "AVG_PKT_SIZE", avg_pkt_size_v);
        proof {
            crate::json::lemma_opt_members_snoc(fs, 3);
            assert(jview_obj(ms@, 0) == opt_members(fs.take(4)));
        }
        let avg_pkt_size_down_v: Option<Json> = match &self.avg_pkt_size_down {
            Some(t) => Some(Json::Num(t.clone())),
            None => None,
        };
        crate::json::push_opt_member(&mut ms, "AVG_PKT_SIZE_DOWN", avg_pkt_size_down_v);
        proof {
            crate::json::lemma_opt_members_snoc(fs, 4);
            assert(jview_obj(ms@, 0) == opt_members(fs.take(5)));
        }
        let avg_pkt_size_up_v: Option<Json> = match &self.avg_pkt_size_up {
            Some(t) => Some(Json::Num(t.clone())),
            None => None,
        };
        crate::json::push_opt_member(&mut ms, "AVG_PKT_SIZE_UP", avg_pkt_size_up_v);
        proof {
            crate::json::lemma_opt_members_snoc(fs, 5);
            assert(jview_obj(ms@, 0) == opt_members(fs.take(6)));
        }
        let perf_v: Option<Json> = match &self.perf {
            Some(t) => Some(Json::Num(t.clone())),
            None => None,
        };
        crate::json::push_opt_member(&mut ms, "PERF", perf_v);
        proof {
            crate::json::lemma_opt_members_snoc(fs, 6);
            assert(jview_obj(ms@, 0) == opt_members(fs.take(7)));
        }
        let perf_down_v: Option<Json> = match &self.perf_down {
            Some(t) => Some(Json::Num(t.clone())),
            None => None,
        };
        crate::json::push_opt_member(&mut ms, "PERF_DOWN", perf_down_v);
        proof {
            crate::json::lemma_opt_members_snoc(fs, 7);
            assert(jview_obj(ms@, 0) == opt_members(fs.take(8)));
        }
        let perf_up_v: Option<Json> = match &self.perf_up {
            Some(t) => Some(Json::Num(t.clone())),
            None => None,
        };
        crate::json::push_opt_member(&mut ms, "PERF_UP", perf_up_v);
        proof {
            crate::json::lemma_opt_members_snoc(fs, 8);
            assert(jview_obj(ms@, 0) == opt_members(fs.take(9)));
        }
        let r_ack_v: Option<Json> = match &self.r_ack {
            Some(t) => Some(Json::Num(t.clone())),
            None => None,
        };
        crate::json::push_opt_member(&mut ms, "R_ACK", r_ack_v);
        proof {
            crate::json::lemma_opt_members_snoc(fs, 9);
            assert(jview_obj(ms@, 0) == opt_members(fs.take(10)));
        }
        let r_ack_down_v: Option<Json> = match &self.r_ack_down {
            Some(t) => Some(Json::Num(t.clone())),
            None => None,
        };
        crate::json::push_opt_member(&mut ms, "R_ACK_DOWN", r_ack_down_v);
        proof {
            crate::json::lemma_opt_members_snoc(fs, 10);
            assert(jview_obj(ms@, 0) == opt_members(fs.take(11)));
        }
        let r_ack_up_v: Option<Json> = match &self.r_ack_up {
            Some(t) => Some(Json::Num(t.clone())),
            None => None,
        };
        crate::json::push_opt_member(&mut ms, "R_ACK_UP", r_ack_up_v);
        proof {
            crate::json::lemma_opt_members_snoc(fs, 11);
            assert(jview_obj(ms@, 0) == opt_members(fs.take(12)));
        }
        let r_arp_v: Option<Json> = match &self.r_arp {
            Some(t) => Some(Json::Num(t.clone())),
            None => None,
        };
        crate::json::push_opt_member(&mut ms, "R_ARP", r_arp_v);
        proof {
            crate::json::lemma_opt_members_snoc(fs, 12);
            assert(jview_obj(ms@, 0) == opt_members(fs.take(13)));
        }
        let r_arp_down_v: Option<Json> = match &self.r_arp_down {
            Some(t) => Some(Json::Num(t.clone())),
            None => None,
        };
        crate::json::push_opt_member(&mut ms, "R_ARP_DOWN", r_arp_down_v);
        proof {
            crate::json::lemma_opt_members_snoc(fs, 13);
            assert(jview_obj(ms@, 0) == opt_members(fs.take(14)));
        }
        let r_arp_up_v: Option<Json> = match &self.r_arp_up {
            Some(t) => Some(Json::Num(t.clone())),
            None => None,
        };
        crate::json::push_opt_member(&mut ms, "R_ARP_UP", r_arp_up_v);
        proof {
            crate::json::lemma_opt_members_snoc(fs, 14);
            assert(jview_obj(ms@, 0) == opt_members(fs.take(15)));
        }
        let r_dst_src_v: Option<Json> = match &self.r_dst_src {
            Some(t) => Some(Json::Num(t.clone())),
            None => None,
        };
        crate::json::push_opt_member(&mut ms, "R_DST_SRC", r_dst_src_v);
        proof {
            crate::json::lemma_opt_members_snoc(fs, 15);
            assert(jview_obj(ms@, 0) == opt_members(fs.take(16)));
        }
        let r_dst_src_down_v: Option<Json> = match &self.r_dst_src_down {
            Some(t) => Some(Json::Num(t.clone())),
            None => None,
        };
        crate::json::push_opt_member(&mut ms, "R_DST_SRC_DOWN", r_dst_src_down_v);
        proof {
            crate::json::lemma_opt_members_snoc(fs, 16);
            assert(jview_obj(ms@, 0) == opt_members(fs.take(17)));
        }
        let r_dst_src_up_v: Option<Json> = match &self.r_dst_src_up {
            Some(t) => Some(Json::Num(t.clone())),
            None => None,
        };
        crate::json::push_opt_member(&mut ms, "R_DST_SRC_UP", r_dst_src_up_v);
        proof {
            crate::json::lemma_opt_members_snoc(fs, 17);
            assert(jview_obj(ms@, 0) == opt_members(fs.take(18)));
        }
        let r_dst_src_port_v: Option<Json> = match &self.r_dst_src_port {
            Some(t) => Some(Json::Num(t.clone())),
            None => None,
        };
        crate::json::push_opt_member(&mut ms, "R_DST_SRC_PORT", r_dst_src_port_v);
        proof {
            crate::json::lemma_opt_members_snoc(fs, 18);
            assert(jview_obj(ms@, 0) == opt_members(fs.take(19)));
        }
        let r_dst_src_port_down_v: Option<Json> = match &self.r_dst_src_port_down {
            Some(t) => Some(Json::Num(t.clone())),
            None => None,
        };
        crate::json::push_opt_member(&mut ms, "R_DST_SRC_PORT_DOWN", r_dst_src_port_down_v);
        proof {
            crate::json::lemma_opt_members_snoc(fs, 19);
            assert(jview_obj(ms@, 0) == opt_members(fs.take(20)));
        }
        let r_dst_src_port_up_v: Option<Json> = match &self.r_dst_src_port_up {
            Some(t) => Some(Json::Num(t.clone())),
            None => None,
        };
        crate::json::push_opt_member(&mut ms, "R_DST_SRC_PORT_UP", r_dst_src_port_up_v);
        proof {
            crate::json::lemma_opt_members_snoc(fs, 20);
            assert(jview_obj(ms@, 0) == opt_members(fs.take(21)));
        }
        let r_icmp_v: Option<Json> = match &self.r_icmp {
            Some(t) => Some(Json::Num(t.clone())),
            None => None,
        };
        crate::json::push_opt_member(&mut ms, "R_ICMP", r_icmp_v);
        proof {
            crate::json::lemma_opt_members_snoc(fs, 21);
            assert(jview_obj(ms@, 0) == opt_members(fs.take(22)));
        }
        let r_icmp_down_v: Option<Json> = match &self.r_icmp_down {
            Some(t) => Some(Json::Num(t.clone())),
            None => None,
        };
        crate::json::push_opt_member(&mut ms, "R_ICMP_DOWN", r_icmp_down_v);
        proof {
            crate::json::lemma_opt_members_snoc(fs, 22);
            assert(jview_obj(ms@, 0) == opt_members(fs.take(23)));
        }
        let r_icmp_up_v: Option<Json> = match &self.r_icmp_up {
            Some(t) => Some(Json::Num(t.clone())),
            None => None,
        };
        crate::json::push_opt_member(&mut ms, "R_ICMP_UP", r_icmp_up_v);
        proof {
            crate::json::lemma_opt_members_snoc(fs, 23);
            assert(jview_obj(ms@, 0) == opt_members(fs.take(24)));
        }
        let r_ip_v: Option<Json> = match &self.r_ip {
            Some(t) => Some(Json::Num(t.clone())),
            None => None,
        };
        crate::json::push_opt_member(&mut ms, "R_IP", r_ip_v);
        proof {
            crate::json::lemma_opt_members_snoc(fs, 24);
            assert(jview_obj(ms@, 0) == opt_members(fs.take(25)));
        }
        let r_ip_down_v: Option<Json> = match &self.r_ip_down {
            Some(t) => Some(Json::Num(t.clone())),
            None => None,
        };
        crate::json::push_opt_member(&mut ms, "R_IP_DOWN", r_ip_down_v);
        proof {
            crate::json::lemma_opt_members_snoc(fs, 25);
            assert(jview_obj(ms@, 0) == opt_members(fs.take(26)));
        }
        let r_ip_up_v: Option<Json> = match &self.r_ip_up {
            Some(t) => Some(Json::Num(t.clone())),
            None => None,
        };
        crate::json::push_opt_member(&mut ms, "R_IP_UP", r_ip_up_v);
        proof {
            crate::json::lemma_opt_members_snoc(fs, 26);
            assert(jview_obj(ms@, 0) == opt_members(fs.take(27)));
        }
        let r_syn_v: Option<Json> = match &self.r_syn {
            Some(t) => Some(Json::Num(t.clone())),
            None => None,
        };
        crate::json::push_opt_member(&mut ms, "R_SYN", r_syn_v);
        proof {
            crate::json::lemma_opt_members_snoc(fs, 27);
            assert(jview_obj(ms@, 0) == opt_members(fs.take(28)));
        }
        let r_syn_down_v: Option<Json> = match &self.r_syn_down {
            Some(t) => Some(Json::Num(t.clone())),
            None => None,
        };
        crate::json::push_opt_member(&mut ms, "R_SYN_DOWN", r_syn_down_v);
        proof {
            crate::json::lemma_opt_members_snoc(fs, 28);
            assert(jview_obj(ms@, 0) == opt_members(fs.take(29)));
        }
        let r_syn_up_v: Option<Json> = match &self.r_syn_up {
            Some(t) => Some(Json::Num(t.clone())),
            None => None,
        };
        crate::json::push_opt_member(&mut ms, "R_SYN_UP", r_syn_up_v);
        proof {
            crate::json::lemma_opt_members_snoc(fs, 29);
            assert(jview_obj(ms@, 0) == opt_members(fs.take(30)));
        }
        let traffic_v: Option<Json> = match &self.traffic {
            Some(t) => Some(Json::Num(t.clone())),
            None => None,
        };
        crate::json::push_opt_member(&mut ms, "TRAFFIC", traffic_v);
        proof {
            crate::json::lemma_opt_members_snoc(fs, 30);
            assert(jview_obj(ms@, 0) == opt_members(fs.take(31)));
        }
        let traffic_down_v: Option<Json> = match &self.traffic_down {
            Some(t) => Some(Json::Num(t.clone())),
            None => None,
        };
        crate::json::push_opt_member(&mut ms, "TRAFFIC_DOWN", traffic_down_v);
        proof {
            crate::json::lemma_opt_members_snoc(fs, 31);
            assert(jview_obj(ms@, 0) == opt_members(fs.take(32)));
        }
        let traffic_up_v: Option<Json> = match &self.traffic_up {
            Some(t) => Some(Json::Num(t.clone())),
            None => None,
        };
        crate::json::push_opt_member(&mut ms, "TRAFFIC_UP", traffic_up_v);
        proof {
            crate::json::lemma_opt_members_snoc(fs, 32);
            assert(jview_obj(ms@, 0) == opt_members(fs.take(33)));
        }
        crate::json::push_opt_member(
            &mut ms,
            "type",
            Some(Json::Str(message_type_to_str(&self.msg_type).to_owned())),
        );
        proof {
            crate::json::lemma_opt_members_snoc(fs, 33);
            assert(jview_obj(ms@, 0) == opt_members(fs.take(34)));
            assert(fs.take(34) =~= fs);
        }
        Json::Obj(ms)
    }

    /// Reads a run of observation members into `m`.
    #[verifier::rlimit(100)]
    #[verifier::spinoff_prover]
    fn read_observations_low(ms: &Vec<(String, Json)>, m: &mut DataMessage) -> (ok: bool)
        ensures
            final(m)@.time == old(m)@.time,
            final(m)@.name == old(m)@.name,
            final(m)@.series == old(m)@.series,
            final(m)@.msg_type == old(m)@.msg_type,
            ok ==> {
                &&& crate::json::opt_num_field(jview_obj(ms@, 0), "AVG_PKT_SIZE"@) == Some(match final(m)@.avg_pkt_size { Some(t) => Some(t), None => None::<Seq<char>> })
                &&& crate::json::opt_num_field(jview_obj(ms@, 0), "AVG_PKT_SIZE_DOWN"@) == Some(match final(m)@.avg_pkt_size_down { Some(t) => Some(t), None => None::<Seq<char>> })
                &&& crate::json::opt_num_field(jview_obj(ms@, 0), "AVG_PKT_SIZE_UP"@) == Some(match final(m)@.avg_pkt_size_up { Some(t) => Some(t), None => None::<Seq<char>> })
                &&& crate::json::opt_num_field(jview_obj(ms@, 0), "PERF"@) == Some(match final(m)@.perf { Some(t) => Some(t), None => None::<Seq<char>> })
                &&& crate::json::opt_num_field(jview_obj(ms@, 0), "PERF_DOWN"@) == Some(match final(m)@.perf_down { Some(t) => Some(t), None => None::<Seq<char>> })
                &&& crate::json::opt_num_field(jview_obj(ms@, 0), "PERF_UP"@) == Some(match final(m)@.perf_up { Some(t) => Some(t), None => None::<Seq<char>> })
                &&& crate::json::opt_num_field(jview_obj(ms@, 0), "R_ACK"@) == Some(match final(m)@.r_ack { Some(t) => Some(t), None => None::<Seq<char>> })
                &&& crate::json::opt_num_field(jview_obj(ms@, 0), "R_ACK_DOWN"@) == Some(match final(m)@.r_ack_down { Some(t) => Some(t), None => None::<Seq<char>> })
                &&& crate::json::opt_num_field(jview_obj(ms@, 0), "R_ACK_UP"@) == Some(match final(m)@.r_ack_up { Some(t) => Some(t), None => None::<Seq<char>> })
                &&& crate::json::opt_num_field(jview_obj(ms@, 0), "R_ARP"@) == Some(match final(m)@.r_arp { Some(t) => Some(t), None => None::<Seq<char>> })
                &&& crate::json::opt_num_field(jview_obj(ms@, 0), "R_ARP_DOWN"@) == Some(match final(m)@.r_arp_down { Some(t) => Some(t), None => None::<Seq<char>> })
                &&& crate::json::opt_num_field(jview_obj(ms@, 0), "R_ARP_UP"@) == Some(match final(m)@.r_arp_up { Some(t) => Some(t), None => None::<Seq<char>> })
                &&& crate::json::opt_num_field(jview_obj(ms@, 0), "R_DST_SRC"@) == Some(match final(m)@.r_dst_src { Some(t) => Some(t), None => None::<Seq<char>> })
                &&& crate::json::opt_num_field(jview_obj(ms@, 0), "R_DST_SRC_DOWN"@) == Some(match final(m)@.r_dst_src_down { Some(t) => Some(t), None => None::<Seq<char>> })
                &&& crate::json::opt_num_field(jview_obj(ms@, 0), "R_DST_SRC_UP"@) == Some(match final(m)@.r_dst_src_up { Some(t) => Some(t), None => None::<Seq<char>> })
                &&& (final(m)@.avg_pkt_size is Some ==> is_json_number(final(m)@.avg_pkt_size.unwrap()))
                &&& (final(m)@.avg_pkt_size_down is Some ==> is_json_number(final(m)@.avg_pkt_size_down.unwrap()))
                &&& (final(m)@.avg_pkt_size_up is Some ==> is_json_number(final(m)@.avg_pkt_size_up.unwrap()))
                &&& (final(m)@.perf is Some ==> is_json_number(final(m)@.perf.unwrap()))
                &&& (final(m)@.perf_down is Some ==> is_json_number(final(m)@.perf_down.unwrap()))
                &&& (final(m)@.perf_up is Some ==> is_json_number(final(m)@.perf_up.unwrap()))
                &&& (final(m)@.r_ack is Some ==> is_json_number(final(m)@.r_ack.unwrap()))
                &&& (final(m)@.r_ack_down is Some ==> is_json_number(final(m)@.r_ack_down.unwrap()))
                &&& (final(m)@.r_ack_up is Some ==> is_json_number(final(m)@.r_ack_up.unwrap()))
                &&& (final(m)@.r_arp is Some ==> is_json_number(final(m)@.r_arp.unwrap()))
                &&& (final(m)@.r_arp_down is Some ==> is_json_number(final(m)@.r_arp_down.unwrap()))
                &&& (final(m)@.r_arp_up is Some ==> is_json_number(final(m)@.r_arp_up.unwrap()))
                &&& (final(m)@.r_dst_src is Some ==> is_json_number(final(m)@.r_dst_src.unwrap()))
                &&& (final(m)@.r_dst_src_down is Some ==> is_json_number(final(m)@.r_dst_src_down.unwrap()))
                &&& (final(m)@.r_dst_src_up is Some ==> is_json_number(final(m)@.r_dst_src_up.unwrap()))
                &&& final(m)@.r_dst_src_port == old(m)@.r_dst_src_port
                &&& final(m)@.r_dst_src_port_down == old(m)@.r_dst_src_port_down
                &&& final(m)@.r_dst_src_port_up == old(m)@.r_dst_src_port_up
                &&& final(m)@.r_icmp == old(m)@.r_icmp
                &&& final(m)@.r_icmp_down == old(m)@.r_icmp_down
                &&& final(m)@.r_icmp_up == old(m)@.r_icmp_up
                &&& final(m)@.r_ip == old(m)@.r_ip
                &&& final(m)@.r_ip_down == old(m)@.r_ip_down
                &&& final(m)@.r_ip_up == old(m)@.r_ip_up
                &&& final(m)@.r_syn == old(m)@.r_syn
                &&& final(m)@.r_syn_down == old(m)@.r_syn_down
                &&& final(m)@.r_syn_up == old(m)@.r_syn_up
                &&& final(m)@.traffic == old(m)@.traffic
                &&& final(m)@.traffic_down == old(m)@.traffic_down
                &&& final(m)@.traffic_up == old(m)@.traffic_up
            },
            !ok ==> ({
                ||| crate::json::opt_num_field(jview_obj(ms@, 0), "AVG_PKT_SIZE"@) == None::<Option<Seq<char>>>
                ||| crate::json::opt_num_field(jview_obj(ms@, 0), "AVG_PKT_SIZE_DOWN"@) == None::<Option<Seq<char>>>
                ||| crate::json::opt_num_field(jview_obj(ms@, 0), "AVG_PKT_SIZE_UP"@) == None::<Option<Seq<char>>>
                ||| crate::json::opt_num_field(jview_obj(ms@, 0), "PERF"@) == None::<Option<Seq<char>>>
                ||| crate::json::opt_num_field(jview_obj(ms@, 0), "PERF_DOWN"@) == None::<Option<Seq<char>>>
                ||| crate::json::opt_num_field(jview_obj(ms@, 0), "PERF_UP"@) == None::<Option<Seq<char>>>
                ||| crate::json::opt_num_field(jview_obj(ms@, 0), "R_ACK"@) == None::<Option<Seq<char>>>
                ||| crate::json::opt_num_field(jview_obj(ms@, 0), "R_ACK_DOWN"@) == None::<Option<Seq<char>>>
                ||| crate::json::opt_num_field(jview_obj(ms@, 0), "R_ACK_UP"@) == None::<Option<Seq<char>>>
                ||| crate::json::opt_num_field(jview_obj(ms@, 0), "R_ARP"@) == None::<Option<Seq<char>>>
                ||| crate::json::opt_num_field(jview_obj(ms@, 0), "R_ARP_DOWN"@) == None::<Option<Seq<char>>>
                ||| crate::json::opt_num_field(jview_obj(ms@, 0), "R_ARP_UP"@) == None::<Option<Seq<char>>>
                ||| crate::json::opt_num_field(jview_obj(ms@, 0), "R_DST_SRC"@) == None::<Option<Seq<char>>>
                ||| crate::json::opt_num_field(jview_obj(ms@, 0), "R_DST_SRC_DOWN"@) == None::<Option<Seq<char>>>
                ||| crate::json::opt_num_field(jview_obj(ms@, 0), "R_DST_SRC_UP"@) == None::<Option<Seq<char>>>
            }),
    {
        let avg_pkt_size_o = crate::json::x_opt_num(ms, "AVG_PKT_SIZE");
        let avg_pkt_size_down_o = crate::json::x_opt_num(ms, "AVG_PKT_SIZE_DOWN");
        let avg_pkt_size_up_o = crate::json::x_opt_num(ms, "AVG_PKT_SIZE_UP");
        let perf_o = crate::json::x_opt_num(ms, "PERF");
        let perf_down_o = crate::json::x_opt_num(ms, "PERF_DOWN");
        let perf_up_o = crate::json::x_opt_num(ms, "PERF_UP");
        let r_ack_o = crate::json::x_opt_num(ms, "R_ACK");
        let r_ack_down_o = crate::json::x_opt_num(ms, "R_ACK_DOWN");
        let r_ack_up_o = crate::json::x_opt_num(ms, "R_ACK_UP");
        let r_arp_o = crate::json::x_opt_num(ms, "R_ARP");
        let r_arp_down_o = crate::json::x_opt_num(ms, "R_ARP_DOWN");
        let r_arp_up_o = crate::json::x_opt_num(ms, "R_ARP_UP");
        let r_dst_src_o = crate::json::x_opt_num(ms, "R_DST_SRC");
        let r_dst_src_down_o = crate::json::x_opt_num(ms, "R_DST_SRC_DOWN");
        let r_dst_src_up_o = crate::json::x_opt_num(ms, "R_DST_SRC_UP");
        if avg_pkt_size_o.is_some()
            && avg_pkt_size_down_o.is_some()
            && avg_pkt_size_up_o.is_some()
            && perf_o.is_some()
            && perf_down_o.is_some()
            && perf_up_o.is_some()
            && r_ack_o.is_some()
            && r_ack_down_o.is_some()
            && r_ack_up_o.is_some()
            && r_arp_o.is_some()
            && r_arp_down_o.is_some()
            && r_arp_up_o.is_some()
            && r_dst_src_o.is_some()
            && r_dst_src_down_o.is_some()
            && r_dst_src_up_o.is_some() {
        m.avg_pkt_size = avg_pkt_size_o.unwrap();
        m.avg_pkt_size_down = avg_pkt_size_down_o.unwrap();
        m.avg_pkt_size_up = avg_pkt_size_up_o.unwrap();
        m.perf = perf_o.unwrap();
        m.perf_down = perf_down_o.unwrap();
        m.perf_up = perf_up_o.unwrap();
        m.r_ack = r_ack_o.unwrap();
        m.r_ack_down = r_ack_down_o.unwrap();
        m.r_ack_up = r_ack_up_o.unwrap();
        m.r_arp = r_arp_o.unwrap();
        m.r_arp_down = r_arp_down_o.unwrap();
        m.r_arp_up = r_arp_up_o.unwrap();
        m.r_dst_src = r_dst_src_o.unwrap();
        m.r_dst_src_down = r_dst_src_down_o.unwrap();
        m.r_dst_src_up = r_dst_src_up_o.unwrap();
            true
        } else {
            false
        }
    }

    /// Reads a run of observation members into `m`.
    #[verifier::rlimit(100)]
    #[verifier::spinoff_prover]
    fn read_observations_high(ms: &Vec<(String, Json)>, m: &mut DataMessage) -> (ok: bool)
        ensures
            final(m)@.time == old(m)@.time,
            final(m)@.name == old(m)@.name,
            final(m)@.series == old(m)@.series,
            final(m)@.msg_type == old(m)@.msg_type,
            ok ==> {
                &&& crate::json::opt_num_field(jview_obj(ms@, 0), "R_DST_SRC_PORT"@) == Some(match final(m)@.r_dst_src_port { Some(t) => Some(t), None => None::<Seq<char>> })
                &&& crate::json::opt_num_field(jview_obj(ms@, 0), "R_DST_SRC_PORT_DOWN"@) == Some(match final(m)@.r_dst_src_port_down { Some(t) => Some(t), None => None::<Seq<char>> })
                &&& crate::json::opt_num_field(jview_obj(ms@, 0), "R_DST_SRC_PORT_UP"@) == Some(match final(m)@.r_dst_src_port_up { Some(t) => Some(t), None => None::<Seq<char>> })
                &&& crate::json::opt_num_field(jview_obj(ms@, 0), "R_ICMP"@) == Some(match final(m)@.r_icmp { Some(t) => Some(t), None => None::<Seq<char>> })
                &&& crate::json::opt_num_field(jview_obj(ms@, 0), "R_ICMP_DOWN"@) == Some(match final(m)@.r_icmp_down { Some(t) => Some(t), None => None::<Seq<char>> })
                &&& crate::json::opt_num_field(jview_obj(ms@, 0), "R_ICMP_UP"@) == Some(match final(m)@.r_icmp_up { Some(t) => Some(t), None => None::<Seq<char>> })
                &&& crate::json::opt_num_field(jview_obj(ms@, 0), "R_IP"@) == Some(match final(m)@.r_ip { Some(t) => Some(t), None => None::<Seq<char>> })
                &&& crate::json::opt_num_field(jview_obj(ms@, 0), "R_IP_DOWN"@) == Some(match final(m)@.r_ip_down { Some(t) => Some(t), None => None::<Seq<char>> })
                &&& crate::json::opt_num_field(jview_obj(ms@, 0), "R_IP_UP"@) == Some(match final(m)@.r_ip_up { Some(t) => Some(t), None => None::<Seq<char>> })
                &&& crate::json::opt_num_field(jview_obj(ms@, 0), "R_SYN"@) == Some(match final(m)@.r_syn { Some(t) => Some(t), None => None::<Seq<char>> })
                &&& crate::json::opt_num_field(jview_obj(ms@, 0), "R_SYN_DOWN"@) == Some(match final(m)@.r_syn_down { Some(t) => Some(t), None => None::<Seq<char>> })
                &&& crate::json::opt_num_field(jview_obj(ms@, 0), "R_SYN_UP"@) == Some(match final(m)@.r_syn_up { Some(t) => Some(t), None => None::<Seq<char>> })
                &&& crate::json::opt_num_field(jview_obj(ms@, 0), "TRAFFIC"@) == Some(match final(m)@.traffic { Some(t) => Some(t), None => None::<Seq<char>> })
                &&& crate::json::opt_num_field(jview_obj(ms@, 0), "TRAFFIC_DOWN"@) == Some(match final(m)@.traffic_down { Some(t) => Some(t), None => None::<Seq<char>> })
                &&& crate::json::opt_num_field(jview_obj(ms@, 0), "TRAFFIC_UP"@) == Some(match final(m)@.traffic_up { Some(t) => Some(t), None => None::<Seq<char>> })
                &&& (final(m)@.r_dst_src_port is Some ==> is_json_number(final(m)@.r_dst_src_port.unwrap()))
                &&& (final(m)@.r_dst_src_port_down is Some ==> is_json_number(final(m)@.r_dst_src_port_down.unwrap()))
                &&& (final(m)@.r_dst_src_port_up is Some ==> is_json_number(final(m)@.r_dst_src_port_up.unwrap()))
                &&& (final(m)@.r_icmp is Some ==> is_json_number(final(m)@.r_icmp.unwrap()))
                &&& (final(m)@.r_icmp_down is Some ==> is_json_number(final(m)@.r_icmp_down.unwrap()))
                &&& (final(m)@.r_icmp_up is Some ==> is_json_number(final(m)@.r_icmp_up.unwrap()))
                &&& (final(m)@.r_ip is Some ==> is_json_number(final(m)@.r_ip.unwrap()))
                &&& (final(m)@.r_ip_down is Some ==> is_json_number(final(m)@.r_ip_down.unwrap()))
                &&& (final(m)@.r_ip_up is Some ==> is_json_number(final(m)@.r_ip_up.unwrap()))
                &&& (final(m)@.r_syn is Some ==> is_json_number(final(m)@.r_syn.unwrap()))
                &&& (final(m)@.r_syn_down is Some ==> is_json_number(final(m)@.r_syn_down.unwrap()))
                &&& (final(m)@.r_syn_up is Some ==> is_json_number(final(m)@.r_syn_up.unwrap()))
                &&& (final(m)@.traffic is Some ==> is_json_number(final(m)@.traffic.unwrap()))
                &&& (final(m)@.traffic_down is Some ==> is_json_number(final(m)@.traffic_down.unwrap()))
                &&& (final(m)@.traffic_up is Some ==> is_json_number(final(m)@.traffic_up.unwrap()))
                &&& final(m)@.avg_pkt_size == old(m)@.avg_pkt_size
                &&& final(m)@.avg_pkt_size_down == old(m)@.avg_pkt_size_down
                &&& final(m)@.avg_pkt_size_up == old(m)@.avg_pkt_size_up
                &&& final(m)@.perf == old(m)@.perf
                &&& final(m)@.perf_down == old(m)@.perf_down
                &&& final(m)@.perf_up == old(m)@.perf_up
                &&& final(m)@.r_ack == old(m)@.r_ack
                &&& final(m)@.r_ack_down == old(m)@.r_ack_down
                &&& final(m)@.r_ack_up == old(m)@.r_ack_up
                &&& final(m)@.r_arp == old(m)@.r_arp
                &&& final(m)@.r_arp_down == old(m)@.r_arp_down
                &&& final(m)@.r_arp_up == old(m)@.r_arp_up
                &&& final(m)@.r_dst_src == old(m)@.r_dst_src
                &&& final(m)@.r_dst_src_down == old(m)@.r_dst_src_down
                &&& final(m)@.r_dst_src_up == old(m)@.r_dst_src_up
            },
            !ok ==> ({
                ||| crate::json::opt_num_field(jview_obj(ms@, 0), "R_DST_SRC_PORT"@) == None::<Option<Seq<char>>>
                ||| crate::json::opt_num_field(jview_obj(ms@, 0), "R_DST_SRC_PORT_DOWN"@) == None::<Option<Seq<char>>>
                ||| crate::json::opt_num_field(jview_obj(ms@, 0), "R_DST_SRC_PORT_UP"@) == None::<Option<Seq<char>>>
                ||| crate::json::opt_num_field(jview_obj(ms@, 0), "R_ICMP"@) == None::<Option<Seq<char>>>
                ||| crate::json::opt_num_field(jview_obj(ms@, 0), "R_ICMP_DOWN"@) == None::<Option<Seq<char>>>
                ||| crate::json::opt_num_field(jview_obj(ms@, 0), "R_ICMP_UP"@) == None::<Option<Seq<char>>>
                ||| crate::json::opt_num_field(jview_obj(ms@, 0), "R_IP"@) == None::<Option<Seq<char>>>
                ||| crate::json::opt_num_field(jview_obj(ms@, 0), "R_IP_DOWN"@) == None::<Option<Seq<char>>>
                ||| crate::json::opt_num_field(jview_obj(ms@, 0), "R_IP_UP"@) == None::<Option<Seq<char>>>
                ||| crate::json::opt_num_field(jview_obj(ms@, 0), "R_SYN"@) == None::<Option<Seq<char>>>
                ||| crate::json::opt_num_field(jview_obj(ms@, 0), "R_SYN_DOWN"@) == None::<Option<Seq<char>>>
                ||| crate::json::opt_num_field(jview_obj(ms@, 0), "R_SYN_UP"@) == None::<Option<Seq<char>>>
                ||| crate::json::opt_num_field(jview_obj(ms@, 0), "TRAFFIC"@) == None::<Option<Seq<char>>>
                ||| crate::json::opt_num_field(jview_obj(ms@, 0), "TRAFFIC_DOWN"@) == None::<Option<Seq<char>>>
                ||| crate::json::opt_num_field(jview_obj(ms@, 0), "TRAFFIC_UP"@) == None::<Option<Seq<char>>>
            }),
    {
        let r_dst_src_port_o = crate::json::x_opt_num(ms, "R_DST_SRC_PORT");
        let r_dst_src_port_down_o = crate::json::x_opt_num(ms, "R_DST_SRC_PORT_DOWN");
        let r_dst_src_port_up_o = crate::json::x_opt_num(ms, "R_DST_SRC_PORT_UP");
        let r_icmp_o = crate::json::x_opt_num(ms, "R_ICMP");
        let r_icmp_down_o = crate::json::x_opt_num(ms, "R_ICMP_DOWN");
        let r_icmp_up_o = crate::json::x_opt_num(ms, "R_ICMP_UP");
        let r_ip_o = crate::json::x_opt_num(ms, "R_IP");
        let r_ip_down_o = crate::json::x_opt_num(ms, "R_IP_DOWN");
        let r_ip_up_o = crate::json::x_opt_num(ms, "R_IP_UP");
        let r_syn_o = crate::json::x_opt_num(ms, "R_SYN");
        let r_syn_down_o = crate::json::x_opt_num(ms, "R_SYN_DOWN");
        let r_syn_up_o = crate::json::x_opt_num(ms, "R_SYN_UP");
        let traffic_o = crate::json::x_opt_num(ms, "TRAFFIC");
        let traffic_down_o = crate::json::x_opt_num(ms, "TRAFFIC_DOWN");
        let traffic_up_o = crate::json::x_opt_num(ms, "TRAFFIC_UP");
        if r_dst_src_port_o.is_some()
            && r_dst_src_port_down_o.is_some()
            && r_dst_src_port_up_o.is_some()
            && r_icmp_o.is_some()
            && r_icmp_down_o.is_some()
            && r_icmp_up_o.is_some()
            && r_ip_o.is_some()
            && r_ip_down_o.is_some()
            && r_ip_up_o.is_some()
            && r_syn_o.is_some()
            && r_syn_down_o.is_some()
            && r_syn_up_o.is_some()
            && traffic_o.is_some()
            && traffic_down_o.is_some()
            && traffic_up_o.is_some() {
        m.r_dst_src_port = r_dst_src_port_o.unwrap();
        m.r_dst_src_port_down = r_dst_src_port_down_o.unwrap();
        m.r_dst_src_port_up = r_dst_src_port_up_o.unwrap();
        m.r_icmp = r_icmp_o.unwrap();
        m.r_icmp_down = r_icmp_down_o.unwrap();
        m.r_icmp_up = r_icmp_up_o.unwrap();
        m.r_ip = r_ip_o.unwrap();
        m.r_ip_down = r_ip_down_o.unwrap();
        m.r_ip_up = r_ip_up_o.unwrap();
        m.r_syn = r_syn_o.unwrap();
        m.r_syn_down = r_syn_down_o.unwrap();
        m.r_syn_up = r_syn_up_o.unwrap();
        m.traffic = traffic_o.unwrap();
        m.traffic_down = traffic_down_o.unwrap();
        m.traffic_up = traffic_up_o.unwrap();
            true
        } else {
            false
        }
    }

    /// Reads a snapshot back from JSON.
    #[verifier::rlimit(100)]
    #[verifier::spinoff_prover]
    pub fn from_json(v: &Json) -> (r: Option<DataMessage>)
        ensures
            match r {
                Some(m) => decode_data(v@) == Some(m@) && m@.wf(),
                None => decode_data(v@) == None::<DataMessageV>,
            },
    {
        match v {
            Json::Obj(ms) => {
                let ghost vms = jview_obj(ms@, 0);
                let time_o = crate::json::x_req_int(ms, "time", i64::MIN, i64::MAX);
                let name_o = crate::json::x_req_str(ms, "name");
                let series_o = crate::json::x_req_str(ms, "series");
                let type_o: Option<MessageType> = match crate::json::x_req_str(ms, "type") {
                    Some(st) => message_type_from_str(st.as_str()),
                    None => None,
                };
                let mut m = DataMessage::default();
                let low_ok = DataMessage::read_observations_low(ms, &mut m);
                let high_ok = DataMessage::read_observations_high(ms, &mut m);
                if time_o.is_some() && name_o.is_some() && series_o.is_some() && type_o.is_some()
                    && low_ok && high_ok {
                    m.time = time_o.unwrap();
                    m.name = name_o.unwrap();
                    m.series = series_o.unwrap();
                    m.msg_type = type_o.unwrap();
                    proof {
                        lemma_decode_data_some(v@, vms, m@);
                    }
                    Some(m)
                } else {
                    proof {
                        lemma_decode_data_none(v@, vms);
                    }
                    None
                }
            },
            _ => None,
        }
    }

    /// Parses a snapshot from JSON text.
    pub fn from_json_text(s: &str) -> (r: Option<DataMessage>)
        ensures
            match r {
                Some(m) => spec_data_of_text(s@) == Some(m@) && m@.wf(),
                None => spec_data_of_text(s@) == None::<DataMessageV>,
            },
    {
        match crate::json::parse_json(s) {
            Some(v) => DataMessage::from_json(&v),
            None => None,
        }
    }
}

/// The snapshot denoted by a JSON text, if any.
pub open spec fn spec_data_of_text(s: Seq<char>) -> Option<DataMessageV> {
    match crate::json::spec_parse_json(s) {
        Some(j) => decode_data(j),
        None => None,
    }
}

/// The `type` member of a message, read as a message type.
pub open spec fn data_type_read(ms: Seq<(Seq<char>, JsonV)>) -> Option<MessageType> {
    match req_str_field(ms, "type"@) {
        Some(k) => message_type_of_name(k),
        None => None,
    }
}

/// Whether any member of a data message fails to read.
pub open spec fn data_read_failed(ms: Seq<(Seq<char>, JsonV)>) -> bool {
    ||| (req_int_field(ms, "time"@, i64::MIN as int, i64::MAX as int) is None)
    ||| (req_str_field(ms, "name"@) is None)
    ||| (req_str_field(ms, "series"@) is None)
    ||| (data_type_read(ms) is None)
    ||| (opt_num_field(ms, "AVG_PKT_SIZE"@) is None)
    ||| (opt_num_field(ms, "AVG_PKT_SIZE_DOWN"@) is None)
    ||| (opt_num_field(ms, "AVG_PKT_SIZE_UP"@) is None)
    ||| (opt_num_field(ms, "PERF"@) is None)
    ||| (opt_num_field(ms, "PERF_DOWN"@) is None)
    ||| (opt_num_field(ms, "PERF_UP"@) is None)
    ||| (opt_num_field(ms, "R_ACK"@) is None)
    ||| (opt_num_field(ms, "R_ACK_DOWN"@) is None)
    ||| (opt_num_field(ms, "R_ACK_UP"@) is None)
    ||| (opt_num_field(ms, "R_ARP"@) is None)
    ||| (opt_num_field(ms, "R_ARP_DOWN"@) is None)
    ||| (opt_num_field(ms, "R_ARP_UP"@) is None)
    ||| (opt_num_field(ms, "R_DST_SRC"@) is None)
    ||| (opt_num_field(ms, "R_DST_SRC_DOWN"@) is None)
    ||| (opt_num_field(ms, "R_DST_SRC_UP"@) is None)
    ||| (opt_num_field(ms, "R_DST_SRC_PORT"@) is None)
    ||| (opt_num_field(ms, "R_DST_SRC_PORT_DOWN"@) is None)
    ||| (opt_num_field(ms, "R_DST_SRC_PORT_UP"@) is None)
    ||| (opt_num_field(ms, "R_ICMP"@) is None)
    ||| (opt_num_field(ms, "R_ICMP_DOWN"@) is None)
    ||| (opt_num_field(ms, "R_ICMP_UP"@) is None)
    ||| (opt_num_field(ms, "R_IP"@) is None)
    ||| (opt_num_field(ms, "R_IP_DOWN"@) is None)
    ||| (opt_num_field(ms, "R_IP_UP"@) is None)
    ||| (opt_num_field(ms, "R_SYN"@) is None)
    ||| (opt_num_field(ms, "R_SYN_DOWN"@) is None)
    ||| (opt_num_field(ms, "R_SYN_UP"@) is None)
    ||| (opt_num_field(ms, "TRAFFIC"@) is None)
    ||| (opt_num_field(ms, "TRAFFIC_DOWN"@) is None)
    ||| (opt_num_field(ms, "TRAFFIC_UP"@) is None)
}

/// When every member reads as given, the snapshot decodes to exactly the
/// given value.
#[verifier::rlimit(100)]
#[verifier::spinoff_prover]
proof fn lemma_decode_data_some(j: JsonV, ms: Seq<(Seq<char>, JsonV)>, mv: DataMessageV)
    requires
        j == JsonV::Obj(ms),
        req_int_field(ms, "time"@, i64::MIN as int, i64::MAX as int) == Some(mv.time as int),
        req_str_field(ms, "name"@) == Some(mv.name),
        req_str_field(ms, "series"@) == Some(mv.series),
        data_type_read(ms) == Some(mv.msg_type),
        opt_num_field(ms, "AVG_PKT_SIZE"@) == Some(mv.avg_pkt_size),
        opt_num_field(ms, "AVG_PKT_SIZE_DOWN"@) == Some(mv.avg_pkt_size_down),
        opt_num_field(ms, "AVG_PKT_SIZE_UP"@) == Some(mv.avg_pkt_size_up),
        opt_num_field(ms, "PERF"@) == Some(mv.perf),
        opt_num_field(ms, "PERF_DOWN"@) == Some(mv.perf_down),
        opt_num_field(ms, "PERF_UP"@) == Some(mv.perf_up),
        opt_num_field(ms, "R_ACK"@) == Some(mv.r_ack),
        opt_num_field(ms, "R_ACK_DOWN"@) == Some(mv.r_ack_down),
        opt_num_field(ms, "R_ACK_UP"@) == Some(mv.r_ack_up),
        opt_num_field(ms, "R_ARP"@) == Some(mv.r_arp),
        opt_num_field(ms, "R_ARP_DOWN"@) == Some(mv.r_arp_down),
        opt_num_field(ms, "R_ARP_UP"@) == Some(mv.r_arp_up),
        opt_num_field(ms, "R_DST_SRC"@) == Some(mv.r_dst_src),
        opt_num_field(ms, "R_DST_SRC_DOWN"@) == Some(mv.r_dst_src_down),
        opt_num_field(ms, "R_DST_SRC_UP"@) == Some(mv.r_dst_src_up),
        opt_num_field(ms, "R_DST_SRC_PORT"@) == Some(mv.r_dst_src_port),
        opt_num_field(ms, "R_DST_SRC_PORT_DOWN"@) == Some(mv.r_dst_src_port_down),
        opt_num_field(ms, "R_DST_SRC_PORT_UP"@) == Some(mv.r_dst_src_port_up),
        opt_num_field(ms, "R_ICMP"@) == Some(mv.r_icmp),
        opt_num_field(ms, "R_ICMP_DOWN"@) == Some(mv.r_icmp_down),
        opt_num_field(ms, "R_ICMP_UP"@) == Some(mv.r_icmp_up),
        opt_num_field(ms, "R_IP"@) == Some(mv.r_ip),
        opt_num_field(ms, "R_IP_DOWN"@) == Some(mv.r_ip_down),
        opt_num_field(ms, "R_IP_UP"@) == Some(mv.r_ip_up),
        opt_num_field(ms, "R_SYN"@) == Some(mv.r_syn),
        opt_num_field(ms, "R_SYN_DOWN"@) == Some(mv.r_syn_down),
        opt_num_field(ms, "R_SYN_UP"@) == Some(mv.r_syn_up),
        opt_num_field(ms, "TRAFFIC"@) == Some(mv.traffic),
        opt_num_field(ms, "TRAFFIC_DOWN"@) == Some(mv.traffic_down),
        opt_num_field(ms, "TRAFFIC_UP"@) == Some(mv.traffic_up),
    ensures
        decode_data(j) == Some(mv),
{
}

/// When any member fails to read, the snapshot does not decode.
#[verifier::rlimit(100)]
#[verifier::spinoff_prover]
proof fn lemma_decode_data_none(j: JsonV, ms: Seq<(Seq<char>, JsonV)>)
    requires
        j == JsonV::Obj(ms),
        data_read_failed(ms),
    ensures
        decode_data(j) == None::<DataMessageV>,
{
}

/// One message from a probe: an alarm or a data snapshot.
#[derive(Debug, Clone)]
pub enum Message {
    Alarm(Box<AlarmMessage>),
    Data(Box<DataMessage>),
}

/// Mathematical view of [`Message`].
#[verifier::ext_equal]
pub enum MessageV {
    Alarm(AlarmMessageV),
    Data(DataMessageV),
}

impl View for Message {
    type V = MessageV;

    open spec fn view(&self) -> MessageV {
        match self {
            Message::Alarm(m) => MessageV::Alarm(m@),
            Message::Data(m) => MessageV::Data(m@),
        }
    }
}

impl MessageV {
    /// Numeric lexemes of the carried message are well-formed.
    pub open spec fn wf(self) -> bool {
        match self {
            MessageV::Alarm(m) => m.wf(),
            MessageV::Data(m) => m.wf(),
        }
    }

    /// The carried message's time stamp.
    pub open spec fn time(self) -> i64 {
        match self {
            MessageV::Alarm(m) => m.time,
            MessageV::Data(m) => m.time,
        }
    }
}

/// JSON form of a message: exactly the carried message's form.
pub open spec fn encode_message(m: MessageV) -> JsonV {
    match m {
        MessageV::Alarm(a) => encode_alarm(a),
        MessageV::Data(d) => encode_data(d),
    }
}

impl Message {
    /// JSON text of this message, as the consumers forward and store it.
    pub fn to_json(&self) -> (r: String)
        requires
            self@.wf(),
        ensures
            r@ == crate::json::print_json(encode_message(self@)),
    {
        match self {
            Message::Alarm(m) => {
                let v = m.to_json();
                crate::json::to_text(&v)
            },
            Message::Data(m) => {
                let v = m.to_json();
                crate::json::to_text(&v)
            },
        }
    }
}

/// The kind of socket a probe connection serves.
#[derive(Clone, Copy, Debug, PartialEq, Eq, Structural)]
pub enum SocketUse {
    Alarm,
    Data,
}

/// What one framed socket text decodes to: the kind's schema decides.
pub open spec fn spec_parse_message(u: SocketUse, s: Seq<char>) -> Option<MessageV> {
    match u {
        SocketUse::Alarm => match spec_alarm_of_text(s) {
            Some(a) => Some(MessageV::Alarm(a)),
            None => None,
        },
        SocketUse::Data => match spec_data_of_text(s) {
            Some(d) => Some(MessageV::Data(d)),
            None => None,
        },
    }
}

/// Decodes one framed object from a probe connection against the socket
/// kind's schema; a malformed object yields nothing and is skipped.
pub fn parse_message(socket_use: &SocketUse, json: &str) -> (r: Option<Message>)
    ensures
        match r {
            Some(m) => spec_parse_message(*socket_use, json@) == Some(m@) && m@.wf(),
            None => spec_parse_message(*socket_use, json@) == None::<MessageV>,
        },
{
    match socket_use {
        SocketUse::Alarm => match AlarmMessage::from_json_text(json) {
            Some(m) => Some(Message::Alarm(Box::new(m))),
            None => None,
        },
        SocketUse::Data => match DataMessage::from_json_text(json) {
            Some(m) => Some(Message::Data(Box::new(m))),
            None => None,
        },
    }
}

/// A request to synthesise one test alarm; every field has a default.
#[derive(Debug, Clone, PartialEq)]
pub struct TestAlarmMessage {
    pub name: String,
    pub stat: Stat,
    pub status: AlertStatus,
    /// Observed value, as its decimal lexeme.
    pub value: String,
    /// Exceedance probability, as its decimal lexeme.
    pub probability: String,
}

/// Mathematical view of [`TestAlarmMessage`].
#[verifier::ext_equal]
pub struct TestAlarmMessageV {
    pub name: Seq<char>,
    pub stat: Stat,
    pub status: AlertStatus,
    pub value: Seq<char>,
    pub probability: Seq<char>,
}

impl View for TestAlarmMessage {
    type V = TestAlarmMessageV;

    open spec fn view(&self) -> TestAlarmMessageV {
        TestAlarmMessageV {
            name: self.name@,
            stat: self.stat,
            status: self.status,
            value: self.value@,
            probability: self.probability@,
        }
    }
}

impl TestAlarmMessageV {
    /// The numeric lexemes are well-formed JSON numbers.
    pub open spec fn wf(self) -> bool {
        is_json_number(self.value) && is_json_number(self.probability)
    }
}

/// The defaults of a test alarm request.
pub open spec fn test_alarm_defaults() -> TestAlarmMessageV {
    TestAlarmMessageV {
        name: "Test alarm"@,
        stat: Stat::RSyn,
        status: AlertStatus::UpAlert,
        value: "1000.0"@,
        probability: "0.75"@,
    }
}

pub fn test_alarm_default_name() -> (r: String)
    ensures
        r@ == test_alarm_defaults().name,
{
    "Test alarm".to_owned()
}

pub fn test_alarm_default_stat() -> (r: Stat)
    ensures
        r == test_alarm_defaults().stat,
{
    Stat::RSyn
}

pub fn test_alarm_default_status() -> (r: AlertStatus)
    ensures
        r == test_alarm_defaults().status,
{
    AlertStatus::UpAlert
}

pub fn test_alarm_default_value() -> (r: String)
    ensures
        r@ == test_alarm_defaults().value,
{
    "1000.0".to_owned()
}

pub fn test_alarm_default_probability() -> (r: String)
    ensures
        r@ == test_alarm_defaults().probability,
{
    "0.75".to_owned()
}

/// The default numeric lexemes of a test alarm are well-formed.
pub proof fn lemma_test_alarm_defaults_wf()
    ensures
        test_alarm_defaults().wf(),
{
    reveal_strlit("1000.0");
    reveal_strlit("0.75");
    let a = "1000.0"@;
    assert(crate::json::digits_end(a, 0) == 4) by {
        reveal_with_fuel(crate::json::digits_end, 6);
    }
    assert(crate::json::int_part_end(a) == Some(4int));
    assert(crate::json::digits_end(a, 5) == 6) by {
        reveal_with_fuel(crate::json::digits_end, 3);
    }
    assert(crate::json::frac_part_end(a, 4) == Some(6int));
    assert(crate::json::exp_part_end(a, 6) == Some(6int));
    let b = "0.75"@;
    assert(crate::json::int_part_end(b) == Some(1int));
    assert(crate::json::digits_end(b, 2) == 4) by {
        reveal_with_fuel(crate::json::digits_end, 4);
    }
    assert(crate::json::frac_part_end(b, 1) == Some(4int));
    assert(crate::json::exp_part_end(b, 4) == Some(4int));
}

impl Default for TestAlarmMessage {
    /// The documented test alarm defaults.
    fn default() -> (r: TestAlarmMessage)
        ensures
            r@ == test_alarm_defaults(),
    {
        TestAlarmMessage {
            name: test_alarm_default_name(),
            stat: test_alarm_default_stat(),
            status: test_alarm_default_status(),
            value: test_alarm_default_value(),
            probability: test_alarm_default_probability(),
        }
    }
}

/// Field list of a test alarm request's JSON object.
pub open spec fn test_alarm_fields(m: TestAlarmMessageV) -> Seq<(Seq<char>, Option<JsonV>)> {
    seq![
        ("name"@, Some(JsonV::Str(m.name))),
        ("stat"@, Some(JsonV::Str(stat_name(m.stat)))),
        ("status"@, Some(JsonV::Str(alert_status_name(m.status)))),
        ("value"@, Some(JsonV::Num(m.value))),
        ("probability"@, Some(JsonV::Num(m.probability))),
    ]
}

/// Decodes a test alarm request; every absent field takes its default.
pub open spec fn decode_test_alarm(j: JsonV) -> Option<TestAlarmMessageV> {
    match j {
        JsonV::Obj(ms) => {
            let name = def_str_field(ms, "name"@, "Test alarm"@);
            let stat = match obj_lookup(ms, "stat"@) {
                None => Some(Stat::RSyn),
                Some(JsonV::Str(k)) => stat_of_name(k),
                Some(_) => None,
            };
            let status = match obj_lookup(ms, "status"@) {
                None => Some(AlertStatus::UpAlert),
                Some(JsonV::Str(k)) => alert_status_of_name(k),
                Some(_) => None,
            };
            let value = def_num_field(ms, "value"@, "1000.0"@);
            let probability = def_num_field(ms, "probability"@, "0.75"@);
            if name is Some && stat is Some && status is Some && value is Some && probability
                is Some {
                Some(
                    TestAlarmMessageV {
                        name: name.unwrap(),
                        stat: stat.unwrap(),
                        status: status.unwrap(),
                        value: value.unwrap(),
                        probability: probability.unwrap(),
                    },
                )
            } else {
                None
            }
        },
        _ => None,
    }
}

impl TestAlarmMessage {
    /// Reads a request back from JSON.
    pub fn from_json(v: &Json) -> (r: Option<TestAlarmMessage>)
        ensures
            match r {
                Some(m) => decode_test_alarm(v@) == Some(m@) && m@.wf(),
                None => decode_test_alarm(v@) == None::<TestAlarmMessageV>,
            },
    {
        match v {
            Json::Obj(ms) => {
                let name = match crate::json::x_def_str(ms, "name", "Test alarm") {
                    Some(s) => s,
                    None => {
                        return None;
                    },
                };
                let stat = match crate::json::obj_get(ms, "stat") {
                    None => test_alarm_default_stat(),
                    Some(sv) => match sv {
                        Json::Str(k) => match stat_from_str(k.as_str()) {
                            Some(x) => x,
                            None => {
                                return None;
                            },
                        },
                        _ => {
                            return None;
                        },
                    },
                };
                let status = match crate::json::obj_get(ms, "status") {
                    None => test_alarm_default_status(),
                    Some(sv) => match sv {
                        Json::Str(k) => match alert_status_from_str(k.as_str()) {
                            Some(x) => x,
                            None => {
                                return None;
                            },
                        },
                        _ => {
                            return None;
                        },
                    },
                };
                let value = match crate::json::x_def_num(ms, "value", "1000.0") {
                    Some(t) => t,
                    None => {
                        return None;
                    },
                };
                let probability = match crate::json::x_def_num(ms, "probability", "0.75") {
                    Some(t) => t,
                    None => {
                        return None;
                    },
                };
                proof {
                    lemma_test_alarm_defaults_wf();
                }
                Some(TestAlarmMessage { name, stat, status, value, probability })
            },
            _ => None,
        }
    }

    /// Parses a request from JSON text.
    pub fn from_json_text(s: &str) -> (r: Option<TestAlarmMessage>)
        ensures
            match r {
                Some(m) => spec_test_alarm_of_text(s@) == Some(m@) && m@.wf(),
                None => spec_test_alarm_of_text(s@) == None::<TestAlarmMessageV>,
            },
    {
        match crate::json::parse_json(s) {
            Some(v) => TestAlarmMessage::from_json(&v),
            None => None,
        }
    }
}

/// The request denoted by a JSON text, if any.
pub open spec fn spec_test_alarm_of_text(s: Seq<char>) -> Option<TestAlarmMessageV> {
    match crate::json::spec_parse_json(s) {
        Some(j) => decode_test_alarm(j),
        None => None,
    }
}

/// The alarm a test alarm request synthesises at the given time: the series,
/// code and type are fixed, the rest comes from the request.
pub open spec fn spec_make_test_alarm(seed: TestAlarmMessageV, time_ns: i64) -> AlarmMessageV {
    AlarmMessageV {
        time: time_ns,
        name: seed.name,
        series: "TEST ALARM"@,
        stat: seed.stat,
        status: seed.status,
        value: seed.value,
        probability: seed.probability,
        code: 1,
        msg_type: MessageType::Alarm,
    }
}

/// Synthesises the alarm a test alarm request publishes.
pub fn make_test_alarm(seed: TestAlarmMessage, time_ns: i64) -> (r: AlarmMessage)
    ensures
        r@ == spec_make_test_alarm(seed@, time_ns),
        seed@.wf() ==> r@.wf(),
{
    AlarmMessage {
        time: time_ns,
        name: seed.name,
        series: "TEST ALARM".to_owned(),
        stat: seed.stat,
        status: seed.status,
        value: seed.value,
        probability: seed.probability,
        code: 1,
        msg_type: MessageType::Alarm,
    }
}

/// Where the next framed object of a probe stream ends: the probe's flat
/// JSON objects are framed by the first closing brace, so the frame runs
/// from `start` to the first `0x7D` byte at or after it.
pub fn split_frame(buf: &Vec<u8>, start: usize) -> (r: Option<usize>)
    requires
        start <= buf.len(),
    ensures
        match r {
            Some(e) => {
                &&& start <= e < buf@.len()
                &&& buf@[e as int] == 0x7D
                &&& forall|j: int| start <= j < e ==> buf@[j] != 0x7D
            },
            None => forall|j: int| start <= j < buf@.len() ==> buf@[j] != 0x7D,
        },
{
    let mut k: usize = start;
    while k < buf.len()
        invariant
            start <= k <= buf.len(),
            forall|j: int| start <= j < k ==> buf@[j] != 0x7D,
        decreases buf.len() - k,
    {
        if buf[k] == 0x7D {
            return Some(k);
        }
        k += 1;
    }
    None
}

} // verus!
