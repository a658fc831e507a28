use netspot_control::config::{NetspotConfig, SpotConfig, StatConfig};
use netspot_control::json::{parse_json, to_text, Json};
use netspot_control::messages::{
    alert_status_to_str, message_type_to_str, split_frame, stat_to_str, AlarmMessage, AlertStatus,
    Message, MessageType, SocketUse, Stat,
};
use netspot_control::probes::{
    process_status, socket_path, start_decision, stop_decision, stop_follow_up, toml_file_path,
    update_all, ProbeEntry, StartAction, StopAction, StopEvent, StopFollowUp,
};
use netspot_control::status::{ProcessStatus, Status};
use netspot_control::store::{decode_alarm_rows, retention_cutoff};
use netspot_control::webhooks::{
    headers_from_members, method_to_str, plan_dispatch, stats_type_to_str, Webhook, WebhookItem,
    WebhookRequestMethod, WebhookStatsType,
};

#[test]
fn spot_all_config() {
    let config = SpotConfig::from_json(
        &parse_json(
            r#"{
            "depth": 1,
            "q": 2.0,
            "n_init": 3,
            "level": 4.0,
            "up": false,
            "down": true,
            "alert": false,
            "bounded": false,
            "max_excess": 5
        }"#,
        )
        .unwrap(),
    )
    .unwrap();
    assert_eq!(1, config.depth);
    assert_eq!(2.0, config.q.parse::<f64>().unwrap());
    assert_eq!(3, config.n_init);
    assert_eq!(4.0, config.level.parse::<f64>().unwrap());
    assert_eq!(false, config.up);
    assert_eq!(true, config.down);
    assert_eq!(false, config.alert);
    assert_eq!(false, config.bounded);
    assert_eq!(5, config.max_excess);
}

#[test]
fn stat_defaults() {
    let config = StatConfig::from_json(&parse_json(r#"{}"#).unwrap()).unwrap();
    assert_eq!(false, config.enabled);
    assert_eq!(None, config.depth);
    assert_eq!(None, config.q);
    assert_eq!(None, config.n_init);
    assert_eq!(None, config.level);
    assert_eq!(None, config.up);
    assert_eq!(None, config.down);
    assert_eq!(None, config.alert);
    assert_eq!(None, config.bounded);
    assert_eq!(None, config.max_excess);

    assert!(config.make_toml().is_empty());
}

#[test]
fn stat_all_config() {
    let config = StatConfig::from_json(
        &parse_json(
            r#"{
        "enabled": true,
        "depth": 1,
        "q": 2.2,
        "n_init": 3,
        "level": 4.4,
        "up": false,
        "down": true,
        "alert": false,
        "bounded": false,
        "max_excess": 5
    }"#,
        )
        .unwrap(),
    )
    .unwrap();
    assert_eq!(true, config.enabled);
    assert_eq!(Some(1), config.depth);
    assert_eq!(Some(2.2), config.q.as_ref().map(|t| t.parse::<f64>().unwrap()));
    assert_eq!(Some(3), config.n_init);
    assert_eq!(Some(4.4), config.level.as_ref().map(|t| t.parse::<f64>().unwrap()));
    assert_eq!(Some(false), config.up);
    assert_eq!(Some(true), config.down);
    assert_eq!(Some(false), config.alert);
    assert_eq!(Some(false), config.bounded);
    assert_eq!(Some(5), config.max_excess);

    let expected = "depth = 1\n\
        q = 2.2\n\
        n_init = 3\n\
        level = 4.4\n\
        up = false\n\
        down = true\n\
        alert = false\n\
        bounded = false\n\
        max_excess = 5\n";
    assert_eq!(config.make_toml(), expected)
}

#[test]
fn message_types() {
    let test = vec![MessageType::Alarm, MessageType::Data];
    let items: Vec<Json> = test
        .iter()
        .map(|t| Json::Str(message_type_to_str(t).to_string()))
        .collect();
    let json = to_text(&Json::Arr(items));
    let expected = r#"["alarm","data"]"#;
    assert_eq!(json, expected);
}

#[test]
fn stats() {
    let test = vec![
        Stat::AvgPktSize,
        Stat::Perf,
        Stat::RAck,
        Stat::RArp,
        Stat::RDstSrc,
        Stat::RDstSrcPort,
        Stat::RIcmp,
        Stat::RIp,
        Stat::RSyn,
        Stat::Traffic,
    ];
    let items: Vec<Json> = test.iter().map(|s| Json::Str(stat_to_str(s).to_string())).collect();
    let json = to_text(&Json::Arr(items));
    let expected = r#"["AVG_PKT_SIZE","PERF","R_ACK","R_ARP","R_DST_SRC","R_DST_SRC_PORT","R_ICMP","R_IP","R_SYN","TRAFFIC"]"#;
    assert_eq!(json, expected);
}

#[test]
fn status() {
    let test = vec![AlertStatus::DownAlert, AlertStatus::UpAlert];
    let items: Vec<Json> = test
        .iter()
        .map(|s| Json::Str(alert_status_to_str(s).to_string()))
        .collect();
    let json = to_text(&Json::Arr(items));
    let expected = r#"["DOWN_ALERT","UP_ALERT"]"#;
    assert_eq!(json, expected);
}

#[test]
fn status_deserialize() {
    let status = Status::from_json_text(r#"{"id":1,"name":"Test","status":"running"}"#).unwrap();
    assert_eq!(status.id, 1);
    assert_eq!(status.name, "Test");
    assert_eq!(status.status, ProcessStatus::Running);
}

#[test]
fn status_serialize() {
    let status = Status {
        id: 1,
        name: "Test".to_string(),
        status: ProcessStatus::Running,
    };
    let json = to_text(&status.to_json());
    let expected = r#"{"id":1,"name":"Test","status":"running"}"#;
    assert_eq!(json, expected);
}

#[test]
fn statuses_deserialize() {
    let text = r#"[{"id":1,"name":"Test","status":"running"},{"id":2,"name":"Another test","status":"stopped"},{"id":3,"name":"Yet another test","status":"disabled"}]"#;
    let parsed = parse_json(text).unwrap();
    let statuses: Vec<Status> = match parsed {
        Json::Arr(items) => items.iter().map(|v| Status::from_json(v).unwrap()).collect(),
        _ => panic!("expected an array"),
    };

    assert_eq!(statuses[0].id, 1);
    assert_eq!(statuses[0].name, "Test");
    assert_eq!(statuses[0].status, ProcessStatus::Running);
    assert_eq!(statuses[1].id, 2);
    assert_eq!(statuses[1].name, "Another test");
    assert_eq!(statuses[1].status, ProcessStatus::Stopped);
    assert_eq!(statuses[2].id, 3);
    assert_eq!(statuses[2].name, "Yet another test");
    assert_eq!(statuses[2].status, ProcessStatus::Disabled);
}

#[test]
fn statuses_serialize() {
    let statuses = vec![
        Status {
            id: 1,
            name: "Test".to_string(),
            status: ProcessStatus::Running,
        },
        Status {
            id: 2,
            name: "Another test".to_string(),
            status: ProcessStatus::Stopped,
        },
        Status {
            id: 3,
            name: "Yet another test".to_string(),
            status: ProcessStatus::Disabled,
        },
    ];
    let items: Vec<Json> = statuses.iter().map(|s| s.to_json()).collect();
    let json = to_text(&Json::Arr(items));
    let expected = r#"[{"id":1,"name":"Test","status":"running"},{"id":2,"name":"Another test","status":"stopped"},{"id":3,"name":"Yet another test","status":"disabled"}]"#;
    assert_eq!(json, expected);
}

#[test]
fn headers() {
    let json = r#"{"key1":"value1","key2":"value2","key3":"value3"}"#;
    let headers = match parse_json(json).unwrap() {
        Json::Obj(ms) => headers_from_members(&ms).unwrap(),
        _ => panic!("expected an object"),
    };
    let expected = vec![
        ("key1".to_string(), "value1".to_string()),
        ("key2".to_string(), "value2".to_string()),
        ("key3".to_string(), "value3".to_string()),
    ];
    assert_eq!(headers, expected);
}

#[test]
fn method() {
    let methods = vec![
        WebhookRequestMethod::Get,
        WebhookRequestMethod::Post,
        WebhookRequestMethod::Put,
    ];
    let items: Vec<Json> = methods.iter().map(|m| Json::Str(method_to_str(m).to_string())).collect();
    let json = to_text(&Json::Arr(items));
    let expected = r#"["GET","POST","PUT"]"#;
    assert_eq!(json, expected);
}

#[test]
fn stats_type() {
    let stats_types = vec![
        WebhookStatsType::Alarms,
        WebhookStatsType::Both,
        WebhookStatsType::Data,
    ];
    let items: Vec<Json> = stats_types
        .iter()
        .map(|t| Json::Str(stats_type_to_str(t).to_string()))
        .collect();
    let json = to_text(&Json::Arr(items));
    let expected = r#"["alarms","both","data"]"#;
    assert_eq!(json, expected);
}

#[test]
fn webhook() {
    let hook = Webhook {
        name: "test".to_string(),
        address: "http://captain.hook/".to_string(),
        method: WebhookRequestMethod::Post,
        headers: vec![("code".to_string(), "12345".to_string())],
        stats_type: WebhookStatsType::Both,
    };
    let json = to_text(&hook.to_json());
    let expected = r#"{"name":"test","address":"http://captain.hook/","method":"POST","headers":{"code":"12345"},"type":"both"}"#;
    assert_eq!(json, expected);

    let json = r#"{
	"name": "Captain Hook",
	"address": "https://captain.hook/",
	"method": "GET",
	"headers": {
		"key": "12345",
		"gold": "1991"
	},
	"type": "data"
}"#;
    let hook = Webhook::from_json_text(json).unwrap();
    let expected = Webhook {
        name: "Captain Hook".to_string(),
        address: "https://captain.hook/".to_string(),
        method: WebhookRequestMethod::Get,
        headers: vec![
            ("key".to_string(), "12345".to_string()),
            ("gold".to_string(), "1991".to_string()),
        ],
        stats_type: WebhookStatsType::Data,
    };
    assert_eq!(hook, expected);
}

#[test]
fn webhooks() {
    let hooks = vec![
        WebhookItem {
            id: 1,
            name: "Captain Hook".to_string(),
        },
        WebhookItem {
            id: 2,
            name: "Example".to_string(),
        },
    ];
    let items: Vec<Json> = hooks.iter().map(|h| h.to_json()).collect();
    let json = to_text(&Json::Arr(items));
    let expected = r#"[{"id":1,"name":"Captain Hook"},{"id":2,"name":"Example"}]"#;
    assert_eq!(json, expected);

    let json = r#"[
  {
    "id": 1,
    "name": "My example callback #1"
  },
  {
    "id": 2,
    "name": "My example callback #2"
  }
]"#;
    let hooks: Vec<WebhookItem> = match parse_json(json).unwrap() {
        Json::Arr(items) => items.iter().map(|v| WebhookItem::from_json(v).unwrap()).collect(),
        _ => panic!("expected an array"),
    };
    let expected = vec![
        WebhookItem {
            id: 1,
            name: "My example callback #1".to_string(),
        },
        WebhookItem {
            id: 2,
            name: "My example callback #2".to_string(),
        },
    ];
    assert_eq!(hooks, expected);
}

#[test]
fn webhooks_defaults() {
    // Only name and address are required. Others should have the following defaults:
    // method: POST
    // headers: (empty)
    // type: both
    let json = r#"{"name":"test","address":"test"}"#;
    let hook = Webhook::from_json_text(json).unwrap();
    let expected = Webhook {
        name: "test".to_string(),
        address: "test".to_string(),
        method: WebhookRequestMethod::Post,
        headers: Vec::new(),
        stats_type: WebhookStatsType::Both,
    };
    assert_eq!(hook, expected);
}

#[test]
fn skip_empty_headers() {
    let hook = Webhook {
        name: "name".to_string(),
        address: "address".to_string(),
        method: WebhookRequestMethod::Post,
        headers: Vec::new(),
        stats_type: WebhookStatsType::Both,
    };
    let json = to_text(&hook.to_json());
    let expected = r#"{"name":"name","address":"address","method":"POST","type":"both"}"#;
    // Note: expected JSON should not have headers field at all.
    assert_eq!(json, expected);
}

fn sample_alarm() -> AlarmMessage {
    AlarmMessage {
        time: 5,
        name: "n".to_string(),
        series: "s".to_string(),
        stat: Stat::RSyn,
        status: AlertStatus::UpAlert,
        value: "1.5".to_string(),
        probability: "0.25".to_string(),
        code: 1,
        msg_type: MessageType::Alarm,
    }
}

#[test]
fn dispatch_plan_selects_by_filter() {
    let snapshot = vec![
        (
            1,
            Webhook {
                name: "everything".to_string(),
                address: "http://one/".to_string(),
                method: WebhookRequestMethod::Post,
                headers: vec![("x-token".to_string(), "abc".to_string())],
                stats_type: WebhookStatsType::Both,
            },
        ),
        (
            2,
            Webhook {
                name: "alarms only".to_string(),
                address: "http://two/".to_string(),
                method: WebhookRequestMethod::Get,
                headers: Vec::new(),
                stats_type: WebhookStatsType::Alarms,
            },
        ),
        (
            3,
            Webhook {
                name: "data only".to_string(),
                address: "http://three/".to_string(),
                method: WebhookRequestMethod::Put,
                headers: Vec::new(),
                stats_type: WebhookStatsType::Data,
            },
        ),
    ];
    let message = Message::Alarm(Box::new(sample_alarm()));
    let plans = plan_dispatch(&snapshot, &message);
    assert_eq!(plans.len(), 2);
    assert_eq!(plans[0].id, 1);
    assert_eq!(plans[0].method, WebhookRequestMethod::Post);
    assert_eq!(plans[0].address, "http://one/");
    assert_eq!(
        plans[0].headers,
        vec![
            ("Content-Type".to_string(), "application/json".to_string()),
            ("x-token".to_string(), "abc".to_string()),
        ]
    );
    assert_eq!(plans[0].body, message.to_json());
    assert_eq!(plans[1].id, 2);
    assert_eq!(plans[1].method, WebhookRequestMethod::Get);
    assert_eq!(plans[1].address, "http://two/");
    assert_eq!(plans[1].body, plans[0].body);
}

#[test]
fn probe_lifecycle_transitions() {
    // Disabled, then enabled: the entry reports Stopped without a child.
    assert_eq!(process_status(false, false), ProcessStatus::Disabled);
    assert_eq!(process_status(true, false), ProcessStatus::Stopped);

    // A start from Stopped writes the file and spawns; from Running or
    // Disabled it does nothing.
    assert_eq!(start_decision(&ProcessStatus::Stopped), StartAction::WriteTomlAndSpawn);
    assert_eq!(start_decision(&ProcessStatus::Running), StartAction::NoOp);
    assert_eq!(start_decision(&ProcessStatus::Disabled), StartAction::NoOp);

    let config = NetspotConfig::from_json_text(r#"{"configuration":{"name":"Test"}}"#).unwrap();
    let mut entry = ProbeEntry {
        id: 7,
        config,
        running: false,
    };
    entry.mark_started();
    let status = entry.status();
    assert_eq!(status.id, 7);
    assert_eq!(status.name, "Test");
    assert_eq!(status.status, ProcessStatus::Running);

    // A stop signals SIGINT first; the kill follows only on a timeout; the
    // configuration file goes in either case.
    assert_eq!(stop_decision(&ProcessStatus::Running), StopAction::SignalInt);
    assert_eq!(stop_decision(&ProcessStatus::Stopped), StopAction::NoOp);
    assert_eq!(stop_follow_up(&StopEvent::ChildExited), StopFollowUp::RemoveToml);
    assert_eq!(stop_follow_up(&StopEvent::TimedOut), StopFollowUp::KillThenRemoveToml);

    entry.mark_stopped();
    assert_eq!(entry.status().status, ProcessStatus::Stopped);
}

#[test]
fn update_all_reconciles() {
    let cfg_a = NetspotConfig::from_json_text(r#"{"configuration":{"name":"A"}}"#).unwrap();
    let cfg_b = NetspotConfig::from_json_text(r#"{"configuration":{"name":"B"}}"#).unwrap();
    let cfg_b2 = NetspotConfig::from_json_text(r#"{"configuration":{"name":"B2"}}"#).unwrap();
    let cfg_c = NetspotConfig::from_json_text(r#"{"configuration":{"name":"C"}}"#).unwrap();

    let mut entries = vec![
        (1, ProbeEntry { id: 1, config: cfg_a, running: true }),
        (2, ProbeEntry { id: 2, config: cfg_b, running: true }),
    ];
    let configs = vec![(2, cfg_b2), (3, cfg_c)];
    update_all(&mut entries, &configs);

    assert_eq!(entries.len(), 2);
    assert_eq!(entries[0].0, 2);
    assert_eq!(entries[0].1.config.configuration.name, "B2");
    assert!(entries[0].1.running);
    assert_eq!(entries[1].0, 3);
    assert_eq!(entries[1].1.config.configuration.name, "C");
    assert!(!entries[1].1.running);
}

#[test]
fn runtime_paths() {
    assert_eq!(toml_file_path("/tmp", 3), "/tmp/netspot_3.toml");
    assert_eq!(socket_path("/tmp", &SocketUse::Alarm), "/tmp/netspot_alarm.socket");
    assert_eq!(socket_path("/tmp", &SocketUse::Data), "/tmp/netspot_data.socket");
}

#[test]
fn retention_and_row_decoding() {
    assert_eq!(retention_cutoff(7_200_000_000_000), 3_600_000_000_000);

    let good = to_text(&sample_alarm().to_json());
    let rows = vec![good.clone(), "not json".to_string(), good.clone()];
    let forward = decode_alarm_rows(&rows, false);
    assert_eq!(forward.len(), 2);
    assert_eq!(forward[0], sample_alarm());

    let mut newer = sample_alarm();
    newer.time = 9;
    let rows = vec![to_text(&newer.to_json()), good];
    let ascending = decode_alarm_rows(&rows, true);
    assert_eq!(ascending.len(), 2);
    assert_eq!(ascending[0].time, 5);
    assert_eq!(ascending[1].time, 9);
}

#[test]
fn frame_splitting() {
    let buf: Vec<u8> = b"{\"a\":1}{\"b\":2}tail".to_vec();
    let first = split_frame(&buf, 0).unwrap();
    assert_eq!(buf[first], b'}');
    assert_eq!(&buf[..first + 1], b"{\"a\":1}");
    let second = split_frame(&buf, first + 1).unwrap();
    assert_eq!(&buf[first + 1..second + 1], b"{\"b\":2}");
    assert!(split_frame(&buf, second + 1).is_none());
}
