use netspot_control::config::{InfluxDB1Config, MinerConfig, NetspotConfig, SpotConfig, StatsConfig};
use netspot_control::json::{parse_json, to_text};
use netspot_control::messages::{
    make_test_alarm, parse_message, AlarmMessage, AlertStatus, Message, MessageType, SocketUse,
    Stat, TestAlarmMessage,
};

const DEFAULT_NETSPOT_CONFIG_JSON: &str = r#"{
	"configuration": {
		"name": "Default configuration"
	},
	"spot": {
		"depth": 50,
		"q": 0.00001,
		"n_init": 2000,
		"level": 0.98,
		"up": true,
		"down": false,
		"alert": true,
		"bounded": true,
		"max_excess": 200
	},
	"stats": {
		"avg_pkt_size": {
			"enabled": true,
			"max_excess": 1
		},
		"perf": {
			"enabled": true,
			"up": false
		},
		"r_arp": {
			"enabled": true
		},
		"r_syn": {
			"enabled": true
		},
		"traffic": {
			"enabled": true
		}
	}
}"#;

#[test]
fn netspot_default_configuration() {
    let config = NetspotConfig::from_json_text(DEFAULT_NETSPOT_CONFIG_JSON).unwrap();

    assert_eq!("Default configuration", config.configuration.name);
    assert_eq!("any", config.configuration.device);
    assert!(config.configuration.promiscuous);
    assert!(config.configuration.enabled);

    assert_eq!(50, config.spot.depth);
    assert_eq!(1e-5, config.spot.q.parse::<f64>().unwrap());
    assert_eq!(2000, config.spot.n_init);
    assert_eq!(0.98, config.spot.level.parse::<f64>().unwrap());
    assert!(config.spot.up);
    assert!(!config.spot.down);
    assert!(config.spot.alert);
    assert!(config.spot.bounded);
    assert_eq!(200, config.spot.max_excess);

    if let Some(ref c) = config.stats.avg_pkt_size {
        assert!(c.enabled);
        assert_eq!(Some(1), c.max_excess);
    } else {
        panic!("We should have avg_pkt_size configuration here");
    }
    if let Some(ref c) = config.stats.perf {
        assert!(c.enabled);
        assert_eq!(Some(false), c.up);
    } else {
        panic!("We should have perf configuration here");
    }
    if let Some(ref c) = config.stats.r_arp {
        assert!(c.enabled);
    } else {
        panic!("We should have r_arp configuration here");
    }
    if let Some(ref c) = config.stats.r_syn {
        assert!(c.enabled);
    } else {
        panic!("We should have r_syn configuration here");
    }
    if let Some(ref c) = config.stats.traffic {
        assert!(c.enabled);
    } else {
        panic!("We should have traffic configuration here");
    }

    assert!(config.stats.r_ack.is_none());
    assert!(config.stats.r_dst_src.is_none());
    assert!(config.stats.r_dst_src_port.is_none());
    assert!(config.stats.r_icmp.is_none());
    assert!(config.stats.r_ip.is_none());
}

#[test]
fn netspot_name_only() {
    let config = NetspotConfig::from_json_text(r#"{"configuration":{"name":"test"}}"#).unwrap();

    assert_eq!("test", config.configuration.name);
    assert_eq!("any", config.configuration.device);
    assert!(config.configuration.promiscuous);
    assert!(config.configuration.enabled);

    assert_eq!(50, config.spot.depth);
    assert_eq!(1e-4, config.spot.q.parse::<f64>().unwrap());
    assert_eq!(1000, config.spot.n_init);
    assert_eq!(0.8, config.spot.level.parse::<f64>().unwrap());
    assert!(config.spot.up);
    assert!(!config.spot.down);
    assert!(config.spot.alert);
    assert!(config.spot.bounded);
    assert_eq!(200, config.spot.max_excess);

    assert_eq!(None, config.stats.avg_pkt_size);
    assert_eq!(None, config.stats.perf);
    assert_eq!(None, config.stats.r_ack);
    assert_eq!(None, config.stats.r_arp);
    assert_eq!(None, config.stats.r_dst_src);
    assert_eq!(None, config.stats.r_dst_src_port);
    assert_eq!(None, config.stats.r_icmp);
    assert_eq!(None, config.stats.r_ip);
    assert_eq!(None, config.stats.r_syn);
    assert_eq!(None, config.stats.traffic);
}

#[test]
fn netspot_missing_required_fields() {
    let result = NetspotConfig::from_json_text("{}");
    assert!(result.is_none());

    let result = NetspotConfig::from_json_text(r#"{"configuration":{}}"#);
    assert!(result.is_none());
}

#[test]
fn netspot_make_toml() {
    let expected = r#"[miner]
device = "any"
promiscuous = true
snapshot_len = 65535
timeout = "0s"

[analyzer]
period = "1s"
stats = ["AVG_PKT_SIZE", "PERF", "R_ARP", "R_SYN", "TRAFFIC"]

[exporter.socket]
data = "unix:///tmp/netspot_data.socket"
alarm = "unix:///tmp/netspot_alarm.socket"
tag = "Default configuration"
format = "json"

[spot]
depth = 50
q = 0.00001
n_init = 2000
level = 0.98
up = true
down = false
alert = true
bounded = true
max_excess = 200

[spot.AVG_PKT_SIZE]
max_excess = 1

[spot.PERF]
up = false
"#;
    let config = NetspotConfig::from_json_text(DEFAULT_NETSPOT_CONFIG_JSON).unwrap();
    assert_eq!(config.make_toml("/tmp"), expected);
}

#[test]
fn test_influxdb1_config() {
    let json = r#"{
	"configuration": {
		"name": "InfluxDB test"
	},
	"influxdb1": {
		"data": true,
		"alarm": true,
		"address": "http://host.docker.internal:8086",
		"database": "database_example",
		"username": "username_example",
		"password": "password_example",
		"batch_size": 5,
		"agent_name": "agent_example"
	}
}"#;
    let config = NetspotConfig::from_json_text(json).unwrap();
    let influxdb1 = config.influxdb1.as_ref().unwrap();
    assert!(influxdb1.data);
    assert!(influxdb1.alarm);
    assert_eq!(influxdb1.address, "http://host.docker.internal:8086");
    assert_eq!(influxdb1.database, "database_example");
    assert_eq!(influxdb1.username, "username_example");
    assert_eq!(influxdb1.password, "password_example");
    assert_eq!(influxdb1.batch_size, 5);
    assert_eq!(influxdb1.agent_name, "agent_example");

    let expected = r#"[miner]
device = "any"
promiscuous = true
snapshot_len = 65535
timeout = "0s"

[analyzer]
period = "1s"
stats = []

[exporter.socket]
data = "unix:///tmp/netspot_data.socket"
alarm = "unix:///tmp/netspot_alarm.socket"
tag = "InfluxDB test"
format = "json"

[exporter.influxdb]
data = true
alarm = true
address = "http://host.docker.internal:8086"
database = "database_example"
username = "username_example"
password = "password_example"
batch_size = 5
agent_name = "agent_example"

[spot]
depth = 50
q = 0.0001
n_init = 1000
level = 0.8
up = true
down = false
alert = true
bounded = true
max_excess = 200
"#;
    assert_eq!(config.make_toml("/tmp"), expected);
}

#[test]
fn test_defaults() {
    let config = InfluxDB1Config::default();
    assert!(!config.data);
    assert!(!config.alarm);
    assert_eq!(config.address, "http://127.0.0.1:8086");
    assert_eq!(config.database, "netspot");
    assert_eq!(config.username, "netspot");
    assert_eq!(config.password, "netspot");
    assert_eq!(config.batch_size, 10);
    assert_eq!(config.agent_name, "local");
}

#[test]
fn test_serialize() {
    let config = InfluxDB1Config::default();
    let json = to_text(&config.to_json());
    let expected = r#"{"data":false,"alarm":false,"address":"http://127.0.0.1:8086","database":"netspot","username":"netspot","password":"netspot","batch_size":10,"agent_name":"local"}"#;
    assert_eq!(json, expected);
}

#[test]
fn test_deserialize() {
    let json = r#"{
	"data": true,
	"alarm": true,
	"address": "http://host.docker.internal:8086",
	"database": "database_example",
	"username": "username_example",
	"password": "password_example",
	"batch_size": 5,
	"agent_name": "agent_example"
}"#;
    let config = InfluxDB1Config::from_json(&parse_json(json).unwrap()).unwrap();
    assert!(config.data);
    assert!(config.alarm);
    assert_eq!(config.address, "http://host.docker.internal:8086");
    assert_eq!(config.database, "database_example");
    assert_eq!(config.username, "username_example");
    assert_eq!(config.password, "password_example");
    assert_eq!(config.batch_size, 5);
    assert_eq!(config.agent_name, "agent_example");
}

#[test]
fn miner_defaults() {
    let config = MinerConfig::from_json(&parse_json(r#"{"name":"test"}"#).unwrap()).unwrap();
    assert_eq!("test", config.name);
    assert_eq!("any", config.device);
    assert!(config.promiscuous);
    assert!(config.enabled);
}

#[test]
fn miner_all_config() {
    let config = MinerConfig::from_json(
        &parse_json(r#"{"name":"test","device":"eth0","promiscuous":false,"enabled": false}"#)
            .unwrap(),
    )
    .unwrap();
    assert_eq!("test", config.name);
    assert_eq!("eth0", config.device);
    assert!(!config.promiscuous);
    assert!(!config.enabled);
}

#[test]
fn missing_name() {
    let result = MinerConfig::from_json(&parse_json(r#"{"device":"eth0"}"#).unwrap());
    assert!(result.is_none());
}

#[test]
fn stats_defaults() {
    let config = StatsConfig::from_json(&parse_json(r#"{}"#).unwrap()).unwrap();
    assert_eq!(None, config.avg_pkt_size);
    assert_eq!(None, config.perf);
    assert_eq!(None, config.r_ack);
    assert_eq!(None, config.r_arp);
    assert_eq!(None, config.r_dst_src);
    assert_eq!(None, config.r_dst_src_port);
    assert_eq!(None, config.r_icmp);
    assert_eq!(None, config.r_ip);
    assert_eq!(None, config.r_syn);
    assert_eq!(None, config.traffic);
}

#[test]
fn stats_some_configs() {
    let config = StatsConfig::from_json(
        &parse_json(
            r#"{
                "perf": {
                "enabled": true,
                "depth": 1,
                "q": 2.0,
                "n_init": 3,
                "level": 4.0,
                "up": false,
                "down": true,
                "alert": false,
                "bounded": false,
                "max_excess": 5
            }
           }"#,
        )
        .unwrap(),
    )
    .unwrap();

    assert!(config.perf.is_some());
    if let Some(ref perf) = config.perf {
        assert!(perf.enabled);
        assert_eq!(Some(1), perf.depth);
        assert_eq!(Some(2.0), perf.q.as_ref().map(|t| t.parse::<f64>().unwrap()));
        assert_eq!(Some(3), perf.n_init);
        assert_eq!(Some(4.0), perf.level.as_ref().map(|t| t.parse::<f64>().unwrap()));
        assert_eq!(Some(false), perf.up);
        assert_eq!(Some(true), perf.down);
        assert_eq!(Some(false), perf.alert);
        assert_eq!(Some(false), perf.bounded);
        assert_eq!(Some(5), perf.max_excess);
    }

    assert_eq!(None, config.avg_pkt_size);
    assert_eq!(None, config.r_ack);
    assert_eq!(None, config.r_arp);
    assert_eq!(None, config.r_dst_src);
    assert_eq!(None, config.r_dst_src_port);
    assert_eq!(None, config.r_icmp);
    assert_eq!(None, config.r_ip);
    assert_eq!(None, config.r_syn);
    assert_eq!(None, config.traffic);
}

#[test]
fn empty_stats() {
    let config = StatsConfig::from_json(
        &parse_json(
            r#"{
        "avg_pkt_size":{"enabled":false},
        "perf":{"enabled":false,"q":1.0}
        }"#,
        )
        .unwrap(),
    )
    .unwrap();
    let expected = r#"[analyzer]
period = "1s"
stats = []"#;
    assert_eq!(config.make_analyzer_toml(), expected);

    let spots_toml = config.make_spots_toml();
    assert!(spots_toml.is_empty());
}

#[test]
fn full_stats() {
    let config = StatsConfig::from_json(
        &parse_json(
            r#"{
        "avg_pkt_size":{"enabled":true,"q":1.1},
        "perf":{"enabled":true,"q":1.1},
        "r_ack":{"enabled":true,"q":1.1},
        "r_arp":{"enabled":true,"q":1.1},
        "r_dst_src":{"enabled":true,"q":1.1},
        "r_dst_src_port":{"enabled":true,"q":1.1},
        "r_icmp":{"enabled":true,"q":1.1},
        "r_ip":{"enabled":true,"q":1.1},
        "r_syn":{"enabled":true,"q":1.1},
        "traffic":{"enabled":true,"q":1.1}
        }"#,
        )
        .unwrap(),
    )
    .unwrap();
    let expected = r#"[analyzer]
period = "1s"
stats = ["AVG_PKT_SIZE", "PERF", "R_ACK", "R_ARP", "R_DST_SRC", "R_DST_SRC_PORT", "R_ICMP", "R_IP", "R_SYN", "TRAFFIC"]"#;
    assert_eq!(config.make_analyzer_toml(), expected);

    let expected = r#"[spot.AVG_PKT_SIZE]
q = 1.1

[spot.PERF]
q = 1.1

[spot.R_ACK]
q = 1.1

[spot.R_ARP]
q = 1.1

[spot.R_DST_SRC]
q = 1.1

[spot.R_DST_SRC_PORT]
q = 1.1

[spot.R_ICMP]
q = 1.1

[spot.R_IP]
q = 1.1

[spot.R_SYN]
q = 1.1

[spot.TRAFFIC]
q = 1.1
"#;
    assert_eq!(config.make_spots_toml(), expected);
}

#[test]
fn spot_defaults() {
    let config = SpotConfig::from_json(&parse_json(r#"{}"#).unwrap()).unwrap();
    assert_eq!(50, config.depth);
    assert_eq!(1e-4, config.q.parse::<f64>().unwrap());
    assert_eq!(1000, config.n_init);
    assert_eq!(0.8, config.level.parse::<f64>().unwrap());
    assert!(config.up);
    assert!(!config.down);
    assert!(config.alert);
    assert!(config.bounded);
    assert_eq!(200, config.max_excess);
}

#[test]
fn alarm_message_deserialize() {
    let alarm = AlarmMessage::from_json_text(r#"{    "code": 1,    "name": "Example",    "probability": 0,    "series": "any-Oct-18-09:18:16.505",    "stat": "R_ICMP",    "status": "UP_ALERT",    "time": 1666074152545768954,    "type": "alarm",    "value": 0.5}"#)
    .unwrap();

    assert_eq!(alarm.time, 1666074152545768954);
    assert_eq!(alarm.name, "Example");
    assert_eq!(alarm.series, "any-Oct-18-09:18:16.505");
    assert_eq!(alarm.stat, Stat::RIcmp);
    assert_eq!(alarm.status, AlertStatus::UpAlert);
    assert_eq!(alarm.value.parse::<f64>().unwrap(), 0.5);
    assert_eq!(alarm.probability.parse::<f64>().unwrap(), 0.0);
    assert_eq!(alarm.code, 1);
    assert_eq!(alarm.msg_type, MessageType::Alarm);
}

#[test]
fn alarm_message_serialize() {
    let alarm = AlarmMessage {
        time: 1,
        name: "Example".to_string(),
        series: "Series".to_string(),
        stat: Stat::AvgPktSize,
        status: AlertStatus::DownAlert,
        value: "1.0".to_string(),
        probability: "0.5".to_string(),
        code: 1,
        msg_type: MessageType::Alarm,
    };
    let json = to_text(&alarm.to_json());
    let expected = r#"{"time":1,"name":"Example","series":"Series","stat":"AVG_PKT_SIZE","status":"DOWN_ALERT","value":1.0,"probability":0.5,"code":1,"type":"alarm"}"#;
    assert_eq!(json, expected);
}

#[test]
fn data_message_deserialize() {
    let text = r#"{    "AVG_PKT_SIZE": 1,    "AVG_PKT_SIZE_DOWN": 2,    "AVG_PKT_SIZE_UP": 3,    "PERF": 4,    "R_ACK": 5,    "R_ACK_DOWN": 6,    "R_ACK_UP": 7,    "R_ARP": 8,    "R_ARP_DOWN": 9,    "R_ARP_UP": 10,    "R_DST_SRC": 11,    "R_DST_SRC_DOWN": 12,    "R_DST_SRC_UP": 13,    "R_DST_SRC_PORT": 14,    "R_DST_SRC_PORT_DOWN": 15,    "R_DST_SRC_PORT_UP": 16,    "R_ICMP": 17,    "R_ICMP_DOWN": 18,    "R_ICMP_UP": 19,    "R_IP": 20,    "R_IP_DOWN": 21,    "R_IP_UP": 22,    "R_SYN": 23,    "R_SYN_DOWN": 24,    "R_SYN_UP": 25,    "TRAFFIC": 26,    "TRAFFIC_DOWN": 27,    "TRAFFIC_UP": 28,    "name": "TestName",    "series": "TestSeries",    "time": 29,    "type": "data"}"#;
    let data = netspot_control::messages::DataMessage::from_json_text(text).unwrap();
    let f = |o: &Option<String>| o.as_ref().map(|t| t.parse::<f64>().unwrap());
    assert_eq!(f(&data.avg_pkt_size), Some(1.0));
    assert_eq!(f(&data.avg_pkt_size_down), Some(2.0));
    assert_eq!(f(&data.avg_pkt_size_up), Some(3.0));
    assert_eq!(f(&data.perf), Some(4.0));
    assert!(data.perf_down.is_none());
    assert!(data.perf_up.is_none());
    assert_eq!(f(&data.r_ack), Some(5.0));
    assert_eq!(f(&data.r_ack_down), Some(6.0));
    assert_eq!(f(&data.r_ack_up), Some(7.0));
    assert_eq!(f(&data.r_arp), Some(8.0));
    assert_eq!(f(&data.r_arp_down), Some(9.0));
    assert_eq!(f(&data.r_arp_up), Some(10.0));
    assert_eq!(f(&data.r_dst_src), Some(11.0));
    assert_eq!(f(&data.r_dst_src_down), Some(12.0));
    assert_eq!(f(&data.r_dst_src_up), Some(13.0));
    assert_eq!(f(&data.r_dst_src_port), Some(14.0));
    assert_eq!(f(&data.r_dst_src_port_down), Some(15.0));
    assert_eq!(f(&data.r_dst_src_port_up), Some(16.0));
    assert_eq!(f(&data.r_icmp), Some(17.0));
    assert_eq!(f(&data.r_icmp_down), Some(18.0));
    assert_eq!(f(&data.r_icmp_up), Some(19.0));
    assert_eq!(f(&data.r_ip), Some(20.0));
    assert_eq!(f(&data.r_ip_down), Some(21.0));
    assert_eq!(f(&data.r_ip_up), Some(22.0));
    assert_eq!(f(&data.r_syn), Some(23.0));
    assert_eq!(f(&data.r_syn_down), Some(24.0));
    assert_eq!(f(&data.r_syn_up), Some(25.0));
    assert_eq!(f(&data.traffic), Some(26.0));
    assert_eq!(f(&data.traffic_down), Some(27.0));
    assert_eq!(f(&data.traffic_up), Some(28.0));
    assert_eq!(data.name, "TestName");
    assert_eq!(data.series, "TestSeries");
    assert_eq!(data.time, 29);
    assert_eq!(data.msg_type, MessageType::Data);
}

#[test]
fn message_to_json() {
    let message = Message::Alarm(Box::new(AlarmMessage {
        time: 1,
        name: "AlarmName".to_string(),
        series: "AlarmSeries".to_string(),
        stat: Stat::AvgPktSize,
        status: AlertStatus::UpAlert,
        value: "2.0".to_string(),
        probability: "3.0".to_string(),
        code: 4,
        msg_type: MessageType::Alarm,
    }));
    let json = message.to_json();
    let expected = r#"{"time":1,"name":"AlarmName","series":"AlarmSeries","stat":"AVG_PKT_SIZE","status":"UP_ALERT","value":2.0,"probability":3.0,"code":4,"type":"alarm"}"#;
    assert_eq!(json, expected);

    let message = Message::Data(Box::new(netspot_control::messages::DataMessage {
        time: 1,
        name: "DataName".to_string(),
        series: "DataSeries".to_string(),
        msg_type: MessageType::Data,
        ..Default::default()
    }));
    let json = message.to_json();
    let expected = r#"{"time":1,"name":"DataName","series":"DataSeries","type":"data"}"#;
    assert_eq!(json, expected);
}

#[test]
fn config_round_trips_through_text() {
    let config = NetspotConfig::from_json_text(DEFAULT_NETSPOT_CONFIG_JSON).unwrap();
    let text = config.to_json_text();
    let again = NetspotConfig::from_json_text(&text).unwrap();
    assert_eq!(config, again);
}

#[test]
fn test_alarm_defaults_and_synthesis() {
    let seed = TestAlarmMessage::default();
    assert_eq!(seed.name, "Test alarm");
    assert_eq!(seed.stat, Stat::RSyn);
    assert_eq!(seed.status, AlertStatus::UpAlert);
    assert_eq!(seed.value.parse::<f64>().unwrap(), 1000.0);
    assert_eq!(seed.probability.parse::<f64>().unwrap(), 0.75);

    let alarm = make_test_alarm(seed, 42);
    assert_eq!(alarm.time, 42);
    assert_eq!(alarm.name, "Test alarm");
    assert_eq!(alarm.series, "TEST ALARM");
    assert_eq!(alarm.stat, Stat::RSyn);
    assert_eq!(alarm.status, AlertStatus::UpAlert);
    assert_eq!(alarm.value.parse::<f64>().unwrap(), 1000.0);
    assert_eq!(alarm.probability.parse::<f64>().unwrap(), 0.75);
    assert_eq!(alarm.code, 1);
    assert_eq!(alarm.msg_type, MessageType::Alarm);
}

#[test]
fn socket_message_parsing() {
    let text = r#"{"time":7,"name":"n","series":"s","stat":"R_SYN","status":"UP_ALERT","value":1.5,"probability":0.25,"code":1,"type":"alarm"}"#;
    match parse_message(&SocketUse::Alarm, text) {
        Some(Message::Alarm(a)) => {
            assert_eq!(a.time, 7);
            assert_eq!(a.stat, Stat::RSyn);
        }
        _ => panic!("expected an alarm"),
    }
    // The alarm schema rejects a data snapshot and the framer skips it.
    assert!(parse_message(&SocketUse::Alarm, r#"{"time":7,"name":"n","series":"s","type":"data"}"#).is_none());
    assert!(parse_message(&SocketUse::Data, r#"{"time":7,"name":"n","series":"s","type":"data"}"#).is_some());
    assert!(parse_message(&SocketUse::Data, "not json").is_none());
}

#[test]
fn parser_accepts_escapes_and_rejects_trailing_text() {
    let v = parse_json(r#"{"a":"line\nbreak A"}"#).unwrap();
    let text = to_text(&v);
    assert_eq!(text, "{\"a\":\"line\\nbreak A\"}");
    assert!(parse_json(r#"{"a":1} trailing"#).is_none());
    assert!(parse_json(r#"{"a":01}"#).is_none());
    assert!(parse_json(r#"[1,2,3]"#).is_some());
}
