//! Probe configurations: the miner settings, the spot detector settings with
//! per-statistic overrides, the optional InfluxDB exporter settings, and the
//! whole probe configuration with its JSON codec and TOML emission.
//!
//! Numeric detector parameters that the probe reads as decimals (`q`,
//! `level`) are held as their JSON number lexeme, so the codec and the TOML
//! emission reproduce them exactly.

use crate::chars::{canonical_digits, dec_int, int_text_value, push_dec_i64};
use crate::json::{
    def_bool_field, def_int_field, def_num_field, def_str_field, distinct_keys, encode_int,
    is_json_number, jview_obj, lemma_opt_members_lookup, obj_lookup, opt_bool_field, opt_int_field,
    opt_member, opt_members, opt_num_field, req_str_field, Json, JsonV,
};
use vstd::prelude::*;

verus! {

/// The `configuration` section of a probe configuration.
#[derive(Debug, PartialEq)]
pub struct MinerConfig {
    pub name: String,
    pub device: String,
    pub promiscuous: bool,
    pub enabled: bool,
}

/// Mathematical view of [`MinerConfig`].
pub struct MinerConfigV {
    pub name: Seq<char>,
    pub device: Seq<char>,
    pub promiscuous: bool,
    pub enabled: bool,
}

impl View for MinerConfig {
    type V = MinerConfigV;

    open spec fn view(&self) -> MinerConfigV {
        MinerConfigV {
            name: self.name@,
            device: self.device@,
            promiscuous: self.promiscuous,
            enabled: self.enabled,
        }
    }
}

/// Field list of the miner section's JSON object.
pub open spec fn miner_fields(c: MinerConfigV) -> Seq<(Seq<char>, Option<JsonV>)> {
    seq![
        ("name"@, Some(JsonV::Str(c.name))),
        ("device"@, Some(JsonV::Str(c.device))),
        ("promiscuous"@, Some(JsonV::Bool(c.promiscuous))),
        ("enabled"@, Some(JsonV::Bool(c.enabled))),
    ]
}

/// JSON form of the miner section.
pub open spec fn encode_miner(c: MinerConfigV) -> JsonV {
    JsonV::Obj(opt_members(miner_fields(c)))
}

/// Decodes the miner section: `name` is required, the rest take defaults.
pub open spec fn decode_miner(j: JsonV) -> Option<MinerConfigV> {
    match j {
        JsonV::Obj(ms) => {
            match (
                req_str_field(ms, "name"@),
                def_str_field(ms, "device"@, "any"@),
                def_bool_field(ms, "promiscuous"@, true),
                def_bool_field(ms, "enabled"@, true),
            ) {
                (Some(name), Some(device), Some(promiscuous), Some(enabled)) => Some(
                    MinerConfigV { name, device, promiscuous, enabled },
                ),
                _ => None,
            }
        },
        _ => None,
    }
}

impl MinerConfig {
    /// JSON form of this section.
    pub fn to_json(&self) -> (r: Json)
        ensures
            r@ == encode_miner(self@),
    {
        let ms: Vec<(String, Json)> = vec![
            ("name".to_owned(), Json::Str(self.name.clone())),
            ("device".to_owned(), Json::Str(self.device.clone())),
            ("promiscuous".to_owned(), Json::Bool(self.promiscuous)),
            ("enabled".to_owned(), Json::Bool(self.enabled)),
        ];
        proof {
            crate::json::lemma_jview_obj(ms@, 0);
            reveal_with_fuel(opt_members, 6);
            assert(ms@.len() == 4);
            let fs = miner_fields(self@);
            assert(opt_members(fs).len() == 4);
            assert(jview_obj(ms@, 0).len() == 4);
            assert(jview_obj(ms@, 0)[0] == (ms@[0].0@, crate::json::jview(ms@[0].1)));
            assert(jview_obj(ms@, 0)[1] == (ms@[1].0@, crate::json::jview(ms@[1].1)));
            assert(jview_obj(ms@, 0)[2] == (ms@[2].0@, crate::json::jview(ms@[2].1)));
            assert(jview_obj(ms@, 0)[3] == (ms@[3].0@, crate::json::jview(ms@[3].1)));
            assert(jview_obj(ms@, 0) =~~= opt_members(miner_fields(self@)));
        }
        Json::Obj(ms)
    }

    /// Reads this section back from JSON.
    pub fn from_json(v: &Json) -> (r: Option<MinerConfig>)
        ensures
            match r {
                Some(c) => decode_miner(v@) == Some(c@),
                None => decode_miner(v@) == None::<MinerConfigV>,
            },
    {
        match v {
            Json::Obj(ms) => {
                let name = match crate::json::x_req_str(ms, "name") {
                    Some(s) => s,
                    None => {
                        return None;
                    },
                };
                let device = match crate::json::x_def_str(ms, "device", "any") {
                    Some(s) => s,
                    None => {
                        return None;
                    },
                };
                let promiscuous = match crate::json::x_def_bool(ms, "promiscuous", true) {
                    Some(b) => b,
                    None => {
                        return None;
                    },
                };
                let enabled = match crate::json::x_def_bool(ms, "enabled", true) {
                    Some(b) => b,
                    None => {
                        return None;
                    },
                };
                Some(MinerConfig { name, device, promiscuous, enabled })
            },
            _ => None,
        }
    }
}

/// A miner section decodes back from its own JSON form unchanged.
pub proof fn lemma_miner_round_trip(c: MinerConfigV)
    ensures
        decode_miner(encode_miner(c)) == Some(c),
{
    let fs = miner_fields(c);
    assert(distinct_keys(fs)) by {
        reveal_strlit("name");
        reveal_strlit("device");
        reveal_strlit("promiscuous");
        reveal_strlit("enabled");
        assert(("name"@).len() == 4);
        assert(("device"@).len() == 6);
        assert(("promiscuous"@).len() == 11);
        assert(("enabled"@).len() == 7);
    }
    lemma_opt_members_lookup(fs, 0);
    lemma_opt_members_lookup(fs, 1);
    lemma_opt_members_lookup(fs, 2);
    lemma_opt_members_lookup(fs, 3);
}

// ------------------------------------------------------------------
// Spot detector settings
// ------------------------------------------------------------------
/// The `spot` section: detector defaults for every statistic.
#[derive(Debug, PartialEq)]
pub struct SpotConfig {
    pub depth: i32,
    /// Anomaly probability threshold, as its decimal lexeme.
    pub q: String,
    pub n_init: u32,
    /// Detector level, as its decimal lexeme.
    pub level: String,
    pub up: bool,
    pub down: bool,
    pub alert: bool,
    pub bounded: bool,
    pub max_excess: u32,
}

/// Mathematical view of [`SpotConfig`].
#[verifier::ext_equal]
pub struct SpotConfigV {
    pub depth: i32,
    pub q: Seq<char>,
    pub n_init: u32,
    pub level: Seq<char>,
    pub up: bool,
    pub down: bool,
    pub alert: bool,
    pub bounded: bool,
    pub max_excess: u32,
}

impl View for SpotConfig {
    type V = SpotConfigV;

    open spec fn view(&self) -> SpotConfigV {
        SpotConfigV {
            depth: self.depth,
            q: self.q@,
            n_init: self.n_init,
            level: self.level@,
            up: self.up,
            down: self.down,
            alert: self.alert,
            bounded: self.bounded,
            max_excess: self.max_excess,
        }
    }
}

impl SpotConfigV {
    /// The decimal lexemes are well-formed JSON numbers.
    pub open spec fn wf(self) -> bool {
        is_json_number(self.q) && is_json_number(self.level)
    }
}

/// The spot defaults used when a section or field is absent.
pub open spec fn spot_defaults() -> SpotConfigV {
    SpotConfigV {
        depth: 50,
        q: "0.0001"@,
        n_init: 1000,
        level: "0.8"@,
        up: true,
        down: false,
        alert: true,
        bounded: true,
        max_excess: 200,
    }
}

pub fn spot_default_depth() -> (r: i32)
    ensures
        r == spot_defaults().depth,
{
    50
}

pub fn spot_default_q() -> (r: String)
    ensures
        r@ == spot_defaults().q,
{
    "0.0001".to_owned()
}

pub fn spot_default_n_init() -> (r: u32)
    ensures
        r == spot_defaults().n_init,
{
    1000
}

pub fn spot_default_level() -> (r: String)
    ensures
        r@ == spot_defaults().level,
{
    "0.8".to_owned()
}

pub fn spot_default_up() -> (r: bool)
    ensures
        r == spot_defaults().up,
{
    true
}

pub fn spot_default_down() -> (r: bool)
    ensures
        r == spot_defaults().down,
{
    false
}

pub fn spot_default_alert() -> (r: bool)
    ensures
        r == spot_defaults().alert,
{
    true
}

pub fn spot_default_bounded() -> (r: bool)
    ensures
        r == spot_defaults().bounded,
{
    true
}

pub fn spot_default_max_excess() -> (r: u32)
    ensures
        r == spot_defaults().max_excess,
{
    200
}

impl Default for SpotConfig {
    /// The documented spot defaults.
    fn default() -> (r: SpotConfig)
        ensures
            r@ == spot_defaults(),
    {
        SpotConfig {
            depth: spot_default_depth(),
            q: spot_default_q(),
            n_init: spot_default_n_init(),
            level: spot_default_level(),
            up: spot_default_up(),
            down: spot_default_down(),
            alert: spot_default_alert(),
            bounded: spot_default_bounded(),
            max_excess: spot_default_max_excess(),
        }
    }
}

/// Field list of the spot section's JSON object.
pub open spec fn spot_fields(c: SpotConfigV) -> Seq<(Seq<char>, Option<JsonV>)> {
    seq![
        ("depth"@, Some(encode_int(c.depth as int))),
        ("q"@, Some(JsonV::Num(c.q))),
        ("n_init"@, Some(encode_int(c.n_init as int))),
        ("level"@, Some(JsonV::Num(c.level))),
        ("up"@, Some(JsonV::Bool(c.up))),
        ("down"@, Some(JsonV::Bool(c.down))),
        ("alert"@, Some(JsonV::Bool(c.alert))),
        ("bounded"@, Some(JsonV::Bool(c.bounded))),
        ("max_excess"@, Some(encode_int(c.max_excess as int))),
    ]
}

/// JSON form of the spot section.
pub open spec fn encode_spot(c: SpotConfigV) -> JsonV {
    JsonV::Obj(opt_members(spot_fields(c)))
}

/// Decodes the spot section; every absent field takes its default.
pub open spec fn decode_spot(j: JsonV) -> Option<SpotConfigV> {
    match j {
        JsonV::Obj(ms) => {
            let depth = def_int_field(ms, "depth"@, i32::MIN as int, i32::MAX as int, 50);
            let q = def_num_field(ms, "q"@, "0.0001"@);
            let n_init = def_int_field(ms, "n_init"@, 0, u32::MAX as int, 1000);
            let level = def_num_field(ms, "level"@, "0.8"@);
            let up = def_bool_field(ms, "up"@, true);
            let down = def_bool_field(ms, "down"@, false);
            let alert = def_bool_field(ms, "alert"@, true);
            let bounded = def_bool_field(ms, "bounded"@, true);
            let max_excess = def_int_field(ms, "max_excess"@, 0, u32::MAX as int, 200);
            if depth is Some && q is Some && n_init is Some && level is Some && up is Some && down
                is Some && alert is Some && bounded is Some && max_excess is Some {
                Some(
                    SpotConfigV {
                        depth: depth.unwrap() as i32,
                        q: q.unwrap(),
                        n_init: n_init.unwrap() as u32,
                        level: level.unwrap(),
                        up: up.unwrap(),
                        down: down.unwrap(),
                        alert: alert.unwrap(),
                        bounded: bounded.unwrap(),
                        max_excess: max_excess.unwrap() as u32,
                    },
                )
            } else {
                None
            }
        },
        _ => None,
    }
}

impl SpotConfig {
    /// JSON form of this section.
    #[verifier::rlimit(100)]
    #[verifier::spinoff_prover]
    pub fn to_json(&self) -> (r: Json)
        requires
            self@.wf(),
        ensures
            r@ == encode_spot(self@),
    {
        let ghost fs = spot_fields(self@);
        let mut ms: Vec<(String, Json)> = Vec::new();
        proof {
            assert(jview_obj(ms@, 0) =~= opt_members(fs.take(0)));
        }
        crate::json::push_opt_member(&mut ms, "depth", Some(crate::json::x_encode_int(self.depth as i64)));
        proof {
            crate::json::lemma_opt_members_snoc(fs, 0);
            assert(jview_obj(ms@, 0) == opt_members(fs.take(1)));
        }
        crate::json::push_opt_member(&mut ms, "q", Some(Json::Num(self.q.clone())));
        proof {
            crate::json::lemma_opt_members_snoc(fs, 1);
            assert(jview_obj(ms@, 0) == opt_members(fs.take(2)));
        }
        crate::json::push_opt_member(&mut ms, "n_init", Some(crate::json::x_encode_int(self.n_init as i64)));
        proof {
            crate::json::lemma_opt_members_snoc(fs, 2);
            assert(jview_obj(ms@, 0) == opt_members(fs.take(3)));
        }
        crate::json::push_opt_member(&mut ms, "level", Some(Json::Num(self.level.clone())));
        proof {
            crate::json::lemma_opt_members_snoc(fs, 3);
            assert(jview_obj(ms@, 0) == opt_members(fs.take(4)));
        }
        crate::json::push_opt_member(&mut ms, "up", Some(Json::Bool(self.up)));
        proof {
            crate::json::lemma_opt_members_snoc(fs, 4);
            assert(jview_obj(ms@, 0) == opt_members(fs.take(5)));
        }
        crate::json::push_opt_member(&mut ms, "down", Some(Json::Bool(self.down)));
        proof {
            crate::json::lemma_opt_members_snoc(fs, 5);
            assert(jview_obj(ms@, 0) == opt_members(fs.take(6)));
        }
        crate::json::push_opt_member(&mut ms, "alert", Some(Json::Bool(self.alert)));
        proof {
            crate::json::lemma_opt_members_snoc(fs, 6);
            assert(jview_obj(ms@, 0) == opt_members(fs.take(7)));
        }
        crate::json::push_opt_member(&mut ms, "bounded", Some(Json::Bool(self.bounded)));
        proof {
            crate::json::lemma_opt_members_snoc(fs, 7);
            assert(jview_obj(ms@, 0) == opt_members(fs.take(8)));
        }
        crate::json::push_opt_member(&mut ms, "max_excess", Some(crate::json::x_encode_int(self.max_excess as i64)));
        proof {
            crate::json::lemma_opt_members_snoc(fs, 8);
            assert(jview_obj(ms@, 0) == opt_members(fs.take(9)));
            assert(fs.take(9) =~= fs);
        }
        Json::Obj(ms)
    }

    /// Reads this section back from JSON.
    pub fn from_json(v: &Json) -> (r: Option<SpotConfig>)
        ensures
            match r {
                Some(c) => decode_spot(v@) == Some(c@) && c@.wf(),
                None => decode_spot(v@) == None::<SpotConfigV>,
            },
    {
        match v {
            Json::Obj(ms) => {
                let depth = match crate::json::x_def_int(ms, "depth", i32::MIN as i64, i32::MAX as i64, 50) {
                    Some(n) => n as i32,
                    None => {
                        return None;
                    },
                };
                let q = match crate::json::x_def_num(ms, "q", "0.0001") {
                    Some(t) => t,
                    None => {
                        return None;
                    },
                };
                let n_init = match crate::json::x_def_int(ms, "n_init", 0, u32::MAX as i64, 1000) {
                    Some(n) => n as u32,
                    None => {
                        return None;
                    },
                };
                let level = match crate::json::x_def_num(ms, "level", "0.8") {
                    Some(t) => t,
                    None => {
                        return None;
                    },
                };
                let up = match crate::json::x_def_bool(ms, "up", true) {
                    Some(b) => b,
                    None => {
                        return None;
                    },
                };
                let down = match crate::json::x_def_bool(ms, "down", false) {
                    Some(b) => b,
                    None => {
                        return None;
                    },
                };
                let alert = match crate::json::x_def_bool(ms, "alert", true) {
                    Some(b) => b,
                    None => {
                        return None;
                    },
                };
                let bounded = match crate::json::x_def_bool(ms, "bounded", true) {
                    Some(b) => b,
                    None => {
                        return None;
                    },
                };
                let max_excess = match crate::json::x_def_int(ms, "max_excess", 0, u32::MAX as i64, 200) {
                    Some(n) => n as u32,
                    None => {
                        return None;
                    },
                };
                proof {
                    reveal_strlit("0.0001");
                    reveal_strlit("0.8");
                    lemma_default_lexemes_wf();
                }
                Some(SpotConfig { depth, q, n_init, level, up, down, alert, bounded, max_excess })
            },
            _ => None,
        }
    }
}

/// The two default decimal lexemes are well-formed JSON numbers.
pub proof fn lemma_default_lexemes_wf()
    ensures
        is_json_number("0.0001"@),
        is_json_number("0.8"@),
        spot_defaults().wf(),
{
    reveal_strlit("0.0001");
    reveal_strlit("0.8");
    let a = "0.0001"@;
    assert(crate::json::int_part_end(a) == Some(1int));
    assert(crate::json::digits_end(a, 2) == 6) by {
        reveal_with_fuel(crate::json::digits_end, 7);
    }
    assert(crate::json::frac_part_end(a, 1) == Some(6int));
    assert(crate::json::exp_part_end(a, 6) == Some(6int));
    let b = "0.8"@;
    assert(crate::json::int_part_end(b) == Some(1int));
    assert(crate::json::digits_end(b, 2) == 3) by {
        reveal_with_fuel(crate::json::digits_end, 3);
    }
    assert(crate::json::frac_part_end(b, 1) == Some(3int));
    assert(crate::json::exp_part_end(b, 3) == Some(3int));
}

/// A spot section decodes back from its own JSON form unchanged.
pub proof fn lemma_spot_round_trip(c: SpotConfigV)
    requires
        c.wf(),
    ensures
        decode_spot(encode_spot(c)) == Some(c),
{
    let fs = spot_fields(c);
    assert(distinct_keys(fs)) by {
        reveal_strlit("depth");
        reveal_strlit("q");
        reveal_strlit("n_init");
        reveal_strlit("level");
        reveal_strlit("up");
        reveal_strlit("down");
        reveal_strlit("alert");
        reveal_strlit("bounded");
        reveal_strlit("max_excess");
        assert(("depth"@).len() == 5);
        assert(("q"@).len() == 1);
        assert(("n_init"@).len() == 6);
        assert(("level"@).len() == 5);
        assert(("up"@).len() == 2);
        assert(("down"@).len() == 4);
        assert(("alert"@).len() == 5);
        assert(("bounded"@).len() == 7);
        assert(("max_excess"@).len() == 10);
        assert(("depth"@)[0] != ("level"@)[0]);
        assert(("depth"@)[0] != ("alert"@)[0]);
        assert(("level"@)[0] != ("alert"@)[0]);
    }
    lemma_opt_members_lookup(fs, 0);
    lemma_opt_members_lookup(fs, 1);
    lemma_opt_members_lookup(fs, 2);
    lemma_opt_members_lookup(fs, 3);
    lemma_opt_members_lookup(fs, 4);
    lemma_opt_members_lookup(fs, 5);
    lemma_opt_members_lookup(fs, 6);
    lemma_opt_members_lookup(fs, 7);
    lemma_opt_members_lookup(fs, 8);
    crate::chars::lemma_dec_int_round_trip(c.depth as int);
    crate::chars::lemma_dec_int_round_trip(c.n_init as int);
    crate::chars::lemma_dec_int_round_trip(c.max_excess as int);
    assert(decode_spot(encode_spot(c)) == Some(c));
}

// ------------------------------------------------------------------
// Per-statistic overrides
// ------------------------------------------------------------------
/// Detector overrides for one statistic; only set fields reach the probe.
#[derive(Debug, PartialEq)]
pub struct StatConfig {
    pub enabled: bool,
    pub depth: Option<i32>,
    pub q: Option<String>,
    pub n_init: Option<u32>,
    pub level: Option<String>,
    pub up: Option<bool>,
    pub down: Option<bool>,
    pub alert: Option<bool>,
    pub bounded: Option<bool>,
    pub max_excess: Option<u32>,
}

/// Mathematical view of [`StatConfig`].
#[verifier::ext_equal]
pub struct StatConfigV {
    pub enabled: bool,
    pub depth: Option<i32>,
    pub q: Option<Seq<char>>,
    pub n_init: Option<u32>,
    pub level: Option<Seq<char>>,
    pub up: Option<bool>,
    pub down: Option<bool>,
    pub alert: Option<bool>,
    pub bounded: Option<bool>,
    pub max_excess: Option<u32>,
}

impl View for StatConfig {
    type V = StatConfigV;

    open spec fn view(&self) -> StatConfigV {
        StatConfigV {
            enabled: self.enabled,
            depth: self.depth,
            q: match self.q {
                Some(t) => Some(t@),
                None => None,
            },
            n_init: self.n_init,
            level: match self.level {
                Some(t) => Some(t@),
                None => None,
            },
            up: self.up,
            down: self.down,
            alert: self.alert,
            bounded: self.bounded,
            max_excess: self.max_excess,
        }
    }
}

impl StatConfigV {
    /// Present decimal lexemes are well-formed JSON numbers.
    pub open spec fn wf(self) -> bool {
        &&& (self.q is Some ==> is_json_number(self.q.unwrap()))
        &&& (self.level is Some ==> is_json_number(self.level.unwrap()))
    }
}

/// The override set with nothing set.
pub open spec fn stat_config_default() -> StatConfigV {
    StatConfigV {
        enabled: false,
        depth: None,
        q: None,
        n_init: None,
        level: None,
        up: None,
        down: None,
        alert: None,
        bounded: None,
        max_excess: None,
    }
}

impl Default for StatConfig {
    /// No overrides: the statistic is disabled and sets nothing.
    fn default() -> (r: StatConfig)
        ensures
            r@ == stat_config_default(),
    {
        StatConfig {
            enabled: false,
            depth: None,
            q: None,
            n_init: None,
            level: None,
            up: None,
            down: None,
            alert: None,
            bounded: None,
            max_excess: None,
        }
    }
}

/// Field list of one statistic's JSON object: `enabled` always, the rest only
/// when set.
pub open spec fn stat_fields(c: StatConfigV) -> Seq<(Seq<char>, Option<JsonV>)> {
    seq![
        ("enabled"@, Some(JsonV::Bool(c.enabled))),
        ("depth"@, crate::json::jv_opt_i32(c.depth)),
        ("q"@, crate::json::jv_opt_num(c.q)),
        ("n_init"@, crate::json::jv_opt_u32(c.n_init)),
        ("level"@, crate::json::jv_opt_num(c.level)),
        ("up"@, crate::json::jv_opt_bool(c.up)),
        ("down"@, crate::json::jv_opt_bool(c.down)),
        ("alert"@, crate::json::jv_opt_bool(c.alert)),
        ("bounded"@, crate::json::jv_opt_bool(c.bounded)),
        ("max_excess"@, crate::json::jv_opt_u32(c.max_excess)),
    ]
}

/// JSON form of one statistic's overrides.
pub open spec fn encode_stat(c: StatConfigV) -> JsonV {
    JsonV::Obj(opt_members(stat_fields(c)))
}

/// Decodes one statistic's overrides.
pub open spec fn decode_stat(j: JsonV) -> Option<StatConfigV> {
    match j {
        JsonV::Obj(ms) => {
            let enabled = def_bool_field(ms, "enabled"@, false);
            let depth = opt_int_field(ms, "depth"@, i32::MIN as int, i32::MAX as int);
            let q = opt_num_field(ms, "q"@);
            let n_init = opt_int_field(ms, "n_init"@, 0, u32::MAX as int);
            let level = opt_num_field(ms, "level"@);
            let up = opt_bool_field(ms, "up"@);
            let down = opt_bool_field(ms, "down"@);
            let alert = opt_bool_field(ms, "alert"@);
            let bounded = opt_bool_field(ms, "bounded"@);
            let max_excess = opt_int_field(ms, "max_excess"@, 0, u32::MAX as int);
            if enabled is Some && depth is Some && q is Some && n_init is Some && level is Some
                && up is Some && down is Some && alert is Some && bounded is Some && max_excess
                is Some {
                Some(
                    StatConfigV {
                        enabled: enabled.unwrap(),
                        depth: match depth.unwrap() {
                            Some(n) => Some(n as i32),
                            None => None,
                        },
                        q: q.unwrap(),
                        n_init: match n_init.unwrap() {
                            Some(n) => Some(n as u32),
                            None => None,
                        },
                        level: level.unwrap(),
                        up: up.unwrap(),
                        down: down.unwrap(),
                        alert: alert.unwrap(),
                        bounded: bounded.unwrap(),
                        max_excess: match max_excess.unwrap() {
                            Some(n) => Some(n as u32),
                            None => None,
                        },
                    },
                )
            } else {
                None
            }
        },
        _ => None,
    }
}

impl StatConfig {
    /// JSON form of these overrides.
    #[verifier::rlimit(100)]
    #[verifier::spinoff_prover]
    pub fn to_json(&self) -> (r: Json)
        requires
            self@.wf(),
        ensures
            r@ == encode_stat(self@),
    {
        let ghost fs = stat_fields(self@);
        let mut ms: Vec<(String, Json)> = Vec::new();
        proof {
            assert(jview_obj(ms@, 0) =~= opt_members(fs.take(0)));
        }
        crate::json::push_opt_member(&mut ms, "enabled", Some(Json::Bool(self.enabled)));
        proof {
            crate::json::lemma_opt_members_snoc(fs, 0);
            assert(jview_obj(ms@, 0) == opt_members(fs.take(1)));
        }
        let depth_v: Option<Json> = match self.depth {
            Some(d) => Some(crate::json::x_encode_int(d as i64)),
            None => None,
        };
        crate::json::push_opt_member(&mut ms, "depth", depth_v);
        proof {
            crate::json::lemma_opt_members_snoc(fs, 1);
            assert(jview_obj(ms@, 0) == opt_members(fs.take(2)));
        }
        let q_v: Option<Json> = match &self.q {
            Some(t) => Some(Json::Num(t.clone())),
            None => None,
        };
        crate::json::push_opt_member(&mut ms, "q", q_v);
        proof {
            crate::json::lemma_opt_members_snoc(fs, 2);
            assert(jview_obj(ms@, 0) == opt_members(fs.take(3)));
        }
        let n_init_v: Option<Json> = match self.n_init {
            Some(d) => Some(crate::json::x_encode_int(d as i64)),
            None => None,
        };
        crate::json::push_opt_member(&mut ms, "n_init", n_init_v);
        proof {
            crate::json::lemma_opt_members_snoc(fs, 3);
            assert(jview_obj(ms@, 0) == opt_members(fs.take(4)));
        }
        let level_v: Option<Json> = match &self.level {
            Some(t) => Some(Json::Num(t.clone())),
            None => None,
        };
        crate::json::push_opt_member(&mut ms, "level", level_v);
        proof {
            crate::json::lemma_opt_members_snoc(fs, 4);
            assert(jview_obj(ms@, 0) == opt_members(fs.take(5)));
        }
        let up_v: Option<Json> = match self.up {
            Some(b) => Some(Json::Bool(b)),
            None => None,
        };
        crate::json::push_opt_member(&mut ms, "up", up_v);
        proof {
            crate::json::lemma_opt_members_snoc(fs, 5);
            assert(jview_obj(ms@, 0) == opt_members(fs.take(6)));
        }
        let down_v: Option<Json> = match self.down {
            Some(b) => Some(Json::Bool(b)),
            None => None,
        };
        crate::json::push_opt_member(&mut ms, "down", down_v);
        proof {
            crate::json::lemma_opt_members_snoc(fs, 6);
            assert(jview_obj(ms@, 0) == opt_members(fs.take(7)));
        }
        let alert_v: Option<Json> = match self.alert {
            Some(b) => Some(Json::Bool(b)),
            None => None,
        };
        crate::json::push_opt_member(&mut ms, "alert", alert_v);
        proof {
            crate::json::lemma_opt_members_snoc(fs, 7);
            assert(jview_obj(ms@, 0) == opt_members(fs.take(8)));
        }
        let bounded_v: Option<Json> = match self.bounded {
            Some(b) => Some(Json::Bool(b)),
            None => None,
        };
        crate::json::push_opt_member(&mut ms, "bounded", bounded_v);
        proof {
            crate::json::lemma_opt_members_snoc(fs, 8);
            assert(jview_obj(ms@, 0) == opt_members(fs.take(9)));
        }
        let max_excess_v: Option<Json> = match self.max_excess {
            Some(d) => Some(crate::json::x_encode_int(d as i64)),
            None => None,
        };
        crate::json::push_opt_member(&mut ms, "max_excess", max_excess_v);
        proof {
            crate::json::lemma_opt_members_snoc(fs, 9);
            assert(jview_obj(ms@, 0) == opt_members(fs.take(10)));
            assert(fs.take(10) =~= fs);
        }
        Json::Obj(ms)
    }

    /// Reads these overrides back from JSON.
    pub fn from_json(v: &Json) -> (r: Option<StatConfig>)
        ensures
            match r {
                Some(c) => decode_stat(v@) == Some(c@) && c@.wf(),
                None => decode_stat(v@) == None::<StatConfigV>,
            },
    {
        match v {
            Json::Obj(ms) => {
                let enabled = match crate::json::x_def_bool(ms, "enabled", false) {
                    Some(b) => b,
                    None => {
                        return None;
                    },
                };
                let depth = match crate::json::x_opt_int(ms, "depth", i32::MIN as i64, i32::MAX as i64) {
                    Some(o) => match o {
                        Some(n) => Some(n as i32),
                        None => None,
                    },
                    None => {
                        return None;
                    },
                };
                let q = match crate::json::x_opt_num(ms, "q") {
                    Some(o) => o,
                    None => {
                        return None;
                    },
                };
                let n_init = match crate::json::x_opt_int(ms, "n_init", 0, u32::MAX as i64) {
                    Some(o) => match o {
                        Some(n) => Some(n as u32),
                        None => None,
                    },
                    None => {
                        return None;
                    },
                };
                let level = match crate::json::x_opt_num(ms, "level") {
                    Some(o) => o,
                    None => {
                        return None;
                    },
                };
                let up = match crate::json::x_opt_bool(ms, "up") {
                    Some(o) => o,
                    None => {
                        return None;
                    },
                };
                let down = match crate::json::x_opt_bool(ms, "down") {
                    Some(o) => o,
                    None => {
                        return None;
                    },
                };
                let alert = match crate::json::x_opt_bool(ms, "alert") {
                    Some(o) => o,
                    None => {
                        return None;
                    },
                };
                let bounded = match crate::json::x_opt_bool(ms, "bounded") {
                    Some(o) => o,
                    None => {
                        return None;
                    },
                };
                let max_excess = match crate::json::x_opt_int(ms, "max_excess", 0, u32::MAX as i64) {
                    Some(o) => match o {
                        Some(n) => Some(n as u32),
                        None => None,
                    },
                    None => {
                        return None;
                    },
                };
                Some(
                    StatConfig {
                        enabled,
                        depth,
                        q,
                        n_init,
                        level,
                        up,
                        down,
                        alert,
                        bounded,
                        max_excess,
                    },
                )
            },
            _ => None,
        }
    }
}

/// One statistic's overrides decode back from their own JSON form unchanged.
pub proof fn lemma_stat_round_trip(c: StatConfigV)
    requires
        c.wf(),
    ensures
        decode_stat(encode_stat(c)) == Some(c),
{
    let fs = stat_fields(c);
    assert(distinct_keys(fs)) by {
        reveal_strlit("enabled");
        reveal_strlit("depth");
        reveal_strlit("q");
        reveal_strlit("n_init");
        reveal_strlit("level");
        reveal_strlit("up");
        reveal_strlit("down");
        reveal_strlit("alert");
        reveal_strlit("bounded");
        reveal_strlit("max_excess");
        assert(("enabled"@).len() == 7);
        assert(("depth"@).len() == 5);
        assert(("q"@).len() == 1);
        assert(("n_init"@).len() == 6);
        assert(("level"@).len() == 5);
        assert(("up"@).len() == 2);
        assert(("down"@).len() == 4);
        assert(("alert"@).len() == 5);
        assert(("bounded"@).len() == 7);
        assert(("max_excess"@).len() == 10);
        assert(("enabled"@)[0] != ("bounded"@)[0]);
        assert(("depth"@)[0] != ("level"@)[0]);
        assert(("depth"@)[0] != ("alert"@)[0]);
        assert(("level"@)[0] != ("alert"@)[0]);
    }
    lemma_opt_members_lookup(fs, 0);
    lemma_opt_members_lookup(fs, 1);
    lemma_opt_members_lookup(fs, 2);
    lemma_opt_members_lookup(fs, 3);
    lemma_opt_members_lookup(fs, 4);
    lemma_opt_members_lookup(fs, 5);
    lemma_opt_members_lookup(fs, 6);
    lemma_opt_members_lookup(fs, 7);
    lemma_opt_members_lookup(fs, 8);
    lemma_opt_members_lookup(fs, 9);
    match c.depth {
        Some(d) => crate::chars::lemma_dec_int_round_trip(d as int),
        None => {},
    }
    match c.n_init {
        Some(d) => crate::chars::lemma_dec_int_round_trip(d as int),
        None => {},
    }
    match c.max_excess {
        Some(d) => crate::chars::lemma_dec_int_round_trip(d as int),
        None => {},
    }
    assert(decode_stat(encode_stat(c)) == Some(c));
}

// ------------------------------------------------------------------
// The statistics table
// ------------------------------------------------------------------
/// The `stats` section: optional overrides for each known statistic.
#[derive(Debug, PartialEq)]
pub struct StatsConfig {
    pub avg_pkt_size: Option<StatConfig>,
    pub perf: Option<StatConfig>,
    pub r_ack: Option<StatConfig>,
    pub r_arp: Option<StatConfig>,
    pub r_dst_src: Option<StatConfig>,
    pub r_dst_src_port: Option<StatConfig>,
    pub r_icmp: Option<StatConfig>,
    pub r_ip: Option<StatConfig>,
    pub r_syn: Option<StatConfig>,
    pub traffic: Option<StatConfig>,
}

/// Mathematical view of [`StatsConfig`].
#[verifier::ext_equal]
pub struct StatsConfigV {
    pub avg_pkt_size: Option<StatConfigV>,
    pub perf: Option<StatConfigV>,
    pub r_ack: Option<StatConfigV>,
    pub r_arp: Option<StatConfigV>,
    pub r_dst_src: Option<StatConfigV>,
    pub r_dst_src_port: Option<StatConfigV>,
    pub r_icmp: Option<StatConfigV>,
    pub r_ip: Option<StatConfigV>,
    pub r_syn: Option<StatConfigV>,
    pub traffic: Option<StatConfigV>,
}

/// View of one optional override.
pub open spec fn opt_stat_view(o: Option<StatConfig>) -> Option<StatConfigV> {
    match o {
        Some(s) => Some(s@),
        None => None,
    }
}

impl View for StatsConfig {
    type V = StatsConfigV;

    open spec fn view(&self) -> StatsConfigV {
        StatsConfigV {
            avg_pkt_size: opt_stat_view(self.avg_pkt_size),
            perf: opt_stat_view(self.perf),
            r_ack: opt_stat_view(self.r_ack),
            r_arp: opt_stat_view(self.r_arp),
            r_dst_src: opt_stat_view(self.r_dst_src),
            r_dst_src_port: opt_stat_view(self.r_dst_src_port),
            r_icmp: opt_stat_view(self.r_icmp),
            r_ip: opt_stat_view(self.r_ip),
            r_syn: opt_stat_view(self.r_syn),
            traffic: opt_stat_view(self.traffic),
        }
    }
}

/// Well-formedness of one optional override.
pub open spec fn opt_stat_wf(o: Option<StatConfigV>) -> bool {
    match o {
        Some(s) => s.wf(),
        None => true,
    }
}

impl StatsConfigV {
    /// Every present override is well-formed.
    pub open spec fn wf(self) -> bool {
        &&& opt_stat_wf(self.avg_pkt_size)
        &&& opt_stat_wf(self.perf)
        &&& opt_stat_wf(self.r_ack)
        &&& opt_stat_wf(self.r_arp)
        &&& opt_stat_wf(self.r_dst_src)
        &&& opt_stat_wf(self.r_dst_src_port)
        &&& opt_stat_wf(self.r_icmp)
        &&& opt_stat_wf(self.r_ip)
        &&& opt_stat_wf(self.r_syn)
        &&& opt_stat_wf(self.traffic)
    }
}

/// The stats section with no overrides at all.
pub open spec fn stats_defaults() -> StatsConfigV {
    StatsConfigV {
        avg_pkt_size: None,
        perf: None,
        r_ack: None,
        r_arp: None,
        r_dst_src: None,
        r_dst_src_port: None,
        r_icmp: None,
        r_ip: None,
        r_syn: None,
        traffic: None,
    }
}

impl Default for StatsConfig {
    /// No overrides for any statistic.
    fn default() -> (r: StatsConfig)
        ensures
            r@ == stats_defaults(),
    {
        StatsConfig {
            avg_pkt_size: None,
            perf: None,
            r_ack: None,
            r_arp: None,
            r_dst_src: None,
            r_dst_src_port: None,
            r_icmp: None,
            r_ip: None,
            r_syn: None,
            traffic: None,
        }
    }
}

/// Optional member value for an optional override.
pub open spec fn jv_opt_stat(o: Option<StatConfigV>) -> Option<JsonV> {
    match o {
        Some(s) => Some(encode_stat(s)),
        None => None,
    }
}

/// Field list of the stats section's JSON object.
pub open spec fn stats_fields(c: StatsConfigV) -> Seq<(Seq<char>, Option<JsonV>)> {
    seq![
        ("avg_pkt_size"@, jv_opt_stat(c.avg_pkt_size)),
        ("perf"@, jv_opt_stat(c.perf)),
        ("r_ack"@, jv_opt_stat(c.r_ack)),
        ("r_arp"@, jv_opt_stat(c.r_arp)),
        ("r_dst_src"@, jv_opt_stat(c.r_dst_src)),
        ("r_dst_src_port"@, jv_opt_stat(c.r_dst_src_port)),
        ("r_icmp"@, jv_opt_stat(c.r_icmp)),
        ("r_ip"@, jv_opt_stat(c.r_ip)),
        ("r_syn"@, jv_opt_stat(c.r_syn)),
        ("traffic"@, jv_opt_stat(c.traffic)),
    ]
}

/// JSON form of the stats section.
pub open spec fn encode_stats(c: StatsConfigV) -> JsonV {
    JsonV::Obj(opt_members(stats_fields(c)))
}

/// The known statistic identifiers, as the stats section's keys.
pub open spec fn is_stat_key(k: Seq<char>) -> bool {
    ||| k == "avg_pkt_size"@
    ||| k == "perf"@
    ||| k == "r_ack"@
    ||| k == "r_arp"@
    ||| k == "r_dst_src"@
    ||| k == "r_dst_src_port"@
    ||| k == "r_icmp"@
    ||| k == "r_ip"@
    ||| k == "r_syn"@
    ||| k == "traffic"@
}

/// Unknown statistics are rejected: every key must be a known identifier.
pub open spec fn stats_keys_known(ms: Seq<(Seq<char>, JsonV)>) -> bool {
    forall|i: int| 0 <= i < ms.len() ==> is_stat_key((#[trigger] ms[i]).0)
}

/// Reads one optional override member.
pub open spec fn opt_stat_field(ms: Seq<(Seq<char>, JsonV)>, key: Seq<char>) -> Option<
    Option<StatConfigV>,
> {
    match obj_lookup(ms, key) {
        None => Some(None),
        Some(JsonV::Null) => Some(None),
        Some(j) => match decode_stat(j) {
            Some(s) => Some(Some(s)),
            None => None,
        },
    }
}

/// Decodes the stats section; a message with an unknown statistic is
/// rejected.
pub open spec fn decode_stats(j: JsonV) -> Option<StatsConfigV> {
    match j {
        JsonV::Obj(ms) => {
            if !stats_keys_known(ms) {
                None
            } else {
                let avg_pkt_size = opt_stat_field(ms, "avg_pkt_size"@);
                let perf = opt_stat_field(ms, "perf"@);
                let r_ack = opt_stat_field(ms, "r_ack"@);
                let r_arp = opt_stat_field(ms, "r_arp"@);
                let r_dst_src = opt_stat_field(ms, "r_dst_src"@);
                let r_dst_src_port = opt_stat_field(ms, "r_dst_src_port"@);
                let r_icmp = opt_stat_field(ms, "r_icmp"@);
                let r_ip = opt_stat_field(ms, "r_ip"@);
                let r_syn = opt_stat_field(ms, "r_syn"@);
                let traffic = opt_stat_field(ms, "traffic"@);
                if avg_pkt_size is Some && perf is Some && r_ack is Some && r_arp is Some
                    && r_dst_src is Some && r_dst_src_port is Some && r_icmp is Some && r_ip
                    is Some && r_syn is Some && traffic is Some {
                    Some(
                        StatsConfigV {
                            avg_pkt_size: avg_pkt_size.unwrap(),
                            perf: perf.unwrap(),
                            r_ack: r_ack.unwrap(),
                            r_arp: r_arp.unwrap(),
                            r_dst_src: r_dst_src.unwrap(),
                            r_dst_src_port: r_dst_src_port.unwrap(),
                            r_icmp: r_icmp.unwrap(),
                            r_ip: r_ip.unwrap(),
                            r_syn: r_syn.unwrap(),
                            traffic: traffic.unwrap(),
                        },
                    )
                } else {
                    None
                }
            }
        },
        _ => None,
    }
}

/// Builds the optional member for one override.
fn stat_member(o: &Option<StatConfig>) -> (r: Option<Json>)
    requires
        opt_stat_wf(opt_stat_view(*o)),
    ensures
        crate::json::opt_jview(r) == jv_opt_stat(opt_stat_view(*o)),
{
    match o {
        Some(s) => Some(s.to_json()),
        None => None,
    }
}

/// Reads one optional override member.
fn x_opt_stat(ms: &Vec<(String, Json)>, key: &str) -> (r: Option<Option<StatConfig>>)
    ensures
        match r {
            Some(o) => opt_stat_field(jview_obj(ms@, 0), key@) == Some(opt_stat_view(o))
                && opt_stat_wf(opt_stat_view(o)),
            None => opt_stat_field(jview_obj(ms@, 0), key@) == None::<Option<StatConfigV>>,
        },
{
    match crate::json::obj_get(ms, key) {
        None => Some(None),
        Some(v) => match v {
            Json::Null => Some(None),
            _ => match StatConfig::from_json(v) {
                Some(s) => Some(Some(s)),
                None => None,
            },
        },
    }
}

impl StatsConfig {
    /// JSON form of this section: only present overrides appear.
    #[verifier::rlimit(100)]
    #[verifier::spinoff_prover]
    pub fn to_json(&self) -> (r: Json)
        requires
            self@.wf(),
        ensures
            r@ == encode_stats(self@),
    {
        let ghost fs = stats_fields(self@);
        let mut ms: Vec<(String, Json)> = Vec::new();
        proof {
            assert(jview_obj(ms@, 0) =~= opt_members(fs.take(0)));
        }
        crate::json::push_opt_member(&mut ms, "avg_pkt_size", stat_member(&self.avg_pkt_size));
        proof {
            crate::json::lemma_opt_members_snoc(fs, 0);
            assert(jview_obj(ms@, 0) == opt_members(fs.take(1)));
        }
        crate::json::push_opt_member(&mut ms, "perf", stat_member(&self.perf));
        proof {
            crate::json::lemma_opt_members_snoc(fs, 1);
            assert(jview_obj(ms@, 0) == opt_members(fs.take(2)));
        }
        crate::json::push_opt_member(&mut ms, "r_ack", stat_member(&self.r_ack));
        proof {
            crate::json::lemma_opt_members_snoc(fs, 2);
            assert(jview_obj(ms@, 0) == opt_members(fs.take(3)));
        }
        crate::json::push_opt_member(&mut ms, "r_arp", stat_member(&self.r_arp));
        proof {
            crate::json::lemma_opt_members_snoc(fs, 3);
            assert(jview_obj(ms@, 0) == opt_members(fs.take(4)));
        }
        crate::json::push_opt_member(&mut ms, "r_dst_src", stat_member(&self.r_dst_src));
        proof {
            crate::json::lemma_opt_members_snoc(fs, 4);
            assert(jview_obj(ms@, 0) == opt_members(fs.take(5)));
        }
        crate::json::push_opt_member(&mut ms, "r_dst_src_port", stat_member(&self.r_dst_src_port));
        proof {
            crate::json::lemma_opt_members_snoc(fs, 5);
            assert(jview_obj(ms@, 0) == opt_members(fs.take(6)));
        }
        crate::json::push_opt_member(&mut ms, "r_icmp", stat_member(&self.r_icmp));
        proof {
            crate::json::lemma_opt_members_snoc(fs, 6);
            assert(jview_obj(ms@, 0) == opt_members(fs.take(7)));
        }
        crate::json::push_opt_member(&mut ms, "r_ip", stat_member(&self.r_ip));
        proof {
            crate::json::lemma_opt_members_snoc(fs, 7);
            assert(jview_obj(ms@, 0) == opt_members(fs.take(8)));
        }
        crate::json::push_opt_member(&mut ms, "r_syn", stat_member(&self.r_syn));
        proof {
            crate::json::lemma_opt_members_snoc(fs, 8);
            assert(jview_obj(ms@, 0) == opt_members(fs.take(9)));
        }
        crate::json::push_opt_member(&mut ms, "traffic", stat_member(&self.traffic));
        proof {
            crate::json::lemma_opt_members_snoc(fs, 9);
            assert(jview_obj(ms@, 0) == opt_members(fs.take(10)));
            assert(fs.take(10) =~= fs);
        }
        Json::Obj(ms)
    }

    /// Reads this section back from JSON, rejecting unknown statistics.
    pub fn from_json(v: &Json) -> (r: Option<StatsConfig>)
        ensures
            match r {
                Some(c) => decode_stats(v@) == Some(c@) && c@.wf(),
                None => decode_stats(v@) == None::<StatsConfigV>,
            },
    {
        match v {
            Json::Obj(ms) => {
                let ghost vms = jview_obj(ms@, 0);
                proof {
                    crate::json::lemma_jview_obj(ms@, 0);
                }
                // Reject unknown statistic identifiers.
                let mut i: usize = 0;
                while i < ms.len()
                    invariant
                        0 <= i <= ms.len(),
                        v@ == JsonV::Obj(vms),
                        vms == jview_obj(ms@, 0),
                        vms.len() == ms@.len(),
                        forall|j: int|
                            0 <= j < ms@.len() ==> vms[j] == (
                            #[trigger] ms@[j].0@,
                            crate::json::jview(ms@[j].1),
                            ),
                        forall|j: int| 0 <= j < i ==> is_stat_key((#[trigger] vms[j]).0),
                    decreases ms.len() - i,
                {
                    let k = ms[i].0.as_str();
                    let known = crate::chars::str_eq(k, "avg_pkt_size") || crate::chars::str_eq(
                        k,
                        "perf",
                    ) || crate::chars::str_eq(k, "r_ack") || crate::chars::str_eq(k, "r_arp")
                        || crate::chars::str_eq(k, "r_dst_src") || crate::chars::str_eq(
                        k,
                        "r_dst_src_port",
                    ) || crate::chars::str_eq(k, "r_icmp") || crate::chars::str_eq(k, "r_ip")
                        || crate::chars::str_eq(k, "r_syn") || crate::chars::str_eq(k, "traffic");
                    if !known {
                        assert(!is_stat_key(vms[i as int].0));
                        assert(!stats_keys_known(vms));
                        return None;
                    }
                    i += 1;
                }
                assert(stats_keys_known(vms));
                let avg_pkt_size = match x_opt_stat(ms, "avg_pkt_size") {
                    Some(o) => o,
                    None => {
                        return None;
                    },
                };
                let perf = match x_opt_stat(ms, "perf") {
                    Some(o) => o,
                    None => {
                        return None;
                    },
                };
                let r_ack = match x_opt_stat(ms, "r_ack") {
                    Some(o) => o,
                    None => {
                        return None;
                    },
                };
                let r_arp = match x_opt_stat(ms, "r_arp") {
                    Some(o) => o,
                    None => {
                        return None;
                    },
                };
                let r_dst_src = match x_opt_stat(ms, "r_dst_src") {
                    Some(o) => o,
                    None => {
                        return None;
                    },
                };
                let r_dst_src_port = match x_opt_stat(ms, "r_dst_src_port") {
                    Some(o) => o,
                    None => {
                        return None;
                    },
                };
                let r_icmp = match x_opt_stat(ms, "r_icmp") {
                    Some(o) => o,
                    None => {
                        return None;
                    },
                };
                let r_ip = match x_opt_stat(ms, "r_ip") {
                    Some(o) => o,
                    None => {
                        return None;
                    },
                };
                let r_syn = match x_opt_stat(ms, "r_syn") {
                    Some(o) => o,
                    None => {
                        return None;
                    },
                };
                let traffic = match x_opt_stat(ms, "traffic") {
                    Some(o) => o,
                    None => {
                        return None;
                    },
                };
                Some(
                    StatsConfig {
                        avg_pkt_size,
                        perf,
                        r_ack,
                        r_arp,
                        r_dst_src,
                        r_dst_src_port,
                        r_icmp,
                        r_ip,
                        r_syn,
                        traffic,
                    },
                )
            },
            _ => None,
        }
    }
}

/// The stats section decodes back from its own JSON form unchanged.
#[verifier::rlimit(100)]
#[verifier::spinoff_prover]
pub proof fn lemma_stats_round_trip(c: StatsConfigV)
    requires
        c.wf(),
    ensures
        decode_stats(encode_stats(c)) == Some(c),
{
    let fs = stats_fields(c);
    let ms = opt_members(fs);
    assert(distinct_keys(fs)) by {
        reveal_strlit("avg_pkt_size");
        reveal_strlit("perf");
        reveal_strlit("r_ack");
        reveal_strlit("r_arp");
        reveal_strlit("r_dst_src");
        reveal_strlit("r_dst_src_port");
        reveal_strlit("r_icmp");
        reveal_strlit("r_ip");
        reveal_strlit("r_syn");
        reveal_strlit("traffic");
        assert(("avg_pkt_size"@).len() == 12);
        assert(("perf"@).len() == 4);
        assert(("r_ack"@).len() == 5);
        assert(("r_arp"@).len() == 5);
        assert(("r_dst_src"@).len() == 9);
        assert(("r_dst_src_port"@).len() == 14);
        assert(("r_icmp"@).len() == 6);
        assert(("r_ip"@).len() == 4);
        assert(("r_syn"@).len() == 5);
        assert(("traffic"@).len() == 7);
        assert(("perf"@)[0] != ("r_ip"@)[0]);
        assert(("r_ack"@)[3] != ("r_arp"@)[3]);
        assert(("r_ack"@)[2] != ("r_syn"@)[2]);
        assert(("r_arp"@)[2] != ("r_syn"@)[2]);
    }
    assert(stats_keys_known(ms)) by {
        crate::json::lemma_opt_members_keys(fs);
        assert forall|j: int| 0 <= j < ms.len() implies is_stat_key((#[trigger] ms[j]).0) by {
            let i = choose|i: int| 0 <= i < fs.len() && ms[j].0 == fs[i].0;
            assert(is_stat_key(fs[i].0));
        }
    }
    lemma_opt_members_lookup(fs, 0);
    lemma_opt_members_lookup(fs, 1);
    lemma_opt_members_lookup(fs, 2);
    lemma_opt_members_lookup(fs, 3);
    lemma_opt_members_lookup(fs, 4);
    lemma_opt_members_lookup(fs, 5);
    lemma_opt_members_lookup(fs, 6);
    lemma_opt_members_lookup(fs, 7);
    lemma_opt_members_lookup(fs, 8);
    lemma_opt_members_lookup(fs, 9);
    match c.avg_pkt_size {
        Some(s) => lemma_stat_round_trip(s),
        None => {},
    }
    match c.perf {
        Some(s) => lemma_stat_round_trip(s),
        None => {},
    }
    match c.r_ack {
        Some(s) => lemma_stat_round_trip(s),
        None => {},
    }
    match c.r_arp {
        Some(s) => lemma_stat_round_trip(s),
        None => {},
    }
    match c.r_dst_src {
        Some(s) => lemma_stat_round_trip(s),
        None => {},
    }
    match c.r_dst_src_port {
        Some(s) => lemma_stat_round_trip(s),
        None => {},
    }
    match c.r_icmp {
        Some(s) => lemma_stat_round_trip(s),
        None => {},
    }
    match c.r_ip {
        Some(s) => lemma_stat_round_trip(s),
        None => {},
    }
    match c.r_syn {
        Some(s) => lemma_stat_round_trip(s),
        None => {},
    }
    match c.traffic {
        Some(s) => lemma_stat_round_trip(s),
        None => {},
    }
    assert(decode_stats(encode_stats(c)) == Some(c));
}

// ------------------------------------------------------------------
// InfluxDB exporter settings
// ------------------------------------------------------------------
/// The optional `influxdb1` exporter section.
#[derive(Debug, PartialEq)]
pub struct InfluxDB1Config {
    pub data: bool,
    pub alarm: bool,
    pub address: String,
    pub database: String,
    pub username: String,
    pub password: String,
    pub batch_size: i32,
    pub agent_name: String,
}

/// Mathematical view of [`InfluxDB1Config`].
#[verifier::ext_equal]
pub struct InfluxDB1ConfigV {
    pub data: bool,
    pub alarm: bool,
    pub address: Seq<char>,
    pub database: Seq<char>,
    pub username: Seq<char>,
    pub password: Seq<char>,
    pub batch_size: i32,
    pub agent_name: Seq<char>,
}

impl View for InfluxDB1Config {
    type V = InfluxDB1ConfigV;

    open spec fn view(&self) -> InfluxDB1ConfigV {
        InfluxDB1ConfigV {
            data: self.data,
            alarm: self.alarm,
            address: self.address@,
            database: self.database@,
            username: self.username@,
            password: self.password@,
            batch_size: self.batch_size,
            agent_name: self.agent_name@,
        }
    }
}

/// The exporter defaults used when a field is absent.
pub open spec fn influx1_defaults() -> InfluxDB1ConfigV {
    InfluxDB1ConfigV {
        data: false,
        alarm: false,
        address: "http://127.0.0.1:8086"@,
        database: "netspot"@,
        username: "netspot"@,
        password: "netspot"@,
        batch_size: 10,
        agent_name: "local"@,
    }
}

pub fn influx1_default_data() -> (r: bool)
    ensures
        r == influx1_defaults().data,
{
    false
}

pub fn influx1_default_alarm() -> (r: bool)
    ensures
        r == influx1_defaults().alarm,
{
    false
}

pub fn influx1_default_address() -> (r: String)
    ensures
        r@ == influx1_defaults().address,
{
    "http://127.0.0.1:8086".to_owned()
}

pub fn influx1_default_database() -> (r: String)
    ensures
        r@ == influx1_defaults().database,
{
    "netspot".to_owned()
}

pub fn influx1_default_username() -> (r: String)
    ensures
        r@ == influx1_defaults().username,
{
    "netspot".to_owned()
}

pub fn influx1_default_password() -> (r: String)
    ensures
        r@ == influx1_defaults().password,
{
    "netspot".to_owned()
}

pub fn influx1_default_batch_size() -> (r: i32)
    ensures
        r == influx1_defaults().batch_size,
{
    10
}

pub fn influx1_default_agent_name() -> (r: String)
    ensures
        r@ == influx1_defaults().agent_name,
{
    "local".to_owned()
}

impl Default for InfluxDB1Config {
    /// The documented exporter defaults.
    fn default() -> (r: InfluxDB1Config)
        ensures
            r@ == influx1_defaults(),
    {
        InfluxDB1Config {
            data: influx1_default_data(),
            alarm: influx1_default_alarm(),
            address: influx1_default_address(),
            database: influx1_default_database(),
            username: influx1_default_username(),
            password: influx1_default_password(),
            batch_size: influx1_default_batch_size(),
            agent_name: influx1_default_agent_name(),
        }
    }
}

/// Field list of the exporter section's JSON object.
pub open spec fn influx1_fields(c: InfluxDB1ConfigV) -> Seq<(Seq<char>, Option<JsonV>)> {
    seq![
        ("data"@, Some(JsonV::Bool(c.data))),
        ("alarm"@, Some(JsonV::Bool(c.alarm))),
        ("address"@, Some(JsonV::Str(c.address))),
        ("database"@, Some(JsonV::Str(c.database))),
        ("username"@, Some(JsonV::Str(c.username))),
        ("password"@, Some(JsonV::Str(c.password))),
        ("batch_size"@, Some(encode_int(c.batch_size as int))),
        ("agent_name"@, Some(JsonV::Str(c.agent_name))),
    ]
}

/// JSON form of the exporter section.
pub open spec fn encode_influx1(c: InfluxDB1ConfigV) -> JsonV {
    JsonV::Obj(opt_members(influx1_fields(c)))
}

/// Decodes the exporter section; every absent field takes its default.
pub open spec fn decode_influx1(j: JsonV) -> Option<InfluxDB1ConfigV> {
    match j {
        JsonV::Obj(ms) => {
            let data = def_bool_field(ms, "data"@, false);
            let alarm = def_bool_field(ms, "alarm"@, false);
            let address = def_str_field(ms, "address"@, "http://127.0.0.1:8086"@);
            let database = def_str_field(ms, "database"@, "netspot"@);
            let username = def_str_field(ms, "username"@, "netspot"@);
            let password = def_str_field(ms, "password"@, "netspot"@);
            let batch_size = def_int_field(ms, "batch_size"@, i32::MIN as int, i32::MAX as int, 10);
            let agent_name = def_str_field(ms, "agent_name"@, "local"@);
            if data is Some && alarm is Some && address is Some && database is Some && username
                is Some && password is Some && batch_size is Some && agent_name is Some {
                Some(
                    InfluxDB1ConfigV {
                        data: data.unwrap(),
                        alarm: alarm.unwrap(),
                        address: address.unwrap(),
                        database: database.unwrap(),
                        username: username.unwrap(),
                        password: password.unwrap(),
                        batch_size: batch_size.unwrap() as i32,
                        agent_name: agent_name.unwrap(),
                    },
                )
            } else {
                None
            }
        },
        _ => None,
    }
}

impl InfluxDB1Config {
    /// JSON form of this section.
    #[verifier::rlimit(100)]
    #[verifier::spinoff_prover]
    pub fn to_json(&self) -> (r: Json)
        ensures
            r@ == encode_influx1(self@),
    {
        let ghost fs = influx1_fields(self@);
        let mut ms: Vec<(String, Json)> = Vec::new();
        proof {
            assert(jview_obj(ms@, 0) =~= opt_members(fs.take(0)));
        }
        crate::json::push_opt_member(&mut ms, "data", Some(Json::Bool(self.data)));
        proof {
            crate::json::lemma_opt_members_snoc(fs, 0);
            assert(jview_obj(ms@, 0) == opt_members(fs.take(1)));
        }
        crate::json::push_opt_member(&mut ms, "alarm", Some(Json::Bool(self.alarm)));
        proof {
            crate::json::lemma_opt_members_snoc(fs, 1);
            assert(jview_obj(ms@, 0) == opt_members(fs.take(2)));
        }
        crate::json::push_opt_member(&mut ms, "address", Some(Json::Str(self.address.clone())));
        proof {
            crate::json::lemma_opt_members_snoc(fs, 2);
            assert(jview_obj(ms@, 0) == opt_members(fs.take(3)));
        }
        crate::json::push_opt_member(&mut ms, "database", Some(Json::Str(self.database.clone())));
        proof {
            crate::json::lemma_opt_members_snoc(fs, 3);
            assert(jview_obj(ms@, 0) == opt_members(fs.take(4)));
        }
        crate::json::push_opt_member(&mut ms, "username", Some(Json::Str(self.username.clone())));
        proof {
            crate::json::lemma_opt_members_snoc(fs, 4);
            assert(jview_obj(ms@, 0) == opt_members(fs.take(5)));
        }
        crate::json::push_opt_member(&mut ms, "password", Some(Json::Str(self.password.clone())));
        proof {
            crate::json::lemma_opt_members_snoc(fs, 5);
            assert(jview_obj(ms@, 0) == opt_members(fs.take(6)));
        }
        crate::json::push_opt_member(
            &mut ms,
            "batch_size",
            Some(crate::json::x_encode_int(self.batch_size as i64)),
        );
        proof {
            crate::json::lemma_opt_members_snoc(fs, 6);
            assert(jview_obj(ms@, 0) == opt_members(fs.take(7)));
        }
        crate::json::push_opt_member(
            &mut ms,
            "agent_name",
            Some(Json::Str(self.agent_name.clone())),
        );
        proof {
            crate::json::lemma_opt_members_snoc(fs, 7);
            assert(jview_obj(ms@, 0) == opt_members(fs.take(8)));
            assert(fs.take(8) =~= fs);
        }
        Json::Obj(ms)
    }

    /// Reads this section back from JSON.
    pub fn from_json(v: &Json) -> (r: Option<InfluxDB1Config>)
        ensures
            match r {
                Some(c) => decode_influx1(v@) == Some(c@),
                None => decode_influx1(v@) == None::<InfluxDB1ConfigV>,
            },
    {
        match v {
            Json::Obj(ms) => {
                let data = match crate::json::x_def_bool(ms, "data", false) {
                    Some(b) => b,
                    None => {
                        return None;
                    },
                };
                let alarm = match crate::json::x_def_bool(ms, "alarm", false) {
                    Some(b) => b,
                    None => {
                        return None;
                    },
                };
                let address = match crate::json::x_def_str(ms, "address", "http://127.0.0.1:8086") {
                    Some(s) => s,
                    None => {
                        return None;
                    },
                };
                let database = match crate::json::x_def_str(ms, "database", "netspot") {
                    Some(s) => s,
                    None => {
                        return None;
                    },
                };
                let username = match crate::json::x_def_str(ms, "username", "netspot") {
                    Some(s) => s,
                    None => {
                        return None;
                    },
                };
                let password = match crate::json::x_def_str(ms, "password", "netspot") {
                    Some(s) => s,
                    None => {
                        return None;
                    },
                };
                let batch_size = match crate::json::x_def_int(ms, "batch_size", i32::MIN as i64, i32::MAX as i64, 10) {
                    Some(n) => n as i32,
                    None => {
                        return None;
                    },
                };
                let agent_name = match crate::json::x_def_str(ms, "agent_name", "local") {
                    Some(s) => s,
                    None => {
                        return None;
                    },
                };
                Some(
                    InfluxDB1Config {
                        data,
                        alarm,
                        address,
                        database,
                        username,
                        password,
                        batch_size,
                        agent_name,
                    },
                )
            },
            _ => None,
        }
    }
}

/// The exporter section decodes back from its own JSON form unchanged.
pub proof fn lemma_influx1_round_trip(c: InfluxDB1ConfigV)
    ensures
        decode_influx1(encode_influx1(c)) == Some(c),
{
    let fs = influx1_fields(c);
    assert(distinct_keys(fs)) by {
        reveal_strlit("data");
        reveal_strlit("alarm");
        reveal_strlit("address");
        reveal_strlit("database");
        reveal_strlit("username");
        reveal_strlit("password");
        reveal_strlit("batch_size");
        reveal_strlit("agent_name");
        assert(("data"@).len() == 4);
        assert(("alarm"@).len() == 5);
        assert(("address"@).len() == 7);
        assert(("database"@).len() == 8);
        assert(("username"@).len() == 8);
        assert(("password"@).len() == 8);
        assert(("batch_size"@).len() == 10);
        assert(("agent_name"@).len() == 10);
        assert(("database"@)[0] != ("username"@)[0]);
        assert(("database"@)[0] != ("password"@)[0]);
        assert(("username"@)[0] != ("password"@)[0]);
        assert(("batch_size"@)[0] != ("agent_name"@)[0]);
    }
    lemma_opt_members_lookup(fs, 0);
    lemma_opt_members_lookup(fs, 1);
    lemma_opt_members_lookup(fs, 2);
    lemma_opt_members_lookup(fs, 3);
    lemma_opt_members_lookup(fs, 4);
    lemma_opt_members_lookup(fs, 5);
    lemma_opt_members_lookup(fs, 6);
    lemma_opt_members_lookup(fs, 7);
    crate::chars::lemma_dec_int_round_trip(c.batch_size as int);
    assert(decode_influx1(encode_influx1(c)) == Some(c));
}

// ------------------------------------------------------------------
// The whole probe configuration
// ------------------------------------------------------------------
/// One probe's configuration: miner settings, optional exporter, detector
/// defaults and per-statistic overrides.
#[derive(Debug, PartialEq)]
pub struct NetspotConfig {
    pub configuration: MinerConfig,
    pub influxdb1: Option<InfluxDB1Config>,
    pub spot: SpotConfig,
    pub stats: StatsConfig,
}

/// Mathematical view of [`NetspotConfig`].
#[verifier::ext_equal]
pub struct NetspotConfigV {
    pub configuration: MinerConfigV,
    pub influxdb1: Option<InfluxDB1ConfigV>,
    pub spot: SpotConfigV,
    pub stats: StatsConfigV,
}

impl View for NetspotConfig {
    type V = NetspotConfigV;

    open spec fn view(&self) -> NetspotConfigV {
        NetspotConfigV {
            configuration: self.configuration@,
            influxdb1: match self.influxdb1 {
                Some(c) => Some(c@),
                None => None,
            },
            spot: self.spot@,
            stats: self.stats@,
        }
    }
}

impl NetspotConfigV {
    /// The decimal lexemes of the detector sections are well-formed.
    pub open spec fn wf(self) -> bool {
        self.spot.wf() && self.stats.wf()
    }
}

/// Optional member value for the exporter section.
pub open spec fn jv_opt_influx1(o: Option<InfluxDB1ConfigV>) -> Option<JsonV> {
    match o {
        Some(c) => Some(encode_influx1(c)),
        None => None,
    }
}

/// Field list of a whole configuration's JSON object.
pub open spec fn netspot_fields(c: NetspotConfigV) -> Seq<(Seq<char>, Option<JsonV>)> {
    seq![
        ("configuration"@, Some(encode_miner(c.configuration))),
        ("influxdb1"@, jv_opt_influx1(c.influxdb1)),
        ("spot"@, Some(encode_spot(c.spot))),
        ("stats"@, Some(encode_stats(c.stats))),
    ]
}

/// JSON form of a whole configuration.
pub open spec fn encode_netspot(c: NetspotConfigV) -> JsonV {
    JsonV::Obj(opt_members(netspot_fields(c)))
}

/// Decodes a whole configuration: the miner section is required, the
/// exporter is optional, and absent detector sections take their defaults.
pub open spec fn decode_netspot(j: JsonV) -> Option<NetspotConfigV> {
    match j {
        JsonV::Obj(ms) => {
            let configuration = match obj_lookup(ms, "configuration"@) {
                Some(mj) => decode_miner(mj),
                None => None,
            };
            let influxdb1 = match obj_lookup(ms, "influxdb1"@) {
                None => Some(None),
                Some(JsonV::Null) => Some(None),
                Some(ij) => match decode_influx1(ij) {
                    Some(x) => Some(Some(x)),
                    None => None,
                },
            };
            let spot = match obj_lookup(ms, "spot"@) {
                None => Some(spot_defaults()),
                Some(sj) => decode_spot(sj),
            };
            let stats = match obj_lookup(ms, "stats"@) {
                None => Some(stats_defaults()),
                Some(sj) => decode_stats(sj),
            };
            if configuration is Some && influxdb1 is Some && spot is Some && stats is Some {
                Some(
                    NetspotConfigV {
                        configuration: configuration.unwrap(),
                        influxdb1: influxdb1.unwrap(),
                        spot: spot.unwrap(),
                        stats: stats.unwrap(),
                    },
                )
            } else {
                None
            }
        },
        _ => None,
    }
}

impl NetspotConfig {
    /// JSON form of this configuration.
    pub fn to_json(&self) -> (r: Json)
        requires
            self@.wf(),
        ensures
            r@ == encode_netspot(self@),
    {
        let ghost fs = netspot_fields(self@);
        let mut ms: Vec<(String, Json)> = Vec::new();
        proof {
            assert(jview_obj(ms@, 0) =~= opt_members(fs.take(0)));
        }
        crate::json::push_opt_member(&mut ms, "configuration", Some(self.configuration.to_json()));
        proof {
            crate::json::lemma_opt_members_snoc(fs, 0);
            assert(jview_obj(ms@, 0) == opt_members(fs.take(1)));
        }
        let influx_v: Option<Json> = match &self.influxdb1 {
            Some(c) => Some(c.to_json()),
            None => None,
        };
        crate::json::push_opt_member(&mut ms, "influxdb1", influx_v);
        proof {
            crate::json::lemma_opt_members_snoc(fs, 1);
            assert(jview_obj(ms@, 0) == opt_members(fs.take(2)));
        }
        crate::json::push_opt_member(&mut ms, "spot", Some(self.spot.to_json()));
        proof {
            crate::json::lemma_opt_members_snoc(fs, 2);
            assert(jview_obj(ms@, 0) == opt_members(fs.take(3)));
        }
        crate::json::push_opt_member(&mut ms, "stats", Some(self.stats.to_json()));
        proof {
            crate::json::lemma_opt_members_snoc(fs, 3);
            assert(jview_obj(ms@, 0) == opt_members(fs.take(4)));
            assert(fs.take(4) =~= fs);
        }
        Json::Obj(ms)
    }

    /// Reads a configuration back from JSON.
    pub fn from_json(v: &Json) -> (r: Option<NetspotConfig>)
        ensures
            match r {
                Some(c) => decode_netspot(v@) == Some(c@) && c@.wf(),
                None => decode_netspot(v@) == None::<NetspotConfigV>,
            },
    {
        match v {
            Json::Obj(ms) => {
                let configuration = match crate::json::obj_get(ms, "configuration") {
                    Some(mj) => match MinerConfig::from_json(mj) {
                        Some(c) => c,
                        None => {
                            return None;
                        },
                    },
                    None => {
                        return None;
                    },
                };
                let influxdb1 = match crate::json::obj_get(ms, "influxdb1") {
                    None => None,
                    Some(ij) => match ij {
                        Json::Null => None,
                        _ => match InfluxDB1Config::from_json(ij) {
                            Some(c) => Some(c),
                            None => {
                                return None;
                            },
                        },
                    },
                };
                let spot = match crate::json::obj_get(ms, "spot") {
                    None => SpotConfig::default(),
                    Some(sj) => match SpotConfig::from_json(sj) {
                        Some(c) => c,
                        None => {
                            return None;
                        },
                    },
                };
                let stats = match crate::json::obj_get(ms, "stats") {
                    None => StatsConfig::default(),
                    Some(sj) => match StatsConfig::from_json(sj) {
                        Some(c) => c,
                        None => {
                            return None;
                        },
                    },
                };
                proof {
                    lemma_default_lexemes_wf();
                }
                Some(NetspotConfig { configuration, influxdb1, spot, stats })
            },
            _ => None,
        }
    }

    /// Parses a configuration from JSON text.
    pub fn from_json_text(s: &str) -> (r: Option<NetspotConfig>)
        ensures
            match r {
                Some(c) => spec_config_of_text(s@) == Some(c@) && c@.wf(),
                None => spec_config_of_text(s@) == None::<NetspotConfigV>,
            },
    {
        match crate::json::parse_json(s) {
            Some(v) => NetspotConfig::from_json(&v),
            None => None,
        }
    }

    /// JSON text of this configuration.
    pub fn to_json_text(&self) -> (r: String)
        requires
            self@.wf(),
        ensures
            r@ == crate::json::print_json(encode_netspot(self@)),
    {
        let v = self.to_json();
        crate::json::to_text(&v)
    }
}

/// The configuration denoted by a JSON text, if any.
pub open spec fn spec_config_of_text(s: Seq<char>) -> Option<NetspotConfigV> {
    match crate::json::spec_parse_json(s) {
        Some(j) => decode_netspot(j),
        None => None,
    }
}

/// A whole configuration decodes back from its own JSON form unchanged.
pub proof fn lemma_netspot_round_trip(c: NetspotConfigV)
    requires
        c.wf(),
    ensures
        decode_netspot(encode_netspot(c)) == Some(c),
{
    let fs = netspot_fields(c);
    assert(distinct_keys(fs)) by {
        reveal_strlit("configuration");
        reveal_strlit("influxdb1");
        reveal_strlit("spot");
        reveal_strlit("stats");
        assert(("configuration"@).len() == 13);
        assert(("influxdb1"@).len() == 9);
        assert(("spot"@).len() == 4);
        assert(("stats"@).len() == 5);
    }
    lemma_opt_members_lookup(fs, 0);
    lemma_opt_members_lookup(fs, 1);
    lemma_opt_members_lookup(fs, 2);
    lemma_opt_members_lookup(fs, 3);
    lemma_miner_round_trip(c.configuration);
    match c.influxdb1 {
        Some(x) => lemma_influx1_round_trip(x),
        None => {},
    }
    lemma_spot_round_trip(c.spot);
    lemma_stats_round_trip(c.stats);
    assert(decode_netspot(encode_netspot(c)) == Some(c));
}

impl Clone for MinerConfig {
    /// An equal copy.
    fn clone(&self) -> (r: Self)
        ensures
            r == *self,
    {
        MinerConfig {
            name: self.name.clone(),
            device: self.device.clone(),
            promiscuous: self.promiscuous,
            enabled: self.enabled,
        }
    }
}

impl Clone for SpotConfig {
    /// An equal copy.
    fn clone(&self) -> (r: Self)
        ensures
            r == *self,
    {
        SpotConfig {
            depth: self.depth,
            q: self.q.clone(),
            n_init: self.n_init,
            level: self.level.clone(),
            up: self.up,
            down: self.down,
            alert: self.alert,
            bounded: self.bounded,
            max_excess: self.max_excess,
        }
    }
}

/// An equal copy of an optional string.
fn clone_opt_string(o: &Option<String>) -> (r: Option<String>)
    ensures
        r == *o,
{
    match o {
        Some(t) => Some(t.clone()),
        None => None,
    }
}

impl Clone for StatConfig {
    /// An equal copy.
    fn clone(&self) -> (r: Self)
        ensures
            r == *self,
    {
        StatConfig {
            enabled: self.enabled,
            depth: self.depth,
            q: clone_opt_string(&self.q),
            n_init: self.n_init,
            level: clone_opt_string(&self.level),
            up: self.up,
            down: self.down,
            alert: self.alert,
            bounded: self.bounded,
            max_excess: self.max_excess,
        }
    }
}

/// An equal copy of an optional override.
fn clone_opt_stat(o: &Option<StatConfig>) -> (r: Option<StatConfig>)
    ensures
        r == *o,
{
    match o {
        Some(s) => Some(s.clone()),
        None => None,
    }
}

impl Clone for StatsConfig {
    /// An equal copy.
    fn clone(&self) -> (r: Self)
        ensures
            r == *self,
    {
        StatsConfig {
            avg_pkt_size: clone_opt_stat(&self.avg_pkt_size),
            perf: clone_opt_stat(&self.perf),
            r_ack: clone_opt_stat(&self.r_ack),
            r_arp: clone_opt_stat(&self.r_arp),
            r_dst_src: clone_opt_stat(&self.r_dst_src),
            r_dst_src_port: clone_opt_stat(&self.r_dst_src_port),
            r_icmp: clone_opt_stat(&self.r_icmp),
            r_ip: clone_opt_stat(&self.r_ip),
            r_syn: clone_opt_stat(&self.r_syn),
            traffic: clone_opt_stat(&self.traffic),
        }
    }
}

impl Clone for InfluxDB1Config {
    /// An equal copy.
    fn clone(&self) -> (r: Self)
        ensures
            r == *self,
    {
        InfluxDB1Config {
            data: self.data,
            alarm: self.alarm,
            address: self.address.clone(),
            database: self.database.clone(),
            username: self.username.clone(),
            password: self.password.clone(),
            batch_size: self.batch_size,
            agent_name: self.agent_name.clone(),
        }
    }
}

impl Clone for NetspotConfig {
    /// An equal copy.
    fn clone(&self) -> (r: Self)
        ensures
            r == *self,
    {
        NetspotConfig {
            configuration: self.configuration.clone(),
            influxdb1: match &self.influxdb1 {
                Some(c) => Some(c.clone()),
                None => None,
            },
            spot: self.spot.clone(),
            stats: self.stats.clone(),
        }
    }
}

} // verus!
