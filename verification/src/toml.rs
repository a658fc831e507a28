//! Deterministic TOML emission for probe configuration files.
//!
//! The text is specified exactly, character for character, so the file a
//! probe reads is pinned by the configuration alone.

use crate::chars::{chars_to_string, dec_int, push_dec_i64, push_str_chars};
use crate::config::{InfluxDB1ConfigV, NetspotConfig, NetspotConfigV, StatConfig, StatConfigV,
    StatsConfig, StatsConfigV};
use vstd::prelude::*;

verus! {

/// TOML boolean text.
pub open spec fn bool_text(b: bool) -> Seq<char> {
    if b {
        "true"@
    } else {
        "false"@
    }
}

fn push_bool(b: bool, out: &mut Vec<char>)
    ensures
        final(out)@ == old(out)@ + bool_text(b),
{
    if b {
        push_str_chars("true", out);
    } else {
        push_str_chars("false", out);
    }
}

/// One optional `label value` line of a per-statistic block.
pub open spec fn line_i32(label: Seq<char>, o: Option<i32>) -> Seq<char> {
    match o {
        Some(n) => label + dec_int(n as int) + seq!['\n'],
        None => Seq::empty(),
    }
}

pub open spec fn line_u32(label: Seq<char>, o: Option<u32>) -> Seq<char> {
    match o {
        Some(n) => label + dec_int(n as int) + seq!['\n'],
        None => Seq::empty(),
    }
}

pub open spec fn line_bool(label: Seq<char>, o: Option<bool>) -> Seq<char> {
    match o {
        Some(b) => label + bool_text(b) + seq!['\n'],
        None => Seq::empty(),
    }
}

pub open spec fn line_num(label: Seq<char>, o: Option<Seq<char>>) -> Seq<char> {
    match o {
        Some(t) => label + t + seq!['\n'],
        None => Seq::empty(),
    }
}

/// The body of one statistic's `[spot.<STAT>]` block: one line per set
/// override, nothing for a disabled statistic.
pub open spec fn stat_block_body(c: StatConfigV) -> Seq<char> {
    if !c.enabled {
        Seq::empty()
    } else {
        line_i32("depth = "@, c.depth) + line_num("q = "@, c.q) + line_u32("n_init = "@, c.n_init)
            + line_num("level = "@, c.level) + line_bool("up = "@, c.up) + line_bool(
            "down = "@,
            c.down,
        ) + line_bool("alert = "@, c.alert) + line_bool("bounded = "@, c.bounded) + line_u32(
            "max_excess = "@,
            c.max_excess,
        )
    }
}

fn push_line_i32(label: &str, o: &Option<i32>, out: &mut Vec<char>)
    ensures
        final(out)@ == old(out)@ + line_i32(label@, *o),
{
    if let Some(n) = o {
        push_str_chars(label, out);
        push_dec_i64(*n as i64, out);
        out.push('\n');
        assert(out@ =~= old(out)@ + line_i32(label@, *o));
    }
}

fn push_line_u32(label: &str, o: &Option<u32>, out: &mut Vec<char>)
    ensures
        final(out)@ == old(out)@ + line_u32(label@, *o),
{
    if let Some(n) = o {
        push_str_chars(label, out);
        push_dec_i64(*n as i64, out);
        out.push('\n');
        assert(out@ =~= old(out)@ + line_u32(label@, *o));
    }
}

fn push_line_bool(label: &str, o: &Option<bool>, out: &mut Vec<char>)
    ensures
        final(out)@ == old(out)@ + line_bool(label@, *o),
{
    if let Some(b) = o {
        push_str_chars(label, out);
        push_bool(*b, out);
        out.push('\n');
        assert(out@ =~= old(out)@ + line_bool(label@, *o));
    }
}

fn push_line_num(label: &str, o: &Option<String>, out: &mut Vec<char>)
    ensures
        final(out)@ == old(out)@ + line_num(label@, match *o {
            Some(t) => Some(t@),
            None => None,
        }),
{
    if let Some(t) = o {
        push_str_chars(label, out);
        push_str_chars(t.as_str(), out);
        out.push('\n');
        assert(out@ =~= old(out)@ + line_num(label@, Some(t@)));
    }
}

impl StatConfig {
    /// The override lines this statistic writes under its `[spot.<STAT>]`
    /// heading; empty when the statistic is disabled or sets nothing.
    pub fn make_toml(&self) -> (r: String)
        ensures
            r@ == stat_block_body(self@),
    {
        let mut out: Vec<char> = Vec::new();
        if !self.enabled {
            return chars_to_string(&out);
        }
        let ghost c = self@;
        push_line_i32("depth = ", &self.depth, &mut out);
        push_line_num("q = ", &self.q, &mut out);
        proof {
            assert(out@ =~= line_i32("depth = "@, c.depth) + line_num("q = "@, c.q));
        }
        push_line_u32("n_init = ", &self.n_init, &mut out);
        push_line_num("level = ", &self.level, &mut out);
        proof {
            assert(out@ =~= line_i32("depth = "@, c.depth) + line_num("q = "@, c.q) + line_u32(
                "n_init = "@,
                c.n_init,
            ) + line_num("level = "@, c.level));
        }
        push_line_bool("up = ", &self.up, &mut out);
        push_line_bool("down = ", &self.down, &mut out);
        proof {
            assert(out@ =~= line_i32("depth = "@, c.depth) + line_num("q = "@, c.q) + line_u32(
                "n_init = "@,
                c.n_init,
            ) + line_num("level = "@, c.level) + line_bool("up = "@, c.up) + line_bool(
                "down = "@,
                c.down,
            ));
        }
        push_line_bool("alert = ", &self.alert, &mut out);
        push_line_bool("bounded = ", &self.bounded, &mut out);
        push_line_u32("max_excess = ", &self.max_excess, &mut out);
        proof {
            assert(out@ =~= stat_block_body(c));
        }
        chars_to_string(&out)
    }
}

/// Flattens optional texts, keeping the present ones in order.
pub open spec fn opt_strs(fields: Seq<Option<Seq<char>>>) -> Seq<Seq<char>>
    decreases fields.len(),
{
    if fields.len() == 0 {
        Seq::empty()
    } else {
        (match fields[0] {
            Some(s) => seq![s],
            None => Seq::empty(),
        }) + opt_strs(fields.drop_first())
    }
}

pub proof fn lemma_opt_strs_snoc(fields: Seq<Option<Seq<char>>>, i: int)
    requires
        0 <= i < fields.len(),
    ensures
        opt_strs(fields.take(i + 1)) == opt_strs(fields.take(i)) + (match fields[i] {
            Some(s) => seq![s],
            None => Seq::<Seq<char>>::empty(),
        }),
    decreases i,
{
    let a = fields.take(i + 1);
    let b = fields.take(i);
    let mi: Seq<Seq<char>> = match fields[i] {
        Some(s) => seq![s],
        None => Seq::empty(),
    };
    if i == 0 {
        assert(a.drop_first() =~= Seq::<Option<Seq<char>>>::empty());
        assert(opt_strs(a.drop_first()) =~= Seq::<Seq<char>>::empty());
        assert(a[0] == fields[0]);
        assert(opt_strs(a) =~= mi);
        assert(opt_strs(b) =~= Seq::<Seq<char>>::empty());
        assert(opt_strs(b) + mi =~= mi);
    } else {
        lemma_opt_strs_snoc(fields.drop_first(), i - 1);
        assert(a.drop_first() =~= fields.drop_first().take(i));
        assert(b.drop_first() =~= fields.drop_first().take(i - 1));
        assert(a[0] == fields[0] && b[0] == fields[0]);
        assert(fields.drop_first()[i - 1] == fields[i]);
        let m0: Seq<Seq<char>> = match fields[0] {
            Some(s) => seq![s],
            None => Seq::empty(),
        };
        assert(opt_strs(a) == m0 + (opt_strs(fields.drop_first().take(i - 1)) + mi));
        assert(opt_strs(b) + mi =~= m0 + (opt_strs(fields.drop_first().take(i - 1)) + mi));
    }
}

/// View of a list of strings.
pub open spec fn strs_view(v: Seq<String>, i: int) -> Seq<Seq<char>>
    decreases v.len() - i,
{
    if i < 0 || i >= v.len() {
        Seq::empty()
    } else {
        seq![v[i]@] + strs_view(v, i + 1)
    }
}

pub proof fn lemma_strs_view_push(v: Seq<String>, x: String, i: int)
    requires
        0 <= i <= v.len(),
    ensures
        strs_view(v.push(x), i) == strs_view(v, i).push(x@),
    decreases v.len() - i,
{
    let a = v.push(x);
    if i < v.len() {
        lemma_strs_view_push(v, x, i + 1);
        assert(a[i] == v[i]);
        assert(strs_view(a, i) =~= strs_view(v, i).push(x@));
    } else {
        assert(a[i] == x);
        assert(strs_view(a, i + 1) =~= Seq::<Seq<char>>::empty());
        assert(strs_view(a, i) =~= strs_view(v, i).push(x@));
    }
}

/// The quoted, comma-separated statistic list.
pub open spec fn join_quoted_from(names: Seq<Seq<char>>, i: int) -> Seq<char>
    decreases names.len() - i,
{
    if i < 0 || i >= names.len() {
        Seq::empty()
    } else {
        let lead: Seq<char> = if i > 0 {
            ", "@
        } else {
            Seq::empty()
        };
        lead + seq!['"'] + names[i] + seq!['"'] + join_quoted_from(names, i + 1)
    }
}

/// Blocks joined by one blank separator line.
pub open spec fn join_blocks_from(blocks: Seq<Seq<char>>, i: int) -> Seq<char>
    decreases blocks.len() - i,
{
    if i < 0 || i >= blocks.len() {
        Seq::empty()
    } else {
        let lead: Seq<char> = if i > 0 {
            seq!['\n']
        } else {
            Seq::empty()
        };
        lead + blocks[i] + join_blocks_from(blocks, i + 1)
    }
}

fn write_quoted_names(names: &Vec<String>, i: usize, out: &mut Vec<char>)
    requires
        i <= names@.len(),
    ensures
        final(out)@ == old(out)@ + join_quoted_from(strs_view(names@, 0), i as int),
    decreases names@.len() - i,
{
    proof {
        lemma_strs_view(names@, 0);
    }
    let ghost vs = strs_view(names@, 0);
    if i < names.len() {
        if i > 0 {
            push_str_chars(", ", out);
        }
        out.push('"');
        push_str_chars(names[i].as_str(), out);
        out.push('"');
        write_quoted_names(names, i + 1, out);
        assert(out@ =~= old(out)@ + join_quoted_from(vs, i as int));
    } else {
        assert(out@ =~= old(out)@ + join_quoted_from(vs, i as int));
    }
}

fn write_blocks(blocks: &Vec<String>, i: usize, out: &mut Vec<char>)
    requires
        i <= blocks@.len(),
    ensures
        final(out)@ == old(out)@ + join_blocks_from(strs_view(blocks@, 0), i as int),
    decreases blocks@.len() - i,
{
    proof {
        lemma_strs_view(blocks@, 0);
    }
    let ghost vs = strs_view(blocks@, 0);
    if i < blocks.len() {
        if i > 0 {
            out.push('\n');
        }
        push_str_chars(blocks[i].as_str(), out);
        write_blocks(blocks, i + 1, out);
        assert(out@ =~= old(out)@ + join_blocks_from(vs, i as int));
    } else {
        assert(out@ =~= old(out)@ + join_blocks_from(vs, i as int));
    }
}

pub proof fn lemma_strs_view(v: Seq<String>, i: int)
    requires
        0 <= i <= v.len(),
    ensures
        strs_view(v, i).len() == v.len() - i,
        forall|j: int| i <= j < v.len() ==> strs_view(v, i)[j - i] == (#[trigger] v[j])@,
    decreases v.len() - i,
{
    if i < v.len() {
        lemma_strs_view(v, i + 1);
    }
}

/// The enabled statistic identifiers, as the analyzer lists them.
pub open spec fn name_if_enabled(name: Seq<char>, o: Option<StatConfigV>) -> Option<Seq<char>> {
    match o {
        Some(sc) => if sc.enabled {
            Some(name)
        } else {
            None
        },
        None => None,
    }
}

pub open spec fn names_fields(c: StatsConfigV) -> Seq<Option<Seq<char>>> {
    seq![
        name_if_enabled("AVG_PKT_SIZE"@, c.avg_pkt_size),
        name_if_enabled("PERF"@, c.perf),
        name_if_enabled("R_ACK"@, c.r_ack),
        name_if_enabled("R_ARP"@, c.r_arp),
        name_if_enabled("R_DST_SRC"@, c.r_dst_src),
        name_if_enabled("R_DST_SRC_PORT"@, c.r_dst_src_port),
        name_if_enabled("R_ICMP"@, c.r_icmp),
        name_if_enabled("R_IP"@, c.r_ip),
        name_if_enabled("R_SYN"@, c.r_syn),
        name_if_enabled("TRAFFIC"@, c.traffic),
    ]
}

/// The `[analyzer]` section: the fixed period and the enabled statistics in
/// their fixed order.
pub open spec fn analyzer_toml(c: StatsConfigV) -> Seq<char> {
    "[analyzer]\nperiod = \"1s\"\nstats = ["@ + join_quoted_from(opt_strs(names_fields(c)), 0)
        + seq![']']
}

/// One statistic's `[spot.<STAT>]` block, when it is enabled and sets
/// anything.
pub open spec fn spot_block(name: Seq<char>, o: Option<StatConfigV>) -> Option<Seq<char>> {
    match o {
        Some(sc) => {
            let body = stat_block_body(sc);
            if body.len() == 0 {
                None
            } else {
                Some("[spot."@ + name + "]\n"@ + body)
            }
        },
        None => None,
    }
}

pub open spec fn blocks_fields(c: StatsConfigV) -> Seq<Option<Seq<char>>> {
    seq![
        spot_block("AVG_PKT_SIZE"@, c.avg_pkt_size),
        spot_block("PERF"@, c.perf),
        spot_block("R_ACK"@, c.r_ack),
        spot_block("R_ARP"@, c.r_arp),
        spot_block("R_DST_SRC"@, c.r_dst_src),
        spot_block("R_DST_SRC_PORT"@, c.r_dst_src_port),
        spot_block("R_ICMP"@, c.r_icmp),
        spot_block("R_IP"@, c.r_ip),
        spot_block("R_SYN"@, c.r_syn),
        spot_block("TRAFFIC"@, c.traffic),
    ]
}

/// All `[spot.<STAT>]` blocks, blank-line separated.
pub open spec fn spots_toml(c: StatsConfigV) -> Seq<char> {
    join_blocks_from(opt_strs(blocks_fields(c)), 0)
}

/// Builds the enabled-name entry for one statistic.
fn name_entry(name: &str, o: &Option<StatConfig>) -> (r: Option<String>)
    ensures
        (match r {
            Some(s) => Some(s@),
            None => None,
        }) == name_if_enabled(name@, crate::config::opt_stat_view(*o)),
{
    match o {
        Some(sc) => if sc.enabled {
            Some(name.to_owned())
        } else {
            None
        },
        None => None,
    }
}

/// Builds one statistic's block text.
fn block_entry(name: &str, o: &Option<StatConfig>) -> (r: Option<String>)
    ensures
        (match r {
            Some(s) => Some(s@),
            None => None,
        }) == spot_block(name@, crate::config::opt_stat_view(*o)),
{
    match o {
        Some(sc) => {
            let body = sc.make_toml();
            if body.as_str().is_empty() {
                None
            } else {
                let mut out: Vec<char> = Vec::new();
                push_str_chars("[spot.", &mut out);
                push_str_chars(name, &mut out);
                push_str_chars("]\n", &mut out);
                push_str_chars(body.as_str(), &mut out);
                proof {
                    assert(out@ =~= "[spot."@ + name@ + "]\n"@ + stat_block_body(sc@));
                }
                Some(chars_to_string(&out))
            }
        },
        None => None,
    }
}


/// Appends one statistic's enabled name, when it has one.
fn push_name_entry(names: &mut Vec<String>, name: &str, o: &Option<StatConfig>)
    ensures
        strs_view(final(names)@, 0) == strs_view(old(names)@, 0) + (match name_if_enabled(
            name@,
            crate::config::opt_stat_view(*o),
        ) {
            Some(s) => seq![s],
            None => Seq::<Seq<char>>::empty(),
        }),
{
    let ghost before = strs_view(names@, 0);
    match name_entry(name, o) {
        Some(s) => {
            proof {
                lemma_strs_view_push(names@, s, 0);
            }
            names.push(s);
            proof {
                assert(strs_view(names@, 0) =~= before + seq![
                    name_if_enabled(name@, crate::config::opt_stat_view(*o)).unwrap(),
                ]);
            }
        },
        None => {
            proof {
                assert(strs_view(names@, 0) =~= before + Seq::<Seq<char>>::empty());
            }
        },
    }
}

/// Appends one statistic's block, when it writes one.
fn push_block_entry(blocks: &mut Vec<String>, name: &str, o: &Option<StatConfig>)
    ensures
        strs_view(final(blocks)@, 0) == strs_view(old(blocks)@, 0) + (match spot_block(
            name@,
            crate::config::opt_stat_view(*o),
        ) {
            Some(s) => seq![s],
            None => Seq::<Seq<char>>::empty(),
        }),
{
    let ghost before = strs_view(blocks@, 0);
    match block_entry(name, o) {
        Some(s) => {
            proof {
                lemma_strs_view_push(blocks@, s, 0);
            }
            blocks.push(s);
            proof {
                assert(strs_view(blocks@, 0) =~= before + seq![
                    spot_block(name@, crate::config::opt_stat_view(*o)).unwrap(),
                ]);
            }
        },
        None => {
            proof {
                assert(strs_view(blocks@, 0) =~= before + Seq::<Seq<char>>::empty());
            }
        },
    }
}

impl StatsConfig {
    /// The `[analyzer]` section for these statistics.
    #[verifier::rlimit(100)]
    #[verifier::spinoff_prover]
    pub fn make_analyzer_toml(&self) -> (r: String)
        ensures
            r@ == analyzer_toml(self@),
    {
        let ghost nf = names_fields(self@);
        let mut names: Vec<String> = Vec::new();
        proof {
            assert(strs_view(names@, 0) =~= opt_strs(nf.take(0)));
        }
        push_name_entry(&mut names, "AVG_PKT_SIZE", &self.avg_pkt_size);
        proof {
            lemma_opt_strs_snoc(nf, 0);
            assert(strs_view(names@, 0) == opt_strs(nf.take(1)));
        }
        push_name_entry(&mut names, "PERF", &self.perf);
        proof {
            lemma_opt_strs_snoc(nf, 1);
            assert(strs_view(names@, 0) == opt_strs(nf.take(2)));
        }
        push_name_entry(&mut names, "R_ACK", &self.r_ack);
        proof {
            lemma_opt_strs_snoc(nf, 2);
            assert(strs_view(names@, 0) == opt_strs(nf.take(3)));
        }
        push_name_entry(&mut names, "R_ARP", &self.r_arp);
        proof {
            lemma_opt_strs_snoc(nf, 3);
            assert(strs_view(names@, 0) == opt_strs(nf.take(4)));
        }
        push_name_entry(&mut names, "R_DST_SRC", &self.r_dst_src);
        proof {
            lemma_opt_strs_snoc(nf, 4);
            assert(strs_view(names@, 0) == opt_strs(nf.take(5)));
        }
        push_name_entry(&mut names, "R_DST_SRC_PORT", &self.r_dst_src_port);
        proof {
            lemma_opt_strs_snoc(nf, 5);
            assert(strs_view(names@, 0) == opt_strs(nf.take(6)));
        }
        push_name_entry(&mut names, "R_ICMP", &self.r_icmp);
        proof {
            lemma_opt_strs_snoc(nf, 6);
            assert(strs_view(names@, 0) == opt_strs(nf.take(7)));
        }
        push_name_entry(&mut names, "R_IP", &self.r_ip);
        proof {
            lemma_opt_strs_snoc(nf, 7);
            assert(strs_view(names@, 0) == opt_strs(nf.take(8)));
        }
        push_name_entry(&mut names, "R_SYN", &self.r_syn);
        proof {
            lemma_opt_strs_snoc(nf, 8);
            assert(strs_view(names@, 0) == opt_strs(nf.take(9)));
        }
        push_name_entry(&mut names, "TRAFFIC", &self.traffic);
        proof {
            lemma_opt_strs_snoc(nf, 9);
            assert(strs_view(names@, 0) == opt_strs(nf.take(10)));
            assert(nf.take(10) =~= nf);
        }
        let mut out: Vec<char> = Vec::new();
        push_str_chars("[analyzer]\nperiod = \"1s\"\nstats = [", &mut out);
        write_quoted_names(&names, 0, &mut out);
        out.push(']');
        proof {
            assert(out@ =~= analyzer_toml(self@));
        }
        chars_to_string(&out)
    }

    /// The `[spot.<STAT>]` blocks for these statistics, blank-line separated.
    #[verifier::rlimit(100)]
    #[verifier::spinoff_prover]
    pub fn make_spots_toml(&self) -> (r: String)
        ensures
            r@ == spots_toml(self@),
    {
        let ghost bf = blocks_fields(self@);
        let mut blocks: Vec<String> = Vec::new();
        proof {
            assert(strs_view(blocks@, 0) =~= opt_strs(bf.take(0)));
        }
        push_block_entry(&mut blocks, "AVG_PKT_SIZE", &self.avg_pkt_size);
        proof {
            lemma_opt_strs_snoc(bf, 0);
            assert(strs_view(blocks@, 0) == opt_strs(bf.take(1)));
        }
        push_block_entry(&mut blocks, "PERF", &self.perf);
        proof {
            lemma_opt_strs_snoc(bf, 1);
            assert(strs_view(blocks@, 0) == opt_strs(bf.take(2)));
        }
        push_block_entry(&mut blocks, "R_ACK", &self.r_ack);
        proof {
            lemma_opt_strs_snoc(bf, 2);
            assert(strs_view(blocks@, 0) == opt_strs(bf.take(3)));
        }
        push_block_entry(&mut blocks, "R_ARP", &self.r_arp);
        proof {
            lemma_opt_strs_snoc(bf, 3);
            assert(strs_view(blocks@, 0) == opt_strs(bf.take(4)));
        }
        push_block_entry(&mut blocks, "R_DST_SRC", &self.r_dst_src);
        proof {
            lemma_opt_strs_snoc(bf, 4);
            assert(strs_view(blocks@, 0) == opt_strs(bf.take(5)));
        }
        push_block_entry(&mut blocks, "R_DST_SRC_PORT", &self.r_dst_src_port);
        proof {
            lemma_opt_strs_snoc(bf, 5);
            assert(strs_view(blocks@, 0) == opt_strs(bf.take(6)));
        }
        push_block_entry(&mut blocks, "R_ICMP", &self.r_icmp);
        proof {
            lemma_opt_strs_snoc(bf, 6);
            assert(strs_view(blocks@, 0) == opt_strs(bf.take(7)));
        }
        push_block_entry(&mut blocks, "R_IP", &self.r_ip);
        proof {
            lemma_opt_strs_snoc(bf, 7);
            assert(strs_view(blocks@, 0) == opt_strs(bf.take(8)));
        }
        push_block_entry(&mut blocks, "R_SYN", &self.r_syn);
        proof {
            lemma_opt_strs_snoc(bf, 8);
            assert(strs_view(blocks@, 0) == opt_strs(bf.take(9)));
        }
        push_block_entry(&mut blocks, "TRAFFIC", &self.traffic);
        proof {
            lemma_opt_strs_snoc(bf, 9);
            assert(strs_view(blocks@, 0) == opt_strs(bf.take(10)));
            assert(bf.take(10) =~= bf);
        }
        let mut out: Vec<char> = Vec::new();
        write_blocks(&blocks, 0, &mut out);
        chars_to_string(&out)
    }
}

/// The optional `[exporter.influxdb]` section, framed by newlines when
/// present.
pub open spec fn influx1_toml(o: Option<InfluxDB1ConfigV>) -> Seq<char> {
    match o {
        None => Seq::empty(),
        Some(x) => "\n[exporter.influxdb]\ndata = "@ + bool_text(x.data) + "\nalarm = "@
            + bool_text(x.alarm) + "\naddress = \""@ + x.address + "\"\ndatabase = \""@
            + x.database + "\"\nusername = \""@ + x.username + "\"\npassword = \""@ + x.password
            + "\"\nbatch_size = "@ + dec_int(x.batch_size as int) + "\nagent_name = \""@
            + x.agent_name + "\"\n"@,
    }
}

/// Tail of the configuration file: the override blocks, set off by a blank
/// line when any exist.
pub open spec fn spots_tail(c: StatsConfigV) -> Seq<char> {
    if spots_toml(c).len() == 0 {
        Seq::empty()
    } else {
        seq!['\n'] + spots_toml(c)
    }
}

/// The whole configuration file for a probe: miner, analyzer, socket
/// exporter bound under the runtime path, optional InfluxDB exporter, spot
/// defaults and per-statistic override blocks.
pub open spec fn toml_of(c: NetspotConfigV, data_path: Seq<char>) -> Seq<char> {
    "[miner]\ndevice = \""@ + c.configuration.device + "\"\npromiscuous = "@ + bool_text(
        c.configuration.promiscuous,
    ) + "\nsnapshot_len = 65535\ntimeout = \"0s\"\n\n"@ + analyzer_toml(c.stats)
        + "\n\n[exporter.socket]\ndata = \"unix://"@ + data_path + "/netspot_data.socket\"\nalarm = \"unix://"@
        + data_path + "/netspot_alarm.socket\"\ntag = \""@ + c.configuration.name
        + "\"\nformat = \"json\"\n"@ + influx1_toml(c.influxdb1) + "\n[spot]\ndepth = "@ + dec_int(
        c.spot.depth as int,
    ) + "\nq = "@ + c.spot.q + "\nn_init = "@ + dec_int(c.spot.n_init as int) + "\nlevel = "@
        + c.spot.level + "\nup = "@ + bool_text(c.spot.up) + "\ndown = "@ + bool_text(c.spot.down)
        + "\nalert = "@ + bool_text(c.spot.alert) + "\nbounded = "@ + bool_text(c.spot.bounded)
        + "\nmax_excess = "@ + dec_int(c.spot.max_excess as int) + "\n"@ + spots_tail(c.stats)
}

impl NetspotConfig {
    /// The optional `[exporter.influxdb]` section for this configuration.
    pub fn make_influxdb1_toml(&self) -> (r: String)
        ensures
            r@ == influx1_toml(self@.influxdb1),
    {
        match &self.influxdb1 {
            None => String::new(),
            Some(x) => {
                let mut out: Vec<char> = Vec::new();
                push_str_chars("\n[exporter.influxdb]\ndata = ", &mut out);
                push_bool(x.data, &mut out);
                push_str_chars("\nalarm = ", &mut out);
                push_bool(x.alarm, &mut out);
                proof {
                    assert(out@ =~= "\n[exporter.influxdb]\ndata = "@ + bool_text(x@.data)
                        + "\nalarm = "@ + bool_text(x@.alarm));
                }
                push_str_chars("\naddress = \"", &mut out);
                push_str_chars(x.address.as_str(), &mut out);
                push_str_chars("\"\ndatabase = \"", &mut out);
                push_str_chars(x.database.as_str(), &mut out);
                proof {
                    assert(out@ =~= "\n[exporter.influxdb]\ndata = "@ + bool_text(x@.data)
                        + "\nalarm = "@ + bool_text(x@.alarm) + "\naddress = \""@ + x@.address
                        + "\"\ndatabase = \""@ + x@.database);
                }
                push_str_chars("\"\nusername = \"", &mut out);
                push_str_chars(x.username.as_str(), &mut out);
                push_str_chars("\"\npassword = \"", &mut out);
                push_str_chars(x.password.as_str(), &mut out);
                proof {
                    assert(out@ =~= "\n[exporter.influxdb]\ndata = "@ + bool_text(x@.data)
                        + "\nalarm = "@ + bool_text(x@.alarm) + "\naddress = \""@ + x@.address
                        + "\"\ndatabase = \""@ + x@.database + "\"\nusername = \""@ + x@.username
                        + "\"\npassword = \""@ + x@.password);
                }
                push_str_chars("\"\nbatch_size = ", &mut out);
                push_dec_i64(x.batch_size as i64, &mut out);
                push_str_chars("\nagent_name = \"", &mut out);
                push_str_chars(x.agent_name.as_str(), &mut out);
                push_str_chars("\"\n", &mut out);
                proof {
                    assert(out@ =~= influx1_toml(self@.influxdb1));
                }
                chars_to_string(&out)
            },
        }
    }

    /// The whole configuration file this probe runs with, under the given
    /// runtime path.
    #[verifier::rlimit(100)]
    #[verifier::spinoff_prover]
    pub fn make_toml(&self, data_path: &str) -> (r: String)
        ensures
            r@ == toml_of(self@, data_path@),
    {
        let ghost c = self@;
        let ghost dp = data_path@;
        let mut out: Vec<char> = Vec::new();
        push_str_chars("[miner]\ndevice = \"", &mut out);
        push_str_chars(self.configuration.device.as_str(), &mut out);
        push_str_chars("\"\npromiscuous = ", &mut out);
        push_bool(self.configuration.promiscuous, &mut out);
        push_str_chars("\nsnapshot_len = 65535\ntimeout = \"0s\"\n\n", &mut out);
        let ghost p1 = "[miner]\ndevice = \""@ + c.configuration.device + "\"\npromiscuous = "@
            + bool_text(c.configuration.promiscuous)
            + "\nsnapshot_len = 65535\ntimeout = \"0s\"\n\n"@;
        proof {
            assert(out@ =~= p1);
        }
        let analyzer = self.stats.make_analyzer_toml();
        push_str_chars(analyzer.as_str(), &mut out);
        push_str_chars("\n\n[exporter.socket]\ndata = \"unix://", &mut out);
        push_str_chars(data_path, &mut out);
        push_str_chars("/netspot_data.socket\"\nalarm = \"unix://", &mut out);
        push_str_chars(data_path, &mut out);
        let ghost p2 = p1 + analyzer_toml(c.stats) + "\n\n[exporter.socket]\ndata = \"unix://"@
            + dp + "/netspot_data.socket\"\nalarm = \"unix://"@ + dp;
        proof {
            assert(out@ =~= p2);
        }
        push_str_chars("/netspot_alarm.socket\"\ntag = \"", &mut out);
        push_str_chars(self.configuration.name.as_str(), &mut out);
        push_str_chars("\"\nformat = \"json\"\n", &mut out);
        let influx = self.make_influxdb1_toml();
        push_str_chars(influx.as_str(), &mut out);
        let ghost p3 = p2 + "/netspot_alarm.socket\"\ntag = \""@ + c.configuration.name
            + "\"\nformat = \"json\"\n"@ + influx1_toml(c.influxdb1);
        proof {
            assert(out@ =~= p3);
        }
        push_str_chars("\n[spot]\ndepth = ", &mut out);
        push_dec_i64(self.spot.depth as i64, &mut out);
        push_str_chars("\nq = ", &mut out);
        push_str_chars(self.spot.q.as_str(), &mut out);
        push_str_chars("\nn_init = ", &mut out);
        push_dec_i64(self.spot.n_init as i64, &mut out);
        push_str_chars("\nlevel = ", &mut out);
        push_str_chars(self.spot.level.as_str(), &mut out);
        let ghost p4 = p3 + "\n[spot]\ndepth = "@ + dec_int(c.spot.depth as int) + "\nq = "@
            + c.spot.q + "\nn_init = "@ + dec_int(c.spot.n_init as int) + "\nlevel = "@
            + c.spot.level;
        proof {
            assert(out@ =~= p4);
        }
        push_str_chars("\nup = ", &mut out);
        push_bool(self.spot.up, &mut out);
        push_str_chars("\ndown = ", &mut out);
        push_bool(self.spot.down, &mut out);
        push_str_chars("\nalert = ", &mut out);
        push_bool(self.spot.alert, &mut out);
        push_str_chars("\nbounded = ", &mut out);
        push_bool(self.spot.bounded, &mut out);
        push_str_chars("\nmax_excess = ", &mut out);
        push_dec_i64(self.spot.max_excess as i64, &mut out);
        push_str_chars("\n", &mut out);
        let ghost p5 = p4 + "\nup = "@ + bool_text(c.spot.up) + "\ndown = "@ + bool_text(
            c.spot.down,
        ) + "\nalert = "@ + bool_text(c.spot.alert) + "\nbounded = "@ + bool_text(c.spot.bounded)
            + "\nmax_excess = "@ + dec_int(c.spot.max_excess as int) + "\n"@;
        proof {
            assert(out@ =~= p5);
        }
        let spots = self.stats.make_spots_toml();
        if !spots.as_str().is_empty() {
            out.push('\n');
            push_str_chars(spots.as_str(), &mut out);
        }
        proof {
            assert(out@ =~= p5 + spots_tail(c.stats));
            assert(p5 + spots_tail(c.stats) =~= toml_of(c, dp));
        }
        chars_to_string(&out)
    }
}

} // verus!
