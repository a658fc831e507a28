//! The probe supervisor's decisions, as a state machine over plain values:
//! status derivation, the start and stop steps, reconciliation against a
//! fresh configuration snapshot, and the runtime file paths. Spawning,
//! signalling and waiting happen outside the library and feed events back.

use crate::chars::{dec_int, push_dec_i64, push_str_chars, chars_to_string};
use crate::config::NetspotConfig;
use crate::messages::SocketUse;
use crate::status::{ProcessStatus, Status};
use vstd::prelude::*;

verus! {

/// Supervisor failures as callers see them.
pub enum NetspotManagerError {
    NotFound,
}

/// The status an entry reports: a running child wins; otherwise a disabled
/// configuration reports Disabled and an enabled one Stopped.
pub open spec fn spec_process_status(enabled: bool, has_child: bool) -> ProcessStatus {
    if has_child {
        ProcessStatus::Running
    } else if !enabled {
        ProcessStatus::Disabled
    } else {
        ProcessStatus::Stopped
    }
}

/// Derives an entry's status from its configuration and child state.
pub fn process_status(enabled: bool, has_child: bool) -> (r: ProcessStatus)
    ensures
        r == spec_process_status(enabled, has_child),
{
    if has_child {
        ProcessStatus::Running
    } else if !enabled {
        ProcessStatus::Disabled
    } else {
        ProcessStatus::Stopped
    }
}

/// The probe lifecycle: a disabled entry reports Disabled; once enabled but
/// without a child it reports Stopped; starting it makes it Running; and no
/// entry without a child ever reports Running, so a completed stop always
/// leaves Running.
pub proof fn lemma_probe_lifecycle()
    ensures
        spec_process_status(false, false) == ProcessStatus::Disabled,
        spec_process_status(true, false) == ProcessStatus::Stopped,
        spec_process_status(true, true) == ProcessStatus::Running,
        forall|enabled: bool| spec_process_status(enabled, false) != ProcessStatus::Running,
{
}

/// What a start request does.
#[derive(Clone, Copy, Debug, PartialEq, Eq, Structural)]
pub enum StartAction {
    /// Already running or disabled: succeed without doing anything.
    NoOp,
    /// Write the configuration file, then spawn the probe on it.
    WriteTomlAndSpawn,
}

/// Decides a start request: only a stopped entry spawns; a running or
/// disabled one is a no-op success.
pub fn start_decision(status: &ProcessStatus) -> (r: StartAction)
    ensures
        r == (if *status is Stopped {
            StartAction::WriteTomlAndSpawn
        } else {
            StartAction::NoOp
        }),
{
    match status {
        ProcessStatus::Stopped => StartAction::WriteTomlAndSpawn,
        _ => StartAction::NoOp,
    }
}

/// What a stop request does first.
#[derive(Clone, Copy, Debug, PartialEq, Eq, Structural)]
pub enum StopAction {
    /// Not running: succeed without doing anything.
    NoOp,
    /// Send the child SIGINT and wait up to the stop window.
    SignalInt,
}

/// Decides a stop request: only a running entry is signalled, with SIGINT
/// first; anything else is a no-op success.
pub fn stop_decision(status: &ProcessStatus) -> (r: StopAction)
    ensures
        r == (if *status is Running {
            StopAction::SignalInt
        } else {
            StopAction::NoOp
        }),
{
    match status {
        ProcessStatus::Running => StopAction::SignalInt,
        _ => StopAction::NoOp,
    }
}

/// What happened while waiting for a signalled child.
#[derive(Clone, Copy, Debug, PartialEq, Eq, Structural)]
pub enum StopEvent {
    /// The child exited within the stop window.
    ChildExited,
    /// The stop window elapsed first.
    TimedOut,
}

/// What follows the wait.
#[derive(Clone, Copy, Debug, PartialEq, Eq, Structural)]
pub enum StopFollowUp {
    /// Remove the configuration file; the child is gone.
    RemoveToml,
    /// Kill the child, then remove the configuration file.
    KillThenRemoveToml,
}

/// Decides the follow-up of a stop: the kill happens exactly on a timeout,
/// and the configuration file is removed in either case.
pub fn stop_follow_up(event: &StopEvent) -> (r: StopFollowUp)
    ensures
        r == (match *event {
            StopEvent::ChildExited => StopFollowUp::RemoveToml,
            StopEvent::TimedOut => StopFollowUp::KillThenRemoveToml,
        }),
{
    match event {
        StopEvent::ChildExited => StopFollowUp::RemoveToml,
        StopEvent::TimedOut => StopFollowUp::KillThenRemoveToml,
    }
}

/// The stop window, in seconds.
pub const STOP_WINDOW_SECONDS: u64 = 5;

/// One supervised probe: its id, its configuration, and whether a child
/// process currently runs for it.
#[derive(Debug)]
pub struct ProbeEntry {
    pub id: i32,
    pub config: NetspotConfig,
    pub running: bool,
}

/// Mathematical view of [`ProbeEntry`].
#[verifier::ext_equal]
pub struct ProbeEntryV {
    pub id: i32,
    pub config: crate::config::NetspotConfigV,
    pub running: bool,
}

impl View for ProbeEntry {
    type V = ProbeEntryV;

    open spec fn view(&self) -> ProbeEntryV {
        ProbeEntryV { id: self.id, config: self.config@, running: self.running }
    }
}

/// The status an entry reports.
pub open spec fn probe_status(e: ProbeEntryV) -> ProcessStatus {
    spec_process_status(e.config.configuration.enabled, e.running)
}

impl ProbeEntry {
    /// The status row this entry reports.
    pub fn status(&self) -> (r: Status)
        ensures
            r@.id == self@.id,
            r@.name == self@.config.configuration.name,
            r@.status == probe_status(self@),
    {
        Status {
            id: self.id,
            name: self.config.configuration.name.clone(),
            status: process_status(self.config.configuration.enabled, self.running),
        }
    }

    /// Records a successful spawn; the entry then reports Running.
    pub fn mark_started(&mut self)
        ensures
            final(self)@ == (ProbeEntryV { running: true, ..old(self)@ }),
            probe_status(final(self)@) == ProcessStatus::Running,
    {
        self.running = true;
    }

    /// Records a completed stop; the entry no longer reports Running.
    pub fn mark_stopped(&mut self)
        ensures
            final(self)@ == (ProbeEntryV { running: false, ..old(self)@ }),
            probe_status(final(self)@) != ProcessStatus::Running,
    {
        self.running = false;
    }

    /// Replaces the configuration in place; a running child keeps running
    /// with the old file until a restart.
    pub fn set_config(&mut self, config: NetspotConfig)
        ensures
            final(self)@ == (ProbeEntryV { config: config@, ..old(self)@ }),
    {
        self.config = config;
    }
}

/// The configuration file path of one probe under the runtime path.
pub open spec fn spec_toml_file_path(data_path: Seq<char>, id: i32) -> Seq<char> {
    data_path + "/netspot_"@ + dec_int(id as int) + ".toml"@
}

/// Builds the configuration file path of one probe.
pub fn toml_file_path(data_path: &str, id: i32) -> (r: String)
    ensures
        r@ == spec_toml_file_path(data_path@, id),
{
    let mut out: Vec<char> = Vec::new();
    push_str_chars(data_path, &mut out);
    push_str_chars("/netspot_", &mut out);
    push_dec_i64(id as i64, &mut out);
    push_str_chars(".toml", &mut out);
    proof {
        assert(out@ =~= spec_toml_file_path(data_path@, id));
    }
    chars_to_string(&out)
}

/// The socket file path one listener binds under the runtime path.
pub open spec fn spec_socket_path(data_path: Seq<char>, u: SocketUse) -> Seq<char> {
    match u {
        SocketUse::Alarm => data_path + "/netspot_alarm.socket"@,
        SocketUse::Data => data_path + "/netspot_data.socket"@,
    }
}

/// Builds the socket file path of one listener.
pub fn socket_path(data_path: &str, socket_use: &SocketUse) -> (r: String)
    ensures
        r@ == spec_socket_path(data_path@, *socket_use),
{
    let mut out: Vec<char> = Vec::new();
    push_str_chars(data_path, &mut out);
    match socket_use {
        SocketUse::Alarm => push_str_chars("/netspot_alarm.socket", &mut out),
        SocketUse::Data => push_str_chars("/netspot_data.socket", &mut out),
    }
    chars_to_string(&out)
}

/// The child state an id had before reconciliation, if the id was known.
pub open spec fn spec_running_of(entries: Seq<(i32, ProbeEntry)>, id: i32) -> Option<bool>
    decreases entries.len(),
{
    if entries.len() == 0 {
        None
    } else if entries[0].0 == id {
        Some(entries[0].1.running)
    } else {
        spec_running_of(entries.drop_first(), id)
    }
}

/// Looks an id's child state up in the old entries.
fn running_of(entries: &Vec<(i32, ProbeEntry)>, id: i32) -> (r: Option<bool>)
    ensures
        r == spec_running_of(entries@, id),
{
    let ghost rows = entries@;
    let mut i: usize = 0;
    proof {
        assert(rows.skip(0) =~= rows);
    }
    loop
        invariant
            0 <= i <= entries.len(),
            rows == entries@,
            spec_running_of(rows, id) == spec_running_of(rows.skip(i as int), id),
        decreases entries.len() - i,
    {
        if i >= entries.len() {
            assert(rows.skip(i as int) =~= Seq::<(i32, ProbeEntry)>::empty());
            return None;
        }
        assert(rows.skip(i as int)[0] == rows[i as int]);
        if entries[i].0 == id {
            return Some(entries[i].1.running);
        }
        assert(rows.skip(i as int).drop_first() =~= rows.skip(i + 1));
        i += 1;
    }
}

/// Reconciles the supervised set against a fresh configuration snapshot:
/// ids absent from the snapshot leave, ids present keep their child state and
/// take the new configuration, new ids enter without a child. Nothing is
/// restarted implicitly.
pub fn update_all(entries: &mut Vec<(i32, ProbeEntry)>, configs: &Vec<(i32, NetspotConfig)>)
    ensures
        final(entries)@.len() == configs@.len(),
        forall|j: int|
            0 <= j < configs@.len() ==> {
                &&& (#[trigger] final(entries)@[j]).0 == configs@[j].0
                &&& final(entries)@[j].1.id == configs@[j].0
                &&& final(entries)@[j].1.config == configs@[j].1
                &&& final(entries)@[j].1.running == (match spec_running_of(
                    old(entries)@,
                    configs@[j].0,
                ) {
                    Some(b) => b,
                    None => false,
                })
            },
{
    let mut fresh: Vec<(i32, ProbeEntry)> = Vec::new();
    let mut i: usize = 0;
    while i < configs.len()
        invariant
            0 <= i <= configs.len(),
            entries@ == old(entries)@,
            fresh@.len() == i,
            forall|j: int|
                0 <= j < i ==> {
                    &&& (#[trigger] fresh@[j]).0 == configs@[j].0
                    &&& fresh@[j].1.id == configs@[j].0
                    &&& fresh@[j].1.config == configs@[j].1
                    &&& fresh@[j].1.running == (match spec_running_of(
                        old(entries)@,
                        configs@[j].0,
                    ) {
                        Some(b) => b,
                        None => false,
                    })
                },
        decreases configs.len() - i,
    {
        let id = configs[i].0;
        let running = match running_of(entries, id) {
            Some(b) => b,
            None => false,
        };
        let entry = ProbeEntry { id, config: configs[i].1.clone(), running };
        fresh.push((id, entry));
        i += 1;
    }
    *entries = fresh;
}

/// The status an id reports, when it is supervised.
pub open spec fn spec_status_of(entries: Seq<(i32, ProbeEntry)>, id: i32) -> Option<ProbeEntryV>
    decreases entries.len(),
{
    if entries.len() == 0 {
        None
    } else if entries[0].0 == id {
        Some(entries[0].1@)
    } else {
        spec_status_of(entries.drop_first(), id)
    }
}

/// The status row of one supervised probe; `NotFound` exactly when the id is
/// not supervised.
pub fn status_by_id(entries: &Vec<(i32, ProbeEntry)>, id: i32) -> (r: Result<
    Status,
    NetspotManagerError,
>)
    ensures
        match r {
            Ok(s) => {
                &&& spec_status_of(entries@, id) is Some
                &&& s@.id == spec_status_of(entries@, id).unwrap().id
                &&& s@.name == spec_status_of(entries@, id).unwrap().config.configuration.name
                &&& s@.status == probe_status(spec_status_of(entries@, id).unwrap())
            },
            Err(_) => spec_status_of(entries@, id) is None,
        },
{
    let ghost rows = entries@;
    let mut i: usize = 0;
    proof {
        assert(rows.skip(0) =~= rows);
    }
    loop
        invariant
            0 <= i <= entries.len(),
            rows == entries@,
            spec_status_of(rows, id) == spec_status_of(rows.skip(i as int), id),
        decreases entries.len() - i,
    {
        if i >= entries.len() {
            assert(rows.skip(i as int) =~= Seq::<(i32, ProbeEntry)>::empty());
            return Err(NetspotManagerError::NotFound);
        }
        assert(rows.skip(i as int)[0] == rows[i as int]);
        if entries[i].0 == id {
            return Ok(entries[i].1.status());
        }
        assert(rows.skip(i as int).drop_first() =~= rows.skip(i + 1));
        i += 1;
    }
}

/// The status listing: one row per supervised probe, in order.
pub fn status_all(entries: &Vec<(i32, ProbeEntry)>) -> (r: Vec<Status>)
    ensures
        r@.len() == entries@.len(),
        forall|j: int|
            0 <= j < entries@.len() ==> {
                &&& (#[trigger] r@[j])@.id == entries@[j].1@.id
                &&& r@[j]@.name == entries@[j].1@.config.configuration.name
                &&& r@[j]@.status == probe_status(entries@[j].1@)
            },
{
    let mut out: Vec<Status> = Vec::new();
    let mut i: usize = 0;
    while i < entries.len()
        invariant
            0 <= i <= entries.len(),
            out@.len() == i,
            forall|j: int|
                0 <= j < i ==> {
                    &&& (#[trigger] out@[j])@.id == entries@[j].1@.id
                    &&& out@[j]@.name == entries@[j].1@.config.configuration.name
                    &&& out@[j]@.status == probe_status(entries@[j].1@)
                },
        decreases entries.len() - i,
    {
        let row = entries[i].1.status();
        out.push(row);
        i += 1;
    }
    out
}

} // verus!
