//! The configuration of one run: whose record to keep current, and how often
//! to look.
//!
//! The configuration lives in a file that the caller reads. What follows
//! from the attempt is decided here by [`ClientConf::load`]: a missing file is
//! replaced by the default one for the operator to fill in, and the run stops
//! in either failing case.

use crate::duration::{subsec_nanos, whole_secs};
use crate::error::AppError;
use std::time::Duration;
use vstd::prelude::*;

verus! {

/// The settings of the agent. They do not change while it runs.
#[derive(Clone, Debug, PartialEq, Eq)]
pub struct ClientConf {
    token: String,
    record_id: u64,
    update_interval: u64,
}

/// What a [`ClientConf`] holds, as plain values.
pub struct ClientConfView {
    pub token: Seq<char>,
    pub record_id: u64,
    /// Minutes between two cycles.
    pub update_interval: u64,
}

/// What came of reading the configuration file.
#[derive(Debug)]
pub enum ConfRead {
    /// There is no such file; the error is that of the attempt to read it.
    Missing(AppError),
    /// The file could not be read, or what it holds is no configuration.
    Unusable(AppError),
    /// The file holds this configuration.
    Found(ClientConf),
}

/// What to do once the configuration file was read.
#[derive(Debug)]
pub enum LoadStep {
    /// Go on with this configuration.
    Ready(ClientConf),
    /// Write this configuration to the file, then stop with this error.
    WriteDefault(ClientConf, AppError),
    /// Stop with this error.
    GiveUp(AppError),
}

impl ClientConfView {
    /// The configuration written out on a first run: no token, record 0,
    /// one cycle every 5 minutes.
    pub open spec fn initial() -> ClientConfView {
        ClientConfView { token: Seq::empty(), record_id: 0, update_interval: 5 }
    }

    /// The interval between two cycles, in seconds.
    pub open spec fn interval_secs(self) -> int {
        self.update_interval * 60
    }

    /// A configuration can be run with when its interval is positive and,
    /// counted in seconds, still fits in a `u64`.
    pub open spec fn valid(self) -> bool {
        0 < self.update_interval && self.interval_secs() <= u64::MAX
    }
}

impl View for ClientConf {
    type V = ClientConfView;

    closed spec fn view(&self) -> ClientConfView {
        ClientConfView {
            token: self.token@,
            record_id: self.record_id,
            update_interval: self.update_interval,
        }
    }
}

impl Default for ClientConf {
    /// The configuration written out on a first run: no token, record 0,
    /// one cycle every 5 minutes.
    fn default() -> (conf: Self)
        ensures
            conf@ == ClientConfView::initial(),
    {
        ClientConf { token: String::new(), record_id: 0, update_interval: 5 }
    }
}

impl ClientConf {
    /// A configuration with the given settings; `update_interval` is in
    /// minutes.
    pub fn new(token: String, record_id: u64, update_interval: u64) -> (conf: Self)
        ensures
            conf@ == (ClientConfView { token: token@, record_id, update_interval }),
    {
        ClientConf { token, record_id, update_interval }
    }

    /// Decides what follows from reading the configuration file. Only a
    /// configuration that was found is run with. A missing file is answered
    /// with the default configuration to write in its place, and with the
    /// error to stop with: the default has no credentials to run on.
    pub fn load(read: ConfRead) -> (step: LoadStep)
        ensures
            match read {
                ConfRead::Found(conf) => step == LoadStep::Ready(conf),
                ConfRead::Missing(e) => step matches LoadStep::WriteDefault(conf, err) && conf@
                    == ClientConfView::initial() && err == e,
                ConfRead::Unusable(e) => step == LoadStep::GiveUp(e),
            },
    {
        match read {
            ConfRead::Found(conf) => LoadStep::Ready(conf),
            ConfRead::Missing(e) => LoadStep::WriteDefault(ClientConf::default(), e),
            ConfRead::Unusable(e) => LoadStep::GiveUp(e),
        }
    }

    /// The credential for the record API.
    pub fn token(&self) -> (token: &str)
        ensures
            token@ == self@.token,
    {
        self.token.as_str()
    }

    /// The id of the remote record.
    pub fn record_id(&self) -> (id: u64)
        ensures
            id == self@.record_id,
    {
        self.record_id
    }

    /// The time between two cycles.
    pub fn interval(&self) -> (d: Duration)
        requires
            self@.interval_secs() <= u64::MAX,
        ensures
            whole_secs(d) == self@.interval_secs(),
            subsec_nanos(d) == 0,
    {
        Duration::from_secs(self.update_interval * 60)
    }

    /// The time between two cycles, in minutes.
    pub fn interval_min(&self) -> (minutes: u64)
        ensures
            minutes == self@.update_interval,
    {
        self.update_interval
    }

    /// Whether the agent can run with this configuration.
    pub fn is_valid(&self) -> (ok: bool)
        ensures
            ok == self@.valid(),
    {
        0 < self.update_interval && self.update_interval <= u64::MAX / 60
    }
}

} // verus!
