use vstd::prelude::*;

verus! {

/// What the operator configures, read once and never changed.
#[derive(Debug, Clone, PartialEq, Eq)]
pub struct Config {
    pub username: String,
    pub mining_key: String,
    pub difficulty: String,
    pub rig_identifier: String,
    pub thread_count: u32,
}

/// A configuration as plain values.
pub struct ConfigView {
    pub username: Seq<char>,
    pub mining_key: Seq<char>,
    pub difficulty: Seq<char>,
    pub rig_identifier: Seq<char>,
    pub thread_count: u32,
}

impl View for Config {
    type V = ConfigView;

    open spec fn view(&self) -> ConfigView {
        ConfigView {
            username: self.username@,
            mining_key: self.mining_key@,
            difficulty: self.difficulty@,
            rig_identifier: self.rig_identifier@,
            thread_count: self.thread_count,
        }
    }
}

impl Config {
    /// A copy of the configuration, for a worker of its own.
    pub fn duplicate(&self) -> (copy: Config)
        ensures
            copy == *self,
    {
        Config {
            username: self.username.clone(),
            mining_key: self.mining_key.clone(),
            difficulty: self.difficulty.clone(),
            rig_identifier: self.rig_identifier.clone(),
            thread_count: self.thread_count,
        }
    }
}

/// Where the pool can be reached.
#[derive(Debug, Clone, PartialEq, Eq)]
pub struct PoolInfo {
    pub ip: String,
    pub port: u16,
}

/// A pool's address as plain values.
pub struct PoolInfoView {
    pub ip: Seq<char>,
    pub port: u16,
}

impl View for PoolInfo {
    type V = PoolInfoView;

    open spec fn view(&self) -> PoolInfoView {
        PoolInfoView { ip: self.ip@, port: self.port }
    }
}

} // verus!
