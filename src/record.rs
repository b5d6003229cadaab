use vstd::prelude::*;

verus! {

/// A record of the remote server, ordered and deduplicated by its key.
pub trait Record: Sized {
    /// The ordering and deduplication key.
    spec fn key_of(&self) -> i64;

    fn key(&self) -> (k: i64)
        ensures
            k == self.key_of(),
    ;
}

/// An instant as the remote server reports it: nanoseconds since the Unix
/// epoch, with the UTC offset (in seconds) it was written in.
#[derive(Clone, Copy, Debug, PartialEq, Eq, Structural)]
pub struct DateTime {
    pub unix_nanos: i128,
    pub offset_seconds: i32,
}

#[derive(Clone, Copy, Debug, PartialEq, Eq, Structural)]
pub enum BuildStatus {
    Successful,
    Recommended,
    Failed,
    Cancelled,
    Timeout,
    Running,
}

/// A finished (or running) build.
#[derive(Clone, Debug)]
pub struct Build {
    pub id: i64,
    pub configuration: i64,
    pub configuration_path: String,
    pub master_node_address: String,
    pub requester: i64,
    pub requester_name: Option<String>,
    pub canceller: Option<i64>,
    pub canceller_name: Option<String>,
    pub version: String,
    pub status: BuildStatus,
    pub begin_date: DateTime,
    pub status_date: Option<DateTime>,
    pub duration: i64,
    pub wait_duration: i64,
}

impl Record for Build {
    open spec fn key_of(&self) -> i64 {
        self.id
    }

    fn key(&self) -> (k: i64) {
        self.id
    }
}

#[derive(Clone, Copy, Debug, PartialEq, Eq, Structural)]
pub enum AlertPriority {
    Low,
    Medium,
    High,
}

#[derive(Clone, Copy, Debug, PartialEq, Eq, Structural)]
pub enum AlertCategory {
    System,
    Metric,
}

/// A system alert; alerts are ordered by their creation time.
#[derive(Clone, Debug)]
pub struct Alert {
    pub id: i64,
    pub subject: String,
    pub priority: AlertPriority,
    pub category: AlertCategory,
    pub alert_message: String,
    pub trigger: String,
    pub fixed: bool,
    pub ctime: i64,
    pub ack_time: i64,
}

impl Record for Alert {
    open spec fn key_of(&self) -> i64 {
        self.ctime
    }

    fn key(&self) -> (k: i64) {
        self.ctime
    }
}

} // verus!
