//! The user's settings, as the scheduler and the interface read them.
use vstd::prelude::*;
use vstd::string::StringExecFns;

verus! {

/// How long the scheduler waits before looking at unconfigured settings again.
pub const UNCONFIGURED_RETRY_SECS: u64 = 10;

#[derive(Clone, Copy, Debug, PartialEq, Eq, Structural)]
pub enum AppTheme {
    System,
    Light,
    Dark,
}

impl Default for AppTheme {
    fn default() -> (r: Self)
        ensures
            r == AppTheme::System,
    {
        AppTheme::System
    }
}

#[derive(Clone, Debug)]
pub struct AppSettings {
    pub enable_notifications: bool,
    pub notifications_total: u32,
    pub theme: AppTheme,
    pub server_url: String,
    pub user: String,
    pub token: String,
    pub poll_interval_in_secs: u32,
    pub last_notified_build_id: Option<u64>,
    pub paused: bool,
}

pub fn default_enable_notifications() -> (r: bool)
    ensures
        r,
{
    true
}

pub fn default_notifications_total() -> (r: u32)
    ensures
        r == 100,
{
    100
}

pub fn default_theme() -> (r: AppTheme)
    ensures
        r == AppTheme::System,
{
    AppTheme::System
}

pub fn default_poll_interval_in_secs() -> (r: u32)
    ensures
        r == 10,
{
    10
}

impl Default for AppSettings {
    /// Notifications on, 100 of them, the system theme, a ten-second poll,
    /// and no server, user or token yet.
    fn default() -> (r: Self)
        ensures
            r.enable_notifications,
            r.notifications_total == 100,
            r.theme == AppTheme::System,
            r.server_url@.len() == 0,
            r.user@.len() == 0,
            r.token@.len() == 0,
            r.poll_interval_in_secs == 10,
            r.last_notified_build_id is None,
            !r.paused,
    {
        AppSettings {
            enable_notifications: default_enable_notifications(),
            notifications_total: default_notifications_total(),
            theme: default_theme(),
            server_url: String::new(),
            user: String::new(),
            token: String::new(),
            poll_interval_in_secs: default_poll_interval_in_secs(),
            last_notified_build_id: None,
            paused: false,
        }
    }
}

impl AppSettings {
    /// A server, a user and a token are all given.
    pub open spec fn configured(&self) -> bool {
        self.server_url@.len() > 0 && self.user@.len() > 0 && self.token@.len() > 0
    }

    pub fn is_configured(&self) -> (r: bool)
        ensures
            r == self.configured(),
    {
        !self.server_url.as_str().is_empty() && !self.user.as_str().is_empty()
            && !self.token.as_str().is_empty()
    }

    /// The address of the server's dashboard.
    pub fn get_dashboard_url(&self) -> (r: String)
        ensures
            r@ == self.server_url@ + "/lite"@,
    {
        self.server_url.clone().concat("/lite")
    }
}

/// What the scheduler does at the top of its loop.
#[derive(Clone, Copy, Debug, PartialEq, Eq, Structural)]
pub enum PollPlan {
    /// Settings are incomplete: look again after this many seconds.
    AwaitConfiguration(u64),
    /// Polling is paused: look again after this many seconds.
    AwaitResume(u64),
    /// Fetch now, then sleep this many seconds.
    Fetch(u64),
}

/// Unconfigured settings wait a fixed short time, paused ones one poll
/// interval; otherwise the scheduler fetches.
pub fn plan_poll(settings: &AppSettings) -> (r: PollPlan)
    ensures
        r == (if !settings.configured() {
            PollPlan::AwaitConfiguration(UNCONFIGURED_RETRY_SECS)
        } else if settings.paused {
            PollPlan::AwaitResume(settings.poll_interval_in_secs as u64)
        } else {
            PollPlan::Fetch(settings.poll_interval_in_secs as u64)
        }),
{
    if !settings.is_configured() {
        PollPlan::AwaitConfiguration(UNCONFIGURED_RETRY_SECS)
    } else if settings.paused {
        PollPlan::AwaitResume(settings.poll_interval_in_secs as u64)
    } else {
        PollPlan::Fetch(settings.poll_interval_in_secs as u64)
    }
}

} // verus!
