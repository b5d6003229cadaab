//! The decisions of one poll: what the user is told, whether the interface
//! must refresh, and what the error state becomes.
use vstd::prelude::*;
use vstd::string::StringExecFns;
use crate::record::{Alert, Build, BuildStatus};
use crate::text::{decimal, decimal_string};

verus! {

/// The error shown for a kind of record while its fetches fail.
pub const POLLING_FAILED_MESSAGE: &'static str = "Polling failed, please check your connection and try again";

/// Event names that ask the interface to query a store again.
pub const BUILDS_REFRESH_EVENT: &'static str = "builds-refresh-page";
pub const ALERTS_REFRESH_EVENT: &'static str = "alerts-refresh-page";

/// A native notification to show.
pub struct Notification {
    pub title: String,
    pub body: Option<String>,
}

impl DeepView for Notification {
    type V = (Seq<char>, Option<Seq<char>>);

    open spec fn deep_view(&self) -> (Seq<char>, Option<Seq<char>>) {
        (self.title@, self.body.deep_view())
    }
}

/// The interface refreshes when records arrived or the error state changed
/// (appeared, cleared, or became another error).
pub open spec fn refresh_needed(
    old_error: Option<Seq<char>>,
    new_error: Option<Seq<char>>,
    fetched: nat,
) -> bool {
    fetched > 0 || old_error != new_error
}

/// Decides whether the interface must query the store again.
pub fn should_refresh(old_error: &Option<String>, new_error: &Option<String>, fetched: usize) -> (r:
    bool)
    ensures
        r == refresh_needed(old_error.deep_view(), new_error.deep_view(), fetched as nat),
{
    let changed = match old_error {
        None => new_error.is_some(),
        Some(a) => match new_error {
            None => true,
            Some(b) => !a.eq(b),
        },
    };
    assert(changed == (old_error.deep_view() != new_error.deep_view()));
    fetched > 0 || changed
}

/// With nothing fetched, the interface refreshes exactly when the error
/// state moved: from none to an error, from an error to none, or from one
/// error to another; not from none to none, nor from an error to the same
/// error. With records fetched it always refreshes.
pub proof fn lemma_refresh_on_error_transitions(
    old_error: Option<Seq<char>>,
    new_error: Option<Seq<char>>,
    fetched: nat,
)
    ensures
        refresh_needed(old_error, new_error, 0) <==> !((old_error is None && new_error is None) || (
        old_error is Some && new_error is Some && old_error->0 == new_error->0)),
        fetched > 0 ==> refresh_needed(old_error, new_error, fetched),
{
}

/// How a build's status reads after its version.
pub open spec fn status_phrase(s: BuildStatus) -> Seq<char> {
    match s {
        BuildStatus::Successful => " finished successfully 🎉"@,
        BuildStatus::Cancelled => " cancelled"@,
        BuildStatus::Failed => " failed"@,
        BuildStatus::Timeout => " timed out"@,
        BuildStatus::Recommended => " was recommended"@,
        BuildStatus::Running => " is running"@,
    }
}

fn status_phrase_str(s: BuildStatus) -> (r: &'static str)
    ensures
        r@ == status_phrase(s),
{
    match s {
        BuildStatus::Successful => " finished successfully 🎉",
        BuildStatus::Cancelled => " cancelled",
        BuildStatus::Failed => " failed",
        BuildStatus::Timeout => " timed out",
        BuildStatus::Recommended => " was recommended",
        BuildStatus::Running => " is running",
    }
}

pub open spec fn build_subject(b: Build) -> Seq<char> {
    "Build "@ + b.version@ + status_phrase(b.status)
}

pub open spec fn build_body(b: Build) -> Seq<char> {
    "\nConfiguration:    "@ + b.configuration_path@ + "\nTriggered by:     "@ + match b.requester_name {
        Some(name) => name@,
        None => Seq::<char>::empty(),
    } + "\n        "@
}

impl Build {
    /// The notification title for this build.
    pub fn get_subject(&self) -> (r: String)
        ensures
            r@ == build_subject(*self),
    {
        String::from_str("Build ").concat(self.version.as_str()).concat(status_phrase_str(self.status))
    }

    /// The notification body for this build: its configuration and requester.
    pub fn get_body(&self) -> (r: String)
        ensures
            r@ == build_body(*self),
    {
        let s = String::from_str("\nConfiguration:    ").concat(self.configuration_path.as_str()).concat(
            "\nTriggered by:     ",
        );
        let s = match &self.requester_name {
            Some(name) => s.concat(name.as_str()),
            None => s,
        };
        let r = s.concat("\n        ");
        assert(r@ =~= build_body(*self));
        r
    }
}

/// What the user is told of newly fetched builds: nothing for none, the
/// build itself for one, a count for more.
pub open spec fn builds_notice(builds: Seq<Build>) -> Option<(Seq<char>, Option<Seq<char>>)> {
    if builds.len() == 0 {
        None
    } else if builds.len() == 1 {
        Some((build_subject(builds[0]), Some(build_body(builds[0]))))
    } else {
        Some((decimal(builds.len()) + " new builds are finished"@, None))
    }
}

/// What the user is told of newly fetched alerts: nothing for none, the alert
/// itself for one; for more, their count in the title, and in the body the
/// first alert with a count of the rest.
pub open spec fn alerts_notice(alerts: Seq<Alert>) -> Option<(Seq<char>, Option<Seq<char>>)> {
    if alerts.len() == 0 {
        None
    } else if alerts.len() == 1 {
        Some((alerts[0].subject@, Some(alerts[0].alert_message@)))
    } else {
        Some(
            (
                decimal(alerts.len()) + " new alerts are available"@,
                Some(
                    alerts[0].subject@ + ": "@ + alerts[0].alert_message@ + "\n\n and "@
                        + decimal((alerts.len() - 1) as nat) + " more ..."@,
                ),
            ),
        )
    }
}

/// The notification for a batch of newly fetched builds.
pub fn builds_notification(builds: &Vec<Build>) -> (r: Option<Notification>)
    ensures
        r.deep_view() == builds_notice(builds@),
{
    let n = builds.len();
    if n == 0 {
        None
    } else if n == 1 {
        let b = &builds[0];
        Some(Notification { title: b.get_subject(), body: Some(b.get_body()) })
    } else {
        let title = decimal_string(n as u64).concat(" new builds are finished");
        Some(Notification { title, body: None })
    }
}

/// The notification for a batch of newly fetched alerts.
pub fn alerts_notification(alerts: &Vec<Alert>) -> (r: Option<Notification>)
    ensures
        r.deep_view() == alerts_notice(alerts@),
{
    let n = alerts.len();
    if n == 0 {
        None
    } else if n == 1 {
        let a = &alerts[0];
        Some(Notification { title: a.subject.clone(), body: Some(a.alert_message.clone()) })
    } else {
        let a = &alerts[0];
        let title = decimal_string(n as u64).concat(" new alerts are available");
        let more = decimal_string((n - 1) as u64);
        let body = a.subject.clone().concat(": ").concat(a.alert_message.as_str()).concat(
            "\n\n and ",
        ).concat(more.as_str()).concat(" more ...");
        Some(Notification { title, body: Some(body) })
    }
}

} // verus!
