//! The state shared by the scheduler and the interface: one store per kind
//! of record, the settings, and each kind's last error.
use vstd::prelude::*;
use vstd::string::StringExecFns;
use crate::history::{add_batch, newest_key};
use crate::poll::{
    Notification, POLLING_FAILED_MESSAGE, alerts_notice, alerts_notification, builds_notice,
    builds_notification, refresh_needed, should_refresh,
};
use crate::record::{Alert, Build, DateTime};
use crate::settings::AppSettings;
use crate::store::{AlertStore, BuildStore};

verus! {

/// What the program around the library does after a fetch has been recorded.
pub struct PollActions {
    /// A notification to show, if any.
    pub notification: Option<Notification>,
    /// The store changed and must be written to disk.
    pub save: bool,
    /// The interface must query the store again.
    pub refresh: bool,
}

pub struct AppState {
    pub settings: AppSettings,
    pub build_store: BuildStore,
    pub alert_store: AlertStore,
    pub build_polling_error: Option<String>,
    pub alert_polling_error: Option<String>,
    pub last_polling_time: Option<DateTime>,
}

impl AppState {
    pub open spec fn wf(&self) -> bool {
        self.build_store.wf() && self.alert_store.wf()
    }

    /// The builds held, ascending by id.
    pub open spec fn builds(&self) -> Seq<Build> {
        self.build_store@
    }

    /// The alerts held, ascending by creation time.
    pub open spec fn alerts(&self) -> Seq<Alert> {
        self.alert_store@
    }

    pub fn new(settings: AppSettings, builds_cache: BuildStore, alert_store: AlertStore) -> (r: Self)
        requires
            builds_cache.wf(),
            alert_store.wf(),
        ensures
            r.wf(),
            r.settings == settings,
            r.builds() == builds_cache@,
            r.alerts() == alert_store@,
            r.build_polling_error is None,
            r.alert_polling_error is None,
            r.last_polling_time is None,
    {
        AppState {
            settings,
            build_store: builds_cache,
            alert_store,
            build_polling_error: None,
            alert_polling_error: None,
            last_polling_time: None,
        }
    }

    pub fn reload_settings(&mut self, settings: AppSettings)
        ensures
            final(self).settings == settings,
            final(self).wf() == old(self).wf(),
            final(self).builds() == old(self).builds(),
            final(self).alerts() == old(self).alerts(),
            final(self).build_polling_error == old(self).build_polling_error,
            final(self).alert_polling_error == old(self).alert_polling_error,
            final(self).last_polling_time == old(self).last_polling_time,
    {
        self.settings = settings;
    }

    /// Merges builds into the build store; true when the store must be
    /// written to disk, which is when the batch is not empty.
    pub fn add_builds(&mut self, builds: Vec<Build>) -> (save: bool)
        requires
            old(self).wf(),
        ensures
            final(self).wf(),
            save == (builds@.len() > 0),
            final(self).builds() == add_batch(old(self).builds(), builds@, old(self).build_store.capacity()),
            final(self).alerts() == old(self).alerts(),
            final(self).settings == old(self).settings,
            final(self).build_polling_error == old(self).build_polling_error,
            final(self).alert_polling_error == old(self).alert_polling_error,
            final(self).last_polling_time == old(self).last_polling_time,
    {
        let save = builds.len() > 0;
        self.build_store.add_builds(builds);
        save
    }

    /// Forgets every build; the store must then be written to disk.
    pub fn clear_builds(&mut self)
        requires
            old(self).wf(),
        ensures
            final(self).wf(),
            final(self).builds() == Seq::<Build>::empty(),
            final(self).alerts() == old(self).alerts(),
            final(self).settings == old(self).settings,
            final(self).build_polling_error == old(self).build_polling_error,
            final(self).alert_polling_error == old(self).alert_polling_error,
            final(self).last_polling_time == old(self).last_polling_time,
    {
        self.build_store.clear();
    }

    /// The builds, newest first.
    pub fn get_builds(&self) -> (r: Vec<Build>)
        requires
            self.wf(),
        ensures
            r@ == self.builds().reverse(),
    {
        self.build_store.get_all()
    }

    pub fn get_last_notified_build_id(&self) -> (r: Option<i64>)
        ensures
            r == newest_key(self.builds()),
    {
        self.build_store.get_last_notified_build_id()
    }

    /// Merges alerts into the alert store; true when the store must be
    /// written to disk, which is when the batch is not empty.
    pub fn add_alerts(&mut self, alerts: Vec<Alert>) -> (save: bool)
        requires
            old(self).wf(),
        ensures
            final(self).wf(),
            save == (alerts@.len() > 0),
            final(self).alerts() == add_batch(old(self).alerts(), alerts@, old(self).alert_store.capacity()),
            final(self).builds() == old(self).builds(),
            final(self).settings == old(self).settings,
            final(self).build_polling_error == old(self).build_polling_error,
            final(self).alert_polling_error == old(self).alert_polling_error,
            final(self).last_polling_time == old(self).last_polling_time,
    {
        let save = alerts.len() > 0;
        self.alert_store.add_alerts(alerts);
        save
    }

    /// Forgets every alert; the store must then be written to disk.
    pub fn clear_alerts(&mut self)
        requires
            old(self).wf(),
        ensures
            final(self).wf(),
            final(self).alerts() == Seq::<Alert>::empty(),
            final(self).builds() == old(self).builds(),
            final(self).settings == old(self).settings,
            final(self).build_polling_error == old(self).build_polling_error,
            final(self).alert_polling_error == old(self).alert_polling_error,
            final(self).last_polling_time == old(self).last_polling_time,
    {
        self.alert_store.clear();
    }

    /// The alerts, newest first.
    pub fn get_alerts(&self) -> (r: Vec<Alert>)
        requires
            self.wf(),
        ensures
            r@ == self.alerts().reverse(),
    {
        self.alert_store.get_all()
    }

    pub fn get_last_notified_time(&self) -> (r: Option<i64>)
        ensures
            r == newest_key(self.alerts()),
    {
        self.alert_store.get_last_notified_time()
    }

    /// Records the outcome of a build fetch (`None` when it failed): merges
    /// what arrived, sets or clears the error, and says what to do next.
    pub fn record_builds_fetch(&mut self, fetched: Option<Vec<Build>>) -> (r: PollActions)
        requires
            old(self).wf(),
        ensures
            final(self).wf(),
            final(self).alerts() == old(self).alerts(),
            final(self).settings == old(self).settings,
            final(self).alert_polling_error == old(self).alert_polling_error,
            final(self).last_polling_time == old(self).last_polling_time,
            r.refresh == refresh_needed(
                old(self).build_polling_error.deep_view(),
                final(self).build_polling_error.deep_view(),
                match fetched {
                    Some(v) => v@.len(),
                    None => 0,
                },
            ),
            match fetched {
                Some(v) => {
                    &&& final(self).builds() == add_batch(old(self).builds(), v@, old(self).build_store.capacity())
                    &&& final(self).build_polling_error is None
                    &&& r.notification.deep_view() == builds_notice(v@)
                    &&& r.save == (v@.len() > 0)
                },
                None => {
                    &&& final(self).builds() == old(self).builds()
                    &&& final(self).build_polling_error.deep_view() == Some(
                        POLLING_FAILED_MESSAGE@,
                    )
                    &&& r.notification is None
                    &&& !r.save
                },
            },
    {
        match fetched {
            Some(builds) => {
                let notification = builds_notification(&builds);
                let count = builds.len();
                let save = self.add_builds(builds);
                let new_error: Option<String> = None;
                let refresh = should_refresh(&self.build_polling_error, &new_error, count);
                self.build_polling_error = new_error;
                PollActions { notification, save, refresh }
            },
            None => {
                let new_error = Some(String::from_str(POLLING_FAILED_MESSAGE));
                let refresh = should_refresh(&self.build_polling_error, &new_error, 0);
                self.build_polling_error = new_error;
                PollActions { notification: None, save: false, refresh }
            },
        }
    }

    /// Records the outcome of an alert fetch (`None` when it failed): merges
    /// what arrived, sets or clears the error, and says what to do next.
    pub fn record_alerts_fetch(&mut self, fetched: Option<Vec<Alert>>) -> (r: PollActions)
        requires
            old(self).wf(),
        ensures
            final(self).wf(),
            final(self).builds() == old(self).builds(),
            final(self).settings == old(self).settings,
            final(self).build_polling_error == old(self).build_polling_error,
            final(self).last_polling_time == old(self).last_polling_time,
            r.refresh == refresh_needed(
                old(self).alert_polling_error.deep_view(),
                final(self).alert_polling_error.deep_view(),
                match fetched {
                    Some(v) => v@.len(),
                    None => 0,
                },
            ),
            match fetched {
                Some(v) => {
                    &&& final(self).alerts() == add_batch(old(self).alerts(), v@, old(self).alert_store.capacity())
                    &&& final(self).alert_polling_error is None
                    &&& r.notification.deep_view() == alerts_notice(v@)
                    &&& r.save == (v@.len() > 0)
                },
                None => {
                    &&& final(self).alerts() == old(self).alerts()
                    &&& final(self).alert_polling_error.deep_view() == Some(
                        POLLING_FAILED_MESSAGE@,
                    )
                    &&& r.notification is None
                    &&& !r.save
                },
            },
    {
        match fetched {
            Some(alerts) => {
                let notification = alerts_notification(&alerts);
                let count = alerts.len();
                let save = self.add_alerts(alerts);
                let new_error: Option<String> = None;
                let refresh = should_refresh(&self.alert_polling_error, &new_error, count);
                self.alert_polling_error = new_error;
                PollActions { notification, save, refresh }
            },
            None => {
                let new_error = Some(String::from_str(POLLING_FAILED_MESSAGE));
                let refresh = should_refresh(&self.alert_polling_error, &new_error, 0);
                self.alert_polling_error = new_error;
                PollActions { notification: None, save: false, refresh }
            },
        }
    }

    /// Notes when the last poll ran.
    pub fn mark_polled(&mut self, now: DateTime)
        ensures
            final(self).last_polling_time == Some(now),
            final(self).wf() == old(self).wf(),
            final(self).builds() == old(self).builds(),
            final(self).alerts() == old(self).alerts(),
            final(self).settings == old(self).settings,
            final(self).build_polling_error == old(self).build_polling_error,
            final(self).alert_polling_error == old(self).alert_polling_error,
    {
        self.last_polling_time = Some(now);
    }
}

} // verus!
