//! Notifications that the hub asks the desktop to show.

use crate::config::Config;
use crate::mqtt::{MqttCommand, MqttCommandView, MqttMessage};
use crate::topics::{make_notify_topic, notify_topic};
use vstd::prelude::*;

verus! {

/// What the hub sends: a title and, if it likes, a message.
#[derive(Debug, PartialEq, Eq)]
pub struct NotificationData {
    pub message: Option<String>,
    pub title: String,
}

/// What is shown on the desktop.
#[derive(Debug, PartialEq, Eq)]
pub struct Notification {
    pub summary: String,
    pub appname: String,
    pub body: Option<String>,
}

/// The worker that shows notifications.
#[derive(Debug)]
pub struct NotificationsModule {
    topic: String,
}

impl NotificationsModule {
    /// The topic the worker listens on.
    pub closed spec fn topic(&self) -> Seq<char> {
        self.topic@
    }

    /// The worker for a configuration, or `None` where notifications are
    /// not switched on.
    pub fn new(config: &Config) -> (module: Option<NotificationsModule>)
        ensures
            module is Some <==> config.modules.notifications == Some(true),
            module matches Some(m) ==> m.topic() == notify_topic(config.hass.entity_id@),
    {
        match config.modules.notifications {
            Some(true) => Some(
                NotificationsModule { topic: make_notify_topic(config.hass.entity_id.as_str()) },
            ),
            _ => None,
        }
    }

    /// What the worker asks of the gateway when it starts: to listen on its
    /// topic.
    pub fn start(&self) -> (command: MqttCommand)
        ensures
            command@ == MqttCommandView::Subscribe(self.topic()),
    {
        MqttCommand::Subscribe(self.topic.clone())
    }

    /// Whether a message is a notification: the gateway hands every worker
    /// every message, and this one takes those on its own topic.
    pub fn accepts(&self, message: &MqttMessage) -> (accepted: bool)
        ensures
            accepted == (message.topic@ == self.topic()),
    {
        message.topic == self.topic
    }

    /// What to show for what the hub sent.
    pub fn notification(data: NotificationData) -> (shown: Notification)
        ensures
            shown.summary@ == data.title@,
            shown.appname@ == "desktop2mqtt"@,
            shown.body.deep_view() == data.message.deep_view(),
    {
        Notification { summary: data.title, appname: "desktop2mqtt".to_owned(), body: data.message }
    }
}

} // verus!
