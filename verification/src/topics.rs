//! The topic scheme: where each kind of message is published or listened
//! for. Every topic is built from the entity id of the desktop.

use crate::text::{join2, join3};
use vstd::prelude::*;

verus! {

/// The topic of the state snapshot: `desktop2mqtt/<entity>`.
pub open spec fn state_topic(entity_id: Seq<char>) -> Seq<char> {
    "desktop2mqtt/"@ + entity_id
}

/// The topic that tells whether the bridge is running:
/// `desktop2mqtt/<entity>/availability`.
pub open spec fn availability_topic(entity_id: Seq<char>) -> Seq<char> {
    state_topic(entity_id) + "/availability"@
}

/// The topic on which the hub sends backlight commands:
/// `desktop2mqtt/<entity>/set`.
pub open spec fn command_topic(entity_id: Seq<char>) -> Seq<char> {
    state_topic(entity_id) + "/set"@
}

/// The topic on which the hub sends notifications:
/// `desktop2mqtt/<entity>/notify`.
pub open spec fn notify_topic(entity_id: Seq<char>) -> Seq<char> {
    state_topic(entity_id) + "/notify"@
}

/// The topic that triggers the custom command with the given slug:
/// `desktop2mqtt/<entity>/<slug>`.
pub open spec fn custom_command_topic(entity_id: Seq<char>, slug: Seq<char>) -> Seq<char> {
    state_topic(entity_id) + "/"@ + slug
}

/// The topic on which an entity is registered with the hub:
/// `homeassistant/<component>/<entity>/<object>/config`.
pub open spec fn discovery_topic(
    component: Seq<char>,
    entity_id: Seq<char>,
    object_id: Seq<char>,
) -> Seq<char> {
    "homeassistant/"@ + component + "/"@ + entity_id + "/"@ + object_id + "/config"@
}

pub fn make_state_topic(entity_id: &str) -> (topic: String)
    ensures
        topic@ == state_topic(entity_id@),
{
    join2("desktop2mqtt/", entity_id)
}

/// The availability topic that belongs to a state topic.
pub fn make_availability_topic(state_topic: &str) -> (topic: String)
    ensures
        topic@ == state_topic@ + "/availability"@,
{
    join2(state_topic, "/availability")
}

/// The command topic that belongs to a state topic.
pub fn make_command_topic(state_topic: &str) -> (topic: String)
    ensures
        topic@ == state_topic@ + "/set"@,
{
    join2(state_topic, "/set")
}

pub fn make_notify_topic(entity_id: &str) -> (topic: String)
    ensures
        topic@ == notify_topic(entity_id@),
{
    join3("desktop2mqtt/", entity_id, "/notify")
}

pub fn make_custom_command_topic(entity_id: &str, slug: &str) -> (topic: String)
    ensures
        topic@ == custom_command_topic(entity_id@, slug@),
{
    let mut topic = join3("desktop2mqtt/", entity_id, "/");
    topic.append(slug);
    topic
}

pub fn make_discovery_topic(component: &str, entity_id: &str, object_id: &str) -> (topic: String)
    ensures
        topic@ == discovery_topic(component@, entity_id@, object_id@),
{
    let mut topic = join3("homeassistant/", component, "/");
    topic.append(entity_id);
    topic.append("/");
    topic.append(object_id);
    topic.append("/config");
    topic
}

} // verus!
