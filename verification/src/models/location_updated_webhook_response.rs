//! Payload of the webhook that announces a changed location.

use vstd::prelude::*;

verus! {

/// The kinds of webhook events that concern a location.
#[derive(Clone, Copy, Debug, PartialEq, Eq, Structural)]
pub enum LocationWebhookEventType {
    /// A location was created; on the wire `location.created`.
    LocationCreated,
    /// A location was changed; on the wire `location.updated`.
    LocationUpdated,
}

/// A point in time, kept as the RFC 3339 text that the service sent.
#[derive(Clone, Debug, PartialEq, Eq)]
pub struct DateTime {
    /// For example `2020-01-26T02:25:34Z`.
    pub rfc3339: String,
}

/// What a location event says about the object it concerns.
#[derive(Clone, Debug, PartialEq, Eq)]
pub struct LocationUpdatedEventData {
    /// Name of the affected object's type, `location`.
    pub object_type: String,
    /// The ID of the affected location.
    pub id: String,
}

/// Body of the notification that the service delivers when a location was
/// changed.
#[derive(Clone, Debug, PartialEq, Eq)]
pub struct LocationUpdatedWebhookResponse {
    /// The ID of the target seller associated with the event.
    pub merchant_id: String,
    /// The location id.
    pub location_id: String,
    /// The type of this event: `LocationUpdated`.
    pub event_type: LocationWebhookEventType,
    /// A unique ID for the event.
    pub event_id: String,
    /// When the event was created.
    pub created_at: DateTime,
    /// The data associated with the event.
    pub data: LocationUpdatedEventData,
}

} // verus!
