//! Records that mirror the JSON schema of the remote service.

pub mod location_updated_webhook_response;

pub use location_updated_webhook_response::DateTime;
pub use location_updated_webhook_response::LocationUpdatedEventData;
pub use location_updated_webhook_response::LocationUpdatedWebhookResponse;
pub use location_updated_webhook_response::LocationWebhookEventType;
