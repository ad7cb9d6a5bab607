use squareup::models::location_updated_webhook_response::LocationUpdatedWebhookResponse as Payload;
use squareup::models::DateTime;
use squareup::models::LocationUpdatedEventData;
use squareup::models::LocationUpdatedWebhookResponse;
use squareup::models::LocationWebhookEventType;

fn sample() -> LocationUpdatedWebhookResponse {
    LocationUpdatedWebhookResponse {
        merchant_id: "6SSW7HV8K2ST5".to_string(),
        location_id: "S8GWD5R9QB376".to_string(),
        event_type: LocationWebhookEventType::LocationUpdated,
        event_id: "7fcb3b8b-6e4a-4e4d-a2b2-1f2b1c9d8e7f".to_string(),
        created_at: DateTime { rfc3339: "2020-01-26T02:25:34Z".to_string() },
        data: LocationUpdatedEventData {
            object_type: "location".to_string(),
            id: "S8GWD5R9QB376".to_string(),
        },
    }
}

#[test]
fn webhook_payload_keeps_its_fields() {
    let payload = sample();
    assert_eq!(payload.merchant_id, "6SSW7HV8K2ST5");
    assert_eq!(payload.location_id, "S8GWD5R9QB376");
    assert_eq!(payload.event_type, LocationWebhookEventType::LocationUpdated);
    assert_eq!(payload.event_id, "7fcb3b8b-6e4a-4e4d-a2b2-1f2b1c9d8e7f");
    assert_eq!(payload.created_at.rfc3339, "2020-01-26T02:25:34Z");
    assert_eq!(payload.data.object_type, "location");
    assert_eq!(payload.data.id, "S8GWD5R9QB376");
}

#[test]
fn webhook_payload_equals_its_clone() {
    let payload = sample();
    assert_eq!(payload.clone(), payload);
}

#[test]
fn webhook_payloads_differ_by_any_field() {
    let mut other = sample();
    other.event_id = "another".to_string();
    assert_ne!(other, sample());
    let mut later = sample();
    later.created_at = DateTime { rfc3339: "2020-01-25T18:25:34-08:00".to_string() };
    assert_ne!(later, sample());
    let mut created = sample();
    created.event_type = LocationWebhookEventType::LocationCreated;
    assert_ne!(created, sample());
}

#[test]
fn webhook_payload_is_reachable_by_its_module_path() {
    let payload: Payload = sample();
    assert_eq!(payload.data, sample().data);
}
