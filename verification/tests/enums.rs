//! Enumeration parsing and canonical serialization.
use heyreach_client::domain::CampaignStatus;
use heyreach_client::domain::ListType;
use heyreach_client::domain::WebhookEventType;
use heyreach_client::domain::campaign_status_to_string;
use heyreach_client::domain::map_campaign_status;
use heyreach_client::domain::map_list_type;
use heyreach_client::domain::map_webhook_event_type;
use heyreach_client::domain::webhook_event_type_to_string;

#[test]
fn campaign_status_parses_any_casing() {
    assert_eq!(map_campaign_status("DRAFT"), CampaignStatus::Draft);
    assert_eq!(map_campaign_status("draft"), CampaignStatus::Draft);
    assert_eq!(map_campaign_status("Active"), CampaignStatus::Active);
    assert_eq!(map_campaign_status("aCtIvE"), CampaignStatus::Active);
    assert_eq!(map_campaign_status("PAUSED"), CampaignStatus::Paused);
    assert_eq!(map_campaign_status("Finished"), CampaignStatus::Finished);
    assert_eq!(map_campaign_status("canceled"), CampaignStatus::Canceled);
    assert_eq!(map_campaign_status("CANCELED"), CampaignStatus::Canceled);
}

#[test]
fn campaign_status_round_trips_to_lowercase_token() {
    let spellings = ["Draft", "ACTIVE", "pAuSeD", "FiniSHED", "Canceled"];
    let tokens = ["draft", "active", "paused", "finished", "canceled"];
    for (s, t) in spellings.iter().zip(tokens.iter()) {
        let parsed = map_campaign_status(s);
        assert_ne!(parsed, CampaignStatus::Unknown);
        assert_eq!(campaign_status_to_string(&parsed), *t);
    }
}

#[test]
fn campaign_status_unrecognized_degrades_to_unknown() {
    assert_eq!(map_campaign_status(""), CampaignStatus::Unknown);
    assert_eq!(map_campaign_status("running"), CampaignStatus::Unknown);
    assert_eq!(map_campaign_status("draft "), CampaignStatus::Unknown);
    assert_eq!(map_campaign_status("dra ft"), CampaignStatus::Unknown);
    assert_eq!(campaign_status_to_string(&CampaignStatus::Unknown), "unknown");
}

#[test]
fn list_type_parses_liberally() {
    assert_eq!(map_list_type("leads"), ListType::Leads);
    assert_eq!(map_list_type("LEADS"), ListType::Leads);
    assert_eq!(map_list_type("Companies"), ListType::Companies);
    assert_eq!(map_list_type("contacts"), ListType::Unknown);
    assert_eq!(map_list_type(""), ListType::Unknown);
}

#[test]
fn webhook_event_synonyms_parse_to_one_member() {
    let synonyms = [
        "ConnectionRequestSent",
        "connection_request_sent",
        "connection-request-sent",
        "CONNECTIONREQUESTSENT",
        "Connection_Request_Sent",
    ];
    for s in synonyms.iter() {
        assert_eq!(map_webhook_event_type(s), WebhookEventType::ConnectionRequestSent);
    }
    assert_eq!(
        webhook_event_type_to_string(&WebhookEventType::ConnectionRequestSent),
        "ConnectionRequestSent"
    );
}

#[test]
fn webhook_event_types_serialize_to_capitalized_tokens() {
    assert_eq!(map_webhook_event_type("connection_accepted"), WebhookEventType::ConnectionAccepted);
    assert_eq!(map_webhook_event_type("message-sent"), WebhookEventType::MessageSent);
    assert_eq!(map_webhook_event_type("MessageReplied"), WebhookEventType::MessageReplied);
    assert_eq!(map_webhook_event_type("something_else"), WebhookEventType::Unknown);
    assert_eq!(
        webhook_event_type_to_string(&WebhookEventType::ConnectionAccepted),
        "ConnectionAccepted"
    );
    assert_eq!(webhook_event_type_to_string(&WebhookEventType::MessageSent), "MessageSent");
    assert_eq!(webhook_event_type_to_string(&WebhookEventType::MessageReplied), "MessageReplied");
    assert_eq!(webhook_event_type_to_string(&WebhookEventType::Unknown), "Unknown");
}
