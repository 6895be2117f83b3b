//! Request construction: methods, paths and exact JSON bodies.
use heyreach_client::client::campaigns_add_leads_request;
use heyreach_client::client::campaigns_get_all_request;
use heyreach_client::client::campaigns_get_by_id_request;
use heyreach_client::client::campaigns_pause_request;
use heyreach_client::client::campaigns_resume_request;
use heyreach_client::client::check_api_key_request;
use heyreach_client::client::inbox_get_conversations_v2_request;
use heyreach_client::client::inbox_send_message_request;
use heyreach_client::client::lead_get_lists_request;
use heyreach_client::client::lead_get_request;
use heyreach_client::client::lead_replace_tags_request;
use heyreach_client::client::lists_add_leads_request;
use heyreach_client::client::lists_delete_leads_by_profile_url_request;
use heyreach_client::client::lists_get_all_request;
use heyreach_client::client::lists_get_leads_request;
use heyreach_client::client::webhooks_create_request;
use heyreach_client::client::webhooks_delete_request;
use heyreach_client::client::webhooks_get_all_request;
use heyreach_client::domain::AccountLeadPair;
use heyreach_client::domain::CampaignAddLeadsRequest;
use heyreach_client::domain::CampaignFilter;
use heyreach_client::domain::CampaignStatus;
use heyreach_client::domain::CreateWebhookRequest;
use heyreach_client::domain::CustomUserField;
use heyreach_client::domain::GetWebhooksFilter;
use heyreach_client::domain::InboxFilters;
use heyreach_client::domain::InboxGetConversationsRequest;
use heyreach_client::domain::InboxSendMessageRequest;
use heyreach_client::domain::Lead;
use heyreach_client::domain::LeadListsRequest;
use heyreach_client::domain::LeadReplaceTagsRequest;
use heyreach_client::domain::ListGetAllFilter;
use heyreach_client::domain::ListLeadDeleteByProfileUrlRequest;
use heyreach_client::domain::WebhookEventType;
use heyreach_client::transport::HttpMethod;
use heyreach_client::transport::base_authority;
use heyreach_client::transport::request_headers;

fn lead(first: &str, last: &str, url: &str) -> Lead {
    Lead {
        first_name: first.to_string(),
        last_name: last.to_string(),
        profile_url: url.to_string(),
        location: None,
        summary: None,
        company_name: None,
        position: None,
        about: None,
        email_address: None,
        custom_user_fields: Vec::new(),
    }
}

#[test]
fn requests_target_the_fixed_origin() {
    assert_eq!(base_authority(), "api.heyreach.io");
}

#[test]
fn every_request_carries_the_two_fixed_headers() {
    let h = request_headers("secret-key");
    assert_eq!(h.len(), 2);
    assert_eq!(h[0].0, "content-type");
    assert_eq!(h[0].1, "application/json; charset=utf-8");
    assert_eq!(h[1].0, "x-api-key");
    assert_eq!(h[1].1, "secret-key");
}

#[test]
fn check_api_key_is_a_bare_get() {
    let r = check_api_key_request();
    assert_eq!(r.method, HttpMethod::Get);
    assert_eq!(r.path, "/api/public/auth/CheckApiKey");
    assert!(r.body.is_none());
}

#[test]
fn campaign_listing_body_serializes_statuses_to_lowercase_tokens() {
    let r = campaigns_get_all_request(CampaignFilter {
        offset: 1,
        limit: 2,
        keyword: None,
        statuses: vec![CampaignStatus::Active, CampaignStatus::Draft, CampaignStatus::Unknown],
        account_ids: vec![10, 20],
    });
    assert_eq!(r.method, HttpMethod::Post);
    assert_eq!(r.path, "/api/public/campaign/GetAll");
    assert_eq!(
        r.body.unwrap(),
        "{\"offset\":1,\"limit\":2,\"statuses\":[\"active\",\"draft\",\"unknown\"],\"accountIds\":[10,20]}"
    );
}

#[test]
fn campaign_listing_body_includes_the_keyword_only_when_present() {
    let r = campaigns_get_all_request(CampaignFilter {
        offset: 0,
        limit: 50,
        keyword: Some("growth".to_string()),
        statuses: Vec::new(),
        account_ids: Vec::new(),
    });
    assert_eq!(
        r.body.unwrap(),
        "{\"offset\":0,\"limit\":50,\"keyword\":\"growth\",\"statuses\":[],\"accountIds\":[]}"
    );
}

#[test]
fn keyword_strings_are_json_escaped() {
    let r = lists_get_all_request(ListGetAllFilter {
        offset: 0,
        limit: 1,
        keyword: Some("a\"b\\c\nd\u{1}".to_string()),
    });
    assert_eq!(
        r.body.unwrap(),
        "{\"offset\":0,\"limit\":1,\"keyword\":\"a\\\"b\\\\c\\nd\\u0001\"}"
    );
}

#[test]
fn id_paths_render_ids_in_decimal() {
    let r = campaigns_get_by_id_request(42);
    assert_eq!(r.method, HttpMethod::Get);
    assert_eq!(r.path, "/api/public/campaign/GetById?campaignId=42");
    assert!(r.body.is_none());
    assert_eq!(campaigns_resume_request(0).path, "/api/public/campaign/Resume?campaignId=0");
    assert_eq!(campaigns_pause_request(7).path, "/api/public/campaign/Pause?campaignId=7");
    assert_eq!(
        webhooks_delete_request(u64::MAX).path,
        "/api/public/webhooks/DeleteWebhook?webhookId=18446744073709551615"
    );
}

#[test]
fn add_leads_body_nests_pairs_and_custom_fields() {
    let mut l = lead("F", "L", "U");
    l.custom_user_fields.push(CustomUserField { name: "n".to_string(), value: "v".to_string() });
    let r = campaigns_add_leads_request(CampaignAddLeadsRequest {
        campaign_id: 9,
        account_lead_pairs: vec![
            AccountLeadPair { linked_in_account_id: Some(4), lead: l },
            AccountLeadPair { linked_in_account_id: None, lead: lead("A", "B", "C") },
        ],
    });
    assert_eq!(r.path, "/api/public/campaign/AddLeadsToCampaign");
    assert_eq!(
        r.body.unwrap(),
        "{\"campaignId\":9,\"accountLeadPairs\":[\
         {\"linkedInAccountId\":4,\"lead\":{\"firstName\":\"F\",\"lastName\":\"L\",\"profileUrl\":\"U\",\
         \"customUserFields\":[{\"name\":\"n\",\"value\":\"v\"}]}},\
         {\"lead\":{\"firstName\":\"A\",\"lastName\":\"B\",\"profileUrl\":\"C\",\"customUserFields\":[]}}]}"
    );
}

#[test]
fn lead_optional_members_are_omitted_not_nulled() {
    let mut l = lead("F", "L", "U");
    l.location = Some("X".to_string());
    l.email_address = Some("e@x".to_string());
    let r = lists_add_leads_request(3, vec![l]);
    assert_eq!(r.path, "/api/public/list/AddLeadsToList");
    assert_eq!(
        r.body.unwrap(),
        "{\"listId\":3,\"leads\":[{\"firstName\":\"F\",\"lastName\":\"L\",\"profileUrl\":\"U\",\
         \"location\":\"X\",\"emailAddress\":\"e@x\",\"customUserFields\":[]}]}"
    );
}

#[test]
fn get_leads_from_list_body_has_camel_case_keys() {
    let r = lists_get_leads_request(5, 10, 25, Some("k".to_string()));
    assert_eq!(r.path, "/api/public/list/GetLeadsFromList");
    assert_eq!(r.body.unwrap(), "{\"listId\":5,\"offset\":10,\"limit\":25,\"keyword\":\"k\"}");
}

#[test]
fn delete_by_profile_url_uses_the_delete_method() {
    let r = lists_delete_leads_by_profile_url_request(ListLeadDeleteByProfileUrlRequest {
        list_id: 8,
        profile_urls: vec!["u1".to_string(), "u2".to_string()],
    });
    assert_eq!(r.method, HttpMethod::Delete);
    assert_eq!(r.path, "/api/public/list/DeleteLeadsFromListByProfileUrl");
    assert_eq!(r.body.unwrap(), "{\"listId\":8,\"profileUrls\":[\"u1\",\"u2\"]}");
}

#[test]
fn lead_lookup_body_carries_the_profile_url() {
    let r = lead_get_request("https://example.invalid/in/someone".to_string());
    assert_eq!(r.path, "/api/public/lead/GetLead");
    assert_eq!(
        r.body.unwrap(),
        "{\"profileUrl\":\"https://example.invalid/in/someone\"}"
    );
}

#[test]
fn lists_for_lead_body_omits_absent_identifiers() {
    let r = lead_get_lists_request(LeadListsRequest {
        email: None,
        linkedin_id: None,
        profile_url: Some("p".to_string()),
        offset: 0,
        limit: 5,
    });
    assert_eq!(r.body.unwrap(), "{\"profileUrl\":\"p\",\"offset\":0,\"limit\":5}");
    let r = lead_get_lists_request(LeadListsRequest {
        email: None,
        linkedin_id: None,
        profile_url: None,
        offset: 0,
        limit: 5,
    });
    assert_eq!(r.body.unwrap(), "{\"offset\":0,\"limit\":5}");
    let r = lead_get_lists_request(LeadListsRequest {
        email: Some("e".to_string()),
        linkedin_id: Some("l".to_string()),
        profile_url: None,
        offset: 1,
        limit: 2,
    });
    assert_eq!(
        r.body.unwrap(),
        "{\"email\":\"e\",\"linkedinId\":\"l\",\"offset\":1,\"limit\":2}"
    );
}

#[test]
fn tag_replacement_body_carries_the_creation_flag() {
    let r = lead_replace_tags_request(LeadReplaceTagsRequest {
        lead_profile_url: Some("u".to_string()),
        lead_linked_in_id: None,
        tags: vec!["a".to_string(), "b".to_string()],
        create_tag_if_not_existing: false,
    });
    assert_eq!(r.path, "/api/public/lead/ReplaceTags");
    assert_eq!(
        r.body.unwrap(),
        "{\"leadProfileUrl\":\"u\",\"tags\":[\"a\",\"b\"],\"createTagIfNotExisting\":false}"
    );
}

#[test]
fn conversation_listing_body_nests_the_filter() {
    let r = inbox_get_conversations_v2_request(InboxGetConversationsRequest {
        filters: InboxFilters {
            linked_in_account_ids: vec![1],
            campaign_ids: vec![2, 3],
            search_string: None,
            lead_linked_in_id: None,
            lead_profile_url: None,
            seen: Some(true),
        },
        offset: 0,
        limit: 10,
    });
    assert_eq!(r.path, "/api/public/inbox/GetConversationsV2");
    assert_eq!(
        r.body.unwrap(),
        "{\"filters\":{\"linkedInAccountIds\":[1],\"campaignIds\":[2,3],\"seen\":true},\
         \"offset\":0,\"limit\":10}"
    );
}

#[test]
fn send_message_body_uses_the_remote_id_key() {
    let r = inbox_send_message_request(InboxSendMessageRequest {
        message: "hi".to_string(),
        subject: None,
        conversation_id: "c-1".to_string(),
        linked_in_account_id: 3,
    });
    assert_eq!(r.path, "/api/public/inbox/SendMessage");
    assert_eq!(r.body.unwrap(), "{\"message\":\"hi\",\"id\":\"c-1\",\"linkedInAccountId\":3}");
}

#[test]
fn webhook_creation_body_uses_the_capitalized_event_token() {
    let r = webhooks_create_request(CreateWebhookRequest {
        webhook_name: "w".to_string(),
        webhook_url: "https://example.invalid/hook".to_string(),
        event_type: WebhookEventType::MessageReplied,
        campaign_ids: vec![5],
        is_active: true,
    });
    assert_eq!(r.path, "/api/public/webhooks/CreateWebhook");
    assert_eq!(
        r.body.unwrap(),
        "{\"webhookName\":\"w\",\"webhookUrl\":\"https://example.invalid/hook\",\
         \"eventType\":\"MessageReplied\",\"campaignIds\":[5],\"isActive\":true}"
    );
}

#[test]
fn webhook_listing_body_has_only_pagination() {
    let r = webhooks_get_all_request(GetWebhooksFilter { offset: 4, limit: 9 });
    assert_eq!(r.path, "/api/public/webhooks/GetAllWebhooks");
    assert_eq!(r.body.unwrap(), "{\"offset\":4,\"limit\":9}");
}
