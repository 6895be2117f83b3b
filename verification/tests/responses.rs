//! Response reconciliation: both envelope shapes, defensive defaults, and
//! the field renames the remote insists on.
use heyreach_client::ApiErrorCode;
use heyreach_client::client::campaigns_add_leads;
use heyreach_client::client::campaigns_add_leads_v2;
use heyreach_client::client::campaigns_get_all;
use heyreach_client::client::campaigns_get_by_id;
use heyreach_client::client::inbox_get_conversations_v2;
use heyreach_client::client::lead_get;
use heyreach_client::client::lead_get_tags;
use heyreach_client::client::lead_replace_tags;
use heyreach_client::client::li_account_get_all;
use heyreach_client::client::lists_delete_leads_by_profile_url;
use heyreach_client::client::lists_get_all;
use heyreach_client::client::webhooks_get_by_id;
use heyreach_client::domain::CampaignStatus;
use heyreach_client::domain::ListType;
use heyreach_client::domain::WebhookEventType;
use heyreach_client::transport::HttpReply;
use heyreach_client::transport::TransportFault;

fn reply(status: u16, body: &str) -> Result<HttpReply, TransportFault> {
    Ok(HttpReply { status, body: body.as_bytes().to_vec() })
}

const CAMPAIGN_ITEM: &str = "{\"id\":1,\"name\":\"c\",\"creationTime\":\"t\",\
    \"campaignAccountIds\":[3],\"status\":\"ACTIVE\"}";

#[test]
fn both_envelope_shapes_yield_the_same_page() {
    let direct = format!("{{\"totalCount\":5,\"items\":[{}]}}", CAMPAIGN_ITEM);
    let nested = format!(
        "{{\"page\":{{\"offset\":0,\"limit\":10,\"totalCount\":5}},\"items\":[{}]}}",
        CAMPAIGN_ITEM
    );
    let p1 = campaigns_get_all(reply(200, &direct)).unwrap();
    let p2 = campaigns_get_all(reply(200, &nested)).unwrap();
    assert_eq!(p1.total_count, 5);
    assert_eq!(p2.total_count, 5);
    assert_eq!(p1, p2);
}

#[test]
fn direct_total_count_is_preferred_over_the_nested_one() {
    let both = "{\"totalCount\":7,\"page\":{\"offset\":0,\"limit\":10,\"totalCount\":99},\"items\":[]}";
    let p = campaigns_get_all(reply(200, both)).unwrap();
    assert_eq!(p.total_count, 7);
}

#[test]
fn missing_total_count_and_items_default_to_empty() {
    let p = campaigns_get_all(reply(200, "{}")).unwrap();
    assert_eq!(p.total_count, 0);
    assert!(p.items.is_empty());
}

#[test]
fn missing_stopped_and_excluded_counters_default_to_zero() {
    let body = "{\"id\":1,\"name\":\"c\",\"creationTime\":\"t\",\"campaignAccountIds\":[],\
        \"status\":\"active\",\"progressStats\":{\"totalUsers\":10,\"totalUsersInProgress\":-2,\
        \"totalUsersPending\":1,\"totalUsersFinished\":2,\"totalUsersFailed\":3}}";
    let c = campaigns_get_by_id(reply(200, body)).unwrap();
    let ps = c.progress_stats.unwrap();
    assert_eq!(ps.total_users, 10);
    assert_eq!(ps.total_users_in_progress, -2);
    assert_eq!(ps.total_users_manually_stopped, 0);
    assert_eq!(ps.total_users_excluded, 0);
    assert_eq!(c.status, CampaignStatus::Active);
}

#[test]
fn campaign_fields_parse_and_default_defensively() {
    let body = "{\"id\":12,\"name\":\"n\",\"creationTime\":\"2024-01-01\",\
        \"linkedInUserListName\":\"l\",\"linkedInUserListId\":34,\"campaignAccountIds\":[1,2],\
        \"status\":\"SomethingNew\",\"excludeInOtherCampaigns\":true,\"excludeListId\":9}";
    let c = campaigns_get_by_id(reply(200, body)).unwrap();
    assert_eq!(c.id, 12);
    assert_eq!(c.name, "n");
    assert_eq!(c.creation_time, "2024-01-01");
    assert_eq!(c.linkedin_user_list_name.as_deref(), Some("l"));
    assert_eq!(c.linkedin_user_list_id, Some(34));
    assert_eq!(c.campaign_account_ids, vec![1, 2]);
    assert_eq!(c.status, CampaignStatus::Unknown);
    assert!(c.progress_stats.is_none());
    assert!(c.exclude_in_other_campaigns);
    assert!(!c.exclude_has_other_acc_conversations);
    assert_eq!(c.exclude_list_id, Some(9));
    assert_eq!(c.exclude_already_messaged_global, None);
}

#[test]
fn add_leads_v1_returns_the_raw_count() {
    assert_eq!(campaigns_add_leads(reply(200, "7")).unwrap(), 7);
}

#[test]
fn add_leads_v1_rejects_a_non_count_body() {
    let e = campaigns_add_leads(reply(200, "\"seven\"")).unwrap_err();
    assert_eq!(e.code, ApiErrorCode::Unknown);
    assert_eq!(e.message, "Failed to parse response");
    let e = campaigns_add_leads(reply(200, "4294967296")).unwrap_err();
    assert_eq!(e.code, ApiErrorCode::Unknown);
}

#[test]
fn add_leads_v2_returns_the_tri_count() {
    let body = "{\"addedLeadsCount\":1,\"updatedLeadsCount\":2,\"failedLeadsCount\":3}";
    let v = campaigns_add_leads_v2(reply(200, body)).unwrap();
    assert_eq!(v.added_leads_count, 1);
    assert_eq!(v.updated_leads_count, 2);
    assert_eq!(v.failed_leads_count, 3);
}

#[test]
fn list_listing_parses_list_types_liberally() {
    let body = "{\"totalCount\":2,\"items\":[\
        {\"id\":1,\"name\":\"a\",\"totalItemsCount\":5,\"listType\":\"LEADS\",\
         \"creationTime\":\"t\",\"campaignIds\":[7]},\
        {\"id\":2,\"name\":\"b\",\"totalItemsCount\":0,\"listType\":\"odd\",\
         \"creationTime\":\"t\",\"campaignIds\":[]}]}";
    let p = lists_get_all(reply(200, body)).unwrap();
    assert_eq!(p.total_count, 2);
    assert_eq!(p.items[0].list_type, ListType::Leads);
    assert_eq!(p.items[0].campaign_ids, vec![7]);
    assert_eq!(p.items[1].list_type, ListType::Unknown);
}

#[test]
fn delete_by_profile_url_reports_only_the_missing_urls() {
    let body = "{\"notFoundInList\":[\"https://example.invalid/in/3\"]}";
    let r = lists_delete_leads_by_profile_url(reply(200, body)).unwrap();
    assert_eq!(r.not_found_in_list, vec!["https://example.invalid/in/3"]);
}

#[test]
fn lead_lookup_fills_missing_fields_and_reads_custom_fields() {
    let body = "{\"firstName\":\"F\",\"lastName\":\"L\",\"profileUrl\":\"U\",\
        \"location\":\"X\",\"customUserFields\":[{\"name\":\"n\",\"value\":\"v\"}]}";
    let l = lead_get(reply(200, body)).unwrap();
    assert_eq!(l.first_name, "F");
    assert_eq!(l.location.as_deref(), Some("X"));
    assert!(l.summary.is_none());
    assert_eq!(l.custom_user_fields.len(), 1);
    assert_eq!(l.custom_user_fields[0].name, "n");
    assert_eq!(l.custom_user_fields[0].value, "v");
}

#[test]
fn tag_lookup_and_replacement_trust_the_reported_sets() {
    let t = lead_get_tags(reply(200, "{\"tags\":[\"a\",\"b\"]}")).unwrap();
    assert_eq!(t.tags, vec!["a", "b"]);
    let r = lead_replace_tags(reply(200, "{\"newAssignedTags\":[\"keep\"]}")).unwrap();
    assert_eq!(r.new_assigned_tags, vec!["keep"]);
}

#[test]
fn conversations_bind_the_remote_id_and_read_fields() {
    let body = "{\"totalCount\":1,\"items\":[{\"id\":\"conv-9\",\"linkedInAccountId\":7,\
        \"leadProfileUrl\":\"u\",\"lastMessageSnippet\":\"s\",\"read\":true}]}";
    let p = inbox_get_conversations_v2(reply(200, body)).unwrap();
    assert_eq!(p.total_count, 1);
    let c = &p.items[0];
    assert_eq!(c.conversation_id, "conv-9");
    assert_eq!(c.linked_in_account_id, 7);
    assert_eq!(c.lead_profile_url.as_deref(), Some("u"));
    assert!(c.seen);
}

#[test]
fn account_validity_flags_stay_independent() {
    let body = "{\"totalCount\":1,\"items\":[{\"id\":5,\"emailAddress\":\"e\",\
        \"firstName\":\"f\",\"lastName\":\"l\",\"isActive\":true,\"activeCampaigns\":2,\
        \"authIsValid\":true,\"isValidNavigator\":false,\"isValidRecruiter\":true}]}";
    let p = li_account_get_all(reply(200, body)).unwrap();
    let a = &p.items[0];
    assert!(a.auth_is_valid);
    assert!(!a.is_valid_navigator);
    assert!(a.is_valid_recruiter);
    assert_eq!(a.active_campaigns, 2);
}

#[test]
fn webhook_lookup_normalizes_the_event_type() {
    let body = "{\"id\":3,\"webhookName\":\"w\",\"webhookUrl\":\"u\",\
        \"eventType\":\"connection_accepted\",\"campaignIds\":[1,2],\"isActive\":true}";
    let w = webhooks_get_by_id(reply(200, body)).unwrap();
    assert_eq!(w.id, 3);
    assert_eq!(w.event_type, WebhookEventType::ConnectionAccepted);
    assert_eq!(w.campaign_ids, vec![1, 2]);
    assert!(w.is_active);
}

#[test]
fn duplicate_envelope_keys_keep_the_last_value() {
    let body = "{\"totalCount\":1,\"totalCount\":6,\"items\":[]}";
    let p = campaigns_get_all(reply(200, body)).unwrap();
    assert_eq!(p.total_count, 6);
}

#[test]
fn out_of_range_and_mistyped_fields_default_to_zero() {
    let body = "{\"totalCount\":\"five\",\"items\":[]}";
    let p = campaigns_get_all(reply(200, body)).unwrap();
    assert_eq!(p.total_count, 0);
    let body = "{\"totalCount\":4294967296,\"items\":[]}";
    let p = campaigns_get_all(reply(200, body)).unwrap();
    assert_eq!(p.total_count, 0);
}
