//! The stable, caller-facing domain model. Field names and enumerations are
//! normalized here regardless of how the remote spelling has drifted: each
//! enumeration parses liberally (case-insensitive, with synonyms) and
//! serializes to its own fixed canonical token.
use vstd::prelude::*;

verus! {

use vstd::string::StringExecFns;
use crate::text::eq_ignore_case;
use crate::text::lower;

// -------- Campaigns --------

/// The lifecycle state of a campaign; `Unknown` absorbs any unrecognized
/// remote spelling.
#[derive(Clone, Copy, Debug, PartialEq, Eq, Structural)]
pub enum CampaignStatus {
    Draft,
    Active,
    Paused,
    Finished,
    Canceled,
    Unknown,
}

/// The canonical lowercase token each campaign status serializes to.
pub open spec fn campaign_status_token(s: CampaignStatus) -> Seq<char> {
    match s {
        CampaignStatus::Draft => "draft"@,
        CampaignStatus::Active => "active"@,
        CampaignStatus::Paused => "paused"@,
        CampaignStatus::Finished => "finished"@,
        CampaignStatus::Canceled => "canceled"@,
        CampaignStatus::Unknown => "unknown"@,
    }
}

/// The liberal, case-insensitive reading of a campaign status string.
pub open spec fn campaign_status_of(s: Seq<char>) -> CampaignStatus {
    if lower(s) == "draft"@ {
        CampaignStatus::Draft
    } else if lower(s) == "active"@ {
        CampaignStatus::Active
    } else if lower(s) == "paused"@ {
        CampaignStatus::Paused
    } else if lower(s) == "finished"@ {
        CampaignStatus::Finished
    } else if lower(s) == "canceled"@ {
        CampaignStatus::Canceled
    } else {
        CampaignStatus::Unknown
    }
}

/// Parses a campaign status string, case-insensitively; anything
/// unrecognized degrades to `Unknown`.
pub fn map_campaign_status(status: &str) -> (r: CampaignStatus)
    ensures
        r == campaign_status_of(status@),
{
    if eq_ignore_case(status, "draft") {
        CampaignStatus::Draft
    } else if eq_ignore_case(status, "active") {
        CampaignStatus::Active
    } else if eq_ignore_case(status, "paused") {
        CampaignStatus::Paused
    } else if eq_ignore_case(status, "finished") {
        CampaignStatus::Finished
    } else if eq_ignore_case(status, "canceled") {
        CampaignStatus::Canceled
    } else {
        CampaignStatus::Unknown
    }
}

/// Serializes a campaign status to its canonical lowercase token.
pub fn campaign_status_to_string(status: &CampaignStatus) -> (r: String)
    ensures
        r@ == campaign_status_token(*status),
{
    match status {
        CampaignStatus::Draft => "draft".to_owned(),
        CampaignStatus::Active => "active".to_owned(),
        CampaignStatus::Paused => "paused".to_owned(),
        CampaignStatus::Finished => "finished".to_owned(),
        CampaignStatus::Canceled => "canceled".to_owned(),
        CampaignStatus::Unknown => "unknown".to_owned(),
    }
}

/// Every campaign status string round-trips: a string one of the five real
/// statuses is spelled by — in any ASCII casing — parses to that member,
/// and that member serializes back to exactly the lower-cased form of the
/// string; every other string parses to `Unknown`.
pub proof fn lemma_campaign_status_round_trip(s: Seq<char>)
    ensures
        campaign_status_of(s) != CampaignStatus::Unknown ==> campaign_status_token(
            campaign_status_of(s),
        ) == lower(s),
        (lower(s) != "draft"@ && lower(s) != "active"@ && lower(s) != "paused"@ && lower(s)
            != "finished"@ && lower(s) != "canceled"@) ==> campaign_status_of(s)
            == CampaignStatus::Unknown,
{
}

/// Progress counters of a campaign; the in-progress count can be reported
/// negative by the remote service, so it alone is signed.
#[derive(Clone, Copy, Debug, PartialEq, Eq, Structural)]
pub struct ProgressStats {
    pub total_users: u32,
    pub total_users_in_progress: i32,
    pub total_users_pending: u32,
    pub total_users_finished: u32,
    pub total_users_failed: u32,
    pub total_users_manually_stopped: u32,
    pub total_users_excluded: u32,
}

/// One campaign as callers see it.
#[derive(Clone, Debug, PartialEq)]
pub struct CampaignSummary {
    pub id: u64,
    pub name: String,
    pub creation_time: String,
    pub linkedin_user_list_name: Option<String>,
    pub linkedin_user_list_id: Option<u64>,
    pub campaign_account_ids: Vec<u32>,
    pub status: CampaignStatus,
    pub progress_stats: Option<ProgressStats>,
    pub exclude_already_messaged_global: Option<bool>,
    pub exclude_already_messaged_campaign_accounts: Option<bool>,
    pub exclude_first_connection_campaign_accounts: Option<bool>,
    pub exclude_first_connection_global: Option<bool>,
    pub exclude_no_profile_picture: Option<bool>,
    pub exclude_list_id: Option<u64>,
    pub exclude_in_other_campaigns: bool,
    pub exclude_has_other_acc_conversations: bool,
    pub exclude_contacted_from_sender_in_other_campaign: bool,
    pub organization_unit_id: Option<u64>,
}

/// One page of campaigns; `total_count` is the remote's advisory count.
#[derive(Clone, Debug, PartialEq)]
pub struct CampaignPage {
    pub total_count: u32,
    pub items: Vec<CampaignSummary>,
}

/// The filter a campaign listing takes.
#[derive(Clone, Debug, PartialEq)]
pub struct CampaignFilter {
    pub offset: u32,
    pub limit: u32,
    pub keyword: Option<String>,
    pub statuses: Vec<CampaignStatus>,
    pub account_ids: Vec<u32>,
}

/// A custom per-lead field.
#[derive(Clone, Debug, PartialEq)]
pub struct CustomUserField {
    pub name: String,
    pub value: String,
}

/// One lead as callers see it.
#[derive(Clone, Debug, PartialEq)]
pub struct Lead {
    pub first_name: String,
    pub last_name: String,
    pub profile_url: String,
    pub location: Option<String>,
    pub summary: Option<String>,
    pub company_name: Option<String>,
    pub position: Option<String>,
    pub about: Option<String>,
    pub email_address: Option<String>,
    pub custom_user_fields: Vec<CustomUserField>,
}

/// A lead paired with the sending account it should go out from, if fixed.
#[derive(Clone, Debug, PartialEq)]
pub struct AccountLeadPair {
    pub linked_in_account_id: Option<u32>,
    pub lead: Lead,
}

/// The payload of both add-leads-to-campaign endpoints.
#[derive(Clone, Debug, PartialEq)]
pub struct CampaignAddLeadsRequest {
    pub campaign_id: u64,
    pub account_lead_pairs: Vec<AccountLeadPair>,
}

/// The structured tri-count result of the v2 add-leads endpoints.
#[derive(Clone, Copy, Debug, PartialEq, Eq, Structural)]
pub struct CampaignAddLeadsV2Result {
    pub added_leads_count: u32,
    pub updated_leads_count: u32,
    pub failed_leads_count: u32,
}

// -------- Lists --------

/// What a list holds; `Unknown` absorbs any unrecognized remote spelling.
#[derive(Clone, Copy, Debug, PartialEq, Eq, Structural)]
pub enum ListType {
    Leads,
    Companies,
    Unknown,
}

/// The liberal, case-insensitive reading of a list type string.
pub open spec fn list_type_of(s: Seq<char>) -> ListType {
    if lower(s) == "leads"@ {
        ListType::Leads
    } else if lower(s) == "companies"@ {
        ListType::Companies
    } else {
        ListType::Unknown
    }
}

/// Parses a list type string, case-insensitively; anything unrecognized
/// degrades to `Unknown`.
pub fn map_list_type(list_type: &str) -> (r: ListType)
    ensures
        r == list_type_of(list_type@),
{
    if eq_ignore_case(list_type, "leads") {
        ListType::Leads
    } else if eq_ignore_case(list_type, "companies") {
        ListType::Companies
    } else {
        ListType::Unknown
    }
}

/// One list as callers see it.
#[derive(Clone, Debug, PartialEq)]
pub struct ListSummary {
    pub id: u64,
    pub name: String,
    pub total_items_count: u32,
    pub list_type: ListType,
    pub creation_time: String,
    pub campaign_ids: Vec<u64>,
}

/// One page of lists.
#[derive(Clone, Debug, PartialEq)]
pub struct ListPage {
    pub total_count: u32,
    pub items: Vec<ListSummary>,
}

/// The filter a list listing takes.
#[derive(Clone, Debug, PartialEq)]
pub struct ListGetAllFilter {
    pub offset: u32,
    pub limit: u32,
    pub keyword: Option<String>,
}

/// One page of leads read from a list.
#[derive(Clone, Debug, PartialEq)]
pub struct ListLeadsPage {
    pub total_count: u32,
    pub items: Vec<Lead>,
}

/// The payload that deletes leads from a list by member id.
#[derive(Clone, Debug, PartialEq)]
pub struct ListLeadDeleteRequest {
    pub list_id: u64,
    pub lead_member_ids: Vec<String>,
}

/// The payload that deletes leads from a list by profile URL.
#[derive(Clone, Debug, PartialEq)]
pub struct ListLeadDeleteByProfileUrlRequest {
    pub list_id: u64,
    pub profile_urls: Vec<String>,
}

/// The informational answer of deletion by profile URL: the submitted URLs
/// that were not in the list. Not an error.
#[derive(Clone, Debug, PartialEq)]
pub struct ListLeadDeleteByProfileUrlResponse {
    pub not_found_in_list: Vec<String>,
}

// -------- Lead & Tags --------

/// The identifiers a lead lookup accepts; pagination bounds aside, all are
/// optional.
#[derive(Clone, Debug, PartialEq)]
pub struct LeadListsRequest {
    pub email: Option<String>,
    pub linkedin_id: Option<String>,
    pub profile_url: Option<String>,
    pub offset: u32,
    pub limit: u32,
}

/// One list membership of a lead.
#[derive(Clone, Debug, PartialEq)]
pub struct LeadListSummary {
    pub list_id: u64,
    pub list_name: String,
}

/// The lists a lead belongs to.
#[derive(Clone, Debug, PartialEq)]
pub struct LeadListsResponse {
    pub total_count: u32,
    pub items: Vec<LeadListSummary>,
}

/// The tags currently assigned to a lead.
#[derive(Clone, Debug, PartialEq)]
pub struct LeadTagsResponse {
    pub tags: Vec<String>,
}

/// A full-overwrite tag replacement: the tags given replace the lead's tag
/// set; the flag controls whether unknown tags are created on the fly.
#[derive(Clone, Debug, PartialEq)]
pub struct LeadReplaceTagsRequest {
    pub lead_profile_url: Option<String>,
    pub lead_linked_in_id: Option<String>,
    pub tags: Vec<String>,
    pub create_tag_if_not_existing: bool,
}

/// The full tag set after a replacement, as the remote reports it.
#[derive(Clone, Debug, PartialEq)]
pub struct LeadReplaceTagsResponse {
    pub new_assigned_tags: Vec<String>,
}

// -------- Inbox --------

/// The composite conversation filter; everything is optional.
#[derive(Clone, Debug, PartialEq)]
pub struct InboxFilters {
    pub linked_in_account_ids: Vec<u32>,
    pub campaign_ids: Vec<u64>,
    pub search_string: Option<String>,
    pub lead_linked_in_id: Option<String>,
    pub lead_profile_url: Option<String>,
    pub seen: Option<bool>,
}

/// A conversation listing request: the filter plus pagination bounds.
#[derive(Clone, Debug, PartialEq)]
pub struct InboxGetConversationsRequest {
    pub filters: InboxFilters,
    pub offset: u32,
    pub limit: u32,
}

/// One conversation as callers see it. The remote binds `conversation_id`
/// to its `id` field and `seen` to its `read` field.
#[derive(Clone, Debug, PartialEq)]
pub struct InboxConversationSummary {
    pub conversation_id: String,
    pub linked_in_account_id: u32,
    pub lead_profile_url: Option<String>,
    pub last_message_snippet: Option<String>,
    pub seen: bool,
}

/// One page of conversations.
#[derive(Clone, Debug, PartialEq)]
pub struct InboxConversationPage {
    pub total_count: u32,
    pub items: Vec<InboxConversationSummary>,
}

/// A message to send into an existing conversation.
#[derive(Clone, Debug, PartialEq)]
pub struct InboxSendMessageRequest {
    pub message: String,
    pub subject: Option<String>,
    pub conversation_id: String,
    pub linked_in_account_id: u32,
}

// -------- LinkedIn accounts --------

/// The filter an account listing takes.
#[derive(Clone, Debug, PartialEq)]
pub struct LiAccountFilter {
    pub offset: u32,
    pub limit: u32,
    pub keyword: Option<String>,
}

/// One sending account. The three validity flags are independent; they are
/// never collapsed into one status.
#[derive(Clone, Debug, PartialEq)]
pub struct LiAccountSummary {
    pub id: u32,
    pub email_address: String,
    pub first_name: String,
    pub last_name: String,
    pub is_active: bool,
    pub active_campaigns: u32,
    pub auth_is_valid: bool,
    pub is_valid_navigator: bool,
    pub is_valid_recruiter: bool,
}

/// One page of sending accounts.
#[derive(Clone, Debug, PartialEq)]
pub struct LiAccountPage {
    pub total_count: u32,
    pub items: Vec<LiAccountSummary>,
}

// -------- Webhooks --------

/// The events a webhook can subscribe to; `Unknown` absorbs any
/// unrecognized remote spelling.
#[derive(Clone, Copy, Debug, PartialEq, Eq, Structural)]
pub enum WebhookEventType {
    ConnectionRequestSent,
    ConnectionAccepted,
    MessageSent,
    MessageReplied,
    Unknown,
}

/// The canonical capitalized token each webhook event type serializes to —
/// deliberately distinct from the lowercase campaign and list tokens.
pub open spec fn webhook_event_type_token(e: WebhookEventType) -> Seq<char> {
    match e {
        WebhookEventType::ConnectionRequestSent => "ConnectionRequestSent"@,
        WebhookEventType::ConnectionAccepted => "ConnectionAccepted"@,
        WebhookEventType::MessageSent => "MessageSent"@,
        WebhookEventType::MessageReplied => "MessageReplied"@,
        WebhookEventType::Unknown => "Unknown"@,
    }
}

/// The liberal reading of a webhook event type string: case-insensitive,
/// with the joined, underscored and hyphenated spellings all accepted.
pub open spec fn webhook_event_type_of(s: Seq<char>) -> WebhookEventType {
    if lower(s) == "connectionrequestsent"@ || lower(s) == "connection_request_sent"@ || lower(s)
        == "connection-request-sent"@ {
        WebhookEventType::ConnectionRequestSent
    } else if lower(s) == "connectionaccepted"@ || lower(s) == "connection_accepted"@ || lower(s)
        == "connection-accepted"@ {
        WebhookEventType::ConnectionAccepted
    } else if lower(s) == "messagesent"@ || lower(s) == "message_sent"@ || lower(s)
        == "message-sent"@ {
        WebhookEventType::MessageSent
    } else if lower(s) == "messagereplied"@ || lower(s) == "message_replied"@ || lower(s)
        == "message-replied"@ {
        WebhookEventType::MessageReplied
    } else {
        WebhookEventType::Unknown
    }
}

/// Parses a webhook event type string, case-insensitively and separator-
/// insensitively; anything unrecognized degrades to `Unknown`.
pub fn map_webhook_event_type(event_type: &str) -> (r: WebhookEventType)
    ensures
        r == webhook_event_type_of(event_type@),
{
    if eq_ignore_case(event_type, "connectionrequestsent") || eq_ignore_case(
        event_type,
        "connection_request_sent",
    ) || eq_ignore_case(event_type, "connection-request-sent") {
        WebhookEventType::ConnectionRequestSent
    } else if eq_ignore_case(event_type, "connectionaccepted") || eq_ignore_case(
        event_type,
        "connection_accepted",
    ) || eq_ignore_case(event_type, "connection-accepted") {
        WebhookEventType::ConnectionAccepted
    } else if eq_ignore_case(event_type, "messagesent") || eq_ignore_case(
        event_type,
        "message_sent",
    ) || eq_ignore_case(event_type, "message-sent") {
        WebhookEventType::MessageSent
    } else if eq_ignore_case(event_type, "messagereplied") || eq_ignore_case(
        event_type,
        "message_replied",
    ) || eq_ignore_case(event_type, "message-replied") {
        WebhookEventType::MessageReplied
    } else {
        WebhookEventType::Unknown
    }
}

/// Serializes a webhook event type to its canonical capitalized token.
pub fn webhook_event_type_to_string(event_type: &WebhookEventType) -> (r: String)
    ensures
        r@ == webhook_event_type_token(*event_type),
{
    match event_type {
        WebhookEventType::ConnectionRequestSent => "ConnectionRequestSent".to_owned(),
        WebhookEventType::ConnectionAccepted => "ConnectionAccepted".to_owned(),
        WebhookEventType::MessageSent => "MessageSent".to_owned(),
        WebhookEventType::MessageReplied => "MessageReplied".to_owned(),
        WebhookEventType::Unknown => "Unknown".to_owned(),
    }
}

/// Every spelling of the connection-request-sent event — joined,
/// underscored or hyphenated, in any ASCII casing — parses to the same
/// member, and that member always serializes to the one canonical token
/// `ConnectionRequestSent`.
pub proof fn lemma_webhook_event_type_round_trip(s: Seq<char>)
    ensures
        (lower(s) == "connectionrequestsent"@ || lower(s) == "connection_request_sent"@ || lower(s)
            == "connection-request-sent"@) ==> webhook_event_type_of(s)
            == WebhookEventType::ConnectionRequestSent,
        webhook_event_type_token(WebhookEventType::ConnectionRequestSent)
            == "ConnectionRequestSent"@,
{
}

/// One webhook as callers see it.
#[derive(Clone, Debug, PartialEq)]
pub struct Webhook {
    pub id: u64,
    pub webhook_name: String,
    pub webhook_url: String,
    pub event_type: WebhookEventType,
    pub campaign_ids: Vec<u64>,
    pub is_active: bool,
}

/// The payload that creates a webhook.
#[derive(Clone, Debug, PartialEq)]
pub struct CreateWebhookRequest {
    pub webhook_name: String,
    pub webhook_url: String,
    pub event_type: WebhookEventType,
    pub campaign_ids: Vec<u64>,
    pub is_active: bool,
}

/// The filter a webhook listing takes.
#[derive(Clone, Copy, Debug, PartialEq, Eq, Structural)]
pub struct GetWebhooksFilter {
    pub offset: u32,
    pub limit: u32,
}

/// One page of webhooks.
#[derive(Clone, Debug, PartialEq)]
pub struct WebhookPage {
    pub total_count: u32,
    pub items: Vec<Webhook>,
}

} // verus!
