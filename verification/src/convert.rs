//! Conversion between wire shapes and the domain model, and the end-to-end
//! statements that tie a domain value to the JSON document it came from.
use vstd::prelude::*;

verus! {

use crate::domain::CampaignAddLeadsV2Result;
use crate::domain::CampaignPage;
use crate::domain::CampaignSummary;
use crate::domain::CustomUserField;
use crate::domain::InboxConversationPage;
use crate::domain::InboxConversationSummary;
use crate::domain::Lead;
use crate::domain::LeadListSummary;
use crate::domain::LeadListsResponse;
use crate::domain::LeadReplaceTagsResponse;
use crate::domain::LeadTagsResponse;
use crate::domain::LiAccountPage;
use crate::domain::LiAccountSummary;
use crate::domain::ListLeadDeleteByProfileUrlResponse;
use crate::domain::ListLeadsPage;
use crate::domain::ListPage;
use crate::domain::ListSummary;
use crate::domain::ProgressStats;
use crate::domain::Webhook;
use crate::domain::WebhookPage;
use crate::domain::campaign_status_of;
use crate::domain::list_type_of;
use crate::domain::map_campaign_status;
use crate::domain::map_list_type;
use crate::domain::map_webhook_event_type;
use crate::domain::webhook_event_type_of;
use crate::json::Json;
use crate::json::elem_u32;
use crate::json::elem_u64;
use crate::json::jget_arr;
use crate::json::jget_bool;
use crate::json::jget_obj;
use crate::json::jget_opt_bool;
use crate::json::jget_opt_string;
use crate::json::jget_opt_u64;
use crate::json::jget_string;
use crate::json::jget_u32;
use crate::json::jget_u64;
use crate::json::jget_i32;
use crate::json::strings_match;
use crate::models::CampaignAddLeadsV2ResultDto;
use crate::models::CampaignPageDto;
use crate::models::CampaignSummaryDto;
use crate::models::CustomUserFieldDto;
use crate::models::InboxConversationPageDto;
use crate::models::InboxConversationSummaryDto;
use crate::models::LeadDto;
use crate::models::LeadListSummaryDto;
use crate::models::LeadListsResponseDto;
use crate::models::LiAccountPageDto;
use crate::models::LiAccountSummaryDto;
use crate::models::ListLeadsPageDto;
use crate::models::ListPageDto;
use crate::models::ListSummaryDto;
use crate::models::ProgressStatsDto;
use crate::models::WebhookDto;
use crate::models::WebhookPageDto;
use crate::reconcile::campaign_summary_dto_matches;
use crate::reconcile::custom_user_field_dto_matches;
use crate::reconcile::lead_dto_matches;
use crate::reconcile::opt_string_is;
use crate::reconcile::page_total;
use crate::reconcile::progress_stats_dto_matches;

/// Whether two optional strings carry the same text.
pub open spec fn opt_view_eq(a: Option<String>, b: Option<String>) -> bool {
    match (a, b) {
        (Some(x), Some(y)) => x@ == y@,
        (None, None) => true,
        _ => false,
    }
}

// -------- Progress stats --------

/// How a domain progress-stats value relates to the JSON it came from.
pub open spec fn progress_stats_matches_json(ps: ProgressStats, j: Json) -> bool {
    &&& ps.total_users == jget_u32(j, "totalUsers"@)
    &&& ps.total_users_in_progress == jget_i32(j, "totalUsersInProgress"@)
    &&& ps.total_users_pending == jget_u32(j, "totalUsersPending"@)
    &&& ps.total_users_finished == jget_u32(j, "totalUsersFinished"@)
    &&& ps.total_users_failed == jget_u32(j, "totalUsersFailed"@)
    &&& ps.total_users_manually_stopped == jget_u32(j, "totalUsersManuallyStopped"@)
    &&& ps.total_users_excluded == jget_u32(j, "totalUsersExcluded"@)
}

/// Carries progress counters over into the domain model unchanged.
pub fn convert_progress_stats(dto: ProgressStatsDto) -> (r: ProgressStats)
    ensures
        r.total_users == dto.total_users,
        r.total_users_in_progress == dto.total_users_in_progress,
        r.total_users_pending == dto.total_users_pending,
        r.total_users_finished == dto.total_users_finished,
        r.total_users_failed == dto.total_users_failed,
        r.total_users_manually_stopped == dto.total_users_manually_stopped,
        r.total_users_excluded == dto.total_users_excluded,
{
    ProgressStats {
        total_users: dto.total_users,
        total_users_in_progress: dto.total_users_in_progress,
        total_users_pending: dto.total_users_pending,
        total_users_finished: dto.total_users_finished,
        total_users_failed: dto.total_users_failed,
        total_users_manually_stopped: dto.total_users_manually_stopped,
        total_users_excluded: dto.total_users_excluded,
    }
}

// -------- Campaigns --------

/// How a domain campaign relates to the JSON it came from: the fields read
/// with their defaults, and the status string parsed liberally.
pub open spec fn campaign_summary_matches_json(c: CampaignSummary, j: Json) -> bool {
    &&& c.id == jget_u64(j, "id"@)
    &&& c.name@ == jget_string(j, "name"@)
    &&& c.creation_time@ == jget_string(j, "creationTime"@)
    &&& opt_string_is(c.linkedin_user_list_name, jget_opt_string(j, "linkedInUserListName"@))
    &&& c.linkedin_user_list_id == jget_opt_u64(j, "linkedInUserListId"@)
    &&& c.campaign_account_ids@ == jget_arr(j, "campaignAccountIds"@).map_values(
        |e: Json| elem_u32(e),
    )
    &&& c.status == campaign_status_of(jget_string(j, "status"@))
    &&& match jget_obj(j, "progressStats"@) {
        Some(p) => c.progress_stats matches Some(ps) && progress_stats_matches_json(ps, p),
        None => c.progress_stats is None,
    }
    &&& c.exclude_in_other_campaigns == jget_bool(j, "excludeInOtherCampaigns"@)
    &&& c.exclude_has_other_acc_conversations == jget_bool(j, "excludeHasOtherAccConversations"@)
    &&& c.exclude_contacted_from_sender_in_other_campaign == jget_bool(
        j,
        "excludeContactedFromSenderInOtherCampaign"@,
    )
    &&& c.exclude_list_id == jget_opt_u64(j, "excludeListId"@)
    &&& c.organization_unit_id == jget_opt_u64(j, "organizationUnitId"@)
    &&& c.exclude_already_messaged_global == jget_opt_bool(j, "excludeAlreadyMessagedGlobal"@)
    &&& c.exclude_already_messaged_campaign_accounts == jget_opt_bool(
        j,
        "excludeAlreadyMessagedCampaignAccounts"@,
    )
    &&& c.exclude_first_connection_campaign_accounts == jget_opt_bool(
        j,
        "excludeFirstConnectionCampaignAccounts"@,
    )
    &&& c.exclude_first_connection_global == jget_opt_bool(j, "excludeFirstConnectionGlobal"@)
    &&& c.exclude_no_profile_picture == jget_opt_bool(j, "excludeNoProfilePicture"@)
}

/// Normalizes one campaign record: field names settle, the status string
/// becomes the closed enumeration.
pub fn convert_campaign_summary(dto: CampaignSummaryDto) -> (r: CampaignSummary)
    ensures
        forall|j: Json| campaign_summary_dto_matches(dto, j) ==> campaign_summary_matches_json(r, j),
{
    let status = map_campaign_status(dto.status.as_str());
    let progress_stats = match dto.progress_stats {
        Some(p) => Some(convert_progress_stats(p)),
        None => None,
    };
    CampaignSummary {
        id: dto.id,
        name: dto.name,
        creation_time: dto.creation_time,
        linkedin_user_list_name: dto.linkedin_user_list_name,
        linkedin_user_list_id: dto.linkedin_user_list_id,
        campaign_account_ids: dto.campaign_account_ids,
        status,
        progress_stats,
        exclude_already_messaged_global: dto.exclude_already_messaged_global,
        exclude_already_messaged_campaign_accounts: dto.exclude_already_messaged_campaign_accounts,
        exclude_first_connection_campaign_accounts: dto.exclude_first_connection_campaign_accounts,
        exclude_first_connection_global: dto.exclude_first_connection_global,
        exclude_no_profile_picture: dto.exclude_no_profile_picture,
        exclude_list_id: dto.exclude_list_id,
        exclude_in_other_campaigns: dto.exclude_in_other_campaigns,
        exclude_has_other_acc_conversations: dto.exclude_has_other_acc_conversations,
        exclude_contacted_from_sender_in_other_campaign: dto
            .exclude_contacted_from_sender_in_other_campaign,
        organization_unit_id: dto.organization_unit_id,
    }
}

/// How a domain campaign page relates to the JSON envelope it came from.
pub open spec fn campaign_page_matches_json(p: CampaignPage, j: Json) -> bool {
    &&& p.total_count == page_total(j)
    &&& p.items@.len() == jget_arr(j, "items"@).len()
    &&& forall|i: int|
        0 <= i < p.items@.len() ==> campaign_summary_matches_json(
            #[trigger] p.items@[i],
            jget_arr(j, "items"@)[i],
        )
}

// -------- Leads --------

/// How a domain custom field relates to the JSON it came from.
pub open spec fn cuf_matches_json(c: CustomUserField, j: Json) -> bool {
    &&& c.name@ == jget_string(j, "name"@)
    &&& c.value@ == jget_string(j, "value"@)
}

/// How a domain lead relates to the JSON it came from.
pub open spec fn lead_matches_json(l: Lead, j: Json) -> bool {
    &&& l.first_name@ == jget_string(j, "firstName"@)
    &&& l.last_name@ == jget_string(j, "lastName"@)
    &&& l.profile_url@ == jget_string(j, "profileUrl"@)
    &&& opt_string_is(l.location, jget_opt_string(j, "location"@))
    &&& opt_string_is(l.summary, jget_opt_string(j, "summary"@))
    &&& opt_string_is(l.company_name, jget_opt_string(j, "companyName"@))
    &&& opt_string_is(l.position, jget_opt_string(j, "position"@))
    &&& opt_string_is(l.about, jget_opt_string(j, "about"@))
    &&& opt_string_is(l.email_address, jget_opt_string(j, "emailAddress"@))
    &&& l.custom_user_fields@.len() == jget_arr(j, "customUserFields"@).len()
    &&& forall|i: int|
        0 <= i < l.custom_user_fields@.len() ==> cuf_matches_json(
            #[trigger] l.custom_user_fields@[i],
            jget_arr(j, "customUserFields"@)[i],
        )
}

/// Whether a domain lead and a wire lead carry the same data.
pub open spec fn lead_matches_dto(l: Lead, d: LeadDto) -> bool {
    &&& l.first_name@ == d.first_name@
    &&& l.last_name@ == d.last_name@
    &&& l.profile_url@ == d.profile_url@
    &&& opt_view_eq(l.location, d.location)
    &&& opt_view_eq(l.summary, d.summary)
    &&& opt_view_eq(l.company_name, d.company_name)
    &&& opt_view_eq(l.position, d.position)
    &&& opt_view_eq(l.about, d.about)
    &&& opt_view_eq(l.email_address, d.email_address)
    &&& l.custom_user_fields@.len() == d.custom_user_fields@.len()
    &&& forall|i: int|
        0 <= i < l.custom_user_fields@.len() ==> (#[trigger] l.custom_user_fields@[i]).name@
            == d.custom_user_fields@[i].name@ && l.custom_user_fields@[i].value@
            == d.custom_user_fields@[i].value@
}

/// Carries a wire lead over into the domain model, field for field.
pub fn convert_lead_dto(dto: LeadDto) -> (r: Lead)
    ensures
        lead_matches_dto(r, dto),
{
    let mut custom_user_fields: Vec<CustomUserField> = Vec::new();
    let n = dto.custom_user_fields.len();
    for i in 0..n
        invariant
            n == dto.custom_user_fields@.len(),
            custom_user_fields@.len() == i,
            forall|k: int|
                0 <= k < i ==> (#[trigger] custom_user_fields@[k]).name@
                    == dto.custom_user_fields@[k].name@ && custom_user_fields@[k].value@
                    == dto.custom_user_fields@[k].value@,
    {
        let f = CustomUserField {
            name: dto.custom_user_fields[i].name.clone(),
            value: dto.custom_user_fields[i].value.clone(),
        };
        custom_user_fields.push(f);
    }
    Lead {
        first_name: dto.first_name,
        last_name: dto.last_name,
        profile_url: dto.profile_url,
        location: dto.location,
        summary: dto.summary,
        company_name: dto.company_name,
        position: dto.position,
        about: dto.about,
        email_address: dto.email_address,
        custom_user_fields,
    }
}

/// Carries a domain lead onto the wire, field for field.
pub fn convert_lead(lead: Lead) -> (r: LeadDto)
    ensures
        lead_matches_dto(lead, r),
{
    let mut custom_user_fields: Vec<CustomUserFieldDto> = Vec::new();
    let n = lead.custom_user_fields.len();
    for i in 0..n
        invariant
            n == lead.custom_user_fields@.len(),
            custom_user_fields@.len() == i,
            forall|k: int|
                0 <= k < i ==> (#[trigger] lead.custom_user_fields@[k]).name@
                    == custom_user_fields@[k].name@ && lead.custom_user_fields@[k].value@
                    == custom_user_fields@[k].value@,
    {
        let f = CustomUserFieldDto {
            name: lead.custom_user_fields[i].name.clone(),
            value: lead.custom_user_fields[i].value.clone(),
        };
        custom_user_fields.push(f);
    }
    LeadDto {
        first_name: lead.first_name,
        last_name: lead.last_name,
        profile_url: lead.profile_url,
        location: lead.location,
        summary: lead.summary,
        company_name: lead.company_name,
        position: lead.position,
        about: lead.about,
        email_address: lead.email_address,
        custom_user_fields,
    }
}

/// A domain lead carrying the same data as a wire lead that matches a JSON
/// document matches that document too.
pub proof fn lemma_lead_compose(l: Lead, d: LeadDto, j: Json)
    requires
        lead_matches_dto(l, d),
        lead_dto_matches(d, j),
    ensures
        lead_matches_json(l, j),
{
    assert forall|i: int| 0 <= i < l.custom_user_fields@.len() implies cuf_matches_json(
        #[trigger] l.custom_user_fields@[i],
        jget_arr(j, "customUserFields"@)[i],
    ) by {
        assert(custom_user_field_dto_matches(
            d.custom_user_fields@[i],
            jget_arr(j, "customUserFields"@)[i],
        ));
    }
}

// -------- Lists --------

/// How a domain list summary relates to the JSON it came from.
pub open spec fn list_summary_matches_json(s: ListSummary, j: Json) -> bool {
    &&& s.id == jget_u64(j, "id"@)
    &&& s.name@ == jget_string(j, "name"@)
    &&& s.total_items_count == jget_u32(j, "totalItemsCount"@)
    &&& s.list_type == list_type_of(jget_string(j, "listType"@))
    &&& s.creation_time@ == jget_string(j, "creationTime"@)
    &&& s.campaign_ids@ == jget_arr(j, "campaignIds"@).map_values(|e: Json| elem_u64(e))
}

/// Normalizes one list record.
pub fn convert_list_summary(dto: ListSummaryDto) -> (r: ListSummary)
    ensures
        r.id == dto.id,
        r.name@ == dto.name@,
        r.total_items_count == dto.total_items_count,
        r.list_type == list_type_of(dto.list_type@),
        r.creation_time@ == dto.creation_time@,
        r.campaign_ids@ == dto.campaign_ids@,
{
    let list_type = map_list_type(dto.list_type.as_str());
    ListSummary {
        id: dto.id,
        name: dto.name,
        total_items_count: dto.total_items_count,
        list_type,
        creation_time: dto.creation_time,
        campaign_ids: dto.campaign_ids,
    }
}

/// How a domain list page relates to the JSON envelope it came from.
pub open spec fn list_page_matches_json(p: ListPage, j: Json) -> bool {
    &&& p.total_count == page_total(j)
    &&& p.items@.len() == jget_arr(j, "items"@).len()
    &&& forall|i: int|
        0 <= i < p.items@.len() ==> list_summary_matches_json(
            #[trigger] p.items@[i],
            jget_arr(j, "items"@)[i],
        )
}

/// How a domain page of leads relates to the JSON envelope it came from.
pub open spec fn list_leads_page_matches_json(p: ListLeadsPage, j: Json) -> bool {
    &&& p.total_count == page_total(j)
    &&& p.items@.len() == jget_arr(j, "items"@).len()
    &&& forall|i: int|
        0 <= i < p.items@.len() ==> lead_matches_json(#[trigger] p.items@[i], jget_arr(j, "items"@)[i])
}

/// How the delete-by-profile-URL answer relates to the JSON it came from.
pub open spec fn delete_response_matches_json(
    p: ListLeadDeleteByProfileUrlResponse,
    j: Json,
) -> bool {
    strings_match(p.not_found_in_list@, jget_arr(j, "notFoundInList"@))
}

// -------- Lead lists & tags --------

/// How one domain list membership relates to the JSON it came from.
pub open spec fn lead_list_summary_matches_json(s: LeadListSummary, j: Json) -> bool {
    &&& s.list_id == jget_u64(j, "listId"@)
    &&& s.list_name@ == jget_string(j, "listName"@)
}

/// How the lists-for-lead answer relates to the JSON envelope it came from.
pub open spec fn lead_lists_response_matches_json(p: LeadListsResponse, j: Json) -> bool {
    &&& p.total_count == page_total(j)
    &&& p.items@.len() == jget_arr(j, "items"@).len()
    &&& forall|i: int|
        0 <= i < p.items@.len() ==> lead_list_summary_matches_json(
            #[trigger] p.items@[i],
            jget_arr(j, "items"@)[i],
        )
}

/// How the tags answer relates to the JSON it came from.
pub open spec fn lead_tags_response_matches_json(p: LeadTagsResponse, j: Json) -> bool {
    strings_match(p.tags@, jget_arr(j, "tags"@))
}

/// How the tag replacement answer relates to the JSON it came from.
pub open spec fn lead_replace_tags_response_matches_json(
    p: LeadReplaceTagsResponse,
    j: Json,
) -> bool {
    strings_match(p.new_assigned_tags@, jget_arr(j, "newAssignedTags"@))
}

// -------- Inbox --------

/// How a domain conversation relates to the JSON it came from: the id is
/// bound to the remote's `id` field, the seen flag to its `read` field.
pub open spec fn conversation_summary_matches_json(c: InboxConversationSummary, j: Json) -> bool {
    &&& c.conversation_id@ == jget_string(j, "id"@)
    &&& c.linked_in_account_id == jget_u32(j, "linkedInAccountId"@)
    &&& opt_string_is(c.lead_profile_url, jget_opt_string(j, "leadProfileUrl"@))
    &&& opt_string_is(c.last_message_snippet, jget_opt_string(j, "lastMessageSnippet"@))
    &&& c.seen == jget_bool(j, "read"@)
}

/// Carries one conversation record over into the domain model.
pub fn convert_conversation_summary(dto: InboxConversationSummaryDto) -> (r:
    InboxConversationSummary)
    ensures
        r.conversation_id@ == dto.conversation_id@,
        r.linked_in_account_id == dto.linked_in_account_id,
        opt_view_eq(r.lead_profile_url, dto.lead_profile_url),
        opt_view_eq(r.last_message_snippet, dto.last_message_snippet),
        r.seen == dto.seen,
{
    InboxConversationSummary {
        conversation_id: dto.conversation_id,
        linked_in_account_id: dto.linked_in_account_id,
        lead_profile_url: dto.lead_profile_url,
        last_message_snippet: dto.last_message_snippet,
        seen: dto.seen,
    }
}

/// How a domain conversation page relates to the JSON envelope it came
/// from.
pub open spec fn conversation_page_matches_json(p: InboxConversationPage, j: Json) -> bool {
    &&& p.total_count == page_total(j)
    &&& p.items@.len() == jget_arr(j, "items"@).len()
    &&& forall|i: int|
        0 <= i < p.items@.len() ==> conversation_summary_matches_json(
            #[trigger] p.items@[i],
            jget_arr(j, "items"@)[i],
        )
}

// -------- LinkedIn accounts --------

/// How a domain sending account relates to the JSON it came from.
pub open spec fn li_account_summary_matches_json(a: LiAccountSummary, j: Json) -> bool {
    &&& a.id == jget_u32(j, "id"@)
    &&& a.email_address@ == jget_string(j, "emailAddress"@)
    &&& a.first_name@ == jget_string(j, "firstName"@)
    &&& a.last_name@ == jget_string(j, "lastName"@)
    &&& a.is_active == jget_bool(j, "isActive"@)
    &&& a.active_campaigns == jget_u32(j, "activeCampaigns"@)
    &&& a.auth_is_valid == jget_bool(j, "authIsValid"@)
    &&& a.is_valid_navigator == jget_bool(j, "isValidNavigator"@)
    &&& a.is_valid_recruiter == jget_bool(j, "isValidRecruiter"@)
}

/// Carries one sending-account record over into the domain model.
pub fn convert_li_account_summary(dto: LiAccountSummaryDto) -> (r: LiAccountSummary)
    ensures
        r.id == dto.id,
        r.email_address@ == dto.email_address@,
        r.first_name@ == dto.first_name@,
        r.last_name@ == dto.last_name@,
        r.is_active == dto.is_active,
        r.active_campaigns == dto.active_campaigns,
        r.auth_is_valid == dto.auth_is_valid,
        r.is_valid_navigator == dto.is_valid_navigator,
        r.is_valid_recruiter == dto.is_valid_recruiter,
{
    LiAccountSummary {
        id: dto.id,
        email_address: dto.email_address,
        first_name: dto.first_name,
        last_name: dto.last_name,
        is_active: dto.is_active,
        active_campaigns: dto.active_campaigns,
        auth_is_valid: dto.auth_is_valid,
        is_valid_navigator: dto.is_valid_navigator,
        is_valid_recruiter: dto.is_valid_recruiter,
    }
}

/// How a domain page of sending accounts relates to the JSON envelope it
/// came from.
pub open spec fn li_account_page_matches_json(p: LiAccountPage, j: Json) -> bool {
    &&& p.total_count == page_total(j)
    &&& p.items@.len() == jget_arr(j, "items"@).len()
    &&& forall|i: int|
        0 <= i < p.items@.len() ==> li_account_summary_matches_json(
            #[trigger] p.items@[i],
            jget_arr(j, "items"@)[i],
        )
}

// -------- Webhooks --------

/// How a domain webhook relates to the JSON it came from.
pub open spec fn webhook_matches_json(w: Webhook, j: Json) -> bool {
    &&& w.id == jget_u64(j, "id"@)
    &&& w.webhook_name@ == jget_string(j, "webhookName"@)
    &&& w.webhook_url@ == jget_string(j, "webhookUrl"@)
    &&& w.event_type == webhook_event_type_of(jget_string(j, "eventType"@))
    &&& w.campaign_ids@ == jget_arr(j, "campaignIds"@).map_values(|e: Json| elem_u64(e))
    &&& w.is_active == jget_bool(j, "isActive"@)
}

/// Normalizes one webhook record: the event-type string becomes the closed
/// enumeration.
pub fn convert_webhook(dto: WebhookDto) -> (r: Webhook)
    ensures
        r.id == dto.id,
        r.webhook_name@ == dto.webhook_name@,
        r.webhook_url@ == dto.webhook_url@,
        r.event_type == webhook_event_type_of(dto.event_type@),
        r.campaign_ids@ == dto.campaign_ids@,
        r.is_active == dto.is_active,
{
    let event_type = map_webhook_event_type(dto.event_type.as_str());
    Webhook {
        id: dto.id,
        webhook_name: dto.webhook_name,
        webhook_url: dto.webhook_url,
        event_type,
        campaign_ids: dto.campaign_ids,
        is_active: dto.is_active,
    }
}

/// How a domain page of webhooks relates to the JSON envelope it came
/// from.
pub open spec fn webhook_page_matches_json(p: WebhookPage, j: Json) -> bool {
    &&& p.total_count == page_total(j)
    &&& p.items@.len() == jget_arr(j, "items"@).len()
    &&& forall|i: int|
        0 <= i < p.items@.len() ==> webhook_matches_json(
            #[trigger] p.items@[i],
            jget_arr(j, "items"@)[i],
        )
}

/// How the tri-count result relates to the JSON it came from.
pub open spec fn add_leads_v2_result_matches_json(r: CampaignAddLeadsV2Result, j: Json) -> bool {
    &&& r.added_leads_count == jget_u32(j, "addedLeadsCount"@)
    &&& r.updated_leads_count == jget_u32(j, "updatedLeadsCount"@)
    &&& r.failed_leads_count == jget_u32(j, "failedLeadsCount"@)
}

/// Carries the tri-count result over into the domain model unchanged.
pub fn convert_add_leads_v2_result(dto: CampaignAddLeadsV2ResultDto) -> (r:
    CampaignAddLeadsV2Result)
    ensures
        r.added_leads_count == dto.added_leads_count,
        r.updated_leads_count == dto.updated_leads_count,
        r.failed_leads_count == dto.failed_leads_count,
{
    CampaignAddLeadsV2Result {
        added_leads_count: dto.added_leads_count,
        updated_leads_count: dto.updated_leads_count,
        failed_leads_count: dto.failed_leads_count,
    }
}

} // verus!
