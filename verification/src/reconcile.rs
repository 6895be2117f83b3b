//! The envelope reconciler and the field-level readers that absorb the
//! remote service's response drift.
//!
//! Two historical page envelopes are supported — `totalCount` as a direct
//! sibling of `items`, and a nested `page` object carrying the count — with
//! the direct field preferred. Per-item drift is absorbed by defaulting:
//! a missing counter reads as zero, a missing flag as false, a missing
//! string as empty; no malformed item is dropped or turned into an error.
use vstd::prelude::*;

verus! {

use crate::json::Json;
use crate::json::elem_u32;
use crate::json::elem_u64;
use crate::json::get_arr;
use crate::json::get_bool;
use crate::json::get_i32;
use crate::json::get_obj;
use crate::json::get_opt_bool;
use crate::json::get_opt_string;
use crate::json::get_opt_u64;
use crate::json::get_string;
use crate::json::get_string_arr;
use crate::json::get_u32;
use crate::json::get_u32_arr;
use crate::json::get_u64;
use crate::json::get_u64_arr;
use crate::json::jget_arr;
use crate::json::jget_bool;
use crate::json::jget_i32;
use crate::json::jget_obj;
use crate::json::jget_opt_bool;
use crate::json::jget_opt_string;
use crate::json::jget_opt_u64;
use crate::json::jget_string;
use crate::json::jget_u32;
use crate::json::jget_u64;
use crate::json::strings_match;
use crate::models::CampaignAddLeadsV2ResultDto;
use crate::models::CampaignPageDto;
use crate::models::CampaignSummaryDto;
use crate::models::CustomUserFieldDto;
use crate::models::InboxConversationPageDto;
use crate::models::InboxConversationSummaryDto;
use crate::models::LeadDto;
use crate::models::LeadListSummaryDto;
use crate::models::LeadListsResponseDto;
use crate::models::LeadReplaceTagsResponseDto;
use crate::models::LeadTagsResponseDto;
use crate::models::LiAccountPageDto;
use crate::models::LiAccountSummaryDto;
use crate::models::ListLeadDeleteByProfileUrlResponseDto;
use crate::models::ListLeadsPageDto;
use crate::models::ListPageDto;
use crate::models::ListSummaryDto;
use crate::models::PageInfoDto;
use crate::models::ProgressStatsDto;
use crate::models::WebhookDto;
use crate::models::WebhookPageDto;

// -------- The page envelope --------

/// The pagination block of the older, nested envelope shape: the `page`
/// object's fields, each defaulting to zero, and all zero when there is no
/// `page` object at all.
pub open spec fn nested_page_info(j: Json) -> PageInfoDto {
    match jget_obj(j, "page"@) {
        Some(p) => PageInfoDto {
            offset: jget_u32(p, "offset"@),
            limit: jget_u32(p, "limit"@),
            total_count: jget_u32(p, "totalCount"@),
        },
        None => PageInfoDto { offset: 0, limit: 0, total_count: 0 },
    }
}

/// Reads the nested pagination block of an envelope.
pub fn page_info_of_json(j: &Json) -> (r: PageInfoDto)
    ensures
        r == nested_page_info(*j),
{
    match get_obj(j, "page") {
        Some(p) => PageInfoDto {
            offset: get_u32(p, "offset"),
            limit: get_u32(p, "limit"),
            total_count: get_u32(p, "totalCount"),
        },
        None => PageInfoDto { offset: 0, limit: 0, total_count: 0 },
    }
}

/// The advisory total of a page envelope: the direct `totalCount` field
/// when the envelope carries one as a number, else the nested `page`
/// object's count, else zero.
pub open spec fn page_total(j: Json) -> u32 {
    if jget_opt_u64(j, "totalCount"@) is Some {
        jget_u32(j, "totalCount"@)
    } else {
        nested_page_info(j).total_count
    }
}

/// Reads the advisory total of a page envelope, preferring the direct
/// field over the nested shape.
pub fn page_total_of_json(j: &Json) -> (r: u32)
    ensures
        r == page_total(*j),
{
    match get_opt_u64(j, "totalCount") {
        Some(_) => get_u32(j, "totalCount"),
        None => page_info_of_json(j).total_count,
    }
}

/// Whether an optional string field came out as exactly the optional text.
pub open spec fn opt_string_is(o: Option<String>, s: Option<Seq<char>>) -> bool {
    match o {
        Some(a) => s matches Some(b) && a@ == b,
        None => s is None,
    }
}

// -------- Campaigns --------

/// How a progress-stats record relates to its JSON form: every counter
/// defaults to zero, and only the in-progress counter admits negatives.
pub open spec fn progress_stats_dto_matches(d: ProgressStatsDto, j: Json) -> bool {
    &&& d.total_users == jget_u32(j, "totalUsers"@)
    &&& d.total_users_in_progress == jget_i32(j, "totalUsersInProgress"@)
    &&& d.total_users_pending == jget_u32(j, "totalUsersPending"@)
    &&& d.total_users_finished == jget_u32(j, "totalUsersFinished"@)
    &&& d.total_users_failed == jget_u32(j, "totalUsersFailed"@)
    &&& d.total_users_manually_stopped == jget_u32(j, "totalUsersManuallyStopped"@)
    &&& d.total_users_excluded == jget_u32(j, "totalUsersExcluded"@)
}

/// Reads a progress-stats record, defaulting every missing counter.
pub fn progress_stats_dto_of_json(j: &Json) -> (r: ProgressStatsDto)
    ensures
        progress_stats_dto_matches(r, *j),
{
    ProgressStatsDto {
        total_users: get_u32(j, "totalUsers"),
        total_users_in_progress: get_i32(j, "totalUsersInProgress"),
        total_users_pending: get_u32(j, "totalUsersPending"),
        total_users_finished: get_u32(j, "totalUsersFinished"),
        total_users_failed: get_u32(j, "totalUsersFailed"),
        total_users_manually_stopped: get_u32(j, "totalUsersManuallyStopped"),
        total_users_excluded: get_u32(j, "totalUsersExcluded"),
    }
}

/// How a campaign record relates to its JSON form, drift absorbed: the
/// progress block is present exactly when the remote sent an object for it.
pub open spec fn campaign_summary_dto_matches(d: CampaignSummaryDto, j: Json) -> bool {
    &&& d.id == jget_u64(j, "id"@)
    &&& d.name@ == jget_string(j, "name"@)
    &&& d.creation_time@ == jget_string(j, "creationTime"@)
    &&& opt_string_is(d.linkedin_user_list_name, jget_opt_string(j, "linkedInUserListName"@))
    &&& d.linkedin_user_list_id == jget_opt_u64(j, "linkedInUserListId"@)
    &&& d.campaign_account_ids@ == jget_arr(j, "campaignAccountIds"@).map_values(
        |e: Json| elem_u32(e),
    )
    &&& d.status@ == jget_string(j, "status"@)
    &&& match jget_obj(j, "progressStats"@) {
        Some(p) => d.progress_stats matches Some(ps) && progress_stats_dto_matches(ps, p),
        None => d.progress_stats is None,
    }
    &&& d.exclude_in_other_campaigns == jget_bool(j, "excludeInOtherCampaigns"@)
    &&& d.exclude_has_other_acc_conversations == jget_bool(j, "excludeHasOtherAccConversations"@)
    &&& d.exclude_contacted_from_sender_in_other_campaign == jget_bool(
        j,
        "excludeContactedFromSenderInOtherCampaign"@,
    )
    &&& d.exclude_list_id == jget_opt_u64(j, "excludeListId"@)
    &&& d.organization_unit_id == jget_opt_u64(j, "organizationUnitId"@)
    &&& d.exclude_already_messaged_global == jget_opt_bool(j, "excludeAlreadyMessagedGlobal"@)
    &&& d.exclude_already_messaged_campaign_accounts == jget_opt_bool(
        j,
        "excludeAlreadyMessagedCampaignAccounts"@,
    )
    &&& d.exclude_first_connection_campaign_accounts == jget_opt_bool(
        j,
        "excludeFirstConnectionCampaignAccounts"@,
    )
    &&& d.exclude_first_connection_global == jget_opt_bool(j, "excludeFirstConnectionGlobal"@)
    &&& d.exclude_no_profile_picture == jget_opt_bool(j, "excludeNoProfilePicture"@)
}

/// Reads one campaign record, defaulting every missing field.
pub fn campaign_summary_dto_of_json(j: &Json) -> (r: CampaignSummaryDto)
    ensures
        campaign_summary_dto_matches(r, *j),
{
    let progress_stats = match get_obj(j, "progressStats") {
        Some(p) => Some(progress_stats_dto_of_json(p)),
        None => None,
    };
    CampaignSummaryDto {
        id: get_u64(j, "id"),
        name: get_string(j, "name"),
        creation_time: get_string(j, "creationTime"),
        linkedin_user_list_name: get_opt_string(j, "linkedInUserListName"),
        linkedin_user_list_id: get_opt_u64(j, "linkedInUserListId"),
        campaign_account_ids: get_u32_arr(j, "campaignAccountIds"),
        status: get_string(j, "status"),
        progress_stats,
        exclude_in_other_campaigns: get_bool(j, "excludeInOtherCampaigns"),
        exclude_has_other_acc_conversations: get_bool(j, "excludeHasOtherAccConversations"),
        exclude_contacted_from_sender_in_other_campaign: get_bool(
            j,
            "excludeContactedFromSenderInOtherCampaign",
        ),
        exclude_list_id: get_opt_u64(j, "excludeListId"),
        organization_unit_id: get_opt_u64(j, "organizationUnitId"),
        exclude_already_messaged_global: get_opt_bool(j, "excludeAlreadyMessagedGlobal"),
        exclude_already_messaged_campaign_accounts: get_opt_bool(
            j,
            "excludeAlreadyMessagedCampaignAccounts",
        ),
        exclude_first_connection_campaign_accounts: get_opt_bool(
            j,
            "excludeFirstConnectionCampaignAccounts",
        ),
        exclude_first_connection_global: get_opt_bool(j, "excludeFirstConnectionGlobal"),
        exclude_no_profile_picture: get_opt_bool(j, "excludeNoProfilePicture"),
    }
}

/// How a campaign page relates to its JSON envelope.
pub open spec fn campaign_page_dto_matches(d: CampaignPageDto, j: Json) -> bool {
    &&& d.total_count == page_total(j)
    &&& d.items@.len() == jget_arr(j, "items"@).len()
    &&& forall|i: int|
        0 <= i < d.items@.len() ==> campaign_summary_dto_matches(
            #[trigger] d.items@[i],
            jget_arr(j, "items"@)[i],
        )
}

/// Reconciles a campaign page envelope, whichever shape it came in.
pub fn campaign_page_dto_of_json(j: &Json) -> (r: CampaignPageDto)
    ensures
        campaign_page_dto_matches(r, *j),
{
    let total_count = page_total_of_json(j);
    let mut items: Vec<CampaignSummaryDto> = Vec::new();
    match get_arr(j, "items") {
        Some(arr) => {
            let n = arr.len();
            for i in 0..n
                invariant
                    n == arr@.len(),
                    arr@ == jget_arr(*j, "items"@),
                    items@.len() == i,
                    forall|k: int|
                        0 <= k < i ==> campaign_summary_dto_matches(#[trigger] items@[k], arr@[k]),
            {
                items.push(campaign_summary_dto_of_json(&arr[i]));
            }
        },
        None => {},
    }
    CampaignPageDto { total_count, items }
}

/// How the tri-count result relates to its JSON form.
pub open spec fn add_leads_v2_result_dto_matches(d: CampaignAddLeadsV2ResultDto, j: Json) -> bool {
    &&& d.added_leads_count == jget_u32(j, "addedLeadsCount"@)
    &&& d.updated_leads_count == jget_u32(j, "updatedLeadsCount"@)
    &&& d.failed_leads_count == jget_u32(j, "failedLeadsCount"@)
}

/// Reads the tri-count result, defaulting every missing counter.
pub fn add_leads_v2_result_dto_of_json(j: &Json) -> (r: CampaignAddLeadsV2ResultDto)
    ensures
        add_leads_v2_result_dto_matches(r, *j),
{
    CampaignAddLeadsV2ResultDto {
        added_leads_count: get_u32(j, "addedLeadsCount"),
        updated_leads_count: get_u32(j, "updatedLeadsCount"),
        failed_leads_count: get_u32(j, "failedLeadsCount"),
    }
}

// -------- Leads --------

/// How a custom field relates to its JSON form.
pub open spec fn custom_user_field_dto_matches(d: CustomUserFieldDto, j: Json) -> bool {
    &&& d.name@ == jget_string(j, "name"@)
    &&& d.value@ == jget_string(j, "value"@)
}

/// How a lead record relates to its JSON form.
pub open spec fn lead_dto_matches(d: LeadDto, j: Json) -> bool {
    &&& d.first_name@ == jget_string(j, "firstName"@)
    &&& d.last_name@ == jget_string(j, "lastName"@)
    &&& d.profile_url@ == jget_string(j, "profileUrl"@)
    &&& opt_string_is(d.location, jget_opt_string(j, "location"@))
    &&& opt_string_is(d.summary, jget_opt_string(j, "summary"@))
    &&& opt_string_is(d.company_name, jget_opt_string(j, "companyName"@))
    &&& opt_string_is(d.position, jget_opt_string(j, "position"@))
    &&& opt_string_is(d.about, jget_opt_string(j, "about"@))
    &&& opt_string_is(d.email_address, jget_opt_string(j, "emailAddress"@))
    &&& d.custom_user_fields@.len() == jget_arr(j, "customUserFields"@).len()
    &&& forall|i: int|
        0 <= i < d.custom_user_fields@.len() ==> custom_user_field_dto_matches(
            #[trigger] d.custom_user_fields@[i],
            jget_arr(j, "customUserFields"@)[i],
        )
}

/// Reads one lead record, defaulting every missing field.
pub fn lead_dto_of_json(j: &Json) -> (r: LeadDto)
    ensures
        lead_dto_matches(r, *j),
{
    let mut custom_user_fields: Vec<CustomUserFieldDto> = Vec::new();
    match get_arr(j, "customUserFields") {
        Some(arr) => {
            let n = arr.len();
            for i in 0..n
                invariant
                    n == arr@.len(),
                    arr@ == jget_arr(*j, "customUserFields"@),
                    custom_user_fields@.len() == i,
                    forall|k: int|
                        0 <= k < i ==> custom_user_field_dto_matches(
                            #[trigger] custom_user_fields@[k],
                            arr@[k],
                        ),
            {
                let f = CustomUserFieldDto {
                    name: get_string(&arr[i], "name"),
                    value: get_string(&arr[i], "value"),
                };
                custom_user_fields.push(f);
            }
        },
        None => {},
    }
    LeadDto {
        first_name: get_string(j, "firstName"),
        last_name: get_string(j, "lastName"),
        profile_url: get_string(j, "profileUrl"),
        location: get_opt_string(j, "location"),
        summary: get_opt_string(j, "summary"),
        company_name: get_opt_string(j, "companyName"),
        position: get_opt_string(j, "position"),
        about: get_opt_string(j, "about"),
        email_address: get_opt_string(j, "emailAddress"),
        custom_user_fields,
    }
}

// -------- Lists --------

/// How a list record relates to its JSON form.
pub open spec fn list_summary_dto_matches(d: ListSummaryDto, j: Json) -> bool {
    &&& d.id == jget_u64(j, "id"@)
    &&& d.name@ == jget_string(j, "name"@)
    &&& d.total_items_count == jget_u32(j, "totalItemsCount"@)
    &&& d.list_type@ == jget_string(j, "listType"@)
    &&& d.creation_time@ == jget_string(j, "creationTime"@)
    &&& d.campaign_ids@ == jget_arr(j, "campaignIds"@).map_values(|e: Json| elem_u64(e))
}

/// Reads one list record, defaulting every missing field.
pub fn list_summary_dto_of_json(j: &Json) -> (r: ListSummaryDto)
    ensures
        list_summary_dto_matches(r, *j),
{
    ListSummaryDto {
        id: get_u64(j, "id"),
        name: get_string(j, "name"),
        total_items_count: get_u32(j, "totalItemsCount"),
        list_type: get_string(j, "listType"),
        creation_time: get_string(j, "creationTime"),
        campaign_ids: get_u64_arr(j, "campaignIds"),
    }
}

/// How a list page relates to its JSON envelope.
pub open spec fn list_page_dto_matches(d: ListPageDto, j: Json) -> bool {
    &&& d.total_count == page_total(j)
    &&& d.items@.len() == jget_arr(j, "items"@).len()
    &&& forall|i: int|
        0 <= i < d.items@.len() ==> list_summary_dto_matches(
            #[trigger] d.items@[i],
            jget_arr(j, "items"@)[i],
        )
}

/// Reconciles a list page envelope, whichever shape it came in.
pub fn list_page_dto_of_json(j: &Json) -> (r: ListPageDto)
    ensures
        list_page_dto_matches(r, *j),
{
    let total_count = page_total_of_json(j);
    let mut items: Vec<ListSummaryDto> = Vec::new();
    match get_arr(j, "items") {
        Some(arr) => {
            let n = arr.len();
            for i in 0..n
                invariant
                    n == arr@.len(),
                    arr@ == jget_arr(*j, "items"@),
                    items@.len() == i,
                    forall|k: int|
                        0 <= k < i ==> list_summary_dto_matches(#[trigger] items@[k], arr@[k]),
            {
                items.push(list_summary_dto_of_json(&arr[i]));
            }
        },
        None => {},
    }
    ListPageDto { total_count, items }
}

/// How a page of leads relates to its JSON envelope.
pub open spec fn list_leads_page_dto_matches(d: ListLeadsPageDto, j: Json) -> bool {
    &&& d.total_count == page_total(j)
    &&& d.items@.len() == jget_arr(j, "items"@).len()
    &&& forall|i: int|
        0 <= i < d.items@.len() ==> lead_dto_matches(#[trigger] d.items@[i], jget_arr(j, "items"@)[i])
}

/// Reconciles a page of leads, whichever shape it came in.
pub fn list_leads_page_dto_of_json(j: &Json) -> (r: ListLeadsPageDto)
    ensures
        list_leads_page_dto_matches(r, *j),
{
    let total_count = page_total_of_json(j);
    let mut items: Vec<LeadDto> = Vec::new();
    match get_arr(j, "items") {
        Some(arr) => {
            let n = arr.len();
            for i in 0..n
                invariant
                    n == arr@.len(),
                    arr@ == jget_arr(*j, "items"@),
                    items@.len() == i,
                    forall|k: int| 0 <= k < i ==> lead_dto_matches(#[trigger] items@[k], arr@[k]),
            {
                items.push(lead_dto_of_json(&arr[i]));
            }
        },
        None => {},
    }
    ListLeadsPageDto { total_count, items }
}

/// How the delete-by-profile-URL answer relates to its JSON form.
pub open spec fn delete_by_profile_url_response_dto_matches(
    d: ListLeadDeleteByProfileUrlResponseDto,
    j: Json,
) -> bool {
    strings_match(d.not_found_in_list@, jget_arr(j, "notFoundInList"@))
}

/// Reads the delete-by-profile-URL answer.
pub fn delete_by_profile_url_response_dto_of_json(j: &Json) -> (r:
    ListLeadDeleteByProfileUrlResponseDto)
    ensures
        delete_by_profile_url_response_dto_matches(r, *j),
{
    ListLeadDeleteByProfileUrlResponseDto { not_found_in_list: get_string_arr(j, "notFoundInList") }
}

// -------- Lead lists & tags --------

/// How one list membership relates to its JSON form.
pub open spec fn lead_list_summary_dto_matches(d: LeadListSummaryDto, j: Json) -> bool {
    &&& d.list_id == jget_u64(j, "listId"@)
    &&& d.list_name@ == jget_string(j, "listName"@)
}

/// How the lists-for-lead answer relates to its JSON envelope.
pub open spec fn lead_lists_response_dto_matches(d: LeadListsResponseDto, j: Json) -> bool {
    &&& d.total_count == page_total(j)
    &&& d.items@.len() == jget_arr(j, "items"@).len()
    &&& forall|i: int|
        0 <= i < d.items@.len() ==> lead_list_summary_dto_matches(
            #[trigger] d.items@[i],
            jget_arr(j, "items"@)[i],
        )
}

/// Reconciles the lists-for-lead answer, whichever shape it came in.
pub fn lead_lists_response_dto_of_json(j: &Json) -> (r: LeadListsResponseDto)
    ensures
        lead_lists_response_dto_matches(r, *j),
{
    let total_count = page_total_of_json(j);
    let mut items: Vec<LeadListSummaryDto> = Vec::new();
    match get_arr(j, "items") {
        Some(arr) => {
            let n = arr.len();
            for i in 0..n
                invariant
                    n == arr@.len(),
                    arr@ == jget_arr(*j, "items"@),
                    items@.len() == i,
                    forall|k: int|
                        0 <= k < i ==> lead_list_summary_dto_matches(#[trigger] items@[k], arr@[k]),
            {
                let s = LeadListSummaryDto {
                    list_id: get_u64(&arr[i], "listId"),
                    list_name: get_string(&arr[i], "listName"),
                };
                items.push(s);
            }
        },
        None => {},
    }
    LeadListsResponseDto { total_count, items }
}

/// How the tags answer relates to its JSON form.
pub open spec fn lead_tags_response_dto_matches(d: LeadTagsResponseDto, j: Json) -> bool {
    strings_match(d.tags@, jget_arr(j, "tags"@))
}

/// Reads the tags answer.
pub fn lead_tags_response_dto_of_json(j: &Json) -> (r: LeadTagsResponseDto)
    ensures
        lead_tags_response_dto_matches(r, *j),
{
    LeadTagsResponseDto { tags: get_string_arr(j, "tags") }
}

/// How the tag replacement answer relates to its JSON form.
pub open spec fn lead_replace_tags_response_dto_matches(
    d: LeadReplaceTagsResponseDto,
    j: Json,
) -> bool {
    strings_match(d.new_assigned_tags@, jget_arr(j, "newAssignedTags"@))
}

/// Reads the tag replacement answer: the full resulting tag set, as the
/// remote reports it, trusted as-is.
pub fn lead_replace_tags_response_dto_of_json(j: &Json) -> (r: LeadReplaceTagsResponseDto)
    ensures
        lead_replace_tags_response_dto_matches(r, *j),
{
    LeadReplaceTagsResponseDto { new_assigned_tags: get_string_arr(j, "newAssignedTags") }
}

// -------- Inbox --------

/// How a conversation record relates to its JSON form: the id sits under
/// the remote's `id` key and the seen flag under its `read` key.
pub open spec fn conversation_summary_dto_matches(d: InboxConversationSummaryDto, j: Json) -> bool {
    &&& d.conversation_id@ == jget_string(j, "id"@)
    &&& d.linked_in_account_id == jget_u32(j, "linkedInAccountId"@)
    &&& opt_string_is(d.lead_profile_url, jget_opt_string(j, "leadProfileUrl"@))
    &&& opt_string_is(d.last_message_snippet, jget_opt_string(j, "lastMessageSnippet"@))
    &&& d.seen == jget_bool(j, "read"@)
}

/// Reads one conversation record, defaulting every missing field.
pub fn conversation_summary_dto_of_json(j: &Json) -> (r: InboxConversationSummaryDto)
    ensures
        conversation_summary_dto_matches(r, *j),
{
    InboxConversationSummaryDto {
        conversation_id: get_string(j, "id"),
        linked_in_account_id: get_u32(j, "linkedInAccountId"),
        lead_profile_url: get_opt_string(j, "leadProfileUrl"),
        last_message_snippet: get_opt_string(j, "lastMessageSnippet"),
        seen: get_bool(j, "read"),
    }
}

/// How a conversation page relates to its JSON envelope.
pub open spec fn conversation_page_dto_matches(d: InboxConversationPageDto, j: Json) -> bool {
    &&& d.total_count == page_total(j)
    &&& d.items@.len() == jget_arr(j, "items"@).len()
    &&& forall|i: int|
        0 <= i < d.items@.len() ==> conversation_summary_dto_matches(
            #[trigger] d.items@[i],
            jget_arr(j, "items"@)[i],
        )
}

/// Reconciles a conversation page envelope, whichever shape it came in.
pub fn conversation_page_dto_of_json(j: &Json) -> (r: InboxConversationPageDto)
    ensures
        conversation_page_dto_matches(r, *j),
{
    let total_count = page_total_of_json(j);
    let mut items: Vec<InboxConversationSummaryDto> = Vec::new();
    match get_arr(j, "items") {
        Some(arr) => {
            let n = arr.len();
            for i in 0..n
                invariant
                    n == arr@.len(),
                    arr@ == jget_arr(*j, "items"@),
                    items@.len() == i,
                    forall|k: int|
                        0 <= k < i ==> conversation_summary_dto_matches(
                            #[trigger] items@[k],
                            arr@[k],
                        ),
            {
                items.push(conversation_summary_dto_of_json(&arr[i]));
            }
        },
        None => {},
    }
    InboxConversationPageDto { total_count, items }
}

// -------- LinkedIn accounts --------

/// How a sending-account record relates to its JSON form; the three
/// validity flags are read independently.
pub open spec fn li_account_summary_dto_matches(d: LiAccountSummaryDto, j: Json) -> bool {
    &&& d.id == jget_u32(j, "id"@)
    &&& d.email_address@ == jget_string(j, "emailAddress"@)
    &&& d.first_name@ == jget_string(j, "firstName"@)
    &&& d.last_name@ == jget_string(j, "lastName"@)
    &&& d.is_active == jget_bool(j, "isActive"@)
    &&& d.active_campaigns == jget_u32(j, "activeCampaigns"@)
    &&& d.auth_is_valid == jget_bool(j, "authIsValid"@)
    &&& d.is_valid_navigator == jget_bool(j, "isValidNavigator"@)
    &&& d.is_valid_recruiter == jget_bool(j, "isValidRecruiter"@)
}

/// Reads one sending-account record, defaulting every missing field.
pub fn li_account_summary_dto_of_json(j: &Json) -> (r: LiAccountSummaryDto)
    ensures
        li_account_summary_dto_matches(r, *j),
{
    LiAccountSummaryDto {
        id: get_u32(j, "id"),
        email_address: get_string(j, "emailAddress"),
        first_name: get_string(j, "firstName"),
        last_name: get_string(j, "lastName"),
        is_active: get_bool(j, "isActive"),
        active_campaigns: get_u32(j, "activeCampaigns"),
        auth_is_valid: get_bool(j, "authIsValid"),
        is_valid_navigator: get_bool(j, "isValidNavigator"),
        is_valid_recruiter: get_bool(j, "isValidRecruiter"),
    }
}

/// How a page of sending accounts relates to its JSON envelope.
pub open spec fn li_account_page_dto_matches(d: LiAccountPageDto, j: Json) -> bool {
    &&& d.total_count == page_total(j)
    &&& d.items@.len() == jget_arr(j, "items"@).len()
    &&& forall|i: int|
        0 <= i < d.items@.len() ==> li_account_summary_dto_matches(
            #[trigger] d.items@[i],
            jget_arr(j, "items"@)[i],
        )
}

/// Reconciles a page of sending accounts, whichever shape it came in.
pub fn li_account_page_dto_of_json(j: &Json) -> (r: LiAccountPageDto)
    ensures
        li_account_page_dto_matches(r, *j),
{
    let total_count = page_total_of_json(j);
    let mut items: Vec<LiAccountSummaryDto> = Vec::new();
    match get_arr(j, "items") {
        Some(arr) => {
            let n = arr.len();
            for i in 0..n
                invariant
                    n == arr@.len(),
                    arr@ == jget_arr(*j, "items"@),
                    items@.len() == i,
                    forall|k: int|
                        0 <= k < i ==> li_account_summary_dto_matches(
                            #[trigger] items@[k],
                            arr@[k],
                        ),
            {
                items.push(li_account_summary_dto_of_json(&arr[i]));
            }
        },
        None => {},
    }
    LiAccountPageDto { total_count, items }
}

// -------- Webhooks --------

/// How a webhook record relates to its JSON form.
pub open spec fn webhook_dto_matches(d: WebhookDto, j: Json) -> bool {
    &&& d.id == jget_u64(j, "id"@)
    &&& d.webhook_name@ == jget_string(j, "webhookName"@)
    &&& d.webhook_url@ == jget_string(j, "webhookUrl"@)
    &&& d.event_type@ == jget_string(j, "eventType"@)
    &&& d.campaign_ids@ == jget_arr(j, "campaignIds"@).map_values(|e: Json| elem_u64(e))
    &&& d.is_active == jget_bool(j, "isActive"@)
}

/// Reads one webhook record, defaulting every missing field.
pub fn webhook_dto_of_json(j: &Json) -> (r: WebhookDto)
    ensures
        webhook_dto_matches(r, *j),
{
    WebhookDto {
        id: get_u64(j, "id"),
        webhook_name: get_string(j, "webhookName"),
        webhook_url: get_string(j, "webhookUrl"),
        event_type: get_string(j, "eventType"),
        campaign_ids: get_u64_arr(j, "campaignIds"),
        is_active: get_bool(j, "isActive"),
    }
}

/// How a page of webhooks relates to its JSON envelope.
pub open spec fn webhook_page_dto_matches(d: WebhookPageDto, j: Json) -> bool {
    &&& d.total_count == page_total(j)
    &&& d.items@.len() == jget_arr(j, "items"@).len()
    &&& forall|i: int|
        0 <= i < d.items@.len() ==> webhook_dto_matches(
            #[trigger] d.items@[i],
            jget_arr(j, "items"@)[i],
        )
}

/// Reconciles a page of webhooks, whichever shape it came in.
pub fn webhook_page_dto_of_json(j: &Json) -> (r: WebhookPageDto)
    ensures
        webhook_page_dto_matches(r, *j),
{
    let total_count = page_total_of_json(j);
    let mut items: Vec<WebhookDto> = Vec::new();
    match get_arr(j, "items") {
        Some(arr) => {
            let n = arr.len();
            for i in 0..n
                invariant
                    n == arr@.len(),
                    arr@ == jget_arr(*j, "items"@),
                    items@.len() == i,
                    forall|k: int| 0 <= k < i ==> webhook_dto_matches(#[trigger] items@[k], arr@[k]),
            {
                items.push(webhook_dto_of_json(&arr[i]));
            }
        },
        None => {},
    }
    WebhookPageDto { total_count, items }
}

/// The reconciler prefers the direct `totalCount` field and falls back to
/// the nested `page` object: an envelope that carries the count directly
/// and one that carries the same count only in its `page` object yield the
/// same total.
pub proof fn lemma_page_total_both_shapes(j1: Json, j2: Json, n: u32)
    requires
        jget_opt_u64(j1, "totalCount"@) == Some(n as u64),
        jget_opt_u64(j2, "totalCount"@) is None,
        jget_obj(j2, "page"@) matches Some(p) && jget_opt_u64(p, "totalCount"@) == Some(n as u64),
    ensures
        page_total(j1) == n,
        page_total(j2) == n,
        page_total(j1) == page_total(j2),
{
}

} // verus!
