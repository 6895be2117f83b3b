//! The wire shapes: structures mirroring the remote service's JSON exactly,
//! quirky renames and optional fields included. They are built from domain
//! values on the way out and from parsed JSON on the way in, and are never
//! exposed to callers.
//!
//! Each request shape carries a `push_body` serializer whose contract gives
//! the exact JSON text sent, camelCase keys and field order included.
use vstd::prelude::*;

verus! {

use crate::text::array_text;
use crate::text::bool_text;
use crate::text::dec_str;
use crate::text::jstr;
use crate::text::opt_bool_field;
use crate::text::opt_str_field;
use crate::text::opt_str_field_c;
use crate::text::opt_u32_field;
use crate::text::push_bool;
use crate::text::push_dec_u64;
use crate::text::push_json_string;
use crate::text::push_opt_bool_field;
use crate::text::push_opt_str_field;
use crate::text::push_opt_str_field_c;
use crate::text::push_opt_u32_field;
use crate::text::push_str_chars;
use crate::text::push_string_array;
use crate::text::push_u32_array;
use crate::text::push_u64_array;
use crate::text::string_items;
use crate::text::u32_items;
use crate::text::u64_items;

// -------- Pagination --------

/// The nested pagination object of the older envelope shape.
#[derive(Clone, Copy, Debug, PartialEq, Eq, Structural)]
pub struct PageInfoDto {
    pub offset: u32,
    pub limit: u32,
    pub total_count: u32,
}

// -------- Campaigns --------

/// The campaign listing filter as the remote expects it; statuses are
/// already serialized to their lowercase tokens.
#[derive(Clone, Debug, PartialEq)]
pub struct CampaignFilterDto {
    pub offset: u32,
    pub limit: u32,
    pub keyword: Option<String>,
    pub statuses: Vec<String>,
    pub account_ids: Vec<u32>,
}

/// The JSON text of a campaign listing filter.
pub open spec fn campaign_filter_dto_text(d: CampaignFilterDto) -> Seq<char> {
    "{\"offset\":"@ + dec_str(d.offset as nat) + ",\"limit\":"@ + dec_str(d.limit as nat)
        + opt_str_field(",\"keyword\":"@, d.keyword) + ",\"statuses\":"@ + array_text(
        string_items(d.statuses@),
    ) + ",\"accountIds\":"@ + array_text(u32_items(d.account_ids@)) + "}"@
}

impl CampaignFilterDto {
    /// Appends this filter's JSON text.
    pub fn push_body(&self, out: &mut Vec<char>)
        ensures
            final(out)@ == old(out)@ + campaign_filter_dto_text(*self),
    {
        push_str_chars("{\"offset\":", out);
        push_dec_u64(self.offset as u64, out);
        push_str_chars(",\"limit\":", out);
        push_dec_u64(self.limit as u64, out);
        push_opt_str_field(",\"keyword\":", &self.keyword, out);
        push_str_chars(",\"statuses\":", out);
        push_string_array(&self.statuses, out);
        push_str_chars(",\"accountIds\":", out);
        push_u32_array(&self.account_ids, out);
        push_str_chars("}", out);
        proof {
            assert(out@ =~= old(out)@ + campaign_filter_dto_text(*self));
        }
    }
}

/// Progress counters as the remote sends them; the in-progress count can be
/// negative.
#[derive(Clone, Copy, Debug, PartialEq, Eq, Structural)]
pub struct ProgressStatsDto {
    pub total_users: u32,
    pub total_users_in_progress: i32,
    pub total_users_pending: u32,
    pub total_users_finished: u32,
    pub total_users_failed: u32,
    pub total_users_manually_stopped: u32,
    pub total_users_excluded: u32,
}

/// One campaign as the remote sends it.
#[derive(Clone, Debug, PartialEq)]
pub struct CampaignSummaryDto {
    pub id: u64,
    pub name: String,
    pub creation_time: String,
    pub linkedin_user_list_name: Option<String>,
    pub linkedin_user_list_id: Option<u64>,
    pub campaign_account_ids: Vec<u32>,
    pub status: String,
    pub progress_stats: Option<ProgressStatsDto>,
    pub exclude_in_other_campaigns: bool,
    pub exclude_has_other_acc_conversations: bool,
    pub exclude_contacted_from_sender_in_other_campaign: bool,
    pub exclude_list_id: Option<u64>,
    pub organization_unit_id: Option<u64>,
    pub exclude_already_messaged_global: Option<bool>,
    pub exclude_already_messaged_campaign_accounts: Option<bool>,
    pub exclude_first_connection_campaign_accounts: Option<bool>,
    pub exclude_first_connection_global: Option<bool>,
    pub exclude_no_profile_picture: Option<bool>,
}

/// One page of campaigns as the remote sends it.
#[derive(Clone, Debug, PartialEq)]
pub struct CampaignPageDto {
    pub total_count: u32,
    pub items: Vec<CampaignSummaryDto>,
}

/// A custom per-lead field on the wire.
#[derive(Clone, Debug, PartialEq)]
pub struct CustomUserFieldDto {
    pub name: String,
    pub value: String,
}

/// The JSON text of a custom field.
pub open spec fn custom_user_field_dto_text(d: CustomUserFieldDto) -> Seq<char> {
    "{\"name\":"@ + jstr(d.name@) + ",\"value\":"@ + jstr(d.value@) + "}"@
}

impl CustomUserFieldDto {
    /// Appends this custom field's JSON text.
    pub fn push_body(&self, out: &mut Vec<char>)
        ensures
            final(out)@ == old(out)@ + custom_user_field_dto_text(*self),
    {
        push_str_chars("{\"name\":", out);
        push_json_string(self.name.as_str(), out);
        push_str_chars(",\"value\":", out);
        push_json_string(self.value.as_str(), out);
        push_str_chars("}", out);
        proof {
            assert(out@ =~= old(out)@ + custom_user_field_dto_text(*self));
        }
    }
}

/// One lead on the wire, both directions.
#[derive(Clone, Debug, PartialEq)]
pub struct LeadDto {
    pub first_name: String,
    pub last_name: String,
    pub profile_url: String,
    pub location: Option<String>,
    pub summary: Option<String>,
    pub company_name: Option<String>,
    pub position: Option<String>,
    pub about: Option<String>,
    pub email_address: Option<String>,
    pub custom_user_fields: Vec<CustomUserFieldDto>,
}

/// The JSON texts of a sequence of custom fields.
pub open spec fn custom_user_field_items(v: Seq<CustomUserFieldDto>) -> Seq<Seq<char>> {
    v.map_values(|d: CustomUserFieldDto| custom_user_field_dto_text(d))
}

/// The JSON text of a lead; absent optional members are omitted entirely.
pub open spec fn lead_dto_text(d: LeadDto) -> Seq<char> {
    "{\"firstName\":"@ + jstr(d.first_name@) + ",\"lastName\":"@ + jstr(d.last_name@)
        + ",\"profileUrl\":"@ + jstr(d.profile_url@) + opt_str_field(",\"location\":"@, d.location)
        + opt_str_field(",\"summary\":"@, d.summary) + opt_str_field(
        ",\"companyName\":"@,
        d.company_name,
    ) + opt_str_field(",\"position\":"@, d.position) + opt_str_field(",\"about\":"@, d.about)
        + opt_str_field(",\"emailAddress\":"@, d.email_address) + ",\"customUserFields\":"@
        + array_text(custom_user_field_items(d.custom_user_fields@)) + "}"@
}

impl LeadDto {
    /// Appends this lead's JSON text.
    pub fn push_body(&self, out: &mut Vec<char>)
        ensures
            final(out)@ == old(out)@ + lead_dto_text(*self),
    {
        push_str_chars("{\"firstName\":", out);
        push_json_string(self.first_name.as_str(), out);
        push_str_chars(",\"lastName\":", out);
        push_json_string(self.last_name.as_str(), out);
        push_str_chars(",\"profileUrl\":", out);
        push_json_string(self.profile_url.as_str(), out);
        push_opt_str_field(",\"location\":", &self.location, out);
        push_opt_str_field(",\"summary\":", &self.summary, out);
        push_opt_str_field(",\"companyName\":", &self.company_name, out);
        push_opt_str_field(",\"position\":", &self.position, out);
        push_opt_str_field(",\"about\":", &self.about, out);
        push_opt_str_field(",\"emailAddress\":", &self.email_address, out);
        push_str_chars(",\"customUserFields\":", out);
        push_custom_user_field_array(&self.custom_user_fields, out);
        push_str_chars("}", out);
        proof {
            assert(out@ =~= old(out)@ + lead_dto_text(*self));
        }
    }
}

/// Appends the JSON array of custom fields for `v`.
pub fn push_custom_user_field_array(v: &Vec<CustomUserFieldDto>, out: &mut Vec<char>)
    ensures
        final(out)@ == old(out)@ + array_text(custom_user_field_items(v@)),
{
    out.push('[');
    let ghost items = custom_user_field_items(v@);
    let n = v.len();
    for i in 0..n
        invariant
            n == v@.len(),
            items == custom_user_field_items(v@),
            out@ == old(out)@ + seq!['['] + crate::text::comma_join(items.take(i as int)),
    {
        if i > 0 {
            out.push(',');
        }
        v[i].push_body(out);
        proof {
            assert(items.take(i as int).push(items[i as int]) =~= items.take(i + 1));
            crate::text::lemma_comma_join_push(items.take(i as int), items[i as int]);
            assert(out@ =~= old(out)@ + seq!['['] + crate::text::comma_join(items.take(i + 1)));
        }
    }
    out.push(']');
    proof {
        assert(items.take(n as int) =~= items);
        assert(out@ =~= old(out)@ + array_text(custom_user_field_items(v@)));
    }
}

/// A lead with its optional fixed sending account, on the wire.
#[derive(Clone, Debug, PartialEq)]
pub struct AccountLeadPairDto {
    pub linked_in_account_id: Option<u32>,
    pub lead: LeadDto,
}

/// The JSON text of an account/lead pair.
pub open spec fn account_lead_pair_dto_text(d: AccountLeadPairDto) -> Seq<char> {
    seq!['{'] + match d.linked_in_account_id {
        Some(n) => "\"linkedInAccountId\":"@ + dec_str(n as nat) + ",\"lead\":"@,
        None => "\"lead\":"@,
    } + lead_dto_text(d.lead) + "}"@
}

impl AccountLeadPairDto {
    /// Appends this pair's JSON text.
    pub fn push_body(&self, out: &mut Vec<char>)
        ensures
            final(out)@ == old(out)@ + account_lead_pair_dto_text(*self),
    {
        out.push('{');
        match &self.linked_in_account_id {
            Some(n) => {
                push_str_chars("\"linkedInAccountId\":", out);
                push_dec_u64(*n as u64, out);
                push_str_chars(",\"lead\":", out);
            },
            None => {
                push_str_chars("\"lead\":", out);
            },
        }
        self.lead.push_body(out);
        push_str_chars("}", out);
        proof {
            assert(out@ =~= old(out)@ + account_lead_pair_dto_text(*self));
        }
    }
}

/// The JSON texts of a sequence of account/lead pairs.
pub open spec fn account_lead_pair_items(v: Seq<AccountLeadPairDto>) -> Seq<Seq<char>> {
    v.map_values(|d: AccountLeadPairDto| account_lead_pair_dto_text(d))
}

/// Appends the JSON array of account/lead pairs for `v`.
pub fn push_account_lead_pair_array(v: &Vec<AccountLeadPairDto>, out: &mut Vec<char>)
    ensures
        final(out)@ == old(out)@ + array_text(account_lead_pair_items(v@)),
{
    out.push('[');
    let ghost items = account_lead_pair_items(v@);
    let n = v.len();
    for i in 0..n
        invariant
            n == v@.len(),
            items == account_lead_pair_items(v@),
            out@ == old(out)@ + seq!['['] + crate::text::comma_join(items.take(i as int)),
    {
        if i > 0 {
            out.push(',');
        }
        v[i].push_body(out);
        proof {
            assert(items.take(i as int).push(items[i as int]) =~= items.take(i + 1));
            crate::text::lemma_comma_join_push(items.take(i as int), items[i as int]);
            assert(out@ =~= old(out)@ + seq!['['] + crate::text::comma_join(items.take(i + 1)));
        }
    }
    out.push(']');
    proof {
        assert(items.take(n as int) =~= items);
        assert(out@ =~= old(out)@ + array_text(account_lead_pair_items(v@)));
    }
}

/// The payload of the add-leads-to-campaign endpoints, on the wire.
#[derive(Clone, Debug, PartialEq)]
pub struct CampaignAddLeadsRequestDto {
    pub campaign_id: u64,
    pub account_lead_pairs: Vec<AccountLeadPairDto>,
}

/// The JSON text of an add-leads-to-campaign payload.
pub open spec fn campaign_add_leads_request_dto_text(d: CampaignAddLeadsRequestDto) -> Seq<char> {
    "{\"campaignId\":"@ + dec_str(d.campaign_id as nat) + ",\"accountLeadPairs\":"@ + array_text(
        account_lead_pair_items(d.account_lead_pairs@),
    ) + "}"@
}

impl CampaignAddLeadsRequestDto {
    /// Appends this payload's JSON text.
    pub fn push_body(&self, out: &mut Vec<char>)
        ensures
            final(out)@ == old(out)@ + campaign_add_leads_request_dto_text(*self),
    {
        push_str_chars("{\"campaignId\":", out);
        push_dec_u64(self.campaign_id, out);
        push_str_chars(",\"accountLeadPairs\":", out);
        push_account_lead_pair_array(&self.account_lead_pairs, out);
        push_str_chars("}", out);
        proof {
            assert(out@ =~= old(out)@ + campaign_add_leads_request_dto_text(*self));
        }
    }
}

/// The tri-count result of the v2 add-leads endpoints, on the wire.
#[derive(Clone, Copy, Debug, PartialEq, Eq, Structural)]
pub struct CampaignAddLeadsV2ResultDto {
    pub added_leads_count: u32,
    pub updated_leads_count: u32,
    pub failed_leads_count: u32,
}

// -------- Lists --------

/// The list listing filter, on the wire.
#[derive(Clone, Debug, PartialEq)]
pub struct ListGetAllFilterDto {
    pub offset: u32,
    pub limit: u32,
    pub keyword: Option<String>,
}

/// The JSON text of a list listing filter.
pub open spec fn list_get_all_filter_dto_text(d: ListGetAllFilterDto) -> Seq<char> {
    "{\"offset\":"@ + dec_str(d.offset as nat) + ",\"limit\":"@ + dec_str(d.limit as nat)
        + opt_str_field(",\"keyword\":"@, d.keyword) + "}"@
}

impl ListGetAllFilterDto {
    /// Appends this filter's JSON text.
    pub fn push_body(&self, out: &mut Vec<char>)
        ensures
            final(out)@ == old(out)@ + list_get_all_filter_dto_text(*self),
    {
        push_str_chars("{\"offset\":", out);
        push_dec_u64(self.offset as u64, out);
        push_str_chars(",\"limit\":", out);
        push_dec_u64(self.limit as u64, out);
        push_opt_str_field(",\"keyword\":", &self.keyword, out);
        push_str_chars("}", out);
        proof {
            assert(out@ =~= old(out)@ + list_get_all_filter_dto_text(*self));
        }
    }
}

/// One list as the remote sends it.
#[derive(Clone, Debug, PartialEq)]
pub struct ListSummaryDto {
    pub id: u64,
    pub name: String,
    pub total_items_count: u32,
    pub list_type: String,
    pub creation_time: String,
    pub campaign_ids: Vec<u64>,
}

/// One page of lists as the remote sends it.
#[derive(Clone, Debug, PartialEq)]
pub struct ListPageDto {
    pub total_count: u32,
    pub items: Vec<ListSummaryDto>,
}

/// One page of leads as the remote sends it.
#[derive(Clone, Debug, PartialEq)]
pub struct ListLeadsPageDto {
    pub total_count: u32,
    pub items: Vec<LeadDto>,
}

/// The get-leads-from-list request, on the wire.
#[derive(Clone, Debug, PartialEq)]
pub struct ListGetLeadsRequestDto {
    pub list_id: u64,
    pub offset: u32,
    pub limit: u32,
    pub keyword: Option<String>,
}

/// The JSON text of a get-leads-from-list request.
pub open spec fn list_get_leads_request_dto_text(d: ListGetLeadsRequestDto) -> Seq<char> {
    "{\"listId\":"@ + dec_str(d.list_id as nat) + ",\"offset\":"@ + dec_str(d.offset as nat)
        + ",\"limit\":"@ + dec_str(d.limit as nat) + opt_str_field(",\"keyword\":"@, d.keyword)
        + "}"@
}

impl ListGetLeadsRequestDto {
    /// Appends this request's JSON text.
    pub fn push_body(&self, out: &mut Vec<char>)
        ensures
            final(out)@ == old(out)@ + list_get_leads_request_dto_text(*self),
    {
        push_str_chars("{\"listId\":", out);
        push_dec_u64(self.list_id, out);
        push_str_chars(",\"offset\":", out);
        push_dec_u64(self.offset as u64, out);
        push_str_chars(",\"limit\":", out);
        push_dec_u64(self.limit as u64, out);
        push_opt_str_field(",\"keyword\":", &self.keyword, out);
        push_str_chars("}", out);
        proof {
            assert(out@ =~= old(out)@ + list_get_leads_request_dto_text(*self));
        }
    }
}

/// The JSON texts of a sequence of leads.
pub open spec fn lead_items(v: Seq<LeadDto>) -> Seq<Seq<char>> {
    v.map_values(|d: LeadDto| lead_dto_text(d))
}

/// Appends the JSON array of leads for `v`.
pub fn push_lead_array(v: &Vec<LeadDto>, out: &mut Vec<char>)
    ensures
        final(out)@ == old(out)@ + array_text(lead_items(v@)),
{
    out.push('[');
    let ghost items = lead_items(v@);
    let n = v.len();
    for i in 0..n
        invariant
            n == v@.len(),
            items == lead_items(v@),
            out@ == old(out)@ + seq!['['] + crate::text::comma_join(items.take(i as int)),
    {
        if i > 0 {
            out.push(',');
        }
        v[i].push_body(out);
        proof {
            assert(items.take(i as int).push(items[i as int]) =~= items.take(i + 1));
            crate::text::lemma_comma_join_push(items.take(i as int), items[i as int]);
            assert(out@ =~= old(out)@ + seq!['['] + crate::text::comma_join(items.take(i + 1)));
        }
    }
    out.push(']');
    proof {
        assert(items.take(n as int) =~= items);
        assert(out@ =~= old(out)@ + array_text(lead_items(v@)));
    }
}

/// The add-leads-to-list payload, on the wire.
#[derive(Clone, Debug, PartialEq)]
pub struct ListAddLeadsRequestDto {
    pub list_id: u64,
    pub leads: Vec<LeadDto>,
}

/// The JSON text of an add-leads-to-list payload.
pub open spec fn list_add_leads_request_dto_text(d: ListAddLeadsRequestDto) -> Seq<char> {
    "{\"listId\":"@ + dec_str(d.list_id as nat) + ",\"leads\":"@ + array_text(lead_items(d.leads@))
        + "}"@
}

impl ListAddLeadsRequestDto {
    /// Appends this payload's JSON text.
    pub fn push_body(&self, out: &mut Vec<char>)
        ensures
            final(out)@ == old(out)@ + list_add_leads_request_dto_text(*self),
    {
        push_str_chars("{\"listId\":", out);
        push_dec_u64(self.list_id, out);
        push_str_chars(",\"leads\":", out);
        push_lead_array(&self.leads, out);
        push_str_chars("}", out);
        proof {
            assert(out@ =~= old(out)@ + list_add_leads_request_dto_text(*self));
        }
    }
}

/// The delete-by-member-id payload, on the wire.
#[derive(Clone, Debug, PartialEq)]
pub struct ListLeadDeleteRequestDto {
    pub list_id: u64,
    pub lead_member_ids: Vec<String>,
}

/// The JSON text of a delete-by-member-id payload.
pub open spec fn list_lead_delete_request_dto_text(d: ListLeadDeleteRequestDto) -> Seq<char> {
    "{\"listId\":"@ + dec_str(d.list_id as nat) + ",\"leadMemberIds\":"@ + array_text(
        string_items(d.lead_member_ids@),
    ) + "}"@
}

impl ListLeadDeleteRequestDto {
    /// Appends this payload's JSON text.
    pub fn push_body(&self, out: &mut Vec<char>)
        ensures
            final(out)@ == old(out)@ + list_lead_delete_request_dto_text(*self),
    {
        push_str_chars("{\"listId\":", out);
        push_dec_u64(self.list_id, out);
        push_str_chars(",\"leadMemberIds\":", out);
        push_string_array(&self.lead_member_ids, out);
        push_str_chars("}", out);
        proof {
            assert(out@ =~= old(out)@ + list_lead_delete_request_dto_text(*self));
        }
    }
}

/// The delete-by-profile-URL payload, on the wire.
#[derive(Clone, Debug, PartialEq)]
pub struct ListLeadDeleteByProfileUrlRequestDto {
    pub list_id: u64,
    pub profile_urls: Vec<String>,
}

/// The JSON text of a delete-by-profile-URL payload.
pub open spec fn list_lead_delete_by_profile_url_request_dto_text(
    d: ListLeadDeleteByProfileUrlRequestDto,
) -> Seq<char> {
    "{\"listId\":"@ + dec_str(d.list_id as nat) + ",\"profileUrls\":"@ + array_text(
        string_items(d.profile_urls@),
    ) + "}"@
}

impl ListLeadDeleteByProfileUrlRequestDto {
    /// Appends this payload's JSON text.
    pub fn push_body(&self, out: &mut Vec<char>)
        ensures
            final(out)@ == old(out)@ + list_lead_delete_by_profile_url_request_dto_text(*self),
    {
        push_str_chars("{\"listId\":", out);
        push_dec_u64(self.list_id, out);
        push_str_chars(",\"profileUrls\":", out);
        push_string_array(&self.profile_urls, out);
        push_str_chars("}", out);
        proof {
            assert(out@ =~= old(out)@ + list_lead_delete_by_profile_url_request_dto_text(*self));
        }
    }
}

/// The informational answer of deletion by profile URL, on the wire.
#[derive(Clone, Debug, PartialEq)]
pub struct ListLeadDeleteByProfileUrlResponseDto {
    pub not_found_in_list: Vec<String>,
}

// -------- Lead & Tags --------

/// The single-lead lookup request, on the wire.
#[derive(Clone, Debug, PartialEq)]
pub struct LeadGetRequestDto {
    pub profile_url: String,
}

/// The JSON text of a single-lead lookup request.
pub open spec fn lead_get_request_dto_text(d: LeadGetRequestDto) -> Seq<char> {
    "{\"profileUrl\":"@ + jstr(d.profile_url@) + "}"@
}

impl LeadGetRequestDto {
    /// Appends this request's JSON text.
    pub fn push_body(&self, out: &mut Vec<char>)
        ensures
            final(out)@ == old(out)@ + lead_get_request_dto_text(*self),
    {
        push_str_chars("{\"profileUrl\":", out);
        push_json_string(self.profile_url.as_str(), out);
        push_str_chars("}", out);
        proof {
            assert(out@ =~= old(out)@ + lead_get_request_dto_text(*self));
        }
    }
}

/// The lists-for-lead request, on the wire. All three identifying members
/// are optional and precede the required pagination bounds, so each present
/// one carries a trailing comma.
#[derive(Clone, Debug, PartialEq)]
pub struct LeadListsRequestDto {
    pub email: Option<String>,
    pub linkedin_id: Option<String>,
    pub profile_url: Option<String>,
    pub offset: u32,
    pub limit: u32,
}

/// The JSON text of a lists-for-lead request.
pub open spec fn lead_lists_request_dto_text(d: LeadListsRequestDto) -> Seq<char> {
    seq!['{'] + opt_str_field_c("\"email\":"@, d.email) + opt_str_field_c(
        "\"linkedinId\":"@,
        d.linkedin_id,
    ) + opt_str_field_c("\"profileUrl\":"@, d.profile_url) + "\"offset\":"@ + dec_str(
        d.offset as nat,
    ) + ",\"limit\":"@ + dec_str(d.limit as nat) + "}"@
}

impl LeadListsRequestDto {
    /// Appends this request's JSON text.
    pub fn push_body(&self, out: &mut Vec<char>)
        ensures
            final(out)@ == old(out)@ + lead_lists_request_dto_text(*self),
    {
        out.push('{');
        push_opt_str_field_c("\"email\":", &self.email, out);
        push_opt_str_field_c("\"linkedinId\":", &self.linkedin_id, out);
        push_opt_str_field_c("\"profileUrl\":", &self.profile_url, out);
        push_str_chars("\"offset\":", out);
        push_dec_u64(self.offset as u64, out);
        push_str_chars(",\"limit\":", out);
        push_dec_u64(self.limit as u64, out);
        push_str_chars("}", out);
        proof {
            assert(out@ =~= old(out)@ + lead_lists_request_dto_text(*self));
        }
    }
}

/// One list membership of a lead, on the wire.
#[derive(Clone, Debug, PartialEq)]
pub struct LeadListSummaryDto {
    pub list_id: u64,
    pub list_name: String,
}

/// The lists of a lead as the remote sends them.
#[derive(Clone, Debug, PartialEq)]
pub struct LeadListsResponseDto {
    pub total_count: u32,
    pub items: Vec<LeadListSummaryDto>,
}

/// The tags of a lead as the remote sends them.
#[derive(Clone, Debug, PartialEq)]
pub struct LeadTagsResponseDto {
    pub tags: Vec<String>,
}

/// The tag replacement payload, on the wire. The two optional identifying
/// members precede the required tag list.
#[derive(Clone, Debug, PartialEq)]
pub struct LeadReplaceTagsRequestDto {
    pub lead_profile_url: Option<String>,
    pub lead_linked_in_id: Option<String>,
    pub tags: Vec<String>,
    pub create_tag_if_not_existing: bool,
}

/// The JSON text of a tag replacement payload.
pub open spec fn lead_replace_tags_request_dto_text(d: LeadReplaceTagsRequestDto) -> Seq<char> {
    seq!['{'] + opt_str_field_c("\"leadProfileUrl\":"@, d.lead_profile_url) + opt_str_field_c(
        "\"leadLinkedInId\":"@,
        d.lead_linked_in_id,
    ) + "\"tags\":"@ + array_text(string_items(d.tags@)) + ",\"createTagIfNotExisting\":"@
        + bool_text(d.create_tag_if_not_existing) + "}"@
}

impl LeadReplaceTagsRequestDto {
    /// Appends this payload's JSON text.
    pub fn push_body(&self, out: &mut Vec<char>)
        ensures
            final(out)@ == old(out)@ + lead_replace_tags_request_dto_text(*self),
    {
        out.push('{');
        push_opt_str_field_c("\"leadProfileUrl\":", &self.lead_profile_url, out);
        push_opt_str_field_c("\"leadLinkedInId\":", &self.lead_linked_in_id, out);
        push_str_chars("\"tags\":", out);
        push_string_array(&self.tags, out);
        push_str_chars(",\"createTagIfNotExisting\":", out);
        push_bool(self.create_tag_if_not_existing, out);
        push_str_chars("}", out);
        proof {
            assert(out@ =~= old(out)@ + lead_replace_tags_request_dto_text(*self));
        }
    }
}

/// The tag set after a replacement, on the wire.
#[derive(Clone, Debug, PartialEq)]
pub struct LeadReplaceTagsResponseDto {
    pub new_assigned_tags: Vec<String>,
}

// -------- Inbox --------

/// The conversation filter, on the wire.
#[derive(Clone, Debug, PartialEq)]
pub struct InboxFiltersDto {
    pub linked_in_account_ids: Vec<u32>,
    pub campaign_ids: Vec<u64>,
    pub search_string: Option<String>,
    pub lead_linked_in_id: Option<String>,
    pub lead_profile_url: Option<String>,
    pub seen: Option<bool>,
}

/// The JSON text of a conversation filter.
pub open spec fn inbox_filters_dto_text(d: InboxFiltersDto) -> Seq<char> {
    "{\"linkedInAccountIds\":"@ + array_text(u32_items(d.linked_in_account_ids@))
        + ",\"campaignIds\":"@ + array_text(u64_items(d.campaign_ids@)) + opt_str_field(
        ",\"searchString\":"@,
        d.search_string,
    ) + opt_str_field(",\"leadLinkedInId\":"@, d.lead_linked_in_id) + opt_str_field(
        ",\"leadProfileUrl\":"@,
        d.lead_profile_url,
    ) + opt_bool_field(",\"seen\":"@, d.seen) + "}"@
}

impl InboxFiltersDto {
    /// Appends this filter's JSON text.
    pub fn push_body(&self, out: &mut Vec<char>)
        ensures
            final(out)@ == old(out)@ + inbox_filters_dto_text(*self),
    {
        push_str_chars("{\"linkedInAccountIds\":", out);
        push_u32_array(&self.linked_in_account_ids, out);
        push_str_chars(",\"campaignIds\":", out);
        push_u64_array(&self.campaign_ids, out);
        push_opt_str_field(",\"searchString\":", &self.search_string, out);
        push_opt_str_field(",\"leadLinkedInId\":", &self.lead_linked_in_id, out);
        push_opt_str_field(",\"leadProfileUrl\":", &self.lead_profile_url, out);
        push_opt_bool_field(",\"seen\":", &self.seen, out);
        push_str_chars("}", out);
        proof {
            assert(out@ =~= old(out)@ + inbox_filters_dto_text(*self));
        }
    }
}

/// The conversation listing request, on the wire.
#[derive(Clone, Debug, PartialEq)]
pub struct InboxGetConversationsRequestDto {
    pub filters: InboxFiltersDto,
    pub offset: u32,
    pub limit: u32,
}

/// The JSON text of a conversation listing request.
pub open spec fn inbox_get_conversations_request_dto_text(
    d: InboxGetConversationsRequestDto,
) -> Seq<char> {
    "{\"filters\":"@ + inbox_filters_dto_text(d.filters) + ",\"offset\":"@ + dec_str(
        d.offset as nat,
    ) + ",\"limit\":"@ + dec_str(d.limit as nat) + "}"@
}

impl InboxGetConversationsRequestDto {
    /// Appends this request's JSON text.
    pub fn push_body(&self, out: &mut Vec<char>)
        ensures
            final(out)@ == old(out)@ + inbox_get_conversations_request_dto_text(*self),
    {
        push_str_chars("{\"filters\":", out);
        self.filters.push_body(out);
        push_str_chars(",\"offset\":", out);
        push_dec_u64(self.offset as u64, out);
        push_str_chars(",\"limit\":", out);
        push_dec_u64(self.limit as u64, out);
        push_str_chars("}", out);
        proof {
            assert(out@ =~= old(out)@ + inbox_get_conversations_request_dto_text(*self));
        }
    }
}

/// One conversation as the remote sends it: the remote spells the
/// conversation id `id` and the seen flag `read`.
#[derive(Clone, Debug, PartialEq)]
pub struct InboxConversationSummaryDto {
    pub conversation_id: String,
    pub linked_in_account_id: u32,
    pub lead_profile_url: Option<String>,
    pub last_message_snippet: Option<String>,
    pub seen: bool,
}

/// One page of conversations as the remote sends it.
#[derive(Clone, Debug, PartialEq)]
pub struct InboxConversationPageDto {
    pub total_count: u32,
    pub items: Vec<InboxConversationSummaryDto>,
}

/// The send-message payload, on the wire: the conversation id goes out
/// under the remote's `id` key.
#[derive(Clone, Debug, PartialEq)]
pub struct InboxSendMessageRequestDto {
    pub message: String,
    pub subject: Option<String>,
    pub conversation_id: String,
    pub linked_in_account_id: u32,
}

/// The JSON text of a send-message payload.
pub open spec fn inbox_send_message_request_dto_text(d: InboxSendMessageRequestDto) -> Seq<char> {
    "{\"message\":"@ + jstr(d.message@) + opt_str_field(",\"subject\":"@, d.subject) + ",\"id\":"@
        + jstr(d.conversation_id@) + ",\"linkedInAccountId\":"@ + dec_str(
        d.linked_in_account_id as nat,
    ) + "}"@
}

impl InboxSendMessageRequestDto {
    /// Appends this payload's JSON text.
    pub fn push_body(&self, out: &mut Vec<char>)
        ensures
            final(out)@ == old(out)@ + inbox_send_message_request_dto_text(*self),
    {
        push_str_chars("{\"message\":", out);
        push_json_string(self.message.as_str(), out);
        push_opt_str_field(",\"subject\":", &self.subject, out);
        push_str_chars(",\"id\":", out);
        push_json_string(self.conversation_id.as_str(), out);
        push_str_chars(",\"linkedInAccountId\":", out);
        push_dec_u64(self.linked_in_account_id as u64, out);
        push_str_chars("}", out);
        proof {
            assert(out@ =~= old(out)@ + inbox_send_message_request_dto_text(*self));
        }
    }
}

// -------- LinkedIn accounts --------

/// The account listing filter, on the wire.
#[derive(Clone, Debug, PartialEq)]
pub struct LiAccountFilterDto {
    pub offset: u32,
    pub limit: u32,
    pub keyword: Option<String>,
}

/// The JSON text of an account listing filter.
pub open spec fn li_account_filter_dto_text(d: LiAccountFilterDto) -> Seq<char> {
    "{\"offset\":"@ + dec_str(d.offset as nat) + ",\"limit\":"@ + dec_str(d.limit as nat)
        + opt_str_field(",\"keyword\":"@, d.keyword) + "}"@
}

impl LiAccountFilterDto {
    /// Appends this filter's JSON text.
    pub fn push_body(&self, out: &mut Vec<char>)
        ensures
            final(out)@ == old(out)@ + li_account_filter_dto_text(*self),
    {
        push_str_chars("{\"offset\":", out);
        push_dec_u64(self.offset as u64, out);
        push_str_chars(",\"limit\":", out);
        push_dec_u64(self.limit as u64, out);
        push_opt_str_field(",\"keyword\":", &self.keyword, out);
        push_str_chars("}", out);
        proof {
            assert(out@ =~= old(out)@ + li_account_filter_dto_text(*self));
        }
    }
}

/// One sending account as the remote sends it.
#[derive(Clone, Debug, PartialEq)]
pub struct LiAccountSummaryDto {
    pub id: u32,
    pub email_address: String,
    pub first_name: String,
    pub last_name: String,
    pub is_active: bool,
    pub active_campaigns: u32,
    pub auth_is_valid: bool,
    pub is_valid_navigator: bool,
    pub is_valid_recruiter: bool,
}

/// One page of sending accounts as the remote sends it.
#[derive(Clone, Debug, PartialEq)]
pub struct LiAccountPageDto {
    pub total_count: u32,
    pub items: Vec<LiAccountSummaryDto>,
}

// -------- Webhooks --------

/// One webhook as the remote sends it.
#[derive(Clone, Debug, PartialEq)]
pub struct WebhookDto {
    pub id: u64,
    pub webhook_name: String,
    pub webhook_url: String,
    pub event_type: String,
    pub campaign_ids: Vec<u64>,
    pub is_active: bool,
}

/// The webhook creation payload, on the wire; the event type is already
/// serialized to its canonical capitalized token.
#[derive(Clone, Debug, PartialEq)]
pub struct CreateWebhookRequestDto {
    pub webhook_name: String,
    pub webhook_url: String,
    pub event_type: String,
    pub campaign_ids: Vec<u64>,
    pub is_active: bool,
}

/// The JSON text of a webhook creation payload.
pub open spec fn create_webhook_request_dto_text(d: CreateWebhookRequestDto) -> Seq<char> {
    "{\"webhookName\":"@ + jstr(d.webhook_name@) + ",\"webhookUrl\":"@ + jstr(d.webhook_url@)
        + ",\"eventType\":"@ + jstr(d.event_type@) + ",\"campaignIds\":"@ + array_text(
        u64_items(d.campaign_ids@),
    ) + ",\"isActive\":"@ + bool_text(d.is_active) + "}"@
}

impl CreateWebhookRequestDto {
    /// Appends this payload's JSON text.
    pub fn push_body(&self, out: &mut Vec<char>)
        ensures
            final(out)@ == old(out)@ + create_webhook_request_dto_text(*self),
    {
        push_str_chars("{\"webhookName\":", out);
        push_json_string(self.webhook_name.as_str(), out);
        push_str_chars(",\"webhookUrl\":", out);
        push_json_string(self.webhook_url.as_str(), out);
        push_str_chars(",\"eventType\":", out);
        push_json_string(self.event_type.as_str(), out);
        push_str_chars(",\"campaignIds\":", out);
        push_u64_array(&self.campaign_ids, out);
        push_str_chars(",\"isActive\":", out);
        push_bool(self.is_active, out);
        push_str_chars("}", out);
        proof {
            assert(out@ =~= old(out)@ + create_webhook_request_dto_text(*self));
        }
    }
}

/// The webhook listing filter, on the wire.
#[derive(Clone, Copy, Debug, PartialEq, Eq, Structural)]
pub struct GetWebhooksFilterDto {
    pub offset: u32,
    pub limit: u32,
}

/// The JSON text of a webhook listing filter.
pub open spec fn get_webhooks_filter_dto_text(d: GetWebhooksFilterDto) -> Seq<char> {
    "{\"offset\":"@ + dec_str(d.offset as nat) + ",\"limit\":"@ + dec_str(d.limit as nat) + "}"@
}

impl GetWebhooksFilterDto {
    /// Appends this filter's JSON text.
    pub fn push_body(&self, out: &mut Vec<char>)
        ensures
            final(out)@ == old(out)@ + get_webhooks_filter_dto_text(*self),
    {
        push_str_chars("{\"offset\":", out);
        push_dec_u64(self.offset as u64, out);
        push_str_chars(",\"limit\":", out);
        push_dec_u64(self.limit as u64, out);
        push_str_chars("}", out);
        proof {
            assert(out@ =~= old(out)@ + get_webhooks_filter_dto_text(*self));
        }
    }
}

/// One page of webhooks as the remote sends it.
#[derive(Clone, Debug, PartialEq)]
pub struct WebhookPageDto {
    pub total_count: u32,
    pub items: Vec<WebhookDto>,
}

} // verus!
