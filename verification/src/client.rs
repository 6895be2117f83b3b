//! One function pair per domain operation. The `<operation>_request`
//! builder turns the caller's typed input into the exact request the remote
//! service expects; the `<operation>` function turns the transport's
//! outcome into the typed domain result or the classified error the adapter
//! owes. The host performs the round trip in between.
use vstd::prelude::*;

verus! {

use vstd::string::StringExecFns;
use crate::ApiError;
use crate::convert::add_leads_v2_result_matches_json;
use crate::convert::campaign_page_matches_json;
use crate::convert::campaign_summary_matches_json;
use crate::convert::conversation_page_matches_json;
use crate::convert::conversation_summary_matches_json;
use crate::convert::convert_add_leads_v2_result;
use crate::convert::convert_campaign_summary;
use crate::convert::convert_conversation_summary;
use crate::convert::convert_lead;
use crate::convert::convert_lead_dto;
use crate::convert::convert_li_account_summary;
use crate::convert::convert_list_summary;
use crate::convert::convert_webhook;
use crate::convert::delete_response_matches_json;
use crate::convert::lead_list_summary_matches_json;
use crate::convert::lead_lists_response_matches_json;
use crate::convert::lead_matches_dto;
use crate::convert::lead_matches_json;
use crate::convert::lead_replace_tags_response_matches_json;
use crate::convert::lead_tags_response_matches_json;
use crate::convert::lemma_lead_compose;
use crate::convert::li_account_page_matches_json;
use crate::convert::li_account_summary_matches_json;
use crate::convert::list_leads_page_matches_json;
use crate::convert::list_page_matches_json;
use crate::convert::list_summary_matches_json;
use crate::convert::webhook_matches_json;
use crate::convert::webhook_page_matches_json;
use crate::domain::AccountLeadPair;
use crate::domain::CampaignAddLeadsRequest;
use crate::domain::CampaignAddLeadsV2Result;
use crate::domain::CampaignFilter;
use crate::domain::CampaignPage;
use crate::domain::CampaignStatus;
use crate::domain::CampaignSummary;
use crate::domain::CreateWebhookRequest;
use crate::domain::CustomUserField;
use crate::domain::GetWebhooksFilter;
use crate::domain::InboxConversationPage;
use crate::domain::InboxConversationSummary;
use crate::domain::InboxFilters;
use crate::domain::InboxGetConversationsRequest;
use crate::domain::InboxSendMessageRequest;
use crate::domain::Lead;
use crate::domain::LeadListSummary;
use crate::domain::LeadListsRequest;
use crate::domain::LeadListsResponse;
use crate::domain::LeadReplaceTagsRequest;
use crate::domain::LeadReplaceTagsResponse;
use crate::domain::LeadTagsResponse;
use crate::domain::LiAccountFilter;
use crate::domain::LiAccountPage;
use crate::domain::LiAccountSummary;
use crate::domain::ListGetAllFilter;
use crate::domain::ListLeadDeleteByProfileUrlRequest;
use crate::domain::ListLeadDeleteByProfileUrlResponse;
use crate::domain::ListLeadDeleteRequest;
use crate::domain::ListLeadsPage;
use crate::domain::ListPage;
use crate::domain::ListSummary;
use crate::domain::Webhook;
use crate::domain::WebhookPage;
use crate::domain::campaign_status_to_string;
use crate::domain::campaign_status_token;
use crate::domain::webhook_event_type_to_string;
use crate::domain::webhook_event_type_token;
use crate::json::Json;
use crate::models::AccountLeadPairDto;
use crate::models::CampaignAddLeadsRequestDto;
use crate::models::CampaignFilterDto;
use crate::models::CreateWebhookRequestDto;
use crate::models::GetWebhooksFilterDto;
use crate::models::InboxFiltersDto;
use crate::models::InboxGetConversationsRequestDto;
use crate::models::InboxSendMessageRequestDto;
use crate::models::LeadDto;
use crate::models::LeadGetRequestDto;
use crate::models::LeadListsRequestDto;
use crate::models::LeadReplaceTagsRequestDto;
use crate::models::LiAccountFilterDto;
use crate::models::ListAddLeadsRequestDto;
use crate::models::ListGetAllFilterDto;
use crate::models::ListGetLeadsRequestDto;
use crate::models::ListLeadDeleteByProfileUrlRequestDto;
use crate::models::ListLeadDeleteRequestDto;
use crate::models::account_lead_pair_dto_text;
use crate::models::account_lead_pair_items;
use crate::models::custom_user_field_items;
use crate::models::get_webhooks_filter_dto_text;
use crate::models::inbox_get_conversations_request_dto_text;
use crate::models::inbox_send_message_request_dto_text;
use crate::models::lead_dto_text;
use crate::models::lead_get_request_dto_text;
use crate::models::lead_items;
use crate::models::lead_lists_request_dto_text;
use crate::models::lead_replace_tags_request_dto_text;
use crate::models::li_account_filter_dto_text;
use crate::models::list_get_all_filter_dto_text;
use crate::models::list_get_leads_request_dto_text;
use crate::models::list_lead_delete_by_profile_url_request_dto_text;
use crate::models::list_lead_delete_request_dto_text;
use crate::reconcile::add_leads_v2_result_dto_of_json;
use crate::reconcile::campaign_page_dto_of_json;
use crate::reconcile::campaign_summary_dto_of_json;
use crate::reconcile::conversation_page_dto_of_json;
use crate::reconcile::delete_by_profile_url_response_dto_of_json;
use crate::reconcile::lead_dto_of_json;
use crate::reconcile::lead_lists_response_dto_of_json;
use crate::reconcile::lead_replace_tags_response_dto_of_json;
use crate::reconcile::lead_tags_response_dto_of_json;
use crate::reconcile::li_account_page_dto_of_json;
use crate::reconcile::list_leads_page_dto_of_json;
use crate::reconcile::list_page_dto_of_json;
use crate::reconcile::list_summary_dto_of_json;
use crate::reconcile::webhook_dto_of_json;
use crate::reconcile::webhook_page_dto_of_json;
use crate::text::array_text;
use crate::text::bool_text;
use crate::text::dec_str;
use crate::text::jstr;
use crate::text::opt_str_field;
use crate::text::push_dec_u64;
use crate::text::push_str_chars;
use crate::text::string_items;
use crate::text::string_of_chars;
use crate::text::u32_items;
use crate::text::u64_items;
use crate::transport::HttpMethod;
use crate::transport::HttpRequest;
use crate::transport::TransportOutcome;
use crate::transport::empty_op_result;
use crate::transport::errs_match;
use crate::transport::interpret_empty_response;
use crate::transport::interpret_response;
use crate::transport::outcome_doc;
use crate::transport::outcome_error;

/// Builds a path from a fixed prefix and a decimal id.
fn path_with_u64(prefix: &str, id: u64) -> (r: String)
    ensures
        r@ == prefix@ + dec_str(id as nat),
{
    let mut out: Vec<char> = Vec::new();
    push_str_chars(prefix, &mut out);
    push_dec_u64(id, &mut out);
    string_of_chars(&out)
}

// -------- Auth --------

/// The request of the credential check: a bare GET.
pub fn check_api_key_request() -> (r: HttpRequest)
    ensures
        r.method == HttpMethod::Get,
        r.path@ == "/api/public/auth/CheckApiKey"@,
        r.body is None,
{
    HttpRequest {
        method: HttpMethod::Get,
        path: "/api/public/auth/CheckApiKey".to_owned(),
        body: None,
    }
}

/// Interprets the credential check: success means the credential was
/// accepted; any classified error means rejected or unreachable, and only
/// the error kind tells those apart.
pub fn check_api_key(outcome: TransportOutcome) -> (r: Result<(), ApiError>)
    ensures
        empty_op_result(r, outcome),
{
    interpret_empty_response(outcome)
}

// -------- Campaigns --------

/// The JSON body of a campaign listing: the filter with every status
/// serialized to its lowercase token.
pub open spec fn campaigns_get_all_body(f: CampaignFilter) -> Seq<char> {
    "{\"offset\":"@ + dec_str(f.offset as nat) + ",\"limit\":"@ + dec_str(f.limit as nat)
        + opt_str_field(",\"keyword\":"@, f.keyword) + ",\"statuses\":"@ + array_text(
        f.statuses@.map_values(|st: CampaignStatus| jstr(campaign_status_token(st))),
    ) + ",\"accountIds\":"@ + array_text(u32_items(f.account_ids@)) + "}"@
}

/// Builds the campaign listing request.
pub fn campaigns_get_all_request(filter: CampaignFilter) -> (r: HttpRequest)
    ensures
        r.method == HttpMethod::Post,
        r.path@ == "/api/public/campaign/GetAll"@,
        r.body matches Some(b) && b@ == campaigns_get_all_body(filter),
{
    let CampaignFilter { offset, limit, keyword, statuses, account_ids } = filter;
    let mut status_strings: Vec<String> = Vec::new();
    let n = statuses.len();
    for i in 0..n
        invariant
            n == statuses@.len(),
            status_strings@.len() == i,
            forall|k: int|
                0 <= k < i ==> (#[trigger] status_strings@[k])@ == campaign_status_token(
                    statuses@[k],
                ),
    {
        status_strings.push(campaign_status_to_string(&statuses[i]));
    }
    let dto = CampaignFilterDto { offset, limit, keyword, statuses: status_strings, account_ids };
    let mut out: Vec<char> = Vec::new();
    dto.push_body(&mut out);
    proof {
        assert(string_items(dto.statuses@) =~= filter.statuses@.map_values(
            |st: CampaignStatus| jstr(campaign_status_token(st)),
        ));
        assert(out@ =~= campaigns_get_all_body(filter));
    }
    HttpRequest {
        method: HttpMethod::Post,
        path: "/api/public/campaign/GetAll".to_owned(),
        body: Some(string_of_chars(&out)),
    }
}

/// Interprets a campaign listing reply: the reconciled, normalized page.
pub fn campaigns_get_all(outcome: TransportOutcome) -> (r: Result<CampaignPage, ApiError>)
    ensures
        match outcome_error(outcome) {
            Some(e) => errs_match(r, e),
            None => r matches Ok(p) && campaign_page_matches_json(p, outcome_doc(outcome)),
        },
{
    match interpret_response(outcome) {
        Err(e) => Err(e),
        Ok(j) => {
            let dto = campaign_page_dto_of_json(&j);
            let ghost jv = j;
            let total_count = dto.total_count;
            let mut src = dto.items;
            let ghost orig = src@;
            let mut items: Vec<CampaignSummary> = Vec::new();
            while src.len() > 0
                invariant
                    items@.len() + src@.len() == orig.len(),
                    src@ == orig.skip(items@.len() as int),
                    forall|k: int|
                        0 <= k < items@.len() ==> campaign_summary_matches_json(
                            #[trigger] items@[k],
                            crate::json::jget_arr(jv, "items"@)[k],
                        ),
                    forall|k: int|
                        0 <= k < orig.len() ==> crate::reconcile::campaign_summary_dto_matches(
                            #[trigger] orig[k],
                            crate::json::jget_arr(jv, "items"@)[k],
                        ),
                decreases src.len(),
            {
                let ghost done = items@.len() as int;
                let d = src.remove(0);
                proof {
                    assert(d == orig[done]);
                    assert(orig.skip(done).remove(0) =~= orig.skip(done + 1));
                }
                items.push(convert_campaign_summary(d));
            }
            Ok(CampaignPage { total_count, items })
        },
    }
}

/// Builds the single-campaign request.
pub fn campaigns_get_by_id_request(campaign_id: u64) -> (r: HttpRequest)
    ensures
        r.method == HttpMethod::Get,
        r.path@ == "/api/public/campaign/GetById?campaignId="@ + dec_str(campaign_id as nat),
        r.body is None,
{
    HttpRequest {
        method: HttpMethod::Get,
        path: path_with_u64("/api/public/campaign/GetById?campaignId=", campaign_id),
        body: None,
    }
}

/// Interprets a single-campaign reply: the normalized campaign.
pub fn campaigns_get_by_id(outcome: TransportOutcome) -> (r: Result<CampaignSummary, ApiError>)
    ensures
        match outcome_error(outcome) {
            Some(e) => errs_match(r, e),
            None => r matches Ok(c) && campaign_summary_matches_json(c, outcome_doc(outcome)),
        },
{
    match interpret_response(outcome) {
        Err(e) => Err(e),
        Ok(j) => Ok(convert_campaign_summary(campaign_summary_dto_of_json(&j))),
    }
}

/// Builds the campaign resume request.
pub fn campaigns_resume_request(campaign_id: u64) -> (r: HttpRequest)
    ensures
        r.method == HttpMethod::Post,
        r.path@ == "/api/public/campaign/Resume?campaignId="@ + dec_str(campaign_id as nat),
        r.body is None,
{
    HttpRequest {
        method: HttpMethod::Post,
        path: path_with_u64("/api/public/campaign/Resume?campaignId=", campaign_id),
        body: None,
    }
}

/// Interprets the campaign resume reply.
pub fn campaigns_resume(outcome: TransportOutcome) -> (r: Result<(), ApiError>)
    ensures
        empty_op_result(r, outcome),
{
    interpret_empty_response(outcome)
}

/// Builds the campaign pause request.
pub fn campaigns_pause_request(campaign_id: u64) -> (r: HttpRequest)
    ensures
        r.method == HttpMethod::Post,
        r.path@ == "/api/public/campaign/Pause?campaignId="@ + dec_str(campaign_id as nat),
        r.body is None,
{
    HttpRequest {
        method: HttpMethod::Post,
        path: path_with_u64("/api/public/campaign/Pause?campaignId=", campaign_id),
        body: None,
    }
}

/// Interprets the campaign pause reply.
pub fn campaigns_pause(outcome: TransportOutcome) -> (r: Result<(), ApiError>)
    ensures
        empty_op_result(r, outcome),
{
    interpret_empty_response(outcome)
}

/// The JSON text of one custom field of a domain lead.
pub open spec fn cuf_text(f: CustomUserField) -> Seq<char> {
    "{\"name\":"@ + jstr(f.name@) + ",\"value\":"@ + jstr(f.value@) + "}"@
}

/// The JSON text of a domain lead, exactly as the wire shape serializes it.
pub open spec fn lead_text(l: Lead) -> Seq<char> {
    "{\"firstName\":"@ + jstr(l.first_name@) + ",\"lastName\":"@ + jstr(l.last_name@)
        + ",\"profileUrl\":"@ + jstr(l.profile_url@) + opt_str_field(",\"location\":"@, l.location)
        + opt_str_field(",\"summary\":"@, l.summary) + opt_str_field(
        ",\"companyName\":"@,
        l.company_name,
    ) + opt_str_field(",\"position\":"@, l.position) + opt_str_field(",\"about\":"@, l.about)
        + opt_str_field(",\"emailAddress\":"@, l.email_address) + ",\"customUserFields\":"@
        + array_text(l.custom_user_fields@.map_values(|f: CustomUserField| cuf_text(f))) + "}"@
}

/// A wire lead carrying the same data as a domain lead serializes to the
/// domain lead's JSON text.
pub proof fn lemma_lead_text(l: Lead, d: LeadDto)
    requires
        lead_matches_dto(l, d),
    ensures
        lead_dto_text(d) == lead_text(l),
{
    assert(custom_user_field_items(d.custom_user_fields@) =~= l.custom_user_fields@.map_values(
        |f: CustomUserField| cuf_text(f),
    ));
}

/// The JSON text of a domain account/lead pair.
pub open spec fn pair_text(p: AccountLeadPair) -> Seq<char> {
    seq!['{'] + match p.linked_in_account_id {
        Some(n) => "\"linkedInAccountId\":"@ + dec_str(n as nat) + ",\"lead\":"@,
        None => "\"lead\":"@,
    } + lead_text(p.lead) + "}"@
}

/// Whether a wire pair carries the same data as a domain pair.
pub open spec fn pair_matches_dto(p: AccountLeadPair, d: AccountLeadPairDto) -> bool {
    &&& d.linked_in_account_id == p.linked_in_account_id
    &&& lead_matches_dto(p.lead, d.lead)
}

/// A wire pair carrying the same data as a domain pair serializes to the
/// domain pair's JSON text.
pub proof fn lemma_pair_text(p: AccountLeadPair, d: AccountLeadPairDto)
    requires
        pair_matches_dto(p, d),
    ensures
        account_lead_pair_dto_text(d) == pair_text(p),
{
    lemma_lead_text(p.lead, d.lead);
}

/// The JSON body of both add-leads-to-campaign endpoints.
pub open spec fn campaigns_add_leads_body(q: CampaignAddLeadsRequest) -> Seq<char> {
    "{\"campaignId\":"@ + dec_str(q.campaign_id as nat) + ",\"accountLeadPairs\":"@ + array_text(
        q.account_lead_pairs@.map_values(|p: AccountLeadPair| pair_text(p)),
    ) + "}"@
}

/// Builds the wire form of an add-leads payload.
fn build_add_leads_dto(payload: CampaignAddLeadsRequest) -> (r: CampaignAddLeadsRequestDto)
    ensures
        r.campaign_id == payload.campaign_id,
        r.account_lead_pairs@.len() == payload.account_lead_pairs@.len(),
        forall|k: int|
            0 <= k < r.account_lead_pairs@.len() ==> pair_matches_dto(
                payload.account_lead_pairs@[k],
                #[trigger] r.account_lead_pairs@[k],
            ),
{
    let CampaignAddLeadsRequest { campaign_id, account_lead_pairs } = payload;
    let mut src = account_lead_pairs;
    let ghost orig = src@;
    let mut pairs: Vec<AccountLeadPairDto> = Vec::new();
    while src.len() > 0
        invariant
            pairs@.len() + src@.len() == orig.len(),
            src@ == orig.skip(pairs@.len() as int),
            forall|k: int|
                0 <= k < pairs@.len() ==> pair_matches_dto(orig[k], #[trigger] pairs@[k]),
        decreases src.len(),
    {
        let ghost done = pairs@.len() as int;
        let p = src.remove(0);
        proof {
            assert(p == orig[done]);
            assert(orig.skip(done).remove(0) =~= orig.skip(done + 1));
        }
        let AccountLeadPair { linked_in_account_id, lead } = p;
        let d = AccountLeadPairDto { linked_in_account_id, lead: convert_lead(lead) };
        pairs.push(d);
    }
    proof {
        assert(orig =~= payload.account_lead_pairs@);
    }
    CampaignAddLeadsRequestDto { campaign_id, account_lead_pairs: pairs }
}

/// Builds an add-leads request against the given endpoint path.
fn add_leads_request_at(path: &str, payload: CampaignAddLeadsRequest) -> (r: HttpRequest)
    ensures
        r.method == HttpMethod::Post,
        r.path@ == path@,
        r.body matches Some(b) && b@ == campaigns_add_leads_body(payload),
{
    let dto = build_add_leads_dto(payload);
    let mut out: Vec<char> = Vec::new();
    dto.push_body(&mut out);
    proof {
        assert forall|k: int| 0 <= k < dto.account_lead_pairs@.len() implies account_lead_pair_items(
            dto.account_lead_pairs@,
        )[k] == payload.account_lead_pairs@.map_values(|p: AccountLeadPair| pair_text(p))[k] by {
            lemma_pair_text(payload.account_lead_pairs@[k], dto.account_lead_pairs@[k]);
        }
        assert(account_lead_pair_items(dto.account_lead_pairs@)
            =~= payload.account_lead_pairs@.map_values(|p: AccountLeadPair| pair_text(p)));
        assert(out@ =~= campaigns_add_leads_body(payload));
    }
    HttpRequest { method: HttpMethod::Post, path: path.to_owned(), body: Some(
        string_of_chars(&out),
    ) }
}

/// Builds the v1 add-leads-to-campaign request.
pub fn campaigns_add_leads_request(payload: CampaignAddLeadsRequest) -> (r: HttpRequest)
    ensures
        r.method == HttpMethod::Post,
        r.path@ == "/api/public/campaign/AddLeadsToCampaign"@,
        r.body matches Some(b) && b@ == campaigns_add_leads_body(payload),
{
    add_leads_request_at("/api/public/campaign/AddLeadsToCampaign", payload)
}

/// Interprets the v1 add-leads reply: a raw count. A success body that is
/// not an unsigned count in range is reported as an unparsable response.
pub fn campaigns_add_leads(outcome: TransportOutcome) -> (r: Result<u32, ApiError>)
    ensures
        match outcome_error(outcome) {
            Some(e) => errs_match(r, e),
            None => match outcome_doc(outcome) {
                Json::U64(n) => if n <= u32::MAX as u64 {
                    r == Ok::<u32, ApiError>(n as u32)
                } else {
                    errs_match(
                        r,
                        (crate::ApiErrorCode::Unknown, "Failed to parse response"@),
                    )
                },
                _ => errs_match(r, (crate::ApiErrorCode::Unknown, "Failed to parse response"@)),
            },
        },
{
    match interpret_response(outcome) {
        Err(e) => Err(e),
        Ok(j) => match j {
            Json::U64(n) => if n <= u32::MAX as u64 {
                Ok(n as u32)
            } else {
                Err(crate::transport::api_error(
                    crate::ApiErrorCode::Unknown,
                    "Failed to parse response",
                ))
            },
            _ => Err(crate::transport::api_error(
                crate::ApiErrorCode::Unknown,
                "Failed to parse response",
            )),
        },
    }
}

/// Builds the v2 add-leads-to-campaign request — a distinct endpoint, not a
/// variant of the v1 call.
pub fn campaigns_add_leads_v2_request(payload: CampaignAddLeadsRequest) -> (r: HttpRequest)
    ensures
        r.method == HttpMethod::Post,
        r.path@ == "/api/public/campaign/AddLeadsToCampaignV2"@,
        r.body matches Some(b) && b@ == campaigns_add_leads_body(payload),
{
    add_leads_request_at("/api/public/campaign/AddLeadsToCampaignV2", payload)
}

/// Interprets the v2 add-leads reply: the structured tri-count result.
pub fn campaigns_add_leads_v2(outcome: TransportOutcome) -> (r: Result<
    CampaignAddLeadsV2Result,
    ApiError,
>)
    ensures
        match outcome_error(outcome) {
            Some(e) => errs_match(r, e),
            None => r matches Ok(v) && add_leads_v2_result_matches_json(v, outcome_doc(outcome)),
        },
{
    match interpret_response(outcome) {
        Err(e) => Err(e),
        Ok(j) => Ok(convert_add_leads_v2_result(add_leads_v2_result_dto_of_json(&j))),
    }
}

// -------- Lists --------

/// The JSON body of a list listing.
pub open spec fn lists_get_all_body(f: ListGetAllFilter) -> Seq<char> {
    list_get_all_filter_dto_text(
        ListGetAllFilterDto { offset: f.offset, limit: f.limit, keyword: f.keyword },
    )
}

/// Builds the list listing request.
pub fn lists_get_all_request(filter: ListGetAllFilter) -> (r: HttpRequest)
    ensures
        r.method == HttpMethod::Post,
        r.path@ == "/api/public/list/GetAll"@,
        r.body matches Some(b) && b@ == lists_get_all_body(filter),
{
    let ListGetAllFilter { offset, limit, keyword } = filter;
    let dto = ListGetAllFilterDto { offset, limit, keyword };
    let mut out: Vec<char> = Vec::new();
    dto.push_body(&mut out);
    HttpRequest {
        method: HttpMethod::Post,
        path: "/api/public/list/GetAll".to_owned(),
        body: Some(string_of_chars(&out)),
    }
}

/// Interprets a list listing reply: the reconciled, normalized page.
pub fn lists_get_all(outcome: TransportOutcome) -> (r: Result<ListPage, ApiError>)
    ensures
        match outcome_error(outcome) {
            Some(e) => errs_match(r, e),
            None => r matches Ok(p) && list_page_matches_json(p, outcome_doc(outcome)),
        },
{
    match interpret_response(outcome) {
        Err(e) => Err(e),
        Ok(j) => {
            let dto = list_page_dto_of_json(&j);
            let ghost jv = j;
            let total_count = dto.total_count;
            let mut src = dto.items;
            let ghost orig = src@;
            let mut items: Vec<ListSummary> = Vec::new();
            while src.len() > 0
                invariant
                    items@.len() + src@.len() == orig.len(),
                    src@ == orig.skip(items@.len() as int),
                    forall|k: int|
                        0 <= k < items@.len() ==> list_summary_matches_json(
                            #[trigger] items@[k],
                            crate::json::jget_arr(jv, "items"@)[k],
                        ),
                    forall|k: int|
                        0 <= k < orig.len() ==> crate::reconcile::list_summary_dto_matches(
                            #[trigger] orig[k],
                            crate::json::jget_arr(jv, "items"@)[k],
                        ),
                decreases src.len(),
            {
                let ghost done = items@.len() as int;
                let d = src.remove(0);
                proof {
                    assert(d == orig[done]);
                    assert(orig.skip(done).remove(0) =~= orig.skip(done + 1));
                }
                items.push(convert_list_summary(d));
            }
            Ok(ListPage { total_count, items })
        },
    }
}

/// Builds the single-list request.
pub fn lists_get_by_id_request(list_id: u64) -> (r: HttpRequest)
    ensures
        r.method == HttpMethod::Get,
        r.path@ == "/api/public/list/GetById?listId="@ + dec_str(list_id as nat),
        r.body is None,
{
    HttpRequest {
        method: HttpMethod::Get,
        path: path_with_u64("/api/public/list/GetById?listId=", list_id),
        body: None,
    }
}

/// Interprets a single-list reply: the normalized list.
pub fn lists_get_by_id(outcome: TransportOutcome) -> (r: Result<ListSummary, ApiError>)
    ensures
        match outcome_error(outcome) {
            Some(e) => errs_match(r, e),
            None => r matches Ok(s) && list_summary_matches_json(s, outcome_doc(outcome)),
        },
{
    match interpret_response(outcome) {
        Err(e) => Err(e),
        Ok(j) => Ok(convert_list_summary(list_summary_dto_of_json(&j))),
    }
}

/// The JSON body of a get-leads-from-list request.
pub open spec fn lists_get_leads_body(
    list_id: u64,
    offset: u32,
    limit: u32,
    keyword: Option<String>,
) -> Seq<char> {
    list_get_leads_request_dto_text(ListGetLeadsRequestDto { list_id, offset, limit, keyword })
}

/// Builds the get-leads-from-list request.
pub fn lists_get_leads_request(list_id: u64, offset: u32, limit: u32, keyword: Option<String>) -> (r:
    HttpRequest)
    ensures
        r.method == HttpMethod::Post,
        r.path@ == "/api/public/list/GetLeadsFromList"@,
        r.body matches Some(b) && b@ == lists_get_leads_body(list_id, offset, limit, keyword),
{
    let dto = ListGetLeadsRequestDto { list_id, offset, limit, keyword };
    let mut out: Vec<char> = Vec::new();
    dto.push_body(&mut out);
    HttpRequest {
        method: HttpMethod::Post,
        path: "/api/public/list/GetLeadsFromList".to_owned(),
        body: Some(string_of_chars(&out)),
    }
}

/// Interprets a get-leads-from-list reply: the reconciled page of leads.
pub fn lists_get_leads(outcome: TransportOutcome) -> (r: Result<ListLeadsPage, ApiError>)
    ensures
        match outcome_error(outcome) {
            Some(e) => errs_match(r, e),
            None => r matches Ok(p) && list_leads_page_matches_json(p, outcome_doc(outcome)),
        },
{
    match interpret_response(outcome) {
        Err(e) => Err(e),
        Ok(j) => {
            let dto = list_leads_page_dto_of_json(&j);
            let ghost jv = j;
            let total_count = dto.total_count;
            let mut src = dto.items;
            let ghost orig = src@;
            let mut items: Vec<Lead> = Vec::new();
            while src.len() > 0
                invariant
                    items@.len() + src@.len() == orig.len(),
                    src@ == orig.skip(items@.len() as int),
                    forall|k: int|
                        0 <= k < items@.len() ==> lead_matches_json(
                            #[trigger] items@[k],
                            crate::json::jget_arr(jv, "items"@)[k],
                        ),
                    forall|k: int|
                        0 <= k < orig.len() ==> crate::reconcile::lead_dto_matches(
                            #[trigger] orig[k],
                            crate::json::jget_arr(jv, "items"@)[k],
                        ),
                decreases src.len(),
            {
                let ghost done = items@.len() as int;
                let d = src.remove(0);
                proof {
                    assert(d == orig[done]);
                    assert(orig.skip(done).remove(0) =~= orig.skip(done + 1));
                }
                let ghost dg = d;
                let l = convert_lead_dto(d);
                proof {
                    lemma_lead_compose(l, dg, crate::json::jget_arr(jv, "items"@)[done]);
                }
                items.push(l);
            }
            Ok(ListLeadsPage { total_count, items })
        },
    }
}

/// Builds the wire form of a list of domain leads.
fn build_lead_dtos(leads: Vec<Lead>) -> (r: Vec<LeadDto>)
    ensures
        r@.len() == leads@.len(),
        forall|k: int| 0 <= k < r@.len() ==> lead_matches_dto(leads@[k], #[trigger] r@[k]),
{
    let mut src = leads;
    let ghost orig = src@;
    let mut dtos: Vec<LeadDto> = Vec::new();
    while src.len() > 0
        invariant
            dtos@.len() + src@.len() == orig.len(),
            src@ == orig.skip(dtos@.len() as int),
            forall|k: int| 0 <= k < dtos@.len() ==> lead_matches_dto(orig[k], #[trigger] dtos@[k]),
        decreases src.len(),
    {
        let ghost done = dtos@.len() as int;
        let l = src.remove(0);
        proof {
            assert(l == orig[done]);
            assert(orig.skip(done).remove(0) =~= orig.skip(done + 1));
        }
        dtos.push(convert_lead(l));
    }
    dtos
}

/// The JSON body of both add-leads-to-list endpoints.
pub open spec fn lists_add_leads_body(list_id: u64, leads: Seq<Lead>) -> Seq<char> {
    "{\"listId\":"@ + dec_str(list_id as nat) + ",\"leads\":"@ + array_text(
        leads.map_values(|l: Lead| lead_text(l)),
    ) + "}"@
}

/// Builds an add-leads-to-list request against the given endpoint path.
fn list_add_leads_request_at(path: &str, list_id: u64, leads: Vec<Lead>) -> (r: HttpRequest)
    ensures
        r.method == HttpMethod::Post,
        r.path@ == path@,
        r.body matches Some(b) && b@ == lists_add_leads_body(list_id, leads@),
{
    let ghost leads0 = leads@;
    let dtos = build_lead_dtos(leads);
    let dto = ListAddLeadsRequestDto { list_id, leads: dtos };
    let mut out: Vec<char> = Vec::new();
    dto.push_body(&mut out);
    proof {
        assert forall|k: int| 0 <= k < dto.leads@.len() implies lead_items(dto.leads@)[k]
            == leads0.map_values(|l: Lead| lead_text(l))[k] by {
            lemma_lead_text(leads0[k], dto.leads@[k]);
        }
        assert(lead_items(dto.leads@) =~= leads0.map_values(|l: Lead| lead_text(l)));
        assert(out@ =~= lists_add_leads_body(list_id, leads0));
    }
    HttpRequest { method: HttpMethod::Post, path: path.to_owned(), body: Some(
        string_of_chars(&out),
    ) }
}

/// Builds the v1 add-leads-to-list request.
pub fn lists_add_leads_request(list_id: u64, leads: Vec<Lead>) -> (r: HttpRequest)
    ensures
        r.method == HttpMethod::Post,
        r.path@ == "/api/public/list/AddLeadsToList"@,
        r.body matches Some(b) && b@ == lists_add_leads_body(list_id, leads@),
{
    list_add_leads_request_at("/api/public/list/AddLeadsToList", list_id, leads)
}

/// Interprets the v1 add-leads-to-list reply: success carries no payload.
pub fn lists_add_leads(outcome: TransportOutcome) -> (r: Result<(), ApiError>)
    ensures
        empty_op_result(r, outcome),
{
    interpret_empty_response(outcome)
}

/// Builds the v2 add-leads-to-list request — a distinct endpoint.
pub fn lists_add_leads_v2_request(list_id: u64, leads: Vec<Lead>) -> (r: HttpRequest)
    ensures
        r.method == HttpMethod::Post,
        r.path@ == "/api/public/list/AddLeadsToListV2"@,
        r.body matches Some(b) && b@ == lists_add_leads_body(list_id, leads@),
{
    list_add_leads_request_at("/api/public/list/AddLeadsToListV2", list_id, leads)
}

/// Interprets the v2 add-leads-to-list reply: the structured tri-count
/// result.
pub fn lists_add_leads_v2(outcome: TransportOutcome) -> (r: Result<
    CampaignAddLeadsV2Result,
    ApiError,
>)
    ensures
        match outcome_error(outcome) {
            Some(e) => errs_match(r, e),
            None => r matches Ok(v) && add_leads_v2_result_matches_json(v, outcome_doc(outcome)),
        },
{
    match interpret_response(outcome) {
        Err(e) => Err(e),
        Ok(j) => Ok(convert_add_leads_v2_result(add_leads_v2_result_dto_of_json(&j))),
    }
}

/// The JSON body of a delete-by-member-id request.
pub open spec fn lists_delete_leads_body(q: ListLeadDeleteRequest) -> Seq<char> {
    list_lead_delete_request_dto_text(
        ListLeadDeleteRequestDto { list_id: q.list_id, lead_member_ids: q.lead_member_ids },
    )
}

/// Builds the delete-by-member-id request.
pub fn lists_delete_leads_request(request: ListLeadDeleteRequest) -> (r: HttpRequest)
    ensures
        r.method == HttpMethod::Delete,
        r.path@ == "/api/public/list/DeleteLeadsFromList"@,
        r.body matches Some(b) && b@ == lists_delete_leads_body(request),
{
    let ListLeadDeleteRequest { list_id, lead_member_ids } = request;
    let dto = ListLeadDeleteRequestDto { list_id, lead_member_ids };
    let mut out: Vec<char> = Vec::new();
    dto.push_body(&mut out);
    HttpRequest {
        method: HttpMethod::Delete,
        path: "/api/public/list/DeleteLeadsFromList".to_owned(),
        body: Some(string_of_chars(&out)),
    }
}

/// Interprets the delete-by-member-id reply: success carries no payload.
pub fn lists_delete_leads(outcome: TransportOutcome) -> (r: Result<(), ApiError>)
    ensures
        empty_op_result(r, outcome),
{
    interpret_empty_response(outcome)
}

/// The JSON body of a delete-by-profile-URL request.
pub open spec fn lists_delete_leads_by_profile_url_body(
    q: ListLeadDeleteByProfileUrlRequest,
) -> Seq<char> {
    list_lead_delete_by_profile_url_request_dto_text(
        ListLeadDeleteByProfileUrlRequestDto { list_id: q.list_id, profile_urls: q.profile_urls },
    )
}

/// Builds the delete-by-profile-URL request.
pub fn lists_delete_leads_by_profile_url_request(request: ListLeadDeleteByProfileUrlRequest) -> (r:
    HttpRequest)
    ensures
        r.method == HttpMethod::Delete,
        r.path@ == "/api/public/list/DeleteLeadsFromListByProfileUrl"@,
        r.body matches Some(b) && b@ == lists_delete_leads_by_profile_url_body(request),
{
    let ListLeadDeleteByProfileUrlRequest { list_id, profile_urls } = request;
    let dto = ListLeadDeleteByProfileUrlRequestDto { list_id, profile_urls };
    let mut out: Vec<char> = Vec::new();
    dto.push_body(&mut out);
    HttpRequest {
        method: HttpMethod::Delete,
        path: "/api/public/list/DeleteLeadsFromListByProfileUrl".to_owned(),
        body: Some(string_of_chars(&out)),
    }
}

/// Interprets the delete-by-profile-URL reply: the submitted URLs that were
/// not in the list — informational, never an error.
pub fn lists_delete_leads_by_profile_url(outcome: TransportOutcome) -> (r: Result<
    ListLeadDeleteByProfileUrlResponse,
    ApiError,
>)
    ensures
        match outcome_error(outcome) {
            Some(e) => errs_match(r, e),
            None => r matches Ok(p) && delete_response_matches_json(p, outcome_doc(outcome)),
        },
{
    match interpret_response(outcome) {
        Err(e) => Err(e),
        Ok(j) => {
            let dto = delete_by_profile_url_response_dto_of_json(&j);
            Ok(ListLeadDeleteByProfileUrlResponse { not_found_in_list: dto.not_found_in_list })
        },
    }
}

// -------- Lead & tags --------

/// The JSON body of a single-lead lookup.
pub open spec fn lead_get_body(profile_url: String) -> Seq<char> {
    lead_get_request_dto_text(LeadGetRequestDto { profile_url })
}

/// Builds the single-lead lookup request.
pub fn lead_get_request(profile_url: String) -> (r: HttpRequest)
    ensures
        r.method == HttpMethod::Post,
        r.path@ == "/api/public/lead/GetLead"@,
        r.body matches Some(b) && b@ == lead_get_body(profile_url),
{
    let dto = LeadGetRequestDto { profile_url };
    let mut out: Vec<char> = Vec::new();
    dto.push_body(&mut out);
    HttpRequest {
        method: HttpMethod::Post,
        path: "/api/public/lead/GetLead".to_owned(),
        body: Some(string_of_chars(&out)),
    }
}

/// Interprets a single-lead reply: the normalized lead.
pub fn lead_get(outcome: TransportOutcome) -> (r: Result<Lead, ApiError>)
    ensures
        match outcome_error(outcome) {
            Some(e) => errs_match(r, e),
            None => r matches Ok(l) && lead_matches_json(l, outcome_doc(outcome)),
        },
{
    match interpret_response(outcome) {
        Err(e) => Err(e),
        Ok(j) => {
            let ghost jv = j;
            let dto = lead_dto_of_json(&j);
            let ghost dg = dto;
            let l = convert_lead_dto(dto);
            proof {
                lemma_lead_compose(l, dg, jv);
            }
            Ok(l)
        },
    }
}

/// The JSON body of a lists-for-lead request.
pub open spec fn lead_get_lists_body(q: LeadListsRequest) -> Seq<char> {
    lead_lists_request_dto_text(
        LeadListsRequestDto {
            email: q.email,
            linkedin_id: q.linkedin_id,
            profile_url: q.profile_url,
            offset: q.offset,
            limit: q.limit,
        },
    )
}

/// Builds the lists-for-lead request.
pub fn lead_get_lists_request(request: LeadListsRequest) -> (r: HttpRequest)
    ensures
        r.method == HttpMethod::Post,
        r.path@ == "/api/public/list/GetListsForLead"@,
        r.body matches Some(b) && b@ == lead_get_lists_body(request),
{
    let LeadListsRequest { email, linkedin_id, profile_url, offset, limit } = request;
    let dto = LeadListsRequestDto { email, linkedin_id, profile_url, offset, limit };
    let mut out: Vec<char> = Vec::new();
    dto.push_body(&mut out);
    HttpRequest {
        method: HttpMethod::Post,
        path: "/api/public/list/GetListsForLead".to_owned(),
        body: Some(string_of_chars(&out)),
    }
}

/// Interprets a lists-for-lead reply: the reconciled memberships.
pub fn lead_get_lists(outcome: TransportOutcome) -> (r: Result<LeadListsResponse, ApiError>)
    ensures
        match outcome_error(outcome) {
            Some(e) => errs_match(r, e),
            None => r matches Ok(p) && lead_lists_response_matches_json(p, outcome_doc(outcome)),
        },
{
    match interpret_response(outcome) {
        Err(e) => Err(e),
        Ok(j) => {
            let dto = lead_lists_response_dto_of_json(&j);
            let ghost jv = j;
            let total_count = dto.total_count;
            let mut src = dto.items;
            let ghost orig = src@;
            let mut items: Vec<LeadListSummary> = Vec::new();
            while src.len() > 0
                invariant
                    items@.len() + src@.len() == orig.len(),
                    src@ == orig.skip(items@.len() as int),
                    forall|k: int|
                        0 <= k < items@.len() ==> lead_list_summary_matches_json(
                            #[trigger] items@[k],
                            crate::json::jget_arr(jv, "items"@)[k],
                        ),
                    forall|k: int|
                        0 <= k < orig.len() ==> crate::reconcile::lead_list_summary_dto_matches(
                            #[trigger] orig[k],
                            crate::json::jget_arr(jv, "items"@)[k],
                        ),
                decreases src.len(),
            {
                let ghost done = items@.len() as int;
                let d = src.remove(0);
                proof {
                    assert(d == orig[done]);
                    assert(orig.skip(done).remove(0) =~= orig.skip(done + 1));
                }
                items.push(LeadListSummary { list_id: d.list_id, list_name: d.list_name });
            }
            Ok(LeadListsResponse { total_count, items })
        },
    }
}

/// Builds the tags lookup request.
pub fn lead_get_tags_request(profile_url: String) -> (r: HttpRequest)
    ensures
        r.method == HttpMethod::Post,
        r.path@ == "/api/public/lead/GetTags"@,
        r.body matches Some(b) && b@ == lead_get_body(profile_url),
{
    let dto = LeadGetRequestDto { profile_url };
    let mut out: Vec<char> = Vec::new();
    dto.push_body(&mut out);
    HttpRequest {
        method: HttpMethod::Post,
        path: "/api/public/lead/GetTags".to_owned(),
        body: Some(string_of_chars(&out)),
    }
}

/// Interprets a tags lookup reply: the lead's current tag set.
pub fn lead_get_tags(outcome: TransportOutcome) -> (r: Result<LeadTagsResponse, ApiError>)
    ensures
        match outcome_error(outcome) {
            Some(e) => errs_match(r, e),
            None => r matches Ok(p) && lead_tags_response_matches_json(p, outcome_doc(outcome)),
        },
{
    match interpret_response(outcome) {
        Err(e) => Err(e),
        Ok(j) => {
            let dto = lead_tags_response_dto_of_json(&j);
            Ok(LeadTagsResponse { tags: dto.tags })
        },
    }
}

/// The JSON body of a tag replacement request.
pub open spec fn lead_replace_tags_body(q: LeadReplaceTagsRequest) -> Seq<char> {
    lead_replace_tags_request_dto_text(
        LeadReplaceTagsRequestDto {
            lead_profile_url: q.lead_profile_url,
            lead_linked_in_id: q.lead_linked_in_id,
            tags: q.tags,
            create_tag_if_not_existing: q.create_tag_if_not_existing,
        },
    )
}

/// Builds the tag replacement request: full overwrite, with the caller's
/// flag deciding whether unknown tags may be created.
pub fn lead_replace_tags_request(request: LeadReplaceTagsRequest) -> (r: HttpRequest)
    ensures
        r.method == HttpMethod::Post,
        r.path@ == "/api/public/lead/ReplaceTags"@,
        r.body matches Some(b) && b@ == lead_replace_tags_body(request),
{
    let LeadReplaceTagsRequest {
        lead_profile_url,
        lead_linked_in_id,
        tags,
        create_tag_if_not_existing,
    } = request;
    let dto = LeadReplaceTagsRequestDto {
        lead_profile_url,
        lead_linked_in_id,
        tags,
        create_tag_if_not_existing,
    };
    let mut out: Vec<char> = Vec::new();
    dto.push_body(&mut out);
    HttpRequest {
        method: HttpMethod::Post,
        path: "/api/public/lead/ReplaceTags".to_owned(),
        body: Some(string_of_chars(&out)),
    }
}

/// Interprets a tag replacement reply: the resulting full tag set, as the
/// remote reports it, trusted as-is.
pub fn lead_replace_tags(outcome: TransportOutcome) -> (r: Result<LeadReplaceTagsResponse, ApiError>)
    ensures
        match outcome_error(outcome) {
            Some(e) => errs_match(r, e),
            None => r matches Ok(p) && lead_replace_tags_response_matches_json(
                p,
                outcome_doc(outcome),
            ),
        },
{
    match interpret_response(outcome) {
        Err(e) => Err(e),
        Ok(j) => {
            let dto = lead_replace_tags_response_dto_of_json(&j);
            Ok(LeadReplaceTagsResponse { new_assigned_tags: dto.new_assigned_tags })
        },
    }
}

// -------- Inbox --------

/// The JSON body of a conversation listing request.
pub open spec fn inbox_get_conversations_body(q: InboxGetConversationsRequest) -> Seq<char> {
    inbox_get_conversations_request_dto_text(
        InboxGetConversationsRequestDto {
            filters: InboxFiltersDto {
                linked_in_account_ids: q.filters.linked_in_account_ids,
                campaign_ids: q.filters.campaign_ids,
                search_string: q.filters.search_string,
                lead_linked_in_id: q.filters.lead_linked_in_id,
                lead_profile_url: q.filters.lead_profile_url,
                seen: q.filters.seen,
            },
            offset: q.offset,
            limit: q.limit,
        },
    )
}

/// Builds the conversation listing request.
pub fn inbox_get_conversations_v2_request(request: InboxGetConversationsRequest) -> (r: HttpRequest)
    ensures
        r.method == HttpMethod::Post,
        r.path@ == "/api/public/inbox/GetConversationsV2"@,
        r.body matches Some(b) && b@ == inbox_get_conversations_body(request),
{
    let InboxGetConversationsRequest { filters, offset, limit } = request;
    let InboxFilters {
        linked_in_account_ids,
        campaign_ids,
        search_string,
        lead_linked_in_id,
        lead_profile_url,
        seen,
    } = filters;
    let dto = InboxGetConversationsRequestDto {
        filters: InboxFiltersDto {
            linked_in_account_ids,
            campaign_ids,
            search_string,
            lead_linked_in_id,
            lead_profile_url,
            seen,
        },
        offset,
        limit,
    };
    let mut out: Vec<char> = Vec::new();
    dto.push_body(&mut out);
    HttpRequest {
        method: HttpMethod::Post,
        path: "/api/public/inbox/GetConversationsV2".to_owned(),
        body: Some(string_of_chars(&out)),
    }
}

/// Interprets a conversation listing reply: the reconciled page, with the
/// remote's `id` and `read` fields bound to `conversation_id` and `seen`.
pub fn inbox_get_conversations_v2(outcome: TransportOutcome) -> (r: Result<
    InboxConversationPage,
    ApiError,
>)
    ensures
        match outcome_error(outcome) {
            Some(e) => errs_match(r, e),
            None => r matches Ok(p) && conversation_page_matches_json(p, outcome_doc(outcome)),
        },
{
    match interpret_response(outcome) {
        Err(e) => Err(e),
        Ok(j) => {
            let dto = conversation_page_dto_of_json(&j);
            let ghost jv = j;
            let total_count = dto.total_count;
            let mut src = dto.items;
            let ghost orig = src@;
            let mut items: Vec<InboxConversationSummary> = Vec::new();
            while src.len() > 0
                invariant
                    items@.len() + src@.len() == orig.len(),
                    src@ == orig.skip(items@.len() as int),
                    forall|k: int|
                        0 <= k < items@.len() ==> conversation_summary_matches_json(
                            #[trigger] items@[k],
                            crate::json::jget_arr(jv, "items"@)[k],
                        ),
                    forall|k: int|
                        0 <= k < orig.len() ==> crate::reconcile::conversation_summary_dto_matches(
                            #[trigger] orig[k],
                            crate::json::jget_arr(jv, "items"@)[k],
                        ),
                decreases src.len(),
            {
                let ghost done = items@.len() as int;
                let d = src.remove(0);
                proof {
                    assert(d == orig[done]);
                    assert(orig.skip(done).remove(0) =~= orig.skip(done + 1));
                }
                items.push(convert_conversation_summary(d));
            }
            Ok(InboxConversationPage { total_count, items })
        },
    }
}

/// The JSON body of a send-message request.
pub open spec fn inbox_send_message_body(q: InboxSendMessageRequest) -> Seq<char> {
    inbox_send_message_request_dto_text(
        InboxSendMessageRequestDto {
            message: q.message,
            subject: q.subject,
            conversation_id: q.conversation_id,
            linked_in_account_id: q.linked_in_account_id,
        },
    )
}

/// Builds the send-message request; the conversation id goes out under the
/// remote's `id` key.
pub fn inbox_send_message_request(request: InboxSendMessageRequest) -> (r: HttpRequest)
    ensures
        r.method == HttpMethod::Post,
        r.path@ == "/api/public/inbox/SendMessage"@,
        r.body matches Some(b) && b@ == inbox_send_message_body(request),
{
    let InboxSendMessageRequest { message, subject, conversation_id, linked_in_account_id } =
        request;
    let dto = InboxSendMessageRequestDto { message, subject, conversation_id, linked_in_account_id };
    let mut out: Vec<char> = Vec::new();
    dto.push_body(&mut out);
    HttpRequest {
        method: HttpMethod::Post,
        path: "/api/public/inbox/SendMessage".to_owned(),
        body: Some(string_of_chars(&out)),
    }
}

/// Interprets the send-message reply: success carries no payload.
pub fn inbox_send_message(outcome: TransportOutcome) -> (r: Result<(), ApiError>)
    ensures
        empty_op_result(r, outcome),
{
    interpret_empty_response(outcome)
}

// -------- LinkedIn accounts --------

/// The JSON body of an account listing.
pub open spec fn li_account_get_all_body(f: LiAccountFilter) -> Seq<char> {
    li_account_filter_dto_text(
        LiAccountFilterDto { offset: f.offset, limit: f.limit, keyword: f.keyword },
    )
}

/// Builds the account listing request.
pub fn li_account_get_all_request(filter: LiAccountFilter) -> (r: HttpRequest)
    ensures
        r.method == HttpMethod::Post,
        r.path@ == "/api/public/li_account/GetAll"@,
        r.body matches Some(b) && b@ == li_account_get_all_body(filter),
{
    let LiAccountFilter { offset, limit, keyword } = filter;
    let dto = LiAccountFilterDto { offset, limit, keyword };
    let mut out: Vec<char> = Vec::new();
    dto.push_body(&mut out);
    HttpRequest {
        method: HttpMethod::Post,
        path: "/api/public/li_account/GetAll".to_owned(),
        body: Some(string_of_chars(&out)),
    }
}

/// Interprets an account listing reply: the reconciled page, the three
/// validity flags kept independent.
pub fn li_account_get_all(outcome: TransportOutcome) -> (r: Result<LiAccountPage, ApiError>)
    ensures
        match outcome_error(outcome) {
            Some(e) => errs_match(r, e),
            None => r matches Ok(p) && li_account_page_matches_json(p, outcome_doc(outcome)),
        },
{
    match interpret_response(outcome) {
        Err(e) => Err(e),
        Ok(j) => {
            let dto = li_account_page_dto_of_json(&j);
            let ghost jv = j;
            let total_count = dto.total_count;
            let mut src = dto.items;
            let ghost orig = src@;
            let mut items: Vec<LiAccountSummary> = Vec::new();
            while src.len() > 0
                invariant
                    items@.len() + src@.len() == orig.len(),
                    src@ == orig.skip(items@.len() as int),
                    forall|k: int|
                        0 <= k < items@.len() ==> li_account_summary_matches_json(
                            #[trigger] items@[k],
                            crate::json::jget_arr(jv, "items"@)[k],
                        ),
                    forall|k: int|
                        0 <= k < orig.len() ==> crate::reconcile::li_account_summary_dto_matches(
                            #[trigger] orig[k],
                            crate::json::jget_arr(jv, "items"@)[k],
                        ),
                decreases src.len(),
            {
                let ghost done = items@.len() as int;
                let d = src.remove(0);
                proof {
                    assert(d == orig[done]);
                    assert(orig.skip(done).remove(0) =~= orig.skip(done + 1));
                }
                items.push(convert_li_account_summary(d));
            }
            Ok(LiAccountPage { total_count, items })
        },
    }
}

// -------- Webhooks --------

/// The JSON body of a webhook creation request: the event type serialized
/// to its canonical capitalized token.
pub open spec fn webhooks_create_body(q: CreateWebhookRequest) -> Seq<char> {
    "{\"webhookName\":"@ + jstr(q.webhook_name@) + ",\"webhookUrl\":"@ + jstr(q.webhook_url@)
        + ",\"eventType\":"@ + jstr(webhook_event_type_token(q.event_type)) + ",\"campaignIds\":"@
        + array_text(u64_items(q.campaign_ids@)) + ",\"isActive\":"@ + bool_text(q.is_active)
        + "}"@
}

/// Builds the webhook creation request.
pub fn webhooks_create_request(request: CreateWebhookRequest) -> (r: HttpRequest)
    ensures
        r.method == HttpMethod::Post,
        r.path@ == "/api/public/webhooks/CreateWebhook"@,
        r.body matches Some(b) && b@ == webhooks_create_body(request),
{
    let CreateWebhookRequest { webhook_name, webhook_url, event_type, campaign_ids, is_active } =
        request;
    let dto = CreateWebhookRequestDto {
        webhook_name,
        webhook_url,
        event_type: webhook_event_type_to_string(&event_type),
        campaign_ids,
        is_active,
    };
    let mut out: Vec<char> = Vec::new();
    dto.push_body(&mut out);
    proof {
        assert(out@ =~= webhooks_create_body(request));
    }
    HttpRequest {
        method: HttpMethod::Post,
        path: "/api/public/webhooks/CreateWebhook".to_owned(),
        body: Some(string_of_chars(&out)),
    }
}

/// Interprets a webhook creation reply: the created webhook, normalized.
pub fn webhooks_create(outcome: TransportOutcome) -> (r: Result<Webhook, ApiError>)
    ensures
        match outcome_error(outcome) {
            Some(e) => errs_match(r, e),
            None => r matches Ok(w) && webhook_matches_json(w, outcome_doc(outcome)),
        },
{
    match interpret_response(outcome) {
        Err(e) => Err(e),
        Ok(j) => Ok(convert_webhook(webhook_dto_of_json(&j))),
    }
}

/// Builds the single-webhook request.
pub fn webhooks_get_by_id_request(webhook_id: u64) -> (r: HttpRequest)
    ensures
        r.method == HttpMethod::Get,
        r.path@ == "/api/public/webhooks/GetWebhookById?webhookId="@ + dec_str(webhook_id as nat),
        r.body is None,
{
    HttpRequest {
        method: HttpMethod::Get,
        path: path_with_u64("/api/public/webhooks/GetWebhookById?webhookId=", webhook_id),
        body: None,
    }
}

/// Interprets a single-webhook reply: the normalized webhook.
pub fn webhooks_get_by_id(outcome: TransportOutcome) -> (r: Result<Webhook, ApiError>)
    ensures
        match outcome_error(outcome) {
            Some(e) => errs_match(r, e),
            None => r matches Ok(w) && webhook_matches_json(w, outcome_doc(outcome)),
        },
{
    match interpret_response(outcome) {
        Err(e) => Err(e),
        Ok(j) => Ok(convert_webhook(webhook_dto_of_json(&j))),
    }
}

/// The JSON body of a webhook listing.
pub open spec fn webhooks_get_all_body(f: GetWebhooksFilter) -> Seq<char> {
    get_webhooks_filter_dto_text(GetWebhooksFilterDto { offset: f.offset, limit: f.limit })
}

/// Builds the webhook listing request.
pub fn webhooks_get_all_request(filter: GetWebhooksFilter) -> (r: HttpRequest)
    ensures
        r.method == HttpMethod::Post,
        r.path@ == "/api/public/webhooks/GetAllWebhooks"@,
        r.body matches Some(b) && b@ == webhooks_get_all_body(filter),
{
    let dto = GetWebhooksFilterDto { offset: filter.offset, limit: filter.limit };
    let mut out: Vec<char> = Vec::new();
    dto.push_body(&mut out);
    HttpRequest {
        method: HttpMethod::Post,
        path: "/api/public/webhooks/GetAllWebhooks".to_owned(),
        body: Some(string_of_chars(&out)),
    }
}

/// Interprets a webhook listing reply: the reconciled, normalized page.
pub fn webhooks_get_all(outcome: TransportOutcome) -> (r: Result<WebhookPage, ApiError>)
    ensures
        match outcome_error(outcome) {
            Some(e) => errs_match(r, e),
            None => r matches Ok(p) && webhook_page_matches_json(p, outcome_doc(outcome)),
        },
{
    match interpret_response(outcome) {
        Err(e) => Err(e),
        Ok(j) => {
            let dto = webhook_page_dto_of_json(&j);
            let ghost jv = j;
            let total_count = dto.total_count;
            let mut src = dto.items;
            let ghost orig = src@;
            let mut items: Vec<Webhook> = Vec::new();
            while src.len() > 0
                invariant
                    items@.len() + src@.len() == orig.len(),
                    src@ == orig.skip(items@.len() as int),
                    forall|k: int|
                        0 <= k < items@.len() ==> webhook_matches_json(
                            #[trigger] items@[k],
                            crate::json::jget_arr(jv, "items"@)[k],
                        ),
                    forall|k: int|
                        0 <= k < orig.len() ==> crate::reconcile::webhook_dto_matches(
                            #[trigger] orig[k],
                            crate::json::jget_arr(jv, "items"@)[k],
                        ),
                decreases src.len(),
            {
                let ghost done = items@.len() as int;
                let d = src.remove(0);
                proof {
                    assert(d == orig[done]);
                    assert(orig.skip(done).remove(0) =~= orig.skip(done + 1));
                }
                items.push(convert_webhook(d));
            }
            Ok(WebhookPage { total_count, items })
        },
    }
}

/// Builds the webhook deletion request.
pub fn webhooks_delete_request(webhook_id: u64) -> (r: HttpRequest)
    ensures
        r.method == HttpMethod::Delete,
        r.path@ == "/api/public/webhooks/DeleteWebhook?webhookId="@ + dec_str(webhook_id as nat),
        r.body is None,
{
    HttpRequest {
        method: HttpMethod::Delete,
        path: path_with_u64("/api/public/webhooks/DeleteWebhook?webhookId=", webhook_id),
        body: None,
    }
}

/// Interprets the webhook deletion reply: success carries no payload.
pub fn webhooks_delete(outcome: TransportOutcome) -> (r: Result<(), ApiError>)
    ensures
        empty_op_result(r, outcome),
{
    interpret_empty_response(outcome)
}

} // verus!
