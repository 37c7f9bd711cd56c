//! Search normalisation: the request sent to the movie database provider,
//! the classification of its failures, and the mapping of its answers into
//! the catalog's own shape.
use vstd::prelude::*;
use vstd::string::StringExecFns;
use crate::error::AppError;
use crate::models::{
    OmdbSearchItem, OmdbSearchResponse, SearchParams, SearchResponse, SearchResultItem,
    copy_text, result_item_of,
};
use crate::text::{eq_ignore_ascii_case, eq_ignore_ascii_case_spec, parse_u32, parse_u32_spec};

verus! {

/// The provider's own flag says that the search succeeded: it reads `true`
/// in any case of letters.
pub open spec fn provider_success_spec(flag: Seq<char>) -> bool {
    eq_ignore_ascii_case_spec(flag, "true"@)
}

/// Whether the provider's own flag says that the search succeeded.
pub fn provider_reported_success(flag: &str) -> (r: bool)
    ensures
        r == provider_success_spec(flag@),
{
    eq_ignore_ascii_case(flag, "true")
}

/// The total count the provider gave, where it is a decimal `u32`.
pub open spec fn total_count_spec(total: Option<String>) -> Option<u32> {
    match total {
        Some(t) => parse_u32_spec(t@),
        None => None,
    }
}

/// The provider's hits of a payload; none where it sent no list.
pub open spec fn provider_items(payload: OmdbSearchResponse) -> Seq<OmdbSearchItem> {
    match payload.search {
        Some(v) => v@,
        None => Seq::empty(),
    }
}

fn copy_item(item: &OmdbSearchItem) -> (r: OmdbSearchItem)
    ensures
        r == *item,
{
    OmdbSearchItem {
        title: item.title.clone(),
        year: copy_text(&item.year),
        imdb_id: item.imdb_id.clone(),
        media_type: copy_text(&item.media_type),
        poster_url: copy_text(&item.poster_url),
    }
}

/// The catalog's shape of each provider hit, in the provider's order.
pub fn result_items(items: &Vec<OmdbSearchItem>) -> (r: Vec<SearchResultItem>)
    ensures
        r@ == items@.map_values(|i: OmdbSearchItem| result_item_of(i)),
{
    let mut out: Vec<SearchResultItem> = Vec::new();
    let mut i: usize = 0;
    while i < items.len()
        invariant
            i <= items@.len(),
            out@ == items@.subrange(0, i as int).map_values(|i: OmdbSearchItem| result_item_of(i)),
        decreases items@.len() - i,
    {
        let item = copy_item(&items[i]);
        out.push(SearchResultItem::from_omdb(item));
        proof {
            assert(items@.subrange(0, i + 1) =~= items@.subrange(0, i as int).push(items@[i as int]));
        }
        i = i + 1;
    }
    assert(items@.subrange(0, items@.len() as int) =~= items@);
    out
}

/// The catalog's answer to a decoded provider payload. Where the provider's
/// flag says success, each hit is carried over and the total is kept where
/// it is a decimal count. Where it does not, the answer is empty with a total
/// of zero: a provider-side failure is no error of the search.
pub fn normalize_search_response(payload: OmdbSearchResponse) -> (r: SearchResponse)
    ensures
        provider_success_spec(payload.response@) ==> {
            &&& r.results@ == provider_items(payload).map_values(
                |i: OmdbSearchItem| result_item_of(i),
            )
            &&& r.total_results == total_count_spec(payload.total_results)
        },
        !provider_success_spec(payload.response@) ==> r.results@.len() == 0 && r.total_results
            == Some(0u32),
{
    if provider_reported_success(payload.response.as_str()) {
        let results = match &payload.search {
            Some(items) => result_items(items),
            None => {
                let v: Vec<SearchResultItem> = Vec::new();
                assert(v@ =~= Seq::<OmdbSearchItem>::empty().map_values(
                    |i: OmdbSearchItem| result_item_of(i),
                ));
                v
            },
        };
        let total_results = match &payload.total_results {
            Some(t) => parse_u32(t.as_str()),
            None => None,
        };
        SearchResponse { results, total_results }
    } else {
        SearchResponse { results: Vec::new(), total_results: Some(0) }
    }
}

/// The message a search is refused with where no provider key is configured.
pub open spec fn missing_key_message() -> Seq<char> {
    "OMDB_API_KEY is not configured"@
}

/// The query parameters the provider is asked with: the key, the query, and
/// the media-type filter where there is one.
pub open spec fn provider_query_spec(key: Seq<char>, params: SearchParams) -> Seq<
    (Seq<char>, Seq<char>),
> {
    let base = seq![("apikey"@, key), ("s"@, params.query@)];
    match params.media_type {
        Some(t) => base.push(("type"@, t@)),
        None => base,
    }
}

/// The views of a list of query parameters.
pub open spec fn pairs_view(v: Seq<(String, String)>) -> Seq<(Seq<char>, Seq<char>)> {
    v.map_values(|p: (String, String)| (p.0@, p.1@))
}

/// The query parameters of the provider request for `params`; a
/// configuration error where no provider key is set, whatever the query.
pub fn build_search_query(params: &SearchParams, api_key: &Option<String>) -> (r: Result<
    Vec<(String, String)>,
    AppError,
>)
    ensures
        api_key is None ==> match r {
            Err(AppError::Configuration(m)) => m@ == missing_key_message(),
            _ => false,
        },
        api_key is Some ==> match r {
            Ok(v) => pairs_view(v@) == provider_query_spec(api_key->0@, *params),
            Err(_) => false,
        },
{
    let key = match api_key {
        Some(k) => k,
        None => {
            return Err(AppError::Configuration(String::from_str("OMDB_API_KEY is not configured")));
        },
    };
    let mut query: Vec<(String, String)> = Vec::new();
    query.push((String::from_str("apikey"), key.clone()));
    query.push((String::from_str("s"), params.query.clone()));
    match &params.media_type {
        Some(t) => {
            query.push((String::from_str("type"), t.clone()));
        },
        None => {},
    }
    assert(pairs_view(query@) =~= provider_query_spec(key@, *params));
    Ok(query)
}

/// The message a failing HTTP status of the provider is reported with.
pub open spec fn status_message_spec(status_text: Seq<char>) -> Seq<char> {
    "omdb returned unexpected status: "@ + status_text
}

/// Classifies the provider's HTTP status: a success status (200 to 299)
/// passes, any other is a downstream error that quotes it.
pub fn check_provider_status(code: u16, status_text: &str) -> (r: Result<(), AppError>)
    ensures
        r is Ok <==> 200 <= code <= 299,
        !(200 <= code <= 299) ==> match r {
            Err(AppError::Downstream(m)) => m@ == status_message_spec(status_text@),
            _ => false,
        },
{
    if 200 <= code && code <= 299 {
        Ok(())
    } else {
        Err(
            AppError::Downstream(
                String::from_str("omdb returned unexpected status: ").concat(status_text),
            ),
        )
    }
}

/// The message of a provider call that failed in transport.
pub open spec fn request_failed_message_spec(cause: Seq<char>) -> Seq<char> {
    "omdb request failed: "@ + cause
}

/// The downstream error of a provider call that failed in transport; it
/// quotes the cause.
pub fn request_failed(cause: &str) -> (r: AppError)
    ensures
        match r {
            AppError::Downstream(m) => m@ == request_failed_message_spec(cause@),
            _ => false,
        },
{
    AppError::Downstream(String::from_str("omdb request failed: ").concat(cause))
}

/// The message of a provider answer that could not be decoded.
pub open spec fn decode_failed_message_spec(cause: Seq<char>) -> Seq<char> {
    "failed to decode omdb response: "@ + cause
}

/// The downstream error of a provider answer that could not be decoded; it
/// quotes the cause.
pub fn decode_failed(cause: &str) -> (r: AppError)
    ensures
        match r {
            AppError::Downstream(m) => m@ == decode_failed_message_spec(cause@),
            _ => false,
        },
{
    AppError::Downstream(String::from_str("failed to decode omdb response: ").concat(cause))
}

} // verus!
