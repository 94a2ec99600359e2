//! The decisions of the five operations.
//!
//! Each operation is taken in two steps around its statement. The first
//! step, under the operation's name, looks at the request and either names
//! the statement to run or answers at once. The second, with `_response`
//! after the name, takes the statement's outcome and gives the reply. An
//! outcome is `Err` with the storage's own description when the statement
//! failed.

use crate::model::{random_id, Asset, AssetRequest, AssetUpdateRequest, AssetView};
use crate::pagination::{
    is_ceiling, lemma_page_count_is_ceiling, lemma_page_count_steps, lemma_page_past_the_end,
    named, page_count, Page, Pagination,
};
use crate::response::{ApiResponse, ErrorBody, Reply, StatusCode};
use crate::service::{Query, StoredAsset};
use crate::validation::{names, Field, PayloadKind};
use uuid::Uuid;
use vstd::prelude::*;

verus! {

/// What a request leads to before any statement has run.
#[derive(Clone, Debug, PartialEq, Eq)]
pub enum Step<T> {
    /// The statement to run.
    Execute(Query),
    /// The reply to send, with no statement run.
    Respond(Reply<T>),
}

/// The data of the reply to a removal.
#[derive(Clone, Debug, PartialEq, Eq)]
pub struct Confirmation {
    pub message: String,
}

/// The message of a reply to a request for an asset that is not stored.
pub open spec fn not_found_text() -> Seq<char> {
    "Asset not found"@
}

/// The message of a reply to a payload that could not be read.
pub open spec fn malformed_text() -> Seq<char> {
    "Malformed request body"@
}

/// The message of a reply to a page whose rows cannot be numbered in 64
/// bits.
pub open spec fn out_of_range_text() -> Seq<char> {
    "Page out of range"@
}

/// The message that confirms a removal.
pub open spec fn deleted_text() -> Seq<char> {
    "Asset deleted successfully"@
}

/// Whether `reply` answers a payload that could not be read: status 400
/// with a plain message.
pub open spec fn is_malformed<T>(reply: Reply<T>) -> bool {
    reply.is_message(StatusCode::BAD_REQUEST, malformed_text())
}

/// Whether `step` is the first step of a listing for the query parameters
/// `page` and `per_page`, which name the page `pagination`.
pub open spec fn list_step(
    pagination: Pagination,
    step: Step<Page<Asset>>,
    page: Option<&str>,
    per_page: Option<&str>,
) -> bool {
    &&& pagination == Pagination::of(named(page), named(per_page))
    &&& if i64::MIN <= pagination.spec_offset() <= i64::MAX {
        step == Step::<Page<Asset>>::Execute(
            Query::List { limit: pagination.per_page, offset: pagination.spec_offset() as i64 },
        )
    } else {
        step matches Step::Respond(reply) && reply.is_message(
            StatusCode::INTERNAL_SERVER_ERROR,
            out_of_range_text(),
        )
    }
}

/// Whether `reply` is the reply of a listing of page `pagination` to
/// `outcome`, the rows of the page with the count of all rows.
pub open spec fn list_reply(
    reply: Reply<Page<Asset>>,
    pagination: Pagination,
    outcome: Result<(Vec<Asset>, i64), String>,
) -> bool {
    match outcome {
        Ok(rows) => reply.is_data(
            StatusCode::OK,
            Page {
                items: rows.0,
                total: rows.1,
                total_pages: page_count(rows.1 as int, pagination.per_page as int) as i64,
                current_page: pagination.page,
            },
        ),
        Err(description) => reply.is_message(StatusCode::INTERNAL_SERVER_ERROR, description@),
    }
}

/// Whether `reply` is the reply of a lookup or of a replacement to
/// `outcome`, the asset under the identifier if there is one.
pub open spec fn found_reply(reply: Reply<Asset>, outcome: Result<Option<Asset>, String>) -> bool {
    match outcome {
        Ok(Some(asset)) => reply.is_data(StatusCode::OK, asset),
        Ok(None) => reply.is_message(StatusCode::NOT_FOUND, not_found_text()),
        Err(description) => reply.is_message(StatusCode::INTERNAL_SERVER_ERROR, description@),
    }
}

/// Whether `step` is the first step of a creation under `id` for `body`.
pub open spec fn create_step(step: Step<Asset>, id: Uuid, body: Option<AssetRequest>) -> bool {
    match body {
        None => step matches Step::Respond(reply) && is_malformed(reply),
        Some(payload) => if payload@.valid() {
            step matches Step::Execute(Query::Insert { asset }) && asset@ == AssetView::of(
                id,
                payload@,
            )
        } else {
            step matches Step::Respond(reply) && reply.is_validation(
                payload@.violations(PayloadKind::Create),
            )
        },
    }
}

/// Whether `reply` is the reply of a creation to `outcome`, the asset as
/// it was stored.
pub open spec fn create_reply(reply: Reply<Asset>, outcome: Result<Asset, String>) -> bool {
    match outcome {
        Ok(asset) => reply.is_data(StatusCode::CREATED, asset),
        Err(description) => reply.is_message(StatusCode::INTERNAL_SERVER_ERROR, description@),
    }
}

/// Whether `step` is the first step of a replacement of the asset under
/// `id` for `body`.
pub open spec fn update_step(
    step: Step<Asset>,
    id: Uuid,
    body: Option<AssetUpdateRequest>,
) -> bool {
    match body {
        None => step matches Step::Respond(reply) && is_malformed(reply),
        Some(payload) => if payload@.valid() {
            step matches Step::Execute(Query::Update { id: target, asset }) && target == id
                && asset@ == AssetView::of(id, payload@)
        } else {
            step matches Step::Respond(reply) && reply.is_validation(
                payload@.violations(PayloadKind::Update),
            )
        },
    }
}

/// Whether `reply` is the reply of a removal to `outcome`, which says
/// whether a row was removed.
pub open spec fn delete_reply(reply: Reply<Confirmation>, outcome: Result<bool, String>) -> bool {
    match outcome {
        Ok(removed) => if removed {
            &&& reply.status == StatusCode::OK
            &&& reply.body matches ApiResponse::Success { data }
            &&& data.message@ == deleted_text()
        } else {
            reply.is_message(StatusCode::NOT_FOUND, not_found_text())
        },
        Err(description) => reply.is_message(StatusCode::INTERNAL_SERVER_ERROR, description@),
    }
}

/// The reply to a statement that failed: status 500 with the storage's
/// description of the failure.
fn storage_failure<T>(description: String) -> (reply: Reply<T>)
    ensures
        reply.is_message(StatusCode::INTERNAL_SERVER_ERROR, description@),
{
    ApiResponse::error_message(StatusCode::INTERNAL_SERVER_ERROR, description.as_str())
}

/// The reply to a request for an asset that is not stored: status 404.
fn not_found<T>() -> (reply: Reply<T>)
    ensures
        reply.is_message(StatusCode::NOT_FOUND, not_found_text()),
{
    ApiResponse::error_message(StatusCode::NOT_FOUND, "Asset not found")
}

/// First step of a listing: reads the page from the query parameters `page`
/// and `per_page` and names the statement that fetches it.
///
/// A parameter that is missing or does not read as a 64-bit integer takes
/// its default, 1 for the page and 10 for the page size. The statement skips
/// `(page - 1) * per_page` rows and fetches `per_page`. Where the number of
/// rows to skip does not fit in 64 bits no statement can name it, and the
/// reply is status 500.
pub fn list_assets(page: Option<&str>, per_page: Option<&str>) -> (r: (
    Pagination,
    Step<Page<Asset>>,
))
    ensures
        list_step(r.0, r.1, page, per_page),
{
    let pagination = Pagination::from_query(page, per_page);
    let step = match pagination.offset() {
        Some(offset) => Step::Execute(Query::List { limit: pagination.limit(), offset }),
        None => Step::Respond(
            ApiResponse::error_message(StatusCode::INTERNAL_SERVER_ERROR, "Page out of range"),
        ),
    };
    (pagination, step)
}

/// Second step of a listing: the reply to the rows of the page and the
/// count of all rows.
///
/// The reply is status 200 with the rows as they came, the count, the
/// number of pages that the count makes, and the page that was asked for;
/// or status 500 with the storage's description. A page past the last one
/// is no error: it is status 200 with whatever rows came, which are none.
pub fn list_assets_response(
    pagination: Pagination,
    outcome: Result<(Vec<Asset>, i64), String>,
) -> (reply: Reply<Page<Asset>>)
    ensures
        list_reply(reply, pagination, outcome),
{
    match outcome {
        Ok((items, total)) => {
            let total_pages = pagination.total_pages(total);
            ApiResponse::success(
                Page { items, total, total_pages, current_page: pagination.page },
            )
        },
        Err(description) => storage_failure(description),
    }
}

/// First step of a lookup: the statement that fetches the row under `id`.
pub fn get_asset(id: Uuid) -> (query: Query)
    ensures
        query == (Query::Get { id }),
{
    Query::Get { id }
}

/// Second step of a lookup: status 200 with the asset, status 404 where no
/// row has the identifier, status 500 with the storage's description.
pub fn get_asset_response(outcome: Result<Option<Asset>, String>) -> (reply: Reply<Asset>)
    ensures
        found_reply(reply, outcome),
{
    match outcome {
        Ok(Some(asset)) => ApiResponse::success(asset),
        Ok(None) => not_found(),
        Err(description) => storage_failure(description),
    }
}

/// Looks at the body of a creation before any identifier is drawn: the
/// payload if it is there and keeps every rule, else the reply that
/// refuses it.
fn accept_create(body: Option<AssetRequest>) -> (r: Result<AssetRequest, Reply<Asset>>)
    ensures
        r matches Ok(payload) ==> body == Some(payload) && payload@.valid(),
        r matches Err(reply) ==> match body {
            None => is_malformed(reply),
            Some(payload) => !payload@.valid() && reply.is_validation(
                payload@.violations(PayloadKind::Create),
            ),
        },
{
    match body {
        None => Err(ApiResponse::error_message(StatusCode::BAD_REQUEST, "Malformed request body")),
        Some(payload) => {
            proof {
                payload@.lemma_valid_iff_no_violation(PayloadKind::Create);
            }
            match payload.validate() {
                Err(errors) => Err(
                    ApiResponse::error_json(
                        StatusCode::BAD_REQUEST,
                        ErrorBody::Validation(errors),
                    ),
                ),
                Ok(()) => Ok(payload),
            }
        },
    }
}

/// First step of a creation, with the identifier that the new asset is to
/// carry.
///
/// `body` is `None` where the request's body could not be read as a
/// payload: the reply is status 400 with a plain message. A payload that
/// breaks a rule is answered with status 400 and every broken rule. An
/// accepted payload leads to the insert of an asset with the payload's
/// name, description and address under `id`.
pub fn create_asset_with_id(id: Uuid, body: Option<AssetRequest>) -> (step: Step<Asset>)
    ensures
        create_step(step, id, body),
{
    match accept_create(body) {
        Err(reply) => Step::Respond(reply),
        Ok(payload) => Step::Execute(Query::Insert { asset: Asset::from_request(id, payload) }),
    }
}

/// First step of a creation. For an accepted payload the identifier of
/// the new asset is drawn at random here; the payload never names it.
///
/// Whatever identifier is drawn, the step is that of
/// `create_asset_with_id` for it.
pub fn create_asset(body: Option<AssetRequest>) -> (step: Step<Asset>)
    ensures
        exists|id: Uuid| create_step(step, id, body),
        step matches Step::Execute(Query::Insert { asset }) ==> create_step(step, asset.id, body),
{
    match accept_create(body) {
        Err(reply) => {
            let step = Step::Respond(reply);
            proof {
                let any: Uuid = arbitrary();
                assert(create_step(step, any, body));
            }
            step
        },
        Ok(payload) => {
            let id = random_id();
            let step = Step::Execute(Query::Insert { asset: Asset::from_request(id, payload) });
            assert(create_step(step, id, body));
            step
        },
    }
}

/// Second step of a creation: status 201 with the asset as the storage
/// returned it, or status 500 with the storage's description.
pub fn create_asset_response(outcome: Result<Asset, String>) -> (reply: Reply<Asset>)
    ensures
        create_reply(reply, outcome),
{
    match outcome {
        Ok(asset) => ApiResponse::created(asset),
        Err(description) => storage_failure(description),
    }
}

/// First step of a replacement of the asset under `id`, the identifier in
/// the request's path.
///
/// `body` is `None` where the request's body could not be read as a
/// payload: the reply is status 400 with a plain message. A payload that
/// breaks a rule is answered with status 400 and every broken rule. An
/// accepted payload leads to the update of the row under `id` and to no
/// other statement: a replacement never adds a row.
pub fn update_asset(id: Uuid, body: Option<AssetUpdateRequest>) -> (step: Step<Asset>)
    ensures
        update_step(step, id, body),
{
    match body {
        None => Step::Respond(
            ApiResponse::error_message(StatusCode::BAD_REQUEST, "Malformed request body"),
        ),
        Some(payload) => {
            proof {
                payload@.lemma_valid_iff_no_violation(PayloadKind::Update);
            }
            match payload.validate() {
                Err(errors) => Step::Respond(
                    ApiResponse::error_json(
                        StatusCode::BAD_REQUEST,
                        ErrorBody::Validation(errors),
                    ),
                ),
                Ok(()) => Step::Execute(
                    Query::Update { id, asset: Asset::from_update(id, payload) },
                ),
            }
        },
    }
}

/// Second step of a replacement: status 200 with the asset as the storage
/// returned it, status 404 where no row has the identifier, status 500
/// with the storage's description.
pub fn update_asset_response(outcome: Result<Option<Asset>, String>) -> (reply: Reply<Asset>)
    ensures
        found_reply(reply, outcome),
{
    match outcome {
        Ok(Some(asset)) => ApiResponse::success(asset),
        Ok(None) => not_found(),
        Err(description) => storage_failure(description),
    }
}

/// First step of a removal: the statement that removes the row under `id`.
pub fn delete_asset(id: Uuid) -> (query: Query)
    ensures
        query == (Query::Delete { id }),
{
    Query::Delete { id }
}

/// Second step of a removal, from whether a row was removed: status 200
/// with a confirmation, status 404 where none was, status 500 with the
/// storage's description.
pub fn delete_asset_response(outcome: Result<bool, String>) -> (reply: Reply<Confirmation>)
    ensures
        delete_reply(reply, outcome),
{
    match outcome {
        Ok(true) => ApiResponse::success(
            Confirmation { message: "Asset deleted successfully".to_owned() },
        ),
        Ok(false) => not_found(),
        Err(description) => storage_failure(description),
    }
}

/// Create, then get. An accepted payload leads to the insert of an asset
/// with the payload's name, description and address under the new
/// identifier; a row that stores that asset reads back as the same asset;
/// and the lookup answers status 200 with it.
pub proof fn lemma_create_then_get(
    id: Uuid,
    payload: AssetRequest,
    step: Step<Asset>,
    row: StoredAsset,
    found: Asset,
    reply: Reply<Asset>,
)
    requires
        payload@.valid(),
        create_step(step, id, Some(payload)),
        step matches Step::Execute(Query::Insert { asset }) && row.holds(asset@),
        found@ == row.decoded(),
        found_reply(reply, Ok(Some(found))),
    ensures
        reply.status == StatusCode::OK,
        reply.body matches ApiResponse::Success { data } && data@ == AssetView::of(id, payload@),
        found@.id == id,
        found@.name == payload@.name,
        found@.description == payload@.description,
        found@.address == payload@.address,
{
}

/// A replacement never adds a row: whatever the payload, its first step
/// runs an update of the row under the path's identifier or no statement
/// at all; and where no row has that identifier the reply is status 404.
pub proof fn lemma_update_never_creates(
    id: Uuid,
    body: Option<AssetUpdateRequest>,
    step: Step<Asset>,
    reply: Reply<Asset>,
)
    requires
        update_step(step, id, body),
        found_reply(reply, Ok(None)),
    ensures
        step matches Step::Execute(query) ==> !query.creates_row() && (query matches Query::Update {
            id: target,
            ..
        } && target == id),
        reply.is_message(StatusCode::NOT_FOUND, not_found_text()),
{
}

/// A removal that touches no row, as the second removal of an asset does,
/// is read as "nothing removed" and answered with status 404, not with the
/// status of a failure.
pub proof fn lemma_removal_of_nothing_is_not_found(reply: Reply<Confirmation>)
    requires
        delete_reply(reply, Ok(0u64 > 0)),
    ensures
        reply.is_message(StatusCode::NOT_FOUND, not_found_text()),
        reply.status != StatusCode::INTERNAL_SERVER_ERROR,
{
}

/// The reply to a listing counts the pages as the count of rows divided by
/// the page size, rounded up; and a page past the last one is answered with
/// status 200, its window starting at or after the end of the rows.
pub proof fn lemma_listing_counts_pages(
    pagination: Pagination,
    items: Vec<Asset>,
    total: i64,
    reply: Reply<Page<Asset>>,
)
    requires
        pagination.per_page >= 1,
        total >= 0,
        list_reply(reply, pagination, Ok((items, total))),
    ensures
        reply.status == StatusCode::OK,
        reply.body matches ApiResponse::Success { data } && data.items == items && data.total
            == total && data.current_page == pagination.page && is_ceiling(
            data.total_pages as int,
            total as int,
            pagination.per_page as int,
        ),
        reply.body matches ApiResponse::Success { data } && (pagination.page > data.total_pages
            ==> pagination.spec_offset() >= total),
{
    let n = page_count(total as int, pagination.per_page as int);
    lemma_page_count_is_ceiling(total as int, pagination.per_page as int);
    assert(0 <= n <= total) by {
        if total > 0 {
            lemma_page_count_steps(total as int, pagination.per_page as int);
        }
    }
    if pagination.page > n {
        lemma_page_past_the_end(pagination, total as int);
    }
}

/// A payload whose text in some field is refused is answered with status
/// 400, by a creation and by a replacement alike, and the errors of the
/// reply name that field.
pub proof fn lemma_refused_field_is_named(
    id: Uuid,
    created: AssetRequest,
    replaced: AssetUpdateRequest,
    field: Field,
    create: Step<Asset>,
    update: Step<Asset>,
)
    requires
        !field.accepts(created@.text(field).len()),
        !field.accepts(replaced@.text(field).len()),
        create_step(create, id, Some(created)),
        update_step(update, id, Some(replaced)),
    ensures
        create matches Step::Respond(reply) && reply.status == StatusCode::BAD_REQUEST && (
        reply.body matches ApiResponse::Error { error: ErrorBody::Validation(errors) } && names(
            errors@,
            field,
        )),
        update matches Step::Respond(reply) && reply.status == StatusCode::BAD_REQUEST && (
        reply.body matches ApiResponse::Error { error: ErrorBody::Validation(errors) } && names(
            errors@,
            field,
        )),
{
    created@.lemma_violations_name_refused_fields(PayloadKind::Create, field);
    replaced@.lemma_violations_name_refused_fields(PayloadKind::Update, field);
}

} // verus!
