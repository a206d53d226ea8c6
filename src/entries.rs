//! The replies of the entry endpoints, and the catcher that renders a
//! request's recorded error.
//!
//! The store itself is reached by the host; each function here receives what
//! the store answered and builds the reply.
use vstd::prelude::*;
use vstd::string::*;

use crate::decimal::{decimal_text, to_decimal};
use crate::errors::{DetailView, ErrorMessage};
use crate::model::EntryResponse;
use crate::namespace::Namespace;
use crate::pagination::PageSize;
use crate::responders::{number, number_field, text, text_field, CustomResponder, FieldValue, FieldView, ReplyView};

verus! {

/// The fields that render a recorded error.
pub open spec fn detail_fields(d: DetailView) -> Seq<(Seq<char>, FieldView)> {
    let base = seq![text("code"@, d.code), text("message"@, d.message)];
    match d.namespace {
        Some(n) => base.push(text("namespace"@, n)),
        None => base,
    }
}

pub open spec fn unknown_error_message() -> Seq<char> {
    "Some unknown (unhandled) error occured! Please, report the bug by filing an issue."@
}

/// The catcher's reply for a request whose error slot holds `slot`.
pub open spec fn catch_reply(slot: Option<DetailView>) -> ReplyView {
    match slot {
        Some(d) => ReplyView { status: 400, fields: detail_fields(d) },
        None => ReplyView {
            status: 500,
            fields: seq![text("code"@, "err_unknown_error"@), text("message"@, unknown_error_message())],
        },
    }
}

/// The fallback catcher: renders the request's recorded error with status
/// 400, or, when nothing was recorded, a generic error with status 500.
pub fn handle_bad_request_errors(ctx: &ErrorMessage) -> (r: CustomResponder)
    ensures
        r@ == catch_reply(ctx@),
{
    match ctx.read() {
        Some(d) => {
            let mut fields: Vec<(String, FieldValue)> = Vec::new();
            fields.push(text_field("code", d.code.clone()));
            fields.push(text_field("message", d.message.clone()));
            match &d.namespace {
                Some(n) => fields.push(text_field("namespace", n.clone())),
                None => {},
            }
            assert(fields.deep_view() =~= detail_fields(d@));
            CustomResponder::BadRequest(fields)
        },
        None => {
            let mut fields: Vec<(String, FieldValue)> = Vec::new();
            fields.push(text_field("code", String::from_str("err_unknown_error")));
            fields.push(
                text_field(
                    "message",
                    String::from_str(
                        "Some unknown (unhandled) error occured! Please, report the bug by filing an issue.",
                    ),
                ),
            );
            assert(fields.deep_view() =~= catch_reply(ctx@).fields);
            CustomResponder::UnknownError(fields)
        },
    }
}

pub open spec fn missing_entry_message(id: u64) -> Seq<char> {
    "Entry with ID '"@ + decimal_text(id as nat) + "' does not exist!"@
}

/// The reply to a lookup of an id that the namespace does not hold.
pub open spec fn missing_entry_reply(namespace: Seq<char>, id: u64) -> ReplyView {
    ReplyView {
        status: 400,
        fields: seq![
            text("code"@, "error_sql_get_one_by_id"@),
            text("message"@, missing_entry_message(id)),
            text("namespace"@, namespace),
            number("id"@, id),
        ],
    }
}

fn missing_entry(namespace: &Namespace, id: u64) -> (r: CustomResponder)
    ensures
        r@ == missing_entry_reply(namespace@, id),
{
    let mut message = String::from_str("Entry with ID '");
    message.append(to_decimal(id).as_str());
    message.append("' does not exist!");
    let mut fields: Vec<(String, FieldValue)> = Vec::new();
    fields.push(text_field("code", String::from_str("error_sql_get_one_by_id")));
    fields.push(text_field("message", message));
    fields.push(text_field("namespace", String::from_str(namespace.as_str())));
    fields.push(number_field("id", id));
    assert(fields.deep_view() =~= missing_entry_reply(namespace@, id).fields);
    CustomResponder::BadRequest(fields)
}

/// The reply to a lookup by id: the entry the store found, or an error
/// naming the id it did not find in the namespace.
pub fn get_entry_by_id(namespace: &Namespace, found: Result<EntryResponse, u64>) -> (r: CustomResponder)
    ensures
        match found {
            Ok(e) => r@ == (ReplyView {
                status: 200,
                fields: seq![
                    text("code"@, "no_message"@),
                    text("namespace"@, namespace@),
                    ("data"@, FieldView::Item(e)),
                ],
            }),
            Err(id) => r@ == missing_entry_reply(namespace@, id),
        },
{
    match found {
        Ok(e) => {
            let mut fields: Vec<(String, FieldValue)> = Vec::new();
            fields.push(text_field("code", String::from_str("no_message")));
            fields.push(text_field("namespace", String::from_str(namespace.as_str())));
            fields.push((String::from_str("data"), FieldValue::Item(e)));
            assert(fields.deep_view() =~= seq![
                text("code"@, "no_message"@),
                text("namespace"@, namespace@),
                ("data"@, FieldView::Item(e)),
            ]);
            CustomResponder::Success(fields)
        },
        Err(id) => missing_entry(namespace, id),
    }
}

/// The reply to a page request: the page's number and size and the entries
/// the store returned for it, in its order.
pub fn get_paginated_entries(namespace: &Namespace, page: u32, page_size: &PageSize, data: Vec<EntryResponse>) -> (r: CustomResponder)
    ensures
        r@ == (ReplyView {
            status: 200,
            fields: seq![
                text("code"@, "no_message"@),
                text("namespace"@, namespace@),
                number("page_number"@, page as u64),
                number("page_size"@, page_size@ as u64),
                ("data"@, FieldView::Items(data@)),
            ],
        }),
{
    let ghost items = data@;
    let mut fields: Vec<(String, FieldValue)> = Vec::new();
    fields.push(text_field("code", String::from_str("no_message")));
    fields.push(text_field("namespace", String::from_str(namespace.as_str())));
    fields.push(number_field("page_number", page as u64));
    fields.push(number_field("page_size", page_size.get() as u64));
    fields.push((String::from_str("data"), FieldValue::Items(data)));
    assert(fields.deep_view() =~= seq![
        text("code"@, "no_message"@),
        text("namespace"@, namespace@),
        number("page_number"@, page as u64),
        number("page_size"@, page_size@ as u64),
        ("data"@, FieldView::Items(items)),
    ]);
    CustomResponder::Success(fields)
}

/// The reply once one entry was stored under `item_id`.
pub fn create_one_entry(item_id: u64) -> (r: CustomResponder)
    ensures
        r@ == (ReplyView {
            status: 200,
            fields: seq![
                text("code"@, "info_one_item_ok"@),
                text("message"@, "Successfully created new entry!"@),
                number("item_id"@, item_id),
            ],
        }),
{
    let mut fields: Vec<(String, FieldValue)> = Vec::new();
    fields.push(text_field("code", String::from_str("info_one_item_ok")));
    fields.push(text_field("message", String::from_str("Successfully created new entry!")));
    fields.push(number_field("item_id", item_id));
    assert(fields.deep_view() =~= seq![
        text("code"@, "info_one_item_ok"@),
        text("message"@, "Successfully created new entry!"@),
        number("item_id"@, item_id),
    ]);
    CustomResponder::Success(fields)
}

/// The reply once a batch was stored: the ids in the batch's order.
pub fn create_many_entries(item_ids: Vec<u64>) -> (r: CustomResponder)
    ensures
        r@ == (ReplyView {
            status: 200,
            fields: seq![
                text("code"@, "info_many_items_ok"@),
                text("message"@, "Successfully created multiple entries!"@),
                ("item_ids"@, FieldView::Numbers(item_ids@)),
            ],
        }),
{
    let ghost ids = item_ids@;
    let mut fields: Vec<(String, FieldValue)> = Vec::new();
    fields.push(text_field("code", String::from_str("info_many_items_ok")));
    fields.push(text_field("message", String::from_str("Successfully created multiple entries!")));
    fields.push((String::from_str("item_ids"), FieldValue::Numbers(item_ids)));
    assert(fields.deep_view() =~= seq![
        text("code"@, "info_many_items_ok"@),
        text("message"@, "Successfully created multiple entries!"@),
        ("item_ids"@, FieldView::Numbers(ids)),
    ]);
    CustomResponder::Success(fields)
}

/// The reply once an entry was stored under `item_id`, new or replaced.
pub fn update_entry_by_id(item_id: u64) -> (r: CustomResponder)
    ensures
        r@ == (ReplyView {
            status: 200,
            fields: seq![
                text("code"@, "info_put_item_ok"@),
                text("message"@, "Successfully updated/created entry!"@),
                number("item_id"@, item_id),
            ],
        }),
{
    let mut fields: Vec<(String, FieldValue)> = Vec::new();
    fields.push(text_field("code", String::from_str("info_put_item_ok")));
    fields.push(text_field("message", String::from_str("Successfully updated/created entry!")));
    fields.push(number_field("item_id", item_id));
    assert(fields.deep_view() =~= seq![
        text("code"@, "info_put_item_ok"@),
        text("message"@, "Successfully updated/created entry!"@),
        number("item_id"@, item_id),
    ]);
    CustomResponder::Success(fields)
}

pub open spec fn deleted_all_message(namespace: Seq<char>) -> Seq<char> {
    "Successfully deleted all entries for namespace '"@ + namespace + "'!"@
}

/// The reply once the namespace was emptied of `amount` entries.
pub fn delete_all_entries(namespace: &Namespace, amount: u64) -> (r: CustomResponder)
    ensures
        r@ == (ReplyView {
            status: 200,
            fields: seq![
                text("code"@, "info_delete_entries_ok"@),
                text("message"@, deleted_all_message(namespace@)),
                text("namespace"@, namespace@),
                number("amount"@, amount),
            ],
        }),
{
    let mut message = String::from_str("Successfully deleted all entries for namespace '");
    message.append(namespace.as_str());
    message.append("'!");
    let mut fields: Vec<(String, FieldValue)> = Vec::new();
    fields.push(text_field("code", String::from_str("info_delete_entries_ok")));
    fields.push(text_field("message", message));
    fields.push(text_field("namespace", String::from_str(namespace.as_str())));
    fields.push(number_field("amount", amount));
    assert(fields.deep_view() =~= seq![
        text("code"@, "info_delete_entries_ok"@),
        text("message"@, deleted_all_message(namespace@)),
        text("namespace"@, namespace@),
        number("amount"@, amount),
    ]);
    CustomResponder::Success(fields)
}

pub open spec fn deleted_one_message(id: u64, namespace: Seq<char>) -> Seq<char> {
    "Successfully deleted an entry of ID '"@ + decimal_text(id as nat) + "' for namespace '"@
        + namespace + "'!"@
}

/// The reply to a deletion by id: `Ok(id)` when the store deleted it,
/// `Err(id)` when the namespace held no such entry.
pub fn delete_entry_by_id(namespace: &Namespace, deleted: Result<u64, u64>) -> (r: CustomResponder)
    ensures
        match deleted {
            Ok(id) => r@ == (ReplyView {
                status: 200,
                fields: seq![
                    text("code"@, "info_delete_entry_ok"@),
                    text("message"@, deleted_one_message(id, namespace@)),
                    text("namespace"@, namespace@),
                    number("id"@, id),
                ],
            }),
            Err(id) => r@ == missing_entry_reply(namespace@, id),
        },
{
    match deleted {
        Ok(id) => {
            let mut message = String::from_str("Successfully deleted an entry of ID '");
            message.append(to_decimal(id).as_str());
            message.append("' for namespace '");
            message.append(namespace.as_str());
            message.append("'!");
            let mut fields: Vec<(String, FieldValue)> = Vec::new();
            fields.push(text_field("code", String::from_str("info_delete_entry_ok")));
            fields.push(text_field("message", message));
            fields.push(text_field("namespace", String::from_str(namespace.as_str())));
            fields.push(number_field("id", id));
            assert(fields.deep_view() =~= seq![
                text("code"@, "info_delete_entry_ok"@),
                text("message"@, deleted_one_message(id, namespace@)),
                text("namespace"@, namespace@),
                number("id"@, id),
            ]);
            CustomResponder::Success(fields)
        },
        Err(id) => missing_entry(namespace, id),
    }
}

/// The reply of the health check.
pub fn health_check_handler() -> (r: CustomResponder)
    ensures
        r@ == (ReplyView { status: 200, fields: seq![text("code"@, "info_status_check_ok"@)] }),
{
    let mut fields: Vec<(String, FieldValue)> = Vec::new();
    fields.push(text_field("code", String::from_str("info_status_check_ok")));
    assert(fields.deep_view() =~= seq![text("code"@, "info_status_check_ok"@)]);
    CustomResponder::Success(fields)
}

} // verus!
