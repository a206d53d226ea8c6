//! Replies: the status and the JSON object that a request is answered with.
use vstd::prelude::*;
use vstd::string::*;

use crate::model::EntryResponse;

verus! {

/// The value of one field of a reply.
pub enum FieldValue {
    Text(String),
    Number(u64),
    Numbers(Vec<u64>),
    Item(EntryResponse),
    Items(Vec<EntryResponse>),
}

pub enum FieldView {
    Text(Seq<char>),
    Number(u64),
    Numbers(Seq<u64>),
    Item(EntryResponse),
    Items(Seq<EntryResponse>),
}

impl DeepView for FieldValue {
    type V = FieldView;

    open spec fn deep_view(&self) -> FieldView {
        match self {
            FieldValue::Text(s) => FieldView::Text(s@),
            FieldValue::Number(n) => FieldView::Number(*n),
            FieldValue::Numbers(v) => FieldView::Numbers(v@),
            FieldValue::Item(e) => FieldView::Item(*e),
            FieldValue::Items(v) => FieldView::Items(v@),
        }
    }
}

/// A reply: its status, and the fields of its JSON object in order.
pub enum CustomResponder {
    /// Status 200.
    Success(Vec<(String, FieldValue)>),
    /// Status 400.
    BadRequest(Vec<(String, FieldValue)>),
    /// Status 500.
    UnknownError(Vec<(String, FieldValue)>),
}

pub struct ReplyView {
    pub status: u16,
    pub fields: Seq<(Seq<char>, FieldView)>,
}

impl View for CustomResponder {
    type V = ReplyView;

    open spec fn view(&self) -> ReplyView {
        match self {
            CustomResponder::Success(f) => ReplyView { status: 200, fields: f.deep_view() },
            CustomResponder::BadRequest(f) => ReplyView { status: 400, fields: f.deep_view() },
            CustomResponder::UnknownError(f) => ReplyView { status: 500, fields: f.deep_view() },
        }
    }
}

impl CustomResponder {
    /// The HTTP status of the reply.
    pub fn status(&self) -> (r: u16)
        ensures
            r == self@.status,
    {
        match self {
            CustomResponder::Success(_) => 200,
            CustomResponder::BadRequest(_) => 400,
            CustomResponder::UnknownError(_) => 500,
        }
    }

    /// The fields of the reply's JSON object, in order.
    pub fn fields(&self) -> (r: &Vec<(String, FieldValue)>)
        ensures
            r.deep_view() == self@.fields,
    {
        match self {
            CustomResponder::Success(f) => f,
            CustomResponder::BadRequest(f) => f,
            CustomResponder::UnknownError(f) => f,
        }
    }
}

pub open spec fn text(name: Seq<char>, value: Seq<char>) -> (Seq<char>, FieldView) {
    (name, FieldView::Text(value))
}

pub open spec fn number(name: Seq<char>, value: u64) -> (Seq<char>, FieldView) {
    (name, FieldView::Number(value))
}

pub fn text_field(name: &str, value: String) -> (r: (String, FieldValue))
    ensures
        r.deep_view() == text(name@, value@),
{
    (String::from_str(name), FieldValue::Text(value))
}

pub fn number_field(name: &str, value: u64) -> (r: (String, FieldValue))
    ensures
        r.deep_view() == number(name@, value),
{
    (String::from_str(name), FieldValue::Number(value))
}

} // verus!
