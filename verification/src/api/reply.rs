//! Answers that carry an error or a short text.

use vstd::prelude::*;

use crate::api::scopes::ScopeDenied;
use crate::text::texts;

verus! {

/// A field of a JSON error body.
#[derive(Debug)]
pub enum ErrorField {
    Text(String),
    List(Vec<String>),
}

/// What a field of a JSON error body says.
pub enum FieldModel {
    Text(Seq<char>),
    List(Seq<Seq<char>>),
}

impl View for ErrorField {
    type V = FieldModel;

    open spec fn view(&self) -> FieldModel {
        match *self {
            ErrorField::Text(t) => FieldModel::Text(t@),
            ErrorField::List(l) => FieldModel::List(texts(l@)),
        }
    }
}

/// The body of an answer.
#[derive(Debug)]
pub enum Body {
    /// Plain text, possibly empty.
    Text(&'static str),
    /// A JSON object: its fields in order.
    Fields(Vec<(&'static str, ErrorField)>),
}

/// What the body of an answer says.
pub enum BodyModel {
    Text(Seq<char>),
    Fields(Seq<(Seq<char>, FieldModel)>),
}

/// The views of the fields of a JSON object.
pub open spec fn field_models(fields: Seq<(&'static str, ErrorField)>) -> Seq<
    (Seq<char>, FieldModel),
> {
    fields.map_values(|f: (&'static str, ErrorField)| (f.0@, f.1@))
}

impl View for Body {
    type V = BodyModel;

    open spec fn view(&self) -> BodyModel {
        match *self {
            Body::Text(t) => BodyModel::Text(t@),
            Body::Fields(f) => BodyModel::Fields(field_models(f@)),
        }
    }
}

/// What an answer says.
pub struct ReplyModel {
    pub status: u16,
    pub body: BodyModel,
    pub no_store: bool,
    pub denied_scope: Option<Seq<char>>,
}

/// An answer.
#[derive(Debug)]
pub struct Reply {
    pub status: u16,
    pub body: Body,
    /// Whether caches are told not to keep the answer.
    pub no_store: bool,
    /// The scope that was missing, for the audit ledger only.
    pub denied_scope: Option<&'static str>,
}

impl View for Reply {
    type V = ReplyModel;

    open spec fn view(&self) -> ReplyModel {
        ReplyModel {
            status: self.status,
            body: self.body@,
            no_store: self.no_store,
            denied_scope: match self.denied_scope {
                Some(s) => Some(s@),
                None => None,
            },
        }
    }
}

/// An answer with a plain text.
pub open spec fn text_reply(status: u16, text: Seq<char>) -> ReplyModel {
    ReplyModel { status, body: BodyModel::Text(text), no_store: false, denied_scope: None }
}

/// An answer with a JSON object.
pub open spec fn fields_reply(status: u16, fields: Seq<(Seq<char>, FieldModel)>) -> ReplyModel {
    ReplyModel { status, body: BodyModel::Fields(fields), no_store: false, denied_scope: None }
}

/// The answer to a caller that lacks a scope: it does not say which one.
pub open spec fn denied_reply(required: Seq<char>) -> ReplyModel {
    ReplyModel {
        status: 403,
        body: BodyModel::Text(""@),
        no_store: false,
        denied_scope: Some(required),
    }
}

/// An answer with a plain text.
pub fn plain(status: u16, text: &'static str) -> (r: Reply)
    ensures
        r@ == text_reply(status, text@),
{
    Reply { status, body: Body::Text(text), no_store: false, denied_scope: None }
}

/// An answer with a JSON object of one field.
pub fn one_field(status: u16, name: &'static str, value: &str) -> (r: Reply)
    ensures
        r@ == fields_reply(status, seq![(name@, FieldModel::Text(value@))]),
{
    let mut fields: Vec<(&'static str, ErrorField)> = Vec::new();
    fields.push((name, ErrorField::Text(value.to_owned())));
    assert(field_models(fields@) =~= seq![(name@, FieldModel::Text(value@))]);
    Reply { status, body: Body::Fields(fields), no_store: false, denied_scope: None }
}

/// An answer with a JSON object that names an error and gives one detail of it.
pub fn error_with(status: u16, error: &str, name: &'static str, detail: ErrorField) -> (r: Reply)
    ensures
        r@ == fields_reply(
            status,
            seq![("error"@, FieldModel::Text(error@)), (name@, detail@)],
        ),
{
    let ghost d = detail@;
    let mut fields: Vec<(&'static str, ErrorField)> = Vec::new();
    fields.push(("error", ErrorField::Text(error.to_owned())));
    fields.push((name, detail));
    assert(field_models(fields@) =~= seq![("error"@, FieldModel::Text(error@)), (name@, d)]);
    Reply { status, body: Body::Fields(fields), no_store: false, denied_scope: None }
}

/// The answer to a caller that lacks a scope.
pub fn scope_denied(denied: ScopeDenied) -> (r: Reply)
    ensures
        r@ == denied_reply(denied.required@),
{
    Reply {
        status: 403,
        body: Body::Text(""),
        no_store: false,
        denied_scope: Some(denied.required),
    }
}

} // verus!
