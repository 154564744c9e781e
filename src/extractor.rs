//! Single extractors: each reads one value out of a request view, either from
//! its path (metadata extractors) or from its JSON body (body extractors).
use vstd::prelude::*;

use crate::json::{as_text, as_unsigned, json_member, json_text, json_unsigned, member, parse_document, parsed_json};
use crate::path::{parse_u64, parsed_u64, path_segment, segment};
use crate::request::{RequestModel, RequestView};

verus! {

/// The shape that one named member of a decoded body must have.
#[derive(Clone, Copy, Debug, PartialEq, Eq, Structural)]
pub enum FieldKind {
    /// A JSON string.
    Text,
    /// A JSON integer in `0..=max`.
    Unsigned { max: u64 },
}

/// One named member of the structured value that a body extractor decodes.
#[derive(Clone, Debug)]
pub struct FieldSpec {
    pub name: String,
    pub kind: FieldKind,
}

/// A stateless capability that produces one typed value from a request view.
#[derive(Clone, Debug)]
pub enum Extractor {
    /// Reads path segment `segment` (split at `'/'`) as text.
    PathText { segment: usize },
    /// Reads path segment `segment` as a decimal `u64`.
    PathUnsigned { segment: usize },
    /// Decodes the body as a JSON object with the members `fields`, in that order.
    Body { fields: Vec<FieldSpec> },
}

/// One decoded member of a body.
#[derive(Clone, Debug, PartialEq, Eq)]
pub enum FieldValue {
    Text(String),
    Unsigned(u64),
}

/// The value that one extractor produced.
#[derive(Clone, Debug, PartialEq, Eq)]
pub enum Extracted {
    Text(String),
    Unsigned(u64),
    /// The members of a decoded body, in the order of the extractor's fields.
    Record(Vec<FieldValue>),
}

/// Why an extractor produced no value.
#[derive(Clone, Copy, Debug, PartialEq, Eq, Structural)]
pub enum FailureKind {
    /// The body is not well-formed JSON or does not have the expected shape.
    Decode,
    /// A path segment is absent or does not parse as required.
    MetadataAccess,
}

pub enum ExtractorModel {
    PathText(nat),
    PathUnsigned(nat),
    Body(Seq<(Seq<char>, FieldKind)>),
}

pub enum FieldModel {
    Text(Seq<char>),
    Unsigned(u64),
}

pub enum ExtractedModel {
    Text(Seq<char>),
    Unsigned(u64),
    Record(Seq<FieldModel>),
}

impl View for FieldSpec {
    type V = (Seq<char>, FieldKind);

    open spec fn view(&self) -> (Seq<char>, FieldKind) {
        (self.name@, self.kind)
    }
}

impl View for Extractor {
    type V = ExtractorModel;

    open spec fn view(&self) -> ExtractorModel {
        match self {
            Extractor::PathText { segment } => ExtractorModel::PathText(*segment as nat),
            Extractor::PathUnsigned { segment } => ExtractorModel::PathUnsigned(*segment as nat),
            Extractor::Body { fields } => ExtractorModel::Body(
                fields@.map_values(|f: FieldSpec| f@),
            ),
        }
    }
}

impl View for FieldValue {
    type V = FieldModel;

    open spec fn view(&self) -> FieldModel {
        match self {
            FieldValue::Text(t) => FieldModel::Text(t@),
            FieldValue::Unsigned(n) => FieldModel::Unsigned(*n),
        }
    }
}

impl View for Extracted {
    type V = ExtractedModel;

    open spec fn view(&self) -> ExtractedModel {
        match self {
            Extracted::Text(t) => ExtractedModel::Text(t@),
            Extracted::Unsigned(n) => ExtractedModel::Unsigned(*n),
            Extracted::Record(v) => ExtractedModel::Record(v@.map_values(|f: FieldValue| f@)),
        }
    }
}

/// The member `f` of the document `doc`, when it is there with the shape `f` asks for.
pub open spec fn decode_field(doc: serde_json::Value, f: (Seq<char>, FieldKind)) -> Option<FieldModel> {
    match json_member(doc, f.0) {
        None => None,
        Some(m) => match f.1 {
            FieldKind::Text => match json_text(m) {
                Some(t) => Some(FieldModel::Text(t)),
                None => None,
            },
            FieldKind::Unsigned { max } => match json_unsigned(m) {
                Some(n) => if n <= max {
                    Some(FieldModel::Unsigned(n))
                } else {
                    None
                },
                None => None,
            },
        },
    }
}

/// All members `fs` of `doc`, in order, or `None` when any one of them is
/// missing or has the wrong shape.
pub open spec fn decode_fields(doc: serde_json::Value, fs: Seq<(Seq<char>, FieldKind)>) -> Option<
    Seq<FieldModel>,
> {
    if forall|i: int| 0 <= i < fs.len() ==> (#[trigger] decode_field(doc, fs[i])) is Some {
        Some(Seq::new(fs.len(), |i: int| decode_field(doc, fs[i]).unwrap()))
    } else {
        None
    }
}

/// What decoding `body` as a JSON object with the members `fs` gives.
pub open spec fn decode_body_spec(fs: Seq<(Seq<char>, FieldKind)>, body: Seq<u8>) -> Result<
    ExtractedModel,
    FailureKind,
> {
    match parsed_json(body) {
        None => Err(FailureKind::Decode),
        Some(doc) => match decode_fields(doc, fs) {
            Some(v) => Ok(ExtractedModel::Record(v)),
            None => Err(FailureKind::Decode),
        },
    }
}

/// What running the extractor `e` on the request `r` gives.
pub open spec fn extract_spec(e: ExtractorModel, r: RequestModel) -> Result<ExtractedModel, FailureKind> {
    match e {
        ExtractorModel::PathText(k) => match path_segment(r.path, k) {
            Some(t) => Ok(ExtractedModel::Text(t)),
            None => Err(FailureKind::MetadataAccess),
        },
        ExtractorModel::PathUnsigned(k) => match path_segment(r.path, k) {
            Some(t) => match parsed_u64(t) {
                Some(n) => Ok(ExtractedModel::Unsigned(n)),
                None => Err(FailureKind::MetadataAccess),
            },
            None => Err(FailureKind::MetadataAccess),
        },
        ExtractorModel::Body(fs) => decode_body_spec(fs, r.body),
    }
}

/// The model of an extraction outcome.
pub open spec fn outcome_view(r: Result<Extracted, FailureKind>) -> Result<ExtractedModel, FailureKind> {
    match r {
        Ok(v) => Ok(v@),
        Err(k) => Err(k),
    }
}

/// Whether a decoded member has the shape that `k` asks for.
pub open spec fn field_conforms(v: FieldModel, k: FieldKind) -> bool {
    match (k, v) {
        (FieldKind::Text, FieldModel::Text(_)) => true,
        (FieldKind::Unsigned { max }, FieldModel::Unsigned(n)) => n <= max,
        _ => false,
    }
}

/// Whether `v` has the output type that the extractor `e` declares.
pub open spec fn conforms(v: ExtractedModel, e: ExtractorModel) -> bool {
    match (e, v) {
        (ExtractorModel::PathText(_), ExtractedModel::Text(_)) => true,
        (ExtractorModel::PathUnsigned(_), ExtractedModel::Unsigned(_)) => true,
        (ExtractorModel::Body(fs), ExtractedModel::Record(vals)) => vals.len() == fs.len() && forall|
            i: int,
        |
            0 <= i < fs.len() ==> field_conforms(#[trigger] vals[i], fs[i].1),
        _ => false,
    }
}

/// A value that an extractor produces has the output type it declares.
pub proof fn lemma_extract_conforms(e: ExtractorModel, r: RequestModel)
    ensures
        extract_spec(e, r) matches Ok(v) ==> conforms(v, e),
{
    if let ExtractorModel::Body(fs) = e {
        if let Some(doc) = parsed_json(r.body) {
            if let Some(vals) = decode_fields(doc, fs) {
                assert forall|i: int| 0 <= i < fs.len() implies field_conforms(
                    #[trigger] vals[i],
                    fs[i].1,
                ) by {
                    assert(decode_field(doc, fs[i]) is Some);
                }
            }
        }
    }
}

fn decode_member(doc: &serde_json::Value, f: &FieldSpec) -> (r: Option<FieldValue>)
    ensures
        r matches Some(v) ==> decode_field(*doc, f@) == Some(v@),
        r is None ==> decode_field(*doc, f@) is None,
{
    let m = match member(doc, f.name.as_str()) {
        Some(m) => m,
        None => return None,
    };
    match f.kind {
        FieldKind::Text => match as_text(&m) {
            Some(t) => Some(FieldValue::Text(t)),
            None => None,
        },
        FieldKind::Unsigned { max } => match as_unsigned(&m) {
            Some(n) => if n <= max {
                Some(FieldValue::Unsigned(n))
            } else {
                None
            },
            None => None,
        },
    }
}

fn decode_body(body: &Vec<u8>, fields: &Vec<FieldSpec>) -> (r: Result<Extracted, FailureKind>)
    ensures
        outcome_view(r) == decode_body_spec(fields@.map_values(|f: FieldSpec| f@), body@),
{
    let ghost fs = fields@.map_values(|f: FieldSpec| f@);
    let doc = match parse_document(body.as_slice()) {
        Ok(d) => d,
        Err(_) => return Err(FailureKind::Decode),
    };
    let mut vals: Vec<FieldValue> = Vec::new();
    let mut i: usize = 0;
    while i < fields.len()
        invariant
            i <= fields.len(),
            fs == fields@.map_values(|f: FieldSpec| f@),
            parsed_json(body@) == Some(doc),
            vals@.len() == i,
            forall|j: int| 0 <= j < i ==> decode_field(doc, fs[j]) == Some(#[trigger] vals@[j]@),
        decreases fields.len() - i,
    {
        match decode_member(&doc, &fields[i]) {
            Some(v) => {
                vals.push(v);
            },
            None => {
                assert(decode_field(doc, fs[i as int]) is None);
                return Err(FailureKind::Decode);
            },
        }
        i = i + 1;
    }
    let ghost model = vals@.map_values(|f: FieldValue| f@);
    assert(decode_fields(doc, fs) == Some(model)) by {
        assert forall|j: int| 0 <= j < fs.len() implies (#[trigger] decode_field(doc, fs[j])) is Some by {
            assert(decode_field(doc, fs[j]) == Some(vals@[j]@));
        }
        assert(Seq::new(fs.len(), |j: int| decode_field(doc, fs[j]).unwrap()) =~= model);
    }
    Ok(Extracted::Record(vals))
}

impl FieldSpec {
    /// A member `name` that must hold a JSON string.
    pub fn text(name: &str) -> (r: FieldSpec)
        ensures
            r@ == (name@, FieldKind::Text),
    {
        FieldSpec { name: name.to_string(), kind: FieldKind::Text }
    }

    /// A member `name` that must hold an integer in `0..=max`.
    pub fn unsigned(name: &str, max: u64) -> (r: FieldSpec)
        ensures
            r@ == (name@, FieldKind::Unsigned { max }),
    {
        FieldSpec { name: name.to_string(), kind: FieldKind::Unsigned { max } }
    }
}

impl Extractor {
    /// Reads path segment `segment` as text.
    pub fn path_text(segment: usize) -> (r: Extractor)
        ensures
            r@ == ExtractorModel::PathText(segment as nat),
    {
        Extractor::PathText { segment }
    }

    /// Reads path segment `segment` as a decimal `u64`.
    pub fn path_unsigned(segment: usize) -> (r: Extractor)
        ensures
            r@ == ExtractorModel::PathUnsigned(segment as nat),
    {
        Extractor::PathUnsigned { segment }
    }

    /// Decodes the body as a JSON object with the members `fields`.
    pub fn body(fields: Vec<FieldSpec>) -> (r: Extractor)
        ensures
            r@ == ExtractorModel::Body(fields@.map_values(|f: FieldSpec| f@)),
    {
        Extractor::Body { fields }
    }

    /// Runs this extractor on `req`: the value it reads, or why it could not.
    pub fn extract(&self, req: &RequestView) -> (r: Result<Extracted, FailureKind>)
        ensures
            outcome_view(r) == extract_spec(self@, req@),
    {
        match self {
            Extractor::PathText { segment: k } => match segment(req.path(), *k) {
                Some(t) => Ok(Extracted::Text(t)),
                None => Err(FailureKind::MetadataAccess),
            },
            Extractor::PathUnsigned { segment: k } => match segment(req.path(), *k) {
                Some(t) => match parse_u64(t.as_str()) {
                    Some(n) => Ok(Extracted::Unsigned(n)),
                    None => Err(FailureKind::MetadataAccess),
                },
                None => Err(FailureKind::MetadataAccess),
            },
            Extractor::Body { fields } => decode_body(req.body(), fields),
        }
    }
}

} // verus!
