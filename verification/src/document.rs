//! The OpenAPI-shaped part of the input document model: the path table
//! with its operations, parameters, bodies and responses, as plain data.
//! Every type has a mathematical mirror (`...V`) used in contracts.

use vstd::prelude::*;

use crate::schema::{
    Schema, SchemaObject, SchemaObjectV, SchemaV, opt_str_view, schema_object_view, schema_view,
};

verus! {

/// Either an unresolved `$ref`, or an inline item.
#[derive(Debug)]
pub enum RefOr<T> {
    Reference { reference: String },
    Item(T),
}

/// Mirror of [`RefOr`].
pub enum RefOrV<T> {
    Reference { reference: Seq<char> },
    Item(T),
}

impl<T: View> View for RefOr<T> {
    type V = RefOrV<T::V>;

    open spec fn view(&self) -> RefOrV<T::V> {
        match self {
            RefOr::Reference { reference } => RefOrV::Reference { reference: reference@ },
            RefOr::Item(t) => RefOrV::Item(t@),
        }
    }
}

/// Serialization style of a path parameter.
#[derive(Clone, Copy, Debug, PartialEq, Eq, Structural)]
pub enum PathStyle {
    Matrix,
    Label,
    Simple,
}

/// Serialization style of a query parameter.
#[derive(Clone, Copy, Debug, PartialEq, Eq, Structural)]
pub enum QueryStyle {
    Form,
    SpaceDelimited,
    PipeDelimited,
    DeepObject,
}

/// Serialization style of a header parameter.
#[derive(Clone, Copy, Debug, PartialEq, Eq, Structural)]
pub enum HeaderStyle {
    Simple,
}

/// Serialization style of a cookie parameter.
#[derive(Clone, Copy, Debug, PartialEq, Eq, Structural)]
pub enum CookieStyle {
    Form,
}

/// A parameter's data format: an inline schema, or a content map
/// (the latter is unsupported and only ever rejected).
#[derive(Debug)]
pub enum ParameterSchemaOrContent {
    Schema(Schema),
    Content,
}

/// Mirror of [`ParameterSchemaOrContent`].
pub enum ParameterSchemaOrContentV {
    Schema(SchemaV),
    Content,
}

impl View for ParameterSchemaOrContent {
    type V = ParameterSchemaOrContentV;

    open spec fn view(&self) -> ParameterSchemaOrContentV {
        match self {
            ParameterSchemaOrContent::Schema(s) => ParameterSchemaOrContentV::Schema(
                schema_view(*s),
            ),
            ParameterSchemaOrContent::Content => ParameterSchemaOrContentV::Content,
        }
    }
}

/// The fields shared by parameters of every location.
#[derive(Debug)]
pub struct ParameterData {
    pub name: String,
    pub description: Option<String>,
    pub required: bool,
    pub format: ParameterSchemaOrContent,
}

/// Mirror of [`ParameterData`].
pub struct ParameterDataV {
    pub name: Seq<char>,
    pub description: Option<Seq<char>>,
    pub required: bool,
    pub format: ParameterSchemaOrContentV,
}

impl View for ParameterData {
    type V = ParameterDataV;

    open spec fn view(&self) -> ParameterDataV {
        ParameterDataV {
            name: self.name@,
            description: opt_str_view(self.description),
            required: self.required,
            format: self.format@,
        }
    }
}

/// A declared parameter, by location.
#[derive(Debug)]
pub enum Parameter {
    Query {
        parameter_data: ParameterData,
        allow_reserved: bool,
        style: QueryStyle,
        allow_empty_value: Option<bool>,
    },
    Header { parameter_data: ParameterData, style: HeaderStyle },
    Path { parameter_data: ParameterData, style: PathStyle },
    Cookie { parameter_data: ParameterData, style: CookieStyle },
}

/// Mirror of [`Parameter`].
pub enum ParameterV {
    Query {
        parameter_data: ParameterDataV,
        allow_reserved: bool,
        style: QueryStyle,
        allow_empty_value: Option<bool>,
    },
    Header { parameter_data: ParameterDataV, style: HeaderStyle },
    Path { parameter_data: ParameterDataV, style: PathStyle },
    Cookie { parameter_data: ParameterDataV, style: CookieStyle },
}

impl View for Parameter {
    type V = ParameterV;

    open spec fn view(&self) -> ParameterV {
        match self {
            Parameter::Query { parameter_data, allow_reserved, style, allow_empty_value } => {
                ParameterV::Query {
                    parameter_data: parameter_data@,
                    allow_reserved: *allow_reserved,
                    style: *style,
                    allow_empty_value: *allow_empty_value,
                }
            },
            Parameter::Header { parameter_data, style } => ParameterV::Header {
                parameter_data: parameter_data@,
                style: *style,
            },
            Parameter::Path { parameter_data, style } => ParameterV::Path {
                parameter_data: parameter_data@,
                style: *style,
            },
            Parameter::Cookie { parameter_data, style } => ParameterV::Cookie {
                parameter_data: parameter_data@,
                style: *style,
            },
        }
    }
}

/// One media-type entry of a body's content map.
#[derive(Debug)]
pub struct MediaType {
    pub schema: Option<Schema>,
    pub has_extensions: bool,
}

/// Mirror of [`MediaType`].
pub struct MediaTypeV {
    pub schema: Option<SchemaV>,
    pub has_extensions: bool,
}

impl View for MediaType {
    type V = MediaTypeV;

    open spec fn view(&self) -> MediaTypeV {
        MediaTypeV {
            schema: match &self.schema {
                Some(s) => Some(schema_view(*s)),
                None => None,
            },
            has_extensions: self.has_extensions,
        }
    }
}

/// One entry of a content map: a media type name and its body description.
#[derive(Debug)]
pub struct ContentEntry {
    pub media_type: String,
    pub body: MediaType,
}

/// Mirror of [`ContentEntry`].
pub struct ContentEntryV {
    pub media_type: Seq<char>,
    pub body: MediaTypeV,
}

impl View for ContentEntry {
    type V = ContentEntryV;

    open spec fn view(&self) -> ContentEntryV {
        ContentEntryV { media_type: self.media_type@, body: self.body@ }
    }
}

/// A declared request body.
#[derive(Debug)]
pub struct RequestBody {
    pub content: Vec<ContentEntry>,
    pub required: bool,
    pub has_extensions: bool,
}

/// Mirror of [`RequestBody`].
pub struct RequestBodyV {
    pub content: Seq<ContentEntryV>,
    pub required: bool,
    pub has_extensions: bool,
}

impl View for RequestBody {
    type V = RequestBodyV;

    open spec fn view(&self) -> RequestBodyV {
        RequestBodyV {
            content: self.content@.map_values(|c: ContentEntry| c@),
            required: self.required,
            has_extensions: self.has_extensions,
        }
    }
}

/// A declared response.
#[derive(Debug)]
pub struct Response {
    pub content: Vec<ContentEntry>,
    pub has_extensions: bool,
}

/// Mirror of [`Response`].
pub struct ResponseV {
    pub content: Seq<ContentEntryV>,
    pub has_extensions: bool,
}

impl View for Response {
    type V = ResponseV;

    open spec fn view(&self) -> ResponseV {
        ResponseV {
            content: self.content@.map_values(|c: ContentEntry| c@),
            has_extensions: self.has_extensions,
        }
    }
}

/// A response key: an explicit status code, or a range such as `2XX`.
#[derive(Clone, Copy, Debug, PartialEq, Eq, Structural)]
pub enum StatusCode {
    Code(u16),
    Range(u16),
}

/// One entry of the status-code-keyed response table.
#[derive(Debug)]
pub struct ResponseEntry {
    pub status: StatusCode,
    pub response: RefOr<Response>,
}

/// Mirror of [`ResponseEntry`].
pub struct ResponseEntryV {
    pub status: StatusCode,
    pub response: RefOrV<ResponseV>,
}

impl View for ResponseEntry {
    type V = ResponseEntryV;

    open spec fn view(&self) -> ResponseEntryV {
        ResponseEntryV { status: self.status, response: self.response@ }
    }
}

/// An operation's declared responses.
#[derive(Debug)]
pub struct Responses {
    pub has_default: bool,
    pub responses: Vec<ResponseEntry>,
    pub has_extensions: bool,
}

/// Mirror of [`Responses`].
pub struct ResponsesV {
    pub has_default: bool,
    pub responses: Seq<ResponseEntryV>,
    pub has_extensions: bool,
}

impl View for Responses {
    type V = ResponsesV;

    open spec fn view(&self) -> ResponsesV {
        ResponsesV {
            has_default: self.has_default,
            responses: self.responses@.map_values(|r: ResponseEntry| r@),
            has_extensions: self.has_extensions,
        }
    }
}

/// One operation node of the input document.
#[derive(Debug)]
pub struct Operation {
    pub operation_id: Option<String>,
    pub description: Option<String>,
    pub parameters: Vec<RefOr<Parameter>>,
    pub request_body: Option<RefOr<RequestBody>>,
    pub responses: Option<Responses>,
}

/// Mirror of [`Operation`].
pub struct OperationV {
    pub operation_id: Option<Seq<char>>,
    pub description: Option<Seq<char>>,
    pub parameters: Seq<RefOrV<ParameterV>>,
    pub request_body: Option<RefOrV<RequestBodyV>>,
    pub responses: Option<ResponsesV>,
}

impl View for Operation {
    type V = OperationV;

    open spec fn view(&self) -> OperationV {
        OperationV {
            operation_id: opt_str_view(self.operation_id),
            description: opt_str_view(self.description),
            parameters: self.parameters@.map_values(|p: RefOr<Parameter>| p@),
            request_body: match &self.request_body {
                Some(b) => Some(b@),
                None => None,
            },
            responses: match &self.responses {
                Some(r) => Some(r@),
                None => None,
            },
        }
    }
}

/// One (method, operation) pair of a path item, in document order.
#[derive(Debug)]
pub struct MethodOp {
    pub method: String,
    pub operation: Operation,
}

/// Mirror of [`MethodOp`].
pub struct MethodOpV {
    pub method: Seq<char>,
    pub operation: OperationV,
}

impl View for MethodOp {
    type V = MethodOpV;

    open spec fn view(&self) -> MethodOpV {
        MethodOpV { method: self.method@, operation: self.operation@ }
    }
}

/// One path item: its own parameters, and its operations.
#[derive(Debug)]
pub struct PathItem {
    pub parameters: Vec<RefOr<Parameter>>,
    pub operations: Vec<MethodOp>,
}

/// Mirror of [`PathItem`].
pub struct PathItemV {
    pub parameters: Seq<RefOrV<ParameterV>>,
    pub operations: Seq<MethodOpV>,
}

impl View for PathItem {
    type V = PathItemV;

    open spec fn view(&self) -> PathItemV {
        PathItemV {
            parameters: self.parameters@.map_values(|p: RefOr<Parameter>| p@),
            operations: self.operations@.map_values(|m: MethodOp| m@),
        }
    }
}

/// One entry of the document's path table.
#[derive(Debug)]
pub struct PathEntry {
    pub path: String,
    pub item: RefOr<PathItem>,
}

/// Mirror of [`PathEntry`].
pub struct PathEntryV {
    pub path: Seq<char>,
    pub item: RefOrV<PathItemV>,
}

impl View for PathEntry {
    type V = PathEntryV;

    open spec fn view(&self) -> PathEntryV {
        PathEntryV { path: self.path@, item: self.item@ }
    }
}

/// One entry of the document's component-schema table.
#[derive(Debug)]
pub struct ComponentEntry {
    pub name: String,
    pub schema: Schema,
}

/// Mirror of [`ComponentEntry`].
pub struct ComponentEntryV {
    pub name: Seq<char>,
    pub schema: SchemaV,
}

impl View for ComponentEntry {
    type V = ComponentEntryV;

    open spec fn view(&self) -> ComponentEntryV {
        ComponentEntryV { name: self.name@, schema: schema_view(self.schema) }
    }
}

} // verus!
