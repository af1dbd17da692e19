//! Extraction of one operation: validates and extracts an operation
//! node's identifier, parameters and body references into a normalized
//! operation record, or signals that the operation is skipped, or that
//! the whole compilation must abort.

use vstd::prelude::*;

use crate::diag::{Diagnostic, Severity, extends, push_diag};
use crate::document::{
    ContentEntryV, MediaTypeV, Parameter, ParameterData, ParameterDataV,
    ParameterSchemaOrContent, ParameterSchemaOrContentV, ParameterV, PathStyle, QueryStyle,
    HeaderStyle, RefOr, RefOrV, RequestBodyV, Response, ResponseEntry, ResponseEntryV, ResponseV,
    ResponsesV, StatusCode,
};
use crate::field_type::{
    FieldType, FieldTypeV, spec_field_type_of_format, field_type_result_view,
};
use crate::schema::{InstanceType, Schema, SchemaV, TypeSet, TypeSetV, opt_str_view};
use crate::strutil::{
    count_matches, count_matches_exec, get_schema_name, opt_schema_name, split3, split3_exec,
    str_eq, str_views, template_params, template_params_exec,
};

verus! {

/// A fatal condition: the document is malformed enough that partial
/// output would be misleading, so the whole compilation aborts.
#[derive(Clone, Copy, Debug, PartialEq, Eq, Structural)]
pub enum FatalError {
    /// A `$ref` path item.
    RefPathItem,
    /// A request body not marked required.
    RequestBodyNotRequired,
    /// Extensions on a request body.
    RequestBodyExtensions,
    /// A request body without exactly one content entry.
    RequestBodyContentCount,
    /// A request body whose single content entry is not JSON.
    RequestBodyNotJson,
    /// Extensions on a request body's media type entry.
    RequestBodyMediaExtensions,
    /// A request body's JSON entry without a schema.
    RequestBodyNoSchema,
    /// A `default` response entry.
    ResponsesDefault,
    /// Extensions on the response table.
    ResponsesExtensions,
    /// No response with a status code in the success range.
    NoSuccessResponse,
    /// Extensions on a response.
    ResponseExtensions,
    /// A non-empty response with more than one content entry.
    ResponseContentCount,
    /// A response whose single content entry is not JSON.
    ResponseNotJson,
    /// Extensions on a response's media type entry.
    ResponseMediaExtensions,
    /// A response's JSON entry without a schema.
    ResponseNoSchema,
    /// Two success responses that disagree on the body schema.
    SuccessResponseMismatch,
}

/// A header parameter of an operation; its value is an opaque string.
#[derive(Debug)]
pub struct HeaderParam {
    pub name: String,
    pub required: bool,
}

/// Mirror of [`HeaderParam`].
pub struct HeaderParamV {
    pub name: Seq<char>,
    pub required: bool,
}

impl View for HeaderParam {
    type V = HeaderParamV;

    open spec fn view(&self) -> HeaderParamV {
        HeaderParamV { name: self.name@, required: self.required }
    }
}

/// A query parameter of an operation, with its resolved field type.
#[derive(Debug)]
pub struct QueryParam {
    pub name: String,
    pub description: Option<String>,
    pub required: bool,
    pub ty: FieldType,
}

/// Mirror of [`QueryParam`].
pub struct QueryParamV {
    pub name: Seq<char>,
    pub description: Option<Seq<char>>,
    pub required: bool,
    pub ty: FieldTypeV,
}

impl View for QueryParam {
    type V = QueryParamV;

    open spec fn view(&self) -> QueryParamV {
        QueryParamV {
            name: self.name@,
            description: opt_str_view(self.description),
            required: self.required,
            ty: self.ty@,
        }
    }
}

/// A named HTTP endpoint of the intermediate representation.
#[derive(Debug)]
pub struct Operation {
    /// The operation ID from the spec.
    pub id: String,
    /// The name to use for the operation in code: the third ID segment.
    pub name: String,
    /// Description of the operation to use for documentation.
    pub description: Option<String>,
    /// The HTTP method token, lower case.
    pub method: String,
    /// The operation's endpoint path template.
    pub path: String,
    /// Path parameters; only required string-typed ones are supported.
    pub path_params: Vec<String>,
    /// Header parameters; only string-typed ones are supported.
    pub header_params: Vec<HeaderParam>,
    /// Query parameters.
    pub query_params: Vec<QueryParam>,
    /// Name of the request body type, if any.
    pub request_body_schema_name: Option<String>,
    /// Name of the response body type, if any.
    pub response_body_schema_name: Option<String>,
}

/// Mirror of [`Operation`].
pub struct OperationV {
    pub id: Seq<char>,
    pub name: Seq<char>,
    pub description: Option<Seq<char>>,
    pub method: Seq<char>,
    pub path: Seq<char>,
    pub path_params: Seq<Seq<char>>,
    pub header_params: Seq<HeaderParamV>,
    pub query_params: Seq<QueryParamV>,
    pub request_body_schema_name: Option<Seq<char>>,
    pub response_body_schema_name: Option<Seq<char>>,
}

impl View for Operation {
    type V = OperationV;

    open spec fn view(&self) -> OperationV {
        OperationV {
            id: self.id@,
            name: self.name@,
            description: opt_str_view(self.description),
            method: self.method@,
            path: self.path@,
            path_params: str_views(self.path_params@),
            header_params: self.header_params@.map_values(|h: HeaderParam| h@),
            query_params: self.query_params@.map_values(|q: QueryParam| q@),
            request_body_schema_name: opt_str_view(self.request_body_schema_name),
            response_body_schema_name: opt_str_view(self.response_body_schema_name),
        }
    }
}

/// An operation identifier is valid when it splits into exactly three
/// dot-separated segments and the first is the version tag `v1`.
pub open spec fn valid_op_id(id: Seq<char>) -> bool {
    match split3(id) {
        Some(segs) => segs.0 == "v1"@,
        None => false,
    }
}

/// A parameter's schema is acceptable for path and header parameters
/// when it is an inline schema object declaring instance type `string`.
pub open spec fn spec_string_param_ok(format: ParameterSchemaOrContentV) -> bool {
    match format {
        ParameterSchemaOrContentV::Content => false,
        ParameterSchemaOrContentV::Schema(SchemaV::Bool(_)) => false,
        ParameterSchemaOrContentV::Schema(SchemaV::Object(o)) => o.instance_type == Some(
            TypeSetV::One(InstanceType::String),
        ),
    }
}

/// Checks that a path or header parameter is a plain string parameter.
pub fn enforce_string_parameter(parameter_data: &ParameterData) -> (b: bool)
    ensures
        b == spec_string_param_ok(parameter_data@.format),
{
    match &parameter_data.format {
        ParameterSchemaOrContent::Content => false,
        ParameterSchemaOrContent::Schema(Schema::Bool(_)) => false,
        ParameterSchemaOrContent::Schema(Schema::Object(o)) => matches!(
            &o.instance_type,
            Some(TypeSet::One(InstanceType::String)),
        ),
    }
}

/// The three parameter lists accumulated while walking an operation's
/// declared parameters.
pub struct ParamsV {
    pub path_params: Seq<Seq<char>>,
    pub header_params: Seq<HeaderParamV>,
    pub query_params: Seq<QueryParamV>,
}

/// Walks the declared parameters from position `k` with `acc` already
/// collected. `None` means the whole operation is dropped.
pub open spec fn spec_collect_params(
    params: Seq<RefOrV<ParameterV>>,
    k: int,
    acc: ParamsV,
) -> Option<ParamsV>
    decreases params.len() - k,
{
    if k < 0 || k >= params.len() {
        Some(acc)
    } else {
        match params[k] {
            RefOrV::Reference { .. } => None,
            RefOrV::Item(ParameterV::Path { parameter_data, style: PathStyle::Simple }) => {
                if !parameter_data.required {
                    None
                } else if !spec_string_param_ok(parameter_data.format) {
                    None
                } else {
                    spec_collect_params(
                        params,
                        k + 1,
                        ParamsV {
                            path_params: acc.path_params.push(parameter_data.name),
                            header_params: acc.header_params,
                            query_params: acc.query_params,
                        },
                    )
                }
            },
            RefOrV::Item(ParameterV::Header { parameter_data, style: HeaderStyle::Simple }) => {
                if !spec_string_param_ok(parameter_data.format) {
                    None
                } else {
                    spec_collect_params(
                        params,
                        k + 1,
                        ParamsV {
                            path_params: acc.path_params,
                            header_params: acc.header_params.push(
                                HeaderParamV {
                                    name: parameter_data.name,
                                    required: parameter_data.required,
                                },
                            ),
                            query_params: acc.query_params,
                        },
                    )
                }
            },
            RefOrV::Item(
                ParameterV::Query {
                    parameter_data,
                    allow_reserved: false,
                    style: QueryStyle::Form,
                    allow_empty_value: None,
                },
            ) => {
                match spec_field_type_of_format(parameter_data.format) {
                    Err(_) => None,
                    Ok(t) => spec_collect_params(
                        params,
                        k + 1,
                        ParamsV {
                            path_params: acc.path_params,
                            header_params: acc.header_params,
                            query_params: acc.query_params.push(
                                QueryParamV {
                                    name: parameter_data.name,
                                    description: parameter_data.description,
                                    required: parameter_data.required,
                                    ty: t,
                                },
                            ),
                        },
                    ),
                }
            },
            RefOrV::Item(_) => None,
        }
    }
}

/// Every placeholder in the path template must appear exactly once among
/// the collected required string path parameters.
pub open spec fn spec_template_ok(path: Seq<char>, path_params: Seq<Seq<char>>) -> bool {
    forall|t: Seq<char>|
        template_params(path).contains(t) ==> count_matches(path_params, t) == 1
}

/// The body schema name carried by one response, or a fatal condition.
pub open spec fn spec_response_body_name(resp: RefOrV<ResponseV>) -> Result<
    Option<Seq<char>>,
    FatalError,
> {
    match resp {
        RefOrV::Reference { .. } => Ok(None),
        RefOrV::Item(body) => {
            if body.has_extensions {
                Err(FatalError::ResponseExtensions)
            } else if body.content.len() == 0 {
                Ok(None)
            } else if body.content.len() != 1 {
                Err(FatalError::ResponseContentCount)
            } else {
                let entry = body.content[0];
                if entry.media_type != "application/json"@ {
                    Err(FatalError::ResponseNotJson)
                } else if entry.body.has_extensions {
                    Err(FatalError::ResponseMediaExtensions)
                } else {
                    match entry.body.schema {
                        None => Err(FatalError::ResponseNoSchema),
                        Some(SchemaV::Bool(_)) => Ok(None),
                        Some(SchemaV::Object(o)) => Ok(opt_schema_name(o.reference)),
                    }
                }
            }
        },
    }
}

/// The name carried by a request body, or a fatal condition.
pub open spec fn spec_request_body_name(rb: Option<RefOrV<RequestBodyV>>) -> Result<
    Option<Seq<char>>,
    FatalError,
> {
    match rb {
        None => Ok(None),
        Some(RefOrV::Reference { .. }) => Ok(None),
        Some(RefOrV::Item(body)) => {
            if !body.required {
                Err(FatalError::RequestBodyNotRequired)
            } else if body.has_extensions {
                Err(FatalError::RequestBodyExtensions)
            } else if body.content.len() != 1 {
                Err(FatalError::RequestBodyContentCount)
            } else {
                let entry = body.content[0];
                if entry.media_type != "application/json"@ {
                    Err(FatalError::RequestBodyNotJson)
                } else if entry.body.has_extensions {
                    Err(FatalError::RequestBodyMediaExtensions)
                } else {
                    match entry.body.schema {
                        None => Err(FatalError::RequestBodyNoSchema),
                        Some(SchemaV::Bool(_)) => Ok(None),
                        Some(SchemaV::Object(o)) => Ok(opt_schema_name(o.reference)),
                    }
                }
            }
        },
    }
}

/// Whether a response key is an explicit code in the success range.
pub open spec fn is_success(st: StatusCode) -> bool {
    match st {
        StatusCode::Code(c) => 200 <= c < 300,
        StatusCode::Range(_) => false,
    }
}

/// Walks the response entries from position `k`. `acc` is the agreed
/// body schema name of the success responses seen so far, if any was
/// seen. All success responses must agree, else the compilation aborts.
pub open spec fn spec_scan_responses(
    entries: Seq<ResponseEntryV>,
    k: int,
    acc: Option<Option<Seq<char>>>,
) -> Result<Option<Seq<char>>, FatalError>
    decreases entries.len() - k,
{
    if k < 0 || k >= entries.len() {
        match acc {
            None => Err(FatalError::NoSuccessResponse),
            Some(n) => Ok(n),
        }
    } else {
        let e = entries[k];
        if !is_success(e.status) {
            spec_scan_responses(entries, k + 1, acc)
        } else {
            match spec_response_body_name(e.response) {
                Err(err) => Err(err),
                Ok(nk) => match acc {
                    None => spec_scan_responses(entries, k + 1, Some(nk)),
                    Some(n0) => if nk != n0 {
                        Err(FatalError::SuccessResponseMismatch)
                    } else {
                        spec_scan_responses(entries, k + 1, acc)
                    },
                },
            }
        }
    }
}

/// The response body schema name of an operation's response table.
pub open spec fn spec_responses_name(responses: Option<ResponsesV>) -> Result<
    Option<Seq<char>>,
    FatalError,
> {
    match responses {
        None => Ok(None),
        Some(r) => {
            if r.has_default {
                Err(FatalError::ResponsesDefault)
            } else if r.has_extensions {
                Err(FatalError::ResponsesExtensions)
            } else {
                spec_scan_responses(r.responses, 0, None)
            }
        },
    }
}

/// What operation extraction returns, stated over the mirrors.
pub open spec fn spec_extract_operation(
    path: Seq<char>,
    method: Seq<char>,
    op: crate::document::OperationV,
) -> Result<Option<(Seq<char>, OperationV)>, FatalError> {
    match op.operation_id {
        None => Ok(None),
        Some(id) => match split3(id) {
            None => Ok(None),
            Some(segs) => {
                if segs.0 != "v1"@ {
                    Ok(None)
                } else {
                    match spec_collect_params(
                        op.parameters,
                        0,
                        ParamsV {
                            path_params: Seq::empty(),
                            header_params: Seq::empty(),
                            query_params: Seq::empty(),
                        },
                    ) {
                        None => Ok(None),
                        Some(params) => {
                            if !spec_template_ok(path, params.path_params) {
                                Ok(None)
                            } else {
                                match spec_request_body_name(op.request_body) {
                                    Err(e) => Err(e),
                                    Ok(req_name) => match spec_responses_name(op.responses) {
                                        Err(e) => Err(e),
                                        Ok(resp_name) => Ok(
                                            Some(
                                                (
                                                    segs.1,
                                                    OperationV {
                                                        id: id,
                                                        name: segs.2,
                                                        description: op.description,
                                                        method: method,
                                                        path: path,
                                                        path_params: params.path_params,
                                                        header_params: params.header_params,
                                                        query_params: params.query_params,
                                                        request_body_schema_name: req_name,
                                                        response_body_schema_name: resp_name,
                                                    },
                                                ),
                                            ),
                                        ),
                                    },
                                }
                            }
                        },
                    }
                }
            },
        },
    }
}

/// An operation identifier that does not split as `v1.<resource>.<op>`
/// — wrong segment count or wrong version tag — makes the extractor
/// skip the operation: the result is `Ok(None)`, never a fatal error.
pub proof fn lemma_invalid_op_id_skipped(
    path: Seq<char>,
    method: Seq<char>,
    op: crate::document::OperationV,
    id: Seq<char>,
)
    requires
        op.operation_id == Some(id),
        !valid_op_id(id),
    ensures
        spec_extract_operation(path, method, op) == Ok::<Option<(Seq<char>, OperationV)>, FatalError>(
            None,
        ),
{
}

/// A declared path parameter that is not a required, simple-style,
/// plain-string parameter.
pub open spec fn bad_path_param(p: RefOrV<ParameterV>) -> bool {
    match p {
        RefOrV::Item(ParameterV::Path { parameter_data, style }) => !(style == PathStyle::Simple
            && parameter_data.required && spec_string_param_ok(parameter_data.format)),
        _ => false,
    }
}

proof fn lemma_collect_params_none(
    params: Seq<RefOrV<ParameterV>>,
    j: int,
    k: int,
    acc: ParamsV,
)
    requires
        0 <= j <= k < params.len(),
        bad_path_param(params[k]),
    ensures
        spec_collect_params(params, j, acc) is None,
    decreases k - j,
{
    if j == k {
        match params[k] {
            RefOrV::Item(ParameterV::Path { parameter_data, style }) => {
                if style == PathStyle::Simple {
                } else {
                }
            },
            _ => {},
        }
    } else {
        match params[j] {
            RefOrV::Reference { .. } => {},
            RefOrV::Item(ParameterV::Path { parameter_data, style: PathStyle::Simple }) => {
                if parameter_data.required && spec_string_param_ok(parameter_data.format) {
                    lemma_collect_params_none(
                        params,
                        j + 1,
                        k,
                        ParamsV {
                            path_params: acc.path_params.push(parameter_data.name),
                            header_params: acc.header_params,
                            query_params: acc.query_params,
                        },
                    );
                }
            },
            RefOrV::Item(ParameterV::Header { parameter_data, style: HeaderStyle::Simple }) => {
                if spec_string_param_ok(parameter_data.format) {
                    lemma_collect_params_none(
                        params,
                        j + 1,
                        k,
                        ParamsV {
                            path_params: acc.path_params,
                            header_params: acc.header_params.push(
                                HeaderParamV {
                                    name: parameter_data.name,
                                    required: parameter_data.required,
                                },
                            ),
                            query_params: acc.query_params,
                        },
                    );
                }
            },
            RefOrV::Item(
                ParameterV::Query {
                    parameter_data,
                    allow_reserved: false,
                    style: QueryStyle::Form,
                    allow_empty_value: None,
                },
            ) => {
                match spec_field_type_of_format(parameter_data.format) {
                    Err(_) => {},
                    Ok(t) => {
                        lemma_collect_params_none(
                            params,
                            j + 1,
                            k,
                            ParamsV {
                                path_params: acc.path_params,
                                header_params: acc.header_params,
                                query_params: acc.query_params.push(
                                    QueryParamV {
                                        name: parameter_data.name,
                                        description: parameter_data.description,
                                        required: parameter_data.required,
                                        ty: t,
                                    },
                                ),
                            },
                        );
                    },
                }
            },
            RefOrV::Item(_) => {},
        }
    }
}

/// A declared path parameter that is not required-and-string-typed
/// drops the enclosing operation entirely — not just the parameter —
/// and never raises a fatal error.
pub proof fn lemma_bad_path_param_drops_operation(
    path: Seq<char>,
    method: Seq<char>,
    op: crate::document::OperationV,
    k: int,
)
    requires
        0 <= k < op.parameters.len(),
        bad_path_param(op.parameters[k]),
    ensures
        spec_extract_operation(path, method, op) == Ok::<Option<(Seq<char>, OperationV)>, FatalError>(
            None,
        ),
{
    match op.operation_id {
        None => {},
        Some(id) => {
            match split3(id) {
                None => {},
                Some(segs) => {
                    if segs.0 == "v1"@ {
                        lemma_collect_params_none(
                            op.parameters,
                            0,
                            k,
                            ParamsV {
                                path_params: Seq::empty(),
                                header_params: Seq::empty(),
                                query_params: Seq::empty(),
                            },
                        );
                    }
                },
            }
        },
    }
}

proof fn lemma_scan_agree(
    entries: Seq<ResponseEntryV>,
    k: int,
    n0: Option<Seq<char>>,
    acc: Option<Option<Seq<char>>>,
)
    requires
        0 <= k <= entries.len(),
        acc == Some(n0) || (acc is None && exists|i: int|
            k <= i < entries.len() && is_success(#[trigger] entries[i].status)),
        forall|i: int|
            k <= i < entries.len() && is_success(#[trigger] entries[i].status)
                ==> spec_response_body_name(entries[i].response) == Ok::<
                Option<Seq<char>>,
                FatalError,
            >(n0),
    ensures
        spec_scan_responses(entries, k, acc) == Ok::<Option<Seq<char>>, FatalError>(n0),
    decreases entries.len() - k,
{
    if k < entries.len() {
        if is_success(entries[k].status) {
            lemma_scan_agree(entries, k + 1, n0, Some(n0));
        } else {
            if acc is None {
                let i = choose|i: int|
                    k <= i < entries.len() && is_success(#[trigger] entries[i].status);
                assert(k + 1 <= i < entries.len() && is_success(entries[i].status));
            }
            lemma_scan_agree(entries, k + 1, n0, acc);
        }
    }
}

/// If every success response of the table resolves to the same body
/// schema name — including the case that all have no body — and at
/// least one success response exists, the resolution succeeds with
/// exactly that agreed name.
pub proof fn lemma_success_responses_agree(r: ResponsesV, n0: Option<Seq<char>>)
    requires
        !r.has_default,
        !r.has_extensions,
        exists|i: int| 0 <= i < r.responses.len() && is_success(#[trigger] r.responses[i].status),
        forall|i: int|
            0 <= i < r.responses.len() && is_success(#[trigger] r.responses[i].status)
                ==> spec_response_body_name(r.responses[i].response) == Ok::<
                Option<Seq<char>>,
                FatalError,
            >(n0),
    ensures
        spec_responses_name(Some(r)) == Ok::<Option<Seq<char>>, FatalError>(n0),
{
    lemma_scan_agree(r.responses, 0, n0, None);
}

proof fn lemma_scan_mismatch(entries: Seq<ResponseEntryV>, k: int, acc: Option<Option<Seq<char>>>)
    requires
        0 <= k <= entries.len(),
        forall|i: int|
            k <= i < entries.len() && is_success(#[trigger] entries[i].status)
                ==> spec_response_body_name(entries[i].response) is Ok,
        match acc {
            Some(n0) => exists|i: int|
                k <= i < entries.len() && is_success(#[trigger] entries[i].status)
                    && spec_response_body_name(entries[i].response) != Ok::<
                    Option<Seq<char>>,
                    FatalError,
                >(n0),
            None => exists|i: int, j: int|
                k <= i < j < entries.len() && is_success(#[trigger] entries[i].status)
                    && is_success(#[trigger] entries[j].status) && spec_response_body_name(
                    entries[i].response,
                ) != spec_response_body_name(entries[j].response),
        },
    ensures
        spec_scan_responses(entries, k, acc) is Err,
    decreases entries.len() - k,
{
    if is_success(entries[k].status) {
        let nk = spec_response_body_name(entries[k].response)->Ok_0;
        match acc {
            Some(n0) => {
                if nk != n0 {
                } else {
                    let i = choose|i: int|
                        k <= i < entries.len() && is_success(#[trigger] entries[i].status)
                            && spec_response_body_name(entries[i].response) != Ok::<
                            Option<Seq<char>>,
                            FatalError,
                        >(n0);
                    assert(i != k);
                    lemma_scan_mismatch(entries, k + 1, acc);
                }
            },
            None => {
                let (i, j) = choose|i: int, j: int|
                    k <= i < j < entries.len() && is_success(#[trigger] entries[i].status)
                        && is_success(#[trigger] entries[j].status) && spec_response_body_name(
                        entries[i].response,
                    ) != spec_response_body_name(entries[j].response);
                if spec_response_body_name(entries[i].response) != Ok::<
                    Option<Seq<char>>,
                    FatalError,
                >(nk) {
                    assert(k + 1 <= i < entries.len() && is_success(entries[i].status)
                        && spec_response_body_name(entries[i].response) != Ok::<
                        Option<Seq<char>>,
                        FatalError,
                    >(nk));
                } else {
                    assert(k + 1 <= j < entries.len() && is_success(entries[j].status)
                        && spec_response_body_name(entries[j].response) != Ok::<
                        Option<Seq<char>>,
                        FatalError,
                    >(nk));
                }
                lemma_scan_mismatch(entries, k + 1, Some(nk));
            },
        }
    } else {
        match acc {
            Some(n0) => {
                let i = choose|i: int|
                    k <= i < entries.len() && is_success(#[trigger] entries[i].status)
                        && spec_response_body_name(entries[i].response) != Ok::<
                        Option<Seq<char>>,
                        FatalError,
                    >(n0);
                assert(i != k);
            },
            None => {
                let (i, j) = choose|i: int, j: int|
                    k <= i < j < entries.len() && is_success(#[trigger] entries[i].status)
                        && is_success(#[trigger] entries[j].status) && spec_response_body_name(
                        entries[i].response,
                    ) != spec_response_body_name(entries[j].response);
                assert(i != k);
                assert(k + 1 <= i < j < entries.len());
            },
        }
        lemma_scan_mismatch(entries, k + 1, acc);
    }
}

/// Two success responses whose body schema references differ make the
/// response-name resolution fail fatally, provided each success
/// response is by itself structurally valid.
pub proof fn lemma_success_responses_disagree(r: ResponsesV, i: int, j: int)
    requires
        0 <= i < j < r.responses.len(),
        is_success(r.responses[i].status),
        is_success(r.responses[j].status),
        forall|m: int|
            0 <= m < r.responses.len() && is_success(#[trigger] r.responses[m].status)
                ==> spec_response_body_name(r.responses[m].response) is Ok,
        spec_response_body_name(r.responses[i].response) != spec_response_body_name(
            r.responses[j].response,
        ),
    ensures
        spec_responses_name(Some(r)) is Err,
{
    if !r.has_default && !r.has_extensions {
        lemma_scan_mismatch(r.responses, 0, None);
    }
}

/// Response disagreement lifted to the whole extraction: for an
/// operation that reaches response processing — a valid `v1` identifier,
/// parameters that collect, a matching path template, a request body
/// that resolves — two success responses that disagree on the body
/// schema make the extraction itself fail fatally. Without the first
/// premises the operation would be skipped before its responses are
/// read.
pub proof fn lemma_response_disagreement_fatal_for_operation(
    path: Seq<char>,
    method: Seq<char>,
    op: crate::document::OperationV,
    i: int,
    j: int,
)
    requires
        op.operation_id is Some,
        valid_op_id(op.operation_id->Some_0),
        ({
            let collected = spec_collect_params(
                op.parameters,
                0,
                (ParamsV {
                    path_params: Seq::empty(),
                    header_params: Seq::empty(),
                    query_params: Seq::empty(),
                }),
            );
            collected is Some && spec_template_ok(path, collected->Some_0.path_params)
        }),
        spec_request_body_name(op.request_body) is Ok,
        op.responses is Some,
        ({
            let r = op.responses->Some_0;
            &&& 0 <= i < j < r.responses.len()
            &&& is_success(r.responses[i].status)
            &&& is_success(r.responses[j].status)
            &&& forall|m: int|
                0 <= m < r.responses.len() && is_success(#[trigger] r.responses[m].status)
                    ==> spec_response_body_name(r.responses[m].response) is Ok
            &&& spec_response_body_name(r.responses[i].response) != spec_response_body_name(
                r.responses[j].response,
            )
        }),
    ensures
        spec_extract_operation(path, method, op) is Err,
{
    lemma_success_responses_disagree(op.responses->Some_0, i, j);
}

/// The view of an extraction result.
pub open spec fn extract_result_view(r: Result<Option<(String, Operation)>, FatalError>) -> Result<
    Option<(Seq<char>, OperationV)>,
    FatalError,
> {
    match r {
        Ok(None) => Ok(None),
        Ok(Some((n, o))) => Ok(Some((n@, o@))),
        Err(e) => Err(e),
    }
}

/// Clones an optional string.
fn clone_opt_string(o: &Option<String>) -> (r: Option<String>)
    ensures
        r == *o,
{
    match o {
        Some(s) => Some(s.clone()),
        None => None,
    }
}

/// Compares two optional strings by content.
fn opt_str_eq(a: &Option<String>, b: &Option<String>) -> (r: bool)
    ensures
        r == (opt_str_view(*a) == opt_str_view(*b)),
{
    match (a, b) {
        (None, None) => true,
        (Some(x), Some(y)) => str_eq(x.as_str(), y.as_str()),
        _ => false,
    }
}

/// The body schema name carried by one response. A `$ref` response or a
/// response whose schema is not a component `$ref` yields no name, with
/// a diagnostic; structurally invalid responses abort the compilation.
pub fn response_body_schema_name(resp: &RefOr<Response>, diags: &mut Vec<Diagnostic>) -> (r:
    Result<Option<String>, FatalError>)
    ensures
        extends(old(diags)@, final(diags)@),
        match r {
            Ok(n) => spec_response_body_name(resp@) == Ok::<Option<Seq<char>>, FatalError>(
                opt_str_view(n),
            ),
            Err(e) => spec_response_body_name(resp@) == Err::<Option<Seq<char>>, FatalError>(e),
        },
{
    let body = match resp {
        RefOr::Reference { .. } => {
            push_diag(
                diags,
                Severity::Error,
                None,
                "$ref response bodies are not currently supported",
            );
            return Ok(None);
        },
        RefOr::Item(body) => body,
    };
    if body.has_extensions {
        return Err(FatalError::ResponseExtensions);
    }
    if body.content.len() == 0 {
        return Ok(None);
    }
    if body.content.len() != 1 {
        return Err(FatalError::ResponseContentCount);
    }
    let entry = &body.content[0];
    if !str_eq(entry.media_type.as_str(), "application/json") {
        return Err(FatalError::ResponseNotJson);
    }
    if entry.body.has_extensions {
        return Err(FatalError::ResponseMediaExtensions);
    }
    match &entry.body.schema {
        None => Err(FatalError::ResponseNoSchema),
        Some(Schema::Bool(_)) => {
            push_diag(diags, Severity::Error, None, "unexpected bool schema");
            Ok(None)
        },
        Some(Schema::Object(o)) => {
            if o.reference.is_none() {
                push_diag(diags, Severity::Error, None, "unexpected non-$ref json body schema");
            }
            Ok(get_schema_name(&o.reference))
        },
    }
}

impl Operation {
    /// Validates and extracts one operation node. `Ok(None)` means the
    /// operation is skipped; a fatal error aborts the compilation.
    #[verifier::loop_isolation(false)]
    pub fn from_openapi(
        path: &str,
        method: &str,
        op: &crate::document::Operation,
        diags: &mut Vec<Diagnostic>,
    ) -> (r: Result<Option<(String, Operation)>, FatalError>)
        ensures
            extends(old(diags)@, final(diags)@),
            extract_result_view(r) == spec_extract_operation(path@, method@, op@),
    {
        let ghost opv = op@;
        let op_id = match &op.operation_id {
            Some(id) => id.clone(),
            None => {
                return Ok(None);
            },
        };
        let segs = match split3_exec(op_id.as_str()) {
            Some(segs) => segs,
            None => {
                push_diag(
                    diags,
                    Severity::Debug,
                    Some(op_id),
                    "skipping operation whose ID does not have two dots",
                );
                return Ok(None);
            },
        };
        let (version, res_name, op_name) = segs;
        if !str_eq(version.as_str(), "v1") {
            push_diag(
                diags,
                Severity::Warn,
                Some(op_id),
                "found operation whose ID does not begin with v1",
            );
            return Ok(None);
        }

        let ghost paramsv = opv.parameters;
        let parameters = &op.parameters;
        let mut path_params: Vec<String> = Vec::new();
        let mut header_params: Vec<HeaderParam> = Vec::new();
        let mut query_params: Vec<QueryParam> = Vec::new();
        assert(str_views(path_params@) =~= Seq::<Seq<char>>::empty());
        assert(header_params@.map_values(|h: HeaderParam| h@) =~= Seq::<HeaderParamV>::empty());
        assert(query_params@.map_values(|q: QueryParam| q@) =~= Seq::<QueryParamV>::empty());
        let ghost acc0 = ParamsV {
            path_params: Seq::empty(),
            header_params: Seq::empty(),
            query_params: Seq::empty(),
        };
        let mut i: usize = 0;
        while i < parameters.len()
            invariant
                i <= parameters@.len(),
                paramsv == parameters@.map_values(|p: RefOr<Parameter>| p@),
                extends(old(diags)@, diags@),
                spec_collect_params(
                    paramsv,
                    i as int,
                    ParamsV {
                        path_params: str_views(path_params@),
                        header_params: header_params@.map_values(|h: HeaderParam| h@),
                        query_params: query_params@.map_values(|q: QueryParam| q@),
                    },
                ) == spec_collect_params(paramsv, 0, acc0),
            decreases parameters@.len() - i,
        {
            assert(paramsv[i as int] == parameters@[i as int]@);
            match &parameters[i] {
                RefOr::Reference { .. } => {
                    push_diag(
                        diags,
                        Severity::Warn,
                        None,
                        "$ref parameters are not currently supported",
                    );
                    return Ok(None);
                },
                RefOr::Item(Parameter::Path { parameter_data, style: PathStyle::Simple }) => {
                    if !parameter_data.required {
                        push_diag(
                            diags,
                            Severity::Warn,
                            Some(parameter_data.name.clone()),
                            "unsupported optional path parameter",
                        );
                        return Ok(None);
                    }
                    if !enforce_string_parameter(parameter_data) {
                        push_diag(
                            diags,
                            Severity::Warn,
                            Some(parameter_data.name.clone()),
                            "unsupported path parameter",
                        );
                        return Ok(None);
                    }
                    let ghost prev = str_views(path_params@);
                    let name = parameter_data.name.clone();
                    let ghost namev = name@;
                    path_params.push(name);
                    assert(str_views(path_params@) =~= prev.push(namev));
                },
                RefOr::Item(Parameter::Header { parameter_data, style: HeaderStyle::Simple }) => {
                    if !enforce_string_parameter(parameter_data) {
                        push_diag(
                            diags,
                            Severity::Warn,
                            Some(parameter_data.name.clone()),
                            "unsupported header parameter",
                        );
                        return Ok(None);
                    }
                    let ghost prev = header_params@.map_values(|h: HeaderParam| h@);
                    let hp = HeaderParam {
                        name: parameter_data.name.clone(),
                        required: parameter_data.required,
                    };
                    let ghost hpv = hp@;
                    header_params.push(hp);
                    assert(header_params@.map_values(|h: HeaderParam| h@) =~= prev.push(hpv));
                },
                RefOr::Item(
                    Parameter::Query {
                        parameter_data,
                        allow_reserved: false,
                        style: QueryStyle::Form,
                        allow_empty_value: None,
                    },
                ) => {
                    let ty = match FieldType::from_openapi(&parameter_data.format) {
                        Ok(t) => t,
                        Err(_) => {
                            push_diag(
                                diags,
                                Severity::Warn,
                                Some(parameter_data.name.clone()),
                                "unsupported query parameter type",
                            );
                            return Ok(None);
                        },
                    };
                    let ghost prev = query_params@.map_values(|q: QueryParam| q@);
                    let qp = QueryParam {
                        name: parameter_data.name.clone(),
                        description: clone_opt_string(&parameter_data.description),
                        required: parameter_data.required,
                        ty,
                    };
                    let ghost qpv = qp@;
                    query_params.push(qp);
                    assert(query_params@.map_values(|q: QueryParam| q@) =~= prev.push(qpv));
                },
                RefOr::Item(_) => {
                    push_diag(
                        diags,
                        Severity::Warn,
                        None,
                        "this kind of parameter is not currently supported",
                    );
                    return Ok(None);
                },
            }
            i += 1;
        }
        let ghost collected = ParamsV {
            path_params: str_views(path_params@),
            header_params: header_params@.map_values(|h: HeaderParam| h@),
            query_params: query_params@.map_values(|q: QueryParam| q@),
        };
        assert(spec_collect_params(paramsv, 0, acc0) == Some(collected));

        // Every path-template placeholder must match exactly one
        // declared (required, string-typed) path parameter.
        let tpl = template_params_exec(path);
        let mut k: usize = 0;
        while k < tpl.len()
            invariant
                k <= tpl@.len(),
                extends(old(diags)@, diags@),
                tpl@.map_values(|s: String| s@) == template_params(path@),
                forall|j: int| 0 <= j < k ==> count_matches(
                    collected.path_params,
                    #[trigger] template_params(path@)[j],
                ) == 1,
            decreases tpl@.len() - k,
        {
            let c = count_matches_exec(&path_params, tpl[k].as_str());
            if c != 1 {
                push_diag(
                    diags,
                    Severity::Warn,
                    Some(op_id),
                    "path template parameter not declared exactly once",
                );
                assert(template_params(path@).contains(tpl@.map_values(|s: String| s@)[k as int]));
                assert(!spec_template_ok(path@, collected.path_params));
                return Ok(None);
            }
            k += 1;
        }
        assert(spec_template_ok(path@, collected.path_params)) by {
            assert forall|t: Seq<char>|
                template_params(path@).contains(t) implies count_matches(
                collected.path_params,
                t,
            ) == 1 by {
                let j = choose|j: int|
                    0 <= j < template_params(path@).len() && template_params(path@)[j] == t;
                assert(tpl@.map_values(|s: String| s@)[j] == t);
            }
        }

        let request_body_schema_name = match &op.request_body {
            None => None,
            Some(RefOr::Reference { .. }) => {
                push_diag(
                    diags,
                    Severity::Error,
                    None,
                    "$ref request bodies are not currently supported",
                );
                None
            },
            Some(RefOr::Item(body)) => {
                if !body.required {
                    return Err(FatalError::RequestBodyNotRequired);
                }
                if body.has_extensions {
                    return Err(FatalError::RequestBodyExtensions);
                }
                if body.content.len() != 1 {
                    return Err(FatalError::RequestBodyContentCount);
                }
                let entry = &body.content[0];
                if !str_eq(entry.media_type.as_str(), "application/json") {
                    return Err(FatalError::RequestBodyNotJson);
                }
                if entry.body.has_extensions {
                    return Err(FatalError::RequestBodyMediaExtensions);
                }
                match &entry.body.schema {
                    None => {
                        return Err(FatalError::RequestBodyNoSchema);
                    },
                    Some(Schema::Bool(_)) => {
                        push_diag(diags, Severity::Error, None, "unexpected bool schema");
                        None
                    },
                    Some(Schema::Object(o)) => {
                        if o.reference.is_none() {
                            push_diag(
                                diags,
                                Severity::Error,
                                None,
                                "unexpected non-$ref json body schema",
                            );
                        }
                        get_schema_name(&o.reference)
                    },
                }
            },
        };
        assert(spec_request_body_name(opv.request_body) == Ok::<Option<Seq<char>>, FatalError>(
            opt_str_view(request_body_schema_name),
        ));

        let response_body_schema_name = match &op.responses {
            None => None,
            Some(resp_table) => {
                if resp_table.has_default {
                    return Err(FatalError::ResponsesDefault);
                }
                if resp_table.has_extensions {
                    return Err(FatalError::ResponsesExtensions);
                }
                let entries = &resp_table.responses;
                let ghost entriesv = entries@.map_values(|e: ResponseEntry| e@);
                let mut acc: Option<Option<String>> = None;
                let mut n: usize = 0;
                while n < entries.len()
                    invariant
                        n <= entries@.len(),
                        extends(old(diags)@, diags@),
                        entriesv == entries@.map_values(|e: ResponseEntry| e@),
                        spec_scan_responses(
                            entriesv,
                            n as int,
                            match acc {
                                None => None,
                                Some(a) => Some(opt_str_view(a)),
                            },
                        ) == spec_scan_responses(entriesv, 0, None),
                    decreases entries@.len() - n,
                {
                    assert(entriesv[n as int] == entries@[n as int]@);
                    let e = &entries[n];
                    let mut success = false;
                    match e.status {
                        StatusCode::Code(c) => {
                            if c < 100 {
                                push_diag(
                                    diags,
                                    Severity::Error,
                                    Some(op_id.clone()),
                                    "invalid status code below 100",
                                );
                            } else if c < 200 {
                                push_diag(
                                    diags,
                                    Severity::Error,
                                    Some(op_id.clone()),
                                    "unexpected informational status code",
                                );
                            } else if c < 300 {
                                success = true;
                            } else if c < 400 {
                                push_diag(
                                    diags,
                                    Severity::Error,
                                    Some(op_id.clone()),
                                    "unexpected redirection status code",
                                );
                            }
                        },
                        StatusCode::Range(_) => {
                            push_diag(
                                diags,
                                Severity::Error,
                                Some(op_id.clone()),
                                "unsupported status code range",
                            );
                        },
                    }
                    if success {
                        let name_n = match response_body_schema_name(&e.response, diags) {
                            Ok(nm) => nm,
                            Err(err) => {
                                return Err(err);
                            },
                        };
                        match &acc {
                            None => {
                                acc = Some(name_n);
                            },
                            Some(n0) => {
                                if !opt_str_eq(&name_n, n0) {
                                    return Err(FatalError::SuccessResponseMismatch);
                                }
                            },
                        }
                    }
                    n += 1;
                }
                match acc {
                    None => {
                        return Err(FatalError::NoSuccessResponse);
                    },
                    Some(nm) => nm,
                }
            },
        };
        assert(spec_responses_name(opv.responses) == Ok::<Option<Seq<char>>, FatalError>(
            opt_str_view(response_body_schema_name),
        ));

        let result = Operation {
            id: op_id,
            name: op_name,
            description: clone_opt_string(&op.description),
            method: method.to_owned(),
            path: path.to_owned(),
            path_params,
            header_params,
            query_params,
            request_body_schema_name,
            response_body_schema_name,
        };
        Ok(Some((res_name, result)))
    }
}

} // verus!
