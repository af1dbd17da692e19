use openapi_ir::api::Api;
use openapi_ir::diag::Diagnostic;
use openapi_ir::document::{
    ComponentEntry, ContentEntry, MediaType, MethodOp, Operation as OperationNode, Parameter,
    ParameterData, ParameterSchemaOrContent, PathEntry, PathItem, PathStyle, RefOr, RequestBody,
    Response, ResponseEntry, Responses, StatusCode,
};
use openapi_ir::field_type::FieldType;
use openapi_ir::operation::FatalError;
use openapi_ir::schema::{
    InstanceType, Metadata, ObjectValidation, Property, Schema, SchemaObject, TypeSet,
};
use openapi_ir::types::{TypeData, Types};

fn empty_object() -> SchemaObject {
    SchemaObject {
        metadata: None,
        instance_type: None,
        format: None,
        has_const_value: false,
        has_enum_values: false,
        reference: None,
        array: None,
        object: None,
    }
}

fn string_schema() -> Schema {
    Schema::Object(SchemaObject {
        instance_type: Some(TypeSet::One(InstanceType::String)),
        ..empty_object()
    })
}

fn path_param(name: &str) -> RefOr<Parameter> {
    RefOr::Item(Parameter::Path {
        parameter_data: ParameterData {
            name: name.to_string(),
            description: None,
            required: true,
            format: ParameterSchemaOrContent::Schema(string_schema()),
        },
        style: PathStyle::Simple,
    })
}

fn json_ref_response(code: u16, reference: &str) -> ResponseEntry {
    ResponseEntry {
        status: StatusCode::Code(code),
        response: RefOr::Item(Response {
            content: vec![ContentEntry {
                media_type: "application/json".to_string(),
                body: MediaType {
                    schema: Some(Schema::Object(SchemaObject {
                        reference: Some(reference.to_string()),
                        ..empty_object()
                    })),
                    has_extensions: false,
                },
            }],
            has_extensions: false,
        }),
    }
}

fn op_node(id: &str, params: Vec<RefOr<Parameter>>, responses: Option<Responses>) -> OperationNode {
    OperationNode {
        operation_id: Some(id.to_string()),
        description: None,
        parameters: params,
        request_body: None,
        responses,
    }
}

fn single_path(path: &str, method: &str, op: OperationNode) -> Vec<PathEntry> {
    vec![PathEntry {
        path: path.to_string(),
        item: RefOr::Item(PathItem {
            parameters: Vec::new(),
            operations: vec![MethodOp { method: method.to_string(), operation: op }],
        }),
    }]
}

fn foo_component() -> ComponentEntry {
    ComponentEntry {
        name: "Foo".to_string(),
        schema: Schema::Object(SchemaObject {
            instance_type: Some(TypeSet::One(InstanceType::Object)),
            object: Some(Box::new(ObjectValidation {
                max_properties: None,
                min_properties: None,
                required: vec!["name".to_string()],
                properties: vec![Property { name: "name".to_string(), schema: string_schema() }],
                has_pattern_properties: false,
                has_property_names: false,
                additional_properties: None,
            })),
            ..empty_object()
        }),
    }
}

#[test]
fn empty_path_table_builds_empty_api() {
    let mut diags: Vec<Diagnostic> = Vec::new();
    let api = Api::new(&Vec::new(), &mut diags).unwrap();
    assert!(api.resources.is_empty());
    assert!(diags.is_empty());
    let Types(types) = api.types(&vec![foo_component()], &mut diags);
    assert!(types.is_empty());
    assert!(api.referenced_components().is_empty());
}

#[test]
fn new_resource_starts_empty() {
    let r = openapi_ir::api::Resource::new("endpoint".to_string());
    assert_eq!(r.name, "endpoint");
    assert!(r.operations.is_empty());
}

#[test]
fn end_to_end_single_get() {
    let op = op_node(
        "v1.foo.get",
        vec![path_param("id")],
        Some(Responses {
            has_default: false,
            responses: vec![json_ref_response(200, "#/components/schemas/Foo")],
            has_extensions: false,
        }),
    );
    let mut diags: Vec<Diagnostic> = Vec::new();
    let api = Api::new(&single_path("/foo/{id}", "get", op), &mut diags).unwrap();
    assert_eq!(api.resources.len(), 1);
    let res = &api.resources[0];
    assert_eq!(res.name, "foo");
    assert_eq!(res.operations.len(), 1);
    let got = &res.operations[0];
    assert_eq!(got.id, "v1.foo.get");
    assert_eq!(got.name, "get");
    assert_eq!(got.method, "get");
    assert_eq!(got.path, "/foo/{id}");
    assert_eq!(got.path_params, vec!["id".to_string()]);
    assert_eq!(got.response_body_schema_name.as_deref(), Some("Foo"));

    let schemas = vec![foo_component()];
    let Types(types) = api.types(&schemas, &mut diags);
    assert_eq!(types.len(), 1);
    assert_eq!(types[0].name, "Foo");
    assert!(!types[0].deprecated);
    match &types[0].data {
        TypeData::Struct { fields } => {
            assert_eq!(fields.len(), 1);
            assert_eq!(fields[0].name, "name");
            assert!(fields[0].required);
            assert!(matches!(fields[0].ty, FieldType::String));
        },
        TypeData::Enum { .. } => panic!("expected a record type"),
    }
}

#[test]
fn v2_operation_is_absent_without_fatal_error() {
    let op = op_node("v2.foo.get", Vec::new(), None);
    let mut diags: Vec<Diagnostic> = Vec::new();
    let api = Api::new(&single_path("/foo", "get", op), &mut diags).unwrap();
    assert!(api.resources.is_empty());
}

#[test]
fn ref_path_item_is_fatal() {
    let paths = vec![PathEntry {
        path: "/foo".to_string(),
        item: RefOr::Reference { reference: "#/components/pathItems/X".to_string() },
    }];
    let mut diags: Vec<Diagnostic> = Vec::new();
    assert!(matches!(Api::new(&paths, &mut diags), Err(FatalError::RefPathItem)));
}

#[test]
fn path_item_level_parameters_skip_the_whole_item() {
    let paths = vec![PathEntry {
        path: "/foo/{id}".to_string(),
        item: RefOr::Item(PathItem {
            parameters: vec![path_param("id")],
            operations: vec![MethodOp {
                method: "get".to_string(),
                operation: op_node("v1.foo.get", vec![path_param("id")], None),
            }],
        }),
    }];
    let mut diags: Vec<Diagnostic> = Vec::new();
    let api = Api::new(&paths, &mut diags).unwrap();
    assert!(api.resources.is_empty());
    assert_eq!(diags.len(), 1);
}

#[test]
fn resources_are_sorted_operations_keep_encounter_order() {
    let paths = vec![
        PathEntry {
            path: "/zebra".to_string(),
            item: RefOr::Item(PathItem {
                parameters: Vec::new(),
                operations: vec![
                    MethodOp {
                        method: "get".to_string(),
                        operation: op_node("v1.zebra.list", Vec::new(), None),
                    },
                    MethodOp {
                        method: "post".to_string(),
                        operation: op_node("v1.zebra.create", Vec::new(), None),
                    },
                ],
            }),
        },
        PathEntry {
            path: "/apple".to_string(),
            item: RefOr::Item(PathItem {
                parameters: Vec::new(),
                operations: vec![MethodOp {
                    method: "get".to_string(),
                    operation: op_node("v1.apple.list", Vec::new(), None),
                }],
            }),
        },
    ];
    let mut diags: Vec<Diagnostic> = Vec::new();
    let api = Api::new(&paths, &mut diags).unwrap();
    assert_eq!(api.resources.len(), 2);
    assert_eq!(api.resources[0].name, "apple");
    assert_eq!(api.resources[1].name, "zebra");
    assert_eq!(api.resources[1].operations[0].name, "list");
    assert_eq!(api.resources[1].operations[1].name, "create");
}

#[test]
fn referenced_components_are_sorted_and_deduplicated() {
    let mut op1 = op_node("v1.b.get", Vec::new(), None);
    op1.request_body = Some(RefOr::Item(RequestBody {
        content: vec![ContentEntry {
            media_type: "application/json".to_string(),
            body: MediaType {
                schema: Some(Schema::Object(SchemaObject {
                    reference: Some("#/components/schemas/Zed".to_string()),
                    ..empty_object()
                })),
                has_extensions: false,
            },
        }],
        required: true,
        has_extensions: false,
    }));
    op1.responses = Some(Responses {
        has_default: false,
        responses: vec![json_ref_response(200, "#/components/schemas/Alpha")],
        has_extensions: false,
    });
    let mut op2 = op_node("v1.a.get", Vec::new(), None);
    op2.responses = Some(Responses {
        has_default: false,
        responses: vec![json_ref_response(200, "#/components/schemas/Alpha")],
        has_extensions: false,
    });
    let paths = vec![
        PathEntry {
            path: "/b".to_string(),
            item: RefOr::Item(PathItem {
                parameters: Vec::new(),
                operations: vec![MethodOp { method: "post".to_string(), operation: op1 }],
            }),
        },
        PathEntry {
            path: "/a".to_string(),
            item: RefOr::Item(PathItem {
                parameters: Vec::new(),
                operations: vec![MethodOp { method: "get".to_string(), operation: op2 }],
            }),
        },
    ];
    let mut diags: Vec<Diagnostic> = Vec::new();
    let api = Api::new(&paths, &mut diags).unwrap();
    let refs = api.referenced_components();
    assert_eq!(refs, vec!["Alpha".to_string(), "Zed".to_string()]);
}

#[test]
fn unreferenced_schema_never_appears_in_types() {
    let op = op_node(
        "v1.foo.get",
        Vec::new(),
        Some(Responses {
            has_default: false,
            responses: vec![json_ref_response(200, "#/components/schemas/Foo")],
            has_extensions: false,
        }),
    );
    let mut diags: Vec<Diagnostic> = Vec::new();
    let api = Api::new(&single_path("/foo", "get", op), &mut diags).unwrap();
    let unused = ComponentEntry {
        name: "Unused".to_string(),
        schema: Schema::Object(SchemaObject {
            instance_type: Some(TypeSet::One(InstanceType::Object)),
            object: Some(Box::new(ObjectValidation {
                max_properties: None,
                min_properties: None,
                required: Vec::new(),
                properties: Vec::new(),
                has_pattern_properties: false,
                has_property_names: false,
                additional_properties: None,
            })),
            ..empty_object()
        }),
    };
    let schemas = vec![unused, foo_component()];
    let Types(types) = api.types(&schemas, &mut diags);
    assert_eq!(types.len(), 1);
    assert_eq!(types[0].name, "Foo");
}

#[test]
fn dangling_reference_warns_and_yields_no_type() {
    let op = op_node(
        "v1.foo.get",
        Vec::new(),
        Some(Responses {
            has_default: false,
            responses: vec![json_ref_response(200, "#/components/schemas/Missing")],
            has_extensions: false,
        }),
    );
    let mut diags: Vec<Diagnostic> = Vec::new();
    let api = Api::new(&single_path("/foo", "get", op), &mut diags).unwrap();
    let before = diags.len();
    let Types(types) = api.types(&Vec::new(), &mut diags);
    assert!(types.is_empty());
    assert!(diags.len() > before);
}

#[test]
fn field_defaults_and_descriptions_are_carried() {
    let op = op_node(
        "v1.foo.get",
        Vec::new(),
        Some(Responses {
            has_default: false,
            responses: vec![json_ref_response(200, "#/components/schemas/Foo")],
            has_extensions: false,
        }),
    );
    let default_value = serde_json::Value::String("fallback".to_string());
    let component = ComponentEntry {
        name: "Foo".to_string(),
        schema: Schema::Object(SchemaObject {
            instance_type: Some(TypeSet::One(InstanceType::Object)),
            metadata: Some(Metadata {
                description: Some("A thing".to_string()),
                default: None,
                deprecated: true,
            }),
            object: Some(Box::new(ObjectValidation {
                max_properties: None,
                min_properties: None,
                required: Vec::new(),
                properties: vec![Property {
                    name: "mode".to_string(),
                    schema: Schema::Object(SchemaObject {
                        instance_type: Some(TypeSet::One(InstanceType::String)),
                        metadata: Some(Metadata {
                            description: Some("The mode".to_string()),
                            default: Some(default_value.clone()),
                            deprecated: false,
                        }),
                        ..empty_object()
                    }),
                }],
                has_pattern_properties: false,
                has_property_names: false,
                additional_properties: None,
            })),
            ..empty_object()
        }),
    };
    let mut diags: Vec<Diagnostic> = Vec::new();
    let api = Api::new(&single_path("/foo", "get", op), &mut diags).unwrap();
    let Types(types) = api.types(&vec![component], &mut diags);
    assert_eq!(types.len(), 1);
    assert_eq!(types[0].description.as_deref(), Some("A thing"));
    assert!(types[0].deprecated);
    match &types[0].data {
        TypeData::Struct { fields } => {
            assert_eq!(fields[0].name, "mode");
            assert!(!fields[0].required);
            assert_eq!(fields[0].default.as_ref(), Some(&default_value));
            assert_eq!(fields[0].description.as_deref(), Some("The mode"));
        },
        TypeData::Enum { .. } => panic!("expected a record type"),
    }
}
