use openapi_ir::document::ParameterSchemaOrContent;
use openapi_ir::field_type::{FieldType, FieldTypeError, TargetLang};
use openapi_ir::schema::{
    ArrayValidation, InstanceType, Items, ObjectValidation, Property, Schema, SchemaObject,
    TypeSet,
};

fn empty_object() -> SchemaObject {
    SchemaObject {
        metadata: None,
        instance_type: None,
        format: None,
        has_const_value: false,
        has_enum_values: false,
        reference: None,
        array: None,
        object: None,
    }
}

fn typed(it: InstanceType) -> SchemaObject {
    SchemaObject { instance_type: Some(TypeSet::One(it)), ..empty_object() }
}

fn typed_format(it: InstanceType, format: &str) -> SchemaObject {
    SchemaObject { format: Some(format.to_string()), ..typed(it) }
}

fn empty_object_validation() -> ObjectValidation {
    ObjectValidation {
        max_properties: None,
        min_properties: None,
        required: Vec::new(),
        properties: Vec::new(),
        has_pattern_properties: false,
        has_property_names: false,
        additional_properties: None,
    }
}

fn array_of(inner: SchemaObject, unique: Option<bool>) -> SchemaObject {
    SchemaObject {
        array: Some(Box::new(ArrayValidation {
            items: Some(Items::One(Box::new(Schema::Object(inner)))),
            has_additional_items: false,
            unique_items: unique,
        })),
        ..typed(InstanceType::Array)
    }
}

#[test]
fn scalar_types_resolve() {
    assert!(matches!(
        FieldType::from_schema_object(&typed(InstanceType::Boolean)),
        Ok(FieldType::Bool)
    ));
    assert!(matches!(
        FieldType::from_schema_object(&typed(InstanceType::String)),
        Ok(FieldType::String)
    ));
    assert!(matches!(
        FieldType::from_schema_object(&typed_format(InstanceType::String, "date-time")),
        Ok(FieldType::DateTime)
    ));
    assert!(matches!(
        FieldType::from_schema_object(&typed_format(InstanceType::String, "uri")),
        Ok(FieldType::Uri)
    ));
}

#[test]
fn integer_formats_select_width() {
    for (format, expect_int16, expect_uint16, expect_int32, expect_int64, expect_uint64) in [
        ("int16", true, false, false, false, false),
        ("uint16", false, true, false, false, false),
        ("int32", false, false, true, false, false),
        ("int", false, false, false, true, false),
        ("int64", false, false, false, true, false),
        ("uint", false, false, false, false, true),
        ("uint64", false, false, false, false, true),
    ] {
        let r = FieldType::from_schema_object(&typed_format(InstanceType::Integer, format));
        assert_eq!(matches!(r, Ok(FieldType::Int16)), expect_int16, "{format}");
        let r = FieldType::from_schema_object(&typed_format(InstanceType::Integer, format));
        assert_eq!(matches!(r, Ok(FieldType::UInt16)), expect_uint16, "{format}");
        let r = FieldType::from_schema_object(&typed_format(InstanceType::Integer, format));
        assert_eq!(matches!(r, Ok(FieldType::Int32)), expect_int32, "{format}");
        let r = FieldType::from_schema_object(&typed_format(InstanceType::Integer, format));
        assert_eq!(matches!(r, Ok(FieldType::Int64)), expect_int64, "{format}");
        let r = FieldType::from_schema_object(&typed_format(InstanceType::Integer, format));
        assert_eq!(matches!(r, Ok(FieldType::UInt64)), expect_uint64, "{format}");
    }
}

#[test]
fn unsupported_formats_are_rejected() {
    assert_eq!(
        FieldType::from_schema_object(&typed(InstanceType::Integer)).unwrap_err(),
        FieldTypeError::IntegerFormat
    );
    assert_eq!(
        FieldType::from_schema_object(&typed_format(InstanceType::Integer, "int8")).unwrap_err(),
        FieldTypeError::IntegerFormat
    );
    assert_eq!(
        FieldType::from_schema_object(&typed_format(InstanceType::String, "uuid")).unwrap_err(),
        FieldTypeError::StringFormat
    );
    assert_eq!(
        FieldType::from_schema_object(&typed(InstanceType::Null)).unwrap_err(),
        FieldTypeError::UnsupportedType
    );
    assert_eq!(
        FieldType::from_schema_object(&typed(InstanceType::Number)).unwrap_err(),
        FieldTypeError::UnsupportedType
    );
    assert_eq!(
        FieldType::from_schema_object(&SchemaObject {
            instance_type: Some(TypeSet::Many(vec![InstanceType::String])),
            ..empty_object()
        })
        .unwrap_err(),
        FieldTypeError::MultipleTypes
    );
    assert_eq!(
        FieldType::from_schema_object(&empty_object()).unwrap_err(),
        FieldTypeError::TypelessWithoutRef
    );
}

#[test]
fn unique_items_flag_decides_set_or_list() {
    let list = FieldType::from_schema_object(&array_of(typed(InstanceType::String), None));
    assert!(matches!(list, Ok(FieldType::List(ref inner)) if matches!(**inner, FieldType::String)));
    let list = FieldType::from_schema_object(&array_of(typed(InstanceType::String), Some(false)));
    assert!(matches!(list, Ok(FieldType::List(_))));
    let set = FieldType::from_schema_object(&array_of(typed(InstanceType::String), Some(true)));
    assert!(
        matches!(set, Ok(FieldType::UniqueList(ref inner)) if matches!(**inner, FieldType::String))
    );
}

#[test]
fn array_shapes_are_validated() {
    assert_eq!(
        FieldType::from_schema_object(&typed(InstanceType::Array)).unwrap_err(),
        FieldTypeError::NoArrayValidation
    );
    let no_items = SchemaObject {
        array: Some(Box::new(ArrayValidation {
            items: None,
            has_additional_items: false,
            unique_items: None,
        })),
        ..typed(InstanceType::Array)
    };
    assert_eq!(
        FieldType::from_schema_object(&no_items).unwrap_err(),
        FieldTypeError::NoItems
    );
    let additional = SchemaObject {
        array: Some(Box::new(ArrayValidation {
            items: Some(Items::One(Box::new(Schema::Object(typed(InstanceType::String))))),
            has_additional_items: true,
            unique_items: None,
        })),
        ..typed(InstanceType::Array)
    };
    assert_eq!(
        FieldType::from_schema_object(&additional).unwrap_err(),
        FieldTypeError::AdditionalItems
    );
    let multi = SchemaObject {
        array: Some(Box::new(ArrayValidation {
            items: Some(Items::Many(vec![Schema::Object(typed(InstanceType::String))])),
            has_additional_items: false,
            unique_items: None,
        })),
        ..typed(InstanceType::Array)
    };
    assert_eq!(
        FieldType::from_schema_object(&multi).unwrap_err(),
        FieldTypeError::MultipleItemTypes
    );
    let bool_items = SchemaObject {
        array: Some(Box::new(ArrayValidation {
            items: Some(Items::One(Box::new(Schema::Bool(true)))),
            has_additional_items: false,
            unique_items: None,
        })),
        ..typed(InstanceType::Array)
    };
    assert_eq!(
        FieldType::from_schema_object(&bool_items).unwrap_err(),
        FieldTypeError::BoolSchema
    );
}

#[test]
fn object_field_types_need_additional_properties() {
    assert_eq!(
        FieldType::from_schema_object(&typed(InstanceType::Object)).unwrap_err(),
        FieldTypeError::NoObjectValidation
    );
    let with_object = |v: ObjectValidation| SchemaObject {
        object: Some(Box::new(v)),
        ..typed(InstanceType::Object)
    };
    assert_eq!(
        FieldType::from_schema_object(&with_object(empty_object_validation())).unwrap_err(),
        FieldTypeError::NoAdditionalProperties
    );
    let json_object = with_object(ObjectValidation {
        additional_properties: Some(Box::new(Schema::Bool(true))),
        ..empty_object_validation()
    });
    assert!(matches!(
        FieldType::from_schema_object(&json_object),
        Ok(FieldType::JsonObject)
    ));
    let forbidden = with_object(ObjectValidation {
        additional_properties: Some(Box::new(Schema::Bool(false))),
        ..empty_object_validation()
    });
    assert_eq!(
        FieldType::from_schema_object(&forbidden).unwrap_err(),
        FieldTypeError::AdditionalPropertiesFalse
    );
    let map = with_object(ObjectValidation {
        additional_properties: Some(Box::new(Schema::Object(typed_format(
            InstanceType::Integer,
            "int64",
        )))),
        ..empty_object_validation()
    });
    assert!(matches!(
        FieldType::from_schema_object(&map),
        Ok(FieldType::StringMap { ref value_ty }) if matches!(**value_ty, FieldType::Int64)
    ));
    let with_props = with_object(ObjectValidation {
        additional_properties: Some(Box::new(Schema::Bool(true))),
        properties: vec![Property {
            name: "x".to_string(),
            schema: Schema::Object(typed(InstanceType::String)),
        }],
        ..empty_object_validation()
    });
    assert_eq!(
        FieldType::from_schema_object(&with_props).unwrap_err(),
        FieldTypeError::PropertiesOnFieldType
    );
    let with_max = with_object(ObjectValidation {
        additional_properties: Some(Box::new(Schema::Bool(true))),
        max_properties: Some(3),
        ..empty_object_validation()
    });
    assert_eq!(
        FieldType::from_schema_object(&with_max).unwrap_err(),
        FieldTypeError::MaxProperties
    );
    let with_min = with_object(ObjectValidation {
        additional_properties: Some(Box::new(Schema::Bool(true))),
        min_properties: Some(1),
        ..empty_object_validation()
    });
    assert_eq!(
        FieldType::from_schema_object(&with_min).unwrap_err(),
        FieldTypeError::MinProperties
    );
    let with_pattern = with_object(ObjectValidation {
        additional_properties: Some(Box::new(Schema::Bool(true))),
        has_pattern_properties: true,
        ..empty_object_validation()
    });
    assert_eq!(
        FieldType::from_schema_object(&with_pattern).unwrap_err(),
        FieldTypeError::PatternProperties
    );
    let with_names = with_object(ObjectValidation {
        additional_properties: Some(Box::new(Schema::Bool(true))),
        has_property_names: true,
        ..empty_object_validation()
    });
    assert_eq!(
        FieldType::from_schema_object(&with_names).unwrap_err(),
        FieldTypeError::PropertyNames
    );
    let with_required = with_object(ObjectValidation {
        additional_properties: Some(Box::new(Schema::Bool(true))),
        required: vec!["x".to_string()],
        ..empty_object_validation()
    });
    assert_eq!(
        FieldType::from_schema_object(&with_required).unwrap_err(),
        FieldTypeError::RequiredOnFieldType
    );
}

#[test]
fn content_style_parameter_format_is_rejected() {
    assert_eq!(
        FieldType::from_openapi(&ParameterSchemaOrContent::Content).unwrap_err(),
        FieldTypeError::ContentFormat
    );
    let ok = FieldType::from_openapi(&ParameterSchemaOrContent::Schema(Schema::Object(typed(
        InstanceType::Boolean,
    ))));
    assert!(matches!(ok, Ok(FieldType::Bool)));
}

#[test]
fn typeless_ref_resolves_to_schema_ref() {
    let r = SchemaObject {
        reference: Some("#/components/schemas/Foo".to_string()),
        ..empty_object()
    };
    assert!(matches!(
        FieldType::from_schema_object(&r),
        Ok(FieldType::SchemaRef(ref name)) if name == "Foo"
    ));
    let bad = SchemaObject {
        reference: Some("#/elsewhere/Foo".to_string()),
        ..empty_object()
    };
    assert_eq!(
        FieldType::from_schema_object(&bad).unwrap_err(),
        FieldTypeError::TypelessWithoutRef
    );
}

#[test]
fn projections_produce_exact_names() {
    let list_of_int64 = FieldType::List(Box::new(FieldType::Int64));
    assert_eq!(list_of_int64.to_csharp_typename(), "List<int>");
    assert_eq!(list_of_int64.to_go_typename(), "[]int32");
    assert_eq!(list_of_int64.to_kotlin_typename(), "List<Int>");
    assert_eq!(list_of_int64.to_js_typename(), "number[]");
    assert_eq!(list_of_int64.to_rust_typename(), "Vec<i32>");

    assert_eq!(FieldType::DateTime.to_csharp_typename(), "DateTime");
    assert_eq!(FieldType::DateTime.to_go_typename(), "time.Time");
    assert_eq!(FieldType::DateTime.to_kotlin_typename(), "OffsetDateTime");
    assert_eq!(FieldType::DateTime.to_js_typename(), "Date | null");
    assert_eq!(FieldType::DateTime.to_rust_typename(), "DateTime<Utc>");

    assert_eq!(FieldType::Uri.to_csharp_typename(), "string");
    assert_eq!(FieldType::Uri.to_go_typename(), "string");
    assert_eq!(FieldType::Uri.to_kotlin_typename(), "String");
    assert_eq!(FieldType::Uri.to_js_typename(), "string");
    assert_eq!(FieldType::Int16.to_rust_typename(), "i16");
    assert_eq!(FieldType::UInt16.to_rust_typename(), "u16");
    assert_eq!(FieldType::Uri.to_rust_typename(), "String");
    assert_eq!(FieldType::JsonObject.to_rust_typename(), "serde_json::Value");
    assert_eq!(
        FieldType::StringMap { value_ty: Box::new(FieldType::String) }.to_rust_typename(),
        "std::collections::HashMap<String, String>"
    );
    assert_eq!(
        FieldType::SchemaRef("EndpointOut".to_string()).to_csharp_typename(),
        "EndpointOut"
    );
    assert_eq!(FieldType::Int16.to_js_typename(), "number");
}

#[test]
fn unique_list_projects_exactly_like_list() {
    let make = |unique: bool| {
        let inner = Box::new(FieldType::SchemaRef("MessageOut".to_string()));
        if unique { FieldType::UniqueList(inner) } else { FieldType::List(inner) }
    };
    assert_eq!(make(true).to_csharp_typename(), make(false).to_csharp_typename());
    assert_eq!(make(true).to_go_typename(), make(false).to_go_typename());
    assert_eq!(make(true).to_kotlin_typename(), make(false).to_kotlin_typename());
    assert_eq!(make(true).to_js_typename(), make(false).to_js_typename());
    assert_eq!(make(true).to_rust_typename(), make(false).to_rust_typename());
    assert_eq!(make(true).to_kotlin_typename(), "List<MessageOut>");
}

#[test]
fn support_reflects_the_deliberate_gaps() {
    assert!(!FieldType::Int16.supported_for(TargetLang::CSharp));
    assert!(!FieldType::UInt16.supported_for(TargetLang::Go));
    assert!(!FieldType::JsonObject.supported_for(TargetLang::Js));
    assert!(
        !FieldType::StringMap { value_ty: Box::new(FieldType::String) }
            .supported_for(TargetLang::Kotlin)
    );
    assert!(FieldType::Int16.supported_for(TargetLang::Js));
    assert!(FieldType::Int16.supported_for(TargetLang::Rust));
    assert!(FieldType::JsonObject.supported_for(TargetLang::Rust));
    assert!(FieldType::Uri.supported_for(TargetLang::Kotlin));
    assert!(FieldType::List(Box::new(FieldType::Uri)).supported_for(TargetLang::CSharp));
    assert!(!FieldType::List(Box::new(FieldType::JsonObject)).supported_for(TargetLang::CSharp));
    assert!(FieldType::List(Box::new(FieldType::Bool)).supported_for(TargetLang::CSharp));
}
