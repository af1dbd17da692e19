use openapi_ir::field_type::FieldTypeError;
use openapi_ir::schema::{
    InstanceType, Metadata, ObjectValidation, Property, Schema, SchemaObject, TypeSet,
};
use openapi_ir::types::{Field, FieldError, Type, TypeData, TypeError};

fn empty_object() -> SchemaObject {
    SchemaObject {
        metadata: None,
        instance_type: None,
        format: None,
        has_const_value: false,
        has_enum_values: false,
        reference: None,
        array: None,
        object: None,
    }
}

fn empty_object_validation() -> ObjectValidation {
    ObjectValidation {
        max_properties: None,
        min_properties: None,
        required: Vec::new(),
        properties: Vec::new(),
        has_pattern_properties: false,
        has_property_names: false,
        additional_properties: None,
    }
}

fn string_schema() -> Schema {
    Schema::Object(SchemaObject {
        instance_type: Some(TypeSet::One(InstanceType::String)),
        ..empty_object()
    })
}

fn object_type(v: ObjectValidation) -> SchemaObject {
    SchemaObject {
        instance_type: Some(TypeSet::One(InstanceType::Object)),
        object: Some(Box::new(v)),
        ..empty_object()
    }
}

#[test]
fn record_type_round_trips_properties_and_required() {
    let schema = object_type(ObjectValidation {
        required: vec!["b".to_string()],
        properties: vec![
            Property { name: "a".to_string(), schema: string_schema() },
            Property { name: "b".to_string(), schema: string_schema() },
        ],
        ..empty_object_validation()
    });
    let t = Type::from_schema("Thing".to_string(), &schema).unwrap();
    assert_eq!(t.name, "Thing");
    match &t.data {
        TypeData::Struct { fields } => {
            assert_eq!(fields.len(), 2);
            assert_eq!(fields[0].name, "a");
            assert!(!fields[0].required);
            assert_eq!(fields[1].name, "b");
            assert!(fields[1].required);
        },
        TypeData::Enum { .. } => panic!("expected a record type"),
    }
}

#[test]
fn non_object_shapes_fail_type_extraction() {
    let s = SchemaObject {
        instance_type: Some(TypeSet::One(InstanceType::String)),
        ..empty_object()
    };
    assert!(matches!(
        Type::from_schema("T".to_string(), &s),
        Err(TypeError::UnsupportedType)
    ));
    let s = SchemaObject {
        instance_type: Some(TypeSet::Many(vec![InstanceType::Object])),
        ..empty_object()
    };
    assert!(matches!(Type::from_schema("T".to_string(), &s), Err(TypeError::MultipleTypes)));
    assert!(matches!(
        Type::from_schema("T".to_string(), &empty_object()),
        Err(TypeError::NoType)
    ));
    let s = SchemaObject {
        instance_type: Some(TypeSet::One(InstanceType::Object)),
        ..empty_object()
    };
    assert!(matches!(
        Type::from_schema("T".to_string(), &s),
        Err(TypeError::NoObjectValidation)
    ));
}

#[test]
fn reserved_object_keywords_fail_type_extraction() {
    let t = |v: ObjectValidation| Type::from_schema("T".to_string(), &object_type(v));
    assert!(matches!(
        t(ObjectValidation {
            additional_properties: Some(Box::new(Schema::Bool(true))),
            ..empty_object_validation()
        }),
        Err(TypeError::AdditionalProperties)
    ));
    assert!(matches!(
        t(ObjectValidation { max_properties: Some(4), ..empty_object_validation() }),
        Err(TypeError::MaxProperties)
    ));
    assert!(matches!(
        t(ObjectValidation { min_properties: Some(1), ..empty_object_validation() }),
        Err(TypeError::MinProperties)
    ));
    assert!(matches!(
        t(ObjectValidation { has_pattern_properties: true, ..empty_object_validation() }),
        Err(TypeError::PatternProperties)
    ));
    assert!(matches!(
        t(ObjectValidation { has_property_names: true, ..empty_object_validation() }),
        Err(TypeError::PropertyNames)
    ));
}

#[test]
fn failing_field_names_the_field() {
    let schema = object_type(ObjectValidation {
        properties: vec![Property {
            name: "bad".to_string(),
            schema: Schema::Object(SchemaObject {
                instance_type: Some(TypeSet::One(InstanceType::Number)),
                ..empty_object()
            }),
        }],
        ..empty_object_validation()
    });
    match Type::from_schema("T".to_string(), &schema) {
        Err(TypeError::Field { name, error }) => {
            assert_eq!(name, "bad");
            assert_eq!(error, FieldError::Unsupported(FieldTypeError::UnsupportedType));
        },
        other => panic!("expected a field error, got {other:?}"),
    }
}

#[test]
fn const_and_enum_constraints_fail_the_field() {
    let with = |has_const: bool, has_enum: bool| {
        Field::from_schema(
            "f".to_string(),
            &Schema::Object(SchemaObject {
                instance_type: Some(TypeSet::One(InstanceType::String)),
                has_const_value: has_const,
                has_enum_values: has_enum,
                ..empty_object()
            }),
            false,
        )
    };
    assert!(matches!(with(true, false), Err(FieldError::ConstValue)));
    assert!(matches!(with(false, true), Err(FieldError::EnumValues)));
    assert!(with(false, false).is_ok());
    assert!(matches!(
        Field::from_schema("f".to_string(), &Schema::Bool(true), false),
        Err(FieldError::BoolSchema)
    ));
}

#[test]
fn field_metadata_is_taken_from_the_schema() {
    let f = Field::from_schema(
        "f".to_string(),
        &Schema::Object(SchemaObject {
            instance_type: Some(TypeSet::One(InstanceType::Boolean)),
            metadata: Some(Metadata {
                description: Some("doc".to_string()),
                default: Some(serde_json::Value::Bool(true)),
                deprecated: true,
            }),
            ..empty_object()
        }),
        true,
    )
    .unwrap();
    assert_eq!(f.name, "f");
    assert!(f.required);
    assert!(f.deprecated);
    assert_eq!(f.description.as_deref(), Some("doc"));
    assert_eq!(f.default, Some(serde_json::Value::Bool(true)));
}
