//! The JSON-Schema-shaped part of the input document model.
//!
//! The compiler consumes an already-parsed document. This module models,
//! as plain data, exactly the pieces of a schema node that the compiler
//! reads; every type has a mathematical mirror (`...V`) used in contracts.

use vstd::prelude::*;

verus! {

/// Declares `serde_json::Value` so that an opaque JSON literal (a field's
/// declared default) can be carried through the compiler untouched.
#[verifier::external_type_specification]
#[verifier::external_body]
pub struct ExValue(serde_json::Value);

/// Relies on `serde_json::Value::clone`, which reproduces the same JSON value.
pub assume_specification[ <serde_json::Value as Clone>::clone ](
    v: &serde_json::Value,
) -> (r: serde_json::Value)
    ensures
        r == *v,
;

/// The `type` keyword's possible instance types.
#[derive(Clone, Copy, Debug, PartialEq, Eq, Structural)]
pub enum InstanceType {
    Null,
    Boolean,
    Object,
    Array,
    Number,
    String,
    Integer,
}

/// The value of a `type` keyword: a single instance type, or a list.
/// A list is kept apart even when it has one element.
#[derive(Debug)]
pub enum TypeSet {
    One(InstanceType),
    Many(Vec<InstanceType>),
}

/// Mirror of [`TypeSet`].
pub enum TypeSetV {
    One(InstanceType),
    Many(Seq<InstanceType>),
}

/// Annotation keywords read by the compiler.
#[derive(Debug)]
pub struct Metadata {
    pub description: Option<String>,
    pub default: Option<serde_json::Value>,
    pub deprecated: bool,
}

/// Mirror of [`Metadata`].
pub struct MetadataV {
    pub description: Option<Seq<char>>,
    pub default: Option<serde_json::Value>,
    pub deprecated: bool,
}

/// A schema: the trivial boolean schema, or a schema object.
#[derive(Debug)]
pub enum Schema {
    Bool(bool),
    Object(SchemaObject),
}

/// Mirror of [`Schema`].
pub enum SchemaV {
    Bool(bool),
    Object(SchemaObjectV),
}

/// The keywords of a schema object that the compiler reads. Keywords that
/// are only ever rejected when present are modelled by their presence.
#[derive(Debug)]
pub struct SchemaObject {
    pub metadata: Option<Metadata>,
    pub instance_type: Option<TypeSet>,
    pub format: Option<String>,
    pub has_const_value: bool,
    pub has_enum_values: bool,
    pub reference: Option<String>,
    pub array: Option<Box<ArrayValidation>>,
    pub object: Option<Box<ObjectValidation>>,
}

/// Mirror of [`SchemaObject`].
pub struct SchemaObjectV {
    pub metadata: Option<MetadataV>,
    pub instance_type: Option<TypeSetV>,
    pub format: Option<Seq<char>>,
    pub has_const_value: bool,
    pub has_enum_values: bool,
    pub reference: Option<Seq<char>>,
    pub array: Option<Box<ArrayValidationV>>,
    pub object: Option<Box<ObjectValidationV>>,
}

/// Array-specific validation keywords.
#[derive(Debug)]
pub struct ArrayValidation {
    pub items: Option<Items>,
    pub has_additional_items: bool,
    pub unique_items: Option<bool>,
}

/// Mirror of [`ArrayValidation`].
pub struct ArrayValidationV {
    pub items: Option<ItemsV>,
    pub has_additional_items: bool,
    pub unique_items: Option<bool>,
}

/// The `items` keyword: one schema for every element, or one per position.
#[derive(Debug)]
pub enum Items {
    One(Box<Schema>),
    Many(Vec<Schema>),
}

/// Mirror of [`Items`].
pub enum ItemsV {
    One(Box<SchemaV>),
    Many(Seq<SchemaV>),
}

/// One declared property of an object schema.
#[derive(Debug)]
pub struct Property {
    pub name: String,
    pub schema: Schema,
}

/// Mirror of [`Property`].
pub struct PropertyV {
    pub name: Seq<char>,
    pub schema: SchemaV,
}

/// Object-specific validation keywords.
#[derive(Debug)]
pub struct ObjectValidation {
    pub max_properties: Option<u32>,
    pub min_properties: Option<u32>,
    pub required: Vec<String>,
    pub properties: Vec<Property>,
    pub has_pattern_properties: bool,
    pub has_property_names: bool,
    pub additional_properties: Option<Box<Schema>>,
}

/// Mirror of [`ObjectValidation`].
pub struct ObjectValidationV {
    pub max_properties: Option<u32>,
    pub min_properties: Option<u32>,
    pub required: Seq<Seq<char>>,
    pub properties: Seq<PropertyV>,
    pub has_pattern_properties: bool,
    pub has_property_names: bool,
    pub additional_properties: Option<Box<SchemaV>>,
}

/// The view of an optional string.
pub open spec fn opt_str_view(o: Option<String>) -> Option<Seq<char>> {
    match o {
        Some(s) => Some(s@),
        None => None,
    }
}

pub open spec fn metadata_view(m: Metadata) -> MetadataV {
    MetadataV {
        description: opt_str_view(m.description),
        default: m.default,
        deprecated: m.deprecated,
    }
}

pub open spec fn type_set_view(t: TypeSet) -> TypeSetV {
    match t {
        TypeSet::One(it) => TypeSetV::One(it),
        TypeSet::Many(v) => TypeSetV::Many(v@),
    }
}

pub open spec fn schema_view(s: Schema) -> SchemaV
    decreases s,
{
    match s {
        Schema::Bool(b) => SchemaV::Bool(b),
        Schema::Object(o) => SchemaV::Object(schema_object_view(o)),
    }
}

pub open spec fn schema_object_view(o: SchemaObject) -> SchemaObjectV
    decreases o,
{
    SchemaObjectV {
        metadata: match o.metadata {
            Some(m) => Some(metadata_view(m)),
            None => None,
        },
        instance_type: match o.instance_type {
            Some(t) => Some(type_set_view(t)),
            None => None,
        },
        format: opt_str_view(o.format),
        has_const_value: o.has_const_value,
        has_enum_values: o.has_enum_values,
        reference: opt_str_view(o.reference),
        array: match o.array {
            Some(a) => Some(Box::new(array_validation_view(*a))),
            None => None,
        },
        object: match o.object {
            Some(v) => Some(Box::new(object_validation_view(*v))),
            None => None,
        },
    }
}

pub open spec fn array_validation_view(a: ArrayValidation) -> ArrayValidationV
    decreases a,
{
    ArrayValidationV {
        items: match a.items {
            Some(it) => Some(items_view(it)),
            None => None,
        },
        has_additional_items: a.has_additional_items,
        unique_items: a.unique_items,
    }
}

pub open spec fn items_view(it: Items) -> ItemsV
    decreases it,
{
    match it {
        Items::One(s) => ItemsV::One(Box::new(schema_view(*s))),
        Items::Many(v) => ItemsV::Many(
            Seq::new(
                v@.len(),
                |i: int|
                    if 0 <= i < v@.len() {
                        schema_view(v[i])
                    } else {
                        arbitrary()
                    },
            ),
        ),
    }
}

pub open spec fn property_view(p: Property) -> PropertyV
    decreases p,
{
    PropertyV { name: p.name@, schema: schema_view(p.schema) }
}

pub open spec fn object_validation_view(o: ObjectValidation) -> ObjectValidationV
    decreases o,
{
    ObjectValidationV {
        max_properties: o.max_properties,
        min_properties: o.min_properties,
        required: crate::strutil::str_views(o.required@),
        properties: Seq::new(
            o.properties@.len(),
            |i: int|
                if 0 <= i < o.properties@.len() {
                    property_view(o.properties[i])
                } else {
                    arbitrary()
                },
        ),
        has_pattern_properties: o.has_pattern_properties,
        has_property_names: o.has_property_names,
        additional_properties: match o.additional_properties {
            Some(s) => Some(Box::new(schema_view(*s))),
            None => None,
        },
    }
}

impl View for Schema {
    type V = SchemaV;

    open spec fn view(&self) -> SchemaV {
        schema_view(*self)
    }
}

impl View for SchemaObject {
    type V = SchemaObjectV;

    open spec fn view(&self) -> SchemaObjectV {
        schema_object_view(*self)
    }
}

impl View for Property {
    type V = PropertyV;

    open spec fn view(&self) -> PropertyV {
        property_view(*self)
    }
}

} // verus!
