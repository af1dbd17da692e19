//! The closed set of semantic field types the compiler understands, the
//! recursive resolver that classifies a schema node into one of them, and
//! the per-target-language projection to literal type-name text.

use vstd::prelude::*;

use crate::document::{ParameterSchemaOrContent, ParameterSchemaOrContentV};
use crate::schema::{
    ArrayValidationV, InstanceType, Items, ItemsV, ObjectValidationV, Schema, SchemaObject,
    SchemaObjectV, SchemaV, TypeSet, TypeSetV, schema_object_view, schema_view,
};
use crate::strutil::{get_schema_name, opt_schema_name, str_eq};

verus! {

/// Supported field type: openapi's `type` + `format` + `$ref`.
#[derive(Debug)]
pub enum FieldType {
    Bool,
    Int16,
    UInt16,
    Int32,
    Int64,
    UInt64,
    String,
    DateTime,
    Uri,
    /// A JSON object with arbitrary field values.
    JsonObject,
    /// A regular old list.
    List(Box<FieldType>),
    /// List with unique items.
    UniqueList(Box<FieldType>),
    /// A map with a given value type.
    ///
    /// The key type is always `String` in JSON schemas.
    StringMap { value_ty: Box<FieldType> },
    SchemaRef(String),
}

/// Mirror of [`FieldType`].
pub enum FieldTypeV {
    Bool,
    Int16,
    UInt16,
    Int32,
    Int64,
    UInt64,
    String,
    DateTime,
    Uri,
    JsonObject,
    List(Box<FieldTypeV>),
    UniqueList(Box<FieldTypeV>),
    StringMap { value_ty: Box<FieldTypeV> },
    SchemaRef(Seq<char>),
}

pub open spec fn field_type_view(t: FieldType) -> FieldTypeV
    decreases t,
{
    match t {
        FieldType::Bool => FieldTypeV::Bool,
        FieldType::Int16 => FieldTypeV::Int16,
        FieldType::UInt16 => FieldTypeV::UInt16,
        FieldType::Int32 => FieldTypeV::Int32,
        FieldType::Int64 => FieldTypeV::Int64,
        FieldType::UInt64 => FieldTypeV::UInt64,
        FieldType::String => FieldTypeV::String,
        FieldType::DateTime => FieldTypeV::DateTime,
        FieldType::Uri => FieldTypeV::Uri,
        FieldType::JsonObject => FieldTypeV::JsonObject,
        FieldType::List(inner) => FieldTypeV::List(Box::new(field_type_view(*inner))),
        FieldType::UniqueList(inner) => FieldTypeV::UniqueList(Box::new(field_type_view(*inner))),
        FieldType::StringMap { value_ty } => FieldTypeV::StringMap {
            value_ty: Box::new(field_type_view(*value_ty)),
        },
        FieldType::SchemaRef(name) => FieldTypeV::SchemaRef(name@),
    }
}

impl View for FieldType {
    type V = FieldTypeV;

    open spec fn view(&self) -> FieldTypeV {
        field_type_view(*self)
    }
}

/// Why a schema node could not be classified as a supported field type.
#[derive(Clone, Copy, Debug, PartialEq, Eq)]
pub enum FieldTypeError {
    /// The parameter uses a `content` map instead of an inline schema.
    ContentFormat,
    /// A trivial boolean schema where a schema object is needed.
    BoolSchema,
    /// An integer instance type with an unknown or absent format.
    IntegerFormat,
    /// A string instance type with an unknown format.
    StringFormat,
    /// An array instance type without array validation keywords.
    NoArrayValidation,
    /// An `additionalItems` clause is present.
    AdditionalItems,
    /// An array instance type without an `items` clause.
    NoItems,
    /// A per-position `items` list.
    MultipleItemTypes,
    /// An object instance type without object validation keywords.
    NoObjectValidation,
    /// An object field type without an `additionalProperties` clause.
    NoAdditionalProperties,
    /// A `maxProperties` clause is present.
    MaxProperties,
    /// A `minProperties` clause is present.
    MinProperties,
    /// Declared `properties` on an object field type.
    PropertiesOnFieldType,
    /// A `patternProperties` clause is present.
    PatternProperties,
    /// A `propertyNames` clause is present.
    PropertyNames,
    /// A `required` set on an object field type.
    RequiredOnFieldType,
    /// `additionalProperties: false`.
    AdditionalPropertiesFalse,
    /// An instance type outside the supported set.
    UnsupportedType,
    /// A multi-valued instance-type list.
    MultipleTypes,
    /// A type-less node that is not a component `$ref`.
    TypelessWithoutRef,
}

/// What the resolver returns for a schema object, stated over the mirror.
pub open spec fn spec_field_type_of_object(o: SchemaObjectV) -> Result<FieldTypeV, FieldTypeError>
    decreases o,
{
    match o.instance_type {
        Some(TypeSetV::One(it)) => match it {
            InstanceType::Boolean => Ok(FieldTypeV::Bool),
            InstanceType::Integer => match o.format {
                Some(f) => if f == "int16"@ {
                    Ok(FieldTypeV::Int16)
                } else if f == "uint16"@ {
                    Ok(FieldTypeV::UInt16)
                } else if f == "int32"@ {
                    Ok(FieldTypeV::Int32)
                } else if f == "int"@ || f == "int64"@ {
                    Ok(FieldTypeV::Int64)
                } else if f == "uint"@ || f == "uint64"@ {
                    Ok(FieldTypeV::UInt64)
                } else {
                    Err(FieldTypeError::IntegerFormat)
                },
                None => Err(FieldTypeError::IntegerFormat),
            },
            InstanceType::String => match o.format {
                None => Ok(FieldTypeV::String),
                Some(f) => if f == "date-time"@ {
                    Ok(FieldTypeV::DateTime)
                } else if f == "uri"@ {
                    Ok(FieldTypeV::Uri)
                } else {
                    Err(FieldTypeError::StringFormat)
                },
            },
            InstanceType::Array => match o.array {
                None => Err(FieldTypeError::NoArrayValidation),
                Some(a) => if a.has_additional_items {
                    Err(FieldTypeError::AdditionalItems)
                } else {
                    match a.items {
                        None => Err(FieldTypeError::NoItems),
                        Some(ItemsV::Many(_)) => Err(FieldTypeError::MultipleItemTypes),
                        Some(ItemsV::One(inner)) => match spec_field_type_of_schema(*inner) {
                            Err(e) => Err(e),
                            Ok(t) => if a.unique_items == Some(true) {
                                Ok(FieldTypeV::UniqueList(Box::new(t)))
                            } else {
                                Ok(FieldTypeV::List(Box::new(t)))
                            },
                        },
                    }
                },
            },
            InstanceType::Object => match o.object {
                None => Err(FieldTypeError::NoObjectValidation),
                Some(v) => match v.additional_properties {
                    None => Err(FieldTypeError::NoAdditionalProperties),
                    Some(ap) => if v.max_properties is Some {
                        Err(FieldTypeError::MaxProperties)
                    } else if v.min_properties is Some {
                        Err(FieldTypeError::MinProperties)
                    } else if v.properties.len() != 0 {
                        Err(FieldTypeError::PropertiesOnFieldType)
                    } else if v.has_pattern_properties {
                        Err(FieldTypeError::PatternProperties)
                    } else if v.has_property_names {
                        Err(FieldTypeError::PropertyNames)
                    } else if v.required.len() != 0 {
                        Err(FieldTypeError::RequiredOnFieldType)
                    } else {
                        match *ap {
                            SchemaV::Bool(true) => Ok(FieldTypeV::JsonObject),
                            SchemaV::Bool(false) => Err(FieldTypeError::AdditionalPropertiesFalse),
                            SchemaV::Object(so) => match spec_field_type_of_object(so) {
                                Err(e) => Err(e),
                                Ok(t) => Ok(FieldTypeV::StringMap { value_ty: Box::new(t) }),
                            },
                        }
                    },
                },
            },
            _ => Err(FieldTypeError::UnsupportedType),
        },
        Some(TypeSetV::Many(_)) => Err(FieldTypeError::MultipleTypes),
        None => match opt_schema_name(o.reference) {
            Some(name) => Ok(FieldTypeV::SchemaRef(name)),
            None => Err(FieldTypeError::TypelessWithoutRef),
        },
    }
}

/// What the resolver returns for a schema, stated over the mirror.
pub open spec fn spec_field_type_of_schema(s: SchemaV) -> Result<FieldTypeV, FieldTypeError>
    decreases s,
{
    match s {
        SchemaV::Bool(_) => Err(FieldTypeError::BoolSchema),
        SchemaV::Object(o) => spec_field_type_of_object(o),
    }
}

/// What the resolver returns for a parameter's data format.
pub open spec fn spec_field_type_of_format(f: ParameterSchemaOrContentV) -> Result<
    FieldTypeV,
    FieldTypeError,
> {
    match f {
        ParameterSchemaOrContentV::Content => Err(FieldTypeError::ContentFormat),
        ParameterSchemaOrContentV::Schema(s) => spec_field_type_of_schema(s),
    }
}

/// The view of a resolver result.
pub open spec fn field_type_result_view(r: Result<FieldType, FieldTypeError>) -> Result<
    FieldTypeV,
    FieldTypeError,
> {
    match r {
        Ok(t) => Ok(t@),
        Err(e) => Err(e),
    }
}

impl FieldType {
    /// Classifies a parameter's data format.
    pub fn from_openapi(format: &ParameterSchemaOrContent) -> (r: Result<FieldType, FieldTypeError>)
        ensures
            field_type_result_view(r) == spec_field_type_of_format(format@),
    {
        match format {
            ParameterSchemaOrContent::Content => Err(FieldTypeError::ContentFormat),
            ParameterSchemaOrContent::Schema(s) => Self::from_schema(s),
        }
    }

    /// Classifies a schema.
    pub fn from_schema(s: &Schema) -> (r: Result<FieldType, FieldTypeError>)
        ensures
            field_type_result_view(r) == spec_field_type_of_schema(s@),
        decreases s,
    {
        match s {
            Schema::Bool(_) => Err(FieldTypeError::BoolSchema),
            Schema::Object(o) => Self::from_schema_object(o),
        }
    }

    /// Classifies a schema object. Mirrors [`spec_field_type_of_object`].
    pub fn from_schema_object(o: &SchemaObject) -> (r: Result<FieldType, FieldTypeError>)
        ensures
            field_type_result_view(r) == spec_field_type_of_object(o@),
        decreases o,
    {
        match &o.instance_type {
            Some(TypeSet::One(it)) => match it {
                InstanceType::Boolean => Ok(FieldType::Bool),
                InstanceType::Integer => match &o.format {
                    Some(f) => {
                        if str_eq(f.as_str(), "int16") {
                            Ok(FieldType::Int16)
                        } else if str_eq(f.as_str(), "uint16") {
                            Ok(FieldType::UInt16)
                        } else if str_eq(f.as_str(), "int32") {
                            Ok(FieldType::Int32)
                        } else if str_eq(f.as_str(), "int") || str_eq(f.as_str(), "int64") {
                            Ok(FieldType::Int64)
                        } else if str_eq(f.as_str(), "uint") || str_eq(f.as_str(), "uint64") {
                            Ok(FieldType::UInt64)
                        } else {
                            Err(FieldTypeError::IntegerFormat)
                        }
                    },
                    None => Err(FieldTypeError::IntegerFormat),
                },
                InstanceType::String => match &o.format {
                    None => Ok(FieldType::String),
                    Some(f) => {
                        if str_eq(f.as_str(), "date-time") {
                            Ok(FieldType::DateTime)
                        } else if str_eq(f.as_str(), "uri") {
                            Ok(FieldType::Uri)
                        } else {
                            Err(FieldTypeError::StringFormat)
                        }
                    },
                },
                InstanceType::Array => match &o.array {
                    None => Err(FieldTypeError::NoArrayValidation),
                    Some(a) => {
                        if a.has_additional_items {
                            Err(FieldTypeError::AdditionalItems)
                        } else {
                            match &a.items {
                                None => Err(FieldTypeError::NoItems),
                                Some(Items::Many(_)) => Err(FieldTypeError::MultipleItemTypes),
                                Some(Items::One(inner)) => match Self::from_schema(inner) {
                                    Err(e) => Err(e),
                                    Ok(t) => {
                                        if a.unique_items == Some(true) {
                                            Ok(FieldType::UniqueList(Box::new(t)))
                                        } else {
                                            Ok(FieldType::List(Box::new(t)))
                                        }
                                    },
                                },
                            }
                        }
                    },
                },
                InstanceType::Object => match &o.object {
                    None => Err(FieldTypeError::NoObjectValidation),
                    Some(v) => match &v.additional_properties {
                        None => Err(FieldTypeError::NoAdditionalProperties),
                        Some(ap) => {
                            if v.max_properties.is_some() {
                                Err(FieldTypeError::MaxProperties)
                            } else if v.min_properties.is_some() {
                                Err(FieldTypeError::MinProperties)
                            } else if v.properties.len() != 0 {
                                Err(FieldTypeError::PropertiesOnFieldType)
                            } else if v.has_pattern_properties {
                                Err(FieldTypeError::PatternProperties)
                            } else if v.has_property_names {
                                Err(FieldTypeError::PropertyNames)
                            } else if v.required.len() != 0 {
                                Err(FieldTypeError::RequiredOnFieldType)
                            } else {
                                match &**ap {
                                    Schema::Bool(true) => Ok(FieldType::JsonObject),
                                    Schema::Bool(false) => Err(
                                        FieldTypeError::AdditionalPropertiesFalse,
                                    ),
                                    Schema::Object(so) => match Self::from_schema_object(so) {
                                        Err(e) => Err(e),
                                        Ok(t) => Ok(FieldType::StringMap { value_ty: Box::new(t) }),
                                    },
                                }
                            }
                        },
                    },
                },
                _ => Err(FieldTypeError::UnsupportedType),
            },
            Some(TypeSet::Many(_)) => Err(FieldTypeError::MultipleTypes),
            None => match get_schema_name(&o.reference) {
                Some(name) => Ok(FieldType::SchemaRef(name)),
                None => Err(FieldTypeError::TypelessWithoutRef),
            },
        }
    }
}

/// A target language of the generator.
#[derive(Clone, Copy, Debug, PartialEq, Eq, Structural)]
pub enum TargetLang {
    CSharp,
    Go,
    Kotlin,
    Js,
    Rust,
}

/// Whether projecting `t` for `lang` reaches only implemented branches.
/// The per-language gaps are deliberate and must be kept: several targets
/// never implemented `Int16`/`UInt16`, the arbitrary JSON object, or the
/// string-keyed map. `Uri` is not distinguished from `String` in
/// projection and is supported everywhere.
pub open spec fn lang_supported(lang: TargetLang, t: FieldTypeV) -> bool
    decreases t,
{
    match t {
        FieldTypeV::Int16 | FieldTypeV::UInt16 => lang == TargetLang::Js || lang
            == TargetLang::Rust,
        FieldTypeV::JsonObject => lang == TargetLang::Rust,
        FieldTypeV::StringMap { value_ty: _ } => lang == TargetLang::Rust,
        FieldTypeV::List(inner) | FieldTypeV::UniqueList(inner) => lang_supported(lang, *inner),
        _ => true,
    }
}

/// The C# type-name text for a supported field type.
pub open spec fn csharp_typename(t: FieldTypeV) -> Seq<char>
    decreases t,
{
    match t {
        FieldTypeV::Bool => "bool"@,
        FieldTypeV::Int32 | FieldTypeV::Int64 | FieldTypeV::UInt64 => "int"@,
        FieldTypeV::Uri | FieldTypeV::String => "string"@,
        FieldTypeV::DateTime => "DateTime"@,
        FieldTypeV::List(inner) | FieldTypeV::UniqueList(inner) => "List<"@ + csharp_typename(
            *inner,
        ) + ">"@,
        FieldTypeV::SchemaRef(name) => name,
        _ => arbitrary(),
    }
}

/// The Go type-name text for a supported field type.
pub open spec fn go_typename(t: FieldTypeV) -> Seq<char>
    decreases t,
{
    match t {
        FieldTypeV::Bool => "bool"@,
        FieldTypeV::Int32 | FieldTypeV::Int64 | FieldTypeV::UInt64 => "int32"@,
        FieldTypeV::Uri | FieldTypeV::String => "string"@,
        FieldTypeV::DateTime => "time.Time"@,
        FieldTypeV::List(inner) | FieldTypeV::UniqueList(inner) => "[]"@ + go_typename(*inner),
        FieldTypeV::SchemaRef(name) => name,
        _ => arbitrary(),
    }
}

/// The Kotlin type-name text for a supported field type.
pub open spec fn kotlin_typename(t: FieldTypeV) -> Seq<char>
    decreases t,
{
    match t {
        FieldTypeV::Bool => "Boolean"@,
        FieldTypeV::Int32 | FieldTypeV::Int64 | FieldTypeV::UInt64 => "Int"@,
        FieldTypeV::Uri | FieldTypeV::String => "String"@,
        FieldTypeV::DateTime => "OffsetDateTime"@,
        FieldTypeV::List(inner) | FieldTypeV::UniqueList(inner) => "List<"@ + kotlin_typename(
            *inner,
        ) + ">"@,
        FieldTypeV::SchemaRef(name) => name,
        _ => arbitrary(),
    }
}

/// The JavaScript type-name text for a supported field type.
pub open spec fn js_typename(t: FieldTypeV) -> Seq<char>
    decreases t,
{
    match t {
        FieldTypeV::Bool => "boolean"@,
        FieldTypeV::Int16
        | FieldTypeV::UInt16
        | FieldTypeV::Int32
        | FieldTypeV::Int64
        | FieldTypeV::UInt64 => "number"@,
        FieldTypeV::Uri | FieldTypeV::String => "string"@,
        FieldTypeV::DateTime => "Date | null"@,
        FieldTypeV::List(inner) | FieldTypeV::UniqueList(inner) => js_typename(*inner) + "[]"@,
        FieldTypeV::SchemaRef(name) => name,
        _ => arbitrary(),
    }
}

/// The Rust type-name text; every field type is supported here.
pub open spec fn rust_typename(t: FieldTypeV) -> Seq<char>
    decreases t,
{
    match t {
        FieldTypeV::Bool => "bool"@,
        FieldTypeV::Int16 => "i16"@,
        FieldTypeV::UInt16 => "u16"@,
        FieldTypeV::Int32 | FieldTypeV::Int64 | FieldTypeV::UInt64 => "i32"@,
        FieldTypeV::Uri | FieldTypeV::String => "String"@,
        FieldTypeV::DateTime => "DateTime<Utc>"@,
        FieldTypeV::JsonObject => "serde_json::Value"@,
        FieldTypeV::List(inner) | FieldTypeV::UniqueList(inner) => "Vec<"@ + rust_typename(*inner)
            + ">"@,
        FieldTypeV::StringMap { value_ty } => "std::collections::HashMap<String, "@
            + rust_typename(*value_ty) + ">"@,
        FieldTypeV::SchemaRef(name) => name,
    }
}

impl FieldType {
    /// Whether projecting this type for `lang` stays on implemented branches.
    pub fn supported_for(&self, lang: TargetLang) -> (b: bool)
        ensures
            b == lang_supported(lang, self@),
        decreases self,
    {
        match self {
            FieldType::Int16 | FieldType::UInt16 => matches!(
                lang,
                TargetLang::Js | TargetLang::Rust,
            ),
            FieldType::JsonObject => matches!(lang, TargetLang::Rust),
            FieldType::StringMap { value_ty: _ } => matches!(lang, TargetLang::Rust),
            FieldType::List(inner) | FieldType::UniqueList(inner) => inner.supported_for(lang),
            _ => true,
        }
    }

    /// The C# type name. The collapse of all integer widths to `int` is
    /// kept for compatibility with the already-shipped SDK.
    pub fn to_csharp_typename(&self) -> (r: String)
        requires
            lang_supported(TargetLang::CSharp, self@),
        ensures
            r@ == csharp_typename(self@),
        decreases self,
    {
        match self {
            FieldType::Bool => "bool".to_owned(),
            FieldType::Int32 | FieldType::Int64 | FieldType::UInt64 => "int".to_owned(),
            FieldType::Uri | FieldType::String => "string".to_owned(),
            FieldType::DateTime => "DateTime".to_owned(),
            FieldType::List(inner) | FieldType::UniqueList(inner) => {
                let mut s = "List<".to_owned();
                let inner_name = inner.to_csharp_typename();
                s.append(inner_name.as_str());
                s.append(">");
                s
            },
            FieldType::SchemaRef(name) => name.clone(),
            _ => "".to_owned(),
        }
    }

    /// The Go type name; all integers collapse to `int32` for compatibility.
    pub fn to_go_typename(&self) -> (r: String)
        requires
            lang_supported(TargetLang::Go, self@),
        ensures
            r@ == go_typename(self@),
        decreases self,
    {
        match self {
            FieldType::Bool => "bool".to_owned(),
            FieldType::Int32 | FieldType::Int64 | FieldType::UInt64 => "int32".to_owned(),
            FieldType::Uri | FieldType::String => "string".to_owned(),
            FieldType::DateTime => "time.Time".to_owned(),
            FieldType::List(inner) | FieldType::UniqueList(inner) => {
                let mut s = "[]".to_owned();
                let inner_name = inner.to_go_typename();
                s.append(inner_name.as_str());
                s
            },
            FieldType::SchemaRef(name) => name.clone(),
            _ => "".to_owned(),
        }
    }

    /// The Kotlin type name; all integers collapse to `Int` for compatibility.
    pub fn to_kotlin_typename(&self) -> (r: String)
        requires
            lang_supported(TargetLang::Kotlin, self@),
        ensures
            r@ == kotlin_typename(self@),
        decreases self,
    {
        match self {
            FieldType::Bool => "Boolean".to_owned(),
            FieldType::Int32 | FieldType::Int64 | FieldType::UInt64 => "Int".to_owned(),
            FieldType::Uri | FieldType::String => "String".to_owned(),
            FieldType::DateTime => "OffsetDateTime".to_owned(),
            FieldType::List(inner) | FieldType::UniqueList(inner) => {
                let mut s = "List<".to_owned();
                let inner_name = inner.to_kotlin_typename();
                s.append(inner_name.as_str());
                s.append(">");
                s
            },
            FieldType::SchemaRef(name) => name.clone(),
            _ => "".to_owned(),
        }
    }

    /// The JavaScript type name.
    pub fn to_js_typename(&self) -> (r: String)
        requires
            lang_supported(TargetLang::Js, self@),
        ensures
            r@ == js_typename(self@),
        decreases self,
    {
        match self {
            FieldType::Bool => "boolean".to_owned(),
            FieldType::Int16
            | FieldType::UInt16
            | FieldType::Int32
            | FieldType::Int64
            | FieldType::UInt64 => "number".to_owned(),
            FieldType::Uri | FieldType::String => "string".to_owned(),
            FieldType::DateTime => "Date | null".to_owned(),
            FieldType::List(inner) | FieldType::UniqueList(inner) => {
                let mut s = inner.to_js_typename();
                s.append("[]");
                s
            },
            FieldType::SchemaRef(name) => name.clone(),
            _ => "".to_owned(),
        }
    }

    /// The Rust type name; total over all field types.
    pub fn to_rust_typename(&self) -> (r: String)
        ensures
            r@ == rust_typename(self@),
        decreases self,
    {
        match self {
            FieldType::Bool => "bool".to_owned(),
            FieldType::Int16 => "i16".to_owned(),
            FieldType::UInt16 => "u16".to_owned(),
            FieldType::Int32 | FieldType::Int64 | FieldType::UInt64 => "i32".to_owned(),
            FieldType::Uri | FieldType::String => "String".to_owned(),
            FieldType::DateTime => "DateTime<Utc>".to_owned(),
            FieldType::JsonObject => "serde_json::Value".to_owned(),
            FieldType::List(inner) | FieldType::UniqueList(inner) => {
                let mut s = "Vec<".to_owned();
                let inner_name = inner.to_rust_typename();
                s.append(inner_name.as_str());
                s.append(">");
                s
            },
            FieldType::StringMap { value_ty } => {
                let mut s = "std::collections::HashMap<String, ".to_owned();
                let inner_name = value_ty.to_rust_typename();
                s.append(inner_name.as_str());
                s.append(">");
                s
            },
            FieldType::SchemaRef(name) => name.clone(),
        }
    }
}

/// A unique list and a plain list over the same element type project to
/// identical type-name text in every target language: no target uses a
/// uniqueness-preserving container.
pub proof fn lemma_unique_list_projects_like_list(inner: FieldTypeV)
    ensures
        csharp_typename(FieldTypeV::UniqueList(Box::new(inner))) == csharp_typename(
            FieldTypeV::List(Box::new(inner)),
        ),
        go_typename(FieldTypeV::UniqueList(Box::new(inner))) == go_typename(
            FieldTypeV::List(Box::new(inner)),
        ),
        kotlin_typename(FieldTypeV::UniqueList(Box::new(inner))) == kotlin_typename(
            FieldTypeV::List(Box::new(inner)),
        ),
        js_typename(FieldTypeV::UniqueList(Box::new(inner))) == js_typename(
            FieldTypeV::List(Box::new(inner)),
        ),
        rust_typename(FieldTypeV::UniqueList(Box::new(inner))) == rust_typename(
            FieldTypeV::List(Box::new(inner)),
        ),
{
}

/// For an array schema whose single item schema resolves, the source
/// schema's `uniqueItems` flag alone decides between the unique-list and
/// the plain-list classification; the element type is the same either way.
pub proof fn lemma_unique_items_decides_uniqueness(
    o: SchemaObjectV,
    a: ArrayValidationV,
    inner: SchemaV,
    t: FieldTypeV,
)
    requires
        o.instance_type == Some(TypeSetV::One(InstanceType::Array)),
        o.array == Some(Box::new(a)),
        !a.has_additional_items,
        a.items == Some(ItemsV::One(Box::new(inner))),
        spec_field_type_of_schema(inner) == Ok::<FieldTypeV, FieldTypeError>(t),
    ensures
        a.unique_items == Some(true) ==> spec_field_type_of_object(o) == Ok::<
            FieldTypeV,
            FieldTypeError,
        >(FieldTypeV::UniqueList(Box::new(t))),
        a.unique_items != Some(true) ==> spec_field_type_of_object(o) == Ok::<
            FieldTypeV,
            FieldTypeError,
        >(FieldTypeV::List(Box::new(t))),
{
}

} // verus!
