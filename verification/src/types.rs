//! Named record types built from component schemas: one `Type` per
//! referenced component schema of object shape, with typed, annotated
//! fields.

use vstd::prelude::*;

use crate::field_type::{
    FieldType, FieldTypeError, FieldTypeV, field_type_view, spec_field_type_of_object,
};
use crate::schema::{
    InstanceType, Metadata, MetadataV, ObjectValidationV, PropertyV, Schema, SchemaObject,
    SchemaObjectV, SchemaV, TypeSet, TypeSetV, metadata_view, schema_object_view, schema_view,
};
use crate::strutil::{contains_str, str_views};

verus! {

/// A named data type of the intermediate representation.
#[derive(Debug)]
pub struct Type {
    pub name: String,
    pub description: Option<String>,
    pub deprecated: bool,
    pub data: TypeData,
}

/// Mirror of [`Type`].
pub struct TypeV {
    pub name: Seq<char>,
    pub description: Option<Seq<char>>,
    pub deprecated: bool,
    pub data: TypeDataV,
}

/// The payload of a [`Type`]. Only the record form is ever produced by
/// the current extraction logic; the variant form is a placeholder kept
/// for forward compatibility.
#[derive(Debug)]
pub enum TypeData {
    Struct { fields: Vec<Field> },
    Enum { variants: Vec<Variant> },
}

/// Mirror of [`TypeData`].
pub enum TypeDataV {
    Struct { fields: Seq<FieldV> },
    Enum { variants: Seq<VariantV> },
}

/// One variant of the (never produced) variant form.
#[derive(Debug)]
pub struct Variant {
    pub fields: Vec<Field>,
}

/// Mirror of [`Variant`].
pub struct VariantV {
    pub fields: Seq<FieldV>,
}

/// One typed field of a record type.
#[derive(Debug)]
pub struct Field {
    pub name: String,
    pub ty: FieldType,
    /// The declared default, an opaque JSON literal carried through.
    pub default: Option<serde_json::Value>,
    pub description: Option<String>,
    pub required: bool,
    pub deprecated: bool,
}

/// Mirror of [`Field`].
pub struct FieldV {
    pub name: Seq<char>,
    pub ty: FieldTypeV,
    pub default: Option<serde_json::Value>,
    pub description: Option<Seq<char>>,
    pub required: bool,
    pub deprecated: bool,
}

impl View for Field {
    type V = FieldV;

    open spec fn view(&self) -> FieldV {
        FieldV {
            name: self.name@,
            ty: self.ty@,
            default: self.default,
            description: crate::schema::opt_str_view(self.description),
            required: self.required,
            deprecated: self.deprecated,
        }
    }
}

impl View for Variant {
    type V = VariantV;

    open spec fn view(&self) -> VariantV {
        VariantV { fields: self.fields@.map_values(|f: Field| f@) }
    }
}

impl View for TypeData {
    type V = TypeDataV;

    open spec fn view(&self) -> TypeDataV {
        match self {
            TypeData::Struct { fields } => TypeDataV::Struct {
                fields: fields@.map_values(|f: Field| f@),
            },
            TypeData::Enum { variants } => TypeDataV::Enum {
                variants: variants@.map_values(|v: Variant| v@),
            },
        }
    }
}

impl View for Type {
    type V = TypeV;

    open spec fn view(&self) -> TypeV {
        TypeV {
            name: self.name@,
            description: crate::schema::opt_str_view(self.description),
            deprecated: self.deprecated,
            data: self.data@,
        }
    }
}

/// Why one field could not be extracted.
#[derive(Clone, Copy, Debug, PartialEq, Eq)]
pub enum FieldError {
    /// A trivial boolean schema in property position.
    BoolSchema,
    /// A `const` constraint on the field's schema.
    ConstValue,
    /// An `enum` constraint on the field's schema.
    EnumValues,
    /// The field's schema is not a supported field type.
    Unsupported(FieldTypeError),
}

/// Why one named type could not be extracted. Any of these aborts
/// extraction of that one type, not the compilation.
#[derive(Debug)]
pub enum TypeError {
    /// An instance type other than `object`.
    UnsupportedType,
    /// A multi-valued instance-type list.
    MultipleTypes,
    /// No instance type at all.
    NoType,
    /// Object instance type without object validation keywords.
    NoObjectValidation,
    /// `additionalProperties` is reserved for map-typed fields.
    AdditionalProperties,
    /// A `maxProperties` clause is present.
    MaxProperties,
    /// A `minProperties` clause is present.
    MinProperties,
    /// A `patternProperties` clause is present.
    PatternProperties,
    /// A `propertyNames` clause is present.
    PropertyNames,
    /// One of the declared properties failed extraction.
    Field { name: String, error: FieldError },
}

/// Mirror of [`TypeError`].
pub enum TypeErrorV {
    UnsupportedType,
    MultipleTypes,
    NoType,
    NoObjectValidation,
    AdditionalProperties,
    MaxProperties,
    MinProperties,
    PatternProperties,
    PropertyNames,
    Field { name: Seq<char>, error: FieldError },
}

impl View for TypeError {
    type V = TypeErrorV;

    open spec fn view(&self) -> TypeErrorV {
        match self {
            TypeError::UnsupportedType => TypeErrorV::UnsupportedType,
            TypeError::MultipleTypes => TypeErrorV::MultipleTypes,
            TypeError::NoType => TypeErrorV::NoType,
            TypeError::NoObjectValidation => TypeErrorV::NoObjectValidation,
            TypeError::AdditionalProperties => TypeErrorV::AdditionalProperties,
            TypeError::MaxProperties => TypeErrorV::MaxProperties,
            TypeError::MinProperties => TypeErrorV::MinProperties,
            TypeError::PatternProperties => TypeErrorV::PatternProperties,
            TypeError::PropertyNames => TypeErrorV::PropertyNames,
            TypeError::Field { name, error } => TypeErrorV::Field { name: name@, error: *error },
        }
    }
}

/// The metadata in force for a node that declares none.
pub open spec fn default_metadata() -> MetadataV {
    MetadataV { description: None, default: None, deprecated: false }
}

/// What field extraction returns, stated over the mirrors. The field is
/// required exactly when its name is a member of the enclosing object's
/// `required` set.
pub open spec fn spec_field_from_schema(name: Seq<char>, s: SchemaV, required: bool) -> Result<
    FieldV,
    FieldError,
> {
    match s {
        SchemaV::Bool(_) => Err(FieldError::BoolSchema),
        SchemaV::Object(o) => {
            let md = match o.metadata {
                Some(m) => m,
                None => default_metadata(),
            };
            if o.has_const_value {
                Err(FieldError::ConstValue)
            } else if o.has_enum_values {
                Err(FieldError::EnumValues)
            } else {
                match spec_field_type_of_object(o) {
                    Err(e) => Err(FieldError::Unsupported(e)),
                    Ok(t) => Ok(
                        FieldV {
                            name: name,
                            ty: t,
                            default: md.default,
                            description: md.description,
                            required: required,
                            deprecated: md.deprecated,
                        },
                    ),
                }
            }
        },
    }
}

/// The fields extracted from the first `n` properties; the first failing
/// property aborts the whole type.
pub open spec fn spec_fields_upto(
    ps: Seq<PropertyV>,
    required: Seq<Seq<char>>,
    n: int,
) -> Result<Seq<FieldV>, TypeErrorV>
    decreases n,
{
    if n <= 0 {
        Ok(Seq::empty())
    } else {
        match spec_fields_upto(ps, required, n - 1) {
            Err(e) => Err(e),
            Ok(fs) => {
                let p = ps[n - 1];
                match spec_field_from_schema(p.name, p.schema, required.contains(p.name)) {
                    Err(e) => Err(TypeErrorV::Field { name: p.name, error: e }),
                    Ok(f) => Ok(fs.push(f)),
                }
            },
        }
    }
}

/// What type extraction returns for a named component schema, stated
/// over the mirrors: a record type with exactly the declared properties,
/// in order, each field required exactly when its name is in the
/// schema's `required` set.
pub open spec fn spec_type_from_schema(name: Seq<char>, o: SchemaObjectV) -> Result<
    TypeV,
    TypeErrorV,
> {
    match o.instance_type {
        Some(TypeSetV::One(it)) => {
            if it != InstanceType::Object {
                Err(TypeErrorV::UnsupportedType)
            } else {
                let md = match o.metadata {
                    Some(m) => m,
                    None => default_metadata(),
                };
                match o.object {
                    None => Err(TypeErrorV::NoObjectValidation),
                    Some(v) => {
                        if v.additional_properties is Some {
                            Err(TypeErrorV::AdditionalProperties)
                        } else if v.max_properties is Some {
                            Err(TypeErrorV::MaxProperties)
                        } else if v.min_properties is Some {
                            Err(TypeErrorV::MinProperties)
                        } else if v.has_pattern_properties {
                            Err(TypeErrorV::PatternProperties)
                        } else if v.has_property_names {
                            Err(TypeErrorV::PropertyNames)
                        } else {
                            match spec_fields_upto(
                                v.properties,
                                v.required,
                                v.properties.len() as int,
                            ) {
                                Err(e) => Err(e),
                                Ok(fields) => Ok(
                                    TypeV {
                                        name: name,
                                        description: md.description,
                                        deprecated: md.deprecated,
                                        data: TypeDataV::Struct { fields },
                                    },
                                ),
                            }
                        }
                    },
                }
            }
        },
        Some(TypeSetV::Many(_)) => Err(TypeErrorV::MultipleTypes),
        None => Err(TypeErrorV::NoType),
    }
}

/// When every property's field extraction succeeds, the whole prefix
/// succeeds, with one field per property, in order.
proof fn lemma_fields_upto_ok(ps: Seq<PropertyV>, required: Seq<Seq<char>>, n: int)
    requires
        0 <= n <= ps.len(),
        forall|k: int|
            0 <= k < n ==> spec_field_from_schema(
                (#[trigger] ps[k]).name,
                ps[k].schema,
                required.contains(ps[k].name),
            ) is Ok,
    ensures
        spec_fields_upto(ps, required, n) is Ok,
        spec_fields_upto(ps, required, n)->Ok_0.len() == n,
        forall|k: int|
            0 <= k < n ==> spec_fields_upto(ps, required, n)->Ok_0[k] == spec_field_from_schema(
                (#[trigger] ps[k]).name,
                ps[k].schema,
                required.contains(ps[k].name),
            )->Ok_0,
    decreases n,
{
    if n > 0 {
        lemma_fields_upto_ok(ps, required, n - 1);
    }
}

/// The round trip for record types: a component schema of object shape
/// carrying only `properties` and `required`, all of whose properties
/// resolve, yields a record type with exactly the declared properties,
/// in order — field `k` carries property `k`'s name, and its required
/// flag holds exactly when that name is a member of the schema's
/// `required` set.
pub proof fn lemma_struct_round_trip(name: Seq<char>, o: SchemaObjectV, v: ObjectValidationV)
    requires
        o.instance_type == Some(TypeSetV::One(InstanceType::Object)),
        o.object == Some(Box::new(v)),
        v.additional_properties is None,
        v.max_properties is None,
        v.min_properties is None,
        !v.has_pattern_properties,
        !v.has_property_names,
        forall|k: int|
            0 <= k < v.properties.len() ==> spec_field_from_schema(
                (#[trigger] v.properties[k]).name,
                v.properties[k].schema,
                v.required.contains(v.properties[k].name),
            ) is Ok,
    ensures
        spec_type_from_schema(name, o) is Ok,
        spec_type_from_schema(name, o)->Ok_0.name == name,
        ({
            let t = spec_type_from_schema(name, o)->Ok_0;
            &&& t.data is Struct
            &&& t.data->Struct_fields.len() == v.properties.len()
            &&& forall|k: int|
                0 <= k < v.properties.len() ==> #[trigger] t.data->Struct_fields[k]
                    == spec_field_from_schema(
                    v.properties[k].name,
                    v.properties[k].schema,
                    v.required.contains(v.properties[k].name),
                )->Ok_0
            &&& forall|k: int|
                0 <= k < v.properties.len() ==> (#[trigger] t.data->Struct_fields[k]).name == v.properties[k].name
            &&& forall|k: int|
                0 <= k < v.properties.len() ==> (#[trigger] t.data->Struct_fields[k]).required
                    == v.required.contains(v.properties[k].name)
        }),
{
    lemma_fields_upto_ok(v.properties, v.required, v.properties.len() as int);
    let fields = spec_fields_upto(v.properties, v.required, v.properties.len() as int)->Ok_0;
    assert forall|k: int| 0 <= k < v.properties.len() implies (#[trigger] fields[k]).name
        == v.properties[k].name && fields[k].required == v.required.contains(
        v.properties[k].name,
    ) by {
        let r = spec_field_from_schema(
            v.properties[k].name,
            v.properties[k].schema,
            v.required.contains(v.properties[k].name),
        );
        match v.properties[k].schema {
            SchemaV::Bool(_) => {
                assert(r is Err);
            },
            SchemaV::Object(oo) => {
                assert(r is Ok);
            },
        }
    }
}

/// Once a property fails, every longer prefix fails with that same error.
proof fn lemma_fields_upto_err(
    ps: Seq<PropertyV>,
    required: Seq<Seq<char>>,
    i: int,
    n: int,
    e: FieldError,
)
    requires
        0 <= i < n <= ps.len(),
        spec_fields_upto(ps, required, i) is Ok,
        spec_field_from_schema(ps[i].name, ps[i].schema, required.contains(ps[i].name))
            == Err::<FieldV, FieldError>(e),
    ensures
        spec_fields_upto(ps, required, n) == Err::<Seq<FieldV>, TypeErrorV>(
            TypeErrorV::Field { name: ps[i].name, error: e },
        ),
    decreases n,
{
    if n > i + 1 {
        lemma_fields_upto_err(ps, required, i, n - 1, e);
    }
}

impl Field {
    /// Extracts one field from a property schema.
    pub fn from_schema(name: String, s: &Schema, required: bool) -> (r: Result<Field, FieldError>)
        ensures
            match r {
                Ok(f) => spec_field_from_schema(name@, s@, required) == Ok::<FieldV, FieldError>(
                    f@,
                ),
                Err(e) => spec_field_from_schema(name@, s@, required) == Err::<FieldV, FieldError>(
                    e,
                ),
            },
    {
        let o = match s {
            Schema::Bool(_) => {
                return Err(FieldError::BoolSchema);
            },
            Schema::Object(o) => o,
        };
        if o.has_const_value {
            return Err(FieldError::ConstValue);
        }
        if o.has_enum_values {
            return Err(FieldError::EnumValues);
        }
        let ty = match FieldType::from_schema_object(o) {
            Err(e) => {
                return Err(FieldError::Unsupported(e));
            },
            Ok(t) => t,
        };
        let (default, description, deprecated) = match &o.metadata {
            Some(m) => {
                let default = match &m.default {
                    Some(d) => Some(d.clone()),
                    None => None,
                };
                let description = match &m.description {
                    Some(d) => Some(d.clone()),
                    None => None,
                };
                (default, description, m.deprecated)
            },
            None => (None, None, false),
        };
        Ok(Field { name, ty, default, description, required, deprecated })
    }
}

impl Type {
    /// Extracts one named record type from a component schema of object
    /// shape.
    #[verifier::loop_isolation(false)]
    pub fn from_schema(name: String, s: &SchemaObject) -> (r: Result<Type, TypeError>)
        ensures
            match r {
                Ok(t) => spec_type_from_schema(name@, s@) == Ok::<TypeV, TypeErrorV>(t@),
                Err(e) => spec_type_from_schema(name@, s@) == Err::<TypeV, TypeErrorV>(e@),
            },
    {
        match &s.instance_type {
            Some(TypeSet::One(it)) => {
                if !matches!(it, InstanceType::Object) {
                    return Err(TypeError::UnsupportedType);
                }
            },
            Some(TypeSet::Many(_)) => {
                return Err(TypeError::MultipleTypes);
            },
            None => {
                return Err(TypeError::NoType);
            },
        }
        let v = match &s.object {
            None => {
                return Err(TypeError::NoObjectValidation);
            },
            Some(v) => v,
        };
        if v.additional_properties.is_some() {
            return Err(TypeError::AdditionalProperties);
        }
        if v.max_properties.is_some() {
            return Err(TypeError::MaxProperties);
        }
        if v.min_properties.is_some() {
            return Err(TypeError::MinProperties);
        }
        if v.has_pattern_properties {
            return Err(TypeError::PatternProperties);
        }
        if v.has_property_names {
            return Err(TypeError::PropertyNames);
        }
        let ghost vv = crate::schema::object_validation_view(**v);
        let mut fields: Vec<Field> = Vec::new();
        assert(fields@.map_values(|f: Field| f@) =~= Seq::<FieldV>::empty());
        let mut i: usize = 0;
        while i < v.properties.len()
            invariant
                i <= v.properties@.len(),
                vv == crate::schema::object_validation_view(**v),
                vv.properties.len() == v.properties@.len(),
                forall|j: int| 0 <= j < v.properties@.len() ==> vv.properties[j]
                    == crate::schema::property_view(v.properties[j]),
                vv.required == str_views(v.required@),
                spec_fields_upto(vv.properties, vv.required, i as int) == Ok::<
                    Seq<FieldV>,
                    TypeErrorV,
                >(fields@.map_values(|f: Field| f@)),
            decreases v.properties@.len() - i,
        {
            let p = &v.properties[i];
            assert(vv.properties[i as int] == crate::schema::property_view(
                v.properties@[i as int],
            ));
            let required = contains_str(&v.required, p.name.as_str());
            match Field::from_schema(p.name.clone(), &p.schema, required) {
                Err(e) => {
                    proof {
                        lemma_fields_upto_err(
                            vv.properties,
                            vv.required,
                            i as int,
                            vv.properties.len() as int,
                            e,
                        );
                    }
                    return Err(TypeError::Field { name: p.name.clone(), error: e });
                },
                Ok(f) => {
                    let ghost prev_map = fields@.map_values(|f: Field| f@);
                    let ghost fv = f@;
                    fields.push(f);
                    assert(fields@.map_values(|f: Field| f@) =~= prev_map.push(fv));
                },
            }
            i += 1;
        }
        let (description, deprecated) = match &s.metadata {
            Some(m) => {
                let description = match &m.description {
                    Some(d) => Some(d.clone()),
                    None => None,
                };
                (description, m.deprecated)
            },
            None => (None, false),
        };
        Ok(Type { name, description, deprecated, data: TypeData::Struct { fields } })
    }
}

/// The views of a sequence of types.
pub open spec fn ts_view(ts: Seq<Type>) -> Seq<TypeV> {
    ts.map_values(|t: Type| t@)
}

/// The named types referenced by the api: the tree-shaken component set.
/// Kept sorted by name.
#[derive(Debug)]
pub struct Types(pub Vec<Type>);

impl View for Types {
    type V = Seq<TypeV>;

    open spec fn view(&self) -> Seq<TypeV> {
        ts_view(self.0@)
    }
}

} // verus!
