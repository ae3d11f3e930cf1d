//! The generative half of the projection engine.
//!
//! A user-defined aggregate is described by a [`Descriptor`], supplied by an
//! external reflection facility. [`into_generic_derive`] consumes the
//! descriptor once per type and yields a reusable [`ProjectionPlan`], or
//! rejects the shape. Applying a plan to the already-projected field values
//! of one source value assembles the corresponding tree node; the assembly
//! rules are [`into_generic_struct`], [`into_generic_tuple_struct`] and
//! [`into_generic_enum`].

use vstd::prelude::*;
use vstd::pervasive::unreached;
use crate::value::{
    Struct,
    StructModel,
    TupleStruct,
    TupleStructModel,
    Value,
    ValueModel,
    Variant,
    VariantModel,
    entry_models,
    lemma_entry_models_push,
    lemma_pairs_to_map_contains,
    lemma_pairs_to_map_index,
    lemma_pairs_to_map_order_irrelevant,
    models_of,
    pairs_to_map,
    unique_keys,
};

verus! {

/// The shape of one aggregate's fields: named, positional (with the field
/// count), or absent.
#[derive(Debug)]
pub enum FieldShape {
    NamedFields(Vec<String>),
    PositionalFields(usize),
    UnitFields,
}

/// One declared alternative of a sum type: its name and the shape of its
/// payload.
#[derive(Debug)]
pub struct VariantDescriptor {
    pub variant_name: String,
    pub shape: FieldShape,
}

/// The shape of a whole type: a single aggregate, a sum over declared
/// variants, or a multi-shape (union) type.
#[derive(Debug)]
pub enum TypeShape {
    Aggregate(FieldShape),
    Sum(Vec<VariantDescriptor>),
    Union,
}

/// The structural descriptor of a user-defined type, as the external
/// reflection facility reports it: the type's name and its shape.
#[derive(Debug)]
pub struct Descriptor {
    pub ty_name: String,
    pub shape: TypeShape,
}

/// Why a derivation failed. Both conditions are terminal: a type that is
/// rejected at derivation time never gains a projection.
#[derive(Clone, Copy, Debug, PartialEq, Eq, Structural)]
pub enum DeriveError {
    /// The shape is outside the supported space: a no-field aggregate or a
    /// multi-shape (union) type.
    UnsupportedShape,
    /// The reflection facility could not supply a descriptor at all.
    MissingDescriptor,
}

/// A reusable projection procedure for one user-defined type, derived once
/// from its descriptor. Only supported shapes have plans, so holding a plan
/// is proof that the type's shape was accepted.
#[derive(Debug)]
pub enum ProjectionPlan {
    Struct { ty_name: String, field_names: Vec<String> },
    TupleStruct { ty_name: String, arity: usize },
    Enum { ty_name: String, variants: Vec<VariantDescriptor> },
}

/// Derives the projection plan for a described type, or rejects its shape.
///
/// Exactly the no-field aggregate and the union shape are rejected, with
/// `UnsupportedShape`; every other descriptor yields its plan.
pub fn into_generic_derive(descriptor: Descriptor) -> (r: Result<ProjectionPlan, DeriveError>)
    ensures
        match descriptor.shape {
            TypeShape::Aggregate(FieldShape::NamedFields(ns)) => r == Ok::<_, DeriveError>(
                ProjectionPlan::Struct { ty_name: descriptor.ty_name, field_names: ns },
            ),
            TypeShape::Aggregate(FieldShape::PositionalFields(n)) => r == Ok::<_, DeriveError>(
                ProjectionPlan::TupleStruct { ty_name: descriptor.ty_name, arity: n },
            ),
            TypeShape::Aggregate(FieldShape::UnitFields) => r == Err::<ProjectionPlan, _>(
                DeriveError::UnsupportedShape,
            ),
            TypeShape::Sum(vs) => r == Ok::<_, DeriveError>(
                ProjectionPlan::Enum { ty_name: descriptor.ty_name, variants: vs },
            ),
            TypeShape::Union => r == Err::<ProjectionPlan, _>(DeriveError::UnsupportedShape),
        },
{
    let Descriptor { ty_name, shape } = descriptor;
    match shape {
        TypeShape::Aggregate(FieldShape::NamedFields(field_names)) => Ok(
            ProjectionPlan::Struct { ty_name, field_names },
        ),
        TypeShape::Aggregate(FieldShape::PositionalFields(arity)) => Ok(
            ProjectionPlan::TupleStruct { ty_name, arity },
        ),
        TypeShape::Aggregate(FieldShape::UnitFields) => Err(DeriveError::UnsupportedShape),
        TypeShape::Sum(variants) => Ok(ProjectionPlan::Enum { ty_name, variants }),
        TypeShape::Union => Err(DeriveError::UnsupportedShape),
    }
}

/// Derivation behind a possibly failing descriptor lookup: when the
/// reflection facility could not supply a descriptor, that is itself the
/// terminal `MissingDescriptor` error.
pub fn derive_projection(descriptor: Option<Descriptor>) -> (r: Result<
    ProjectionPlan,
    DeriveError,
>)
    ensures
        match descriptor {
            Option::None => r == Err::<ProjectionPlan, _>(DeriveError::MissingDescriptor),
            Option::Some(d) => match d.shape {
                TypeShape::Aggregate(FieldShape::NamedFields(ns)) => r == Ok::<_, DeriveError>(
                    ProjectionPlan::Struct { ty_name: d.ty_name, field_names: ns },
                ),
                TypeShape::Aggregate(FieldShape::PositionalFields(n)) => r == Ok::<_, DeriveError>(
                    ProjectionPlan::TupleStruct { ty_name: d.ty_name, arity: n },
                ),
                TypeShape::Aggregate(FieldShape::UnitFields) => r == Err::<ProjectionPlan, _>(
                    DeriveError::UnsupportedShape,
                ),
                TypeShape::Sum(vs) => r == Ok::<_, DeriveError>(
                    ProjectionPlan::Enum { ty_name: d.ty_name, variants: vs },
                ),
                TypeShape::Union => r == Err::<ProjectionPlan, _>(DeriveError::UnsupportedShape),
            },
        },
{
    match descriptor {
        Option::None => Err(DeriveError::MissingDescriptor),
        Option::Some(d) => into_generic_derive(d),
    }
}

/// The name/value pair models of a zipped field list: field `i` contributes
/// its name as text and the model of its value.
pub open spec fn named_pair_models(ns: Seq<String>, vs: Seq<Value>) -> Seq<(Seq<char>, ValueModel)> {
    Seq::new(ns.len(), |i: int| (ns[i]@, vs[i].model()))
}

/// Zips field names with the already-projected field values into an entry
/// list, in declaration order.
fn zip_entries(names: Vec<String>, values: Vec<Value>) -> (es: Vec<(String, Value)>)
    requires
        names@.len() == values@.len(),
    ensures
        entry_models(es@) == named_pair_models(names@, values@),
{
    let ghost ns0 = names@;
    let ghost vs0 = values@;
    let mut names = names;
    let mut values = values;
    let mut es: Vec<(String, Value)> = Vec::new();
    while values.len() > 0
        invariant
            names@.len() == values@.len(),
            es@.len() + values@.len() == vs0.len(),
            ns0.len() == vs0.len(),
            names@ == ns0.subrange(es@.len() as int, ns0.len() as int),
            values@ == vs0.subrange(es@.len() as int, vs0.len() as int),
            entry_models(es@) == named_pair_models(ns0, vs0).subrange(0, es@.len() as int),
        decreases values@.len(),
    {
        let ghost k = es@.len() as int;
        let n = names.remove(0);
        let v = values.remove(0);
        proof {
            assert(n == ns0[k] && v == vs0[k]);
            lemma_entry_models_push(es@, (n, v));
        }
        es.push((n, v));
        proof {
            assert(names@ =~= ns0.subrange(es@.len() as int, ns0.len() as int));
            assert(values@ =~= vs0.subrange(es@.len() as int, vs0.len() as int));
            assert(entry_models(es@) =~= named_pair_models(ns0, vs0).subrange(
                0,
                es@.len() as int,
            ));
        }
    }
    proof {
        assert(entry_models(es@) =~= named_pair_models(ns0, vs0));
    }
    es
}

/// The named-field rule: each field value under its field name in a fresh
/// mapping, wrapped as a struct node. Field order contributes nothing to the
/// model beyond the name/value association.
pub fn into_generic_struct(ty_name: String, field_names: Vec<String>, values: Vec<Value>) -> (v:
    Value)
    requires
        field_names@.len() == values@.len(),
    ensures
        v@ == ValueModel::Struct(
            StructModel {
                ty_name: ty_name@,
                data: pairs_to_map(named_pair_models(field_names@, values@)),
            },
        ),
{
    let data = zip_entries(field_names, values);
    Value::Struct(Struct { ty_name, data })
}

/// The positional-field rule: the field values in declaration order, wrapped
/// as a tuple-struct node.
pub fn into_generic_tuple_struct(ty_name: String, values: Vec<Value>) -> (v: Value)
    ensures
        v@ == ValueModel::TupleStruct(
            TupleStructModel { ty_name: ty_name@, data: models_of(values@) },
        ),
{
    Value::TupleStruct(TupleStruct { ty_name, data: values })
}

/// The model of the variant node that projecting the selected alternative
/// yields: the kind follows the variant's declared shape.
pub open spec fn enum_variant_model(
    ty: Seq<char>,
    vd: VariantDescriptor,
    vs: Seq<Value>,
) -> VariantModel {
    match vd.shape {
        FieldShape::NamedFields(ns) => VariantModel::Strct {
            ty_name: ty,
            variant_name: vd.variant_name@,
            data: pairs_to_map(named_pair_models(ns@, vs)),
        },
        FieldShape::PositionalFields(n) => VariantModel::Tuple {
            ty_name: ty,
            variant_name: vd.variant_name@,
            data: models_of(vs),
        },
        FieldShape::UnitFields => VariantModel::Unit {
            ty_name: ty,
            variant_name: vd.variant_name@,
        },
    }
}

/// Whether `values` fits the payload of the given variant shape: one value
/// per named or positional field, none for a unit variant.
pub open spec fn fits_shape(shape: FieldShape, values: Seq<Value>) -> bool {
    match shape {
        FieldShape::NamedFields(ns) => ns@.len() == values.len(),
        FieldShape::PositionalFields(n) => n == values.len(),
        FieldShape::UnitFields => values.len() == 0,
    }
}

/// The sum-type rule for the one selected alternative: named payloads become
/// struct variants, positional payloads tuple variants, empty payloads unit
/// variants. The dispatch is exhaustive over the three declared kinds.
pub fn into_generic_enum(ty_name: String, selected: VariantDescriptor, values: Vec<Value>) -> (v:
    Value)
    requires
        fits_shape(selected.shape, values@),
    ensures
        v@ == ValueModel::Variant(enum_variant_model(ty_name@, selected, values@)),
{
    let VariantDescriptor { variant_name, shape } = selected;
    match shape {
        FieldShape::NamedFields(field_names) => {
            let data = zip_entries(field_names, values);
            Value::Variant(Variant::StructVariant { ty_name, variant_name, data })
        },
        FieldShape::PositionalFields(_arity) => Value::Variant(
            Variant::TupleVariant { ty_name, variant_name, data: values },
        ),
        FieldShape::UnitFields => Value::Variant(
            Variant::UnitVariant { ty_name, variant_name },
        ),
    }
}

/// Clones a list of field names for one more application of a plan.
fn clone_strings(xs: &Vec<String>) -> (r: Vec<String>)
    ensures
        r@ == xs@,
{
    let mut r: Vec<String> = Vec::new();
    let mut i: usize = 0;
    while i < xs.len()
        invariant
            i <= xs@.len(),
            r@ == xs@.subrange(0, i as int),
        decreases xs@.len() - i,
    {
        r.push(xs[i].clone());
        i += 1;
        proof {
            assert(r@ =~= xs@.subrange(0, i as int));
        }
    }
    proof {
        assert(r@ =~= xs@);
    }
    r
}

impl ProjectionPlan {
    /// Applies a struct or tuple-struct plan to the already-projected field
    /// values of one source value, in declaration order.
    pub fn project_fields(&self, values: Vec<Value>) -> (v: Value)
        requires
            match self {
                ProjectionPlan::Struct { field_names, .. } => field_names@.len()
                    == values@.len(),
                ProjectionPlan::TupleStruct { arity, .. } => *arity == values@.len(),
                ProjectionPlan::Enum { .. } => false,
            },
        ensures
            match self {
                ProjectionPlan::Struct { ty_name, field_names } => v@ == ValueModel::Struct(
                    StructModel {
                        ty_name: ty_name@,
                        data: pairs_to_map(named_pair_models(field_names@, values@)),
                    },
                ),
                ProjectionPlan::TupleStruct { ty_name, .. } => v@ == ValueModel::TupleStruct(
                    TupleStructModel { ty_name: ty_name@, data: models_of(values@) },
                ),
                ProjectionPlan::Enum { .. } => true,
            },
    {
        match self {
            ProjectionPlan::Struct { ty_name, field_names } => into_generic_struct(
                ty_name.clone(),
                clone_strings(field_names),
                values,
            ),
            ProjectionPlan::TupleStruct { ty_name, .. } => into_generic_tuple_struct(
                ty_name.clone(),
                values,
            ),
            ProjectionPlan::Enum { .. } => unreached(),
        }
    }

    /// Applies an enum plan to the one selected alternative of a source
    /// value, handing over its already-projected payload values.
    pub fn project_variant(&self, selected: usize, values: Vec<Value>) -> (v: Value)
        requires
            self matches ProjectionPlan::Enum { variants, .. } && selected < variants@.len()
                && fits_shape(variants@[selected as int].shape, values@),
        ensures
            (match self {
                ProjectionPlan::Enum { ty_name, variants } => v@ == ValueModel::Variant(
                    enum_variant_model(ty_name@, variants@[selected as int], values@),
                ),
                _ => true,
            }),
    {
        match self {
            ProjectionPlan::Enum { ty_name, variants } => {
                let vd = &variants[selected];
                match &vd.shape {
                    FieldShape::NamedFields(ns) => {
                        let data = zip_entries(clone_strings(ns), values);
                        Value::Variant(
                            Variant::StructVariant {
                                ty_name: ty_name.clone(),
                                variant_name: vd.variant_name.clone(),
                                data,
                            },
                        )
                    },
                    FieldShape::PositionalFields(_) => Value::Variant(
                        Variant::TupleVariant {
                            ty_name: ty_name.clone(),
                            variant_name: vd.variant_name.clone(),
                            data: values,
                        },
                    ),
                    FieldShape::UnitFields => Value::Variant(
                        Variant::UnitVariant {
                            ty_name: ty_name.clone(),
                            variant_name: vd.variant_name.clone(),
                        },
                    ),
                }
            },
            _ => unreached(),
        }
    }
}

/// The declared field names are pairwise distinct, as the source language
/// guarantees for the fields of one aggregate.
pub open spec fn distinct_names(ns: Seq<String>) -> bool {
    forall|i: int, j: int| 0 <= i < j < ns.len() ==> ns[i]@ !== ns[j]@
}

/// Name preservation: with pairwise-distinct field names, the assembled
/// struct data maps exactly the declared names, each to the model of its
/// field's value.
pub proof fn lemma_named_data_characterization(ns: Seq<String>, vs: Seq<Value>)
    requires
        distinct_names(ns),
        ns.len() == vs.len(),
    ensures
        forall|i: int| 0 <= i < ns.len() ==> pairs_to_map(named_pair_models(ns, vs)).contains_key(
            #[trigger] ns[i]@,
        ) && pairs_to_map(named_pair_models(ns, vs))[ns[i]@] == vs[i].model(),
        forall|k: Seq<char>|
            #[trigger] pairs_to_map(named_pair_models(ns, vs)).dom().contains(k) ==> (exists|
                i: int,
            | 0 <= i < ns.len() && ns[i]@ == k),
{
    let ps = named_pair_models(ns, vs);
    assert(unique_keys(ps));
    assert forall|i: int| 0 <= i < ns.len() implies pairs_to_map(ps).contains_key(
        #[trigger] ns[i]@,
    ) && pairs_to_map(ps)[ns[i]@] == vs[i].model() by {
        lemma_pairs_to_map_index(ps, i);
    }
    assert forall|k: Seq<char>| #[trigger] pairs_to_map(ps).dom().contains(k) implies (exists|
        i: int,
    | 0 <= i < ns.len() && ns[i]@ == k) by {
        lemma_pairs_to_map_contains(ps, k);
    }
}

/// A named-field projection is invariant under re-ordering of the field
/// declarations: when two distinct-named name/value listings are
/// rearrangements of one another, they assemble to the same struct node
/// model.
pub proof fn lemma_struct_projection_order_irrelevant(
    ty: Seq<char>,
    ns1: Seq<String>,
    vs1: Seq<Value>,
    ns2: Seq<String>,
    vs2: Seq<Value>,
)
    requires
        ns1.len() == vs1.len(),
        ns2.len() == vs2.len(),
        distinct_names(ns1),
        distinct_names(ns2),
        named_pair_models(ns1, vs1).to_multiset() == named_pair_models(ns2, vs2).to_multiset(),
    ensures
        ValueModel::Struct(
            StructModel { ty_name: ty, data: pairs_to_map(named_pair_models(ns1, vs1)) },
        ) == ValueModel::Struct(
            StructModel { ty_name: ty, data: pairs_to_map(named_pair_models(ns2, vs2)) },
        ),
{
    assert(unique_keys(named_pair_models(ns1, vs1)));
    assert(unique_keys(named_pair_models(ns2, vs2)));
    lemma_pairs_to_map_order_irrelevant(named_pair_models(ns1, vs1), named_pair_models(ns2, vs2));
}

} // verus!
