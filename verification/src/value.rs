//! The generic value tree: a closed, dynamically-typed representation of
//! statically-typed data, together with its mathematical model.
//!
//! Every projected datum becomes one [`Value`] node. The mathematical model of
//! a node is a [`ValueModel`], in which text is a `Seq<char>`, ordered data a
//! `Seq`, and string-keyed mappings a `Map` (so that key order is irrelevant
//! and keys are unique by construction). Contracts throughout the crate speak
//! of values through [`Value::model`].

use vstd::prelude::*;

verus! {

/// Canonical widened numeric union. Signed integers narrower than 64 bits
/// widen to `I64`, unsigned ones to `U64`; the 128-bit widths stay distinct,
/// never demoted. `F64` carries the IEEE-754 bit pattern of a 64-bit float as
/// a plain 64-bit value; converting from and to an actual float is the
/// caller's concern.
#[derive(Clone, Copy, Debug, PartialEq, Eq, Structural)]
pub enum Numeric {
    I64(i64),
    I128(i128),
    U64(u64),
    U128(u128),
    F64(u64),
}

/// A collection node: either a string-keyed mapping or an ordered sequence.
///
/// A mapping is represented as a list of key/value entries; its model is the
/// `Map` obtained by inserting the entries in order, so a later entry with the
/// same key overrides an earlier one. The projection engine only builds entry
/// lists with unique keys.
#[derive(Debug)]
pub enum Collection {
    Mapping(Vec<(String, Value)>),
    Vec(Vec<Value>),
}

/// An aggregate with named fields: its type name and a field-name-to-value
/// mapping, represented as an entry list and modelled as a `Map`.
#[derive(Debug)]
pub struct Struct {
    pub ty_name: String,
    pub data: Vec<(String, Value)>,
}

/// An aggregate with positional fields: its type name and the field values in
/// declaration order.
#[derive(Debug)]
pub struct TupleStruct {
    pub ty_name: String,
    pub data: Vec<Value>,
}

/// One selected alternative of a sum type, in one of three kinds: positional
/// payload, named payload, or no payload.
#[derive(Debug)]
pub enum Variant {
    TupleVariant { ty_name: String, variant_name: String, data: Vec<Value> },
    StructVariant { ty_name: String, variant_name: String, data: Vec<(String, Value)> },
    UnitVariant { ty_name: String, variant_name: String },
}

/// The generic value tree: a closed tagged union, one node per projected
/// datum. Every node owns its children, so a tree is finite and acyclic by
/// construction.
#[derive(Debug)]
pub enum Value {
    Unit,
    Bool(bool),
    Numeric(Numeric),
    String(String),
    Collection(Collection),
    Option(Box<Option<Value>>),
    Tuple(Vec<Value>),
    Struct(Struct),
    TupleStruct(TupleStruct),
    Variant(Variant),
}

/// Mathematical model of a [`Collection`].
pub enum CollectionModel {
    Mapping(Map<Seq<char>, ValueModel>),
    Sequence(Seq<ValueModel>),
}

/// Mathematical model of a [`Struct`].
pub struct StructModel {
    pub ty_name: Seq<char>,
    pub data: Map<Seq<char>, ValueModel>,
}

/// Mathematical model of a [`TupleStruct`].
pub struct TupleStructModel {
    pub ty_name: Seq<char>,
    pub data: Seq<ValueModel>,
}

/// Mathematical model of a [`Variant`].
pub enum VariantModel {
    Tuple { ty_name: Seq<char>, variant_name: Seq<char>, data: Seq<ValueModel> },
    Strct { ty_name: Seq<char>, variant_name: Seq<char>, data: Map<Seq<char>, ValueModel> },
    Unit { ty_name: Seq<char>, variant_name: Seq<char> },
}

/// Mathematical model of a [`Value`]: the same tree with text as `Seq<char>`,
/// ordered data as `Seq`, and mappings as `Map`.
pub enum ValueModel {
    Unit,
    Bool(bool),
    Numeric(Numeric),
    Text(Seq<char>),
    Collection(CollectionModel),
    Opt(Option<Box<ValueModel>>),
    Tuple(Seq<ValueModel>),
    Struct(StructModel),
    TupleStruct(TupleStructModel),
    Variant(VariantModel),
}

/// The `Map` obtained by inserting the key/value pairs of `s` from first to
/// last; with duplicate keys the last insertion wins.
pub open spec fn pairs_to_map(s: Seq<(Seq<char>, ValueModel)>) -> Map<Seq<char>, ValueModel>
    decreases s.len(),
{
    if s.len() == 0 {
        Map::empty()
    } else {
        pairs_to_map(s.drop_last()).insert(s.last().0, s.last().1)
    }
}

/// The keys of an entry list are pairwise distinct.
pub open spec fn unique_keys<T>(s: Seq<(Seq<char>, T)>) -> bool {
    forall|i: int, j: int| 0 <= i < j < s.len() ==> s[i].0 !== s[j].0
}

/// The models of a sequence of values, element by element, order preserved.
pub open spec fn models_of(s: Seq<Value>) -> Seq<ValueModel>
    decreases s,
{
    if s.len() == 0 {
        Seq::empty()
    } else {
        models_of(s.subrange(0, s.len() - 1)).push(s[s.len() - 1].model())
    }
}

/// The models of a key/value entry list: each key as a `Seq<char>`, each
/// value by its model, order preserved.
pub open spec fn entry_models(s: Seq<(String, Value)>) -> Seq<(Seq<char>, ValueModel)>
    decreases s,
{
    if s.len() == 0 {
        Seq::empty()
    } else {
        entry_models(s.subrange(0, s.len() - 1)).push(
            (s[s.len() - 1].0@, s[s.len() - 1].1.model()),
        )
    }
}

impl Value {
    /// The mathematical model of this node: the same tree over `Seq`, `Map`
    /// and `Seq<char>`.
    pub open spec fn model(self) -> ValueModel
        decreases self,
    {
        match self {
            Value::Unit => ValueModel::Unit,
            Value::Bool(b) => ValueModel::Bool(b),
            Value::Numeric(n) => ValueModel::Numeric(n),
            Value::String(s) => ValueModel::Text(s@),
            Value::Collection(c) => ValueModel::Collection(
                match c {
                    Collection::Mapping(es) => CollectionModel::Mapping(
                        pairs_to_map(entry_models(es@)),
                    ),
                    Collection::Vec(vs) => CollectionModel::Sequence(models_of(vs@)),
                },
            ),
            Value::Option(b) => ValueModel::Opt(
                match *b {
                    Option::Some(inner) => Option::Some(Box::new(inner.model())),
                    Option::None => Option::None,
                },
            ),
            Value::Tuple(vs) => ValueModel::Tuple(models_of(vs@)),
            Value::Struct(s) => ValueModel::Struct(StructModel {
                ty_name: s.ty_name@,
                data: pairs_to_map(entry_models(s.data@)),
            }),
            Value::TupleStruct(t) => ValueModel::TupleStruct(TupleStructModel {
                ty_name: t.ty_name@,
                data: models_of(t.data@),
            }),
            Value::Variant(v) => ValueModel::Variant(
                match v {
                    Variant::TupleVariant { ty_name, variant_name, data } => VariantModel::Tuple {
                        ty_name: ty_name@,
                        variant_name: variant_name@,
                        data: models_of(data@),
                    },
                    Variant::StructVariant { ty_name, variant_name, data } => VariantModel::Strct {
                        ty_name: ty_name@,
                        variant_name: variant_name@,
                        data: pairs_to_map(entry_models(data@)),
                    },
                    Variant::UnitVariant { ty_name, variant_name } => VariantModel::Unit {
                        ty_name: ty_name@,
                        variant_name: variant_name@,
                    },
                },
            ),
        }
    }
}

impl View for Value {
    type V = ValueModel;

    open spec fn view(&self) -> ValueModel {
        self.model()
    }
}

/// Order preservation: the projection of an ordered sequence holds, at each
/// position, exactly the model of the source element at that position, and
/// nothing else.
pub proof fn lemma_models_of_index(s: Seq<Value>)
    ensures
        models_of(s).len() == s.len(),
        forall|i: int| 0 <= i < s.len() ==> models_of(s)[i] == #[trigger] s[i].model(),
    decreases s,
{
    if s.len() > 0 {
        let sub = s.subrange(0, s.len() - 1);
        lemma_models_of_index(sub);
        assert forall|i: int| 0 <= i < s.len() implies models_of(s)[i] == #[trigger] s[i].model() by {
            if i < s.len() - 1 {
                assert(sub[i] == s[i]);
            }
        }
    }
}

/// Appending one value appends its model.
pub proof fn lemma_models_of_push(s: Seq<Value>, v: Value)
    ensures
        models_of(s.push(v)) == models_of(s).push(v.model()),
{
    let t = s.push(v);
    assert(t.subrange(0, t.len() - 1) =~= s);
    assert(t[t.len() - 1] == v);
}

/// Name preservation: each entry of a projected entry list keeps its key
/// and carries the model of its value, position by position.
pub proof fn lemma_entry_models_index(s: Seq<(String, Value)>)
    ensures
        entry_models(s).len() == s.len(),
        forall|i: int| 0 <= i < s.len() ==> entry_models(s)[i]
            == (#[trigger] s[i].0@, s[i].1.model()),
    decreases s,
{
    if s.len() > 0 {
        let sub = s.subrange(0, s.len() - 1);
        lemma_entry_models_index(sub);
        assert forall|i: int| 0 <= i < s.len() implies entry_models(s)[i]
            == (#[trigger] s[i].0@, s[i].1.model()) by {
            if i < s.len() - 1 {
                assert(sub[i] == s[i]);
            }
        }
    }
}

/// Appending one entry appends its model.
pub proof fn lemma_entry_models_push(s: Seq<(String, Value)>, e: (String, Value))
    ensures
        entry_models(s.push(e)) == entry_models(s).push((e.0@, e.1.model())),
{
    let t = s.push(e);
    assert(t.subrange(0, t.len() - 1) =~= s);
    assert(t[t.len() - 1] == e);
}

/// A key is in the map exactly when some pair carries it.
pub proof fn lemma_pairs_to_map_contains(s: Seq<(Seq<char>, ValueModel)>, k: Seq<char>)
    ensures
        pairs_to_map(s).contains_key(k) <==> exists|i: int| 0 <= i < s.len() && s[i].0 == k,
    decreases s,
{
    if s.len() > 0 {
        let sub = s.subrange(0, s.len() - 1);
        lemma_pairs_to_map_contains(sub, k);
        if s[s.len() - 1].0 == k {
            assert(0 <= s.len() - 1 < s.len() && s[s.len() - 1].0 == k);
        } else if pairs_to_map(s).contains_key(k) {
            let i = choose|i: int| 0 <= i < sub.len() && sub[i].0 == k;
            assert(s[i] == sub[i]);
        } else if exists|i: int| 0 <= i < s.len() && s[i].0 == k {
            let i = choose|i: int| 0 <= i < s.len() && s[i].0 == k;
            assert(sub[i] == s[i]);
        }
    }
}

/// With pairwise-distinct keys, the map sends each pair's key to its value.
pub proof fn lemma_pairs_to_map_index(s: Seq<(Seq<char>, ValueModel)>, i: int)
    requires
        unique_keys(s),
        0 <= i < s.len(),
    ensures
        pairs_to_map(s).contains_key(s[i].0),
        pairs_to_map(s)[s[i].0] == s[i].1,
    decreases s,
{
    if i < s.len() - 1 {
        let sub = s.subrange(0, s.len() - 1);
        assert(sub[i] == s[i]);
        lemma_pairs_to_map_index(sub, i);
        assert(s[i].0 !== s[s.len() - 1].0);
    }
}

/// The order in which distinct-keyed pairs are listed does not matter: two
/// entry lists that are rearrangements of one another stand for the same map.
pub proof fn lemma_pairs_to_map_order_irrelevant(
    s1: Seq<(Seq<char>, ValueModel)>,
    s2: Seq<(Seq<char>, ValueModel)>,
)
    requires
        unique_keys(s1),
        unique_keys(s2),
        s1.to_multiset() == s2.to_multiset(),
    ensures
        pairs_to_map(s1) == pairs_to_map(s2),
{
    broadcast use vstd::seq_lib::group_to_multiset_ensures;

    let m1 = pairs_to_map(s1);
    let m2 = pairs_to_map(s2);
    assert forall|k: Seq<char>| #[trigger] m1.dom().contains(k) implies m2.dom().contains(k) && m2[k]
        == m1[k] by {
        assert(m1.contains_key(k));
        lemma_pairs_to_map_contains(s1, k);
        let i = choose|i: int| 0 <= i < s1.len() && s1[i].0 == k;
        assert(s1.contains(s1[i]));
        assert(s1.to_multiset().count(s1[i]) > 0);
        assert(s2.to_multiset().count(s1[i]) > 0);
        assert(s2.contains(s1[i]));
        let j = choose|j: int| 0 <= j < s2.len() && s2[j] == s1[i];
        lemma_pairs_to_map_contains(s2, k);
        lemma_pairs_to_map_index(s1, i);
        lemma_pairs_to_map_index(s2, j);
    }
    assert forall|k: Seq<char>| #[trigger] m2.dom().contains(k) implies m1.dom().contains(k) by {
        assert(m2.contains_key(k));
        lemma_pairs_to_map_contains(s2, k);
        let j = choose|j: int| 0 <= j < s2.len() && s2[j].0 == k;
        assert(s2.contains(s2[j]));
        assert(s2.to_multiset().count(s2[j]) > 0);
        assert(s1.to_multiset().count(s2[j]) > 0);
        assert(s1.contains(s2[j]));
        let i = choose|i: int| 0 <= i < s1.len() && s1[i] == s2[j];
        lemma_pairs_to_map_contains(s1, k);
    }
    assert(m1.dom() =~= m2.dom());
    assert(m1 =~= m2);
}

} // verus!
