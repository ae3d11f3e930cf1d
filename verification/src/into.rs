//! The runtime projection surface: the [`IntoGeneric`] capability and its
//! implementation for every base-case source shape.
//!
//! Each implementation is total: projecting a base-case value never fails,
//! and the contract pins the resulting tree down exactly through
//! [`IntoGeneric::generic_model`].

use vstd::prelude::*;
use crate::value::{
    Collection,
    CollectionModel,
    Numeric,
    Value,
    ValueModel,
    entry_models,
    lemma_entry_models_push,
    lemma_models_of_push,
    models_of,
    pairs_to_map,
};

verus! {

/// A source value that can be projected into the generic value tree.
///
/// `generic_model` is the mathematical statement of what the projection of
/// this value is; `into_generic` computes it.
pub trait IntoGeneric: Sized {
    /// The model of the tree this value projects to.
    spec fn generic_model(&self) -> ValueModel;

    /// Projects this value into a fresh generic value tree.
    fn into_generic(&self) -> (v: Value)
        ensures
            v@ == self.generic_model(),
    ;
}

impl IntoGeneric for i8 {
    open spec fn generic_model(&self) -> ValueModel {
        ValueModel::Numeric(Numeric::I64(*self as i64))
    }

    fn into_generic(&self) -> (v: Value) {
        Value::Numeric(Numeric::I64(*self as i64))
    }
}

impl IntoGeneric for i16 {
    open spec fn generic_model(&self) -> ValueModel {
        ValueModel::Numeric(Numeric::I64(*self as i64))
    }

    fn into_generic(&self) -> (v: Value) {
        Value::Numeric(Numeric::I64(*self as i64))
    }
}

impl IntoGeneric for i32 {
    open spec fn generic_model(&self) -> ValueModel {
        ValueModel::Numeric(Numeric::I64(*self as i64))
    }

    fn into_generic(&self) -> (v: Value) {
        Value::Numeric(Numeric::I64(*self as i64))
    }
}

impl IntoGeneric for i64 {
    open spec fn generic_model(&self) -> ValueModel {
        ValueModel::Numeric(Numeric::I64(*self))
    }

    fn into_generic(&self) -> (v: Value) {
        Value::Numeric(Numeric::I64(*self))
    }
}

impl IntoGeneric for i128 {
    open spec fn generic_model(&self) -> ValueModel {
        ValueModel::Numeric(Numeric::I128(*self))
    }

    fn into_generic(&self) -> (v: Value) {
        Value::Numeric(Numeric::I128(*self))
    }
}

impl IntoGeneric for u8 {
    open spec fn generic_model(&self) -> ValueModel {
        ValueModel::Numeric(Numeric::U64(*self as u64))
    }

    fn into_generic(&self) -> (v: Value) {
        Value::Numeric(Numeric::U64(*self as u64))
    }
}

impl IntoGeneric for u16 {
    open spec fn generic_model(&self) -> ValueModel {
        ValueModel::Numeric(Numeric::U64(*self as u64))
    }

    fn into_generic(&self) -> (v: Value) {
        Value::Numeric(Numeric::U64(*self as u64))
    }
}

impl IntoGeneric for u32 {
    open spec fn generic_model(&self) -> ValueModel {
        ValueModel::Numeric(Numeric::U64(*self as u64))
    }

    fn into_generic(&self) -> (v: Value) {
        Value::Numeric(Numeric::U64(*self as u64))
    }
}

impl IntoGeneric for u64 {
    open spec fn generic_model(&self) -> ValueModel {
        ValueModel::Numeric(Numeric::U64(*self))
    }

    fn into_generic(&self) -> (v: Value) {
        Value::Numeric(Numeric::U64(*self))
    }
}

impl IntoGeneric for u128 {
    open spec fn generic_model(&self) -> ValueModel {
        ValueModel::Numeric(Numeric::U128(*self))
    }

    fn into_generic(&self) -> (v: Value) {
        Value::Numeric(Numeric::U128(*self))
    }
}

impl IntoGeneric for () {
    open spec fn generic_model(&self) -> ValueModel {
        ValueModel::Unit
    }

    fn into_generic(&self) -> (v: Value) {
        Value::Unit
    }
}

impl IntoGeneric for bool {
    open spec fn generic_model(&self) -> ValueModel {
        ValueModel::Bool(*self)
    }

    fn into_generic(&self) -> (v: Value) {
        Value::Bool(*self)
    }
}

/// Relies on `String::from(char)`: the resulting string holds exactly the
/// one given character.
#[verifier::external_body]
fn char_to_string(c: char) -> (r: String)
    ensures
        r@ == seq![c],
{
    String::from(c)
}

impl IntoGeneric for char {
    open spec fn generic_model(&self) -> ValueModel {
        ValueModel::Text(seq![*self])
    }

    fn into_generic(&self) -> (v: Value) {
        Value::String(char_to_string(*self))
    }
}

impl IntoGeneric for String {
    open spec fn generic_model(&self) -> ValueModel {
        ValueModel::Text(self@)
    }

    fn into_generic(&self) -> (v: Value) {
        Value::String(self.clone())
    }
}

/// The canonical text of an opaque 128-bit identifier: 32 lowercase
/// hexadecimal digits of the big-endian value in five hyphen-separated
/// groups. It is a function of the 128 bits alone.
pub uninterp spec fn opaque_id_text(bits: u128) -> Seq<char>;

/// Relies on `uuid::Uuid::from_u128` and the `Display` rendering of
/// `uuid::Uuid`: the hyphenated lowercase-hexadecimal form of the big-endian
/// 128-bit value, 36 characters long, determined by the bits alone.
#[verifier::external_body]
fn opaque_id_render(bits: u128) -> (r: String)
    ensures
        r@ == opaque_id_text(bits),
        r@.len() == 36,
{
    uuid::Uuid::from_u128(bits).to_string()
}

/// An opaque 128-bit identifier, held as its big-endian numeric value. Its
/// projection is the canonical textual rendering, as a string node.
#[derive(Clone, Copy, Debug, PartialEq, Eq, Structural)]
pub struct OpaqueId {
    pub bits: u128,
}

impl IntoGeneric for OpaqueId {
    open spec fn generic_model(&self) -> ValueModel {
        ValueModel::Text(opaque_id_text(self.bits))
    }

    fn into_generic(&self) -> (v: Value) {
        Value::String(opaque_id_render(self.bits))
    }
}

impl<V: IntoGeneric> IntoGeneric for Option<V> {
    open spec fn generic_model(&self) -> ValueModel {
        match self {
            Option::Some(x) => ValueModel::Opt(Option::Some(Box::new(x.generic_model()))),
            Option::None => ValueModel::Opt(Option::None),
        }
    }

    fn into_generic(&self) -> (v: Value) {
        match self {
            Option::Some(x) => Value::Option(Box::new(Option::Some(x.into_generic()))),
            Option::None => Value::Option(Box::new(Option::None)),
        }
    }
}

impl<V: IntoGeneric> IntoGeneric for Vec<V> {
    open spec fn generic_model(&self) -> ValueModel {
        ValueModel::Collection(CollectionModel::Sequence(
            Seq::new(self@.len(), |i: int| self@[i].generic_model()),
        ))
    }

    fn into_generic(&self) -> (v: Value) {
        let mut out: Vec<Value> = Vec::new();
        let mut i: usize = 0;
        while i < self.len()
            invariant
                i <= self@.len(),
                out@.len() == i,
                models_of(out@) == Seq::new(i as nat, |j: int| self@[j].generic_model()),
            decreases self@.len() - i,
        {
            let w = self[i].into_generic();
            proof {
                lemma_models_of_push(out@, w);
            }
            out.push(w);
            i += 1;
            proof {
                assert(models_of(out@) =~= Seq::new(i as nat, |j: int| self@[j].generic_model()));
            }
        }
        proof {
            assert(Seq::new(i as nat, |j: int| self@[j].generic_model())
                =~= Seq::new(self@.len(), |j: int| self@[j].generic_model()));
        }
        Value::Collection(Collection::Vec(out))
    }
}

/// A string-keyed mapping given as a list of key/value entries, the
/// base-case source for a mapping node. The keys are expected to be unique,
/// as they are when the entries come out of a map; with duplicates the last
/// entry wins in the model.
pub struct StringMap<V> {
    pub entries: Vec<(String, V)>,
}

/// The models of a source entry list: each key as text, each value by its
/// projection model, order preserved.
pub open spec fn source_entry_models<V: IntoGeneric>(s: Seq<(String, V)>) -> Seq<
    (Seq<char>, ValueModel),
> {
    Seq::new(s.len(), |i: int| (s[i].0@, s[i].1.generic_model()))
}

impl<V: IntoGeneric> IntoGeneric for StringMap<V> {
    open spec fn generic_model(&self) -> ValueModel {
        ValueModel::Collection(CollectionModel::Mapping(
            pairs_to_map(source_entry_models(self.entries@)),
        ))
    }

    fn into_generic(&self) -> (v: Value) {
        let mut out: Vec<(String, Value)> = Vec::new();
        let mut i: usize = 0;
        while i < self.entries.len()
            invariant
                i <= self.entries@.len(),
                out@.len() == i,
                entry_models(out@) == source_entry_models(self.entries@).subrange(0, i as int),
            decreases self.entries@.len() - i,
        {
            let k = self.entries[i].0.clone();
            let w = self.entries[i].1.into_generic();
            proof {
                lemma_entry_models_push(out@, (k, w));
            }
            out.push((k, w));
            i += 1;
            proof {
                assert(entry_models(out@) =~= source_entry_models(self.entries@).subrange(
                    0,
                    i as int,
                ));
            }
        }
        proof {
            assert(source_entry_models(self.entries@).subrange(0, i as int)
                =~= source_entry_models(self.entries@));
        }
        Value::Collection(Collection::Mapping(out))
    }
}

impl<T1: IntoGeneric, T2: IntoGeneric> IntoGeneric for (T1, T2) {
    open spec fn generic_model(&self) -> ValueModel {
        ValueModel::Tuple(seq![self.0.generic_model(), self.1.generic_model()])
    }

    fn into_generic(&self) -> (v: Value) {
        let w0 = self.0.into_generic();
        let w1 = self.1.into_generic();
        let mut vs: Vec<Value> = Vec::new();
        vs.push(w0);
        vs.push(w1);
        proof {
            lemma_models_of_push(Seq::empty(), w0);
            lemma_models_of_push(Seq::empty().push(w0), w1);
            assert(models_of(vs@) =~= seq![self.0.generic_model(), self.1.generic_model()]);
        }
        Value::Tuple(vs)
    }
}

impl<T1: IntoGeneric, T2: IntoGeneric, T3: IntoGeneric> IntoGeneric for (T1, T2, T3) {
    open spec fn generic_model(&self) -> ValueModel {
        ValueModel::Tuple(
            seq![self.0.generic_model(), self.1.generic_model(), self.2.generic_model()],
        )
    }

    fn into_generic(&self) -> (v: Value) {
        let w0 = self.0.into_generic();
        let w1 = self.1.into_generic();
        let w2 = self.2.into_generic();
        let mut vs: Vec<Value> = Vec::new();
        vs.push(w0);
        vs.push(w1);
        vs.push(w2);
        proof {
            lemma_models_of_push(Seq::empty(), w0);
            lemma_models_of_push(Seq::empty().push(w0), w1);
            lemma_models_of_push(Seq::empty().push(w0).push(w1), w2);
            assert(models_of(vs@) =~= seq![
                self.0.generic_model(),
                self.1.generic_model(),
                self.2.generic_model(),
            ]);
        }
        Value::Tuple(vs)
    }
}

impl<T1: IntoGeneric, T2: IntoGeneric, T3: IntoGeneric, T4: IntoGeneric> IntoGeneric for (
    T1,
    T2,
    T3,
    T4,
) {
    open spec fn generic_model(&self) -> ValueModel {
        ValueModel::Tuple(
            seq![
                self.0.generic_model(),
                self.1.generic_model(),
                self.2.generic_model(),
                self.3.generic_model(),
            ],
        )
    }

    fn into_generic(&self) -> (v: Value) {
        let w0 = self.0.into_generic();
        let w1 = self.1.into_generic();
        let w2 = self.2.into_generic();
        let w3 = self.3.into_generic();
        let mut vs: Vec<Value> = Vec::new();
        vs.push(w0);
        vs.push(w1);
        vs.push(w2);
        vs.push(w3);
        proof {
            lemma_models_of_push(Seq::empty(), w0);
            lemma_models_of_push(Seq::empty().push(w0), w1);
            lemma_models_of_push(Seq::empty().push(w0).push(w1), w2);
            lemma_models_of_push(Seq::empty().push(w0).push(w1).push(w2), w3);
            assert(models_of(vs@) =~= seq![
                self.0.generic_model(),
                self.1.generic_model(),
                self.2.generic_model(),
                self.3.generic_model(),
            ]);
        }
        Value::Tuple(vs)
    }
}

} // verus!
