use generic_core::derive::{
    Descriptor, DeriveError, FieldShape, ProjectionPlan, TypeShape, VariantDescriptor,
    derive_projection, into_generic_derive, into_generic_enum, into_generic_struct,
    into_generic_tuple_struct,
};
use generic_core::into::{IntoGeneric, OpaqueId, StringMap};
use generic_core::value::{Collection, Numeric, Value, Variant};

fn find<'a>(entries: &'a [(String, Value)], key: &str) -> &'a Value {
    match entries.iter().find(|(k, _)| k == key) {
        Some((_, v)) => v,
        None => panic!("missing key {}", key),
    }
}

#[test]
fn widening_unsigned_narrow() {
    let v = 200u8.into_generic();
    assert!(matches!(v, Value::Numeric(Numeric::U64(200))));
    let v = 65535u16.into_generic();
    assert!(matches!(v, Value::Numeric(Numeric::U64(65535))));
    let v = 7u32.into_generic();
    assert!(matches!(v, Value::Numeric(Numeric::U64(7))));
    let v = u64::MAX.into_generic();
    assert!(matches!(v, Value::Numeric(Numeric::U64(u64::MAX))));
}

#[test]
fn widening_signed_narrow() {
    let v = (-5i32).into_generic();
    assert!(matches!(v, Value::Numeric(Numeric::I64(-5))));
    let v = (-128i8).into_generic();
    assert!(matches!(v, Value::Numeric(Numeric::I64(-128))));
    let v = (-300i16).into_generic();
    assert!(matches!(v, Value::Numeric(Numeric::I64(-300))));
    let v = i64::MIN.into_generic();
    assert!(matches!(v, Value::Numeric(Numeric::I64(i64::MIN))));
}

#[test]
fn wide_integers_stay_distinct() {
    let big = u128::MAX;
    let v = big.into_generic();
    assert!(matches!(v, Value::Numeric(Numeric::U128(u128::MAX))));
    let v = (-1i128 << 100).into_generic();
    assert!(matches!(v, Value::Numeric(Numeric::I128(n)) if n == (-1i128 << 100)));
}

#[test]
fn unit_bool_char_string() {
    assert!(matches!(().into_generic(), Value::Unit));
    assert!(matches!(true.into_generic(), Value::Bool(true)));
    assert!(matches!(false.into_generic(), Value::Bool(false)));
    match 'q'.into_generic() {
        Value::String(s) => assert_eq!(s, "q"),
        _ => panic!("char must project to a string"),
    }
    match String::from("hello").into_generic() {
        Value::String(s) => assert_eq!(s, "hello"),
        _ => panic!("text must project to a string"),
    }
}

#[test]
fn opaque_identifier_renders_hyphenated() {
    let id = OpaqueId { bits: 0xa1a2a3a4b1b2c1c2d1d2d3d4d5d6d7d8u128 };
    match id.into_generic() {
        Value::String(s) => assert_eq!(s, "a1a2a3a4-b1b2-c1c2-d1d2-d3d4d5d6d7d8"),
        _ => panic!("identifier must project to a string"),
    }
    let id = OpaqueId { bits: 0 };
    match id.into_generic() {
        Value::String(s) => assert_eq!(s, "00000000-0000-0000-0000-000000000000"),
        _ => panic!("identifier must project to a string"),
    }
}

#[test]
fn sequence_order_preserved() {
    let xs: Vec<u8> = vec![10, 20, 30];
    match xs.into_generic() {
        Value::Collection(Collection::Vec(vs)) => {
            assert_eq!(vs.len(), 3);
            assert!(matches!(vs[0], Value::Numeric(Numeric::U64(10))));
            assert!(matches!(vs[1], Value::Numeric(Numeric::U64(20))));
            assert!(matches!(vs[2], Value::Numeric(Numeric::U64(30))));
        }
        _ => panic!("a sequence must project to a sequence collection"),
    }
}

#[test]
fn empty_sequence_projects() {
    let xs: Vec<bool> = vec![];
    match xs.into_generic() {
        Value::Collection(Collection::Vec(vs)) => assert_eq!(vs.len(), 0),
        _ => panic!("a sequence must project to a sequence collection"),
    }
}

#[test]
fn string_map_keys_copied_values_projected() {
    let m = StringMap {
        entries: vec![
            (String::from("a"), 1u8),
            (String::from("b"), 2u8),
        ],
    };
    match m.into_generic() {
        Value::Collection(Collection::Mapping(es)) => {
            assert_eq!(es.len(), 2);
            assert!(matches!(find(&es, "a"), Value::Numeric(Numeric::U64(1))));
            assert!(matches!(find(&es, "b"), Value::Numeric(Numeric::U64(2))));
        }
        _ => panic!("a mapping must project to a mapping collection"),
    }
}

#[test]
fn option_projects_boxed() {
    match Some(5u64).into_generic() {
        Value::Option(b) => match *b {
            Some(Value::Numeric(Numeric::U64(5))) => {}
            _ => panic!("wrong payload"),
        },
        _ => panic!("an optional must project to an option node"),
    }
    match None::<bool>.into_generic() {
        Value::Option(b) => assert!(b.is_none()),
        _ => panic!("an optional must project to an option node"),
    }
}

#[test]
fn tuples_project_in_order() {
    match (1u8, String::from("s")).into_generic() {
        Value::Tuple(vs) => {
            assert_eq!(vs.len(), 2);
            assert!(matches!(vs[0], Value::Numeric(Numeric::U64(1))));
            assert!(matches!(&vs[1], Value::String(s) if s == "s"));
        }
        _ => panic!("a pair must project to a tuple node"),
    }
    match (1u8, 2u8, 3u8).into_generic() {
        Value::Tuple(vs) => {
            assert_eq!(vs.len(), 3);
            assert!(matches!(vs[2], Value::Numeric(Numeric::U64(3))));
        }
        _ => panic!("a triple must project to a tuple node"),
    }
    match (1u8, 2u8, 3u8, 4u8).into_generic() {
        Value::Tuple(vs) => {
            assert_eq!(vs.len(), 4);
            assert!(matches!(vs[3], Value::Numeric(Numeric::U64(4))));
        }
        _ => panic!("a quadruple must project to a tuple node"),
    }
}

#[test]
fn named_fields_become_struct() {
    let v = into_generic_struct(
        String::from("Point"),
        vec![String::from("x"), String::from("y")],
        vec![1i32.into_generic(), String::from("s").into_generic()],
    );
    match v {
        Value::Struct(s) => {
            assert_eq!(s.ty_name, "Point");
            assert_eq!(s.data.len(), 2);
            assert!(matches!(find(&s.data, "x"), Value::Numeric(Numeric::I64(1))));
            assert!(matches!(find(&s.data, "y"), Value::String(t) if t == "s"));
        }
        _ => panic!("named fields must assemble to a struct node"),
    }
}

#[test]
fn named_field_order_does_not_change_content() {
    let a = into_generic_struct(
        String::from("Point"),
        vec![String::from("x"), String::from("y")],
        vec![1i32.into_generic(), String::from("s").into_generic()],
    );
    let b = into_generic_struct(
        String::from("Point"),
        vec![String::from("y"), String::from("x")],
        vec![String::from("s").into_generic(), 1i32.into_generic()],
    );
    match (a, b) {
        (Value::Struct(sa), Value::Struct(sb)) => {
            assert_eq!(sa.ty_name, sb.ty_name);
            assert_eq!(sa.data.len(), sb.data.len());
            assert!(matches!(find(&sa.data, "x"), Value::Numeric(Numeric::I64(1))));
            assert!(matches!(find(&sb.data, "x"), Value::Numeric(Numeric::I64(1))));
            assert!(matches!(find(&sa.data, "y"), Value::String(t) if t == "s"));
            assert!(matches!(find(&sb.data, "y"), Value::String(t) if t == "s"));
        }
        _ => panic!("named fields must assemble to struct nodes"),
    }
}

#[test]
fn positional_fields_become_tuple_struct_in_order() {
    let v = into_generic_tuple_struct(
        String::from("Triple"),
        vec![
            10u8.into_generic(),
            20u8.into_generic(),
            30u8.into_generic(),
        ],
    );
    match v {
        Value::TupleStruct(t) => {
            assert_eq!(t.ty_name, "Triple");
            assert_eq!(t.data.len(), 3);
            assert!(matches!(t.data[0], Value::Numeric(Numeric::U64(10))));
            assert!(matches!(t.data[1], Value::Numeric(Numeric::U64(20))));
            assert!(matches!(t.data[2], Value::Numeric(Numeric::U64(30))));
        }
        _ => panic!("positional fields must assemble to a tuple-struct node"),
    }
}

#[test]
fn tuple_variant_kind_and_names() {
    let v = into_generic_enum(
        String::from("Alpha"),
        VariantDescriptor {
            variant_name: String::from("One"),
            shape: FieldShape::PositionalFields(1),
        },
        vec![String::from("x").into_generic()],
    );
    match v {
        Value::Variant(Variant::TupleVariant { ty_name, variant_name, data }) => {
            assert_eq!(ty_name, "Alpha");
            assert_eq!(variant_name, "One");
            assert_eq!(data.len(), 1);
            assert!(matches!(&data[0], Value::String(s) if s == "x"));
        }
        _ => panic!("a positional payload must become a tuple variant"),
    }
}

#[test]
fn unit_variant_kind_and_names() {
    let v = into_generic_enum(
        String::from("Alpha"),
        VariantDescriptor {
            variant_name: String::from("Two"),
            shape: FieldShape::UnitFields,
        },
        vec![],
    );
    match v {
        Value::Variant(Variant::UnitVariant { ty_name, variant_name }) => {
            assert_eq!(ty_name, "Alpha");
            assert_eq!(variant_name, "Two");
        }
        _ => panic!("an empty payload must become a unit variant"),
    }
}

#[test]
fn struct_variant_kind_and_names() {
    let v = into_generic_enum(
        String::from("Shape"),
        VariantDescriptor {
            variant_name: String::from("Circle"),
            shape: FieldShape::NamedFields(vec![String::from("radius")]),
        },
        vec![3u32.into_generic()],
    );
    match v {
        Value::Variant(Variant::StructVariant { ty_name, variant_name, data }) => {
            assert_eq!(ty_name, "Shape");
            assert_eq!(variant_name, "Circle");
            assert!(matches!(find(&data, "radius"), Value::Numeric(Numeric::U64(3))));
        }
        _ => panic!("a named payload must become a struct variant"),
    }
}

#[test]
fn derivation_accepts_supported_shapes() {
    let r = into_generic_derive(Descriptor {
        ty_name: String::from("Point"),
        shape: TypeShape::Aggregate(FieldShape::NamedFields(vec![
            String::from("x"),
            String::from("y"),
        ])),
    });
    match r {
        Ok(ProjectionPlan::Struct { ty_name, field_names }) => {
            assert_eq!(ty_name, "Point");
            assert_eq!(field_names, vec![String::from("x"), String::from("y")]);
        }
        _ => panic!("a named-field aggregate must derive a struct plan"),
    }
    let r = into_generic_derive(Descriptor {
        ty_name: String::from("Pair"),
        shape: TypeShape::Aggregate(FieldShape::PositionalFields(2)),
    });
    match r {
        Ok(ProjectionPlan::TupleStruct { ty_name, arity }) => {
            assert_eq!(ty_name, "Pair");
            assert_eq!(arity, 2);
        }
        _ => panic!("a positional aggregate must derive a tuple-struct plan"),
    }
    let r = into_generic_derive(Descriptor {
        ty_name: String::from("Alpha"),
        shape: TypeShape::Sum(vec![
            VariantDescriptor {
                variant_name: String::from("One"),
                shape: FieldShape::PositionalFields(1),
            },
            VariantDescriptor {
                variant_name: String::from("Two"),
                shape: FieldShape::UnitFields,
            },
            VariantDescriptor {
                variant_name: String::from("Three"),
                shape: FieldShape::UnitFields,
            },
        ]),
    });
    match r {
        Ok(ProjectionPlan::Enum { ty_name, variants }) => {
            assert_eq!(ty_name, "Alpha");
            assert_eq!(variants.len(), 3);
            assert_eq!(variants[0].variant_name, "One");
        }
        _ => panic!("a sum type must derive an enum plan"),
    }
}

#[test]
fn derivation_rejects_unit_aggregates() {
    let r = into_generic_derive(Descriptor {
        ty_name: String::from("Nothing"),
        shape: TypeShape::Aggregate(FieldShape::UnitFields),
    });
    assert_eq!(r.unwrap_err(), DeriveError::UnsupportedShape);
}

#[test]
fn derivation_rejects_unions() {
    let r = into_generic_derive(Descriptor {
        ty_name: String::from("Raw"),
        shape: TypeShape::Union,
    });
    assert_eq!(r.unwrap_err(), DeriveError::UnsupportedShape);
}

#[test]
fn derivation_reports_missing_descriptor() {
    let r = derive_projection(None);
    assert_eq!(r.unwrap_err(), DeriveError::MissingDescriptor);
    let r = derive_projection(Some(Descriptor {
        ty_name: String::from("Pair"),
        shape: TypeShape::Aggregate(FieldShape::PositionalFields(2)),
    }));
    assert!(r.is_ok());
}

#[test]
fn plan_is_reusable_for_fields() {
    let plan = into_generic_derive(Descriptor {
        ty_name: String::from("Point"),
        shape: TypeShape::Aggregate(FieldShape::NamedFields(vec![
            String::from("x"),
            String::from("y"),
        ])),
    })
    .unwrap();
    for n in 0..3u8 {
        let v = plan.project_fields(vec![n.into_generic(), (n + 1).into_generic()]);
        match v {
            Value::Struct(s) => {
                assert_eq!(s.ty_name, "Point");
                assert!(matches!(find(&s.data, "x"), Value::Numeric(Numeric::U64(k)) if *k == n as u64));
            }
            _ => panic!("a struct plan must assemble struct nodes"),
        }
    }
}

#[test]
fn plan_selects_variants() {
    let plan = into_generic_derive(Descriptor {
        ty_name: String::from("Alpha"),
        shape: TypeShape::Sum(vec![
            VariantDescriptor {
                variant_name: String::from("One"),
                shape: FieldShape::PositionalFields(1),
            },
            VariantDescriptor {
                variant_name: String::from("Two"),
                shape: FieldShape::UnitFields,
            },
            VariantDescriptor {
                variant_name: String::from("Three"),
                shape: FieldShape::UnitFields,
            },
        ]),
    })
    .unwrap();
    match plan.project_variant(0, vec![String::from("x").into_generic()]) {
        Value::Variant(Variant::TupleVariant { ty_name, variant_name, data }) => {
            assert_eq!(ty_name, "Alpha");
            assert_eq!(variant_name, "One");
            assert!(matches!(&data[0], Value::String(s) if s == "x"));
        }
        _ => panic!("the first alternative carries a positional payload"),
    }
    match plan.project_variant(1, vec![]) {
        Value::Variant(Variant::UnitVariant { ty_name, variant_name }) => {
            assert_eq!(ty_name, "Alpha");
            assert_eq!(variant_name, "Two");
        }
        _ => panic!("the second alternative carries no payload"),
    }
    match plan.project_variant(2, vec![]) {
        Value::Variant(Variant::UnitVariant { variant_name, .. }) => {
            assert_eq!(variant_name, "Three");
        }
        _ => panic!("the third alternative carries no payload"),
    }
}

#[test]
fn nested_projection() {
    let inner: Vec<u8> = vec![1, 2];
    let v = into_generic_tuple_struct(
        String::from("Wrapper"),
        vec![inner.into_generic(), Some(7i64).into_generic()],
    );
    match v {
        Value::TupleStruct(t) => {
            match &t.data[0] {
                Value::Collection(Collection::Vec(vs)) => assert_eq!(vs.len(), 2),
                _ => panic!("the first field is a sequence"),
            }
            match &t.data[1] {
                Value::Option(b) => {
                    assert!(matches!(**b, Some(Value::Numeric(Numeric::I64(7)))))
                }
                _ => panic!("the second field is optional"),
            }
        }
        _ => panic!("positional fields must assemble to a tuple-struct node"),
    }
}

#[test]
fn empty_string_and_empty_mapping() {
    match String::new().into_generic() {
        Value::String(s) => assert_eq!(s, ""),
        _ => panic!("text must project to a string"),
    }
    let m: StringMap<bool> = StringMap { entries: vec![] };
    match m.into_generic() {
        Value::Collection(Collection::Mapping(es)) => assert_eq!(es.len(), 0),
        _ => panic!("a mapping must project to a mapping collection"),
    }
}

#[test]
fn zero_named_fields_are_not_the_unit_shape() {
    let r = into_generic_derive(Descriptor {
        ty_name: String::from("Empty"),
        shape: TypeShape::Aggregate(FieldShape::NamedFields(vec![])),
    });
    assert!(r.is_ok());
    let v = into_generic_struct(String::from("Empty"), vec![], vec![]);
    match v {
        Value::Struct(s) => {
            assert_eq!(s.ty_name, "Empty");
            assert_eq!(s.data.len(), 0);
        }
        _ => panic!("named fields must assemble to a struct node"),
    }
}

#[test]
fn tuple_struct_plan_applies() {
    let plan = into_generic_derive(Descriptor {
        ty_name: String::from("Pair"),
        shape: TypeShape::Aggregate(FieldShape::PositionalFields(2)),
    })
    .unwrap();
    let v = plan.project_fields(vec![true.into_generic(), 9u16.into_generic()]);
    match v {
        Value::TupleStruct(t) => {
            assert_eq!(t.ty_name, "Pair");
            assert!(matches!(t.data[0], Value::Bool(true)));
            assert!(matches!(t.data[1], Value::Numeric(Numeric::U64(9))));
        }
        _ => panic!("a tuple-struct plan must assemble tuple-struct nodes"),
    }
}
