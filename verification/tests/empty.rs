use isx::eval::Observation;
use isx::shape::{DefinitionData, RecordShape, TypeDefinition, VariantDefinition};
use isx::{derive_is_empty, derive_is_empty_impl, IsEmpty};
use std::collections::{BTreeMap, BTreeSet, HashMap, HashSet};

#[derive(Default, Debug, PartialEq)]
struct MyStruct {
    foo: &'static str,
    bar: &'static [u8],
}

fn my_struct_definition() -> TypeDefinition {
    TypeDefinition {
        name: "MyStruct".to_string(),
        data: DefinitionData::Struct {
            fields: RecordShape::NamedRecord { fields: vec!["foo".to_string(), "bar".to_string()] },
        },
    }
}

impl IsEmpty for MyStruct {
    fn is_empty_spec(&self) -> bool {
        self.is_empty()
    }

    fn is_empty(&self) -> bool {
        let predicate = derive_is_empty_impl(&my_struct_definition()).unwrap();
        let observation = Observation {
            active: 0,
            members: vec![IsEmpty::is_empty(&self.foo), IsEmpty::is_empty(self.bar)],
            equals_default: *self == MyStruct::default(),
        };
        predicate.evaluate(&observation).unwrap()
    }
}

#[derive(Debug, PartialEq)]
enum MyEnum {
    Unit,
    Tuple(&'static [u8], &'static str),
    Struct { x: &'static [u8] },
}

impl Default for MyEnum {
    fn default() -> Self {
        MyEnum::Unit
    }
}

fn my_enum_definition() -> TypeDefinition {
    TypeDefinition {
        name: "MyEnum".to_string(),
        data: DefinitionData::Enum {
            variants: vec![
                VariantDefinition {
                    name: "Unit".to_string(),
                    attributes: vec!["default".to_string()],
                    fields: RecordShape::UnitRecord,
                },
                VariantDefinition {
                    name: "Tuple".to_string(),
                    attributes: vec![],
                    fields: RecordShape::PositionalRecord { arity: 2 },
                },
                VariantDefinition {
                    name: "Struct".to_string(),
                    attributes: vec![],
                    fields: RecordShape::NamedRecord { fields: vec!["x".to_string()] },
                },
            ],
        },
    }
}

impl IsEmpty for MyEnum {
    fn is_empty_spec(&self) -> bool {
        self.is_empty()
    }

    fn is_empty(&self) -> bool {
        let predicate = derive_is_empty_impl(&my_enum_definition()).unwrap();
        let (active, members) = match self {
            MyEnum::Unit => (0, vec![]),
            MyEnum::Tuple(a, b) => (1, vec![IsEmpty::is_empty(*a), IsEmpty::is_empty(b)]),
            MyEnum::Struct { x } => (2, vec![IsEmpty::is_empty(*x)]),
        };
        let observation =
            Observation { active, members, equals_default: *self == MyEnum::default() };
        predicate.evaluate(&observation).unwrap()
    }
}

#[test]
fn struct_empty() {
    assert!(MyStruct::default().is_empty());
    assert!(
        !MyStruct {
            foo: "hi",
            bar: &[]
        }
        .is_empty()
    );
}

#[test]
fn enum_empty() {
    assert!(MyEnum::default().is_empty());
    assert!(MyEnum::Tuple(&[], "").is_empty());
    assert!(MyEnum::Struct { x: &[] }.is_empty());
}

#[test]
fn slice_empty() {
    assert!(IsEmpty::is_empty(&[] as &[u8]));
    assert!(!IsEmpty::is_empty(&[1u8, 2u8] as &[u8]));
}

#[test]
fn array_empty() {
    assert!(IsEmpty::is_empty(&[0u8; 0]));
    assert!(!IsEmpty::is_empty(&[1u8, 2u8]));
}

#[test]
fn unit_empty() {
    assert!(().is_empty());
}

#[test]
fn option_empty() {
    assert!(Option::<u8>::None.is_empty());
    assert!(!Some(1u8).is_empty());
}

#[test]
fn vec_empty() {
    assert!(IsEmpty::is_empty(&Vec::<u8>::new()));
    assert!(!IsEmpty::is_empty(&vec![1u8]));
}

#[test]
fn string_empty() {
    assert!(IsEmpty::is_empty(&String::new()));
    assert!(!IsEmpty::is_empty(&"hi".to_string()));
}

#[test]
fn hashmap_empty() {
    assert!(IsEmpty::is_empty(&HashMap::<u8, u8>::new()));
    assert!(!IsEmpty::is_empty(&HashMap::from([(1u8, 2u8)])));
}

#[test]
fn hashset_empty() {
    assert!(IsEmpty::is_empty(&HashSet::<u8>::new()));
    assert!(!IsEmpty::is_empty(&HashSet::from([1u8])));
}

#[test]
fn btreemap_empty() {
    assert!(IsEmpty::is_empty(&BTreeMap::<u8, u8>::new()));
    assert!(!IsEmpty::is_empty(&BTreeMap::from([(1u8, 2u8)])));
}

#[test]
fn btreeset_empty() {
    assert!(IsEmpty::is_empty(&BTreeSet::<u8>::new()));
    assert!(!IsEmpty::is_empty(&BTreeSet::from([1u8])));
}

#[test]
fn str_empty() {
    assert!(IsEmpty::is_empty(&""));
    assert!(!IsEmpty::is_empty(&"hi"));
}

#[test]
fn struct_empty_source() {
    assert_eq!(
        derive_is_empty(&my_struct_definition()),
        "impl ::isx::IsEmpty for MyStruct { fn is_empty(&self) -> bool { \
         self.foo.is_empty() && self.bar.is_empty() } }"
    );
}

#[test]
fn enum_empty_source() {
    assert_eq!(
        derive_is_empty(&my_enum_definition()),
        "impl ::isx::IsEmpty for MyEnum { fn is_empty(&self) -> bool { \
         match self { Self::Unit => { true }, \
         Self::Tuple(_f0, _f1) => { _f0.is_empty() && _f1.is_empty() }, \
         Self::Struct { x } => { x.is_empty() }, } } }"
    );
}

#[test]
fn enum_empty_follows_the_active_variant() {
    assert!(MyEnum::Unit.is_empty());
    assert!(MyEnum::Tuple(&[], "").is_empty());
    assert!(!MyEnum::Tuple(&[1], "").is_empty());
    assert!(!MyEnum::Tuple(&[], "x").is_empty());
    assert!(MyEnum::Struct { x: &[] }.is_empty());
    assert!(!MyEnum::Struct { x: &[1, 2] }.is_empty());
}
