use isx::eval::Observation;
use isx::shape::{DefinitionData, RecordShape, TypeDefinition, VariantDefinition};
use isx::{derive_is_default, derive_is_default_impl, IsDefault};
use std::collections::{BTreeMap, BTreeSet, HashMap, HashSet};
use std::marker::PhantomData;

#[derive(Default, Debug, PartialEq)]
struct MyStruct {
    foo: &'static str,
    bar: bool,
}

fn my_struct_definition() -> TypeDefinition {
    TypeDefinition {
        name: "MyStruct".to_string(),
        data: DefinitionData::Struct {
            fields: RecordShape::NamedRecord { fields: vec!["foo".to_string(), "bar".to_string()] },
        },
    }
}

impl IsDefault for MyStruct {
    fn is_default_spec(&self) -> bool {
        self.is_default()
    }

    fn is_default(&self) -> bool {
        let predicate = derive_is_default_impl(&my_struct_definition()).unwrap();
        let observation = Observation {
            active: 0,
            members: vec![self.foo.is_default(), self.bar.is_default()],
            equals_default: *self == MyStruct::default(),
        };
        predicate.evaluate(&observation).unwrap()
    }
}

#[derive(Debug, PartialEq)]
enum MyEnum {
    Unit,
    Tuple(u8, &'static str),
    Struct { x: bool },
}

impl Default for MyEnum {
    fn default() -> Self {
        MyEnum::Unit
    }
}

fn my_enum_definition() -> TypeDefinition {
    TypeDefinition {
        name: "MyEnum".to_string(),
        data: DefinitionData::Enum {
            variants: vec![
                VariantDefinition {
                    name: "Unit".to_string(),
                    attributes: vec!["default".to_string()],
                    fields: RecordShape::UnitRecord,
                },
                VariantDefinition {
                    name: "Tuple".to_string(),
                    attributes: vec![],
                    fields: RecordShape::PositionalRecord { arity: 2 },
                },
                VariantDefinition {
                    name: "Struct".to_string(),
                    attributes: vec![],
                    fields: RecordShape::NamedRecord { fields: vec!["x".to_string()] },
                },
            ],
        },
    }
}

impl IsDefault for MyEnum {
    fn is_default_spec(&self) -> bool {
        self.is_default()
    }

    fn is_default(&self) -> bool {
        let predicate = derive_is_default_impl(&my_enum_definition()).unwrap();
        let (active, members) = match self {
            MyEnum::Unit => (0, vec![]),
            MyEnum::Tuple(a, b) => (1, vec![a.is_default(), b.is_default()]),
            MyEnum::Struct { x } => (2, vec![x.is_default()]),
        };
        let observation =
            Observation { active, members, equals_default: *self == MyEnum::default() };
        predicate.evaluate(&observation).unwrap()
    }
}

#[test]
fn struct_default() {
    assert!(MyStruct::default().is_default());
    assert!(
        !MyStruct {
            foo: "hi",
            bar: false
        }
        .is_default()
    );
}

#[test]
fn enum_default() {
    assert!(MyEnum::default().is_default());
    assert!(!MyEnum::Tuple(0, "").is_default());
    assert!(!MyEnum::Struct { x: false }.is_default());
}

#[test]
fn unit_default() {
    assert!(().is_default());
}

#[test]
fn option_default() {
    assert!(Option::<u8>::None.is_default());
    assert!(!Some(1u8).is_default());
}

#[test]
fn vec_default() {
    assert!(Vec::<u8>::new().is_default());
    assert!(!vec![1u8].is_default());
}

#[test]
fn string_default() {
    assert!(String::new().is_default());
    assert!(!"hi".to_string().is_default());
}

#[test]
fn hashmap_default() {
    assert!(HashMap::<u8, u8>::new().is_default());
    assert!(!HashMap::from([(1u8, 2u8)]).is_default());
}

#[test]
fn hashset_default() {
    assert!(HashSet::<u8>::new().is_default());
    assert!(!HashSet::from([1u8]).is_default());
}

#[test]
fn btreemap_default() {
    assert!(BTreeMap::<u8, u8>::new().is_default());
    assert!(!BTreeMap::from([(1u8, 2u8)]).is_default());
}

#[test]
fn btreeset_default() {
    assert!(BTreeSet::<u8>::new().is_default());
    assert!(!BTreeSet::from([1u8]).is_default());
}

#[test]
fn struct_default_source() {
    assert_eq!(
        derive_is_default(&my_struct_definition()),
        "impl ::isx::IsDefault for MyStruct { fn is_default(&self) -> bool { \
         self.foo.is_default() && self.bar.is_default() } }"
    );
}

#[test]
fn enum_default_source() {
    assert_eq!(
        derive_is_default(&my_enum_definition()),
        "impl ::isx::IsDefault for MyEnum { fn is_default(&self) -> bool { \
         match self { Self::Unit => { true }, _ => false, } } }"
    );
}

#[test]
fn enum_default_other_variants_never_default() {
    assert!(MyEnum::Unit.is_default());
    assert!(!MyEnum::Tuple(0, "").is_default());
    assert!(!MyEnum::Tuple(7, "x").is_default());
    assert!(!MyEnum::Struct { x: true }.is_default());
    assert!(MyEnum::Tuple(0, "").is_not_default());
    assert!(!MyEnum::Unit.is_not_default());
}

#[test]
fn bool_default() {
    assert!(false.is_default());
    assert!(!true.is_default());
    assert!(true.is_not_default());
    assert!(!false.is_not_default());
}

#[test]
fn integers_default() {
    assert!(0usize.is_default() && !1usize.is_default());
    assert!(0isize.is_default() && !(-1isize).is_default());
    assert!(0u8.is_default() && !u8::MAX.is_default());
    assert!(0u16.is_default() && !1u16.is_default());
    assert!(0u32.is_default() && !1u32.is_default());
    assert!(0u64.is_default() && !u64::MAX.is_default());
    assert!(0u128.is_default() && !1u128.is_default());
    assert!(0i8.is_default() && !i8::MIN.is_default());
    assert!(0i16.is_default() && !1i16.is_default());
    assert!(0i32.is_default() && !(-1i32).is_default());
    assert!(0i64.is_default() && !1i64.is_default());
    assert!(0i128.is_default() && !i128::MAX.is_default());
}

#[test]
fn str_default() {
    assert!("".is_default());
    assert!(!"hi".is_default());
    assert!("hi".is_not_default());
}

#[test]
fn phantom_default() {
    assert!(PhantomData::<u8>.is_default());
    assert!(!PhantomData::<String>.is_not_default());
}

#[test]
fn default_values_are_default() {
    assert!(bool::default().is_default());
    assert!(u32::default().is_default());
    assert!(String::default().is_default());
    assert!(Vec::<String>::default().is_default());
    assert!(Option::<String>::default().is_default());
    assert!(HashMap::<String, u8>::default().is_default());
    assert!(<&str>::default().is_default());
}
