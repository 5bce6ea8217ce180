use fluentbase_runtime::solidity_storage::accessor::{
    array_impl, generate_code, mapping_impl, process_mapping, Accessor,
};
use fluentbase_runtime::solidity_storage::types::{
    ExtendedTypeArray, ExtendedTypeMapping, ParseError, StorageInput, StorageItem, Type, TypeArray,
    TypeMapping,
};

fn convert_type(ty: &syn_solidity::Type) -> Type {
    match ty {
        syn_solidity::Type::Mapping(mapping) => Type::Mapping(convert_mapping(mapping)),
        syn_solidity::Type::Array(array) => Type::Array(TypeArray {
            ty: Box::new(convert_type(&array.ty)),
        }),
        syn_solidity::Type::Custom(path) => Type::Custom(path.to_string()),
        other => Type::Other(other.to_string()),
    }
}

fn convert_mapping(mapping: &syn_solidity::TypeMapping) -> TypeMapping {
    TypeMapping {
        key: mapping.key.to_string(),
        key_name: mapping.key_name.as_ref().map(|name| name.0.to_string()),
        value: Box::new(convert_type(&mapping.value)),
    }
}

fn parse_mapping(text: &str) -> TypeMapping {
    let mapping: syn_solidity::TypeMapping = syn::parse_str(text).unwrap();
    convert_mapping(&mapping)
}

fn parse_type(text: &str) -> Type {
    let ty: syn_solidity::Type = syn::parse_str(text).unwrap();
    convert_type(&ty)
}

fn mapping(key: &str, key_name: Option<&str>, value: Type) -> TypeMapping {
    TypeMapping {
        key: key.to_string(),
        key_name: key_name.map(|name| name.to_string()),
        value: Box::new(value),
    }
}

#[test]
fn test_process_mapping_single_level() {
    let mapping = parse_mapping("mapping(Address => MyStruct)");

    let args = process_mapping(&mapping);

    assert_eq!(args.len(), 1);
    assert_eq!(args[0].name.to_string(), "arg0");
    assert_eq!(args[0].ty.to_string(), "Address");
}

#[test]
fn test_process_mapping_nested() {
    let mapping = parse_mapping(
        "mapping(Address owner => mapping(Address users => mapping(Address balances => MyStruct)))",
    );

    let args = process_mapping(&mapping);

    assert_eq!(args.len(), 3);
    assert_eq!(args[0].name.to_string(), "owner");
    assert_eq!(args[0].ty.to_string(), "Address");

    assert_eq!(args[1].name.to_string(), "users");
    assert_eq!(args[1].ty.to_string(), "Address");

    assert_eq!(args[2].name.to_string(), "balances");
    assert_eq!(args[2].ty.to_string(), "Address");
}

#[test]
fn positional_names_count_in_decimal() {
    let mut nested = mapping("uint256", None, Type::Custom("Leaf".to_string()));
    for _ in 0..11 {
        nested = mapping("uint256", None, Type::Mapping(nested));
    }
    let args = process_mapping(&nested);
    let names: Vec<&str> = args.iter().map(|arg| arg.name.as_str()).collect();
    assert_eq!(
        names,
        vec![
            "arg0", "arg1", "arg2", "arg3", "arg4", "arg5", "arg6", "arg7", "arg8", "arg9",
            "arg10", "arg11"
        ]
    );
    assert!(args.iter().all(|arg| arg.ty == "uint256" && !arg.is_output));
}

#[test]
fn named_and_positional_keys_mix() {
    let inner = mapping("bytes32", None, Type::Other("uint256".to_string()));
    let outer = mapping("address", Some("owner"), Type::Mapping(inner));
    let args = process_mapping(&outer);
    assert_eq!(args.len(), 2);
    assert_eq!(args[0].name, "owner");
    assert_eq!(args[0].ty, "address");
    assert_eq!(args[1].name, "arg1");
    assert_eq!(args[1].ty, "bytes32");
}

#[test]
fn mapping_inside_an_array_value_is_not_followed() {
    let inner = mapping("address", Some("hidden"), Type::Other("bool".to_string()));
    let value = Type::Array(TypeArray {
        ty: Box::new(Type::Mapping(inner)),
    });
    let args = process_mapping(&mapping("uint8", None, value));
    assert_eq!(args.len(), 1);
    assert_eq!(args[0].name, "arg0");
    assert_eq!(args[0].ty, "uint8");
}

#[test]
fn items_are_told_apart_by_their_type() {
    match StorageItem::new(parse_type("uint256[]"), "Values".to_string()) {
        Ok(StorageItem::Array(array)) => assert_eq!(array.ident, "Values"),
        _ => panic!("an array was expected"),
    }
    match StorageItem::new(
        parse_type("mapping(address => uint256)"),
        "Balances".to_string(),
    ) {
        Ok(StorageItem::Mapping(mapping)) => {
            assert_eq!(mapping.ident, "Balances");
            assert_eq!(mapping.type_mapping.key, "address");
        }
        _ => panic!("a mapping was expected"),
    }
    // an array of mappings is an array
    assert!(matches!(
        StorageItem::new(parse_type("mapping(address => uint256)[]"), "M".to_string()),
        Ok(StorageItem::Array(_))
    ));
    match StorageItem::new(parse_type("uint256"), "Plain".to_string()) {
        Err(err) => {
            assert_eq!(err, ParseError::NeitherMappingNorArray);
            assert_eq!(
                err.message(),
                "Failed to parse input as ExtendedTypeMapping or ExtendedTypeArray"
            );
        }
        Ok(_) => panic!("a plain type is no storage item"),
    }
    assert!(matches!(
        StorageItem::new(Type::Custom("MyStruct".to_string()), "S".to_string()),
        Err(ParseError::NeitherMappingNorArray)
    ));
}

#[test]
fn an_array_declaration_needs_an_array() {
    match ExtendedTypeArray::new(parse_type("address[4]"), "Owners".to_string()) {
        Ok(array) => {
            assert_eq!(array.ident, "Owners");
            assert!(matches!(*array.type_array.ty, Type::Other(ref text) if text == "address"));
        }
        Err(_) => panic!("an array was expected"),
    }
    match ExtendedTypeArray::new(parse_type("mapping(address => bool)"), "Flags".to_string()) {
        Err(err) => {
            assert_eq!(err, ParseError::ExpectedArray);
            assert_eq!(err.message(), "Expected an array type");
        }
        Ok(_) => panic!("a mapping is no array"),
    }
}

#[test]
fn accessors_take_their_slot_from_their_position() {
    let input = StorageInput {
        items: vec![
            StorageItem::new(
                parse_type("mapping(address owner => mapping(uint256 => bool))"),
                "Approvals".to_string(),
            )
            .unwrap(),
            StorageItem::new(parse_type("uint256[]"), "Values".to_string()).unwrap(),
            StorageItem::new(parse_type("mapping(bytes32 => MyStruct)"), "Records".to_string())
                .unwrap(),
        ],
    };
    let accessors = generate_code(&input);
    assert_eq!(accessors.len(), 3);
    match &accessors[0] {
        Accessor::Mapping { ident, slot, args } => {
            assert_eq!(ident, "Approvals");
            assert_eq!(*slot, 0);
            assert_eq!(args.len(), 2);
            assert_eq!((args[0].name.as_str(), args[0].ty.as_str()), ("owner", "address"));
            assert_eq!((args[1].name.as_str(), args[1].ty.as_str()), ("arg1", "uint256"));
        }
        _ => panic!("a mapping accessor was expected"),
    }
    match &accessors[1] {
        Accessor::Array { ident, slot } => {
            assert_eq!(ident, "Values");
            assert_eq!(*slot, 1);
        }
        _ => panic!("an array accessor was expected"),
    }
    match &accessors[2] {
        Accessor::Mapping { ident, slot, args } => {
            assert_eq!(ident, "Records");
            assert_eq!(*slot, 2);
            assert_eq!(args.len(), 1);
            assert_eq!((args[0].name.as_str(), args[0].ty.as_str()), ("arg0", "bytes32"));
        }
        _ => panic!("a mapping accessor was expected"),
    }
    assert!(generate_code(&StorageInput { items: vec![] }).is_empty());
}

#[test]
fn single_accessors() {
    let declared = ExtendedTypeMapping::new(
        parse_mapping("mapping(address => uint256)"),
        "Balances".to_string(),
    );
    match mapping_impl(&declared, 7) {
        Accessor::Mapping { ident, slot, args } => {
            assert_eq!(ident, "Balances");
            assert_eq!(slot, 7);
            assert_eq!(args.len(), 1);
        }
        _ => panic!("a mapping accessor was expected"),
    }
    let array = ExtendedTypeArray::new(parse_type("bool[]"), "Flags".to_string()).unwrap();
    match array_impl(&array, 3) {
        Accessor::Array { ident, slot } => {
            assert_eq!(ident, "Flags");
            assert_eq!(slot, 3);
        }
        _ => panic!("an array accessor was expected"),
    }
}
