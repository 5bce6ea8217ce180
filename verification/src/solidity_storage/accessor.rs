//! The accessor that a storage declaration gets: its name, its slot, and
//! for a mapping one argument for each level of keys.

use vstd::prelude::*;
use crate::solidity_storage::types::{
    ExtendedTypeArray, ExtendedTypeMapping, StorageInput, StorageItem, Type, TypeMapping,
};

verus! {

/// An argument of a generated key function.
#[derive(Debug)]
pub struct Arg {
    pub name: String,
    pub ty: String,
    pub is_output: bool,
}

/// The values that an argument holds.
pub struct ArgView {
    pub name: Seq<char>,
    pub ty: Seq<char>,
    pub is_output: bool,
}

impl View for Arg {
    type V = ArgView;

    open spec fn view(&self) -> ArgView {
        ArgView { name: self.name@, ty: self.ty@, is_output: self.is_output }
    }
}

/// The ten digits.
pub open spec fn digits() -> Seq<char> {
    seq!['0', '1', '2', '3', '4', '5', '6', '7', '8', '9']
}

/// `n` in decimal, without leading zeros.
pub open spec fn decimal(n: nat) -> Seq<char>
    decreases n,
{
    if n < 10 {
        seq![digits()[n as int]]
    } else {
        decimal(n / 10).push(digits()[(n % 10) as int])
    }
}

/// The name of the argument at position `i` where the key has no name of
/// its own: `arg` and the position in decimal.
pub open spec fn positional_name(i: nat) -> Seq<char> {
    seq!['a', 'r', 'g'] + decimal(i)
}

/// The argument for the key of `mapping`, at position `i`: named as the key
/// is, or by its position, and typed as the key is written.
pub open spec fn key_arg(mapping: TypeMapping, i: nat) -> ArgView {
    ArgView {
        name: match mapping.key_name {
            Some(name) => name@,
            None => positional_name(i),
        },
        ty: mapping.key@,
        is_output: false,
    }
}

/// The arguments for the keys of `mapping` and of the mappings nested in
/// its value, from the outside in, the first at position `i`.
pub open spec fn key_args(mapping: TypeMapping, i: nat) -> Seq<ArgView>
    decreases mapping,
{
    seq![key_arg(mapping, i)] + match *mapping.value {
        Type::Mapping(inner) => key_args(inner, i + 1),
        _ => Seq::empty(),
    }
}

/// The values of the arguments `args`.
pub open spec fn arg_views(args: Seq<Arg>) -> Seq<ArgView> {
    Seq::new(args.len(), |k: int| args[k]@)
}

/// The name of a positional argument. This is std's `format!` on `arg` and
/// an unsigned number, which writes the number in decimal without sign,
/// padding or leading zeros.
#[verifier::external_body]
fn positional(i: usize) -> (name: String)
    ensures
        name@ == positional_name(i as nat),
{
    format!("arg{}", i)
}

/// One argument for each level of keys of `mapping`.
pub fn process_mapping(mapping: &TypeMapping) -> (args: Vec<Arg>)
    ensures
        arg_views(args@) == key_args(*mapping, 0),
{
    let mut args: Vec<Arg> = Vec::new();
    let mut current_mapping = mapping;
    let mut i: usize = 0;
    loop
        invariant
            i == args@.len(),
            arg_views(args@) + key_args(*current_mapping, i as nat) == key_args(*mapping, 0),
        decreases current_mapping,
    {
        let mut arg = Arg {
            name: positional(i),
            ty: current_mapping.key.clone(),
            is_output: false,
        };
        if let Some(key_name) = &current_mapping.key_name {
            arg.name = key_name.clone();
        }
        let ghost before = arg_views(args@);
        let ghost position = i as nat;
        assert(arg@ == key_arg(*current_mapping, position));
        args.push(arg);
        assert(arg_views(args@) =~= before.push(key_arg(*current_mapping, position)));
        i = args.len();

        match &*current_mapping.value {
            Type::Mapping(inner_mapping) => {
                assert(arg_views(args@) + key_args(*inner_mapping, i as nat) =~= before + key_args(
                    *current_mapping,
                    position,
                ));
                current_mapping = inner_mapping;
            },
            _ => {
                assert(arg_views(args@) =~= before + key_args(*current_mapping, position));
                return args;
            },
        }
    }
}

/// What is generated for a storage declaration.
pub enum Accessor {
    /// For a mapping: a type `ident` at slot `slot` whose key function takes
    /// `args`.
    Mapping { ident: String, slot: usize, args: Vec<Arg> },
    /// For an array: a type `ident` at slot `slot`.
    Array { ident: String, slot: usize },
}

/// The values that an accessor holds.
pub enum AccessorView {
    Mapping { ident: Seq<char>, slot: usize, args: Seq<ArgView> },
    Array { ident: Seq<char>, slot: usize },
}

impl View for Accessor {
    type V = AccessorView;

    open spec fn view(&self) -> AccessorView {
        match *self {
            Accessor::Mapping { ident, slot, args } => AccessorView::Mapping {
                ident: ident@,
                slot,
                args: arg_views(args@),
            },
            Accessor::Array { ident, slot } => AccessorView::Array { ident: ident@, slot },
        }
    }
}

/// The accessor for the declaration `item` at slot `index`.
pub open spec fn accessor_for(item: StorageItem, index: usize) -> AccessorView {
    match item {
        StorageItem::Mapping(mapping) => AccessorView::Mapping {
            ident: mapping.ident@,
            slot: index,
            args: key_args(mapping.type_mapping, 0),
        },
        StorageItem::Array(array) => AccessorView::Array { ident: array.ident@, slot: index },
    }
}

/// The accessor for a mapping at slot `index`.
pub fn mapping_impl(mapping: &ExtendedTypeMapping, index: usize) -> (accessor: Accessor)
    ensures
        accessor@ == (AccessorView::Mapping {
            ident: mapping.ident@,
            slot: index,
            args: key_args(mapping.type_mapping, 0),
        }),
{
    let args = process_mapping(&mapping.type_mapping);
    Accessor::Mapping { ident: mapping.ident.clone(), slot: index, args }
}

/// The accessor for an array at slot `index`.
pub fn array_impl(array: &ExtendedTypeArray, index: usize) -> (accessor: Accessor)
    ensures
        accessor@ == (AccessorView::Array { ident: array.ident@, slot: index }),
{
    Accessor::Array { ident: array.ident.clone(), slot: index }
}

/// One accessor for each declaration, in order, each at the slot that is
/// its position.
pub fn generate_code(input: &StorageInput) -> (accessors: Vec<Accessor>)
    ensures
        accessors@.len() == input.items@.len(),
        forall|k: int|
            0 <= k < accessors@.len() ==> (#[trigger] accessors@[k])@ == accessor_for(
                input.items@[k],
                k as usize,
            ),
{
    let mut expanded: Vec<Accessor> = Vec::new();
    let mut index: usize = 0;
    while index < input.items.len()
        invariant
            index <= input.items@.len(),
            expanded@.len() == index,
            forall|k: int|
                0 <= k < index ==> (#[trigger] expanded@[k])@ == accessor_for(
                    input.items@[k],
                    k as usize,
                ),
        decreases input.items@.len() - index,
    {
        let item_tokens = match &input.items[index] {
            StorageItem::Mapping(mapping) => mapping_impl(mapping, index),
            StorageItem::Array(array) => array_impl(array, index),
        };
        expanded.push(item_tokens);
        index = index + 1;
    }
    expanded
}

} // verus!
