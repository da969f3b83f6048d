//! The typed, source-position-annotated AST. Every node is built once by the
//! functions in `builder` and never mutated afterward. Location attachment
//! mirrors the grammar layer exactly: nodes whose production carries no span
//! (arguments, object fields, every value other than the nodes the grammar
//! layer positions) always report an absent location.

use vstd::prelude::*;
use crate::grammar::TextPos;

verus! {

/// Kind of an operation; a shorthand query gets `Query`.
#[derive(Clone, Copy, Debug, PartialEq, Eq, Structural)]
pub enum OperationKind {
    Query,
    Mutation,
    Subscription,
}

/// Source provenance: optional 1-based line and column.
#[derive(Clone, Copy, Debug, PartialEq, Eq)]
pub struct Loc {
    pub line: Option<usize>,
    pub column: Option<usize>,
}

/// The location attached to a node whose production carries the span `p`.
pub open spec fn loc_at(p: TextPos) -> Loc {
    Loc { line: Some(p.line), column: Some(p.column) }
}

/// The location attached for an optional span.
pub open spec fn loc_opt(p: Option<TextPos>) -> Option<Loc> {
    match p {
        Some(q) => Some(loc_at(q)),
        None => None,
    }
}

impl Loc {
    /// A present span becomes a present location with both fields set.
    pub fn new(pos: Option<TextPos>) -> (r: Option<Loc>)
        ensures
            r == loc_opt(pos),
    {
        match pos {
            Some(p) => Some(Loc { line: Some(p.line), column: Some(p.column) }),
            None => None,
        }
    }
}

/// A whole parsed query file: definitions in source order.
#[derive(Debug, PartialEq)]
pub struct Document {
    pub definitions: Vec<Definition>,
    pub loc: Option<Loc>,
}

/// A top-level construct.
#[derive(Debug, PartialEq)]
pub enum Definition {
    Operation(OperationDefinition),
    Fragment(FragmentDefinition),
}

/// A query, mutation or subscription. `shorthand` is true exactly when the
/// source had a bare selection set with no operation keyword; the kind then
/// defaults to `Query`, the name is absent, and the variable-definition and
/// directive sequences are empty.
#[derive(Debug, PartialEq)]
pub struct OperationDefinition {
    pub operation: OperationKind,
    pub loc: Option<Loc>,
    pub name: Option<String>,
    pub variable_definitions: Vec<VariableDefinition>,
    pub directives: Vec<Directive>,
    pub selection_set: SelectionSet,
    pub shorthand: bool,
}

/// A named fragment with its type condition.
#[derive(Debug, PartialEq)]
pub struct FragmentDefinition {
    pub name: String,
    pub type_condition: Type,
    pub directives: Vec<Directive>,
    pub selection_set: SelectionSet,
    pub loc: Option<Loc>,
}

/// `$x: Type = default`.
#[derive(Debug, PartialEq)]
pub struct VariableDefinition {
    pub default_value: Option<Value>,
    pub variable: Variable,
    pub var_type: Type,
    pub directives: Vec<Directive>,
    pub loc: Option<Loc>,
}

/// A `$name` reference.
#[derive(Debug, PartialEq)]
pub struct Variable {
    pub name: String,
    pub loc: Option<Loc>,
}

impl Variable {
    pub fn new(name: String, position: Option<TextPos>) -> (r: Self)
        ensures
            r.name == name,
            r.loc == loc_opt(position),
    {
        Variable { name, loc: Loc::new(position) }
    }
}

/// `@name(args)`.
#[derive(Debug, PartialEq)]
pub struct Directive {
    pub name: String,
    pub arguments: Vec<Argument>,
    pub loc: Option<Loc>,
}

/// `{ ... }`.
#[derive(Debug, PartialEq)]
pub struct SelectionSet {
    pub loc: Option<Loc>,
    pub selections: Vec<Selection>,
}

/// One entry in a selection set.
#[derive(Debug, PartialEq)]
pub enum Selection {
    Field(Field),
    FragmentSpread(FragmentSpread),
    InlineFragment(InlineFragment),
}

/// A type reference.
#[derive(Debug, PartialEq)]
pub enum Type {
    NamedType(NamedType),
    NonNullType(NonNullType),
    ListType(ListType),
}

/// `alias: name(args) @dir { sub }`. The nested selection set is present
/// iff the source selection set was non-empty: empty braces collapse to
/// an absent selection set.
#[derive(Debug, PartialEq)]
pub struct Field {
    pub loc: Option<Loc>,
    pub name: String,
    pub alias: Option<String>,
    pub directives: Vec<Directive>,
    pub arguments: Vec<Argument>,
    pub selection_set: Option<SelectionSet>,
}

/// `...Name @dir`.
#[derive(Debug, PartialEq)]
pub struct FragmentSpread {
    pub loc: Option<Loc>,
    pub name: String,
    pub directives: Vec<Directive>,
}

/// `... on Type @dir { sub }`.
#[derive(Debug, PartialEq)]
pub struct InlineFragment {
    pub loc: Option<Loc>,
    pub type_condition: Option<Type>,
    pub directives: Vec<Directive>,
    pub selection_set: SelectionSet,
}

/// A `name: value` pair; its production carries no span, so its location
/// is always absent.
#[derive(Debug, PartialEq)]
pub struct Argument {
    pub loc: Option<Loc>,
    pub name: String,
    pub value: Value,
}

/// A plain type name.
#[derive(Debug, PartialEq)]
pub struct NamedType {
    pub name: String,
    pub loc: Option<Loc>,
}

impl NamedType {
    pub fn new(name: String, position: Option<TextPos>) -> (r: Self)
        ensures
            r.name == name,
            r.loc == loc_opt(position),
    {
        NamedType { name, loc: Loc::new(position) }
    }
}

/// `Inner!`.
#[derive(Debug, PartialEq)]
pub struct NonNullType {
    pub of_type: Box<Type>,
    pub loc: Option<Loc>,
}

impl NonNullType {
    pub fn new(of_type: Type, position: Option<TextPos>) -> (r: Self)
        ensures
            *r.of_type == of_type,
            r.loc == loc_opt(position),
    {
        NonNullType { of_type: Box::new(of_type), loc: Loc::new(position) }
    }
}

/// `[Inner]`.
#[derive(Debug, PartialEq)]
pub struct ListType {
    pub of_type: Box<Type>,
    pub loc: Option<Loc>,
}

impl ListType {
    pub fn new(of_type: Type, position: Option<TextPos>) -> (r: Self)
        ensures
            *r.of_type == of_type,
            r.loc == loc_opt(position),
    {
        ListType { of_type: Box::new(of_type), loc: Loc::new(position) }
    }
}

/// A literal or variable reference.
#[derive(Debug, PartialEq)]
pub enum Value {
    StringValue(StringValue),
    IntValue(IntValue),
    FloatValue(FloatValue),
    BooleanValue(BooleanValue),
    EnumValue(EnumValue),
    NullValue(NullValue),
    Variable(Variable),
    ListValue(ListValue),
    ObjectValue(ObjectValue),
}

/// A string literal; the grammar layer surfaces no span for value
/// literals, so its location is absent like every other value's.
#[derive(Debug, PartialEq)]
pub struct StringValue {
    pub value: String,
    pub loc: Option<Loc>,
}

impl StringValue {
    pub fn new(value: String) -> (r: Self)
        ensures
            r.value == value,
            r.loc is None,
    {
        StringValue { value, loc: Loc::new(None) }
    }
}

/// An integer literal, within the signed 64-bit range.
#[derive(Debug, PartialEq)]
pub struct IntValue {
    pub value: i64,
    pub loc: Option<Loc>,
}

impl IntValue {
    pub fn new(value: i64) -> (r: Self)
        ensures
            r.value == value,
            r.loc is None,
    {
        IntValue { value, loc: Loc::new(None) }
    }
}

/// A float literal, carried as its IEEE-754 bit pattern, never interpreted.
#[derive(Debug, PartialEq)]
pub struct FloatValue {
    pub value_bits: u64,
    pub loc: Option<Loc>,
}

impl FloatValue {
    pub fn new(value_bits: u64) -> (r: Self)
        ensures
            r.value_bits == value_bits,
            r.loc is None,
    {
        FloatValue { value_bits, loc: Loc::new(None) }
    }
}

/// `true` or `false`.
#[derive(Debug, PartialEq)]
pub struct BooleanValue {
    pub value: bool,
    pub loc: Option<Loc>,
}

impl BooleanValue {
    pub fn new(value: bool) -> (r: Self)
        ensures
            r.value == value,
            r.loc is None,
    {
        BooleanValue { value, loc: Loc::new(None) }
    }
}

/// `null`.
#[derive(Debug, PartialEq)]
pub struct NullValue {
    pub loc: Option<Loc>,
}

impl NullValue {
    pub fn new() -> (r: Self)
        ensures
            r.loc is None,
    {
        NullValue { loc: Loc::new(None) }
    }
}

/// A bare identifier used as an enum value.
#[derive(Debug, PartialEq)]
pub struct EnumValue {
    pub value: String,
    pub loc: Option<Loc>,
}

impl EnumValue {
    pub fn new(value: String) -> (r: Self)
        ensures
            r.value == value,
            r.loc is None,
    {
        EnumValue { value, loc: Loc::new(None) }
    }
}

/// `[v, ...]`.
#[derive(Debug, PartialEq)]
pub struct ListValue {
    pub values: Vec<Value>,
    pub loc: Option<Loc>,
}

/// `{name: value, ...}`; fields come out sorted by name.
#[derive(Debug, PartialEq)]
pub struct ObjectValue {
    pub fields: Vec<ObjectField>,
    pub loc: Option<Loc>,
}

/// One `name: value` entry of an object literal; its production carries no
/// span, so its location is always absent.
#[derive(Debug, PartialEq)]
pub struct ObjectField {
    pub name: String,
    pub value: Value,
    pub loc: Option<Loc>,
}

} // verus!
