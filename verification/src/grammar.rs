//! The generic parse tree that the grammar layer hands over: one node kind
//! per grammar production of the GraphQL query language, carrying plain
//! values and 1-based line/column spans. The builder in `builder` turns this
//! tree into the typed AST of `ast`.

use vstd::prelude::*;

verus! {

/// A source position as the grammar layer reports it: 1-based line and column.
#[derive(Clone, Copy, Debug, PartialEq, Eq, Structural)]
pub struct TextPos {
    pub line: usize,
    pub column: usize,
}

/// A whole parsed query document: its top-level definitions in source order.
#[derive(Debug, PartialEq)]
pub struct SourceDocument {
    pub definitions: Vec<SourceDefinition>,
}

/// One top-level construct: an operation or a fragment definition.
#[derive(Debug, PartialEq)]
pub enum SourceDefinition {
    Operation(SourceOperation),
    Fragment(SourceFragment),
}

/// The four grammar shapes of an operation: a bare selection set
/// (shorthand query), or an explicit `query` / `mutation` / `subscription`.
#[derive(Debug, PartialEq)]
pub enum SourceOperation {
    SelectionSet(SourceSelectionSet),
    Query(SourceOperationBody),
    Mutation(SourceOperationBody),
    Subscription(SourceOperationBody),
}

/// The body shared by the three explicit operation keywords.
#[derive(Debug, PartialEq)]
pub struct SourceOperationBody {
    pub position: TextPos,
    pub name: Option<String>,
    pub variable_definitions: Vec<SourceVariableDefinition>,
    pub directives: Vec<SourceDirective>,
    pub selection_set: SourceSelectionSet,
}

/// A named fragment definition with its `on Type` condition.
#[derive(Debug, PartialEq)]
pub struct SourceFragment {
    pub position: TextPos,
    pub name: String,
    pub type_condition: String,
    pub directives: Vec<SourceDirective>,
    pub selection_set: SourceSelectionSet,
}

/// A brace-delimited selection set; `span` is its opening and closing position.
#[derive(Debug, PartialEq)]
pub struct SourceSelectionSet {
    pub span: (TextPos, TextPos),
    pub items: Vec<SourceSelection>,
}

/// One entry of a selection set.
#[derive(Debug, PartialEq)]
pub enum SourceSelection {
    Field(SourceField),
    FragmentSpread(SourceFragmentSpread),
    InlineFragment(SourceInlineFragment),
}

/// `alias: name(args) @dirs { sub }`; an absent sub-selection comes in as a
/// selection set with zero items.
#[derive(Debug, PartialEq)]
pub struct SourceField {
    pub position: TextPos,
    pub alias: Option<String>,
    pub name: String,
    pub arguments: Vec<(String, SourceValue)>,
    pub directives: Vec<SourceDirective>,
    pub selection_set: SourceSelectionSet,
}

/// `...Name @dirs`.
#[derive(Debug, PartialEq)]
pub struct SourceFragmentSpread {
    pub position: TextPos,
    pub fragment_name: String,
    pub directives: Vec<SourceDirective>,
}

/// `... on Type @dirs { sub }`; the type condition is optional.
#[derive(Debug, PartialEq)]
pub struct SourceInlineFragment {
    pub position: TextPos,
    pub type_condition: Option<String>,
    pub directives: Vec<SourceDirective>,
    pub selection_set: SourceSelectionSet,
}

/// `$name: Type = default` in an operation's variable list.
#[derive(Debug, PartialEq)]
pub struct SourceVariableDefinition {
    pub position: TextPos,
    pub name: String,
    pub var_type: SourceType,
    pub default_value: Option<SourceValue>,
}

/// A type reference: a name, possibly wrapped in list or non-null markers.
#[derive(Debug, PartialEq)]
pub enum SourceType {
    Named(String),
    List(Box<SourceType>),
    NonNull(Box<SourceType>),
}

/// `@name(args)`.
#[derive(Debug, PartialEq)]
pub struct SourceDirective {
    pub position: TextPos,
    pub name: String,
    pub arguments: Vec<(String, SourceValue)>,
}

/// A literal or variable reference. The grammar layer guarantees integer
/// literals fit a signed 64-bit value; it rejects larger ones as syntax
/// errors. A float literal is carried as its IEEE-754 bit pattern, which the
/// library never interprets. An object literal arrives as its name/value
/// pairs; the builder emits them sorted by name.
#[derive(Debug, PartialEq)]
pub enum SourceValue {
    Variable(String),
    Int(i64),
    Float(u64),
    Str(String),
    Boolean(bool),
    Null,
    Enum(String),
    List(Vec<SourceValue>),
    Object(Vec<(String, SourceValue)>),
}

} // verus!
