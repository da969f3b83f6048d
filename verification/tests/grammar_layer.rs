//! Runs the real grammar layer (the `graphql-parser` crate), converts its
//! parse tree into the library's generic tree, and checks the built AST.

use graphql_parser::query;
use graphql_parser::Pos;
use graphqlparser_native::ast::{Definition, Document, OperationKind, Selection, Type, Value};
use graphqlparser_native::grammar::{
    SourceDefinition, SourceDirective, SourceDocument, SourceField, SourceFragment,
    SourceFragmentSpread, SourceInlineFragment, SourceOperation, SourceOperationBody,
    SourceSelection, SourceSelectionSet, SourceType, SourceValue, SourceVariableDefinition,
    TextPos,
};

fn conv_pos(p: Pos) -> TextPos {
    TextPos { line: p.line, column: p.column }
}

fn conv_value(v: query::Value<String>) -> SourceValue {
    match v {
        query::Value::Variable(n) => SourceValue::Variable(n),
        query::Value::Int(n) => SourceValue::Int(n.as_i64().expect("in-range integer literal")),
        query::Value::Float(f) => SourceValue::Float(f.to_bits()),
        query::Value::String(s) => SourceValue::Str(s),
        query::Value::Boolean(b) => SourceValue::Boolean(b),
        query::Value::Null => SourceValue::Null,
        query::Value::Enum(e) => SourceValue::Enum(e),
        query::Value::List(vs) => SourceValue::List(vs.into_iter().map(conv_value).collect()),
        query::Value::Object(m) => {
            SourceValue::Object(m.into_iter().map(|(k, v)| (k, conv_value(v))).collect())
        }
    }
}

fn conv_arguments(args: Vec<(String, query::Value<String>)>) -> Vec<(String, SourceValue)> {
    args.into_iter().map(|(n, v)| (n, conv_value(v))).collect()
}

fn conv_directive(d: query::Directive<String>) -> SourceDirective {
    SourceDirective {
        position: conv_pos(d.position),
        name: d.name,
        arguments: conv_arguments(d.arguments),
    }
}

fn conv_directives(ds: Vec<query::Directive<String>>) -> Vec<SourceDirective> {
    ds.into_iter().map(conv_directive).collect()
}

fn conv_type(t: query::Type<String>) -> SourceType {
    match t {
        query::Type::NamedType(n) => SourceType::Named(n),
        query::Type::ListType(inner) => SourceType::List(Box::new(conv_type(*inner))),
        query::Type::NonNullType(inner) => SourceType::NonNull(Box::new(conv_type(*inner))),
    }
}

fn conv_selection(s: query::Selection<String>) -> SourceSelection {
    match s {
        query::Selection::Field(f) => SourceSelection::Field(SourceField {
            position: conv_pos(f.position),
            alias: f.alias,
            name: f.name,
            arguments: conv_arguments(f.arguments),
            directives: conv_directives(f.directives),
            selection_set: conv_selection_set(f.selection_set),
        }),
        query::Selection::FragmentSpread(fs) => {
            SourceSelection::FragmentSpread(SourceFragmentSpread {
                position: conv_pos(fs.position),
                fragment_name: fs.fragment_name,
                directives: conv_directives(fs.directives),
            })
        }
        query::Selection::InlineFragment(f) => {
            SourceSelection::InlineFragment(SourceInlineFragment {
                position: conv_pos(f.position),
                type_condition: f.type_condition.map(|query::TypeCondition::On(n)| n),
                directives: conv_directives(f.directives),
                selection_set: conv_selection_set(f.selection_set),
            })
        }
    }
}

fn conv_selection_set(ss: query::SelectionSet<String>) -> SourceSelectionSet {
    SourceSelectionSet {
        span: (conv_pos(ss.span.0), conv_pos(ss.span.1)),
        items: ss.items.into_iter().map(conv_selection).collect(),
    }
}

fn conv_variable_definition(vd: query::VariableDefinition<String>) -> SourceVariableDefinition {
    SourceVariableDefinition {
        position: conv_pos(vd.position),
        name: vd.name,
        var_type: conv_type(vd.var_type),
        default_value: vd.default_value.map(conv_value),
    }
}

fn conv_operation(op: query::OperationDefinition<String>) -> SourceOperation {
    match op {
        query::OperationDefinition::SelectionSet(ss) => {
            SourceOperation::SelectionSet(conv_selection_set(ss))
        }
        query::OperationDefinition::Query(q) => SourceOperation::Query(conv_operation_body(
            q.position, q.name, q.variable_definitions, q.directives, q.selection_set,
        )),
        query::OperationDefinition::Mutation(m) => SourceOperation::Mutation(conv_operation_body(
            m.position, m.name, m.variable_definitions, m.directives, m.selection_set,
        )),
        query::OperationDefinition::Subscription(s) => {
            SourceOperation::Subscription(conv_operation_body(
                s.position, s.name, s.variable_definitions, s.directives, s.selection_set,
            ))
        }
    }
}

fn conv_operation_body(
    position: Pos,
    name: Option<String>,
    variable_definitions: Vec<query::VariableDefinition<String>>,
    directives: Vec<query::Directive<String>>,
    selection_set: query::SelectionSet<String>,
) -> SourceOperationBody {
    SourceOperationBody {
        position: conv_pos(position),
        name,
        variable_definitions: variable_definitions
            .into_iter()
            .map(conv_variable_definition)
            .collect(),
        directives: conv_directives(directives),
        selection_set: conv_selection_set(selection_set),
    }
}

fn conv_document(d: query::Document<String>) -> SourceDocument {
    SourceDocument {
        definitions: d
            .definitions
            .into_iter()
            .map(|def| match def {
                query::Definition::Operation(op) => {
                    SourceDefinition::Operation(conv_operation(op))
                }
                query::Definition::Fragment(f) => SourceDefinition::Fragment(SourceFragment {
                    position: conv_pos(f.position),
                    name: f.name,
                    type_condition: match f.type_condition {
                        query::TypeCondition::On(n) => n,
                    },
                    directives: conv_directives(f.directives),
                    selection_set: conv_selection_set(f.selection_set),
                }),
            })
            .collect(),
    }
}

fn parse(text: &str) -> Result<Document, String> {
    match graphql_parser::parse_query::<String>(text) {
        Ok(ast) => Ok(Document::new(&conv_document(ast))),
        Err(e) => Err(e.to_string()),
    }
}

#[test]
fn shorthand_through_grammar_layer() {
    let out = parse("{ a }").expect("shorthand query should parse");
    assert_eq!(out.definitions.len(), 1);
    match &out.definitions[0] {
        Definition::Operation(op) => {
            assert_eq!(op.operation, OperationKind::Query);
            assert!(op.shorthand);
            assert!(op.name.is_none());
            assert!(op.variable_definitions.is_empty());
            assert!(op.directives.is_empty());
            match &op.selection_set.selections[0] {
                Selection::Field(f) => assert_eq!(f.name, "a"),
                _ => panic!("expected a field"),
            }
        }
        Definition::Fragment(_) => panic!("expected an operation"),
    }
}

#[test]
fn explicit_operation_through_grammar_layer() {
    let out = parse("query Foo($x: Int = 1) { a(b: $x) }").expect("query should parse");
    let op = match &out.definitions[0] {
        Definition::Operation(op) => op,
        Definition::Fragment(_) => panic!("expected an operation"),
    };
    assert_eq!(op.operation, OperationKind::Query);
    assert!(!op.shorthand);
    assert_eq!(op.name.as_deref(), Some("Foo"));
    assert_eq!(op.variable_definitions.len(), 1);
    assert_eq!(op.variable_definitions[0].variable.name, "x");
    match &op.variable_definitions[0].var_type {
        Type::NamedType(nt) => assert_eq!(nt.name, "Int"),
        _ => panic!("expected a named type"),
    }
    match &op.variable_definitions[0].default_value {
        Some(Value::IntValue(iv)) => assert_eq!(iv.value, 1),
        _ => panic!("expected an integer default"),
    }
    match &op.selection_set.selections[0] {
        Selection::Field(f) => {
            assert_eq!(f.name, "a");
            assert_eq!(f.arguments[0].name, "b");
            match &f.arguments[0].value {
                Value::Variable(v) => assert_eq!(v.name, "x"),
                _ => panic!("expected a variable reference"),
            }
        }
        _ => panic!("expected a field"),
    }
}

#[test]
fn fragment_through_grammar_layer() {
    let out = parse("fragment F on User { id }").expect("fragment should parse");
    let frag = match &out.definitions[0] {
        Definition::Fragment(f) => f,
        Definition::Operation(_) => panic!("expected a fragment"),
    };
    assert_eq!(frag.name, "F");
    match &frag.type_condition {
        Type::NamedType(nt) => assert_eq!(nt.name, "User"),
        _ => panic!("expected a named type condition"),
    }
    match &frag.selection_set.selections[0] {
        Selection::Field(f) => assert_eq!(f.name, "id"),
        _ => panic!("expected a field"),
    }
}

#[test]
fn syntax_error_surfaces() {
    let err = parse("{ a(").expect_err("unterminated argument list should fail");
    assert!(!err.is_empty());
    // the surfaced message carries the grammar layer's line:column position,
    // with both components at least 1
    let at = err.find(" at ").expect("message should name a position");
    let rest = &err[at + 4..];
    let pos: Vec<usize> = rest
        .split(|c: char| !c.is_ascii_digit())
        .take(2)
        .map(|n| n.parse().expect("numeric position"))
        .collect();
    assert!(pos[0] >= 1);
    assert!(pos[1] >= 1);
}

#[test]
fn oversized_integer_is_rejected_upstream() {
    // one past i64::MAX: the grammar layer refuses it before the builder runs
    assert!(parse("{ a(b: 9223372036854775808) }").is_err());
    // the largest in-range literal survives exactly
    let out = parse("{ a(b: 9223372036854775807) }").expect("in-range literal should parse");
    match &out.definitions[0] {
        Definition::Operation(op) => match &op.selection_set.selections[0] {
            Selection::Field(f) => match &f.arguments[0].value {
                Value::IntValue(iv) => assert_eq!(iv.value, 9223372036854775807),
                _ => panic!("expected an integer"),
            },
            _ => panic!("expected a field"),
        },
        _ => panic!("expected an operation"),
    }
}

#[test]
fn object_literal_sorted_through_grammar_layer() {
    let out = parse("{ a(b: {z: 1, a: 2}) }").expect("object literal should parse");
    match &out.definitions[0] {
        Definition::Operation(op) => match &op.selection_set.selections[0] {
            Selection::Field(f) => match &f.arguments[0].value {
                Value::ObjectValue(ov) => {
                    assert_eq!(ov.fields.len(), 2);
                    assert_eq!(ov.fields[0].name, "a");
                    assert_eq!(ov.fields[1].name, "z");
                }
                _ => panic!("expected an object"),
            },
            _ => panic!("expected a field"),
        },
        _ => panic!("expected an operation"),
    }
}

#[test]
fn locations_through_grammar_layer() {
    let out = parse("query { a }").expect("query should parse");
    let op = match &out.definitions[0] {
        Definition::Operation(op) => op,
        Definition::Fragment(_) => panic!("expected an operation"),
    };
    let oloc = op.loc.expect("operation location");
    assert_eq!(oloc.line, Some(1));
    assert_eq!(oloc.column, Some(1));
    assert!(op.selection_set.loc.is_some());
    match &op.selection_set.selections[0] {
        Selection::Field(f) => {
            let floc = f.loc.expect("field location");
            assert_eq!(floc.line, Some(1));
            assert_eq!(floc.column, Some(9));
        }
        _ => panic!("expected a field"),
    }
}

#[test]
fn directives_and_spreads_through_grammar_layer() {
    let out = parse("query Q @dir(x: true) { ...F ... on User { n } }").expect("should parse");
    let op = match &out.definitions[0] {
        Definition::Operation(op) => op,
        Definition::Fragment(_) => panic!("expected an operation"),
    };
    assert_eq!(op.directives.len(), 1);
    assert_eq!(op.directives[0].name, "dir");
    assert_eq!(op.directives[0].arguments[0].name, "x");
    match &op.selection_set.selections[0] {
        Selection::FragmentSpread(fs) => assert_eq!(fs.name, "F"),
        _ => panic!("expected a fragment spread"),
    }
    match &op.selection_set.selections[1] {
        Selection::InlineFragment(inf) => match &inf.type_condition {
            Some(Type::NamedType(nt)) => assert_eq!(nt.name, "User"),
            _ => panic!("expected a named type condition"),
        },
        _ => panic!("expected an inline fragment"),
    }
}
