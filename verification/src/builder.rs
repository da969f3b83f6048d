//! The recursive builder: one function per grammar production, turning the
//! generic parse tree into the typed AST. For each production a spec relation
//! `builds_*` pins the node that the builder returns — kind, name, order of
//! children, location — as a function of the source node alone; every builder
//! ensures its relation.

use vstd::prelude::*;
use crate::ast::{
    loc_at, Argument, Definition, Directive, Document, Field, FragmentDefinition, FragmentSpread,
    InlineFragment, ListType, ListValue, Loc, NamedType, NonNullType, ObjectField, ObjectValue,
    OperationDefinition, OperationKind, Selection, SelectionSet, Type, Value, Variable,
    VariableDefinition, BooleanValue, EnumValue, FloatValue, IntValue, NullValue, StringValue,
};
use crate::grammar::{
    SourceDefinition, SourceDirective, SourceDocument, SourceField, SourceFragment,
    SourceFragmentSpread, SourceInlineFragment, SourceOperation, SourceOperationBody,
    SourceSelection, SourceSelectionSet, SourceType, SourceValue, SourceVariableDefinition,
};
use crate::order::{
    lex_le, obj_names, perm_view, sorted_field_order, stable_sorted_perm,
};

verus! {

/// How a whole document is built: definitions in source order, no location.
pub open spec fn builds_document(src: SourceDocument, out: Document) -> bool
    decreases src, 0int,
{
    &&& out.loc is None
    &&& out.definitions@.len() == src.definitions@.len()
    &&& forall|i: int|
        0 <= i < src.definitions@.len() ==> builds_definition(
            src.definitions@[i],
            #[trigger] out.definitions@[i],
        )
}

/// A top-level definition keeps its variant.
pub open spec fn builds_definition(src: SourceDefinition, out: Definition) -> bool
    decreases src, 0int,
{
    match src {
        SourceDefinition::Operation(op) => out matches Definition::Operation(o)
            && builds_operation(op, o),
        SourceDefinition::Fragment(f) => out matches Definition::Fragment(o)
            && builds_fragment(f, o),
    }
}

/// Operation-kind resolution: the three explicit keywords map to their kind
/// with `shorthand` false; a bare selection set maps to kind `Query` with
/// `shorthand` true, no name, and empty variable-definition and directive
/// sequences, its location taken from the span the grammar layer reports
/// for the bare form.
pub open spec fn builds_operation(src: SourceOperation, out: OperationDefinition) -> bool
    decreases src, 0int,
{
    match src {
        SourceOperation::Query(b) => out.operation == OperationKind::Query && !out.shorthand
            && builds_operation_body(b, out),
        SourceOperation::Mutation(b) => out.operation == OperationKind::Mutation && !out.shorthand
            && builds_operation_body(b, out),
        SourceOperation::Subscription(b) => out.operation == OperationKind::Subscription
            && !out.shorthand && builds_operation_body(b, out),
        SourceOperation::SelectionSet(ss) => {
            &&& out.operation == OperationKind::Query
            &&& out.shorthand
            &&& out.name is None
            &&& out.variable_definitions@.len() == 0
            &&& out.directives@.len() == 0
            &&& out.loc == Some(loc_at(ss.span.1))
            &&& builds_selection_set(ss, out.selection_set)
        },
    }
}

/// The parts shared by the three explicit operation forms.
pub open spec fn builds_operation_body(src: SourceOperationBody, out: OperationDefinition) -> bool
    decreases src, 0int,
{
    &&& out.loc == Some(loc_at(src.position))
    &&& out.name == src.name
    &&& out.variable_definitions@.len() == src.variable_definitions@.len()
    &&& forall|i: int|
        0 <= i < src.variable_definitions@.len() ==> builds_variable_definition(
            src.variable_definitions@[i],
            #[trigger] out.variable_definitions@[i],
        )
    &&& out.directives@.len() == src.directives@.len()
    &&& forall|i: int|
        0 <= i < src.directives@.len() ==> builds_directive(
            src.directives@[i],
            #[trigger] out.directives@[i],
        )
    &&& builds_selection_set(src.selection_set, out.selection_set)
}

/// A fragment definition: its type condition becomes a named type without
/// a location of its own.
pub open spec fn builds_fragment(src: SourceFragment, out: FragmentDefinition) -> bool
    decreases src, 0int,
{
    &&& out.loc == Some(loc_at(src.position))
    &&& out.name == src.name
    &&& out.type_condition matches Type::NamedType(nt) && nt.name == src.type_condition
        && nt.loc is None
    &&& out.directives@.len() == src.directives@.len()
    &&& forall|i: int|
        0 <= i < src.directives@.len() ==> builds_directive(
            src.directives@[i],
            #[trigger] out.directives@[i],
        )
    &&& builds_selection_set(src.selection_set, out.selection_set)
}

/// A selection set: its location is the opening position of its span, its
/// selections follow the source order.
pub open spec fn builds_selection_set(src: SourceSelectionSet, out: SelectionSet) -> bool
    decreases src, 0int,
{
    &&& out.loc == Some(loc_at(src.span.0))
    &&& out.selections@.len() == src.items@.len()
    &&& forall|i: int|
        0 <= i < src.items@.len() ==> builds_selection(
            src.items@[i],
            #[trigger] out.selections@[i],
        )
}

/// A selection keeps its variant.
pub open spec fn builds_selection(src: SourceSelection, out: Selection) -> bool
    decreases src, 0int,
{
    match src {
        SourceSelection::Field(f) => out matches Selection::Field(o) && builds_field(f, o),
        SourceSelection::FragmentSpread(f) => out matches Selection::FragmentSpread(o)
            && builds_fragment_spread(f, o),
        SourceSelection::InlineFragment(f) => out matches Selection::InlineFragment(o)
            && builds_inline_fragment(f, o),
    }
}

/// A field: name, alias, arguments and directives in source order; its
/// nested selection set is present iff the source one has items — empty
/// braces collapse to an absent selection set.
pub open spec fn builds_field(src: SourceField, out: Field) -> bool
    decreases src, 0int,
{
    &&& out.loc == Some(loc_at(src.position))
    &&& out.name == src.name
    &&& out.alias == src.alias
    &&& out.arguments@.len() == src.arguments@.len()
    &&& forall|i: int|
        0 <= i < src.arguments@.len() ==> builds_argument(
            src.arguments@[i],
            #[trigger] out.arguments@[i],
        )
    &&& out.directives@.len() == src.directives@.len()
    &&& forall|i: int|
        0 <= i < src.directives@.len() ==> builds_directive(
            src.directives@[i],
            #[trigger] out.directives@[i],
        )
    &&& if src.selection_set.items@.len() == 0 {
        out.selection_set is None
    } else {
        out.selection_set matches Some(ss) && builds_selection_set(src.selection_set, ss)
    }
}

/// `...Name @dirs`.
pub open spec fn builds_fragment_spread(src: SourceFragmentSpread, out: FragmentSpread) -> bool
    decreases src, 0int,
{
    &&& out.loc == Some(loc_at(src.position))
    &&& out.name == src.fragment_name
    &&& out.directives@.len() == src.directives@.len()
    &&& forall|i: int|
        0 <= i < src.directives@.len() ==> builds_directive(
            src.directives@[i],
            #[trigger] out.directives@[i],
        )
}

/// `... on Type @dirs { sub }`: an absent type condition stays absent; a
/// present one becomes a named type without a location of its own.
pub open spec fn builds_inline_fragment(src: SourceInlineFragment, out: InlineFragment) -> bool
    decreases src, 0int,
{
    &&& out.loc == Some(loc_at(src.position))
    &&& match src.type_condition {
        None => out.type_condition is None,
        Some(n) => out.type_condition matches Some(t) && t matches Type::NamedType(nt)
            && nt.name == n && nt.loc is None,
    }
    &&& out.directives@.len() == src.directives@.len()
    &&& forall|i: int|
        0 <= i < src.directives@.len() ==> builds_directive(
            src.directives@[i],
            #[trigger] out.directives@[i],
        )
    &&& builds_selection_set(src.selection_set, out.selection_set)
}

/// `$x: Type = default`: the variable reference reuses the definition's
/// position; the directive sequence is always empty, since the grammar
/// layer attaches no directives to a variable definition.
pub open spec fn builds_variable_definition(
    src: SourceVariableDefinition,
    out: VariableDefinition,
) -> bool
    decreases src, 0int,
{
    &&& out.loc == Some(loc_at(src.position))
    &&& out.variable.name == src.name
    &&& out.variable.loc == Some(loc_at(src.position))
    &&& out.directives@.len() == 0
    &&& builds_type(src.var_type, out.var_type)
    &&& match src.default_value {
        None => out.default_value is None,
        Some(v) => out.default_value matches Some(ov) && builds_value(v, ov),
    }
}

/// A type reference: wrappers unwrap recursively down to a named leaf; none
/// of the nodes carries a location.
pub open spec fn builds_type(src: SourceType, out: Type) -> bool
    decreases src, 0int,
{
    match src {
        SourceType::Named(n) => out matches Type::NamedType(nt) && nt.name == n && nt.loc is None,
        SourceType::NonNull(inner) => out matches Type::NonNullType(nn) && nn.loc is None
            && builds_type(*inner, *nn.of_type),
        SourceType::List(inner) => out matches Type::ListType(lt) && lt.loc is None
            && builds_type(*inner, *lt.of_type),
    }
}

/// `@name(args)`.
pub open spec fn builds_directive(src: SourceDirective, out: Directive) -> bool
    decreases src, 0int,
{
    &&& out.loc == Some(loc_at(src.position))
    &&& out.name == src.name
    &&& out.arguments@.len() == src.arguments@.len()
    &&& forall|i: int|
        0 <= i < src.arguments@.len() ==> builds_argument(
            src.arguments@[i],
            #[trigger] out.arguments@[i],
        )
}

/// A `name: value` pair; the grammar layer surfaces no span for it, so its
/// location is absent.
pub open spec fn builds_argument(src: (String, SourceValue), out: Argument) -> bool
    decreases src, 0int,
{
    &&& out.loc is None
    &&& out.name == src.0
    &&& builds_value(src.1, out.value)
}

/// Value translation: each source literal kind maps to exactly one variant;
/// no value carries a location. Lists keep source order; object fields come
/// out sorted by name.
pub open spec fn builds_value(src: SourceValue, out: Value) -> bool
    decreases src, 0int,
{
    match src {
        SourceValue::Variable(n) => out matches Value::Variable(v) && v.name == n
            && v.loc is None,
        SourceValue::Int(i) => out matches Value::IntValue(iv) && iv.value == i && iv.loc is None,
        SourceValue::Float(bits) => out matches Value::FloatValue(fv) && fv.value_bits == bits
            && fv.loc is None,
        SourceValue::Str(s) => out matches Value::StringValue(sv) && sv.value == s
            && sv.loc is None,
        SourceValue::Boolean(b) => out matches Value::BooleanValue(bv) && bv.value == b
            && bv.loc is None,
        SourceValue::Null => out matches Value::NullValue(nv) && nv.loc is None,
        SourceValue::Enum(e) => out matches Value::EnumValue(ev) && ev.value == e
            && ev.loc is None,
        SourceValue::List(vs) => out matches Value::ListValue(lv) && lv.loc is None
            && lv.values@.len() == vs@.len() && builds_value_seq(vs@, lv.values@),
        SourceValue::Object(ps) => out matches Value::ObjectValue(ov) && ov.loc is None
            && builds_object(ps@, ov.fields@),
    }
}

/// Pointwise value translation of a sequence, in order.
pub open spec fn builds_value_seq(srcs: Seq<SourceValue>, outs: Seq<Value>) -> bool
    decreases srcs, 0int,
{
    &&& outs.len() == srcs.len()
    &&& forall|i: int| 0 <= i < srcs.len() ==> builds_value(srcs[i], #[trigger] outs[i])
}

/// An object literal's fields, emitted in the stable ascending order of
/// their names.
pub open spec fn builds_object(
    ps: Seq<(String, SourceValue)>,
    fields: Seq<ObjectField>,
) -> bool
    decreases ps, 1int,
{
    &&& fields.len() == ps.len()
    &&& exists|perm: Seq<int>|
        stable_sorted_perm(perm, obj_names(ps)) && builds_fields_with(ps, perm, fields)
}

/// The fields an object literal yields when its pairs are taken in the
/// order `perm`.
pub open spec fn builds_fields_with(
    ps: Seq<(String, SourceValue)>,
    perm: Seq<int>,
    fields: Seq<ObjectField>,
) -> bool
    decreases ps, 0int,
{
    forall|k: int|
        0 <= k < fields.len() ==> 0 <= perm[k] < ps.len() && builds_object_field(
            ps[perm[k]],
            #[trigger] fields[k],
        )
}

/// One `name: value` entry of an object literal; no location.
pub open spec fn builds_object_field(src: (String, SourceValue), out: ObjectField) -> bool
    decreases src, 0int,
{
    &&& out.loc is None
    &&& out.name == src.0
    &&& builds_value(src.1, out.value)
}

fn clone_opt_string(s: &Option<String>) -> (r: Option<String>)
    ensures
        r == *s,
{
    match s {
        Some(x) => Some(x.clone()),
        None => None,
    }
}

impl Type {
    /// Recursive unwrap of non-null / list wrappers down to a named leaf.
    pub fn build(t: &SourceType) -> (out: Self)
        ensures
            builds_type(*t, out),
        decreases *t,
    {
        match t {
            SourceType::Named(name) => Type::NamedType(NamedType::new(name.clone(), None)),
            SourceType::NonNull(inner) => Type::NonNullType(
                NonNullType::new(Type::build(&*inner), None),
            ),
            SourceType::List(inner) => Type::ListType(ListType::new(Type::build(&*inner), None)),
        }
    }
}

impl Value {
    /// Single dispatch over the source literal kinds.
    pub fn build(value: &SourceValue) -> (out: Self)
        ensures
            builds_value(*value, out),
        decreases *value, 0int,
    {
        match value {
            SourceValue::Str(s) => Value::StringValue(StringValue::new(s.clone())),
            SourceValue::Int(i) => Value::IntValue(IntValue::new(*i)),
            SourceValue::Float(bits) => Value::FloatValue(FloatValue::new(*bits)),
            SourceValue::Boolean(b) => Value::BooleanValue(BooleanValue::new(*b)),
            SourceValue::Enum(e) => Value::EnumValue(EnumValue::new(e.clone())),
            SourceValue::Variable(n) => Value::Variable(Variable::new(n.clone(), None)),
            SourceValue::List(vs) => Value::ListValue(ListValue::new(vs)),
            SourceValue::Object(ps) => Value::ObjectValue(ObjectValue::new(ps)),
            SourceValue::Null => Value::NullValue(NullValue::new()),
        }
    }
}

impl ListValue {
    /// Elements translated one by one, in source order.
    pub fn new(values: &Vec<SourceValue>) -> (out: Self)
        ensures
            out.loc is None,
            out.values@.len() == values@.len(),
            builds_value_seq(values@, out.values@),
        decreases *values, 0int,
    {
        let mut built: Vec<Value> = Vec::new();
        let mut i: usize = 0;
        while i < values.len()
            invariant
                i <= values@.len(),
                built@.len() == i,
                forall|k: int| 0 <= k < i ==> builds_value(values@[k], #[trigger] built@[k]),
            decreases values@.len() - i,
        {
            proof {
                assert(decreases_to!(*values => values@[i as int]));
            }
            built.push(Value::build(&values[i]));
            i = i + 1;
        }
        ListValue { values: built, loc: Loc::new(None) }
    }
}

impl ObjectValue {
    /// Fields emitted in the stable ascending order of their names,
    /// whatever their source order.
    pub fn new(pairs: &Vec<(String, SourceValue)>) -> (out: Self)
        ensures
            out.loc is None,
            builds_object(pairs@, out.fields@),
        decreases *pairs, 0int,
    {
        let ghost names = obj_names(pairs@);
        let perm = sorted_field_order(pairs);
        let ghost pv = perm_view(perm@);
        let mut fields: Vec<ObjectField> = Vec::new();
        let mut k: usize = 0;
        while k < perm.len()
            invariant
                k <= perm@.len(),
                fields@.len() == k,
                names == obj_names(pairs@),
                names.len() == pairs@.len(),
                pv == perm_view(perm@),
                stable_sorted_perm(pv, names),
                forall|m: int|
                    0 <= m < k ==> 0 <= pv[m] < pairs@.len() && builds_object_field(
                        pairs@[pv[m]],
                        #[trigger] fields@[m],
                    ),
            decreases perm@.len() - k,
        {
            let p = perm[k];
            proof {
                assert(pv[k as int] == p as int);
                assert(0 <= pv[k as int] < pairs@.len());
                assert(decreases_to!(*pairs => pairs@[p as int].1));
            }
            fields.push(ObjectField::new(pairs[p].0.clone(), &pairs[p].1));
            k = k + 1;
        }
        proof {
            assert(builds_fields_with(pairs@, pv, fields@));
            assert(stable_sorted_perm(pv, obj_names(pairs@)) && builds_fields_with(
                pairs@,
                pv,
                fields@,
            ));
        }
        ObjectValue { fields, loc: Loc::new(None) }
    }
}

impl ObjectField {
    /// One object entry; the value is translated, the location absent.
    pub fn new(name: String, value: &SourceValue) -> (out: Self)
        ensures
            out.name == name,
            out.loc is None,
            builds_value(*value, out.value),
        decreases *value, 1int,
    {
        ObjectField { name, value: Value::build(value), loc: Loc::new(None) }
    }
}

impl Argument {
    /// A `name: value` pair; the grammar layer gives it no span.
    pub fn new(argument: &(String, SourceValue)) -> (out: Self)
        ensures
            builds_argument(*argument, out),
    {
        Argument {
            loc: Loc::new(None),
            name: argument.0.clone(),
            value: Value::build(&argument.1),
        }
    }
}

fn build_arguments(src: &Vec<(String, SourceValue)>) -> (out: Vec<Argument>)
    ensures
        out@.len() == src@.len(),
        forall|i: int| 0 <= i < src@.len() ==> builds_argument(src@[i], #[trigger] out@[i]),
{
    let mut out: Vec<Argument> = Vec::new();
    let mut i: usize = 0;
    while i < src.len()
        invariant
            i <= src@.len(),
            out@.len() == i,
            forall|k: int| 0 <= k < i ==> builds_argument(src@[k], #[trigger] out@[k]),
        decreases src@.len() - i,
    {
        out.push(Argument::new(&src[i]));
        i = i + 1;
    }
    out
}

impl Directive {
    /// `@name(args)`.
    pub fn new(directive: &SourceDirective) -> (out: Self)
        ensures
            builds_directive(*directive, out),
    {
        Directive {
            loc: Loc::new(Some(directive.position)),
            name: directive.name.clone(),
            arguments: build_arguments(&directive.arguments),
        }
    }
}

fn build_directives(src: &Vec<SourceDirective>) -> (out: Vec<Directive>)
    ensures
        out@.len() == src@.len(),
        forall|i: int| 0 <= i < src@.len() ==> builds_directive(src@[i], #[trigger] out@[i]),
{
    let mut out: Vec<Directive> = Vec::new();
    let mut i: usize = 0;
    while i < src.len()
        invariant
            i <= src@.len(),
            out@.len() == i,
            forall|k: int| 0 <= k < i ==> builds_directive(src@[k], #[trigger] out@[k]),
        decreases src@.len() - i,
    {
        out.push(Directive::new(&src[i]));
        i = i + 1;
    }
    out
}

impl FragmentSpread {
    /// `...Name @dirs`.
    pub fn new(fragment_spread: &SourceFragmentSpread) -> (out: Self)
        ensures
            builds_fragment_spread(*fragment_spread, out),
    {
        FragmentSpread {
            directives: build_directives(&fragment_spread.directives),
            name: fragment_spread.fragment_name.clone(),
            loc: Loc::new(Some(fragment_spread.position)),
        }
    }
}

impl SelectionSet {
    /// `{ ... }`: selections in source order, located at the opening brace.
    pub fn new(selection_set: &SourceSelectionSet) -> (out: Self)
        ensures
            builds_selection_set(*selection_set, out),
        decreases *selection_set,
    {
        SelectionSet {
            loc: Loc::new(Some(selection_set.span.0)),
            selections: build_selections(&selection_set.items),
        }
    }
}

fn build_selections(src: &Vec<SourceSelection>) -> (out: Vec<Selection>)
    ensures
        out@.len() == src@.len(),
        forall|i: int| 0 <= i < src@.len() ==> builds_selection(src@[i], #[trigger] out@[i]),
    decreases *src,
{
    let mut out: Vec<Selection> = Vec::new();
    let mut i: usize = 0;
    while i < src.len()
        invariant
            i <= src@.len(),
            out@.len() == i,
            forall|k: int| 0 <= k < i ==> builds_selection(src@[k], #[trigger] out@[k]),
        decreases src@.len() - i,
    {
        proof {
            assert(decreases_to!(*src => src@[i as int]));
        }
        out.push(build_selection(&src[i]));
        i = i + 1;
    }
    out
}

fn build_selection(s: &SourceSelection) -> (out: Selection)
    ensures
        builds_selection(*s, out),
    decreases *s,
{
    match s {
        SourceSelection::Field(field) => Selection::Field(Field::new(field)),
        SourceSelection::FragmentSpread(fs) => Selection::FragmentSpread(FragmentSpread::new(fs)),
        SourceSelection::InlineFragment(f) => Selection::InlineFragment(InlineFragment::new(f)),
    }
}

impl Field {
    /// `alias: name(args) @dirs { sub }`; an empty source selection set
    /// collapses to an absent one.
    pub fn new(field: &SourceField) -> (out: Self)
        ensures
            builds_field(*field, out),
        decreases *field,
    {
        Field {
            alias: clone_opt_string(&field.alias),
            directives: build_directives(&field.directives),
            arguments: build_arguments(&field.arguments),
            name: field.name.clone(),
            loc: Loc::new(Some(field.position)),
            selection_set: if field.selection_set.items.len() > 0 {
                Some(SelectionSet::new(&field.selection_set))
            } else {
                None
            },
        }
    }
}

impl InlineFragment {
    /// `... on Type @dirs { sub }`.
    pub fn new(inline_fragment: &SourceInlineFragment) -> (out: Self)
        ensures
            builds_inline_fragment(*inline_fragment, out),
        decreases *inline_fragment,
    {
        InlineFragment {
            directives: build_directives(&inline_fragment.directives),
            type_condition: match &inline_fragment.type_condition {
                Some(value) => Some(Type::NamedType(NamedType::new(value.clone(), None))),
                None => None,
            },
            selection_set: SelectionSet::new(&inline_fragment.selection_set),
            loc: Loc::new(Some(inline_fragment.position)),
        }
    }
}

impl VariableDefinition {
    /// `$x: Type = default`; the grammar layer attaches no directives here,
    /// so the directive sequence is empty.
    pub fn new(definition: &SourceVariableDefinition) -> (out: Self)
        ensures
            builds_variable_definition(*definition, out),
    {
        VariableDefinition {
            loc: Loc::new(Some(definition.position)),
            variable: Variable::new(definition.name.clone(), Some(definition.position)),
            directives: Vec::new(),
            var_type: Type::build(&definition.var_type),
            default_value: match &definition.default_value {
                Some(value) => Some(Value::build(value)),
                None => None,
            },
        }
    }
}

fn build_variable_definitions(src: &Vec<SourceVariableDefinition>) -> (out: Vec<
    VariableDefinition,
>)
    ensures
        out@.len() == src@.len(),
        forall|i: int|
            0 <= i < src@.len() ==> builds_variable_definition(src@[i], #[trigger] out@[i]),
{
    let mut out: Vec<VariableDefinition> = Vec::new();
    let mut i: usize = 0;
    while i < src.len()
        invariant
            i <= src@.len(),
            out@.len() == i,
            forall|k: int| 0 <= k < i ==> builds_variable_definition(src@[k], #[trigger] out@[k]),
        decreases src@.len() - i,
    {
        out.push(VariableDefinition::new(&src[i]));
        i = i + 1;
    }
    out
}

fn explicit_operation(kind: OperationKind, body: &SourceOperationBody) -> (out:
    OperationDefinition)
    ensures
        out.operation == kind,
        !out.shorthand,
        builds_operation_body(*body, out),
{
    OperationDefinition {
        operation: kind,
        loc: Loc::new(Some(body.position)),
        name: clone_opt_string(&body.name),
        shorthand: false,
        selection_set: SelectionSet::new(&body.selection_set),
        variable_definitions: build_variable_definitions(&body.variable_definitions),
        directives: build_directives(&body.directives),
    }
}

impl OperationDefinition {
    /// Operation-kind resolution: explicit keywords keep their kind; the
    /// bare selection set becomes a shorthand query.
    pub fn new(operation: &SourceOperation) -> (out: Self)
        ensures
            builds_operation(*operation, out),
    {
        match operation {
            SourceOperation::Query(query) => explicit_operation(OperationKind::Query, query),
            SourceOperation::Mutation(mutation) => explicit_operation(
                OperationKind::Mutation,
                mutation,
            ),
            SourceOperation::Subscription(subscription) => explicit_operation(
                OperationKind::Subscription,
                subscription,
            ),
            SourceOperation::SelectionSet(selection_set) => OperationDefinition {
                operation: OperationKind::Query,
                loc: Loc::new(Some(selection_set.span.1)),
                name: None,
                shorthand: true,
                selection_set: SelectionSet::new(selection_set),
                variable_definitions: Vec::new(),
                directives: Vec::new(),
            },
        }
    }
}

impl FragmentDefinition {
    /// `fragment Name on Type @dirs { ... }`.
    pub fn new(definition: &SourceFragment) -> (out: Self)
        ensures
            builds_fragment(*definition, out),
    {
        FragmentDefinition {
            name: definition.name.clone(),
            type_condition: Type::NamedType(NamedType::new(definition.type_condition.clone(), None)),
            directives: build_directives(&definition.directives),
            selection_set: SelectionSet::new(&definition.selection_set),
            loc: Loc::new(Some(definition.position)),
        }
    }
}

fn build_definition(d: &SourceDefinition) -> (out: Definition)
    ensures
        builds_definition(*d, out),
{
    match d {
        SourceDefinition::Operation(op) => Definition::Operation(OperationDefinition::new(op)),
        SourceDefinition::Fragment(f) => Definition::Fragment(FragmentDefinition::new(f)),
    }
}

fn build_definitions(src: &Vec<SourceDefinition>) -> (out: Vec<Definition>)
    ensures
        out@.len() == src@.len(),
        forall|i: int| 0 <= i < src@.len() ==> builds_definition(src@[i], #[trigger] out@[i]),
{
    let mut out: Vec<Definition> = Vec::new();
    let mut i: usize = 0;
    while i < src.len()
        invariant
            i <= src@.len(),
            out@.len() == i,
            forall|k: int| 0 <= k < i ==> builds_definition(src@[k], #[trigger] out@[k]),
        decreases src@.len() - i,
    {
        out.push(build_definition(&src[i]));
        i = i + 1;
    }
    out
}

impl Document {
    /// The whole translation: definitions in source order; the document
    /// node itself carries no location.
    pub fn new(document: &SourceDocument) -> (out: Self)
        ensures
            builds_document(*document, out),
    {
        Document { definitions: build_definitions(&document.definitions), loc: Loc::new(None) }
    }
}

/// The location a value node reports; every variant's is absent.
pub open spec fn value_loc(v: Value) -> Option<Loc> {
    match v {
        Value::StringValue(x) => x.loc,
        Value::IntValue(x) => x.loc,
        Value::FloatValue(x) => x.loc,
        Value::BooleanValue(x) => x.loc,
        Value::EnumValue(x) => x.loc,
        Value::NullValue(x) => x.loc,
        Value::Variable(x) => x.loc,
        Value::ListValue(x) => x.loc,
        Value::ObjectValue(x) => x.loc,
    }
}

/// A bare selection set builds a shorthand query: kind `Query`, no name,
/// empty variable-definition and directive sequences, and the selection set
/// translated as usual.
pub proof fn lemma_shorthand_query(ss: SourceSelectionSet, out: OperationDefinition)
    requires
        builds_operation(SourceOperation::SelectionSet(ss), out),
    ensures
        out.shorthand,
        out.operation == OperationKind::Query,
        out.name is None,
        out.variable_definitions@.len() == 0,
        out.directives@.len() == 0,
        builds_selection_set(ss, out.selection_set),
{
}

/// An explicit operation keyword never yields a shorthand node, and its
/// location is always present.
pub proof fn lemma_operation_location(src: SourceOperation, out: OperationDefinition)
    requires
        builds_operation(src, out),
    ensures
        out.loc is Some,
{
}

/// A selection set always carries a location.
pub proof fn lemma_selection_set_location(src: SourceSelectionSet, out: SelectionSet)
    requires
        builds_selection_set(src, out),
    ensures
        out.loc is Some,
{
}

/// A field always carries a location.
pub proof fn lemma_field_location(src: SourceField, out: Field)
    requires
        builds_field(src, out),
    ensures
        out.loc is Some,
{
}

/// An argument never carries a location.
pub proof fn lemma_argument_location(src: (String, SourceValue), out: Argument)
    requires
        builds_argument(src, out),
    ensures
        out.loc is None,
{
}

/// No value node carries a location.
pub proof fn lemma_value_location(src: SourceValue, out: Value)
    requires
        builds_value(src, out),
    ensures
        value_loc(out) is None,
{
}

/// A field's nested selection set is absent exactly when the source
/// selection set had no items: empty braces collapse to an absent set.
pub proof fn lemma_empty_selection_collapse(src: SourceField, out: Field)
    requires
        builds_field(src, out),
    ensures
        out.selection_set is None <==> src.selection_set.items@.len() == 0,
{
}

/// An object literal's fields come out sorted by name in ascending lexical
/// order, one field per source pair.
pub proof fn lemma_object_fields_sorted(ps: Seq<(String, SourceValue)>, fields: Seq<ObjectField>)
    requires
        builds_object(ps, fields),
    ensures
        fields.len() == ps.len(),
        forall|k1: int, k2: int|
            0 <= k1 < k2 < fields.len() ==> lex_le(
                (#[trigger] fields[k1]).name@,
                (#[trigger] fields[k2]).name@,
            ),
{
    let perm = choose|perm: Seq<int>|
        stable_sorted_perm(perm, obj_names(ps)) && builds_fields_with(ps, perm, fields);
    assert forall|k1: int, k2: int| 0 <= k1 < k2 < fields.len() implies lex_le(
        (#[trigger] fields[k1]).name@,
        (#[trigger] fields[k2]).name@,
    ) by {
        assert(builds_object_field(ps[perm[k1]], fields[k1]));
        assert(builds_object_field(ps[perm[k2]], fields[k2]));
        assert(lex_le(obj_names(ps)[perm[k1]], obj_names(ps)[perm[k2]]));
    }
}

} // verus!

