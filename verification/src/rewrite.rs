use vstd::prelude::*;

use crate::ast::{
    Argument, ClassDefinition, ComponentDeclaration, ComponentReference, Description, Equation,
    EquationIfBlock, Expression, ExpressionIfBlock, ForIndex, ImportClause, ModExpr, Modification,
    RefPart, Statement, StatementIfBlock, StoredDefinition, Subscript,
};
use crate::size::{
    argument_count, arguments_count, class_definition_count, classes_count,
    component_declaration_count, component_declarations_count, component_reference_count,
    description_count, equation_count, equation_if_block_count, equation_if_blocks_count,
    equations_count, expression_count, expression_if_block_count, expression_if_blocks_count,
    expressions_count, for_index_count, for_indices_count, import_clause_count,
    import_clauses_count, lemma_arguments_count_prefix, lemma_arguments_count_split,
    lemma_classes_count_prefix, lemma_classes_count_split,
    lemma_component_declarations_count_prefix, lemma_component_declarations_count_split,
    lemma_equation_if_blocks_count_prefix, lemma_equation_if_blocks_count_split,
    lemma_equations_count_prefix, lemma_equations_count_split,
    lemma_expression_if_blocks_count_prefix, lemma_expression_if_blocks_count_split,
    lemma_expressions_count_prefix, lemma_expressions_count_split, lemma_for_indices_count_prefix,
    lemma_for_indices_count_split, lemma_import_clauses_count_prefix,
    lemma_import_clauses_count_split, lemma_ref_parts_count_prefix, lemma_ref_parts_count_split,
    lemma_statement_if_blocks_count_prefix, lemma_statement_if_blocks_count_split,
    lemma_statement_lists_count_prefix, lemma_statement_lists_count_split,
    lemma_statements_count_prefix, lemma_statements_count_split, lemma_subscripts_count_prefix,
    lemma_subscripts_count_split, mod_expr_count, modification_count, ref_part_count,
    ref_parts_count, statement_count, statement_if_block_count, statement_if_blocks_count,
    statement_lists_count, statements_count, stored_definition_count, subscript_count,
    subscripts_count,
};

verus! {

/// The relations here say what the sentinel rewrite does: the two values
/// are structurally identical - same node data, same names, same shape -
/// except that every integer-literal lexeme of the first shows the sentinel
/// in the second. Nothing else may differ, so the sentinel stands at every
/// original integer-literal position and nowhere else.

pub open spec fn rw_stored_definition(a: StoredDefinition, b: StoredDefinition, s: Seq<char>) -> bool
    decreases a, 0int,
{
    &&& b.node_data == a.node_data
    &&& b.within == a.within
    &&& b.model_md5 == a.model_md5
    &&& b.rumoca_parser_version == a.rumoca_parser_version
    &&& b.rumoca_parser_git == a.rumoca_parser_git
    &&& rw_classes(a.classes@, b.classes@, s)
}

pub open spec fn rw_class_definition(a: ClassDefinition, b: ClassDefinition, s: Seq<char>) -> bool
    decreases a, 0int,
{
    &&& b.node_data == a.node_data
    &&& b.name == a.name
    &&& b.class_type == a.class_type
    &&& b.extends@ == a.extends@
    &&& rw_import_clauses(a.imports@, b.imports@, s)
    &&& b.flags == a.flags
    &&& rw_arguments(a.modification@, b.modification@, s)
    &&& b.description == a.description
    &&& rw_component_declarations(a.components@, b.components@, s)
    &&& rw_classes(a.classes@, b.classes@, s)
    &&& rw_equations(a.equations@, b.equations@, s)
    &&& rw_statement_lists(a.algorithms@, b.algorithms@, s)
    &&& rw_equations(a.initial_equations@, b.initial_equations@, s)
    &&& rw_statement_lists(a.initial_algorithms@, b.initial_algorithms@, s)
}

pub open spec fn rw_import_clause(a: ImportClause, b: ImportClause, s: Seq<char>) -> bool
    decreases a, 0int,
{
    &&& b.node_data == a.node_data
    &&& b.alias == a.alias
    &&& b.name == a.name
    &&& (match (a.description, b.description) {
            (Some(ca), Some(cb)) => rw_description(ca, cb, s),
            (None, None) => true,
            _ => false,
        })
}

pub open spec fn rw_component_declaration(a: ComponentDeclaration, b: ComponentDeclaration, s: Seq<char>) -> bool
    decreases a, 0int,
{
    &&& b.node_data == a.node_data
    &&& b.name == a.name
    &&& b.type_specifier == a.type_specifier
    &&& b.flags == a.flags
    &&& b.connection == a.connection
    &&& b.variability == a.variability
    &&& b.causality == a.causality
    &&& b.visibility == a.visibility
    &&& rw_subscripts(a.array_subscripts@, b.array_subscripts@, s)
    &&& (match (a.modification, b.modification) {
            (Some(ca), Some(cb)) => rw_modification(ca, cb, s),
            (None, None) => true,
            _ => false,
        })
    &&& (match (a.condition_attribute, b.condition_attribute) {
            (Some(ca), Some(cb)) => rw_expression(ca, cb, s),
            (None, None) => true,
            _ => false,
        })
    &&& (match (a.description, b.description) {
            (Some(ca), Some(cb)) => rw_description(ca, cb, s),
            (None, None) => true,
            _ => false,
        })
}

pub open spec fn rw_component_reference(a: ComponentReference, b: ComponentReference, s: Seq<char>) -> bool
    decreases a, 0int,
{
    &&& b.node_data == a.node_data
    &&& b.local == a.local
    &&& rw_ref_parts(a.parts@, b.parts@, s)
}

pub open spec fn rw_ref_part(a: RefPart, b: RefPart, s: Seq<char>) -> bool
    decreases a, 0int,
{
    &&& b.node_data == a.node_data
    &&& b.name == a.name
    &&& rw_subscripts(a.array_subscripts@, b.array_subscripts@, s)
}

pub open spec fn rw_description(a: Description, b: Description, s: Seq<char>) -> bool
    decreases a, 0int,
{
    &&& b.node_data == a.node_data
    &&& b.strings == a.strings
    &&& rw_arguments(a.annotation@, b.annotation@, s)
}

pub open spec fn rw_for_index(a: ForIndex, b: ForIndex, s: Seq<char>) -> bool
    decreases a, 0int,
{
    &&& b.node_data == a.node_data
    &&& b.ident == a.ident
    &&& (match (a.in_expr, b.in_expr) {
            (Some(ca), Some(cb)) => rw_expression(ca, cb, s),
            (None, None) => true,
            _ => false,
        })
}

pub open spec fn rw_equation_if_block(a: EquationIfBlock, b: EquationIfBlock, s: Seq<char>) -> bool
    decreases a, 0int,
{
    &&& b.node_data == a.node_data
    &&& rw_expression(a.cond, b.cond, s)
    &&& rw_equations(a.eqs@, b.eqs@, s)
}

pub open spec fn rw_statement_if_block(a: StatementIfBlock, b: StatementIfBlock, s: Seq<char>) -> bool
    decreases a, 0int,
{
    &&& b.node_data == a.node_data
    &&& rw_expression(a.cond, b.cond, s)
    &&& rw_statements(a.stmts@, b.stmts@, s)
}

pub open spec fn rw_expression_if_block(a: ExpressionIfBlock, b: ExpressionIfBlock, s: Seq<char>) -> bool
    decreases a, 0int,
{
    &&& b.node_data == a.node_data
    &&& rw_expression(a.cond, b.cond, s)
    &&& rw_expression(a.expr, b.expr, s)
}

pub open spec fn rw_equation(a: Equation, b: Equation, s: Seq<char>) -> bool
    decreases a, 0int,
{
    match (a, b) {
        (Equation::Empty, Equation::Empty) => true,
        (Equation::Connect(p), Equation::Connect(q)) => q.node_data == p.node_data
            && rw_component_reference(p.lhs, q.lhs, s)
            && rw_component_reference(p.rhs, q.rhs, s)
            && (match (p.description, q.description) {
            (Some(ca), Some(cb)) => rw_description(ca, cb, s),
            (None, None) => true,
            _ => false,
        }),
        (Equation::For(p), Equation::For(q)) => q.node_data == p.node_data
            && rw_for_indices(p.indices@, q.indices@, s)
            && rw_equations(p.eqs@, q.eqs@, s)
            && (match (p.description, q.description) {
            (Some(ca), Some(cb)) => rw_description(ca, cb, s),
            (None, None) => true,
            _ => false,
        }),
        (Equation::If(p), Equation::If(q)) => q.node_data == p.node_data
            && rw_equation_if_blocks(p.if_blocks@, q.if_blocks@, s)
            && rw_equations(p.else_eqs@, q.else_eqs@, s)
            && (match (p.description, q.description) {
            (Some(ca), Some(cb)) => rw_description(ca, cb, s),
            (None, None) => true,
            _ => false,
        }),
        (Equation::Simple(p), Equation::Simple(q)) => q.node_data == p.node_data
            && rw_expression(p.lhs, q.lhs, s)
            && rw_expression(p.rhs, q.rhs, s)
            && (match (p.description, q.description) {
            (Some(ca), Some(cb)) => rw_description(ca, cb, s),
            (None, None) => true,
            _ => false,
        }),
        _ => false,
    }
}

pub open spec fn rw_statement(a: Statement, b: Statement, s: Seq<char>) -> bool
    decreases a, 0int,
{
    match (a, b) {
        (Statement::Empty, Statement::Empty) => true,
        (Statement::Assignment(p), Statement::Assignment(q)) => q.node_data == p.node_data
            && rw_component_reference(p.comp, q.comp, s)
            && rw_expression(p.rhs, q.rhs, s)
            && (match (p.description, q.description) {
            (Some(ca), Some(cb)) => rw_description(ca, cb, s),
            (None, None) => true,
            _ => false,
        }),
        (Statement::Break(p), Statement::Break(q)) => q.node_data == p.node_data
            && (match (p.description, q.description) {
            (Some(ca), Some(cb)) => rw_description(ca, cb, s),
            (None, None) => true,
            _ => false,
        }),
        (Statement::For(p), Statement::For(q)) => q.node_data == p.node_data
            && rw_for_indices(p.indices@, q.indices@, s)
            && rw_statements(p.stmts@, q.stmts@, s)
            && (match (p.description, q.description) {
            (Some(ca), Some(cb)) => rw_description(ca, cb, s),
            (None, None) => true,
            _ => false,
        }),
        (Statement::If(p), Statement::If(q)) => q.node_data == p.node_data
            && rw_statement_if_blocks(p.if_blocks@, q.if_blocks@, s)
            && rw_statements(p.else_stmts@, q.else_stmts@, s)
            && (match (p.description, q.description) {
            (Some(ca), Some(cb)) => rw_description(ca, cb, s),
            (None, None) => true,
            _ => false,
        }),
        (Statement::Return(p), Statement::Return(q)) => q.node_data == p.node_data
            && (match (p.description, q.description) {
            (Some(ca), Some(cb)) => rw_description(ca, cb, s),
            (None, None) => true,
            _ => false,
        }),
        (Statement::While(p), Statement::While(q)) => q.node_data == p.node_data
            && rw_expression(p.cond, q.cond, s)
            && rw_statements(p.stmts@, q.stmts@, s)
            && (match (p.description, q.description) {
            (Some(ca), Some(cb)) => rw_description(ca, cb, s),
            (None, None) => true,
            _ => false,
        }),
        _ => false,
    }
}

pub open spec fn rw_expression(a: Expression, b: Expression, s: Seq<char>) -> bool
    decreases a, 0int,
{
    match (a, b) {
        (Expression::Empty, Expression::Empty) => true,
        (Expression::Array(p), Expression::Array(q)) => q.node_data == p.node_data
            && rw_expressions(p.args@, q.args@, s),
        (Expression::Binary(p), Expression::Binary(q)) => q.node_data == p.node_data
            && q.op == p.op
            && rw_expression(*p.lhs, *q.lhs, s)
            && rw_expression(*p.rhs, *q.rhs, s),
        (Expression::Boolean(p), Expression::Boolean(q)) => q.node_data == p.node_data
            && q.val == p.val,
        (Expression::FunctionCall(p), Expression::FunctionCall(q)) => q.node_data == p.node_data
            && rw_component_reference(p.comp, q.comp, s)
            && rw_expressions(p.args@, q.args@, s),
        (Expression::If(p), Expression::If(q)) => q.node_data == p.node_data
            && rw_expression_if_blocks(p.if_blocks@, q.if_blocks@, s)
            && (match (p.else_expr, q.else_expr) {
            (Some(ca), Some(cb)) => rw_expression(*ca, *cb, s),
            (None, None) => true,
            _ => false,
        }),
        (Expression::Ref(p), Expression::Ref(q)) => rw_component_reference(p, q, s),
        (Expression::Unary(p), Expression::Unary(q)) => q.node_data == p.node_data
            && q.op == p.op
            && rw_expression(*p.rhs, *q.rhs, s),
        (Expression::UnsignedInteger(p), Expression::UnsignedInteger(q)) => q.node_data == p.node_data && q.val@ == s,
        (Expression::UnsignedReal(p), Expression::UnsignedReal(q)) => q.node_data == p.node_data
            && q.val == p.val,
        _ => false,
    }
}

pub open spec fn rw_subscript(a: Subscript, b: Subscript, s: Seq<char>) -> bool
    decreases a, 0int,
{
    match (a, b) {
        (Subscript::Empty, Subscript::Empty) => true,
        (Subscript::Range(p), Subscript::Range(q)) => q.node_data == p.node_data,
        (Subscript::Expression(p), Subscript::Expression(q)) => rw_expression(p, q, s),
        _ => false,
    }
}

pub open spec fn rw_argument(a: Argument, b: Argument, s: Seq<char>) -> bool
    decreases a, 0int,
{
    match (a, b) {
        (Argument::Empty, Argument::Empty) => true,
        (Argument::Modification(p), Argument::Modification(q)) => q.node_data == p.node_data
            && q.name == p.name
            && q.each == p.each
            && q.is_final == p.is_final
            && (match (p.modification, q.modification) {
            (Some(ca), Some(cb)) => rw_modification(ca, cb, s),
            (None, None) => true,
            _ => false,
        })
            && (match (p.description, q.description) {
            (Some(ca), Some(cb)) => rw_description(ca, cb, s),
            (None, None) => true,
            _ => false,
        }),
        (Argument::Redeclaration(p), Argument::Redeclaration(q)) => q.node_data == p.node_data,
        (Argument::Replaceable(p), Argument::Replaceable(q)) => q.node_data == p.node_data,
        _ => false,
    }
}

pub open spec fn rw_modification(a: Modification, b: Modification, s: Seq<char>) -> bool
    decreases a, 0int,
{
    match (a, b) {
        (Modification::Empty, Modification::Empty) => true,
        (Modification::Class(p), Modification::Class(q)) => q.node_data == p.node_data
            && rw_arguments(p.args@, q.args@, s)
            && (match (p.expr, q.expr) {
            (Some(ca), Some(cb)) => rw_mod_expr(ca, cb, s),
            (None, None) => true,
            _ => false,
        }),
        (Modification::Expression(p), Modification::Expression(q)) => rw_mod_expr(p, q, s),
        _ => false,
    }
}

pub open spec fn rw_mod_expr(a: ModExpr, b: ModExpr, s: Seq<char>) -> bool
    decreases a, 0int,
{
    match (a, b) {
        (ModExpr::Empty, ModExpr::Empty) => true,
        (ModExpr::Break(p), ModExpr::Break(q)) => q.node_data == p.node_data,
        (ModExpr::Expression(p), ModExpr::Expression(q)) => rw_expression(p, q, s),
        _ => false,
    }
}

pub open spec fn rw_classes(s1: Seq<ClassDefinition>, s2: Seq<ClassDefinition>, s: Seq<char>) -> bool
    decreases s1, 1int,
{
    &&& s1.len() == s2.len()
    &&& forall|i: int| 0 <= i < s1.len() ==> rw_class_definition(#[trigger] s1[i], s2[i], s)
}

pub open spec fn rw_import_clauses(s1: Seq<ImportClause>, s2: Seq<ImportClause>, s: Seq<char>) -> bool
    decreases s1, 1int,
{
    &&& s1.len() == s2.len()
    &&& forall|i: int| 0 <= i < s1.len() ==> rw_import_clause(#[trigger] s1[i], s2[i], s)
}

pub open spec fn rw_arguments(s1: Seq<Argument>, s2: Seq<Argument>, s: Seq<char>) -> bool
    decreases s1, 1int,
{
    &&& s1.len() == s2.len()
    &&& forall|i: int| 0 <= i < s1.len() ==> rw_argument(#[trigger] s1[i], s2[i], s)
}

pub open spec fn rw_component_declarations(s1: Seq<ComponentDeclaration>, s2: Seq<ComponentDeclaration>, s: Seq<char>) -> bool
    decreases s1, 1int,
{
    &&& s1.len() == s2.len()
    &&& forall|i: int| 0 <= i < s1.len() ==> rw_component_declaration(#[trigger] s1[i], s2[i], s)
}

pub open spec fn rw_equations(s1: Seq<Equation>, s2: Seq<Equation>, s: Seq<char>) -> bool
    decreases s1, 1int,
{
    &&& s1.len() == s2.len()
    &&& forall|i: int| 0 <= i < s1.len() ==> rw_equation(#[trigger] s1[i], s2[i], s)
}

pub open spec fn rw_statements(s1: Seq<Statement>, s2: Seq<Statement>, s: Seq<char>) -> bool
    decreases s1, 1int,
{
    &&& s1.len() == s2.len()
    &&& forall|i: int| 0 <= i < s1.len() ==> rw_statement(#[trigger] s1[i], s2[i], s)
}

pub open spec fn rw_expressions(s1: Seq<Expression>, s2: Seq<Expression>, s: Seq<char>) -> bool
    decreases s1, 1int,
{
    &&& s1.len() == s2.len()
    &&& forall|i: int| 0 <= i < s1.len() ==> rw_expression(#[trigger] s1[i], s2[i], s)
}

pub open spec fn rw_subscripts(s1: Seq<Subscript>, s2: Seq<Subscript>, s: Seq<char>) -> bool
    decreases s1, 1int,
{
    &&& s1.len() == s2.len()
    &&& forall|i: int| 0 <= i < s1.len() ==> rw_subscript(#[trigger] s1[i], s2[i], s)
}

pub open spec fn rw_ref_parts(s1: Seq<RefPart>, s2: Seq<RefPart>, s: Seq<char>) -> bool
    decreases s1, 1int,
{
    &&& s1.len() == s2.len()
    &&& forall|i: int| 0 <= i < s1.len() ==> rw_ref_part(#[trigger] s1[i], s2[i], s)
}

pub open spec fn rw_for_indices(s1: Seq<ForIndex>, s2: Seq<ForIndex>, s: Seq<char>) -> bool
    decreases s1, 1int,
{
    &&& s1.len() == s2.len()
    &&& forall|i: int| 0 <= i < s1.len() ==> rw_for_index(#[trigger] s1[i], s2[i], s)
}

pub open spec fn rw_equation_if_blocks(s1: Seq<EquationIfBlock>, s2: Seq<EquationIfBlock>, s: Seq<char>) -> bool
    decreases s1, 1int,
{
    &&& s1.len() == s2.len()
    &&& forall|i: int| 0 <= i < s1.len() ==> rw_equation_if_block(#[trigger] s1[i], s2[i], s)
}

pub open spec fn rw_statement_if_blocks(s1: Seq<StatementIfBlock>, s2: Seq<StatementIfBlock>, s: Seq<char>) -> bool
    decreases s1, 1int,
{
    &&& s1.len() == s2.len()
    &&& forall|i: int| 0 <= i < s1.len() ==> rw_statement_if_block(#[trigger] s1[i], s2[i], s)
}

pub open spec fn rw_expression_if_blocks(s1: Seq<ExpressionIfBlock>, s2: Seq<ExpressionIfBlock>, s: Seq<char>) -> bool
    decreases s1, 1int,
{
    &&& s1.len() == s2.len()
    &&& forall|i: int| 0 <= i < s1.len() ==> rw_expression_if_block(#[trigger] s1[i], s2[i], s)
}

pub open spec fn rw_statement_lists(s1: Seq<Vec<Statement>>, s2: Seq<Vec<Statement>>, s: Seq<char>) -> bool
    decreases s1, 2int,
{
    &&& s1.len() == s2.len()
    &&& forall|i: int| 0 <= i < s1.len() ==> rw_statements((#[trigger] s1[i])@, s2[i]@, s)
}

#[verifier::loop_isolation(false)]
fn rewrite_in_classes(items: &mut Vec<ClassDefinition>, sentinel: &String)
    ensures
        rw_classes(old(items)@, final(items)@, sentinel@),
    decreases classes_count(items@, 0), 1int,
{
    let ghost items0 = items@;
    let n = items.len();
    for i in 0..n
        invariant
            items@.len() == items0.len(),
            forall|j: int| 0 <= j < i ==> rw_class_definition(#[trigger] items0[j], items@[j], sentinel@),
            forall|j: int| i <= j < items0.len() ==> items@[j] == items0[j],
        decreases n - i,
    {
        proof {
            lemma_classes_count_split(items0, i as int);
            lemma_classes_count_prefix(items0, i as int);
        }
        let e = &mut items[i];
        rewrite_in_class_definition(e, sentinel);
    }
}

#[verifier::loop_isolation(false)]
fn rewrite_in_import_clauses(items: &mut Vec<ImportClause>, sentinel: &String)
    ensures
        rw_import_clauses(old(items)@, final(items)@, sentinel@),
    decreases import_clauses_count(items@, 0), 1int,
{
    let ghost items0 = items@;
    let n = items.len();
    for i in 0..n
        invariant
            items@.len() == items0.len(),
            forall|j: int| 0 <= j < i ==> rw_import_clause(#[trigger] items0[j], items@[j], sentinel@),
            forall|j: int| i <= j < items0.len() ==> items@[j] == items0[j],
        decreases n - i,
    {
        proof {
            lemma_import_clauses_count_split(items0, i as int);
            lemma_import_clauses_count_prefix(items0, i as int);
        }
        let e = &mut items[i];
        rewrite_in_import_clause(e, sentinel);
    }
}

#[verifier::loop_isolation(false)]
fn rewrite_in_arguments(items: &mut Vec<Argument>, sentinel: &String)
    ensures
        rw_arguments(old(items)@, final(items)@, sentinel@),
    decreases arguments_count(items@, 0), 1int,
{
    let ghost items0 = items@;
    let n = items.len();
    for i in 0..n
        invariant
            items@.len() == items0.len(),
            forall|j: int| 0 <= j < i ==> rw_argument(#[trigger] items0[j], items@[j], sentinel@),
            forall|j: int| i <= j < items0.len() ==> items@[j] == items0[j],
        decreases n - i,
    {
        proof {
            lemma_arguments_count_split(items0, i as int);
            lemma_arguments_count_prefix(items0, i as int);
        }
        let e = &mut items[i];
        rewrite_in_argument(e, sentinel);
    }
}

#[verifier::loop_isolation(false)]
fn rewrite_in_component_declarations(items: &mut Vec<ComponentDeclaration>, sentinel: &String)
    ensures
        rw_component_declarations(old(items)@, final(items)@, sentinel@),
    decreases component_declarations_count(items@, 0), 1int,
{
    let ghost items0 = items@;
    let n = items.len();
    for i in 0..n
        invariant
            items@.len() == items0.len(),
            forall|j: int| 0 <= j < i ==> rw_component_declaration(#[trigger] items0[j], items@[j], sentinel@),
            forall|j: int| i <= j < items0.len() ==> items@[j] == items0[j],
        decreases n - i,
    {
        proof {
            lemma_component_declarations_count_split(items0, i as int);
            lemma_component_declarations_count_prefix(items0, i as int);
        }
        let e = &mut items[i];
        rewrite_in_component_declaration(e, sentinel);
    }
}

#[verifier::loop_isolation(false)]
fn rewrite_in_equations(items: &mut Vec<Equation>, sentinel: &String)
    ensures
        rw_equations(old(items)@, final(items)@, sentinel@),
    decreases equations_count(items@, 0), 1int,
{
    let ghost items0 = items@;
    let n = items.len();
    for i in 0..n
        invariant
            items@.len() == items0.len(),
            forall|j: int| 0 <= j < i ==> rw_equation(#[trigger] items0[j], items@[j], sentinel@),
            forall|j: int| i <= j < items0.len() ==> items@[j] == items0[j],
        decreases n - i,
    {
        proof {
            lemma_equations_count_split(items0, i as int);
            lemma_equations_count_prefix(items0, i as int);
        }
        let e = &mut items[i];
        rewrite_in_equation(e, sentinel);
    }
}

#[verifier::loop_isolation(false)]
fn rewrite_in_statements(items: &mut Vec<Statement>, sentinel: &String)
    ensures
        rw_statements(old(items)@, final(items)@, sentinel@),
    decreases statements_count(items@, 0), 1int,
{
    let ghost items0 = items@;
    let n = items.len();
    for i in 0..n
        invariant
            items@.len() == items0.len(),
            forall|j: int| 0 <= j < i ==> rw_statement(#[trigger] items0[j], items@[j], sentinel@),
            forall|j: int| i <= j < items0.len() ==> items@[j] == items0[j],
        decreases n - i,
    {
        proof {
            lemma_statements_count_split(items0, i as int);
            lemma_statements_count_prefix(items0, i as int);
        }
        let e = &mut items[i];
        rewrite_in_statement(e, sentinel);
    }
}

#[verifier::loop_isolation(false)]
fn rewrite_in_expressions(items: &mut Vec<Expression>, sentinel: &String)
    ensures
        rw_expressions(old(items)@, final(items)@, sentinel@),
    decreases expressions_count(items@, 0), 1int,
{
    let ghost items0 = items@;
    let n = items.len();
    for i in 0..n
        invariant
            items@.len() == items0.len(),
            forall|j: int| 0 <= j < i ==> rw_expression(#[trigger] items0[j], items@[j], sentinel@),
            forall|j: int| i <= j < items0.len() ==> items@[j] == items0[j],
        decreases n - i,
    {
        proof {
            lemma_expressions_count_split(items0, i as int);
            lemma_expressions_count_prefix(items0, i as int);
        }
        let e = &mut items[i];
        rewrite_in_expression(e, sentinel);
    }
}

#[verifier::loop_isolation(false)]
fn rewrite_in_subscripts(items: &mut Vec<Subscript>, sentinel: &String)
    ensures
        rw_subscripts(old(items)@, final(items)@, sentinel@),
    decreases subscripts_count(items@, 0), 1int,
{
    let ghost items0 = items@;
    let n = items.len();
    for i in 0..n
        invariant
            items@.len() == items0.len(),
            forall|j: int| 0 <= j < i ==> rw_subscript(#[trigger] items0[j], items@[j], sentinel@),
            forall|j: int| i <= j < items0.len() ==> items@[j] == items0[j],
        decreases n - i,
    {
        proof {
            lemma_subscripts_count_split(items0, i as int);
            lemma_subscripts_count_prefix(items0, i as int);
        }
        let e = &mut items[i];
        rewrite_in_subscript(e, sentinel);
    }
}

#[verifier::loop_isolation(false)]
fn rewrite_in_ref_parts(items: &mut Vec<RefPart>, sentinel: &String)
    ensures
        rw_ref_parts(old(items)@, final(items)@, sentinel@),
    decreases ref_parts_count(items@, 0), 1int,
{
    let ghost items0 = items@;
    let n = items.len();
    for i in 0..n
        invariant
            items@.len() == items0.len(),
            forall|j: int| 0 <= j < i ==> rw_ref_part(#[trigger] items0[j], items@[j], sentinel@),
            forall|j: int| i <= j < items0.len() ==> items@[j] == items0[j],
        decreases n - i,
    {
        proof {
            lemma_ref_parts_count_split(items0, i as int);
            lemma_ref_parts_count_prefix(items0, i as int);
        }
        let e = &mut items[i];
        rewrite_in_ref_part(e, sentinel);
    }
}

#[verifier::loop_isolation(false)]
fn rewrite_in_for_indices(items: &mut Vec<ForIndex>, sentinel: &String)
    ensures
        rw_for_indices(old(items)@, final(items)@, sentinel@),
    decreases for_indices_count(items@, 0), 1int,
{
    let ghost items0 = items@;
    let n = items.len();
    for i in 0..n
        invariant
            items@.len() == items0.len(),
            forall|j: int| 0 <= j < i ==> rw_for_index(#[trigger] items0[j], items@[j], sentinel@),
            forall|j: int| i <= j < items0.len() ==> items@[j] == items0[j],
        decreases n - i,
    {
        proof {
            lemma_for_indices_count_split(items0, i as int);
            lemma_for_indices_count_prefix(items0, i as int);
        }
        let e = &mut items[i];
        rewrite_in_for_index(e, sentinel);
    }
}

#[verifier::loop_isolation(false)]
fn rewrite_in_equation_if_blocks(items: &mut Vec<EquationIfBlock>, sentinel: &String)
    ensures
        rw_equation_if_blocks(old(items)@, final(items)@, sentinel@),
    decreases equation_if_blocks_count(items@, 0), 1int,
{
    let ghost items0 = items@;
    let n = items.len();
    for i in 0..n
        invariant
            items@.len() == items0.len(),
            forall|j: int| 0 <= j < i ==> rw_equation_if_block(#[trigger] items0[j], items@[j], sentinel@),
            forall|j: int| i <= j < items0.len() ==> items@[j] == items0[j],
        decreases n - i,
    {
        proof {
            lemma_equation_if_blocks_count_split(items0, i as int);
            lemma_equation_if_blocks_count_prefix(items0, i as int);
        }
        let e = &mut items[i];
        rewrite_in_equation_if_block(e, sentinel);
    }
}

#[verifier::loop_isolation(false)]
fn rewrite_in_statement_if_blocks(items: &mut Vec<StatementIfBlock>, sentinel: &String)
    ensures
        rw_statement_if_blocks(old(items)@, final(items)@, sentinel@),
    decreases statement_if_blocks_count(items@, 0), 1int,
{
    let ghost items0 = items@;
    let n = items.len();
    for i in 0..n
        invariant
            items@.len() == items0.len(),
            forall|j: int| 0 <= j < i ==> rw_statement_if_block(#[trigger] items0[j], items@[j], sentinel@),
            forall|j: int| i <= j < items0.len() ==> items@[j] == items0[j],
        decreases n - i,
    {
        proof {
            lemma_statement_if_blocks_count_split(items0, i as int);
            lemma_statement_if_blocks_count_prefix(items0, i as int);
        }
        let e = &mut items[i];
        rewrite_in_statement_if_block(e, sentinel);
    }
}

#[verifier::loop_isolation(false)]
fn rewrite_in_expression_if_blocks(items: &mut Vec<ExpressionIfBlock>, sentinel: &String)
    ensures
        rw_expression_if_blocks(old(items)@, final(items)@, sentinel@),
    decreases expression_if_blocks_count(items@, 0), 1int,
{
    let ghost items0 = items@;
    let n = items.len();
    for i in 0..n
        invariant
            items@.len() == items0.len(),
            forall|j: int| 0 <= j < i ==> rw_expression_if_block(#[trigger] items0[j], items@[j], sentinel@),
            forall|j: int| i <= j < items0.len() ==> items@[j] == items0[j],
        decreases n - i,
    {
        proof {
            lemma_expression_if_blocks_count_split(items0, i as int);
            lemma_expression_if_blocks_count_prefix(items0, i as int);
        }
        let e = &mut items[i];
        rewrite_in_expression_if_block(e, sentinel);
    }
}

#[verifier::loop_isolation(false)]
fn rewrite_in_statement_lists(items: &mut Vec<Vec<Statement>>, sentinel: &String)
    ensures
        rw_statement_lists(old(items)@, final(items)@, sentinel@),
    decreases statement_lists_count(items@, 0), 1int,
{
    let ghost items0 = items@;
    let n = items.len();
    for i in 0..n
        invariant
            items@.len() == items0.len(),
            forall|j: int| 0 <= j < i ==> rw_statements((#[trigger] items0[j])@, items@[j]@, sentinel@),
            forall|j: int| i <= j < items0.len() ==> items@[j] == items0[j],
        decreases n - i,
    {
        proof {
            lemma_statement_lists_count_split(items0, i as int);
            lemma_statement_lists_count_prefix(items0, i as int);
        }
        let e = &mut items[i];
        rewrite_in_statements(e, sentinel);
    }
}

#[verifier::loop_isolation(false)]
fn rewrite_in_stored_definition(x: &mut StoredDefinition, sentinel: &String)
    ensures
        rw_stored_definition(*old(x), *final(x), sentinel@),
    decreases stored_definition_count(*x), 0int,
{
    rewrite_in_classes(&mut x.classes, sentinel);
}

#[verifier::loop_isolation(false)]
fn rewrite_in_class_definition(x: &mut ClassDefinition, sentinel: &String)
    ensures
        rw_class_definition(*old(x), *final(x), sentinel@),
    decreases class_definition_count(*x), 0int,
{
    rewrite_in_import_clauses(&mut x.imports, sentinel);
    rewrite_in_arguments(&mut x.modification, sentinel);
    rewrite_in_component_declarations(&mut x.components, sentinel);
    rewrite_in_classes(&mut x.classes, sentinel);
    rewrite_in_equations(&mut x.equations, sentinel);
    rewrite_in_statement_lists(&mut x.algorithms, sentinel);
    rewrite_in_equations(&mut x.initial_equations, sentinel);
    rewrite_in_statement_lists(&mut x.initial_algorithms, sentinel);
}

#[verifier::loop_isolation(false)]
fn rewrite_in_import_clause(x: &mut ImportClause, sentinel: &String)
    ensures
        rw_import_clause(*old(x), *final(x), sentinel@),
    decreases import_clause_count(*x), 0int,
{
    if let Some(c) = &mut x.description {
        rewrite_in_description(c, sentinel);
    }
}

#[verifier::loop_isolation(false)]
fn rewrite_in_component_declaration(x: &mut ComponentDeclaration, sentinel: &String)
    ensures
        rw_component_declaration(*old(x), *final(x), sentinel@),
    decreases component_declaration_count(*x), 0int,
{
    rewrite_in_subscripts(&mut x.array_subscripts, sentinel);
    if let Some(c) = &mut x.modification {
        rewrite_in_modification(c, sentinel);
    }
    if let Some(c) = &mut x.condition_attribute {
        rewrite_in_expression(c, sentinel);
    }
    if let Some(c) = &mut x.description {
        rewrite_in_description(c, sentinel);
    }
}

#[verifier::loop_isolation(false)]
fn rewrite_in_component_reference(x: &mut ComponentReference, sentinel: &String)
    ensures
        rw_component_reference(*old(x), *final(x), sentinel@),
    decreases component_reference_count(*x), 0int,
{
    rewrite_in_ref_parts(&mut x.parts, sentinel);
}

#[verifier::loop_isolation(false)]
fn rewrite_in_ref_part(x: &mut RefPart, sentinel: &String)
    ensures
        rw_ref_part(*old(x), *final(x), sentinel@),
    decreases ref_part_count(*x), 0int,
{
    rewrite_in_subscripts(&mut x.array_subscripts, sentinel);
}

#[verifier::loop_isolation(false)]
fn rewrite_in_description(x: &mut Description, sentinel: &String)
    ensures
        rw_description(*old(x), *final(x), sentinel@),
    decreases description_count(*x), 0int,
{
    rewrite_in_arguments(&mut x.annotation, sentinel);
}

#[verifier::loop_isolation(false)]
fn rewrite_in_for_index(x: &mut ForIndex, sentinel: &String)
    ensures
        rw_for_index(*old(x), *final(x), sentinel@),
    decreases for_index_count(*x), 0int,
{
    if let Some(c) = &mut x.in_expr {
        rewrite_in_expression(c, sentinel);
    }
}

#[verifier::loop_isolation(false)]
fn rewrite_in_equation_if_block(x: &mut EquationIfBlock, sentinel: &String)
    ensures
        rw_equation_if_block(*old(x), *final(x), sentinel@),
    decreases equation_if_block_count(*x), 0int,
{
    rewrite_in_expression(&mut x.cond, sentinel);
    rewrite_in_equations(&mut x.eqs, sentinel);
}

#[verifier::loop_isolation(false)]
fn rewrite_in_statement_if_block(x: &mut StatementIfBlock, sentinel: &String)
    ensures
        rw_statement_if_block(*old(x), *final(x), sentinel@),
    decreases statement_if_block_count(*x), 0int,
{
    rewrite_in_expression(&mut x.cond, sentinel);
    rewrite_in_statements(&mut x.stmts, sentinel);
}

#[verifier::loop_isolation(false)]
fn rewrite_in_expression_if_block(x: &mut ExpressionIfBlock, sentinel: &String)
    ensures
        rw_expression_if_block(*old(x), *final(x), sentinel@),
    decreases expression_if_block_count(*x), 0int,
{
    rewrite_in_expression(&mut x.cond, sentinel);
    rewrite_in_expression(&mut x.expr, sentinel);
}

#[verifier::loop_isolation(false)]
fn rewrite_in_equation(x: &mut Equation, sentinel: &String)
    ensures
        rw_equation(*old(x), *final(x), sentinel@),
    decreases equation_count(*x), 0int,
{
    match x {
        Equation::Empty => {}
        Equation::Connect(p) => {
            rewrite_in_component_reference(&mut p.lhs, sentinel);
            rewrite_in_component_reference(&mut p.rhs, sentinel);
            if let Some(c) = &mut p.description {
                rewrite_in_description(c, sentinel);
            }
        }
        Equation::For(p) => {
            rewrite_in_for_indices(&mut p.indices, sentinel);
            rewrite_in_equations(&mut p.eqs, sentinel);
            if let Some(c) = &mut p.description {
                rewrite_in_description(c, sentinel);
            }
        }
        Equation::If(p) => {
            rewrite_in_equation_if_blocks(&mut p.if_blocks, sentinel);
            rewrite_in_equations(&mut p.else_eqs, sentinel);
            if let Some(c) = &mut p.description {
                rewrite_in_description(c, sentinel);
            }
        }
        Equation::Simple(p) => {
            rewrite_in_expression(&mut p.lhs, sentinel);
            rewrite_in_expression(&mut p.rhs, sentinel);
            if let Some(c) = &mut p.description {
                rewrite_in_description(c, sentinel);
            }
        }
    }
}

#[verifier::loop_isolation(false)]
fn rewrite_in_statement(x: &mut Statement, sentinel: &String)
    ensures
        rw_statement(*old(x), *final(x), sentinel@),
    decreases statement_count(*x), 0int,
{
    match x {
        Statement::Empty => {}
        Statement::Assignment(p) => {
            rewrite_in_component_reference(&mut p.comp, sentinel);
            rewrite_in_expression(&mut p.rhs, sentinel);
            if let Some(c) = &mut p.description {
                rewrite_in_description(c, sentinel);
            }
        }
        Statement::Break(p) => {
            if let Some(c) = &mut p.description {
                rewrite_in_description(c, sentinel);
            }
        }
        Statement::For(p) => {
            rewrite_in_for_indices(&mut p.indices, sentinel);
            rewrite_in_statements(&mut p.stmts, sentinel);
            if let Some(c) = &mut p.description {
                rewrite_in_description(c, sentinel);
            }
        }
        Statement::If(p) => {
            rewrite_in_statement_if_blocks(&mut p.if_blocks, sentinel);
            rewrite_in_statements(&mut p.else_stmts, sentinel);
            if let Some(c) = &mut p.description {
                rewrite_in_description(c, sentinel);
            }
        }
        Statement::Return(p) => {
            if let Some(c) = &mut p.description {
                rewrite_in_description(c, sentinel);
            }
        }
        Statement::While(p) => {
            rewrite_in_expression(&mut p.cond, sentinel);
            rewrite_in_statements(&mut p.stmts, sentinel);
            if let Some(c) = &mut p.description {
                rewrite_in_description(c, sentinel);
            }
        }
    }
}

#[verifier::loop_isolation(false)]
fn rewrite_in_expression(x: &mut Expression, sentinel: &String)
    ensures
        rw_expression(*old(x), *final(x), sentinel@),
    decreases expression_count(*x), 0int,
{
    match x {
        Expression::Empty => {}
        Expression::Array(p) => {
            rewrite_in_expressions(&mut p.args, sentinel);
        }
        Expression::Binary(p) => {
            rewrite_in_expression(&mut p.lhs, sentinel);
            rewrite_in_expression(&mut p.rhs, sentinel);
        }
        Expression::Boolean(p) => {
        }
        Expression::FunctionCall(p) => {
            rewrite_in_component_reference(&mut p.comp, sentinel);
            rewrite_in_expressions(&mut p.args, sentinel);
        }
        Expression::If(p) => {
            rewrite_in_expression_if_blocks(&mut p.if_blocks, sentinel);
            if let Some(c) = &mut p.else_expr {
                rewrite_in_expression(c, sentinel);
            }
        }
        Expression::Ref(p) => {
            rewrite_in_component_reference(p, sentinel);
        }
        Expression::Unary(p) => {
            rewrite_in_expression(&mut p.rhs, sentinel);
        }
        Expression::UnsignedInteger(p) => {
            p.val = sentinel.clone();
        }
        Expression::UnsignedReal(p) => {
        }
    }
}

#[verifier::loop_isolation(false)]
fn rewrite_in_subscript(x: &mut Subscript, sentinel: &String)
    ensures
        rw_subscript(*old(x), *final(x), sentinel@),
    decreases subscript_count(*x), 0int,
{
    match x {
        Subscript::Empty => {}
        Subscript::Range(p) => {
        }
        Subscript::Expression(p) => {
            rewrite_in_expression(p, sentinel);
        }
    }
}

#[verifier::loop_isolation(false)]
fn rewrite_in_argument(x: &mut Argument, sentinel: &String)
    ensures
        rw_argument(*old(x), *final(x), sentinel@),
    decreases argument_count(*x), 0int,
{
    match x {
        Argument::Empty => {}
        Argument::Modification(p) => {
            if let Some(c) = &mut p.modification {
                rewrite_in_modification(c, sentinel);
            }
            if let Some(c) = &mut p.description {
                rewrite_in_description(c, sentinel);
            }
        }
        Argument::Redeclaration(p) => {
        }
        Argument::Replaceable(p) => {
        }
    }
}

#[verifier::loop_isolation(false)]
fn rewrite_in_modification(x: &mut Modification, sentinel: &String)
    ensures
        rw_modification(*old(x), *final(x), sentinel@),
    decreases modification_count(*x), 0int,
{
    match x {
        Modification::Empty => {}
        Modification::Class(p) => {
            rewrite_in_arguments(&mut p.args, sentinel);
            if let Some(c) = &mut p.expr {
                rewrite_in_mod_expr(c, sentinel);
            }
        }
        Modification::Expression(p) => {
            rewrite_in_mod_expr(p, sentinel);
        }
    }
}

#[verifier::loop_isolation(false)]
fn rewrite_in_mod_expr(x: &mut ModExpr, sentinel: &String)
    ensures
        rw_mod_expr(*old(x), *final(x), sentinel@),
    decreases mod_expr_count(*x), 0int,
{
    match x {
        ModExpr::Empty => {}
        ModExpr::Break(p) => {
        }
        ModExpr::Expression(p) => {
            rewrite_in_expression(p, sentinel);
        }
    }
}

/// Rewrites the lexeme of every integer-literal node in the tree to the
/// given sentinel and changes nothing else: afterwards the sentinel shows at
/// every original integer-literal position and nowhere else, and the tree's
/// shape, ids and spans are untouched.
pub fn rewrite_integer_literals(def: &mut StoredDefinition, sentinel: &String)
    ensures
        rw_stored_definition(*old(def), *final(def), sentinel@),
{
    rewrite_in_stored_definition(def, sentinel);
}

} // verus!
