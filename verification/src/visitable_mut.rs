use vstd::prelude::*;

use crate::ast::{
    Argument, BinaryOp, Causality, ClassDefinition, ClassType, ComponentDeclaration,
    ComponentReference, Connection, Description, ElementFlags, Equation, EquationIfBlock,
    Expression, ExpressionIfBlock, ForIndex, ImportClause, ModExpr, Modification, Name, RefPart,
    Statement, StatementIfBlock, StoredDefinition, Subscript, TypeSpecifier, UnaryOp, Variability,
    Visibility,
};
use crate::size::{
    argument_count, arguments_count, binary_op_count, causality_count, class_definition_count,
    class_type_count, classes_count, component_declaration_count, component_declarations_count,
    component_reference_count, connection_count, description_count, element_flags_count,
    equation_count, equation_if_block_count, equation_if_blocks_count, equations_count,
    expression_count, expression_if_block_count, expression_if_blocks_count, expressions_count,
    for_index_count, for_indices_count, import_clause_count, import_clauses_count,
    lemma_arguments_count_prefix, lemma_arguments_count_split, lemma_arguments_count_update,
    lemma_classes_count_prefix, lemma_classes_count_split, lemma_classes_count_update,
    lemma_component_declarations_count_prefix, lemma_component_declarations_count_split,
    lemma_component_declarations_count_update, lemma_equation_if_blocks_count_prefix,
    lemma_equation_if_blocks_count_split, lemma_equation_if_blocks_count_update,
    lemma_equations_count_prefix, lemma_equations_count_split, lemma_equations_count_update,
    lemma_expression_if_blocks_count_prefix, lemma_expression_if_blocks_count_split,
    lemma_expression_if_blocks_count_update, lemma_expressions_count_prefix,
    lemma_expressions_count_split, lemma_expressions_count_update, lemma_for_indices_count_prefix,
    lemma_for_indices_count_split, lemma_for_indices_count_update,
    lemma_import_clauses_count_prefix, lemma_import_clauses_count_split,
    lemma_import_clauses_count_update, lemma_ref_parts_count_prefix, lemma_ref_parts_count_split,
    lemma_ref_parts_count_update, lemma_statement_if_blocks_count_prefix,
    lemma_statement_if_blocks_count_split, lemma_statement_if_blocks_count_update,
    lemma_statement_lists_count_prefix, lemma_statement_lists_count_split,
    lemma_statement_lists_count_update, lemma_statements_count_prefix,
    lemma_statements_count_split, lemma_statements_count_update, lemma_subscripts_count_prefix,
    lemma_subscripts_count_split, lemma_subscripts_count_update,
    lemma_type_specifiers_count_prefix, lemma_type_specifiers_count_split,
    lemma_type_specifiers_count_update, mod_expr_count, modification_count, name_count,
    ref_part_count, ref_parts_count, statement_count, statement_if_block_count,
    statement_if_blocks_count, statement_lists_count, statements_count, stored_definition_count,
    subscript_count, subscripts_count, type_specifier_count, type_specifiers_count, unary_op_count,
    variability_count, visibility_count,
};
use crate::node::{Node, NodeKind, node_count};
use crate::visitor_mut::VisitorMut;

verus! {

/// The mutating traversal capability, implemented once per node kind.
/// `accept_mut` invokes the visitor's global and per-kind enter hooks, then
/// recurses into each child in the fixed child order, then invokes the exit
/// hooks. It never fails and always terminates; both global hooks run
/// exactly once per visited node, and the node measure of the subtree is
/// preserved.
pub trait VisitableMut {
    /// The number of nodes this subtree holds.
    spec fn count(&self) -> nat;

    fn accept_mut<V: VisitorMut>(&mut self, v: &mut V)
        requires
            old(v).wf(),
            old(v).exits() <= old(v).enters(),
            old(v).enters() + old(self).count() <= usize::MAX as nat,
        ensures
            final(v).wf(),
            final(self).count() == old(self).count(),
            final(v).enters() == old(v).enters() + old(self).count(),
            final(v).exits() == old(v).exits() + old(self).count(),
    ;
}

#[verifier::loop_isolation(false)]
fn accept_mut_classes<V: VisitorMut>(items: &mut Vec<ClassDefinition>, v: &mut V)
    requires
        old(v).wf(),
        old(v).exits() <= old(v).enters(),
        old(v).enters() + classes_count(old(items)@, 0) <= usize::MAX as nat,
    ensures
        final(v).wf(),
        classes_count(final(items)@, 0) == classes_count(old(items)@, 0),
        final(items)@.len() == old(items)@.len(),
        final(v).enters() == old(v).enters() + classes_count(old(items)@, 0),
        final(v).exits() == old(v).exits() + classes_count(old(items)@, 0),
    decreases classes_count(items@, 0), 1int,
{
    let ghost n0 = v.enters();
    let ghost x0 = v.exits();
    let ghost items0 = items@;
    let n = items.len();
    for i in 0..n
        invariant
            v.wf(),
            v.exits() <= v.enters(),
            items@.len() == items0.len(),
            forall|j: int| i <= j < items0.len() ==> items@[j] == items0[j],
            classes_count(items@, 0) == classes_count(items0, 0),
            v.enters() == n0 + classes_count(items0, 0) - classes_count(items0, i as int),
            v.exits() == x0 + classes_count(items0, 0) - classes_count(items0, i as int),
        decreases n - i,
    {
        proof {
            lemma_classes_count_split(items@, i as int);
            lemma_classes_count_prefix(items@, i as int);
            lemma_classes_count_split(items0, i as int);
            lemma_classes_count_prefix(items0, i as int);
        }
        let ghost pre = items@;
        let e = &mut items[i];
        e.accept_mut(v);
        proof {
            lemma_classes_count_update(pre, items@, i as int, 0);
        }
    }
}

#[verifier::loop_isolation(false)]
fn accept_mut_type_specifiers<V: VisitorMut>(items: &mut Vec<TypeSpecifier>, v: &mut V)
    requires
        old(v).wf(),
        old(v).exits() <= old(v).enters(),
        old(v).enters() + type_specifiers_count(old(items)@, 0) <= usize::MAX as nat,
    ensures
        final(v).wf(),
        type_specifiers_count(final(items)@, 0) == type_specifiers_count(old(items)@, 0),
        final(items)@.len() == old(items)@.len(),
        final(v).enters() == old(v).enters() + type_specifiers_count(old(items)@, 0),
        final(v).exits() == old(v).exits() + type_specifiers_count(old(items)@, 0),
    decreases type_specifiers_count(items@, 0), 1int,
{
    let ghost n0 = v.enters();
    let ghost x0 = v.exits();
    let ghost items0 = items@;
    let n = items.len();
    for i in 0..n
        invariant
            v.wf(),
            v.exits() <= v.enters(),
            items@.len() == items0.len(),
            forall|j: int| i <= j < items0.len() ==> items@[j] == items0[j],
            type_specifiers_count(items@, 0) == type_specifiers_count(items0, 0),
            v.enters() == n0 + type_specifiers_count(items0, 0) - type_specifiers_count(items0, i as int),
            v.exits() == x0 + type_specifiers_count(items0, 0) - type_specifiers_count(items0, i as int),
        decreases n - i,
    {
        proof {
            lemma_type_specifiers_count_split(items@, i as int);
            lemma_type_specifiers_count_prefix(items@, i as int);
            lemma_type_specifiers_count_split(items0, i as int);
            lemma_type_specifiers_count_prefix(items0, i as int);
        }
        let ghost pre = items@;
        let e = &mut items[i];
        e.accept_mut(v);
        proof {
            lemma_type_specifiers_count_update(pre, items@, i as int, 0);
        }
    }
}

#[verifier::loop_isolation(false)]
fn accept_mut_import_clauses<V: VisitorMut>(items: &mut Vec<ImportClause>, v: &mut V)
    requires
        old(v).wf(),
        old(v).exits() <= old(v).enters(),
        old(v).enters() + import_clauses_count(old(items)@, 0) <= usize::MAX as nat,
    ensures
        final(v).wf(),
        import_clauses_count(final(items)@, 0) == import_clauses_count(old(items)@, 0),
        final(items)@.len() == old(items)@.len(),
        final(v).enters() == old(v).enters() + import_clauses_count(old(items)@, 0),
        final(v).exits() == old(v).exits() + import_clauses_count(old(items)@, 0),
    decreases import_clauses_count(items@, 0), 1int,
{
    let ghost n0 = v.enters();
    let ghost x0 = v.exits();
    let ghost items0 = items@;
    let n = items.len();
    for i in 0..n
        invariant
            v.wf(),
            v.exits() <= v.enters(),
            items@.len() == items0.len(),
            forall|j: int| i <= j < items0.len() ==> items@[j] == items0[j],
            import_clauses_count(items@, 0) == import_clauses_count(items0, 0),
            v.enters() == n0 + import_clauses_count(items0, 0) - import_clauses_count(items0, i as int),
            v.exits() == x0 + import_clauses_count(items0, 0) - import_clauses_count(items0, i as int),
        decreases n - i,
    {
        proof {
            lemma_import_clauses_count_split(items@, i as int);
            lemma_import_clauses_count_prefix(items@, i as int);
            lemma_import_clauses_count_split(items0, i as int);
            lemma_import_clauses_count_prefix(items0, i as int);
        }
        let ghost pre = items@;
        let e = &mut items[i];
        e.accept_mut(v);
        proof {
            lemma_import_clauses_count_update(pre, items@, i as int, 0);
        }
    }
}

#[verifier::loop_isolation(false)]
fn accept_mut_arguments<V: VisitorMut>(items: &mut Vec<Argument>, v: &mut V)
    requires
        old(v).wf(),
        old(v).exits() <= old(v).enters(),
        old(v).enters() + arguments_count(old(items)@, 0) <= usize::MAX as nat,
    ensures
        final(v).wf(),
        arguments_count(final(items)@, 0) == arguments_count(old(items)@, 0),
        final(items)@.len() == old(items)@.len(),
        final(v).enters() == old(v).enters() + arguments_count(old(items)@, 0),
        final(v).exits() == old(v).exits() + arguments_count(old(items)@, 0),
    decreases arguments_count(items@, 0), 1int,
{
    let ghost n0 = v.enters();
    let ghost x0 = v.exits();
    let ghost items0 = items@;
    let n = items.len();
    for i in 0..n
        invariant
            v.wf(),
            v.exits() <= v.enters(),
            items@.len() == items0.len(),
            forall|j: int| i <= j < items0.len() ==> items@[j] == items0[j],
            arguments_count(items@, 0) == arguments_count(items0, 0),
            v.enters() == n0 + arguments_count(items0, 0) - arguments_count(items0, i as int),
            v.exits() == x0 + arguments_count(items0, 0) - arguments_count(items0, i as int),
        decreases n - i,
    {
        proof {
            lemma_arguments_count_split(items@, i as int);
            lemma_arguments_count_prefix(items@, i as int);
            lemma_arguments_count_split(items0, i as int);
            lemma_arguments_count_prefix(items0, i as int);
        }
        let ghost pre = items@;
        let e = &mut items[i];
        e.accept_mut(v);
        proof {
            lemma_arguments_count_update(pre, items@, i as int, 0);
        }
    }
}

#[verifier::loop_isolation(false)]
fn accept_mut_component_declarations<V: VisitorMut>(items: &mut Vec<ComponentDeclaration>, v: &mut V)
    requires
        old(v).wf(),
        old(v).exits() <= old(v).enters(),
        old(v).enters() + component_declarations_count(old(items)@, 0) <= usize::MAX as nat,
    ensures
        final(v).wf(),
        component_declarations_count(final(items)@, 0) == component_declarations_count(old(items)@, 0),
        final(items)@.len() == old(items)@.len(),
        final(v).enters() == old(v).enters() + component_declarations_count(old(items)@, 0),
        final(v).exits() == old(v).exits() + component_declarations_count(old(items)@, 0),
    decreases component_declarations_count(items@, 0), 1int,
{
    let ghost n0 = v.enters();
    let ghost x0 = v.exits();
    let ghost items0 = items@;
    let n = items.len();
    for i in 0..n
        invariant
            v.wf(),
            v.exits() <= v.enters(),
            items@.len() == items0.len(),
            forall|j: int| i <= j < items0.len() ==> items@[j] == items0[j],
            component_declarations_count(items@, 0) == component_declarations_count(items0, 0),
            v.enters() == n0 + component_declarations_count(items0, 0) - component_declarations_count(items0, i as int),
            v.exits() == x0 + component_declarations_count(items0, 0) - component_declarations_count(items0, i as int),
        decreases n - i,
    {
        proof {
            lemma_component_declarations_count_split(items@, i as int);
            lemma_component_declarations_count_prefix(items@, i as int);
            lemma_component_declarations_count_split(items0, i as int);
            lemma_component_declarations_count_prefix(items0, i as int);
        }
        let ghost pre = items@;
        let e = &mut items[i];
        e.accept_mut(v);
        proof {
            lemma_component_declarations_count_update(pre, items@, i as int, 0);
        }
    }
}

#[verifier::loop_isolation(false)]
fn accept_mut_equations<V: VisitorMut>(items: &mut Vec<Equation>, v: &mut V)
    requires
        old(v).wf(),
        old(v).exits() <= old(v).enters(),
        old(v).enters() + equations_count(old(items)@, 0) <= usize::MAX as nat,
    ensures
        final(v).wf(),
        equations_count(final(items)@, 0) == equations_count(old(items)@, 0),
        final(items)@.len() == old(items)@.len(),
        final(v).enters() == old(v).enters() + equations_count(old(items)@, 0),
        final(v).exits() == old(v).exits() + equations_count(old(items)@, 0),
    decreases equations_count(items@, 0), 1int,
{
    let ghost n0 = v.enters();
    let ghost x0 = v.exits();
    let ghost items0 = items@;
    let n = items.len();
    for i in 0..n
        invariant
            v.wf(),
            v.exits() <= v.enters(),
            items@.len() == items0.len(),
            forall|j: int| i <= j < items0.len() ==> items@[j] == items0[j],
            equations_count(items@, 0) == equations_count(items0, 0),
            v.enters() == n0 + equations_count(items0, 0) - equations_count(items0, i as int),
            v.exits() == x0 + equations_count(items0, 0) - equations_count(items0, i as int),
        decreases n - i,
    {
        proof {
            lemma_equations_count_split(items@, i as int);
            lemma_equations_count_prefix(items@, i as int);
            lemma_equations_count_split(items0, i as int);
            lemma_equations_count_prefix(items0, i as int);
        }
        let ghost pre = items@;
        let e = &mut items[i];
        e.accept_mut(v);
        proof {
            lemma_equations_count_update(pre, items@, i as int, 0);
        }
    }
}

#[verifier::loop_isolation(false)]
fn accept_mut_statements<V: VisitorMut>(items: &mut Vec<Statement>, v: &mut V)
    requires
        old(v).wf(),
        old(v).exits() <= old(v).enters(),
        old(v).enters() + statements_count(old(items)@, 0) <= usize::MAX as nat,
    ensures
        final(v).wf(),
        statements_count(final(items)@, 0) == statements_count(old(items)@, 0),
        final(items)@.len() == old(items)@.len(),
        final(v).enters() == old(v).enters() + statements_count(old(items)@, 0),
        final(v).exits() == old(v).exits() + statements_count(old(items)@, 0),
    decreases statements_count(items@, 0), 1int,
{
    let ghost n0 = v.enters();
    let ghost x0 = v.exits();
    let ghost items0 = items@;
    let n = items.len();
    for i in 0..n
        invariant
            v.wf(),
            v.exits() <= v.enters(),
            items@.len() == items0.len(),
            forall|j: int| i <= j < items0.len() ==> items@[j] == items0[j],
            statements_count(items@, 0) == statements_count(items0, 0),
            v.enters() == n0 + statements_count(items0, 0) - statements_count(items0, i as int),
            v.exits() == x0 + statements_count(items0, 0) - statements_count(items0, i as int),
        decreases n - i,
    {
        proof {
            lemma_statements_count_split(items@, i as int);
            lemma_statements_count_prefix(items@, i as int);
            lemma_statements_count_split(items0, i as int);
            lemma_statements_count_prefix(items0, i as int);
        }
        let ghost pre = items@;
        let e = &mut items[i];
        e.accept_mut(v);
        proof {
            lemma_statements_count_update(pre, items@, i as int, 0);
        }
    }
}

#[verifier::loop_isolation(false)]
fn accept_mut_expressions<V: VisitorMut>(items: &mut Vec<Expression>, v: &mut V)
    requires
        old(v).wf(),
        old(v).exits() <= old(v).enters(),
        old(v).enters() + expressions_count(old(items)@, 0) <= usize::MAX as nat,
    ensures
        final(v).wf(),
        expressions_count(final(items)@, 0) == expressions_count(old(items)@, 0),
        final(items)@.len() == old(items)@.len(),
        final(v).enters() == old(v).enters() + expressions_count(old(items)@, 0),
        final(v).exits() == old(v).exits() + expressions_count(old(items)@, 0),
    decreases expressions_count(items@, 0), 1int,
{
    let ghost n0 = v.enters();
    let ghost x0 = v.exits();
    let ghost items0 = items@;
    let n = items.len();
    for i in 0..n
        invariant
            v.wf(),
            v.exits() <= v.enters(),
            items@.len() == items0.len(),
            forall|j: int| i <= j < items0.len() ==> items@[j] == items0[j],
            expressions_count(items@, 0) == expressions_count(items0, 0),
            v.enters() == n0 + expressions_count(items0, 0) - expressions_count(items0, i as int),
            v.exits() == x0 + expressions_count(items0, 0) - expressions_count(items0, i as int),
        decreases n - i,
    {
        proof {
            lemma_expressions_count_split(items@, i as int);
            lemma_expressions_count_prefix(items@, i as int);
            lemma_expressions_count_split(items0, i as int);
            lemma_expressions_count_prefix(items0, i as int);
        }
        let ghost pre = items@;
        let e = &mut items[i];
        e.accept_mut(v);
        proof {
            lemma_expressions_count_update(pre, items@, i as int, 0);
        }
    }
}

#[verifier::loop_isolation(false)]
fn accept_mut_subscripts<V: VisitorMut>(items: &mut Vec<Subscript>, v: &mut V)
    requires
        old(v).wf(),
        old(v).exits() <= old(v).enters(),
        old(v).enters() + subscripts_count(old(items)@, 0) <= usize::MAX as nat,
    ensures
        final(v).wf(),
        subscripts_count(final(items)@, 0) == subscripts_count(old(items)@, 0),
        final(items)@.len() == old(items)@.len(),
        final(v).enters() == old(v).enters() + subscripts_count(old(items)@, 0),
        final(v).exits() == old(v).exits() + subscripts_count(old(items)@, 0),
    decreases subscripts_count(items@, 0), 1int,
{
    let ghost n0 = v.enters();
    let ghost x0 = v.exits();
    let ghost items0 = items@;
    let n = items.len();
    for i in 0..n
        invariant
            v.wf(),
            v.exits() <= v.enters(),
            items@.len() == items0.len(),
            forall|j: int| i <= j < items0.len() ==> items@[j] == items0[j],
            subscripts_count(items@, 0) == subscripts_count(items0, 0),
            v.enters() == n0 + subscripts_count(items0, 0) - subscripts_count(items0, i as int),
            v.exits() == x0 + subscripts_count(items0, 0) - subscripts_count(items0, i as int),
        decreases n - i,
    {
        proof {
            lemma_subscripts_count_split(items@, i as int);
            lemma_subscripts_count_prefix(items@, i as int);
            lemma_subscripts_count_split(items0, i as int);
            lemma_subscripts_count_prefix(items0, i as int);
        }
        let ghost pre = items@;
        let e = &mut items[i];
        e.accept_mut(v);
        proof {
            lemma_subscripts_count_update(pre, items@, i as int, 0);
        }
    }
}

#[verifier::loop_isolation(false)]
fn accept_mut_ref_parts<V: VisitorMut>(items: &mut Vec<RefPart>, v: &mut V)
    requires
        old(v).wf(),
        old(v).exits() <= old(v).enters(),
        old(v).enters() + ref_parts_count(old(items)@, 0) <= usize::MAX as nat,
    ensures
        final(v).wf(),
        ref_parts_count(final(items)@, 0) == ref_parts_count(old(items)@, 0),
        final(items)@.len() == old(items)@.len(),
        final(v).enters() == old(v).enters() + ref_parts_count(old(items)@, 0),
        final(v).exits() == old(v).exits() + ref_parts_count(old(items)@, 0),
    decreases ref_parts_count(items@, 0), 1int,
{
    let ghost n0 = v.enters();
    let ghost x0 = v.exits();
    let ghost items0 = items@;
    let n = items.len();
    for i in 0..n
        invariant
            v.wf(),
            v.exits() <= v.enters(),
            items@.len() == items0.len(),
            forall|j: int| i <= j < items0.len() ==> items@[j] == items0[j],
            ref_parts_count(items@, 0) == ref_parts_count(items0, 0),
            v.enters() == n0 + ref_parts_count(items0, 0) - ref_parts_count(items0, i as int),
            v.exits() == x0 + ref_parts_count(items0, 0) - ref_parts_count(items0, i as int),
        decreases n - i,
    {
        proof {
            lemma_ref_parts_count_split(items@, i as int);
            lemma_ref_parts_count_prefix(items@, i as int);
            lemma_ref_parts_count_split(items0, i as int);
            lemma_ref_parts_count_prefix(items0, i as int);
        }
        let ghost pre = items@;
        let e = &mut items[i];
        e.accept_mut(v);
        proof {
            lemma_ref_parts_count_update(pre, items@, i as int, 0);
        }
    }
}

#[verifier::loop_isolation(false)]
fn accept_mut_for_indices<V: VisitorMut>(items: &mut Vec<ForIndex>, v: &mut V)
    requires
        old(v).wf(),
        old(v).exits() <= old(v).enters(),
        old(v).enters() + for_indices_count(old(items)@, 0) <= usize::MAX as nat,
    ensures
        final(v).wf(),
        for_indices_count(final(items)@, 0) == for_indices_count(old(items)@, 0),
        final(items)@.len() == old(items)@.len(),
        final(v).enters() == old(v).enters() + for_indices_count(old(items)@, 0),
        final(v).exits() == old(v).exits() + for_indices_count(old(items)@, 0),
    decreases for_indices_count(items@, 0), 1int,
{
    let ghost n0 = v.enters();
    let ghost x0 = v.exits();
    let ghost items0 = items@;
    let n = items.len();
    for i in 0..n
        invariant
            v.wf(),
            v.exits() <= v.enters(),
            items@.len() == items0.len(),
            forall|j: int| i <= j < items0.len() ==> items@[j] == items0[j],
            for_indices_count(items@, 0) == for_indices_count(items0, 0),
            v.enters() == n0 + for_indices_count(items0, 0) - for_indices_count(items0, i as int),
            v.exits() == x0 + for_indices_count(items0, 0) - for_indices_count(items0, i as int),
        decreases n - i,
    {
        proof {
            lemma_for_indices_count_split(items@, i as int);
            lemma_for_indices_count_prefix(items@, i as int);
            lemma_for_indices_count_split(items0, i as int);
            lemma_for_indices_count_prefix(items0, i as int);
        }
        let ghost pre = items@;
        let e = &mut items[i];
        e.accept_mut(v);
        proof {
            lemma_for_indices_count_update(pre, items@, i as int, 0);
        }
    }
}

#[verifier::loop_isolation(false)]
fn accept_mut_equation_if_blocks<V: VisitorMut>(items: &mut Vec<EquationIfBlock>, v: &mut V)
    requires
        old(v).wf(),
        old(v).exits() <= old(v).enters(),
        old(v).enters() + equation_if_blocks_count(old(items)@, 0) <= usize::MAX as nat,
    ensures
        final(v).wf(),
        equation_if_blocks_count(final(items)@, 0) == equation_if_blocks_count(old(items)@, 0),
        final(items)@.len() == old(items)@.len(),
        final(v).enters() == old(v).enters() + equation_if_blocks_count(old(items)@, 0),
        final(v).exits() == old(v).exits() + equation_if_blocks_count(old(items)@, 0),
    decreases equation_if_blocks_count(items@, 0), 1int,
{
    let ghost n0 = v.enters();
    let ghost x0 = v.exits();
    let ghost items0 = items@;
    let n = items.len();
    for i in 0..n
        invariant
            v.wf(),
            v.exits() <= v.enters(),
            items@.len() == items0.len(),
            forall|j: int| i <= j < items0.len() ==> items@[j] == items0[j],
            equation_if_blocks_count(items@, 0) == equation_if_blocks_count(items0, 0),
            v.enters() == n0 + equation_if_blocks_count(items0, 0) - equation_if_blocks_count(items0, i as int),
            v.exits() == x0 + equation_if_blocks_count(items0, 0) - equation_if_blocks_count(items0, i as int),
        decreases n - i,
    {
        proof {
            lemma_equation_if_blocks_count_split(items@, i as int);
            lemma_equation_if_blocks_count_prefix(items@, i as int);
            lemma_equation_if_blocks_count_split(items0, i as int);
            lemma_equation_if_blocks_count_prefix(items0, i as int);
        }
        let ghost pre = items@;
        let e = &mut items[i];
        e.accept_mut(v);
        proof {
            lemma_equation_if_blocks_count_update(pre, items@, i as int, 0);
        }
    }
}

#[verifier::loop_isolation(false)]
fn accept_mut_statement_if_blocks<V: VisitorMut>(items: &mut Vec<StatementIfBlock>, v: &mut V)
    requires
        old(v).wf(),
        old(v).exits() <= old(v).enters(),
        old(v).enters() + statement_if_blocks_count(old(items)@, 0) <= usize::MAX as nat,
    ensures
        final(v).wf(),
        statement_if_blocks_count(final(items)@, 0) == statement_if_blocks_count(old(items)@, 0),
        final(items)@.len() == old(items)@.len(),
        final(v).enters() == old(v).enters() + statement_if_blocks_count(old(items)@, 0),
        final(v).exits() == old(v).exits() + statement_if_blocks_count(old(items)@, 0),
    decreases statement_if_blocks_count(items@, 0), 1int,
{
    let ghost n0 = v.enters();
    let ghost x0 = v.exits();
    let ghost items0 = items@;
    let n = items.len();
    for i in 0..n
        invariant
            v.wf(),
            v.exits() <= v.enters(),
            items@.len() == items0.len(),
            forall|j: int| i <= j < items0.len() ==> items@[j] == items0[j],
            statement_if_blocks_count(items@, 0) == statement_if_blocks_count(items0, 0),
            v.enters() == n0 + statement_if_blocks_count(items0, 0) - statement_if_blocks_count(items0, i as int),
            v.exits() == x0 + statement_if_blocks_count(items0, 0) - statement_if_blocks_count(items0, i as int),
        decreases n - i,
    {
        proof {
            lemma_statement_if_blocks_count_split(items@, i as int);
            lemma_statement_if_blocks_count_prefix(items@, i as int);
            lemma_statement_if_blocks_count_split(items0, i as int);
            lemma_statement_if_blocks_count_prefix(items0, i as int);
        }
        let ghost pre = items@;
        let e = &mut items[i];
        e.accept_mut(v);
        proof {
            lemma_statement_if_blocks_count_update(pre, items@, i as int, 0);
        }
    }
}

#[verifier::loop_isolation(false)]
fn accept_mut_expression_if_blocks<V: VisitorMut>(items: &mut Vec<ExpressionIfBlock>, v: &mut V)
    requires
        old(v).wf(),
        old(v).exits() <= old(v).enters(),
        old(v).enters() + expression_if_blocks_count(old(items)@, 0) <= usize::MAX as nat,
    ensures
        final(v).wf(),
        expression_if_blocks_count(final(items)@, 0) == expression_if_blocks_count(old(items)@, 0),
        final(items)@.len() == old(items)@.len(),
        final(v).enters() == old(v).enters() + expression_if_blocks_count(old(items)@, 0),
        final(v).exits() == old(v).exits() + expression_if_blocks_count(old(items)@, 0),
    decreases expression_if_blocks_count(items@, 0), 1int,
{
    let ghost n0 = v.enters();
    let ghost x0 = v.exits();
    let ghost items0 = items@;
    let n = items.len();
    for i in 0..n
        invariant
            v.wf(),
            v.exits() <= v.enters(),
            items@.len() == items0.len(),
            forall|j: int| i <= j < items0.len() ==> items@[j] == items0[j],
            expression_if_blocks_count(items@, 0) == expression_if_blocks_count(items0, 0),
            v.enters() == n0 + expression_if_blocks_count(items0, 0) - expression_if_blocks_count(items0, i as int),
            v.exits() == x0 + expression_if_blocks_count(items0, 0) - expression_if_blocks_count(items0, i as int),
        decreases n - i,
    {
        proof {
            lemma_expression_if_blocks_count_split(items@, i as int);
            lemma_expression_if_blocks_count_prefix(items@, i as int);
            lemma_expression_if_blocks_count_split(items0, i as int);
            lemma_expression_if_blocks_count_prefix(items0, i as int);
        }
        let ghost pre = items@;
        let e = &mut items[i];
        e.accept_mut(v);
        proof {
            lemma_expression_if_blocks_count_update(pre, items@, i as int, 0);
        }
    }
}

#[verifier::loop_isolation(false)]
fn accept_mut_statement_lists<V: VisitorMut>(items: &mut Vec<Vec<Statement>>, v: &mut V)
    requires
        old(v).wf(),
        old(v).exits() <= old(v).enters(),
        old(v).enters() + statement_lists_count(old(items)@, 0) <= usize::MAX as nat,
    ensures
        final(v).wf(),
        statement_lists_count(final(items)@, 0) == statement_lists_count(old(items)@, 0),
        final(items)@.len() == old(items)@.len(),
        final(v).enters() == old(v).enters() + statement_lists_count(old(items)@, 0),
        final(v).exits() == old(v).exits() + statement_lists_count(old(items)@, 0),
    decreases statement_lists_count(items@, 0), 1int,
{
    let ghost n0 = v.enters();
    let ghost x0 = v.exits();
    let ghost items0 = items@;
    let n = items.len();
    for i in 0..n
        invariant
            v.wf(),
            v.exits() <= v.enters(),
            items@.len() == items0.len(),
            forall|j: int| i <= j < items0.len() ==> items@[j] == items0[j],
            statement_lists_count(items@, 0) == statement_lists_count(items0, 0),
            v.enters() == n0 + statement_lists_count(items0, 0) - statement_lists_count(items0, i as int),
            v.exits() == x0 + statement_lists_count(items0, 0) - statement_lists_count(items0, i as int),
        decreases n - i,
    {
        proof {
            lemma_statement_lists_count_split(items@, i as int);
            lemma_statement_lists_count_prefix(items@, i as int);
            lemma_statement_lists_count_split(items0, i as int);
            lemma_statement_lists_count_prefix(items0, i as int);
        }
        let ghost pre = items@;
        let e = &mut items[i];
        accept_mut_statements(e, v);
        proof {
            lemma_statement_lists_count_update(pre, items@, i as int, 0);
        }
    }
}

impl VisitableMut for Causality {
    open spec fn count(&self) -> nat {
        causality_count(*self)
    }

    #[verifier::loop_isolation(false)]
    fn accept_mut<V: VisitorMut>(&mut self, v: &mut V)
        decreases causality_count(*self), 0int,
    {
        v.enter_any(NodeKind::Causality);
        v.enter_causality_mut(self);
        v.exit_causality_mut(self);
        v.exit_any(NodeKind::Causality);
    }
}

impl VisitableMut for Variability {
    open spec fn count(&self) -> nat {
        variability_count(*self)
    }

    #[verifier::loop_isolation(false)]
    fn accept_mut<V: VisitorMut>(&mut self, v: &mut V)
        decreases variability_count(*self), 0int,
    {
        v.enter_any(NodeKind::Variability);
        v.enter_variability_mut(self);
        v.exit_variability_mut(self);
        v.exit_any(NodeKind::Variability);
    }
}

impl VisitableMut for Visibility {
    open spec fn count(&self) -> nat {
        visibility_count(*self)
    }

    #[verifier::loop_isolation(false)]
    fn accept_mut<V: VisitorMut>(&mut self, v: &mut V)
        decreases visibility_count(*self), 0int,
    {
        v.enter_any(NodeKind::Visibility);
        v.enter_visibility_mut(self);
        v.exit_visibility_mut(self);
        v.exit_any(NodeKind::Visibility);
    }
}

impl VisitableMut for Connection {
    open spec fn count(&self) -> nat {
        connection_count(*self)
    }

    #[verifier::loop_isolation(false)]
    fn accept_mut<V: VisitorMut>(&mut self, v: &mut V)
        decreases connection_count(*self), 0int,
    {
        v.enter_any(NodeKind::Connection);
        v.enter_connection_mut(self);
        v.exit_connection_mut(self);
        v.exit_any(NodeKind::Connection);
    }
}

impl VisitableMut for UnaryOp {
    open spec fn count(&self) -> nat {
        unary_op_count(*self)
    }

    #[verifier::loop_isolation(false)]
    fn accept_mut<V: VisitorMut>(&mut self, v: &mut V)
        decreases unary_op_count(*self), 0int,
    {
        v.enter_any(NodeKind::UnaryOp);
        v.enter_unary_op_mut(self);
        v.exit_unary_op_mut(self);
        v.exit_any(NodeKind::UnaryOp);
    }
}

impl VisitableMut for BinaryOp {
    open spec fn count(&self) -> nat {
        binary_op_count(*self)
    }

    #[verifier::loop_isolation(false)]
    fn accept_mut<V: VisitorMut>(&mut self, v: &mut V)
        decreases binary_op_count(*self), 0int,
    {
        v.enter_any(NodeKind::BinaryOp);
        v.enter_binary_op_mut(self);
        v.exit_binary_op_mut(self);
        v.exit_any(NodeKind::BinaryOp);
    }
}

impl VisitableMut for ClassType {
    open spec fn count(&self) -> nat {
        class_type_count(*self)
    }

    #[verifier::loop_isolation(false)]
    fn accept_mut<V: VisitorMut>(&mut self, v: &mut V)
        decreases class_type_count(*self), 0int,
    {
        v.enter_any(NodeKind::ClassType);
        v.enter_class_type_mut(self);
        v.exit_class_type_mut(self);
        v.exit_any(NodeKind::ClassType);
    }
}

impl VisitableMut for ElementFlags {
    open spec fn count(&self) -> nat {
        element_flags_count(*self)
    }

    #[verifier::loop_isolation(false)]
    fn accept_mut<V: VisitorMut>(&mut self, v: &mut V)
        decreases element_flags_count(*self), 0int,
    {
        v.enter_any(NodeKind::ElementFlags);
        v.enter_element_flags_mut(self);
        v.exit_element_flags_mut(self);
        v.exit_any(NodeKind::ElementFlags);
    }
}

impl VisitableMut for Name {
    open spec fn count(&self) -> nat {
        name_count(*self)
    }

    #[verifier::loop_isolation(false)]
    fn accept_mut<V: VisitorMut>(&mut self, v: &mut V)
        decreases name_count(*self), 0int,
    {
        v.enter_any(NodeKind::Name);
        v.enter_name_mut(self);
        v.exit_name_mut(self);
        v.exit_any(NodeKind::Name);
    }
}

impl VisitableMut for StoredDefinition {
    open spec fn count(&self) -> nat {
        stored_definition_count(*self)
    }

    #[verifier::loop_isolation(false)]
    fn accept_mut<V: VisitorMut>(&mut self, v: &mut V)
        decreases stored_definition_count(*self), 0int,
    {
        v.enter_any(NodeKind::StoredDefinition);
        v.enter_stored_definition_mut(self);
        if let Some(c) = &mut self.within {
            c.accept_mut(v);
        }
        accept_mut_classes(&mut self.classes, v);
        v.exit_stored_definition_mut(self);
        v.exit_any(NodeKind::StoredDefinition);
    }
}

impl VisitableMut for ClassDefinition {
    open spec fn count(&self) -> nat {
        class_definition_count(*self)
    }

    #[verifier::loop_isolation(false)]
    fn accept_mut<V: VisitorMut>(&mut self, v: &mut V)
        decreases class_definition_count(*self), 0int,
    {
        v.enter_any(NodeKind::ClassDefinition);
        v.enter_class_definition_mut(self);
        self.class_type.accept_mut(v);
        accept_mut_type_specifiers(&mut self.extends, v);
        accept_mut_import_clauses(&mut self.imports, v);
        accept_mut_arguments(&mut self.modification, v);
        accept_mut_component_declarations(&mut self.components, v);
        accept_mut_classes(&mut self.classes, v);
        accept_mut_equations(&mut self.equations, v);
        accept_mut_statement_lists(&mut self.algorithms, v);
        accept_mut_equations(&mut self.initial_equations, v);
        accept_mut_statement_lists(&mut self.initial_algorithms, v);
        v.exit_class_definition_mut(self);
        v.exit_any(NodeKind::ClassDefinition);
    }
}

impl VisitableMut for ImportClause {
    open spec fn count(&self) -> nat {
        import_clause_count(*self)
    }

    #[verifier::loop_isolation(false)]
    fn accept_mut<V: VisitorMut>(&mut self, v: &mut V)
        decreases import_clause_count(*self), 0int,
    {
        v.enter_any(NodeKind::ImportClause);
        v.enter_import_clause_mut(self);
        self.name.accept_mut(v);
        if let Some(c) = &mut self.description {
            c.accept_mut(v);
        }
        v.exit_import_clause_mut(self);
        v.exit_any(NodeKind::ImportClause);
    }
}

impl VisitableMut for ComponentDeclaration {
    open spec fn count(&self) -> nat {
        component_declaration_count(*self)
    }

    #[verifier::loop_isolation(false)]
    fn accept_mut<V: VisitorMut>(&mut self, v: &mut V)
        decreases component_declaration_count(*self), 0int,
    {
        v.enter_any(NodeKind::ComponentDeclaration);
        v.enter_component_declaration_mut(self);
        self.type_specifier.accept_mut(v);
        self.flags.accept_mut(v);
        self.connection.accept_mut(v);
        self.variability.accept_mut(v);
        self.causality.accept_mut(v);
        self.visibility.accept_mut(v);
        accept_mut_subscripts(&mut self.array_subscripts, v);
        if let Some(c) = &mut self.modification {
            c.accept_mut(v);
        }
        if let Some(c) = &mut self.condition_attribute {
            c.accept_mut(v);
        }
        if let Some(c) = &mut self.description {
            c.accept_mut(v);
        }
        v.exit_component_declaration_mut(self);
        v.exit_any(NodeKind::ComponentDeclaration);
    }
}

impl VisitableMut for ComponentReference {
    open spec fn count(&self) -> nat {
        component_reference_count(*self)
    }

    #[verifier::loop_isolation(false)]
    fn accept_mut<V: VisitorMut>(&mut self, v: &mut V)
        decreases component_reference_count(*self), 0int,
    {
        v.enter_any(NodeKind::ComponentReference);
        v.enter_component_reference_mut(self);
        accept_mut_ref_parts(&mut self.parts, v);
        v.exit_component_reference_mut(self);
        v.exit_any(NodeKind::ComponentReference);
    }
}

impl VisitableMut for RefPart {
    open spec fn count(&self) -> nat {
        ref_part_count(*self)
    }

    #[verifier::loop_isolation(false)]
    fn accept_mut<V: VisitorMut>(&mut self, v: &mut V)
        decreases ref_part_count(*self), 0int,
    {
        v.enter_any(NodeKind::RefPart);
        v.enter_ref_part_mut(self);
        accept_mut_subscripts(&mut self.array_subscripts, v);
        v.exit_ref_part_mut(self);
        v.exit_any(NodeKind::RefPart);
    }
}

impl VisitableMut for Description {
    open spec fn count(&self) -> nat {
        description_count(*self)
    }

    #[verifier::loop_isolation(false)]
    fn accept_mut<V: VisitorMut>(&mut self, v: &mut V)
        decreases description_count(*self), 0int,
    {
        v.enter_any(NodeKind::Description);
        v.enter_description_mut(self);
        accept_mut_arguments(&mut self.annotation, v);
        v.exit_description_mut(self);
        v.exit_any(NodeKind::Description);
    }
}

impl VisitableMut for ForIndex {
    open spec fn count(&self) -> nat {
        for_index_count(*self)
    }

    #[verifier::loop_isolation(false)]
    fn accept_mut<V: VisitorMut>(&mut self, v: &mut V)
        decreases for_index_count(*self), 0int,
    {
        v.enter_any(NodeKind::ForIndex);
        v.enter_for_index_mut(self);
        if let Some(c) = &mut self.in_expr {
            c.accept_mut(v);
        }
        v.exit_for_index_mut(self);
        v.exit_any(NodeKind::ForIndex);
    }
}

impl VisitableMut for EquationIfBlock {
    open spec fn count(&self) -> nat {
        equation_if_block_count(*self)
    }

    #[verifier::loop_isolation(false)]
    fn accept_mut<V: VisitorMut>(&mut self, v: &mut V)
        decreases equation_if_block_count(*self), 0int,
    {
        v.enter_any(NodeKind::EquationIfBlock);
        v.enter_equation_if_block_mut(self);
        self.cond.accept_mut(v);
        accept_mut_equations(&mut self.eqs, v);
        v.exit_equation_if_block_mut(self);
        v.exit_any(NodeKind::EquationIfBlock);
    }
}

impl VisitableMut for StatementIfBlock {
    open spec fn count(&self) -> nat {
        statement_if_block_count(*self)
    }

    #[verifier::loop_isolation(false)]
    fn accept_mut<V: VisitorMut>(&mut self, v: &mut V)
        decreases statement_if_block_count(*self), 0int,
    {
        v.enter_any(NodeKind::StatementIfBlock);
        v.enter_statement_if_block_mut(self);
        self.cond.accept_mut(v);
        accept_mut_statements(&mut self.stmts, v);
        v.exit_statement_if_block_mut(self);
        v.exit_any(NodeKind::StatementIfBlock);
    }
}

impl VisitableMut for ExpressionIfBlock {
    open spec fn count(&self) -> nat {
        expression_if_block_count(*self)
    }

    #[verifier::loop_isolation(false)]
    fn accept_mut<V: VisitorMut>(&mut self, v: &mut V)
        decreases expression_if_block_count(*self), 0int,
    {
        v.enter_any(NodeKind::ExpressionIfBlock);
        v.enter_expression_if_block_mut(self);
        self.cond.accept_mut(v);
        self.expr.accept_mut(v);
        v.exit_expression_if_block_mut(self);
        v.exit_any(NodeKind::ExpressionIfBlock);
    }
}

impl VisitableMut for TypeSpecifier {
    open spec fn count(&self) -> nat {
        type_specifier_count(*self)
    }

    #[verifier::loop_isolation(false)]
    fn accept_mut<V: VisitorMut>(&mut self, v: &mut V)
        decreases type_specifier_count(*self), 0int,
    {
        v.enter_any(NodeKind::TypeSpecifier);
        v.enter_type_specifier_mut(self);
        self.name.accept_mut(v);
        v.exit_type_specifier_mut(self);
        v.exit_any(NodeKind::TypeSpecifier);
    }
}

impl VisitableMut for Equation {
    open spec fn count(&self) -> nat {
        equation_count(*self)
    }

    #[verifier::loop_isolation(false)]
    fn accept_mut<V: VisitorMut>(&mut self, v: &mut V)
        decreases equation_count(*self), 0int,
    {
        v.enter_any(NodeKind::Equation);
        v.enter_equation_mut(self);
        match self {
            Equation::Empty => {}
            Equation::Connect(p) => {
                p.lhs.accept_mut(v);
                p.rhs.accept_mut(v);
                if let Some(c) = &mut p.description {
                    c.accept_mut(v);
                }
            }
            Equation::For(p) => {
                accept_mut_for_indices(&mut p.indices, v);
                accept_mut_equations(&mut p.eqs, v);
                if let Some(c) = &mut p.description {
                    c.accept_mut(v);
                }
            }
            Equation::If(p) => {
                accept_mut_equation_if_blocks(&mut p.if_blocks, v);
                accept_mut_equations(&mut p.else_eqs, v);
                if let Some(c) = &mut p.description {
                    c.accept_mut(v);
                }
            }
            Equation::Simple(p) => {
                p.lhs.accept_mut(v);
                p.rhs.accept_mut(v);
                if let Some(c) = &mut p.description {
                    c.accept_mut(v);
                }
            }
        }
        v.exit_equation_mut(self);
        v.exit_any(NodeKind::Equation);
    }
}

impl VisitableMut for Statement {
    open spec fn count(&self) -> nat {
        statement_count(*self)
    }

    #[verifier::loop_isolation(false)]
    fn accept_mut<V: VisitorMut>(&mut self, v: &mut V)
        decreases statement_count(*self), 0int,
    {
        v.enter_any(NodeKind::Statement);
        v.enter_statement_mut(self);
        match self {
            Statement::Empty => {}
            Statement::Assignment(p) => {
                p.comp.accept_mut(v);
                p.rhs.accept_mut(v);
                if let Some(c) = &mut p.description {
                    c.accept_mut(v);
                }
            }
            Statement::Break(p) => {
                if let Some(c) = &mut p.description {
                    c.accept_mut(v);
                }
            }
            Statement::For(p) => {
                accept_mut_for_indices(&mut p.indices, v);
                accept_mut_statements(&mut p.stmts, v);
                if let Some(c) = &mut p.description {
                    c.accept_mut(v);
                }
            }
            Statement::If(p) => {
                accept_mut_statement_if_blocks(&mut p.if_blocks, v);
                accept_mut_statements(&mut p.else_stmts, v);
                if let Some(c) = &mut p.description {
                    c.accept_mut(v);
                }
            }
            Statement::Return(p) => {
                if let Some(c) = &mut p.description {
                    c.accept_mut(v);
                }
            }
            Statement::While(p) => {
                p.cond.accept_mut(v);
                accept_mut_statements(&mut p.stmts, v);
                if let Some(c) = &mut p.description {
                    c.accept_mut(v);
                }
            }
        }
        v.exit_statement_mut(self);
        v.exit_any(NodeKind::Statement);
    }
}

impl VisitableMut for Expression {
    open spec fn count(&self) -> nat {
        expression_count(*self)
    }

    #[verifier::loop_isolation(false)]
    fn accept_mut<V: VisitorMut>(&mut self, v: &mut V)
        decreases expression_count(*self), 0int,
    {
        v.enter_any(NodeKind::Expression);
        v.enter_expression_mut(self);
        match self {
            Expression::Empty => {}
            Expression::Array(p) => {
                accept_mut_expressions(&mut p.args, v);
            }
            Expression::Binary(p) => {
                p.op.accept_mut(v);
                p.lhs.accept_mut(v);
                p.rhs.accept_mut(v);
            }
            Expression::Boolean(p) => {
            }
            Expression::FunctionCall(p) => {
                p.comp.accept_mut(v);
                accept_mut_expressions(&mut p.args, v);
            }
            Expression::If(p) => {
                accept_mut_expression_if_blocks(&mut p.if_blocks, v);
                if let Some(c) = &mut p.else_expr {
                    c.accept_mut(v);
                }
            }
            Expression::Ref(p) => {
                p.accept_mut(v);
            }
            Expression::Unary(p) => {
                p.op.accept_mut(v);
                p.rhs.accept_mut(v);
            }
            Expression::UnsignedInteger(p) => {
            }
            Expression::UnsignedReal(p) => {
            }
        }
        v.exit_expression_mut(self);
        v.exit_any(NodeKind::Expression);
    }
}

impl VisitableMut for Subscript {
    open spec fn count(&self) -> nat {
        subscript_count(*self)
    }

    #[verifier::loop_isolation(false)]
    fn accept_mut<V: VisitorMut>(&mut self, v: &mut V)
        decreases subscript_count(*self), 0int,
    {
        v.enter_any(NodeKind::Subscript);
        v.enter_subscript_mut(self);
        match self {
            Subscript::Empty => {}
            Subscript::Range(p) => {
            }
            Subscript::Expression(p) => {
                p.accept_mut(v);
            }
        }
        v.exit_subscript_mut(self);
        v.exit_any(NodeKind::Subscript);
    }
}

impl VisitableMut for Argument {
    open spec fn count(&self) -> nat {
        argument_count(*self)
    }

    #[verifier::loop_isolation(false)]
    fn accept_mut<V: VisitorMut>(&mut self, v: &mut V)
        decreases argument_count(*self), 0int,
    {
        v.enter_any(NodeKind::Argument);
        v.enter_argument_mut(self);
        match self {
            Argument::Empty => {}
            Argument::Modification(p) => {
                p.name.accept_mut(v);
                if let Some(c) = &mut p.modification {
                    c.accept_mut(v);
                }
                if let Some(c) = &mut p.description {
                    c.accept_mut(v);
                }
            }
            Argument::Redeclaration(p) => {
            }
            Argument::Replaceable(p) => {
            }
        }
        v.exit_argument_mut(self);
        v.exit_any(NodeKind::Argument);
    }
}

impl VisitableMut for Modification {
    open spec fn count(&self) -> nat {
        modification_count(*self)
    }

    #[verifier::loop_isolation(false)]
    fn accept_mut<V: VisitorMut>(&mut self, v: &mut V)
        decreases modification_count(*self), 0int,
    {
        v.enter_any(NodeKind::Modification);
        v.enter_modification_mut(self);
        match self {
            Modification::Empty => {}
            Modification::Class(p) => {
                accept_mut_arguments(&mut p.args, v);
                if let Some(c) = &mut p.expr {
                    c.accept_mut(v);
                }
            }
            Modification::Expression(p) => {
                p.accept_mut(v);
            }
        }
        v.exit_modification_mut(self);
        v.exit_any(NodeKind::Modification);
    }
}

impl VisitableMut for ModExpr {
    open spec fn count(&self) -> nat {
        mod_expr_count(*self)
    }

    #[verifier::loop_isolation(false)]
    fn accept_mut<V: VisitorMut>(&mut self, v: &mut V)
        decreases mod_expr_count(*self), 0int,
    {
        v.enter_any(NodeKind::ModExpr);
        v.enter_mod_expr_mut(self);
        match self {
            ModExpr::Empty => {}
            ModExpr::Break(p) => {
            }
            ModExpr::Expression(p) => {
                p.accept_mut(v);
            }
        }
        v.exit_mod_expr_mut(self);
        v.exit_any(NodeKind::ModExpr);
    }
}

impl VisitableMut for Node {
    open spec fn count(&self) -> nat {
        node_count(*self)
    }

    fn accept_mut<V: VisitorMut>(&mut self, v: &mut V)
        decreases node_count(*self), 2int,
    {
        match self {
            Node::Causality(x) => x.accept_mut(v),
            Node::Variability(x) => x.accept_mut(v),
            Node::Visibility(x) => x.accept_mut(v),
            Node::Connection(x) => x.accept_mut(v),
            Node::UnaryOp(x) => x.accept_mut(v),
            Node::BinaryOp(x) => x.accept_mut(v),
            Node::ClassType(x) => x.accept_mut(v),
            Node::ElementFlags(x) => x.accept_mut(v),
            Node::Name(x) => x.accept_mut(v),
            Node::StoredDefinition(x) => x.accept_mut(v),
            Node::ClassDefinition(x) => x.accept_mut(v),
            Node::ImportClause(x) => x.accept_mut(v),
            Node::ComponentDeclaration(x) => x.accept_mut(v),
            Node::ComponentReference(x) => x.accept_mut(v),
            Node::RefPart(x) => x.accept_mut(v),
            Node::Description(x) => x.accept_mut(v),
            Node::ForIndex(x) => x.accept_mut(v),
            Node::EquationIfBlock(x) => x.accept_mut(v),
            Node::StatementIfBlock(x) => x.accept_mut(v),
            Node::ExpressionIfBlock(x) => x.accept_mut(v),
            Node::TypeSpecifier(x) => x.accept_mut(v),
            Node::Equation(x) => x.accept_mut(v),
            Node::Statement(x) => x.accept_mut(v),
            Node::Expression(x) => x.accept_mut(v),
            Node::Subscript(x) => x.accept_mut(v),
            Node::Argument(x) => x.accept_mut(v),
            Node::Modification(x) => x.accept_mut(v),
            Node::ModExpr(x) => x.accept_mut(v),
        }
    }
}

} // verus!
