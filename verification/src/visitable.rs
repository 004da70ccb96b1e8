use vstd::prelude::*;

use crate::ast::{
    Argument, BinaryOp, Causality, ClassDefinition, ClassType, ComponentDeclaration,
    ComponentReference, Connection, Description, ElementFlags, Equation, EquationIfBlock,
    Expression, ExpressionIfBlock, ForIndex, ImportClause, ModExpr, Modification, Name, RefPart,
    Statement, StatementIfBlock, StoredDefinition, Subscript, TypeSpecifier, UnaryOp, Variability,
    Visibility,
};
use crate::size::{
    argument_count, arguments_count, binary_op_count, causality_count, class_definition_count,
    class_type_count, classes_count, component_declaration_count, component_declarations_count,
    component_reference_count, connection_count, description_count, element_flags_count,
    equation_count, equation_if_block_count, equation_if_blocks_count, equations_count,
    expression_count, expression_if_block_count, expression_if_blocks_count, expressions_count,
    for_index_count, for_indices_count, import_clause_count, import_clauses_count,
    lemma_arguments_count_prefix, lemma_arguments_count_split, lemma_classes_count_prefix,
    lemma_classes_count_split, lemma_component_declarations_count_prefix,
    lemma_component_declarations_count_split, lemma_equation_if_blocks_count_prefix,
    lemma_equation_if_blocks_count_split, lemma_equations_count_prefix,
    lemma_equations_count_split, lemma_expression_if_blocks_count_prefix,
    lemma_expression_if_blocks_count_split, lemma_expressions_count_prefix,
    lemma_expressions_count_split, lemma_for_indices_count_prefix, lemma_for_indices_count_split,
    lemma_import_clauses_count_prefix, lemma_import_clauses_count_split,
    lemma_ref_parts_count_prefix, lemma_ref_parts_count_split,
    lemma_statement_if_blocks_count_prefix, lemma_statement_if_blocks_count_split,
    lemma_statement_lists_count_prefix, lemma_statement_lists_count_split,
    lemma_statements_count_prefix, lemma_statements_count_split, lemma_subscripts_count_prefix,
    lemma_subscripts_count_split, lemma_type_specifiers_count_prefix,
    lemma_type_specifiers_count_split, mod_expr_count, modification_count, name_count,
    ref_part_count, ref_parts_count, statement_count, statement_if_block_count,
    statement_if_blocks_count, statement_lists_count, statements_count, stored_definition_count,
    subscript_count, subscripts_count, type_specifier_count, type_specifiers_count, unary_op_count,
    variability_count, visibility_count,
};
use crate::node::{Node, NodeRef, node_count, node_ref_count};
use crate::trace::{
    VisitEvent, argument_trace, arguments_trace, binary_op_trace, causality_trace,
    class_definition_trace, class_type_trace, classes_trace, component_declaration_trace,
    component_declarations_trace, component_reference_trace, connection_trace, description_trace,
    element_flags_trace, equation_if_block_trace, equation_if_blocks_trace, equation_trace,
    equations_trace, expression_if_block_trace, expression_if_blocks_trace, expression_trace,
    expressions_trace, for_index_trace, for_indices_trace, import_clause_trace,
    import_clauses_trace, mod_expr_trace, modification_trace, name_trace, node_ref_trace,
    node_trace, ref_part_trace, ref_parts_trace, statement_if_block_trace,
    statement_if_blocks_trace, statement_lists_trace, statement_trace, statements_trace,
    stored_definition_trace, subscript_trace, subscripts_trace, type_specifier_trace,
    type_specifiers_trace, unary_op_trace, variability_trace, visibility_trace,
};
use crate::visitor::Visitor;

verus! {

/// The read-only traversal capability, implemented once per node kind.
/// `accept` invokes the visitor's global enter hook and then the per-kind
/// enter hook, recurses into each syntactic child in the fixed child order,
/// then invokes the per-kind and global exit hooks. It never fails and
/// always terminates; the visitor observes exactly the node's canonical
/// event sequence: every node entered and exited once, children in order,
/// properly nested.
pub trait Visitable {
    /// The number of nodes this subtree holds.
    spec fn count(&self) -> nat;

    /// The canonical enter/exit event sequence of this subtree.
    spec fn events(&self) -> Seq<VisitEvent>;

    fn accept<V: Visitor>(&self, v: &mut V)
        requires
            old(v).wf(),
            old(v).exits() <= old(v).enters(),
            old(v).enters() + self.count() <= usize::MAX as nat,
        ensures
            final(v).wf(),
            final(v).enters() == old(v).enters() + self.count(),
            final(v).exits() == old(v).exits() + self.count(),
            final(v).trace() == old(v).trace() + self.events(),
    ;
}

#[verifier::loop_isolation(false)]
fn accept_classes<V: Visitor>(items: &Vec<ClassDefinition>, v: &mut V)
    requires
        old(v).wf(),
        old(v).exits() <= old(v).enters(),
        old(v).enters() + classes_count(items@, 0) <= usize::MAX as nat,
    ensures
        final(v).wf(),
        final(v).enters() == old(v).enters() + classes_count(items@, 0),
        final(v).exits() == old(v).exits() + classes_count(items@, 0),
        final(v).trace() == old(v).trace() + classes_trace(items@, items@.len() as int),
    decreases classes_count(items@, 0), 1int,
{
    let ghost n0 = v.enters();
    let ghost x0 = v.exits();
    let ghost t0 = v.trace();
    let n = items.len();
    for i in 0..n
        invariant
            v.wf(),
            v.exits() <= v.enters(),
            v.enters() == n0 + classes_count(items@, 0) - classes_count(items@, i as int),
            v.exits() == x0 + classes_count(items@, 0) - classes_count(items@, i as int),
            v.trace() == t0 + classes_trace(items@, i as int),
        decreases n - i,
    {
        proof {
            lemma_classes_count_split(items@, i as int);
            lemma_classes_count_prefix(items@, i as int);
        }
        items[i].accept(v);
        proof {
            assert(v.trace() =~= t0 + classes_trace(items@, i as int + 1));
        }
    }
    proof {
        assert(classes_count(items@, n as int) == 0);
    }
}

#[verifier::loop_isolation(false)]
fn accept_type_specifiers<V: Visitor>(items: &Vec<TypeSpecifier>, v: &mut V)
    requires
        old(v).wf(),
        old(v).exits() <= old(v).enters(),
        old(v).enters() + type_specifiers_count(items@, 0) <= usize::MAX as nat,
    ensures
        final(v).wf(),
        final(v).enters() == old(v).enters() + type_specifiers_count(items@, 0),
        final(v).exits() == old(v).exits() + type_specifiers_count(items@, 0),
        final(v).trace() == old(v).trace() + type_specifiers_trace(items@, items@.len() as int),
    decreases type_specifiers_count(items@, 0), 1int,
{
    let ghost n0 = v.enters();
    let ghost x0 = v.exits();
    let ghost t0 = v.trace();
    let n = items.len();
    for i in 0..n
        invariant
            v.wf(),
            v.exits() <= v.enters(),
            v.enters() == n0 + type_specifiers_count(items@, 0) - type_specifiers_count(items@, i as int),
            v.exits() == x0 + type_specifiers_count(items@, 0) - type_specifiers_count(items@, i as int),
            v.trace() == t0 + type_specifiers_trace(items@, i as int),
        decreases n - i,
    {
        proof {
            lemma_type_specifiers_count_split(items@, i as int);
            lemma_type_specifiers_count_prefix(items@, i as int);
        }
        items[i].accept(v);
        proof {
            assert(v.trace() =~= t0 + type_specifiers_trace(items@, i as int + 1));
        }
    }
    proof {
        assert(type_specifiers_count(items@, n as int) == 0);
    }
}

#[verifier::loop_isolation(false)]
fn accept_import_clauses<V: Visitor>(items: &Vec<ImportClause>, v: &mut V)
    requires
        old(v).wf(),
        old(v).exits() <= old(v).enters(),
        old(v).enters() + import_clauses_count(items@, 0) <= usize::MAX as nat,
    ensures
        final(v).wf(),
        final(v).enters() == old(v).enters() + import_clauses_count(items@, 0),
        final(v).exits() == old(v).exits() + import_clauses_count(items@, 0),
        final(v).trace() == old(v).trace() + import_clauses_trace(items@, items@.len() as int),
    decreases import_clauses_count(items@, 0), 1int,
{
    let ghost n0 = v.enters();
    let ghost x0 = v.exits();
    let ghost t0 = v.trace();
    let n = items.len();
    for i in 0..n
        invariant
            v.wf(),
            v.exits() <= v.enters(),
            v.enters() == n0 + import_clauses_count(items@, 0) - import_clauses_count(items@, i as int),
            v.exits() == x0 + import_clauses_count(items@, 0) - import_clauses_count(items@, i as int),
            v.trace() == t0 + import_clauses_trace(items@, i as int),
        decreases n - i,
    {
        proof {
            lemma_import_clauses_count_split(items@, i as int);
            lemma_import_clauses_count_prefix(items@, i as int);
        }
        items[i].accept(v);
        proof {
            assert(v.trace() =~= t0 + import_clauses_trace(items@, i as int + 1));
        }
    }
    proof {
        assert(import_clauses_count(items@, n as int) == 0);
    }
}

#[verifier::loop_isolation(false)]
fn accept_arguments<V: Visitor>(items: &Vec<Argument>, v: &mut V)
    requires
        old(v).wf(),
        old(v).exits() <= old(v).enters(),
        old(v).enters() + arguments_count(items@, 0) <= usize::MAX as nat,
    ensures
        final(v).wf(),
        final(v).enters() == old(v).enters() + arguments_count(items@, 0),
        final(v).exits() == old(v).exits() + arguments_count(items@, 0),
        final(v).trace() == old(v).trace() + arguments_trace(items@, items@.len() as int),
    decreases arguments_count(items@, 0), 1int,
{
    let ghost n0 = v.enters();
    let ghost x0 = v.exits();
    let ghost t0 = v.trace();
    let n = items.len();
    for i in 0..n
        invariant
            v.wf(),
            v.exits() <= v.enters(),
            v.enters() == n0 + arguments_count(items@, 0) - arguments_count(items@, i as int),
            v.exits() == x0 + arguments_count(items@, 0) - arguments_count(items@, i as int),
            v.trace() == t0 + arguments_trace(items@, i as int),
        decreases n - i,
    {
        proof {
            lemma_arguments_count_split(items@, i as int);
            lemma_arguments_count_prefix(items@, i as int);
        }
        items[i].accept(v);
        proof {
            assert(v.trace() =~= t0 + arguments_trace(items@, i as int + 1));
        }
    }
    proof {
        assert(arguments_count(items@, n as int) == 0);
    }
}

#[verifier::loop_isolation(false)]
fn accept_component_declarations<V: Visitor>(items: &Vec<ComponentDeclaration>, v: &mut V)
    requires
        old(v).wf(),
        old(v).exits() <= old(v).enters(),
        old(v).enters() + component_declarations_count(items@, 0) <= usize::MAX as nat,
    ensures
        final(v).wf(),
        final(v).enters() == old(v).enters() + component_declarations_count(items@, 0),
        final(v).exits() == old(v).exits() + component_declarations_count(items@, 0),
        final(v).trace() == old(v).trace() + component_declarations_trace(items@, items@.len() as int),
    decreases component_declarations_count(items@, 0), 1int,
{
    let ghost n0 = v.enters();
    let ghost x0 = v.exits();
    let ghost t0 = v.trace();
    let n = items.len();
    for i in 0..n
        invariant
            v.wf(),
            v.exits() <= v.enters(),
            v.enters() == n0 + component_declarations_count(items@, 0) - component_declarations_count(items@, i as int),
            v.exits() == x0 + component_declarations_count(items@, 0) - component_declarations_count(items@, i as int),
            v.trace() == t0 + component_declarations_trace(items@, i as int),
        decreases n - i,
    {
        proof {
            lemma_component_declarations_count_split(items@, i as int);
            lemma_component_declarations_count_prefix(items@, i as int);
        }
        items[i].accept(v);
        proof {
            assert(v.trace() =~= t0 + component_declarations_trace(items@, i as int + 1));
        }
    }
    proof {
        assert(component_declarations_count(items@, n as int) == 0);
    }
}

#[verifier::loop_isolation(false)]
fn accept_equations<V: Visitor>(items: &Vec<Equation>, v: &mut V)
    requires
        old(v).wf(),
        old(v).exits() <= old(v).enters(),
        old(v).enters() + equations_count(items@, 0) <= usize::MAX as nat,
    ensures
        final(v).wf(),
        final(v).enters() == old(v).enters() + equations_count(items@, 0),
        final(v).exits() == old(v).exits() + equations_count(items@, 0),
        final(v).trace() == old(v).trace() + equations_trace(items@, items@.len() as int),
    decreases equations_count(items@, 0), 1int,
{
    let ghost n0 = v.enters();
    let ghost x0 = v.exits();
    let ghost t0 = v.trace();
    let n = items.len();
    for i in 0..n
        invariant
            v.wf(),
            v.exits() <= v.enters(),
            v.enters() == n0 + equations_count(items@, 0) - equations_count(items@, i as int),
            v.exits() == x0 + equations_count(items@, 0) - equations_count(items@, i as int),
            v.trace() == t0 + equations_trace(items@, i as int),
        decreases n - i,
    {
        proof {
            lemma_equations_count_split(items@, i as int);
            lemma_equations_count_prefix(items@, i as int);
        }
        items[i].accept(v);
        proof {
            assert(v.trace() =~= t0 + equations_trace(items@, i as int + 1));
        }
    }
    proof {
        assert(equations_count(items@, n as int) == 0);
    }
}

#[verifier::loop_isolation(false)]
fn accept_statements<V: Visitor>(items: &Vec<Statement>, v: &mut V)
    requires
        old(v).wf(),
        old(v).exits() <= old(v).enters(),
        old(v).enters() + statements_count(items@, 0) <= usize::MAX as nat,
    ensures
        final(v).wf(),
        final(v).enters() == old(v).enters() + statements_count(items@, 0),
        final(v).exits() == old(v).exits() + statements_count(items@, 0),
        final(v).trace() == old(v).trace() + statements_trace(items@, items@.len() as int),
    decreases statements_count(items@, 0), 1int,
{
    let ghost n0 = v.enters();
    let ghost x0 = v.exits();
    let ghost t0 = v.trace();
    let n = items.len();
    for i in 0..n
        invariant
            v.wf(),
            v.exits() <= v.enters(),
            v.enters() == n0 + statements_count(items@, 0) - statements_count(items@, i as int),
            v.exits() == x0 + statements_count(items@, 0) - statements_count(items@, i as int),
            v.trace() == t0 + statements_trace(items@, i as int),
        decreases n - i,
    {
        proof {
            lemma_statements_count_split(items@, i as int);
            lemma_statements_count_prefix(items@, i as int);
        }
        items[i].accept(v);
        proof {
            assert(v.trace() =~= t0 + statements_trace(items@, i as int + 1));
        }
    }
    proof {
        assert(statements_count(items@, n as int) == 0);
    }
}

#[verifier::loop_isolation(false)]
fn accept_expressions<V: Visitor>(items: &Vec<Expression>, v: &mut V)
    requires
        old(v).wf(),
        old(v).exits() <= old(v).enters(),
        old(v).enters() + expressions_count(items@, 0) <= usize::MAX as nat,
    ensures
        final(v).wf(),
        final(v).enters() == old(v).enters() + expressions_count(items@, 0),
        final(v).exits() == old(v).exits() + expressions_count(items@, 0),
        final(v).trace() == old(v).trace() + expressions_trace(items@, items@.len() as int),
    decreases expressions_count(items@, 0), 1int,
{
    let ghost n0 = v.enters();
    let ghost x0 = v.exits();
    let ghost t0 = v.trace();
    let n = items.len();
    for i in 0..n
        invariant
            v.wf(),
            v.exits() <= v.enters(),
            v.enters() == n0 + expressions_count(items@, 0) - expressions_count(items@, i as int),
            v.exits() == x0 + expressions_count(items@, 0) - expressions_count(items@, i as int),
            v.trace() == t0 + expressions_trace(items@, i as int),
        decreases n - i,
    {
        proof {
            lemma_expressions_count_split(items@, i as int);
            lemma_expressions_count_prefix(items@, i as int);
        }
        items[i].accept(v);
        proof {
            assert(v.trace() =~= t0 + expressions_trace(items@, i as int + 1));
        }
    }
    proof {
        assert(expressions_count(items@, n as int) == 0);
    }
}

#[verifier::loop_isolation(false)]
fn accept_subscripts<V: Visitor>(items: &Vec<Subscript>, v: &mut V)
    requires
        old(v).wf(),
        old(v).exits() <= old(v).enters(),
        old(v).enters() + subscripts_count(items@, 0) <= usize::MAX as nat,
    ensures
        final(v).wf(),
        final(v).enters() == old(v).enters() + subscripts_count(items@, 0),
        final(v).exits() == old(v).exits() + subscripts_count(items@, 0),
        final(v).trace() == old(v).trace() + subscripts_trace(items@, items@.len() as int),
    decreases subscripts_count(items@, 0), 1int,
{
    let ghost n0 = v.enters();
    let ghost x0 = v.exits();
    let ghost t0 = v.trace();
    let n = items.len();
    for i in 0..n
        invariant
            v.wf(),
            v.exits() <= v.enters(),
            v.enters() == n0 + subscripts_count(items@, 0) - subscripts_count(items@, i as int),
            v.exits() == x0 + subscripts_count(items@, 0) - subscripts_count(items@, i as int),
            v.trace() == t0 + subscripts_trace(items@, i as int),
        decreases n - i,
    {
        proof {
            lemma_subscripts_count_split(items@, i as int);
            lemma_subscripts_count_prefix(items@, i as int);
        }
        items[i].accept(v);
        proof {
            assert(v.trace() =~= t0 + subscripts_trace(items@, i as int + 1));
        }
    }
    proof {
        assert(subscripts_count(items@, n as int) == 0);
    }
}

#[verifier::loop_isolation(false)]
fn accept_ref_parts<V: Visitor>(items: &Vec<RefPart>, v: &mut V)
    requires
        old(v).wf(),
        old(v).exits() <= old(v).enters(),
        old(v).enters() + ref_parts_count(items@, 0) <= usize::MAX as nat,
    ensures
        final(v).wf(),
        final(v).enters() == old(v).enters() + ref_parts_count(items@, 0),
        final(v).exits() == old(v).exits() + ref_parts_count(items@, 0),
        final(v).trace() == old(v).trace() + ref_parts_trace(items@, items@.len() as int),
    decreases ref_parts_count(items@, 0), 1int,
{
    let ghost n0 = v.enters();
    let ghost x0 = v.exits();
    let ghost t0 = v.trace();
    let n = items.len();
    for i in 0..n
        invariant
            v.wf(),
            v.exits() <= v.enters(),
            v.enters() == n0 + ref_parts_count(items@, 0) - ref_parts_count(items@, i as int),
            v.exits() == x0 + ref_parts_count(items@, 0) - ref_parts_count(items@, i as int),
            v.trace() == t0 + ref_parts_trace(items@, i as int),
        decreases n - i,
    {
        proof {
            lemma_ref_parts_count_split(items@, i as int);
            lemma_ref_parts_count_prefix(items@, i as int);
        }
        items[i].accept(v);
        proof {
            assert(v.trace() =~= t0 + ref_parts_trace(items@, i as int + 1));
        }
    }
    proof {
        assert(ref_parts_count(items@, n as int) == 0);
    }
}

#[verifier::loop_isolation(false)]
fn accept_for_indices<V: Visitor>(items: &Vec<ForIndex>, v: &mut V)
    requires
        old(v).wf(),
        old(v).exits() <= old(v).enters(),
        old(v).enters() + for_indices_count(items@, 0) <= usize::MAX as nat,
    ensures
        final(v).wf(),
        final(v).enters() == old(v).enters() + for_indices_count(items@, 0),
        final(v).exits() == old(v).exits() + for_indices_count(items@, 0),
        final(v).trace() == old(v).trace() + for_indices_trace(items@, items@.len() as int),
    decreases for_indices_count(items@, 0), 1int,
{
    let ghost n0 = v.enters();
    let ghost x0 = v.exits();
    let ghost t0 = v.trace();
    let n = items.len();
    for i in 0..n
        invariant
            v.wf(),
            v.exits() <= v.enters(),
            v.enters() == n0 + for_indices_count(items@, 0) - for_indices_count(items@, i as int),
            v.exits() == x0 + for_indices_count(items@, 0) - for_indices_count(items@, i as int),
            v.trace() == t0 + for_indices_trace(items@, i as int),
        decreases n - i,
    {
        proof {
            lemma_for_indices_count_split(items@, i as int);
            lemma_for_indices_count_prefix(items@, i as int);
        }
        items[i].accept(v);
        proof {
            assert(v.trace() =~= t0 + for_indices_trace(items@, i as int + 1));
        }
    }
    proof {
        assert(for_indices_count(items@, n as int) == 0);
    }
}

#[verifier::loop_isolation(false)]
fn accept_equation_if_blocks<V: Visitor>(items: &Vec<EquationIfBlock>, v: &mut V)
    requires
        old(v).wf(),
        old(v).exits() <= old(v).enters(),
        old(v).enters() + equation_if_blocks_count(items@, 0) <= usize::MAX as nat,
    ensures
        final(v).wf(),
        final(v).enters() == old(v).enters() + equation_if_blocks_count(items@, 0),
        final(v).exits() == old(v).exits() + equation_if_blocks_count(items@, 0),
        final(v).trace() == old(v).trace() + equation_if_blocks_trace(items@, items@.len() as int),
    decreases equation_if_blocks_count(items@, 0), 1int,
{
    let ghost n0 = v.enters();
    let ghost x0 = v.exits();
    let ghost t0 = v.trace();
    let n = items.len();
    for i in 0..n
        invariant
            v.wf(),
            v.exits() <= v.enters(),
            v.enters() == n0 + equation_if_blocks_count(items@, 0) - equation_if_blocks_count(items@, i as int),
            v.exits() == x0 + equation_if_blocks_count(items@, 0) - equation_if_blocks_count(items@, i as int),
            v.trace() == t0 + equation_if_blocks_trace(items@, i as int),
        decreases n - i,
    {
        proof {
            lemma_equation_if_blocks_count_split(items@, i as int);
            lemma_equation_if_blocks_count_prefix(items@, i as int);
        }
        items[i].accept(v);
        proof {
            assert(v.trace() =~= t0 + equation_if_blocks_trace(items@, i as int + 1));
        }
    }
    proof {
        assert(equation_if_blocks_count(items@, n as int) == 0);
    }
}

#[verifier::loop_isolation(false)]
fn accept_statement_if_blocks<V: Visitor>(items: &Vec<StatementIfBlock>, v: &mut V)
    requires
        old(v).wf(),
        old(v).exits() <= old(v).enters(),
        old(v).enters() + statement_if_blocks_count(items@, 0) <= usize::MAX as nat,
    ensures
        final(v).wf(),
        final(v).enters() == old(v).enters() + statement_if_blocks_count(items@, 0),
        final(v).exits() == old(v).exits() + statement_if_blocks_count(items@, 0),
        final(v).trace() == old(v).trace() + statement_if_blocks_trace(items@, items@.len() as int),
    decreases statement_if_blocks_count(items@, 0), 1int,
{
    let ghost n0 = v.enters();
    let ghost x0 = v.exits();
    let ghost t0 = v.trace();
    let n = items.len();
    for i in 0..n
        invariant
            v.wf(),
            v.exits() <= v.enters(),
            v.enters() == n0 + statement_if_blocks_count(items@, 0) - statement_if_blocks_count(items@, i as int),
            v.exits() == x0 + statement_if_blocks_count(items@, 0) - statement_if_blocks_count(items@, i as int),
            v.trace() == t0 + statement_if_blocks_trace(items@, i as int),
        decreases n - i,
    {
        proof {
            lemma_statement_if_blocks_count_split(items@, i as int);
            lemma_statement_if_blocks_count_prefix(items@, i as int);
        }
        items[i].accept(v);
        proof {
            assert(v.trace() =~= t0 + statement_if_blocks_trace(items@, i as int + 1));
        }
    }
    proof {
        assert(statement_if_blocks_count(items@, n as int) == 0);
    }
}

#[verifier::loop_isolation(false)]
fn accept_expression_if_blocks<V: Visitor>(items: &Vec<ExpressionIfBlock>, v: &mut V)
    requires
        old(v).wf(),
        old(v).exits() <= old(v).enters(),
        old(v).enters() + expression_if_blocks_count(items@, 0) <= usize::MAX as nat,
    ensures
        final(v).wf(),
        final(v).enters() == old(v).enters() + expression_if_blocks_count(items@, 0),
        final(v).exits() == old(v).exits() + expression_if_blocks_count(items@, 0),
        final(v).trace() == old(v).trace() + expression_if_blocks_trace(items@, items@.len() as int),
    decreases expression_if_blocks_count(items@, 0), 1int,
{
    let ghost n0 = v.enters();
    let ghost x0 = v.exits();
    let ghost t0 = v.trace();
    let n = items.len();
    for i in 0..n
        invariant
            v.wf(),
            v.exits() <= v.enters(),
            v.enters() == n0 + expression_if_blocks_count(items@, 0) - expression_if_blocks_count(items@, i as int),
            v.exits() == x0 + expression_if_blocks_count(items@, 0) - expression_if_blocks_count(items@, i as int),
            v.trace() == t0 + expression_if_blocks_trace(items@, i as int),
        decreases n - i,
    {
        proof {
            lemma_expression_if_blocks_count_split(items@, i as int);
            lemma_expression_if_blocks_count_prefix(items@, i as int);
        }
        items[i].accept(v);
        proof {
            assert(v.trace() =~= t0 + expression_if_blocks_trace(items@, i as int + 1));
        }
    }
    proof {
        assert(expression_if_blocks_count(items@, n as int) == 0);
    }
}

#[verifier::loop_isolation(false)]
fn accept_statement_lists<V: Visitor>(items: &Vec<Vec<Statement>>, v: &mut V)
    requires
        old(v).wf(),
        old(v).exits() <= old(v).enters(),
        old(v).enters() + statement_lists_count(items@, 0) <= usize::MAX as nat,
    ensures
        final(v).wf(),
        final(v).enters() == old(v).enters() + statement_lists_count(items@, 0),
        final(v).exits() == old(v).exits() + statement_lists_count(items@, 0),
        final(v).trace() == old(v).trace() + statement_lists_trace(items@, items@.len() as int),
    decreases statement_lists_count(items@, 0), 1int,
{
    let ghost n0 = v.enters();
    let ghost x0 = v.exits();
    let ghost t0 = v.trace();
    let n = items.len();
    for i in 0..n
        invariant
            v.wf(),
            v.exits() <= v.enters(),
            v.enters() == n0 + statement_lists_count(items@, 0) - statement_lists_count(items@, i as int),
            v.exits() == x0 + statement_lists_count(items@, 0) - statement_lists_count(items@, i as int),
            v.trace() == t0 + statement_lists_trace(items@, i as int),
        decreases n - i,
    {
        proof {
            lemma_statement_lists_count_split(items@, i as int);
            lemma_statement_lists_count_prefix(items@, i as int);
        }
        accept_statements(&items[i], v);
        proof {
            assert(v.trace() =~= t0 + statement_lists_trace(items@, i as int + 1));
        }
    }
    proof {
        assert(statement_lists_count(items@, n as int) == 0);
    }
}

impl Visitable for Causality {
    open spec fn count(&self) -> nat {
        causality_count(*self)
    }

    open spec fn events(&self) -> Seq<VisitEvent> {
        causality_trace(*self)
    }

    #[verifier::loop_isolation(false)]
    fn accept<V: Visitor>(&self, v: &mut V)
        decreases causality_count(*self), 0int,
    {
        v.enter_any(NodeRef::Causality(self));
        v.enter_causality(self);
        v.exit_causality(self);
        v.exit_any(NodeRef::Causality(self));
        proof {
            assert(v.trace() =~= old(v).trace() + causality_trace(*self));
        }
    }
}

impl Visitable for Variability {
    open spec fn count(&self) -> nat {
        variability_count(*self)
    }

    open spec fn events(&self) -> Seq<VisitEvent> {
        variability_trace(*self)
    }

    #[verifier::loop_isolation(false)]
    fn accept<V: Visitor>(&self, v: &mut V)
        decreases variability_count(*self), 0int,
    {
        v.enter_any(NodeRef::Variability(self));
        v.enter_variability(self);
        v.exit_variability(self);
        v.exit_any(NodeRef::Variability(self));
        proof {
            assert(v.trace() =~= old(v).trace() + variability_trace(*self));
        }
    }
}

impl Visitable for Visibility {
    open spec fn count(&self) -> nat {
        visibility_count(*self)
    }

    open spec fn events(&self) -> Seq<VisitEvent> {
        visibility_trace(*self)
    }

    #[verifier::loop_isolation(false)]
    fn accept<V: Visitor>(&self, v: &mut V)
        decreases visibility_count(*self), 0int,
    {
        v.enter_any(NodeRef::Visibility(self));
        v.enter_visibility(self);
        v.exit_visibility(self);
        v.exit_any(NodeRef::Visibility(self));
        proof {
            assert(v.trace() =~= old(v).trace() + visibility_trace(*self));
        }
    }
}

impl Visitable for Connection {
    open spec fn count(&self) -> nat {
        connection_count(*self)
    }

    open spec fn events(&self) -> Seq<VisitEvent> {
        connection_trace(*self)
    }

    #[verifier::loop_isolation(false)]
    fn accept<V: Visitor>(&self, v: &mut V)
        decreases connection_count(*self), 0int,
    {
        v.enter_any(NodeRef::Connection(self));
        v.enter_connection(self);
        v.exit_connection(self);
        v.exit_any(NodeRef::Connection(self));
        proof {
            assert(v.trace() =~= old(v).trace() + connection_trace(*self));
        }
    }
}

impl Visitable for UnaryOp {
    open spec fn count(&self) -> nat {
        unary_op_count(*self)
    }

    open spec fn events(&self) -> Seq<VisitEvent> {
        unary_op_trace(*self)
    }

    #[verifier::loop_isolation(false)]
    fn accept<V: Visitor>(&self, v: &mut V)
        decreases unary_op_count(*self), 0int,
    {
        v.enter_any(NodeRef::UnaryOp(self));
        v.enter_unary_op(self);
        v.exit_unary_op(self);
        v.exit_any(NodeRef::UnaryOp(self));
        proof {
            assert(v.trace() =~= old(v).trace() + unary_op_trace(*self));
        }
    }
}

impl Visitable for BinaryOp {
    open spec fn count(&self) -> nat {
        binary_op_count(*self)
    }

    open spec fn events(&self) -> Seq<VisitEvent> {
        binary_op_trace(*self)
    }

    #[verifier::loop_isolation(false)]
    fn accept<V: Visitor>(&self, v: &mut V)
        decreases binary_op_count(*self), 0int,
    {
        v.enter_any(NodeRef::BinaryOp(self));
        v.enter_binary_op(self);
        v.exit_binary_op(self);
        v.exit_any(NodeRef::BinaryOp(self));
        proof {
            assert(v.trace() =~= old(v).trace() + binary_op_trace(*self));
        }
    }
}

impl Visitable for ClassType {
    open spec fn count(&self) -> nat {
        class_type_count(*self)
    }

    open spec fn events(&self) -> Seq<VisitEvent> {
        class_type_trace(*self)
    }

    #[verifier::loop_isolation(false)]
    fn accept<V: Visitor>(&self, v: &mut V)
        decreases class_type_count(*self), 0int,
    {
        v.enter_any(NodeRef::ClassType(self));
        v.enter_class_type(self);
        v.exit_class_type(self);
        v.exit_any(NodeRef::ClassType(self));
        proof {
            assert(v.trace() =~= old(v).trace() + class_type_trace(*self));
        }
    }
}

impl Visitable for ElementFlags {
    open spec fn count(&self) -> nat {
        element_flags_count(*self)
    }

    open spec fn events(&self) -> Seq<VisitEvent> {
        element_flags_trace(*self)
    }

    #[verifier::loop_isolation(false)]
    fn accept<V: Visitor>(&self, v: &mut V)
        decreases element_flags_count(*self), 0int,
    {
        v.enter_any(NodeRef::ElementFlags(self));
        v.enter_element_flags(self);
        v.exit_element_flags(self);
        v.exit_any(NodeRef::ElementFlags(self));
        proof {
            assert(v.trace() =~= old(v).trace() + element_flags_trace(*self));
        }
    }
}

impl Visitable for Name {
    open spec fn count(&self) -> nat {
        name_count(*self)
    }

    open spec fn events(&self) -> Seq<VisitEvent> {
        name_trace(*self)
    }

    #[verifier::loop_isolation(false)]
    fn accept<V: Visitor>(&self, v: &mut V)
        decreases name_count(*self), 0int,
    {
        v.enter_any(NodeRef::Name(self));
        v.enter_name(self);
        v.exit_name(self);
        v.exit_any(NodeRef::Name(self));
        proof {
            assert(v.trace() =~= old(v).trace() + name_trace(*self));
        }
    }
}

impl Visitable for StoredDefinition {
    open spec fn count(&self) -> nat {
        stored_definition_count(*self)
    }

    open spec fn events(&self) -> Seq<VisitEvent> {
        stored_definition_trace(*self)
    }

    #[verifier::spinoff_prover]
    #[verifier::rlimit(100)]
    #[verifier::loop_isolation(false)]
    fn accept<V: Visitor>(&self, v: &mut V)
        decreases stored_definition_count(*self), 0int,
    {
        v.enter_any(NodeRef::StoredDefinition(self));
        v.enter_stored_definition(self);
        if let Some(c) = &self.within {
            c.accept(v);
        }
        accept_classes(&self.classes, v);
        v.exit_stored_definition(self);
        v.exit_any(NodeRef::StoredDefinition(self));
        proof {
            assert(v.trace() =~= old(v).trace() + stored_definition_trace(*self));
        }
    }
}

impl Visitable for ClassDefinition {
    open spec fn count(&self) -> nat {
        class_definition_count(*self)
    }

    open spec fn events(&self) -> Seq<VisitEvent> {
        class_definition_trace(*self)
    }

    #[verifier::spinoff_prover]
    #[verifier::rlimit(100)]
    #[verifier::loop_isolation(false)]
    fn accept<V: Visitor>(&self, v: &mut V)
        decreases class_definition_count(*self), 0int,
    {
        v.enter_any(NodeRef::ClassDefinition(self));
        v.enter_class_definition(self);
        self.class_type.accept(v);
        accept_type_specifiers(&self.extends, v);
        accept_import_clauses(&self.imports, v);
        accept_arguments(&self.modification, v);
        accept_component_declarations(&self.components, v);
        accept_classes(&self.classes, v);
        accept_equations(&self.equations, v);
        accept_statement_lists(&self.algorithms, v);
        accept_equations(&self.initial_equations, v);
        accept_statement_lists(&self.initial_algorithms, v);
        v.exit_class_definition(self);
        v.exit_any(NodeRef::ClassDefinition(self));
        proof {
            assert(v.trace() =~= old(v).trace() + class_definition_trace(*self));
        }
    }
}

impl Visitable for ImportClause {
    open spec fn count(&self) -> nat {
        import_clause_count(*self)
    }

    open spec fn events(&self) -> Seq<VisitEvent> {
        import_clause_trace(*self)
    }

    #[verifier::spinoff_prover]
    #[verifier::rlimit(100)]
    #[verifier::loop_isolation(false)]
    fn accept<V: Visitor>(&self, v: &mut V)
        decreases import_clause_count(*self), 0int,
    {
        v.enter_any(NodeRef::ImportClause(self));
        v.enter_import_clause(self);
        self.name.accept(v);
        if let Some(c) = &self.description {
            c.accept(v);
        }
        v.exit_import_clause(self);
        v.exit_any(NodeRef::ImportClause(self));
        proof {
            assert(v.trace() =~= old(v).trace() + import_clause_trace(*self));
        }
    }
}

impl Visitable for ComponentDeclaration {
    open spec fn count(&self) -> nat {
        component_declaration_count(*self)
    }

    open spec fn events(&self) -> Seq<VisitEvent> {
        component_declaration_trace(*self)
    }

    #[verifier::spinoff_prover]
    #[verifier::rlimit(100)]
    #[verifier::loop_isolation(false)]
    fn accept<V: Visitor>(&self, v: &mut V)
        decreases component_declaration_count(*self), 0int,
    {
        v.enter_any(NodeRef::ComponentDeclaration(self));
        v.enter_component_declaration(self);
        self.type_specifier.accept(v);
        self.flags.accept(v);
        self.connection.accept(v);
        self.variability.accept(v);
        self.causality.accept(v);
        self.visibility.accept(v);
        accept_subscripts(&self.array_subscripts, v);
        if let Some(c) = &self.modification {
            c.accept(v);
        }
        if let Some(c) = &self.condition_attribute {
            c.accept(v);
        }
        if let Some(c) = &self.description {
            c.accept(v);
        }
        v.exit_component_declaration(self);
        v.exit_any(NodeRef::ComponentDeclaration(self));
        proof {
            assert(v.trace() =~= old(v).trace() + component_declaration_trace(*self));
        }
    }
}

impl Visitable for ComponentReference {
    open spec fn count(&self) -> nat {
        component_reference_count(*self)
    }

    open spec fn events(&self) -> Seq<VisitEvent> {
        component_reference_trace(*self)
    }

    #[verifier::spinoff_prover]
    #[verifier::rlimit(100)]
    #[verifier::loop_isolation(false)]
    fn accept<V: Visitor>(&self, v: &mut V)
        decreases component_reference_count(*self), 0int,
    {
        v.enter_any(NodeRef::ComponentReference(self));
        v.enter_component_reference(self);
        accept_ref_parts(&self.parts, v);
        v.exit_component_reference(self);
        v.exit_any(NodeRef::ComponentReference(self));
        proof {
            assert(v.trace() =~= old(v).trace() + component_reference_trace(*self));
        }
    }
}

impl Visitable for RefPart {
    open spec fn count(&self) -> nat {
        ref_part_count(*self)
    }

    open spec fn events(&self) -> Seq<VisitEvent> {
        ref_part_trace(*self)
    }

    #[verifier::spinoff_prover]
    #[verifier::rlimit(100)]
    #[verifier::loop_isolation(false)]
    fn accept<V: Visitor>(&self, v: &mut V)
        decreases ref_part_count(*self), 0int,
    {
        v.enter_any(NodeRef::RefPart(self));
        v.enter_ref_part(self);
        accept_subscripts(&self.array_subscripts, v);
        v.exit_ref_part(self);
        v.exit_any(NodeRef::RefPart(self));
        proof {
            assert(v.trace() =~= old(v).trace() + ref_part_trace(*self));
        }
    }
}

impl Visitable for Description {
    open spec fn count(&self) -> nat {
        description_count(*self)
    }

    open spec fn events(&self) -> Seq<VisitEvent> {
        description_trace(*self)
    }

    #[verifier::spinoff_prover]
    #[verifier::rlimit(100)]
    #[verifier::loop_isolation(false)]
    fn accept<V: Visitor>(&self, v: &mut V)
        decreases description_count(*self), 0int,
    {
        v.enter_any(NodeRef::Description(self));
        v.enter_description(self);
        accept_arguments(&self.annotation, v);
        v.exit_description(self);
        v.exit_any(NodeRef::Description(self));
        proof {
            assert(v.trace() =~= old(v).trace() + description_trace(*self));
        }
    }
}

impl Visitable for ForIndex {
    open spec fn count(&self) -> nat {
        for_index_count(*self)
    }

    open spec fn events(&self) -> Seq<VisitEvent> {
        for_index_trace(*self)
    }

    #[verifier::spinoff_prover]
    #[verifier::rlimit(100)]
    #[verifier::loop_isolation(false)]
    fn accept<V: Visitor>(&self, v: &mut V)
        decreases for_index_count(*self), 0int,
    {
        v.enter_any(NodeRef::ForIndex(self));
        v.enter_for_index(self);
        if let Some(c) = &self.in_expr {
            c.accept(v);
        }
        v.exit_for_index(self);
        v.exit_any(NodeRef::ForIndex(self));
        proof {
            assert(v.trace() =~= old(v).trace() + for_index_trace(*self));
        }
    }
}

impl Visitable for EquationIfBlock {
    open spec fn count(&self) -> nat {
        equation_if_block_count(*self)
    }

    open spec fn events(&self) -> Seq<VisitEvent> {
        equation_if_block_trace(*self)
    }

    #[verifier::spinoff_prover]
    #[verifier::rlimit(100)]
    #[verifier::loop_isolation(false)]
    fn accept<V: Visitor>(&self, v: &mut V)
        decreases equation_if_block_count(*self), 0int,
    {
        v.enter_any(NodeRef::EquationIfBlock(self));
        v.enter_equation_if_block(self);
        self.cond.accept(v);
        accept_equations(&self.eqs, v);
        v.exit_equation_if_block(self);
        v.exit_any(NodeRef::EquationIfBlock(self));
        proof {
            assert(v.trace() =~= old(v).trace() + equation_if_block_trace(*self));
        }
    }
}

impl Visitable for StatementIfBlock {
    open spec fn count(&self) -> nat {
        statement_if_block_count(*self)
    }

    open spec fn events(&self) -> Seq<VisitEvent> {
        statement_if_block_trace(*self)
    }

    #[verifier::spinoff_prover]
    #[verifier::rlimit(100)]
    #[verifier::loop_isolation(false)]
    fn accept<V: Visitor>(&self, v: &mut V)
        decreases statement_if_block_count(*self), 0int,
    {
        v.enter_any(NodeRef::StatementIfBlock(self));
        v.enter_statement_if_block(self);
        self.cond.accept(v);
        accept_statements(&self.stmts, v);
        v.exit_statement_if_block(self);
        v.exit_any(NodeRef::StatementIfBlock(self));
        proof {
            assert(v.trace() =~= old(v).trace() + statement_if_block_trace(*self));
        }
    }
}

impl Visitable for ExpressionIfBlock {
    open spec fn count(&self) -> nat {
        expression_if_block_count(*self)
    }

    open spec fn events(&self) -> Seq<VisitEvent> {
        expression_if_block_trace(*self)
    }

    #[verifier::spinoff_prover]
    #[verifier::rlimit(100)]
    #[verifier::loop_isolation(false)]
    fn accept<V: Visitor>(&self, v: &mut V)
        decreases expression_if_block_count(*self), 0int,
    {
        v.enter_any(NodeRef::ExpressionIfBlock(self));
        v.enter_expression_if_block(self);
        self.cond.accept(v);
        self.expr.accept(v);
        v.exit_expression_if_block(self);
        v.exit_any(NodeRef::ExpressionIfBlock(self));
        proof {
            assert(v.trace() =~= old(v).trace() + expression_if_block_trace(*self));
        }
    }
}

impl Visitable for TypeSpecifier {
    open spec fn count(&self) -> nat {
        type_specifier_count(*self)
    }

    open spec fn events(&self) -> Seq<VisitEvent> {
        type_specifier_trace(*self)
    }

    #[verifier::spinoff_prover]
    #[verifier::rlimit(100)]
    #[verifier::loop_isolation(false)]
    fn accept<V: Visitor>(&self, v: &mut V)
        decreases type_specifier_count(*self), 0int,
    {
        v.enter_any(NodeRef::TypeSpecifier(self));
        v.enter_type_specifier(self);
        self.name.accept(v);
        v.exit_type_specifier(self);
        v.exit_any(NodeRef::TypeSpecifier(self));
        proof {
            assert(v.trace() =~= old(v).trace() + type_specifier_trace(*self));
        }
    }
}

impl Visitable for Equation {
    open spec fn count(&self) -> nat {
        equation_count(*self)
    }

    open spec fn events(&self) -> Seq<VisitEvent> {
        equation_trace(*self)
    }

    #[verifier::spinoff_prover]
    #[verifier::rlimit(100)]
    #[verifier::loop_isolation(false)]
    fn accept<V: Visitor>(&self, v: &mut V)
        decreases equation_count(*self), 0int,
    {
        v.enter_any(NodeRef::Equation(self));
        v.enter_equation(self);
        match self {
            Equation::Empty => {}
            Equation::Connect(p) => {
                p.lhs.accept(v);
                p.rhs.accept(v);
                if let Some(c) = &p.description {
                    c.accept(v);
                }
            }
            Equation::For(p) => {
                accept_for_indices(&p.indices, v);
                accept_equations(&p.eqs, v);
                if let Some(c) = &p.description {
                    c.accept(v);
                }
            }
            Equation::If(p) => {
                accept_equation_if_blocks(&p.if_blocks, v);
                accept_equations(&p.else_eqs, v);
                if let Some(c) = &p.description {
                    c.accept(v);
                }
            }
            Equation::Simple(p) => {
                p.lhs.accept(v);
                p.rhs.accept(v);
                if let Some(c) = &p.description {
                    c.accept(v);
                }
            }
        }
        v.exit_equation(self);
        v.exit_any(NodeRef::Equation(self));
        proof {
            assert(v.trace() =~= old(v).trace() + equation_trace(*self));
        }
    }
}

impl Visitable for Statement {
    open spec fn count(&self) -> nat {
        statement_count(*self)
    }

    open spec fn events(&self) -> Seq<VisitEvent> {
        statement_trace(*self)
    }

    #[verifier::spinoff_prover]
    #[verifier::rlimit(100)]
    #[verifier::loop_isolation(false)]
    fn accept<V: Visitor>(&self, v: &mut V)
        decreases statement_count(*self), 0int,
    {
        v.enter_any(NodeRef::Statement(self));
        v.enter_statement(self);
        match self {
            Statement::Empty => {}
            Statement::Assignment(p) => {
                p.comp.accept(v);
                p.rhs.accept(v);
                if let Some(c) = &p.description {
                    c.accept(v);
                }
            }
            Statement::Break(p) => {
                if let Some(c) = &p.description {
                    c.accept(v);
                }
            }
            Statement::For(p) => {
                accept_for_indices(&p.indices, v);
                accept_statements(&p.stmts, v);
                if let Some(c) = &p.description {
                    c.accept(v);
                }
            }
            Statement::If(p) => {
                accept_statement_if_blocks(&p.if_blocks, v);
                accept_statements(&p.else_stmts, v);
                if let Some(c) = &p.description {
                    c.accept(v);
                }
            }
            Statement::Return(p) => {
                if let Some(c) = &p.description {
                    c.accept(v);
                }
            }
            Statement::While(p) => {
                p.cond.accept(v);
                accept_statements(&p.stmts, v);
                if let Some(c) = &p.description {
                    c.accept(v);
                }
            }
        }
        v.exit_statement(self);
        v.exit_any(NodeRef::Statement(self));
        proof {
            assert(v.trace() =~= old(v).trace() + statement_trace(*self));
        }
    }
}

impl Visitable for Expression {
    open spec fn count(&self) -> nat {
        expression_count(*self)
    }

    open spec fn events(&self) -> Seq<VisitEvent> {
        expression_trace(*self)
    }

    #[verifier::spinoff_prover]
    #[verifier::rlimit(100)]
    #[verifier::loop_isolation(false)]
    fn accept<V: Visitor>(&self, v: &mut V)
        decreases expression_count(*self), 0int,
    {
        v.enter_any(NodeRef::Expression(self));
        v.enter_expression(self);
        match self {
            Expression::Empty => {}
            Expression::Array(p) => {
                accept_expressions(&p.args, v);
            }
            Expression::Binary(p) => {
                p.op.accept(v);
                p.lhs.accept(v);
                p.rhs.accept(v);
            }
            Expression::Boolean(p) => {
            }
            Expression::FunctionCall(p) => {
                p.comp.accept(v);
                accept_expressions(&p.args, v);
            }
            Expression::If(p) => {
                accept_expression_if_blocks(&p.if_blocks, v);
                if let Some(c) = &p.else_expr {
                    c.accept(v);
                }
            }
            Expression::Ref(p) => {
                p.accept(v);
            }
            Expression::Unary(p) => {
                p.op.accept(v);
                p.rhs.accept(v);
            }
            Expression::UnsignedInteger(p) => {
            }
            Expression::UnsignedReal(p) => {
            }
        }
        v.exit_expression(self);
        v.exit_any(NodeRef::Expression(self));
        proof {
            assert(v.trace() =~= old(v).trace() + expression_trace(*self));
        }
    }
}

impl Visitable for Subscript {
    open spec fn count(&self) -> nat {
        subscript_count(*self)
    }

    open spec fn events(&self) -> Seq<VisitEvent> {
        subscript_trace(*self)
    }

    #[verifier::spinoff_prover]
    #[verifier::rlimit(100)]
    #[verifier::loop_isolation(false)]
    fn accept<V: Visitor>(&self, v: &mut V)
        decreases subscript_count(*self), 0int,
    {
        v.enter_any(NodeRef::Subscript(self));
        v.enter_subscript(self);
        match self {
            Subscript::Empty => {}
            Subscript::Range(p) => {
            }
            Subscript::Expression(p) => {
                p.accept(v);
            }
        }
        v.exit_subscript(self);
        v.exit_any(NodeRef::Subscript(self));
        proof {
            assert(v.trace() =~= old(v).trace() + subscript_trace(*self));
        }
    }
}

impl Visitable for Argument {
    open spec fn count(&self) -> nat {
        argument_count(*self)
    }

    open spec fn events(&self) -> Seq<VisitEvent> {
        argument_trace(*self)
    }

    #[verifier::spinoff_prover]
    #[verifier::rlimit(100)]
    #[verifier::loop_isolation(false)]
    fn accept<V: Visitor>(&self, v: &mut V)
        decreases argument_count(*self), 0int,
    {
        v.enter_any(NodeRef::Argument(self));
        v.enter_argument(self);
        match self {
            Argument::Empty => {}
            Argument::Modification(p) => {
                p.name.accept(v);
                if let Some(c) = &p.modification {
                    c.accept(v);
                }
                if let Some(c) = &p.description {
                    c.accept(v);
                }
            }
            Argument::Redeclaration(p) => {
            }
            Argument::Replaceable(p) => {
            }
        }
        v.exit_argument(self);
        v.exit_any(NodeRef::Argument(self));
        proof {
            assert(v.trace() =~= old(v).trace() + argument_trace(*self));
        }
    }
}

impl Visitable for Modification {
    open spec fn count(&self) -> nat {
        modification_count(*self)
    }

    open spec fn events(&self) -> Seq<VisitEvent> {
        modification_trace(*self)
    }

    #[verifier::spinoff_prover]
    #[verifier::rlimit(100)]
    #[verifier::loop_isolation(false)]
    fn accept<V: Visitor>(&self, v: &mut V)
        decreases modification_count(*self), 0int,
    {
        v.enter_any(NodeRef::Modification(self));
        v.enter_modification(self);
        match self {
            Modification::Empty => {}
            Modification::Class(p) => {
                accept_arguments(&p.args, v);
                if let Some(c) = &p.expr {
                    c.accept(v);
                }
            }
            Modification::Expression(p) => {
                p.accept(v);
            }
        }
        v.exit_modification(self);
        v.exit_any(NodeRef::Modification(self));
        proof {
            assert(v.trace() =~= old(v).trace() + modification_trace(*self));
        }
    }
}

impl Visitable for ModExpr {
    open spec fn count(&self) -> nat {
        mod_expr_count(*self)
    }

    open spec fn events(&self) -> Seq<VisitEvent> {
        mod_expr_trace(*self)
    }

    #[verifier::spinoff_prover]
    #[verifier::rlimit(100)]
    #[verifier::loop_isolation(false)]
    fn accept<V: Visitor>(&self, v: &mut V)
        decreases mod_expr_count(*self), 0int,
    {
        v.enter_any(NodeRef::ModExpr(self));
        v.enter_mod_expr(self);
        match self {
            ModExpr::Empty => {}
            ModExpr::Break(p) => {
            }
            ModExpr::Expression(p) => {
                p.accept(v);
            }
        }
        v.exit_mod_expr(self);
        v.exit_any(NodeRef::ModExpr(self));
        proof {
            assert(v.trace() =~= old(v).trace() + mod_expr_trace(*self));
        }
    }
}

impl<'a> Visitable for NodeRef<'a> {
    open spec fn count(&self) -> nat {
        node_ref_count(*self)
    }

    open spec fn events(&self) -> Seq<VisitEvent> {
        node_ref_trace(*self)
    }

    fn accept<V: Visitor>(&self, v: &mut V)
        decreases node_ref_count(*self), 2int,
    {
        match self {
            NodeRef::Causality(x) => x.accept(v),
            NodeRef::Variability(x) => x.accept(v),
            NodeRef::Visibility(x) => x.accept(v),
            NodeRef::Connection(x) => x.accept(v),
            NodeRef::UnaryOp(x) => x.accept(v),
            NodeRef::BinaryOp(x) => x.accept(v),
            NodeRef::ClassType(x) => x.accept(v),
            NodeRef::ElementFlags(x) => x.accept(v),
            NodeRef::Name(x) => x.accept(v),
            NodeRef::StoredDefinition(x) => x.accept(v),
            NodeRef::ClassDefinition(x) => x.accept(v),
            NodeRef::ImportClause(x) => x.accept(v),
            NodeRef::ComponentDeclaration(x) => x.accept(v),
            NodeRef::ComponentReference(x) => x.accept(v),
            NodeRef::RefPart(x) => x.accept(v),
            NodeRef::Description(x) => x.accept(v),
            NodeRef::ForIndex(x) => x.accept(v),
            NodeRef::EquationIfBlock(x) => x.accept(v),
            NodeRef::StatementIfBlock(x) => x.accept(v),
            NodeRef::ExpressionIfBlock(x) => x.accept(v),
            NodeRef::TypeSpecifier(x) => x.accept(v),
            NodeRef::Equation(x) => x.accept(v),
            NodeRef::Statement(x) => x.accept(v),
            NodeRef::Expression(x) => x.accept(v),
            NodeRef::Subscript(x) => x.accept(v),
            NodeRef::Argument(x) => x.accept(v),
            NodeRef::Modification(x) => x.accept(v),
            NodeRef::ModExpr(x) => x.accept(v),
        }
    }
}

impl Visitable for Node {
    open spec fn count(&self) -> nat {
        node_count(*self)
    }

    open spec fn events(&self) -> Seq<VisitEvent> {
        node_trace(*self)
    }

    fn accept<V: Visitor>(&self, v: &mut V)
        decreases node_count(*self), 2int,
    {
        match self {
            Node::Causality(x) => x.accept(v),
            Node::Variability(x) => x.accept(v),
            Node::Visibility(x) => x.accept(v),
            Node::Connection(x) => x.accept(v),
            Node::UnaryOp(x) => x.accept(v),
            Node::BinaryOp(x) => x.accept(v),
            Node::ClassType(x) => x.accept(v),
            Node::ElementFlags(x) => x.accept(v),
            Node::Name(x) => x.accept(v),
            Node::StoredDefinition(x) => x.accept(v),
            Node::ClassDefinition(x) => x.accept(v),
            Node::ImportClause(x) => x.accept(v),
            Node::ComponentDeclaration(x) => x.accept(v),
            Node::ComponentReference(x) => x.accept(v),
            Node::RefPart(x) => x.accept(v),
            Node::Description(x) => x.accept(v),
            Node::ForIndex(x) => x.accept(v),
            Node::EquationIfBlock(x) => x.accept(v),
            Node::StatementIfBlock(x) => x.accept(v),
            Node::ExpressionIfBlock(x) => x.accept(v),
            Node::TypeSpecifier(x) => x.accept(v),
            Node::Equation(x) => x.accept(v),
            Node::Statement(x) => x.accept(v),
            Node::Expression(x) => x.accept(v),
            Node::Subscript(x) => x.accept(v),
            Node::Argument(x) => x.accept(v),
            Node::Modification(x) => x.accept(v),
            Node::ModExpr(x) => x.accept(v),
        }
    }
}

} // verus!
