use vstd::prelude::*;

use crate::ast::{
    Argument, BinaryOp, Causality, ClassDefinition, ClassType, ComponentDeclaration,
    ComponentReference, Connection, Description, ElementFlags, Equation, EquationIfBlock,
    Expression, ExpressionIfBlock, ForIndex, ImportClause, ModExpr, Modification, Name, RefPart,
    Statement, StatementIfBlock, StoredDefinition, Subscript, TypeSpecifier, UnaryOp, Variability,
    Visibility,
};
use crate::node::NodeRef;
use crate::trace::VisitEvent;

verus! {

/// A read-only traversal behavior: one enter and one exit hook per node
/// kind, plus global enter/exit hooks called around every node with a tagged
/// reference. All hooks default to doing nothing; a concrete visitor
/// overrides only what it needs. Hooks return nothing and cannot stop the
/// walk; a behavior records its findings in its own state.
///
/// The abstract `enters`/`exits` counters record how often the global hooks
/// have run; `wf` is the visitor's own invariant, which every hook preserves.
pub trait Visitor: Sized {
    spec fn wf(&self) -> bool;

    spec fn enters(&self) -> nat;

    spec fn exits(&self) -> nat;

    /// The global enter/exit events the visitor has observed, in order.
    spec fn trace(&self) -> Seq<VisitEvent>;

    fn enter_any<'a>(&mut self, node: NodeRef<'a>)
        requires
            old(self).wf(),
            old(self).enters() < usize::MAX as nat,
        ensures
            final(self).wf(),
            final(self).enters() == old(self).enters() + 1,
            final(self).exits() == old(self).exits(),
            final(self).trace() == old(self).trace().push(
                VisitEvent::Enter(node.spec_kind()),
            ),
    ;

    fn exit_any<'a>(&mut self, node: NodeRef<'a>)
        requires
            old(self).wf(),
            old(self).exits() < old(self).enters(),
        ensures
            final(self).wf(),
            final(self).exits() == old(self).exits() + 1,
            final(self).enters() == old(self).enters(),
            final(self).trace() == old(self).trace().push(
                VisitEvent::Exit(node.spec_kind()),
            ),
    ;

    fn enter_causality(&mut self, node: & Causality)
        requires
            old(self).wf(),
        ensures
            final(self).wf(),
            final(self).enters() == old(self).enters(),
            final(self).exits() == old(self).exits(),
            final(self).trace() == old(self).trace(),
    {
    }

    fn exit_causality(&mut self, node: & Causality)
        requires
            old(self).wf(),
        ensures
            final(self).wf(),
            final(self).enters() == old(self).enters(),
            final(self).exits() == old(self).exits(),
            final(self).trace() == old(self).trace(),
    {
    }

    fn enter_variability(&mut self, node: & Variability)
        requires
            old(self).wf(),
        ensures
            final(self).wf(),
            final(self).enters() == old(self).enters(),
            final(self).exits() == old(self).exits(),
            final(self).trace() == old(self).trace(),
    {
    }

    fn exit_variability(&mut self, node: & Variability)
        requires
            old(self).wf(),
        ensures
            final(self).wf(),
            final(self).enters() == old(self).enters(),
            final(self).exits() == old(self).exits(),
            final(self).trace() == old(self).trace(),
    {
    }

    fn enter_visibility(&mut self, node: & Visibility)
        requires
            old(self).wf(),
        ensures
            final(self).wf(),
            final(self).enters() == old(self).enters(),
            final(self).exits() == old(self).exits(),
            final(self).trace() == old(self).trace(),
    {
    }

    fn exit_visibility(&mut self, node: & Visibility)
        requires
            old(self).wf(),
        ensures
            final(self).wf(),
            final(self).enters() == old(self).enters(),
            final(self).exits() == old(self).exits(),
            final(self).trace() == old(self).trace(),
    {
    }

    fn enter_connection(&mut self, node: & Connection)
        requires
            old(self).wf(),
        ensures
            final(self).wf(),
            final(self).enters() == old(self).enters(),
            final(self).exits() == old(self).exits(),
            final(self).trace() == old(self).trace(),
    {
    }

    fn exit_connection(&mut self, node: & Connection)
        requires
            old(self).wf(),
        ensures
            final(self).wf(),
            final(self).enters() == old(self).enters(),
            final(self).exits() == old(self).exits(),
            final(self).trace() == old(self).trace(),
    {
    }

    fn enter_unary_op(&mut self, node: & UnaryOp)
        requires
            old(self).wf(),
        ensures
            final(self).wf(),
            final(self).enters() == old(self).enters(),
            final(self).exits() == old(self).exits(),
            final(self).trace() == old(self).trace(),
    {
    }

    fn exit_unary_op(&mut self, node: & UnaryOp)
        requires
            old(self).wf(),
        ensures
            final(self).wf(),
            final(self).enters() == old(self).enters(),
            final(self).exits() == old(self).exits(),
            final(self).trace() == old(self).trace(),
    {
    }

    fn enter_binary_op(&mut self, node: & BinaryOp)
        requires
            old(self).wf(),
        ensures
            final(self).wf(),
            final(self).enters() == old(self).enters(),
            final(self).exits() == old(self).exits(),
            final(self).trace() == old(self).trace(),
    {
    }

    fn exit_binary_op(&mut self, node: & BinaryOp)
        requires
            old(self).wf(),
        ensures
            final(self).wf(),
            final(self).enters() == old(self).enters(),
            final(self).exits() == old(self).exits(),
            final(self).trace() == old(self).trace(),
    {
    }

    fn enter_class_type(&mut self, node: & ClassType)
        requires
            old(self).wf(),
        ensures
            final(self).wf(),
            final(self).enters() == old(self).enters(),
            final(self).exits() == old(self).exits(),
            final(self).trace() == old(self).trace(),
    {
    }

    fn exit_class_type(&mut self, node: & ClassType)
        requires
            old(self).wf(),
        ensures
            final(self).wf(),
            final(self).enters() == old(self).enters(),
            final(self).exits() == old(self).exits(),
            final(self).trace() == old(self).trace(),
    {
    }

    fn enter_element_flags(&mut self, node: & ElementFlags)
        requires
            old(self).wf(),
        ensures
            final(self).wf(),
            final(self).enters() == old(self).enters(),
            final(self).exits() == old(self).exits(),
            final(self).trace() == old(self).trace(),
    {
    }

    fn exit_element_flags(&mut self, node: & ElementFlags)
        requires
            old(self).wf(),
        ensures
            final(self).wf(),
            final(self).enters() == old(self).enters(),
            final(self).exits() == old(self).exits(),
            final(self).trace() == old(self).trace(),
    {
    }

    fn enter_name(&mut self, node: & Name)
        requires
            old(self).wf(),
        ensures
            final(self).wf(),
            final(self).enters() == old(self).enters(),
            final(self).exits() == old(self).exits(),
            final(self).trace() == old(self).trace(),
    {
    }

    fn exit_name(&mut self, node: & Name)
        requires
            old(self).wf(),
        ensures
            final(self).wf(),
            final(self).enters() == old(self).enters(),
            final(self).exits() == old(self).exits(),
            final(self).trace() == old(self).trace(),
    {
    }

    fn enter_stored_definition(&mut self, node: & StoredDefinition)
        requires
            old(self).wf(),
        ensures
            final(self).wf(),
            final(self).enters() == old(self).enters(),
            final(self).exits() == old(self).exits(),
            final(self).trace() == old(self).trace(),
    {
    }

    fn exit_stored_definition(&mut self, node: & StoredDefinition)
        requires
            old(self).wf(),
        ensures
            final(self).wf(),
            final(self).enters() == old(self).enters(),
            final(self).exits() == old(self).exits(),
            final(self).trace() == old(self).trace(),
    {
    }

    fn enter_class_definition(&mut self, node: & ClassDefinition)
        requires
            old(self).wf(),
        ensures
            final(self).wf(),
            final(self).enters() == old(self).enters(),
            final(self).exits() == old(self).exits(),
            final(self).trace() == old(self).trace(),
    {
    }

    fn exit_class_definition(&mut self, node: & ClassDefinition)
        requires
            old(self).wf(),
        ensures
            final(self).wf(),
            final(self).enters() == old(self).enters(),
            final(self).exits() == old(self).exits(),
            final(self).trace() == old(self).trace(),
    {
    }

    fn enter_import_clause(&mut self, node: & ImportClause)
        requires
            old(self).wf(),
        ensures
            final(self).wf(),
            final(self).enters() == old(self).enters(),
            final(self).exits() == old(self).exits(),
            final(self).trace() == old(self).trace(),
    {
    }

    fn exit_import_clause(&mut self, node: & ImportClause)
        requires
            old(self).wf(),
        ensures
            final(self).wf(),
            final(self).enters() == old(self).enters(),
            final(self).exits() == old(self).exits(),
            final(self).trace() == old(self).trace(),
    {
    }

    fn enter_component_declaration(&mut self, node: & ComponentDeclaration)
        requires
            old(self).wf(),
        ensures
            final(self).wf(),
            final(self).enters() == old(self).enters(),
            final(self).exits() == old(self).exits(),
            final(self).trace() == old(self).trace(),
    {
    }

    fn exit_component_declaration(&mut self, node: & ComponentDeclaration)
        requires
            old(self).wf(),
        ensures
            final(self).wf(),
            final(self).enters() == old(self).enters(),
            final(self).exits() == old(self).exits(),
            final(self).trace() == old(self).trace(),
    {
    }

    fn enter_component_reference(&mut self, node: & ComponentReference)
        requires
            old(self).wf(),
        ensures
            final(self).wf(),
            final(self).enters() == old(self).enters(),
            final(self).exits() == old(self).exits(),
            final(self).trace() == old(self).trace(),
    {
    }

    fn exit_component_reference(&mut self, node: & ComponentReference)
        requires
            old(self).wf(),
        ensures
            final(self).wf(),
            final(self).enters() == old(self).enters(),
            final(self).exits() == old(self).exits(),
            final(self).trace() == old(self).trace(),
    {
    }

    fn enter_ref_part(&mut self, node: & RefPart)
        requires
            old(self).wf(),
        ensures
            final(self).wf(),
            final(self).enters() == old(self).enters(),
            final(self).exits() == old(self).exits(),
            final(self).trace() == old(self).trace(),
    {
    }

    fn exit_ref_part(&mut self, node: & RefPart)
        requires
            old(self).wf(),
        ensures
            final(self).wf(),
            final(self).enters() == old(self).enters(),
            final(self).exits() == old(self).exits(),
            final(self).trace() == old(self).trace(),
    {
    }

    fn enter_description(&mut self, node: & Description)
        requires
            old(self).wf(),
        ensures
            final(self).wf(),
            final(self).enters() == old(self).enters(),
            final(self).exits() == old(self).exits(),
            final(self).trace() == old(self).trace(),
    {
    }

    fn exit_description(&mut self, node: & Description)
        requires
            old(self).wf(),
        ensures
            final(self).wf(),
            final(self).enters() == old(self).enters(),
            final(self).exits() == old(self).exits(),
            final(self).trace() == old(self).trace(),
    {
    }

    fn enter_for_index(&mut self, node: & ForIndex)
        requires
            old(self).wf(),
        ensures
            final(self).wf(),
            final(self).enters() == old(self).enters(),
            final(self).exits() == old(self).exits(),
            final(self).trace() == old(self).trace(),
    {
    }

    fn exit_for_index(&mut self, node: & ForIndex)
        requires
            old(self).wf(),
        ensures
            final(self).wf(),
            final(self).enters() == old(self).enters(),
            final(self).exits() == old(self).exits(),
            final(self).trace() == old(self).trace(),
    {
    }

    fn enter_equation_if_block(&mut self, node: & EquationIfBlock)
        requires
            old(self).wf(),
        ensures
            final(self).wf(),
            final(self).enters() == old(self).enters(),
            final(self).exits() == old(self).exits(),
            final(self).trace() == old(self).trace(),
    {
    }

    fn exit_equation_if_block(&mut self, node: & EquationIfBlock)
        requires
            old(self).wf(),
        ensures
            final(self).wf(),
            final(self).enters() == old(self).enters(),
            final(self).exits() == old(self).exits(),
            final(self).trace() == old(self).trace(),
    {
    }

    fn enter_statement_if_block(&mut self, node: & StatementIfBlock)
        requires
            old(self).wf(),
        ensures
            final(self).wf(),
            final(self).enters() == old(self).enters(),
            final(self).exits() == old(self).exits(),
            final(self).trace() == old(self).trace(),
    {
    }

    fn exit_statement_if_block(&mut self, node: & StatementIfBlock)
        requires
            old(self).wf(),
        ensures
            final(self).wf(),
            final(self).enters() == old(self).enters(),
            final(self).exits() == old(self).exits(),
            final(self).trace() == old(self).trace(),
    {
    }

    fn enter_expression_if_block(&mut self, node: & ExpressionIfBlock)
        requires
            old(self).wf(),
        ensures
            final(self).wf(),
            final(self).enters() == old(self).enters(),
            final(self).exits() == old(self).exits(),
            final(self).trace() == old(self).trace(),
    {
    }

    fn exit_expression_if_block(&mut self, node: & ExpressionIfBlock)
        requires
            old(self).wf(),
        ensures
            final(self).wf(),
            final(self).enters() == old(self).enters(),
            final(self).exits() == old(self).exits(),
            final(self).trace() == old(self).trace(),
    {
    }

    fn enter_type_specifier(&mut self, node: & TypeSpecifier)
        requires
            old(self).wf(),
        ensures
            final(self).wf(),
            final(self).enters() == old(self).enters(),
            final(self).exits() == old(self).exits(),
            final(self).trace() == old(self).trace(),
    {
    }

    fn exit_type_specifier(&mut self, node: & TypeSpecifier)
        requires
            old(self).wf(),
        ensures
            final(self).wf(),
            final(self).enters() == old(self).enters(),
            final(self).exits() == old(self).exits(),
            final(self).trace() == old(self).trace(),
    {
    }

    fn enter_equation(&mut self, node: & Equation)
        requires
            old(self).wf(),
        ensures
            final(self).wf(),
            final(self).enters() == old(self).enters(),
            final(self).exits() == old(self).exits(),
            final(self).trace() == old(self).trace(),
    {
    }

    fn exit_equation(&mut self, node: & Equation)
        requires
            old(self).wf(),
        ensures
            final(self).wf(),
            final(self).enters() == old(self).enters(),
            final(self).exits() == old(self).exits(),
            final(self).trace() == old(self).trace(),
    {
    }

    fn enter_statement(&mut self, node: & Statement)
        requires
            old(self).wf(),
        ensures
            final(self).wf(),
            final(self).enters() == old(self).enters(),
            final(self).exits() == old(self).exits(),
            final(self).trace() == old(self).trace(),
    {
    }

    fn exit_statement(&mut self, node: & Statement)
        requires
            old(self).wf(),
        ensures
            final(self).wf(),
            final(self).enters() == old(self).enters(),
            final(self).exits() == old(self).exits(),
            final(self).trace() == old(self).trace(),
    {
    }

    fn enter_expression(&mut self, node: & Expression)
        requires
            old(self).wf(),
        ensures
            final(self).wf(),
            final(self).enters() == old(self).enters(),
            final(self).exits() == old(self).exits(),
            final(self).trace() == old(self).trace(),
    {
    }

    fn exit_expression(&mut self, node: & Expression)
        requires
            old(self).wf(),
        ensures
            final(self).wf(),
            final(self).enters() == old(self).enters(),
            final(self).exits() == old(self).exits(),
            final(self).trace() == old(self).trace(),
    {
    }

    fn enter_subscript(&mut self, node: & Subscript)
        requires
            old(self).wf(),
        ensures
            final(self).wf(),
            final(self).enters() == old(self).enters(),
            final(self).exits() == old(self).exits(),
            final(self).trace() == old(self).trace(),
    {
    }

    fn exit_subscript(&mut self, node: & Subscript)
        requires
            old(self).wf(),
        ensures
            final(self).wf(),
            final(self).enters() == old(self).enters(),
            final(self).exits() == old(self).exits(),
            final(self).trace() == old(self).trace(),
    {
    }

    fn enter_argument(&mut self, node: & Argument)
        requires
            old(self).wf(),
        ensures
            final(self).wf(),
            final(self).enters() == old(self).enters(),
            final(self).exits() == old(self).exits(),
            final(self).trace() == old(self).trace(),
    {
    }

    fn exit_argument(&mut self, node: & Argument)
        requires
            old(self).wf(),
        ensures
            final(self).wf(),
            final(self).enters() == old(self).enters(),
            final(self).exits() == old(self).exits(),
            final(self).trace() == old(self).trace(),
    {
    }

    fn enter_modification(&mut self, node: & Modification)
        requires
            old(self).wf(),
        ensures
            final(self).wf(),
            final(self).enters() == old(self).enters(),
            final(self).exits() == old(self).exits(),
            final(self).trace() == old(self).trace(),
    {
    }

    fn exit_modification(&mut self, node: & Modification)
        requires
            old(self).wf(),
        ensures
            final(self).wf(),
            final(self).enters() == old(self).enters(),
            final(self).exits() == old(self).exits(),
            final(self).trace() == old(self).trace(),
    {
    }

    fn enter_mod_expr(&mut self, node: & ModExpr)
        requires
            old(self).wf(),
        ensures
            final(self).wf(),
            final(self).enters() == old(self).enters(),
            final(self).exits() == old(self).exits(),
            final(self).trace() == old(self).trace(),
    {
    }

    fn exit_mod_expr(&mut self, node: & ModExpr)
        requires
            old(self).wf(),
        ensures
            final(self).wf(),
            final(self).enters() == old(self).enters(),
            final(self).exits() == old(self).exits(),
            final(self).trace() == old(self).trace(),
    {
    }

}

} // verus!
