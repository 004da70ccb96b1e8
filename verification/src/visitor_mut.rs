use vstd::prelude::*;

use crate::ast::{
    Argument, BinaryOp, Causality, ClassDefinition, ClassType, ComponentDeclaration,
    ComponentReference, Connection, Description, ElementFlags, Equation, EquationIfBlock,
    Expression, ExpressionIfBlock, ForIndex, ImportClause, ModExpr, Modification, Name, RefPart,
    Statement, StatementIfBlock, StoredDefinition, Subscript, TypeSpecifier, UnaryOp, Variability,
    Visibility,
};
use crate::size::{
    argument_count, binary_op_count, causality_count, class_definition_count, class_type_count,
    component_declaration_count, component_reference_count, connection_count, description_count,
    element_flags_count, equation_count, equation_if_block_count, expression_count,
    expression_if_block_count, for_index_count, import_clause_count, mod_expr_count,
    modification_count, name_count, ref_part_count, statement_count, statement_if_block_count,
    stored_definition_count, subscript_count, type_specifier_count, unary_op_count,
    variability_count, visibility_count,
};
use crate::node::NodeKind;

verus! {

/// A mutating traversal behavior: one enter and one exit hook per node
/// kind, plus global enter/exit hooks called around every node. All hooks
/// default to doing nothing; a concrete visitor overrides what it needs.
///
/// The abstract `enters`/`exits` counters record how often the global hooks
/// have run; `wf` is the visitor's own invariant, which every hook preserves.
/// A per-kind hook may rewrite the node it is handed, but must preserve the
/// node measure, so that a traversal in progress stays bounded.
pub trait VisitorMut: Sized {
    spec fn wf(&self) -> bool;

    spec fn enters(&self) -> nat;

    spec fn exits(&self) -> nat;

    fn enter_any(&mut self, kind: NodeKind)
        requires
            old(self).wf(),
            old(self).enters() < usize::MAX as nat,
        ensures
            final(self).wf(),
            final(self).enters() == old(self).enters() + 1,
            final(self).exits() == old(self).exits(),
    ;

    fn exit_any(&mut self, kind: NodeKind)
        requires
            old(self).wf(),
            old(self).exits() < old(self).enters(),
        ensures
            final(self).wf(),
            final(self).exits() == old(self).exits() + 1,
            final(self).enters() == old(self).enters(),
    ;

    fn enter_causality_mut(&mut self, node: &mut Causality)
        requires
            old(self).wf(),
        ensures
            final(self).wf(),
            final(self).enters() == old(self).enters(),
            final(self).exits() == old(self).exits(),
            causality_count(*final(node)) == causality_count(*old(node)),
    {
    }

    fn exit_causality_mut(&mut self, node: &mut Causality)
        requires
            old(self).wf(),
        ensures
            final(self).wf(),
            final(self).enters() == old(self).enters(),
            final(self).exits() == old(self).exits(),
            causality_count(*final(node)) == causality_count(*old(node)),
    {
    }

    fn enter_variability_mut(&mut self, node: &mut Variability)
        requires
            old(self).wf(),
        ensures
            final(self).wf(),
            final(self).enters() == old(self).enters(),
            final(self).exits() == old(self).exits(),
            variability_count(*final(node)) == variability_count(*old(node)),
    {
    }

    fn exit_variability_mut(&mut self, node: &mut Variability)
        requires
            old(self).wf(),
        ensures
            final(self).wf(),
            final(self).enters() == old(self).enters(),
            final(self).exits() == old(self).exits(),
            variability_count(*final(node)) == variability_count(*old(node)),
    {
    }

    fn enter_visibility_mut(&mut self, node: &mut Visibility)
        requires
            old(self).wf(),
        ensures
            final(self).wf(),
            final(self).enters() == old(self).enters(),
            final(self).exits() == old(self).exits(),
            visibility_count(*final(node)) == visibility_count(*old(node)),
    {
    }

    fn exit_visibility_mut(&mut self, node: &mut Visibility)
        requires
            old(self).wf(),
        ensures
            final(self).wf(),
            final(self).enters() == old(self).enters(),
            final(self).exits() == old(self).exits(),
            visibility_count(*final(node)) == visibility_count(*old(node)),
    {
    }

    fn enter_connection_mut(&mut self, node: &mut Connection)
        requires
            old(self).wf(),
        ensures
            final(self).wf(),
            final(self).enters() == old(self).enters(),
            final(self).exits() == old(self).exits(),
            connection_count(*final(node)) == connection_count(*old(node)),
    {
    }

    fn exit_connection_mut(&mut self, node: &mut Connection)
        requires
            old(self).wf(),
        ensures
            final(self).wf(),
            final(self).enters() == old(self).enters(),
            final(self).exits() == old(self).exits(),
            connection_count(*final(node)) == connection_count(*old(node)),
    {
    }

    fn enter_unary_op_mut(&mut self, node: &mut UnaryOp)
        requires
            old(self).wf(),
        ensures
            final(self).wf(),
            final(self).enters() == old(self).enters(),
            final(self).exits() == old(self).exits(),
            unary_op_count(*final(node)) == unary_op_count(*old(node)),
    {
    }

    fn exit_unary_op_mut(&mut self, node: &mut UnaryOp)
        requires
            old(self).wf(),
        ensures
            final(self).wf(),
            final(self).enters() == old(self).enters(),
            final(self).exits() == old(self).exits(),
            unary_op_count(*final(node)) == unary_op_count(*old(node)),
    {
    }

    fn enter_binary_op_mut(&mut self, node: &mut BinaryOp)
        requires
            old(self).wf(),
        ensures
            final(self).wf(),
            final(self).enters() == old(self).enters(),
            final(self).exits() == old(self).exits(),
            binary_op_count(*final(node)) == binary_op_count(*old(node)),
    {
    }

    fn exit_binary_op_mut(&mut self, node: &mut BinaryOp)
        requires
            old(self).wf(),
        ensures
            final(self).wf(),
            final(self).enters() == old(self).enters(),
            final(self).exits() == old(self).exits(),
            binary_op_count(*final(node)) == binary_op_count(*old(node)),
    {
    }

    fn enter_class_type_mut(&mut self, node: &mut ClassType)
        requires
            old(self).wf(),
        ensures
            final(self).wf(),
            final(self).enters() == old(self).enters(),
            final(self).exits() == old(self).exits(),
            class_type_count(*final(node)) == class_type_count(*old(node)),
    {
    }

    fn exit_class_type_mut(&mut self, node: &mut ClassType)
        requires
            old(self).wf(),
        ensures
            final(self).wf(),
            final(self).enters() == old(self).enters(),
            final(self).exits() == old(self).exits(),
            class_type_count(*final(node)) == class_type_count(*old(node)),
    {
    }

    fn enter_element_flags_mut(&mut self, node: &mut ElementFlags)
        requires
            old(self).wf(),
        ensures
            final(self).wf(),
            final(self).enters() == old(self).enters(),
            final(self).exits() == old(self).exits(),
            element_flags_count(*final(node)) == element_flags_count(*old(node)),
    {
    }

    fn exit_element_flags_mut(&mut self, node: &mut ElementFlags)
        requires
            old(self).wf(),
        ensures
            final(self).wf(),
            final(self).enters() == old(self).enters(),
            final(self).exits() == old(self).exits(),
            element_flags_count(*final(node)) == element_flags_count(*old(node)),
    {
    }

    fn enter_name_mut(&mut self, node: &mut Name)
        requires
            old(self).wf(),
        ensures
            final(self).wf(),
            final(self).enters() == old(self).enters(),
            final(self).exits() == old(self).exits(),
            name_count(*final(node)) == name_count(*old(node)),
    {
    }

    fn exit_name_mut(&mut self, node: &mut Name)
        requires
            old(self).wf(),
        ensures
            final(self).wf(),
            final(self).enters() == old(self).enters(),
            final(self).exits() == old(self).exits(),
            name_count(*final(node)) == name_count(*old(node)),
    {
    }

    fn enter_stored_definition_mut(&mut self, node: &mut StoredDefinition)
        requires
            old(self).wf(),
        ensures
            final(self).wf(),
            final(self).enters() == old(self).enters(),
            final(self).exits() == old(self).exits(),
            stored_definition_count(*final(node)) == stored_definition_count(*old(node)),
    {
    }

    fn exit_stored_definition_mut(&mut self, node: &mut StoredDefinition)
        requires
            old(self).wf(),
        ensures
            final(self).wf(),
            final(self).enters() == old(self).enters(),
            final(self).exits() == old(self).exits(),
            stored_definition_count(*final(node)) == stored_definition_count(*old(node)),
    {
    }

    fn enter_class_definition_mut(&mut self, node: &mut ClassDefinition)
        requires
            old(self).wf(),
        ensures
            final(self).wf(),
            final(self).enters() == old(self).enters(),
            final(self).exits() == old(self).exits(),
            class_definition_count(*final(node)) == class_definition_count(*old(node)),
    {
    }

    fn exit_class_definition_mut(&mut self, node: &mut ClassDefinition)
        requires
            old(self).wf(),
        ensures
            final(self).wf(),
            final(self).enters() == old(self).enters(),
            final(self).exits() == old(self).exits(),
            class_definition_count(*final(node)) == class_definition_count(*old(node)),
    {
    }

    fn enter_import_clause_mut(&mut self, node: &mut ImportClause)
        requires
            old(self).wf(),
        ensures
            final(self).wf(),
            final(self).enters() == old(self).enters(),
            final(self).exits() == old(self).exits(),
            import_clause_count(*final(node)) == import_clause_count(*old(node)),
    {
    }

    fn exit_import_clause_mut(&mut self, node: &mut ImportClause)
        requires
            old(self).wf(),
        ensures
            final(self).wf(),
            final(self).enters() == old(self).enters(),
            final(self).exits() == old(self).exits(),
            import_clause_count(*final(node)) == import_clause_count(*old(node)),
    {
    }

    fn enter_component_declaration_mut(&mut self, node: &mut ComponentDeclaration)
        requires
            old(self).wf(),
        ensures
            final(self).wf(),
            final(self).enters() == old(self).enters(),
            final(self).exits() == old(self).exits(),
            component_declaration_count(*final(node)) == component_declaration_count(*old(node)),
    {
    }

    fn exit_component_declaration_mut(&mut self, node: &mut ComponentDeclaration)
        requires
            old(self).wf(),
        ensures
            final(self).wf(),
            final(self).enters() == old(self).enters(),
            final(self).exits() == old(self).exits(),
            component_declaration_count(*final(node)) == component_declaration_count(*old(node)),
    {
    }

    fn enter_component_reference_mut(&mut self, node: &mut ComponentReference)
        requires
            old(self).wf(),
        ensures
            final(self).wf(),
            final(self).enters() == old(self).enters(),
            final(self).exits() == old(self).exits(),
            component_reference_count(*final(node)) == component_reference_count(*old(node)),
    {
    }

    fn exit_component_reference_mut(&mut self, node: &mut ComponentReference)
        requires
            old(self).wf(),
        ensures
            final(self).wf(),
            final(self).enters() == old(self).enters(),
            final(self).exits() == old(self).exits(),
            component_reference_count(*final(node)) == component_reference_count(*old(node)),
    {
    }

    fn enter_ref_part_mut(&mut self, node: &mut RefPart)
        requires
            old(self).wf(),
        ensures
            final(self).wf(),
            final(self).enters() == old(self).enters(),
            final(self).exits() == old(self).exits(),
            ref_part_count(*final(node)) == ref_part_count(*old(node)),
    {
    }

    fn exit_ref_part_mut(&mut self, node: &mut RefPart)
        requires
            old(self).wf(),
        ensures
            final(self).wf(),
            final(self).enters() == old(self).enters(),
            final(self).exits() == old(self).exits(),
            ref_part_count(*final(node)) == ref_part_count(*old(node)),
    {
    }

    fn enter_description_mut(&mut self, node: &mut Description)
        requires
            old(self).wf(),
        ensures
            final(self).wf(),
            final(self).enters() == old(self).enters(),
            final(self).exits() == old(self).exits(),
            description_count(*final(node)) == description_count(*old(node)),
    {
    }

    fn exit_description_mut(&mut self, node: &mut Description)
        requires
            old(self).wf(),
        ensures
            final(self).wf(),
            final(self).enters() == old(self).enters(),
            final(self).exits() == old(self).exits(),
            description_count(*final(node)) == description_count(*old(node)),
    {
    }

    fn enter_for_index_mut(&mut self, node: &mut ForIndex)
        requires
            old(self).wf(),
        ensures
            final(self).wf(),
            final(self).enters() == old(self).enters(),
            final(self).exits() == old(self).exits(),
            for_index_count(*final(node)) == for_index_count(*old(node)),
    {
    }

    fn exit_for_index_mut(&mut self, node: &mut ForIndex)
        requires
            old(self).wf(),
        ensures
            final(self).wf(),
            final(self).enters() == old(self).enters(),
            final(self).exits() == old(self).exits(),
            for_index_count(*final(node)) == for_index_count(*old(node)),
    {
    }

    fn enter_equation_if_block_mut(&mut self, node: &mut EquationIfBlock)
        requires
            old(self).wf(),
        ensures
            final(self).wf(),
            final(self).enters() == old(self).enters(),
            final(self).exits() == old(self).exits(),
            equation_if_block_count(*final(node)) == equation_if_block_count(*old(node)),
    {
    }

    fn exit_equation_if_block_mut(&mut self, node: &mut EquationIfBlock)
        requires
            old(self).wf(),
        ensures
            final(self).wf(),
            final(self).enters() == old(self).enters(),
            final(self).exits() == old(self).exits(),
            equation_if_block_count(*final(node)) == equation_if_block_count(*old(node)),
    {
    }

    fn enter_statement_if_block_mut(&mut self, node: &mut StatementIfBlock)
        requires
            old(self).wf(),
        ensures
            final(self).wf(),
            final(self).enters() == old(self).enters(),
            final(self).exits() == old(self).exits(),
            statement_if_block_count(*final(node)) == statement_if_block_count(*old(node)),
    {
    }

    fn exit_statement_if_block_mut(&mut self, node: &mut StatementIfBlock)
        requires
            old(self).wf(),
        ensures
            final(self).wf(),
            final(self).enters() == old(self).enters(),
            final(self).exits() == old(self).exits(),
            statement_if_block_count(*final(node)) == statement_if_block_count(*old(node)),
    {
    }

    fn enter_expression_if_block_mut(&mut self, node: &mut ExpressionIfBlock)
        requires
            old(self).wf(),
        ensures
            final(self).wf(),
            final(self).enters() == old(self).enters(),
            final(self).exits() == old(self).exits(),
            expression_if_block_count(*final(node)) == expression_if_block_count(*old(node)),
    {
    }

    fn exit_expression_if_block_mut(&mut self, node: &mut ExpressionIfBlock)
        requires
            old(self).wf(),
        ensures
            final(self).wf(),
            final(self).enters() == old(self).enters(),
            final(self).exits() == old(self).exits(),
            expression_if_block_count(*final(node)) == expression_if_block_count(*old(node)),
    {
    }

    fn enter_type_specifier_mut(&mut self, node: &mut TypeSpecifier)
        requires
            old(self).wf(),
        ensures
            final(self).wf(),
            final(self).enters() == old(self).enters(),
            final(self).exits() == old(self).exits(),
            type_specifier_count(*final(node)) == type_specifier_count(*old(node)),
    {
    }

    fn exit_type_specifier_mut(&mut self, node: &mut TypeSpecifier)
        requires
            old(self).wf(),
        ensures
            final(self).wf(),
            final(self).enters() == old(self).enters(),
            final(self).exits() == old(self).exits(),
            type_specifier_count(*final(node)) == type_specifier_count(*old(node)),
    {
    }

    fn enter_equation_mut(&mut self, node: &mut Equation)
        requires
            old(self).wf(),
        ensures
            final(self).wf(),
            final(self).enters() == old(self).enters(),
            final(self).exits() == old(self).exits(),
            equation_count(*final(node)) == equation_count(*old(node)),
    {
    }

    fn exit_equation_mut(&mut self, node: &mut Equation)
        requires
            old(self).wf(),
        ensures
            final(self).wf(),
            final(self).enters() == old(self).enters(),
            final(self).exits() == old(self).exits(),
            equation_count(*final(node)) == equation_count(*old(node)),
    {
    }

    fn enter_statement_mut(&mut self, node: &mut Statement)
        requires
            old(self).wf(),
        ensures
            final(self).wf(),
            final(self).enters() == old(self).enters(),
            final(self).exits() == old(self).exits(),
            statement_count(*final(node)) == statement_count(*old(node)),
    {
    }

    fn exit_statement_mut(&mut self, node: &mut Statement)
        requires
            old(self).wf(),
        ensures
            final(self).wf(),
            final(self).enters() == old(self).enters(),
            final(self).exits() == old(self).exits(),
            statement_count(*final(node)) == statement_count(*old(node)),
    {
    }

    fn enter_expression_mut(&mut self, node: &mut Expression)
        requires
            old(self).wf(),
        ensures
            final(self).wf(),
            final(self).enters() == old(self).enters(),
            final(self).exits() == old(self).exits(),
            expression_count(*final(node)) == expression_count(*old(node)),
    {
    }

    fn exit_expression_mut(&mut self, node: &mut Expression)
        requires
            old(self).wf(),
        ensures
            final(self).wf(),
            final(self).enters() == old(self).enters(),
            final(self).exits() == old(self).exits(),
            expression_count(*final(node)) == expression_count(*old(node)),
    {
    }

    fn enter_subscript_mut(&mut self, node: &mut Subscript)
        requires
            old(self).wf(),
        ensures
            final(self).wf(),
            final(self).enters() == old(self).enters(),
            final(self).exits() == old(self).exits(),
            subscript_count(*final(node)) == subscript_count(*old(node)),
    {
    }

    fn exit_subscript_mut(&mut self, node: &mut Subscript)
        requires
            old(self).wf(),
        ensures
            final(self).wf(),
            final(self).enters() == old(self).enters(),
            final(self).exits() == old(self).exits(),
            subscript_count(*final(node)) == subscript_count(*old(node)),
    {
    }

    fn enter_argument_mut(&mut self, node: &mut Argument)
        requires
            old(self).wf(),
        ensures
            final(self).wf(),
            final(self).enters() == old(self).enters(),
            final(self).exits() == old(self).exits(),
            argument_count(*final(node)) == argument_count(*old(node)),
    {
    }

    fn exit_argument_mut(&mut self, node: &mut Argument)
        requires
            old(self).wf(),
        ensures
            final(self).wf(),
            final(self).enters() == old(self).enters(),
            final(self).exits() == old(self).exits(),
            argument_count(*final(node)) == argument_count(*old(node)),
    {
    }

    fn enter_modification_mut(&mut self, node: &mut Modification)
        requires
            old(self).wf(),
        ensures
            final(self).wf(),
            final(self).enters() == old(self).enters(),
            final(self).exits() == old(self).exits(),
            modification_count(*final(node)) == modification_count(*old(node)),
    {
    }

    fn exit_modification_mut(&mut self, node: &mut Modification)
        requires
            old(self).wf(),
        ensures
            final(self).wf(),
            final(self).enters() == old(self).enters(),
            final(self).exits() == old(self).exits(),
            modification_count(*final(node)) == modification_count(*old(node)),
    {
    }

    fn enter_mod_expr_mut(&mut self, node: &mut ModExpr)
        requires
            old(self).wf(),
        ensures
            final(self).wf(),
            final(self).enters() == old(self).enters(),
            final(self).exits() == old(self).exits(),
            mod_expr_count(*final(node)) == mod_expr_count(*old(node)),
    {
    }

    fn exit_mod_expr_mut(&mut self, node: &mut ModExpr)
        requires
            old(self).wf(),
        ensures
            final(self).wf(),
            final(self).enters() == old(self).enters(),
            final(self).exits() == old(self).exits(),
            mod_expr_count(*final(node)) == mod_expr_count(*old(node)),
    {
    }

}

} // verus!
