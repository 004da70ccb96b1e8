use vstd::prelude::*;

use crate::ast::{
    Argument, BinaryOp, Causality, ClassDefinition, ClassType, ComponentDeclaration,
    ComponentReference, Connection, Description, ElementFlags, Equation, EquationIfBlock,
    Expression, ExpressionIfBlock, ForIndex, ImportClause, ModExpr, Modification, Name, RefPart,
    Statement, StatementIfBlock, StoredDefinition, Subscript, TypeSpecifier, UnaryOp, Variability,
    Visibility,
};
use crate::size::{
    argument_count, binary_op_count, causality_count, class_definition_count, class_type_count,
    component_declaration_count, component_reference_count, connection_count, description_count,
    element_flags_count, equation_count, equation_if_block_count, expression_count,
    expression_if_block_count, for_index_count, import_clause_count, mod_expr_count,
    modification_count, name_count, ref_part_count, statement_count, statement_if_block_count,
    stored_definition_count, subscript_count, type_specifier_count, unary_op_count,
    variability_count, visibility_count,
};

verus! {

/// The kind tag of a node, used where a reference cannot be handed out.
#[derive(Clone, Copy, Debug, PartialEq, Eq, Structural)]
pub enum NodeKind {
    Causality,
    Variability,
    Visibility,
    Connection,
    UnaryOp,
    BinaryOp,
    ClassType,
    ElementFlags,
    Name,
    StoredDefinition,
    ClassDefinition,
    ImportClause,
    ComponentDeclaration,
    ComponentReference,
    RefPart,
    Description,
    ForIndex,
    EquationIfBlock,
    StatementIfBlock,
    ExpressionIfBlock,
    TypeSpecifier,
    Equation,
    Statement,
    Expression,
    Subscript,
    Argument,
    Modification,
    ModExpr,
}

/// A tagged reference to any node of the tree: handed to the global
/// enter/exit hooks of the read-only traversal so that cross-cutting
/// behaviors can branch on the node kind.
pub enum NodeRef<'a> {
    Causality(&'a Causality),
    Variability(&'a Variability),
    Visibility(&'a Visibility),
    Connection(&'a Connection),
    UnaryOp(&'a UnaryOp),
    BinaryOp(&'a BinaryOp),
    ClassType(&'a ClassType),
    ElementFlags(&'a ElementFlags),
    Name(&'a Name),
    StoredDefinition(&'a StoredDefinition),
    ClassDefinition(&'a ClassDefinition),
    ImportClause(&'a ImportClause),
    ComponentDeclaration(&'a ComponentDeclaration),
    ComponentReference(&'a ComponentReference),
    RefPart(&'a RefPart),
    Description(&'a Description),
    ForIndex(&'a ForIndex),
    EquationIfBlock(&'a EquationIfBlock),
    StatementIfBlock(&'a StatementIfBlock),
    ExpressionIfBlock(&'a ExpressionIfBlock),
    TypeSpecifier(&'a TypeSpecifier),
    Equation(&'a Equation),
    Statement(&'a Statement),
    Expression(&'a Expression),
    Subscript(&'a Subscript),
    Argument(&'a Argument),
    Modification(&'a Modification),
    ModExpr(&'a ModExpr),
}

/// An owned node of any kind.
#[derive(Debug, PartialEq, Eq)]
pub enum Node {
    Causality(Causality),
    Variability(Variability),
    Visibility(Visibility),
    Connection(Connection),
    UnaryOp(UnaryOp),
    BinaryOp(BinaryOp),
    ClassType(ClassType),
    ElementFlags(ElementFlags),
    Name(Name),
    StoredDefinition(StoredDefinition),
    ClassDefinition(ClassDefinition),
    ImportClause(ImportClause),
    ComponentDeclaration(ComponentDeclaration),
    ComponentReference(ComponentReference),
    RefPart(RefPart),
    Description(Description),
    ForIndex(ForIndex),
    EquationIfBlock(EquationIfBlock),
    StatementIfBlock(StatementIfBlock),
    ExpressionIfBlock(ExpressionIfBlock),
    TypeSpecifier(TypeSpecifier),
    Equation(Equation),
    Statement(Statement),
    Expression(Expression),
    Subscript(Subscript),
    Argument(Argument),
    Modification(Modification),
    ModExpr(ModExpr),
}

impl<'a> NodeRef<'a> {
    /// The kind tag of the referenced node.
    pub fn kind(&self) -> (k: NodeKind)
        ensures
            k == self.spec_kind(),
    {
        match self {
            NodeRef::Causality(_) => NodeKind::Causality,
            NodeRef::Variability(_) => NodeKind::Variability,
            NodeRef::Visibility(_) => NodeKind::Visibility,
            NodeRef::Connection(_) => NodeKind::Connection,
            NodeRef::UnaryOp(_) => NodeKind::UnaryOp,
            NodeRef::BinaryOp(_) => NodeKind::BinaryOp,
            NodeRef::ClassType(_) => NodeKind::ClassType,
            NodeRef::ElementFlags(_) => NodeKind::ElementFlags,
            NodeRef::Name(_) => NodeKind::Name,
            NodeRef::StoredDefinition(_) => NodeKind::StoredDefinition,
            NodeRef::ClassDefinition(_) => NodeKind::ClassDefinition,
            NodeRef::ImportClause(_) => NodeKind::ImportClause,
            NodeRef::ComponentDeclaration(_) => NodeKind::ComponentDeclaration,
            NodeRef::ComponentReference(_) => NodeKind::ComponentReference,
            NodeRef::RefPart(_) => NodeKind::RefPart,
            NodeRef::Description(_) => NodeKind::Description,
            NodeRef::ForIndex(_) => NodeKind::ForIndex,
            NodeRef::EquationIfBlock(_) => NodeKind::EquationIfBlock,
            NodeRef::StatementIfBlock(_) => NodeKind::StatementIfBlock,
            NodeRef::ExpressionIfBlock(_) => NodeKind::ExpressionIfBlock,
            NodeRef::TypeSpecifier(_) => NodeKind::TypeSpecifier,
            NodeRef::Equation(_) => NodeKind::Equation,
            NodeRef::Statement(_) => NodeKind::Statement,
            NodeRef::Expression(_) => NodeKind::Expression,
            NodeRef::Subscript(_) => NodeKind::Subscript,
            NodeRef::Argument(_) => NodeKind::Argument,
            NodeRef::Modification(_) => NodeKind::Modification,
            NodeRef::ModExpr(_) => NodeKind::ModExpr,
        }
    }

    pub open spec fn spec_kind(&self) -> NodeKind {
        match self {
            NodeRef::Causality(_) => NodeKind::Causality,
            NodeRef::Variability(_) => NodeKind::Variability,
            NodeRef::Visibility(_) => NodeKind::Visibility,
            NodeRef::Connection(_) => NodeKind::Connection,
            NodeRef::UnaryOp(_) => NodeKind::UnaryOp,
            NodeRef::BinaryOp(_) => NodeKind::BinaryOp,
            NodeRef::ClassType(_) => NodeKind::ClassType,
            NodeRef::ElementFlags(_) => NodeKind::ElementFlags,
            NodeRef::Name(_) => NodeKind::Name,
            NodeRef::StoredDefinition(_) => NodeKind::StoredDefinition,
            NodeRef::ClassDefinition(_) => NodeKind::ClassDefinition,
            NodeRef::ImportClause(_) => NodeKind::ImportClause,
            NodeRef::ComponentDeclaration(_) => NodeKind::ComponentDeclaration,
            NodeRef::ComponentReference(_) => NodeKind::ComponentReference,
            NodeRef::RefPart(_) => NodeKind::RefPart,
            NodeRef::Description(_) => NodeKind::Description,
            NodeRef::ForIndex(_) => NodeKind::ForIndex,
            NodeRef::EquationIfBlock(_) => NodeKind::EquationIfBlock,
            NodeRef::StatementIfBlock(_) => NodeKind::StatementIfBlock,
            NodeRef::ExpressionIfBlock(_) => NodeKind::ExpressionIfBlock,
            NodeRef::TypeSpecifier(_) => NodeKind::TypeSpecifier,
            NodeRef::Equation(_) => NodeKind::Equation,
            NodeRef::Statement(_) => NodeKind::Statement,
            NodeRef::Expression(_) => NodeKind::Expression,
            NodeRef::Subscript(_) => NodeKind::Subscript,
            NodeRef::Argument(_) => NodeKind::Argument,
            NodeRef::Modification(_) => NodeKind::Modification,
            NodeRef::ModExpr(_) => NodeKind::ModExpr,
        }
    }
}

/// The node measure of the referenced node.
pub open spec fn node_ref_count(n: NodeRef<'_>) -> nat {
    match n {
        NodeRef::Causality(x) => causality_count(*x),
        NodeRef::Variability(x) => variability_count(*x),
        NodeRef::Visibility(x) => visibility_count(*x),
        NodeRef::Connection(x) => connection_count(*x),
        NodeRef::UnaryOp(x) => unary_op_count(*x),
        NodeRef::BinaryOp(x) => binary_op_count(*x),
        NodeRef::ClassType(x) => class_type_count(*x),
        NodeRef::ElementFlags(x) => element_flags_count(*x),
        NodeRef::Name(x) => name_count(*x),
        NodeRef::StoredDefinition(x) => stored_definition_count(*x),
        NodeRef::ClassDefinition(x) => class_definition_count(*x),
        NodeRef::ImportClause(x) => import_clause_count(*x),
        NodeRef::ComponentDeclaration(x) => component_declaration_count(*x),
        NodeRef::ComponentReference(x) => component_reference_count(*x),
        NodeRef::RefPart(x) => ref_part_count(*x),
        NodeRef::Description(x) => description_count(*x),
        NodeRef::ForIndex(x) => for_index_count(*x),
        NodeRef::EquationIfBlock(x) => equation_if_block_count(*x),
        NodeRef::StatementIfBlock(x) => statement_if_block_count(*x),
        NodeRef::ExpressionIfBlock(x) => expression_if_block_count(*x),
        NodeRef::TypeSpecifier(x) => type_specifier_count(*x),
        NodeRef::Equation(x) => equation_count(*x),
        NodeRef::Statement(x) => statement_count(*x),
        NodeRef::Expression(x) => expression_count(*x),
        NodeRef::Subscript(x) => subscript_count(*x),
        NodeRef::Argument(x) => argument_count(*x),
        NodeRef::Modification(x) => modification_count(*x),
        NodeRef::ModExpr(x) => mod_expr_count(*x),
    }
}

/// The node measure of an owned node.
pub open spec fn node_count(n: Node) -> nat {
    match n {
        Node::Causality(x) => causality_count(x),
        Node::Variability(x) => variability_count(x),
        Node::Visibility(x) => visibility_count(x),
        Node::Connection(x) => connection_count(x),
        Node::UnaryOp(x) => unary_op_count(x),
        Node::BinaryOp(x) => binary_op_count(x),
        Node::ClassType(x) => class_type_count(x),
        Node::ElementFlags(x) => element_flags_count(x),
        Node::Name(x) => name_count(x),
        Node::StoredDefinition(x) => stored_definition_count(x),
        Node::ClassDefinition(x) => class_definition_count(x),
        Node::ImportClause(x) => import_clause_count(x),
        Node::ComponentDeclaration(x) => component_declaration_count(x),
        Node::ComponentReference(x) => component_reference_count(x),
        Node::RefPart(x) => ref_part_count(x),
        Node::Description(x) => description_count(x),
        Node::ForIndex(x) => for_index_count(x),
        Node::EquationIfBlock(x) => equation_if_block_count(x),
        Node::StatementIfBlock(x) => statement_if_block_count(x),
        Node::ExpressionIfBlock(x) => expression_if_block_count(x),
        Node::TypeSpecifier(x) => type_specifier_count(x),
        Node::Equation(x) => equation_count(x),
        Node::Statement(x) => statement_count(x),
        Node::Expression(x) => expression_count(x),
        Node::Subscript(x) => subscript_count(x),
        Node::Argument(x) => argument_count(x),
        Node::Modification(x) => modification_count(x),
        Node::ModExpr(x) => mod_expr_count(x),
    }
}

} // verus!
