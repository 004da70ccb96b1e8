use vstd::prelude::*;

use crate::ast::{
    Argument, BinaryOp, Causality, ClassDefinition, ClassType, ComponentDeclaration,
    ComponentReference, Connection, Description, ElementFlags, Equation, EquationIfBlock,
    Expression, ExpressionIfBlock, ForIndex, ImportClause, ModExpr, Modification, Name, RefPart,
    Statement, StatementIfBlock, StoredDefinition, Subscript, TypeSpecifier, UnaryOp, Variability,
    Visibility,
};
use crate::node::{Node, NodeKind, NodeRef};

verus! {

/// One hook invocation of a traversal: the global enter or exit hook, run
/// on a node of the given kind.
#[derive(Clone, Copy, Debug, PartialEq, Eq, Structural)]
pub enum VisitEvent {
    Enter(NodeKind),
    Exit(NodeKind),
}

/// Every function here gives the exact sequence of global enter/exit events
/// a traversal of the corresponding value produces: Enter for the value,
/// the events of every child in the fixed child order, then Exit. The
/// sequences are properly nested by construction.

pub open spec fn causality_trace(x: Causality) -> Seq<VisitEvent> {
    seq![VisitEvent::Enter(NodeKind::Causality)] + seq![VisitEvent::Exit(NodeKind::Causality)]
}

pub open spec fn variability_trace(x: Variability) -> Seq<VisitEvent> {
    seq![VisitEvent::Enter(NodeKind::Variability)] + seq![VisitEvent::Exit(NodeKind::Variability)]
}

pub open spec fn visibility_trace(x: Visibility) -> Seq<VisitEvent> {
    seq![VisitEvent::Enter(NodeKind::Visibility)] + seq![VisitEvent::Exit(NodeKind::Visibility)]
}

pub open spec fn connection_trace(x: Connection) -> Seq<VisitEvent> {
    seq![VisitEvent::Enter(NodeKind::Connection)] + seq![VisitEvent::Exit(NodeKind::Connection)]
}

pub open spec fn unary_op_trace(x: UnaryOp) -> Seq<VisitEvent> {
    seq![VisitEvent::Enter(NodeKind::UnaryOp)] + seq![VisitEvent::Exit(NodeKind::UnaryOp)]
}

pub open spec fn binary_op_trace(x: BinaryOp) -> Seq<VisitEvent> {
    seq![VisitEvent::Enter(NodeKind::BinaryOp)] + seq![VisitEvent::Exit(NodeKind::BinaryOp)]
}

pub open spec fn class_type_trace(x: ClassType) -> Seq<VisitEvent> {
    seq![VisitEvent::Enter(NodeKind::ClassType)] + seq![VisitEvent::Exit(NodeKind::ClassType)]
}

pub open spec fn element_flags_trace(x: ElementFlags) -> Seq<VisitEvent> {
    seq![VisitEvent::Enter(NodeKind::ElementFlags)] + seq![VisitEvent::Exit(NodeKind::ElementFlags)]
}

pub open spec fn name_trace(x: Name) -> Seq<VisitEvent> {
    seq![VisitEvent::Enter(NodeKind::Name)] + seq![VisitEvent::Exit(NodeKind::Name)]
}

pub open spec fn stored_definition_trace(x: StoredDefinition) -> Seq<VisitEvent>
    decreases x, 0int,
{
    seq![VisitEvent::Enter(NodeKind::StoredDefinition)] + (match x.within {
        Some(c) => name_trace(c),
        None => Seq::empty(),
    }) + classes_trace(x.classes@, x.classes@.len() as int) + seq![VisitEvent::Exit(NodeKind::StoredDefinition)]
}

pub open spec fn class_definition_trace(x: ClassDefinition) -> Seq<VisitEvent>
    decreases x, 0int,
{
    seq![VisitEvent::Enter(NodeKind::ClassDefinition)] + class_type_trace(x.class_type) + type_specifiers_trace(x.extends@, x.extends@.len() as int) + import_clauses_trace(x.imports@, x.imports@.len() as int) + arguments_trace(x.modification@, x.modification@.len() as int) + component_declarations_trace(x.components@, x.components@.len() as int) + classes_trace(x.classes@, x.classes@.len() as int) + equations_trace(x.equations@, x.equations@.len() as int) + statement_lists_trace(x.algorithms@, x.algorithms@.len() as int) + equations_trace(x.initial_equations@, x.initial_equations@.len() as int) + statement_lists_trace(x.initial_algorithms@, x.initial_algorithms@.len() as int) + seq![VisitEvent::Exit(NodeKind::ClassDefinition)]
}

pub open spec fn import_clause_trace(x: ImportClause) -> Seq<VisitEvent>
    decreases x, 0int,
{
    seq![VisitEvent::Enter(NodeKind::ImportClause)] + name_trace(x.name) + (match x.description {
        Some(c) => description_trace(c),
        None => Seq::empty(),
    }) + seq![VisitEvent::Exit(NodeKind::ImportClause)]
}

pub open spec fn component_declaration_trace(x: ComponentDeclaration) -> Seq<VisitEvent>
    decreases x, 0int,
{
    seq![VisitEvent::Enter(NodeKind::ComponentDeclaration)] + type_specifier_trace(x.type_specifier) + element_flags_trace(x.flags) + connection_trace(x.connection) + variability_trace(x.variability) + causality_trace(x.causality) + visibility_trace(x.visibility) + subscripts_trace(x.array_subscripts@, x.array_subscripts@.len() as int) + (match x.modification {
        Some(c) => modification_trace(c),
        None => Seq::empty(),
    }) + (match x.condition_attribute {
        Some(c) => expression_trace(c),
        None => Seq::empty(),
    }) + (match x.description {
        Some(c) => description_trace(c),
        None => Seq::empty(),
    }) + seq![VisitEvent::Exit(NodeKind::ComponentDeclaration)]
}

pub open spec fn component_reference_trace(x: ComponentReference) -> Seq<VisitEvent>
    decreases x, 0int,
{
    seq![VisitEvent::Enter(NodeKind::ComponentReference)] + ref_parts_trace(x.parts@, x.parts@.len() as int) + seq![VisitEvent::Exit(NodeKind::ComponentReference)]
}

pub open spec fn ref_part_trace(x: RefPart) -> Seq<VisitEvent>
    decreases x, 0int,
{
    seq![VisitEvent::Enter(NodeKind::RefPart)] + subscripts_trace(x.array_subscripts@, x.array_subscripts@.len() as int) + seq![VisitEvent::Exit(NodeKind::RefPart)]
}

pub open spec fn description_trace(x: Description) -> Seq<VisitEvent>
    decreases x, 0int,
{
    seq![VisitEvent::Enter(NodeKind::Description)] + arguments_trace(x.annotation@, x.annotation@.len() as int) + seq![VisitEvent::Exit(NodeKind::Description)]
}

pub open spec fn for_index_trace(x: ForIndex) -> Seq<VisitEvent>
    decreases x, 0int,
{
    seq![VisitEvent::Enter(NodeKind::ForIndex)] + (match x.in_expr {
        Some(c) => expression_trace(c),
        None => Seq::empty(),
    }) + seq![VisitEvent::Exit(NodeKind::ForIndex)]
}

pub open spec fn equation_if_block_trace(x: EquationIfBlock) -> Seq<VisitEvent>
    decreases x, 0int,
{
    seq![VisitEvent::Enter(NodeKind::EquationIfBlock)] + expression_trace(x.cond) + equations_trace(x.eqs@, x.eqs@.len() as int) + seq![VisitEvent::Exit(NodeKind::EquationIfBlock)]
}

pub open spec fn statement_if_block_trace(x: StatementIfBlock) -> Seq<VisitEvent>
    decreases x, 0int,
{
    seq![VisitEvent::Enter(NodeKind::StatementIfBlock)] + expression_trace(x.cond) + statements_trace(x.stmts@, x.stmts@.len() as int) + seq![VisitEvent::Exit(NodeKind::StatementIfBlock)]
}

pub open spec fn expression_if_block_trace(x: ExpressionIfBlock) -> Seq<VisitEvent>
    decreases x, 0int,
{
    seq![VisitEvent::Enter(NodeKind::ExpressionIfBlock)] + expression_trace(x.cond) + expression_trace(x.expr) + seq![VisitEvent::Exit(NodeKind::ExpressionIfBlock)]
}

pub open spec fn type_specifier_trace(x: TypeSpecifier) -> Seq<VisitEvent>
    decreases x, 0int,
{
    seq![VisitEvent::Enter(NodeKind::TypeSpecifier)] + name_trace(x.name) + seq![VisitEvent::Exit(NodeKind::TypeSpecifier)]
}

pub open spec fn equation_trace(x: Equation) -> Seq<VisitEvent>
    decreases x, 0int,
{
    seq![VisitEvent::Enter(NodeKind::Equation)] + (match x {
        Equation::Empty => Seq::empty(),
        Equation::Connect(p) => component_reference_trace(p.lhs) + component_reference_trace(p.rhs) + (match p.description {
        Some(c) => description_trace(c),
        None => Seq::empty(),
    }),
        Equation::For(p) => for_indices_trace(p.indices@, p.indices@.len() as int) + equations_trace(p.eqs@, p.eqs@.len() as int) + (match p.description {
        Some(c) => description_trace(c),
        None => Seq::empty(),
    }),
        Equation::If(p) => equation_if_blocks_trace(p.if_blocks@, p.if_blocks@.len() as int) + equations_trace(p.else_eqs@, p.else_eqs@.len() as int) + (match p.description {
        Some(c) => description_trace(c),
        None => Seq::empty(),
    }),
        Equation::Simple(p) => expression_trace(p.lhs) + expression_trace(p.rhs) + (match p.description {
        Some(c) => description_trace(c),
        None => Seq::empty(),
    }),
    }) + seq![VisitEvent::Exit(NodeKind::Equation)]
}

pub open spec fn statement_trace(x: Statement) -> Seq<VisitEvent>
    decreases x, 0int,
{
    seq![VisitEvent::Enter(NodeKind::Statement)] + (match x {
        Statement::Empty => Seq::empty(),
        Statement::Assignment(p) => component_reference_trace(p.comp) + expression_trace(p.rhs) + (match p.description {
        Some(c) => description_trace(c),
        None => Seq::empty(),
    }),
        Statement::Break(p) => (match p.description {
        Some(c) => description_trace(c),
        None => Seq::empty(),
    }),
        Statement::For(p) => for_indices_trace(p.indices@, p.indices@.len() as int) + statements_trace(p.stmts@, p.stmts@.len() as int) + (match p.description {
        Some(c) => description_trace(c),
        None => Seq::empty(),
    }),
        Statement::If(p) => statement_if_blocks_trace(p.if_blocks@, p.if_blocks@.len() as int) + statements_trace(p.else_stmts@, p.else_stmts@.len() as int) + (match p.description {
        Some(c) => description_trace(c),
        None => Seq::empty(),
    }),
        Statement::Return(p) => (match p.description {
        Some(c) => description_trace(c),
        None => Seq::empty(),
    }),
        Statement::While(p) => expression_trace(p.cond) + statements_trace(p.stmts@, p.stmts@.len() as int) + (match p.description {
        Some(c) => description_trace(c),
        None => Seq::empty(),
    }),
    }) + seq![VisitEvent::Exit(NodeKind::Statement)]
}

pub open spec fn expression_trace(x: Expression) -> Seq<VisitEvent>
    decreases x, 0int,
{
    seq![VisitEvent::Enter(NodeKind::Expression)] + (match x {
        Expression::Empty => Seq::empty(),
        Expression::Array(p) => expressions_trace(p.args@, p.args@.len() as int),
        Expression::Binary(p) => binary_op_trace(p.op) + expression_trace(*p.lhs) + expression_trace(*p.rhs),
        Expression::Boolean(p) => Seq::empty(),
        Expression::FunctionCall(p) => component_reference_trace(p.comp) + expressions_trace(p.args@, p.args@.len() as int),
        Expression::If(p) => expression_if_blocks_trace(p.if_blocks@, p.if_blocks@.len() as int) + (match p.else_expr {
        Some(c) => expression_trace(*c),
        None => Seq::empty(),
    }),
        Expression::Ref(p) => component_reference_trace(p),
        Expression::Unary(p) => unary_op_trace(p.op) + expression_trace(*p.rhs),
        Expression::UnsignedInteger(p) => Seq::empty(),
        Expression::UnsignedReal(p) => Seq::empty(),
    }) + seq![VisitEvent::Exit(NodeKind::Expression)]
}

pub open spec fn subscript_trace(x: Subscript) -> Seq<VisitEvent>
    decreases x, 0int,
{
    seq![VisitEvent::Enter(NodeKind::Subscript)] + (match x {
        Subscript::Empty => Seq::empty(),
        Subscript::Range(p) => Seq::empty(),
        Subscript::Expression(p) => expression_trace(p),
    }) + seq![VisitEvent::Exit(NodeKind::Subscript)]
}

pub open spec fn argument_trace(x: Argument) -> Seq<VisitEvent>
    decreases x, 0int,
{
    seq![VisitEvent::Enter(NodeKind::Argument)] + (match x {
        Argument::Empty => Seq::empty(),
        Argument::Modification(p) => name_trace(p.name) + (match p.modification {
        Some(c) => modification_trace(c),
        None => Seq::empty(),
    }) + (match p.description {
        Some(c) => description_trace(c),
        None => Seq::empty(),
    }),
        Argument::Redeclaration(p) => Seq::empty(),
        Argument::Replaceable(p) => Seq::empty(),
    }) + seq![VisitEvent::Exit(NodeKind::Argument)]
}

pub open spec fn modification_trace(x: Modification) -> Seq<VisitEvent>
    decreases x, 0int,
{
    seq![VisitEvent::Enter(NodeKind::Modification)] + (match x {
        Modification::Empty => Seq::empty(),
        Modification::Class(p) => arguments_trace(p.args@, p.args@.len() as int) + (match p.expr {
        Some(c) => mod_expr_trace(c),
        None => Seq::empty(),
    }),
        Modification::Expression(p) => mod_expr_trace(p),
    }) + seq![VisitEvent::Exit(NodeKind::Modification)]
}

pub open spec fn mod_expr_trace(x: ModExpr) -> Seq<VisitEvent>
    decreases x, 0int,
{
    seq![VisitEvent::Enter(NodeKind::ModExpr)] + (match x {
        ModExpr::Empty => Seq::empty(),
        ModExpr::Break(p) => Seq::empty(),
        ModExpr::Expression(p) => expression_trace(p),
    }) + seq![VisitEvent::Exit(NodeKind::ModExpr)]
}

pub open spec fn classes_trace(s: Seq<ClassDefinition>, k: int) -> Seq<VisitEvent>
    decreases s, k,
{
    if k <= 0 || k > s.len() {
        Seq::empty()
    } else {
        classes_trace(s, k - 1) + class_definition_trace(s[k - 1])
    }
}

pub open spec fn type_specifiers_trace(s: Seq<TypeSpecifier>, k: int) -> Seq<VisitEvent>
    decreases s, k,
{
    if k <= 0 || k > s.len() {
        Seq::empty()
    } else {
        type_specifiers_trace(s, k - 1) + type_specifier_trace(s[k - 1])
    }
}

pub open spec fn import_clauses_trace(s: Seq<ImportClause>, k: int) -> Seq<VisitEvent>
    decreases s, k,
{
    if k <= 0 || k > s.len() {
        Seq::empty()
    } else {
        import_clauses_trace(s, k - 1) + import_clause_trace(s[k - 1])
    }
}

pub open spec fn arguments_trace(s: Seq<Argument>, k: int) -> Seq<VisitEvent>
    decreases s, k,
{
    if k <= 0 || k > s.len() {
        Seq::empty()
    } else {
        arguments_trace(s, k - 1) + argument_trace(s[k - 1])
    }
}

pub open spec fn component_declarations_trace(s: Seq<ComponentDeclaration>, k: int) -> Seq<VisitEvent>
    decreases s, k,
{
    if k <= 0 || k > s.len() {
        Seq::empty()
    } else {
        component_declarations_trace(s, k - 1) + component_declaration_trace(s[k - 1])
    }
}

pub open spec fn equations_trace(s: Seq<Equation>, k: int) -> Seq<VisitEvent>
    decreases s, k,
{
    if k <= 0 || k > s.len() {
        Seq::empty()
    } else {
        equations_trace(s, k - 1) + equation_trace(s[k - 1])
    }
}

pub open spec fn statements_trace(s: Seq<Statement>, k: int) -> Seq<VisitEvent>
    decreases s, k,
{
    if k <= 0 || k > s.len() {
        Seq::empty()
    } else {
        statements_trace(s, k - 1) + statement_trace(s[k - 1])
    }
}

pub open spec fn expressions_trace(s: Seq<Expression>, k: int) -> Seq<VisitEvent>
    decreases s, k,
{
    if k <= 0 || k > s.len() {
        Seq::empty()
    } else {
        expressions_trace(s, k - 1) + expression_trace(s[k - 1])
    }
}

pub open spec fn subscripts_trace(s: Seq<Subscript>, k: int) -> Seq<VisitEvent>
    decreases s, k,
{
    if k <= 0 || k > s.len() {
        Seq::empty()
    } else {
        subscripts_trace(s, k - 1) + subscript_trace(s[k - 1])
    }
}

pub open spec fn ref_parts_trace(s: Seq<RefPart>, k: int) -> Seq<VisitEvent>
    decreases s, k,
{
    if k <= 0 || k > s.len() {
        Seq::empty()
    } else {
        ref_parts_trace(s, k - 1) + ref_part_trace(s[k - 1])
    }
}

pub open spec fn for_indices_trace(s: Seq<ForIndex>, k: int) -> Seq<VisitEvent>
    decreases s, k,
{
    if k <= 0 || k > s.len() {
        Seq::empty()
    } else {
        for_indices_trace(s, k - 1) + for_index_trace(s[k - 1])
    }
}

pub open spec fn equation_if_blocks_trace(s: Seq<EquationIfBlock>, k: int) -> Seq<VisitEvent>
    decreases s, k,
{
    if k <= 0 || k > s.len() {
        Seq::empty()
    } else {
        equation_if_blocks_trace(s, k - 1) + equation_if_block_trace(s[k - 1])
    }
}

pub open spec fn statement_if_blocks_trace(s: Seq<StatementIfBlock>, k: int) -> Seq<VisitEvent>
    decreases s, k,
{
    if k <= 0 || k > s.len() {
        Seq::empty()
    } else {
        statement_if_blocks_trace(s, k - 1) + statement_if_block_trace(s[k - 1])
    }
}

pub open spec fn expression_if_blocks_trace(s: Seq<ExpressionIfBlock>, k: int) -> Seq<VisitEvent>
    decreases s, k,
{
    if k <= 0 || k > s.len() {
        Seq::empty()
    } else {
        expression_if_blocks_trace(s, k - 1) + expression_if_block_trace(s[k - 1])
    }
}

pub open spec fn statement_lists_trace(s: Seq<Vec<Statement>>, k: int) -> Seq<VisitEvent>
    decreases s, k, 1int,
{
    if k <= 0 || k > s.len() {
        Seq::empty()
    } else {
        statement_lists_trace(s, k - 1) + statements_trace(s[k - 1]@, s[k - 1]@.len() as int)
    }
}

/// The event sequence of the node a tagged reference points at.
pub open spec fn node_ref_trace(n: NodeRef<'_>) -> Seq<VisitEvent> {
    match n {
        NodeRef::Causality(x) => causality_trace(*x),
        NodeRef::Variability(x) => variability_trace(*x),
        NodeRef::Visibility(x) => visibility_trace(*x),
        NodeRef::Connection(x) => connection_trace(*x),
        NodeRef::UnaryOp(x) => unary_op_trace(*x),
        NodeRef::BinaryOp(x) => binary_op_trace(*x),
        NodeRef::ClassType(x) => class_type_trace(*x),
        NodeRef::ElementFlags(x) => element_flags_trace(*x),
        NodeRef::Name(x) => name_trace(*x),
        NodeRef::StoredDefinition(x) => stored_definition_trace(*x),
        NodeRef::ClassDefinition(x) => class_definition_trace(*x),
        NodeRef::ImportClause(x) => import_clause_trace(*x),
        NodeRef::ComponentDeclaration(x) => component_declaration_trace(*x),
        NodeRef::ComponentReference(x) => component_reference_trace(*x),
        NodeRef::RefPart(x) => ref_part_trace(*x),
        NodeRef::Description(x) => description_trace(*x),
        NodeRef::ForIndex(x) => for_index_trace(*x),
        NodeRef::EquationIfBlock(x) => equation_if_block_trace(*x),
        NodeRef::StatementIfBlock(x) => statement_if_block_trace(*x),
        NodeRef::ExpressionIfBlock(x) => expression_if_block_trace(*x),
        NodeRef::TypeSpecifier(x) => type_specifier_trace(*x),
        NodeRef::Equation(x) => equation_trace(*x),
        NodeRef::Statement(x) => statement_trace(*x),
        NodeRef::Expression(x) => expression_trace(*x),
        NodeRef::Subscript(x) => subscript_trace(*x),
        NodeRef::Argument(x) => argument_trace(*x),
        NodeRef::Modification(x) => modification_trace(*x),
        NodeRef::ModExpr(x) => mod_expr_trace(*x),
    }
}

/// The event sequence of an owned node.
pub open spec fn node_trace(n: Node) -> Seq<VisitEvent> {
    match n {
        Node::Causality(x) => causality_trace(x),
        Node::Variability(x) => variability_trace(x),
        Node::Visibility(x) => visibility_trace(x),
        Node::Connection(x) => connection_trace(x),
        Node::UnaryOp(x) => unary_op_trace(x),
        Node::BinaryOp(x) => binary_op_trace(x),
        Node::ClassType(x) => class_type_trace(x),
        Node::ElementFlags(x) => element_flags_trace(x),
        Node::Name(x) => name_trace(x),
        Node::StoredDefinition(x) => stored_definition_trace(x),
        Node::ClassDefinition(x) => class_definition_trace(x),
        Node::ImportClause(x) => import_clause_trace(x),
        Node::ComponentDeclaration(x) => component_declaration_trace(x),
        Node::ComponentReference(x) => component_reference_trace(x),
        Node::RefPart(x) => ref_part_trace(x),
        Node::Description(x) => description_trace(x),
        Node::ForIndex(x) => for_index_trace(x),
        Node::EquationIfBlock(x) => equation_if_block_trace(x),
        Node::StatementIfBlock(x) => statement_if_block_trace(x),
        Node::ExpressionIfBlock(x) => expression_if_block_trace(x),
        Node::TypeSpecifier(x) => type_specifier_trace(x),
        Node::Equation(x) => equation_trace(x),
        Node::Statement(x) => statement_trace(x),
        Node::Expression(x) => expression_trace(x),
        Node::Subscript(x) => subscript_trace(x),
        Node::Argument(x) => argument_trace(x),
        Node::Modification(x) => modification_trace(x),
        Node::ModExpr(x) => mod_expr_trace(x),
    }
}

} // verus!
