use vstd::prelude::*;

use crate::ast::{
    Argument, BinaryOp, Causality, ClassDefinition, ClassType, ComponentDeclaration,
    ComponentReference, Connection, Description, ElementFlags, Equation, EquationIfBlock,
    Expression, ExpressionIfBlock, ForIndex, ImportClause, ModExpr, Modification, Name, RefPart,
    Statement, StatementIfBlock, StoredDefinition, Subscript, TypeSpecifier, UnaryOp, Variability,
    Visibility,
};

verus! {

/// Every function here measures the number of nodes a traversal of the
/// corresponding value visits: one for the value itself plus the measure of
/// every child, in the fixed child order that the traversal uses.

pub open spec fn causality_count(x: Causality) -> nat {
    1
}

pub open spec fn variability_count(x: Variability) -> nat {
    1
}

pub open spec fn visibility_count(x: Visibility) -> nat {
    1
}

pub open spec fn connection_count(x: Connection) -> nat {
    1
}

pub open spec fn unary_op_count(x: UnaryOp) -> nat {
    1
}

pub open spec fn binary_op_count(x: BinaryOp) -> nat {
    1
}

pub open spec fn class_type_count(x: ClassType) -> nat {
    1
}

pub open spec fn element_flags_count(x: ElementFlags) -> nat {
    1
}

pub open spec fn name_count(x: Name) -> nat {
    1
}

pub open spec fn stored_definition_count(x: StoredDefinition) -> nat
    decreases x, 0int,
{
    1 + (match x.within { Some(c) => name_count(c), None => 0 }) + classes_count(x.classes@, 0)
}

pub open spec fn class_definition_count(x: ClassDefinition) -> nat
    decreases x, 0int,
{
    1 + class_type_count(x.class_type) + type_specifiers_count(x.extends@, 0) + import_clauses_count(x.imports@, 0) + arguments_count(x.modification@, 0) + component_declarations_count(x.components@, 0) + classes_count(x.classes@, 0) + equations_count(x.equations@, 0) + statement_lists_count(x.algorithms@, 0) + equations_count(x.initial_equations@, 0) + statement_lists_count(x.initial_algorithms@, 0)
}

pub open spec fn import_clause_count(x: ImportClause) -> nat
    decreases x, 0int,
{
    1 + name_count(x.name) + (match x.description { Some(c) => description_count(c), None => 0 })
}

pub open spec fn component_declaration_count(x: ComponentDeclaration) -> nat
    decreases x, 0int,
{
    1 + type_specifier_count(x.type_specifier) + element_flags_count(x.flags) + connection_count(x.connection) + variability_count(x.variability) + causality_count(x.causality) + visibility_count(x.visibility) + subscripts_count(x.array_subscripts@, 0) + (match x.modification { Some(c) => modification_count(c), None => 0 }) + (match x.condition_attribute { Some(c) => expression_count(c), None => 0 }) + (match x.description { Some(c) => description_count(c), None => 0 })
}

pub open spec fn component_reference_count(x: ComponentReference) -> nat
    decreases x, 0int,
{
    1 + ref_parts_count(x.parts@, 0)
}

pub open spec fn ref_part_count(x: RefPart) -> nat
    decreases x, 0int,
{
    1 + subscripts_count(x.array_subscripts@, 0)
}

pub open spec fn description_count(x: Description) -> nat
    decreases x, 0int,
{
    1 + arguments_count(x.annotation@, 0)
}

pub open spec fn for_index_count(x: ForIndex) -> nat
    decreases x, 0int,
{
    1 + (match x.in_expr { Some(c) => expression_count(c), None => 0 })
}

pub open spec fn equation_if_block_count(x: EquationIfBlock) -> nat
    decreases x, 0int,
{
    1 + expression_count(x.cond) + equations_count(x.eqs@, 0)
}

pub open spec fn statement_if_block_count(x: StatementIfBlock) -> nat
    decreases x, 0int,
{
    1 + expression_count(x.cond) + statements_count(x.stmts@, 0)
}

pub open spec fn expression_if_block_count(x: ExpressionIfBlock) -> nat
    decreases x, 0int,
{
    1 + expression_count(x.cond) + expression_count(x.expr)
}

pub open spec fn type_specifier_count(x: TypeSpecifier) -> nat
    decreases x, 0int,
{
    1 + name_count(x.name)
}

pub open spec fn equation_count(x: Equation) -> nat
    decreases x, 0int,
{
    match x {
        Equation::Empty => 1,
        Equation::Connect(p) => 1 + component_reference_count(p.lhs) + component_reference_count(p.rhs) + (match p.description { Some(c) => description_count(c), None => 0 }),
        Equation::For(p) => 1 + for_indices_count(p.indices@, 0) + equations_count(p.eqs@, 0) + (match p.description { Some(c) => description_count(c), None => 0 }),
        Equation::If(p) => 1 + equation_if_blocks_count(p.if_blocks@, 0) + equations_count(p.else_eqs@, 0) + (match p.description { Some(c) => description_count(c), None => 0 }),
        Equation::Simple(p) => 1 + expression_count(p.lhs) + expression_count(p.rhs) + (match p.description { Some(c) => description_count(c), None => 0 }),
    }
}

pub open spec fn statement_count(x: Statement) -> nat
    decreases x, 0int,
{
    match x {
        Statement::Empty => 1,
        Statement::Assignment(p) => 1 + component_reference_count(p.comp) + expression_count(p.rhs) + (match p.description { Some(c) => description_count(c), None => 0 }),
        Statement::Break(p) => 1 + (match p.description { Some(c) => description_count(c), None => 0 }),
        Statement::For(p) => 1 + for_indices_count(p.indices@, 0) + statements_count(p.stmts@, 0) + (match p.description { Some(c) => description_count(c), None => 0 }),
        Statement::If(p) => 1 + statement_if_blocks_count(p.if_blocks@, 0) + statements_count(p.else_stmts@, 0) + (match p.description { Some(c) => description_count(c), None => 0 }),
        Statement::Return(p) => 1 + (match p.description { Some(c) => description_count(c), None => 0 }),
        Statement::While(p) => 1 + expression_count(p.cond) + statements_count(p.stmts@, 0) + (match p.description { Some(c) => description_count(c), None => 0 }),
    }
}

pub open spec fn expression_count(x: Expression) -> nat
    decreases x, 0int,
{
    match x {
        Expression::Empty => 1,
        Expression::Array(p) => 1 + expressions_count(p.args@, 0),
        Expression::Binary(p) => 1 + binary_op_count(p.op) + expression_count(*p.lhs) + expression_count(*p.rhs),
        Expression::Boolean(p) => 1,
        Expression::FunctionCall(p) => 1 + component_reference_count(p.comp) + expressions_count(p.args@, 0),
        Expression::If(p) => 1 + expression_if_blocks_count(p.if_blocks@, 0) + (match p.else_expr { Some(c) => expression_count(*c), None => 0 }),
        Expression::Ref(p) => 1 + component_reference_count(p),
        Expression::Unary(p) => 1 + unary_op_count(p.op) + expression_count(*p.rhs),
        Expression::UnsignedInteger(p) => 1,
        Expression::UnsignedReal(p) => 1,
    }
}

pub open spec fn subscript_count(x: Subscript) -> nat
    decreases x, 0int,
{
    match x {
        Subscript::Empty => 1,
        Subscript::Range(p) => 1,
        Subscript::Expression(p) => 1 + expression_count(p),
    }
}

pub open spec fn argument_count(x: Argument) -> nat
    decreases x, 0int,
{
    match x {
        Argument::Empty => 1,
        Argument::Modification(p) => 1 + name_count(p.name) + (match p.modification { Some(c) => modification_count(c), None => 0 }) + (match p.description { Some(c) => description_count(c), None => 0 }),
        Argument::Redeclaration(p) => 1,
        Argument::Replaceable(p) => 1,
    }
}

pub open spec fn modification_count(x: Modification) -> nat
    decreases x, 0int,
{
    match x {
        Modification::Empty => 1,
        Modification::Class(p) => 1 + arguments_count(p.args@, 0) + (match p.expr { Some(c) => mod_expr_count(c), None => 0 }),
        Modification::Expression(p) => 1 + mod_expr_count(p),
    }
}

pub open spec fn mod_expr_count(x: ModExpr) -> nat
    decreases x, 0int,
{
    match x {
        ModExpr::Empty => 1,
        ModExpr::Break(p) => 1,
        ModExpr::Expression(p) => 1 + expression_count(p),
    }
}

pub open spec fn classes_count(s: Seq<ClassDefinition>, i: int) -> nat
    decreases s, s.len() - i,
{
    if i < 0 || i >= s.len() {
        0
    } else {
        class_definition_count(s[i]) + classes_count(s, i + 1)
    }
}

pub open spec fn type_specifiers_count(s: Seq<TypeSpecifier>, i: int) -> nat
    decreases s, s.len() - i,
{
    if i < 0 || i >= s.len() {
        0
    } else {
        type_specifier_count(s[i]) + type_specifiers_count(s, i + 1)
    }
}

pub open spec fn import_clauses_count(s: Seq<ImportClause>, i: int) -> nat
    decreases s, s.len() - i,
{
    if i < 0 || i >= s.len() {
        0
    } else {
        import_clause_count(s[i]) + import_clauses_count(s, i + 1)
    }
}

pub open spec fn arguments_count(s: Seq<Argument>, i: int) -> nat
    decreases s, s.len() - i,
{
    if i < 0 || i >= s.len() {
        0
    } else {
        argument_count(s[i]) + arguments_count(s, i + 1)
    }
}

pub open spec fn component_declarations_count(s: Seq<ComponentDeclaration>, i: int) -> nat
    decreases s, s.len() - i,
{
    if i < 0 || i >= s.len() {
        0
    } else {
        component_declaration_count(s[i]) + component_declarations_count(s, i + 1)
    }
}

pub open spec fn equations_count(s: Seq<Equation>, i: int) -> nat
    decreases s, s.len() - i,
{
    if i < 0 || i >= s.len() {
        0
    } else {
        equation_count(s[i]) + equations_count(s, i + 1)
    }
}

pub open spec fn statements_count(s: Seq<Statement>, i: int) -> nat
    decreases s, s.len() - i,
{
    if i < 0 || i >= s.len() {
        0
    } else {
        statement_count(s[i]) + statements_count(s, i + 1)
    }
}

pub open spec fn expressions_count(s: Seq<Expression>, i: int) -> nat
    decreases s, s.len() - i,
{
    if i < 0 || i >= s.len() {
        0
    } else {
        expression_count(s[i]) + expressions_count(s, i + 1)
    }
}

pub open spec fn subscripts_count(s: Seq<Subscript>, i: int) -> nat
    decreases s, s.len() - i,
{
    if i < 0 || i >= s.len() {
        0
    } else {
        subscript_count(s[i]) + subscripts_count(s, i + 1)
    }
}

pub open spec fn ref_parts_count(s: Seq<RefPart>, i: int) -> nat
    decreases s, s.len() - i,
{
    if i < 0 || i >= s.len() {
        0
    } else {
        ref_part_count(s[i]) + ref_parts_count(s, i + 1)
    }
}

pub open spec fn for_indices_count(s: Seq<ForIndex>, i: int) -> nat
    decreases s, s.len() - i,
{
    if i < 0 || i >= s.len() {
        0
    } else {
        for_index_count(s[i]) + for_indices_count(s, i + 1)
    }
}

pub open spec fn equation_if_blocks_count(s: Seq<EquationIfBlock>, i: int) -> nat
    decreases s, s.len() - i,
{
    if i < 0 || i >= s.len() {
        0
    } else {
        equation_if_block_count(s[i]) + equation_if_blocks_count(s, i + 1)
    }
}

pub open spec fn statement_if_blocks_count(s: Seq<StatementIfBlock>, i: int) -> nat
    decreases s, s.len() - i,
{
    if i < 0 || i >= s.len() {
        0
    } else {
        statement_if_block_count(s[i]) + statement_if_blocks_count(s, i + 1)
    }
}

pub open spec fn expression_if_blocks_count(s: Seq<ExpressionIfBlock>, i: int) -> nat
    decreases s, s.len() - i,
{
    if i < 0 || i >= s.len() {
        0
    } else {
        expression_if_block_count(s[i]) + expression_if_blocks_count(s, i + 1)
    }
}

pub open spec fn statement_lists_count(s: Seq<Vec<Statement>>, i: int) -> nat
    decreases s, s.len() - i, 1int,
{
    if i < 0 || i >= s.len() {
        0
    } else {
        statements_count(s[i]@, 0) + statement_lists_count(s, i + 1)
    }
}

pub proof fn lemma_classes_count_split(s: Seq<ClassDefinition>, i: int)
    requires
        0 <= i < s.len(),
    ensures
        classes_count(s, i) == class_definition_count(s[i]) + classes_count(s, i + 1),
        classes_count(s, i) >= class_definition_count(s[i]),
{
}

pub proof fn lemma_classes_count_prefix(s: Seq<ClassDefinition>, k: int)
    requires
        0 <= k <= s.len(),
    ensures
        classes_count(s, 0) >= classes_count(s, k),
    decreases k,
{
    if k > 0 {
        lemma_classes_count_prefix(s, k - 1);
        lemma_classes_count_split(s, k - 1);
    }
}

pub proof fn lemma_classes_count_update(s1: Seq<ClassDefinition>, s2: Seq<ClassDefinition>, i: int, k: int)
    requires
        0 <= i < s1.len(),
        s2 == s1.update(i, s2[i]),
        class_definition_count(s2[i]) == class_definition_count(s1[i]),
        0 <= k <= s1.len(),
    ensures
        classes_count(s2, k) == classes_count(s1, k),
    decreases s1.len() - k,
{
    if k < s1.len() {
        lemma_classes_count_update(s1, s2, i, k + 1);
    }
}

pub proof fn lemma_type_specifiers_count_split(s: Seq<TypeSpecifier>, i: int)
    requires
        0 <= i < s.len(),
    ensures
        type_specifiers_count(s, i) == type_specifier_count(s[i]) + type_specifiers_count(s, i + 1),
        type_specifiers_count(s, i) >= type_specifier_count(s[i]),
{
}

pub proof fn lemma_type_specifiers_count_prefix(s: Seq<TypeSpecifier>, k: int)
    requires
        0 <= k <= s.len(),
    ensures
        type_specifiers_count(s, 0) >= type_specifiers_count(s, k),
    decreases k,
{
    if k > 0 {
        lemma_type_specifiers_count_prefix(s, k - 1);
        lemma_type_specifiers_count_split(s, k - 1);
    }
}

pub proof fn lemma_type_specifiers_count_update(s1: Seq<TypeSpecifier>, s2: Seq<TypeSpecifier>, i: int, k: int)
    requires
        0 <= i < s1.len(),
        s2 == s1.update(i, s2[i]),
        type_specifier_count(s2[i]) == type_specifier_count(s1[i]),
        0 <= k <= s1.len(),
    ensures
        type_specifiers_count(s2, k) == type_specifiers_count(s1, k),
    decreases s1.len() - k,
{
    if k < s1.len() {
        lemma_type_specifiers_count_update(s1, s2, i, k + 1);
    }
}

pub proof fn lemma_import_clauses_count_split(s: Seq<ImportClause>, i: int)
    requires
        0 <= i < s.len(),
    ensures
        import_clauses_count(s, i) == import_clause_count(s[i]) + import_clauses_count(s, i + 1),
        import_clauses_count(s, i) >= import_clause_count(s[i]),
{
}

pub proof fn lemma_import_clauses_count_prefix(s: Seq<ImportClause>, k: int)
    requires
        0 <= k <= s.len(),
    ensures
        import_clauses_count(s, 0) >= import_clauses_count(s, k),
    decreases k,
{
    if k > 0 {
        lemma_import_clauses_count_prefix(s, k - 1);
        lemma_import_clauses_count_split(s, k - 1);
    }
}

pub proof fn lemma_import_clauses_count_update(s1: Seq<ImportClause>, s2: Seq<ImportClause>, i: int, k: int)
    requires
        0 <= i < s1.len(),
        s2 == s1.update(i, s2[i]),
        import_clause_count(s2[i]) == import_clause_count(s1[i]),
        0 <= k <= s1.len(),
    ensures
        import_clauses_count(s2, k) == import_clauses_count(s1, k),
    decreases s1.len() - k,
{
    if k < s1.len() {
        lemma_import_clauses_count_update(s1, s2, i, k + 1);
    }
}

pub proof fn lemma_arguments_count_split(s: Seq<Argument>, i: int)
    requires
        0 <= i < s.len(),
    ensures
        arguments_count(s, i) == argument_count(s[i]) + arguments_count(s, i + 1),
        arguments_count(s, i) >= argument_count(s[i]),
{
}

pub proof fn lemma_arguments_count_prefix(s: Seq<Argument>, k: int)
    requires
        0 <= k <= s.len(),
    ensures
        arguments_count(s, 0) >= arguments_count(s, k),
    decreases k,
{
    if k > 0 {
        lemma_arguments_count_prefix(s, k - 1);
        lemma_arguments_count_split(s, k - 1);
    }
}

pub proof fn lemma_arguments_count_update(s1: Seq<Argument>, s2: Seq<Argument>, i: int, k: int)
    requires
        0 <= i < s1.len(),
        s2 == s1.update(i, s2[i]),
        argument_count(s2[i]) == argument_count(s1[i]),
        0 <= k <= s1.len(),
    ensures
        arguments_count(s2, k) == arguments_count(s1, k),
    decreases s1.len() - k,
{
    if k < s1.len() {
        lemma_arguments_count_update(s1, s2, i, k + 1);
    }
}

pub proof fn lemma_component_declarations_count_split(s: Seq<ComponentDeclaration>, i: int)
    requires
        0 <= i < s.len(),
    ensures
        component_declarations_count(s, i) == component_declaration_count(s[i]) + component_declarations_count(s, i + 1),
        component_declarations_count(s, i) >= component_declaration_count(s[i]),
{
}

pub proof fn lemma_component_declarations_count_prefix(s: Seq<ComponentDeclaration>, k: int)
    requires
        0 <= k <= s.len(),
    ensures
        component_declarations_count(s, 0) >= component_declarations_count(s, k),
    decreases k,
{
    if k > 0 {
        lemma_component_declarations_count_prefix(s, k - 1);
        lemma_component_declarations_count_split(s, k - 1);
    }
}

pub proof fn lemma_component_declarations_count_update(s1: Seq<ComponentDeclaration>, s2: Seq<ComponentDeclaration>, i: int, k: int)
    requires
        0 <= i < s1.len(),
        s2 == s1.update(i, s2[i]),
        component_declaration_count(s2[i]) == component_declaration_count(s1[i]),
        0 <= k <= s1.len(),
    ensures
        component_declarations_count(s2, k) == component_declarations_count(s1, k),
    decreases s1.len() - k,
{
    if k < s1.len() {
        lemma_component_declarations_count_update(s1, s2, i, k + 1);
    }
}

pub proof fn lemma_equations_count_split(s: Seq<Equation>, i: int)
    requires
        0 <= i < s.len(),
    ensures
        equations_count(s, i) == equation_count(s[i]) + equations_count(s, i + 1),
        equations_count(s, i) >= equation_count(s[i]),
{
}

pub proof fn lemma_equations_count_prefix(s: Seq<Equation>, k: int)
    requires
        0 <= k <= s.len(),
    ensures
        equations_count(s, 0) >= equations_count(s, k),
    decreases k,
{
    if k > 0 {
        lemma_equations_count_prefix(s, k - 1);
        lemma_equations_count_split(s, k - 1);
    }
}

pub proof fn lemma_equations_count_update(s1: Seq<Equation>, s2: Seq<Equation>, i: int, k: int)
    requires
        0 <= i < s1.len(),
        s2 == s1.update(i, s2[i]),
        equation_count(s2[i]) == equation_count(s1[i]),
        0 <= k <= s1.len(),
    ensures
        equations_count(s2, k) == equations_count(s1, k),
    decreases s1.len() - k,
{
    if k < s1.len() {
        lemma_equations_count_update(s1, s2, i, k + 1);
    }
}

pub proof fn lemma_statements_count_split(s: Seq<Statement>, i: int)
    requires
        0 <= i < s.len(),
    ensures
        statements_count(s, i) == statement_count(s[i]) + statements_count(s, i + 1),
        statements_count(s, i) >= statement_count(s[i]),
{
}

pub proof fn lemma_statements_count_prefix(s: Seq<Statement>, k: int)
    requires
        0 <= k <= s.len(),
    ensures
        statements_count(s, 0) >= statements_count(s, k),
    decreases k,
{
    if k > 0 {
        lemma_statements_count_prefix(s, k - 1);
        lemma_statements_count_split(s, k - 1);
    }
}

pub proof fn lemma_statements_count_update(s1: Seq<Statement>, s2: Seq<Statement>, i: int, k: int)
    requires
        0 <= i < s1.len(),
        s2 == s1.update(i, s2[i]),
        statement_count(s2[i]) == statement_count(s1[i]),
        0 <= k <= s1.len(),
    ensures
        statements_count(s2, k) == statements_count(s1, k),
    decreases s1.len() - k,
{
    if k < s1.len() {
        lemma_statements_count_update(s1, s2, i, k + 1);
    }
}

pub proof fn lemma_expressions_count_split(s: Seq<Expression>, i: int)
    requires
        0 <= i < s.len(),
    ensures
        expressions_count(s, i) == expression_count(s[i]) + expressions_count(s, i + 1),
        expressions_count(s, i) >= expression_count(s[i]),
{
}

pub proof fn lemma_expressions_count_prefix(s: Seq<Expression>, k: int)
    requires
        0 <= k <= s.len(),
    ensures
        expressions_count(s, 0) >= expressions_count(s, k),
    decreases k,
{
    if k > 0 {
        lemma_expressions_count_prefix(s, k - 1);
        lemma_expressions_count_split(s, k - 1);
    }
}

pub proof fn lemma_expressions_count_update(s1: Seq<Expression>, s2: Seq<Expression>, i: int, k: int)
    requires
        0 <= i < s1.len(),
        s2 == s1.update(i, s2[i]),
        expression_count(s2[i]) == expression_count(s1[i]),
        0 <= k <= s1.len(),
    ensures
        expressions_count(s2, k) == expressions_count(s1, k),
    decreases s1.len() - k,
{
    if k < s1.len() {
        lemma_expressions_count_update(s1, s2, i, k + 1);
    }
}

pub proof fn lemma_subscripts_count_split(s: Seq<Subscript>, i: int)
    requires
        0 <= i < s.len(),
    ensures
        subscripts_count(s, i) == subscript_count(s[i]) + subscripts_count(s, i + 1),
        subscripts_count(s, i) >= subscript_count(s[i]),
{
}

pub proof fn lemma_subscripts_count_prefix(s: Seq<Subscript>, k: int)
    requires
        0 <= k <= s.len(),
    ensures
        subscripts_count(s, 0) >= subscripts_count(s, k),
    decreases k,
{
    if k > 0 {
        lemma_subscripts_count_prefix(s, k - 1);
        lemma_subscripts_count_split(s, k - 1);
    }
}

pub proof fn lemma_subscripts_count_update(s1: Seq<Subscript>, s2: Seq<Subscript>, i: int, k: int)
    requires
        0 <= i < s1.len(),
        s2 == s1.update(i, s2[i]),
        subscript_count(s2[i]) == subscript_count(s1[i]),
        0 <= k <= s1.len(),
    ensures
        subscripts_count(s2, k) == subscripts_count(s1, k),
    decreases s1.len() - k,
{
    if k < s1.len() {
        lemma_subscripts_count_update(s1, s2, i, k + 1);
    }
}

pub proof fn lemma_ref_parts_count_split(s: Seq<RefPart>, i: int)
    requires
        0 <= i < s.len(),
    ensures
        ref_parts_count(s, i) == ref_part_count(s[i]) + ref_parts_count(s, i + 1),
        ref_parts_count(s, i) >= ref_part_count(s[i]),
{
}

pub proof fn lemma_ref_parts_count_prefix(s: Seq<RefPart>, k: int)
    requires
        0 <= k <= s.len(),
    ensures
        ref_parts_count(s, 0) >= ref_parts_count(s, k),
    decreases k,
{
    if k > 0 {
        lemma_ref_parts_count_prefix(s, k - 1);
        lemma_ref_parts_count_split(s, k - 1);
    }
}

pub proof fn lemma_ref_parts_count_update(s1: Seq<RefPart>, s2: Seq<RefPart>, i: int, k: int)
    requires
        0 <= i < s1.len(),
        s2 == s1.update(i, s2[i]),
        ref_part_count(s2[i]) == ref_part_count(s1[i]),
        0 <= k <= s1.len(),
    ensures
        ref_parts_count(s2, k) == ref_parts_count(s1, k),
    decreases s1.len() - k,
{
    if k < s1.len() {
        lemma_ref_parts_count_update(s1, s2, i, k + 1);
    }
}

pub proof fn lemma_for_indices_count_split(s: Seq<ForIndex>, i: int)
    requires
        0 <= i < s.len(),
    ensures
        for_indices_count(s, i) == for_index_count(s[i]) + for_indices_count(s, i + 1),
        for_indices_count(s, i) >= for_index_count(s[i]),
{
}

pub proof fn lemma_for_indices_count_prefix(s: Seq<ForIndex>, k: int)
    requires
        0 <= k <= s.len(),
    ensures
        for_indices_count(s, 0) >= for_indices_count(s, k),
    decreases k,
{
    if k > 0 {
        lemma_for_indices_count_prefix(s, k - 1);
        lemma_for_indices_count_split(s, k - 1);
    }
}

pub proof fn lemma_for_indices_count_update(s1: Seq<ForIndex>, s2: Seq<ForIndex>, i: int, k: int)
    requires
        0 <= i < s1.len(),
        s2 == s1.update(i, s2[i]),
        for_index_count(s2[i]) == for_index_count(s1[i]),
        0 <= k <= s1.len(),
    ensures
        for_indices_count(s2, k) == for_indices_count(s1, k),
    decreases s1.len() - k,
{
    if k < s1.len() {
        lemma_for_indices_count_update(s1, s2, i, k + 1);
    }
}

pub proof fn lemma_equation_if_blocks_count_split(s: Seq<EquationIfBlock>, i: int)
    requires
        0 <= i < s.len(),
    ensures
        equation_if_blocks_count(s, i) == equation_if_block_count(s[i]) + equation_if_blocks_count(s, i + 1),
        equation_if_blocks_count(s, i) >= equation_if_block_count(s[i]),
{
}

pub proof fn lemma_equation_if_blocks_count_prefix(s: Seq<EquationIfBlock>, k: int)
    requires
        0 <= k <= s.len(),
    ensures
        equation_if_blocks_count(s, 0) >= equation_if_blocks_count(s, k),
    decreases k,
{
    if k > 0 {
        lemma_equation_if_blocks_count_prefix(s, k - 1);
        lemma_equation_if_blocks_count_split(s, k - 1);
    }
}

pub proof fn lemma_equation_if_blocks_count_update(s1: Seq<EquationIfBlock>, s2: Seq<EquationIfBlock>, i: int, k: int)
    requires
        0 <= i < s1.len(),
        s2 == s1.update(i, s2[i]),
        equation_if_block_count(s2[i]) == equation_if_block_count(s1[i]),
        0 <= k <= s1.len(),
    ensures
        equation_if_blocks_count(s2, k) == equation_if_blocks_count(s1, k),
    decreases s1.len() - k,
{
    if k < s1.len() {
        lemma_equation_if_blocks_count_update(s1, s2, i, k + 1);
    }
}

pub proof fn lemma_statement_if_blocks_count_split(s: Seq<StatementIfBlock>, i: int)
    requires
        0 <= i < s.len(),
    ensures
        statement_if_blocks_count(s, i) == statement_if_block_count(s[i]) + statement_if_blocks_count(s, i + 1),
        statement_if_blocks_count(s, i) >= statement_if_block_count(s[i]),
{
}

pub proof fn lemma_statement_if_blocks_count_prefix(s: Seq<StatementIfBlock>, k: int)
    requires
        0 <= k <= s.len(),
    ensures
        statement_if_blocks_count(s, 0) >= statement_if_blocks_count(s, k),
    decreases k,
{
    if k > 0 {
        lemma_statement_if_blocks_count_prefix(s, k - 1);
        lemma_statement_if_blocks_count_split(s, k - 1);
    }
}

pub proof fn lemma_statement_if_blocks_count_update(s1: Seq<StatementIfBlock>, s2: Seq<StatementIfBlock>, i: int, k: int)
    requires
        0 <= i < s1.len(),
        s2 == s1.update(i, s2[i]),
        statement_if_block_count(s2[i]) == statement_if_block_count(s1[i]),
        0 <= k <= s1.len(),
    ensures
        statement_if_blocks_count(s2, k) == statement_if_blocks_count(s1, k),
    decreases s1.len() - k,
{
    if k < s1.len() {
        lemma_statement_if_blocks_count_update(s1, s2, i, k + 1);
    }
}

pub proof fn lemma_expression_if_blocks_count_split(s: Seq<ExpressionIfBlock>, i: int)
    requires
        0 <= i < s.len(),
    ensures
        expression_if_blocks_count(s, i) == expression_if_block_count(s[i]) + expression_if_blocks_count(s, i + 1),
        expression_if_blocks_count(s, i) >= expression_if_block_count(s[i]),
{
}

pub proof fn lemma_expression_if_blocks_count_prefix(s: Seq<ExpressionIfBlock>, k: int)
    requires
        0 <= k <= s.len(),
    ensures
        expression_if_blocks_count(s, 0) >= expression_if_blocks_count(s, k),
    decreases k,
{
    if k > 0 {
        lemma_expression_if_blocks_count_prefix(s, k - 1);
        lemma_expression_if_blocks_count_split(s, k - 1);
    }
}

pub proof fn lemma_expression_if_blocks_count_update(s1: Seq<ExpressionIfBlock>, s2: Seq<ExpressionIfBlock>, i: int, k: int)
    requires
        0 <= i < s1.len(),
        s2 == s1.update(i, s2[i]),
        expression_if_block_count(s2[i]) == expression_if_block_count(s1[i]),
        0 <= k <= s1.len(),
    ensures
        expression_if_blocks_count(s2, k) == expression_if_blocks_count(s1, k),
    decreases s1.len() - k,
{
    if k < s1.len() {
        lemma_expression_if_blocks_count_update(s1, s2, i, k + 1);
    }
}

pub proof fn lemma_statement_lists_count_split(s: Seq<Vec<Statement>>, i: int)
    requires
        0 <= i < s.len(),
    ensures
        statement_lists_count(s, i) == statements_count(s[i]@, 0) + statement_lists_count(s, i + 1),
        statement_lists_count(s, i) >= statements_count(s[i]@, 0),
{
}

pub proof fn lemma_statement_lists_count_prefix(s: Seq<Vec<Statement>>, k: int)
    requires
        0 <= k <= s.len(),
    ensures
        statement_lists_count(s, 0) >= statement_lists_count(s, k),
    decreases k,
{
    if k > 0 {
        lemma_statement_lists_count_prefix(s, k - 1);
        lemma_statement_lists_count_split(s, k - 1);
    }
}

pub proof fn lemma_statement_lists_count_update(s1: Seq<Vec<Statement>>, s2: Seq<Vec<Statement>>, i: int, k: int)
    requires
        0 <= i < s1.len(),
        s2 == s1.update(i, s2[i]),
        statements_count(s2[i]@, 0) == statements_count(s1[i]@, 0),
        0 <= k <= s1.len(),
    ensures
        statement_lists_count(s2, k) == statement_lists_count(s1, k),
    decreases s1.len() - k,
{
    if k < s1.len() {
        lemma_statement_lists_count_update(s1, s2, i, k + 1);
    }
}

} // verus!
