use vstd::prelude::*;

use crate::ast::{
    Argument, ClassDefinition, ComponentDeclaration, ComponentReference, Description, Equation,
    EquationIfBlock, Expression, ExpressionIfBlock, ForIndex, ImportClause, ModExpr, Modification,
    RefPart, Statement, StatementIfBlock, StoredDefinition, Subscript,
};

verus! {

/// Every structural node carries one id in its NodeData, assigned once at
/// construction by the parse's ParserContext. The functions here collect the
/// ids a subtree holds, children first and the node's own id last, in the
/// fixed child order that construction uses.

/// No id occurs twice in the sequence.
pub open spec fn no_dups(s: Seq<int>) -> bool {
    forall|i: int, j: int| 0 <= i < j < s.len() ==> s[i] != s[j]
}

/// Every id in the sequence lies in the half-open range `lo .. hi`.
pub open spec fn ids_in(s: Seq<int>, lo: int, hi: int) -> bool {
    forall|i: int| 0 <= i < s.len() ==> lo <= #[trigger] s[i] < hi
}

/// The sequence holds pairwise distinct ids, all in `lo .. hi`.
pub open spec fn ids_ok(s: Seq<int>, lo: int, hi: int) -> bool {
    ids_in(s, lo, hi) && no_dups(s)
}

pub proof fn lemma_ids_ok_concat(a: Seq<int>, b: Seq<int>, lo: int, m: int, hi: int)
    requires
        lo <= m <= hi,
        ids_ok(a, lo, m),
        ids_ok(b, m, hi),
    ensures
        ids_ok(a + b, lo, hi),
{
    let c = a + b;
    assert forall|i: int| 0 <= i < c.len() implies lo <= #[trigger] c[i] < hi by {
        if i < a.len() {
            assert(c[i] == a[i]);
        } else {
            assert(c[i] == b[i - a.len()]);
        }
    }
    assert forall|i: int, j: int| 0 <= i < j < c.len() implies c[i] != c[j] by {
        if j < a.len() {
            assert(c[i] == a[i] && c[j] == a[j]);
        } else if i >= a.len() {
            assert(c[i] == b[i - a.len()] && c[j] == b[j - a.len()]);
        } else {
            assert(c[i] == a[i] && c[j] == b[j - a.len()]);
        }
    }
}

pub proof fn lemma_ids_ok_widen(s: Seq<int>, lo: int, hi: int, lo2: int, hi2: int)
    requires
        ids_ok(s, lo, hi),
        lo2 <= lo,
        hi <= hi2,
    ensures
        ids_ok(s, lo2, hi2),
{
}

/// Splicing a block of fresh ids into the middle of a sequence of older ids
/// keeps all ids distinct.
pub proof fn lemma_ids_ok_insert(x: Seq<int>, n: Seq<int>, y: Seq<int>, lo: int, m: int, hi: int)
    requires
        lo <= m <= hi,
        ids_ok(x + y, lo, m),
        ids_ok(n, m, hi),
    ensures
        ids_ok(x + n + y, lo, hi),
{
    let xy = x + y;
    let c = x + n + y;
    assert forall|i: int| 0 <= i < c.len() implies lo <= #[trigger] c[i] < hi by {
        if i < x.len() {
            assert(c[i] == xy[i]);
        } else if i < x.len() + n.len() {
            assert(c[i] == n[i - x.len()]);
        } else {
            assert(c[i] == xy[i - n.len()]);
        }
    }
    assert forall|i: int, j: int| 0 <= i < j < c.len() implies c[i] != c[j] by {
        let xl = x.len() as int;
        let nl = n.len() as int;
        let pick = |k: int| if k < xl { xy[k] } else if k < xl + nl { n[k - xl] } else { xy[k - nl] };
        assert(c[i] == pick(i));
        assert(c[j] == pick(j));
    }
}

pub open spec fn stored_definition_ids(x: StoredDefinition) -> Seq<int>
    decreases x, 0int,
{
    classes_ids(x.classes@, 0) + seq![x.node_data.id as int]
}

pub open spec fn class_definition_ids(x: ClassDefinition) -> Seq<int>
    decreases x, 0int,
{
    import_clauses_ids(x.imports@, 0) + arguments_ids(x.modification@, 0) + component_declarations_ids(x.components@, 0) + classes_ids(x.classes@, 0) + equations_ids(x.equations@, 0) + statement_lists_ids(x.algorithms@, 0) + equations_ids(x.initial_equations@, 0) + statement_lists_ids(x.initial_algorithms@, 0) + seq![x.node_data.id as int]
}

pub open spec fn import_clause_ids(x: ImportClause) -> Seq<int>
    decreases x, 0int,
{
    (match x.description { Some(c) => description_ids(c), None => Seq::empty() }) + seq![x.node_data.id as int]
}

pub open spec fn component_declaration_ids(x: ComponentDeclaration) -> Seq<int>
    decreases x, 0int,
{
    subscripts_ids(x.array_subscripts@, 0) + (match x.modification { Some(c) => modification_ids(c), None => Seq::empty() }) + (match x.condition_attribute { Some(c) => expression_ids(c), None => Seq::empty() }) + (match x.description { Some(c) => description_ids(c), None => Seq::empty() }) + seq![x.node_data.id as int]
}

pub open spec fn component_reference_ids(x: ComponentReference) -> Seq<int>
    decreases x, 0int,
{
    ref_parts_ids(x.parts@, 0) + seq![x.node_data.id as int]
}

pub open spec fn ref_part_ids(x: RefPart) -> Seq<int>
    decreases x, 0int,
{
    subscripts_ids(x.array_subscripts@, 0) + seq![x.node_data.id as int]
}

pub open spec fn description_ids(x: Description) -> Seq<int>
    decreases x, 0int,
{
    arguments_ids(x.annotation@, 0) + seq![x.node_data.id as int]
}

pub open spec fn for_index_ids(x: ForIndex) -> Seq<int>
    decreases x, 0int,
{
    (match x.in_expr { Some(c) => expression_ids(c), None => Seq::empty() }) + seq![x.node_data.id as int]
}

pub open spec fn equation_if_block_ids(x: EquationIfBlock) -> Seq<int>
    decreases x, 0int,
{
    expression_ids(x.cond) + equations_ids(x.eqs@, 0) + seq![x.node_data.id as int]
}

pub open spec fn statement_if_block_ids(x: StatementIfBlock) -> Seq<int>
    decreases x, 0int,
{
    expression_ids(x.cond) + statements_ids(x.stmts@, 0) + seq![x.node_data.id as int]
}

pub open spec fn expression_if_block_ids(x: ExpressionIfBlock) -> Seq<int>
    decreases x, 0int,
{
    expression_ids(x.cond) + expression_ids(x.expr) + seq![x.node_data.id as int]
}

pub open spec fn equation_ids(x: Equation) -> Seq<int>
    decreases x, 0int,
{
    match x {
        Equation::Empty => Seq::empty(),
        Equation::Connect(p) => component_reference_ids(p.lhs) + component_reference_ids(p.rhs) + (match p.description { Some(c) => description_ids(c), None => Seq::empty() }) + seq![p.node_data.id as int],
        Equation::For(p) => for_indices_ids(p.indices@, 0) + equations_ids(p.eqs@, 0) + (match p.description { Some(c) => description_ids(c), None => Seq::empty() }) + seq![p.node_data.id as int],
        Equation::If(p) => equation_if_blocks_ids(p.if_blocks@, 0) + equations_ids(p.else_eqs@, 0) + (match p.description { Some(c) => description_ids(c), None => Seq::empty() }) + seq![p.node_data.id as int],
        Equation::Simple(p) => expression_ids(p.lhs) + expression_ids(p.rhs) + (match p.description { Some(c) => description_ids(c), None => Seq::empty() }) + seq![p.node_data.id as int],
    }
}

pub open spec fn statement_ids(x: Statement) -> Seq<int>
    decreases x, 0int,
{
    match x {
        Statement::Empty => Seq::empty(),
        Statement::Assignment(p) => component_reference_ids(p.comp) + expression_ids(p.rhs) + (match p.description { Some(c) => description_ids(c), None => Seq::empty() }) + seq![p.node_data.id as int],
        Statement::Break(p) => (match p.description { Some(c) => description_ids(c), None => Seq::empty() }) + seq![p.node_data.id as int],
        Statement::For(p) => for_indices_ids(p.indices@, 0) + statements_ids(p.stmts@, 0) + (match p.description { Some(c) => description_ids(c), None => Seq::empty() }) + seq![p.node_data.id as int],
        Statement::If(p) => statement_if_blocks_ids(p.if_blocks@, 0) + statements_ids(p.else_stmts@, 0) + (match p.description { Some(c) => description_ids(c), None => Seq::empty() }) + seq![p.node_data.id as int],
        Statement::Return(p) => (match p.description { Some(c) => description_ids(c), None => Seq::empty() }) + seq![p.node_data.id as int],
        Statement::While(p) => expression_ids(p.cond) + statements_ids(p.stmts@, 0) + (match p.description { Some(c) => description_ids(c), None => Seq::empty() }) + seq![p.node_data.id as int],
    }
}

pub open spec fn expression_ids(x: Expression) -> Seq<int>
    decreases x, 0int,
{
    match x {
        Expression::Empty => Seq::empty(),
        Expression::Array(p) => expressions_ids(p.args@, 0) + seq![p.node_data.id as int],
        Expression::Binary(p) => expression_ids(*p.lhs) + expression_ids(*p.rhs) + seq![p.node_data.id as int],
        Expression::Boolean(p) => seq![p.node_data.id as int],
        Expression::FunctionCall(p) => component_reference_ids(p.comp) + expressions_ids(p.args@, 0) + seq![p.node_data.id as int],
        Expression::If(p) => expression_if_blocks_ids(p.if_blocks@, 0) + (match p.else_expr { Some(c) => expression_ids(*c), None => Seq::empty() }) + seq![p.node_data.id as int],
        Expression::Ref(p) => component_reference_ids(p),
        Expression::Unary(p) => expression_ids(*p.rhs) + seq![p.node_data.id as int],
        Expression::UnsignedInteger(p) => seq![p.node_data.id as int],
        Expression::UnsignedReal(p) => seq![p.node_data.id as int],
    }
}

pub open spec fn subscript_ids(x: Subscript) -> Seq<int>
    decreases x, 0int,
{
    match x {
        Subscript::Empty => Seq::empty(),
        Subscript::Range(p) => seq![p.node_data.id as int],
        Subscript::Expression(p) => expression_ids(p),
    }
}

pub open spec fn argument_ids(x: Argument) -> Seq<int>
    decreases x, 0int,
{
    match x {
        Argument::Empty => Seq::empty(),
        Argument::Modification(p) => (match p.modification { Some(c) => modification_ids(c), None => Seq::empty() }) + (match p.description { Some(c) => description_ids(c), None => Seq::empty() }) + seq![p.node_data.id as int],
        Argument::Redeclaration(p) => seq![p.node_data.id as int],
        Argument::Replaceable(p) => seq![p.node_data.id as int],
    }
}

pub open spec fn modification_ids(x: Modification) -> Seq<int>
    decreases x, 0int,
{
    match x {
        Modification::Empty => Seq::empty(),
        Modification::Class(p) => arguments_ids(p.args@, 0) + (match p.expr { Some(c) => mod_expr_ids(c), None => Seq::empty() }) + seq![p.node_data.id as int],
        Modification::Expression(p) => mod_expr_ids(p),
    }
}

pub open spec fn mod_expr_ids(x: ModExpr) -> Seq<int>
    decreases x, 0int,
{
    match x {
        ModExpr::Empty => Seq::empty(),
        ModExpr::Break(p) => seq![p.node_data.id as int],
        ModExpr::Expression(p) => expression_ids(p),
    }
}

pub open spec fn classes_ids(s: Seq<ClassDefinition>, i: int) -> Seq<int>
    decreases s, s.len() - i,
{
    if i < 0 || i >= s.len() {
        Seq::empty()
    } else {
        class_definition_ids(s[i]) + classes_ids(s, i + 1)
    }
}

pub open spec fn import_clauses_ids(s: Seq<ImportClause>, i: int) -> Seq<int>
    decreases s, s.len() - i,
{
    if i < 0 || i >= s.len() {
        Seq::empty()
    } else {
        import_clause_ids(s[i]) + import_clauses_ids(s, i + 1)
    }
}

pub open spec fn arguments_ids(s: Seq<Argument>, i: int) -> Seq<int>
    decreases s, s.len() - i,
{
    if i < 0 || i >= s.len() {
        Seq::empty()
    } else {
        argument_ids(s[i]) + arguments_ids(s, i + 1)
    }
}

pub open spec fn component_declarations_ids(s: Seq<ComponentDeclaration>, i: int) -> Seq<int>
    decreases s, s.len() - i,
{
    if i < 0 || i >= s.len() {
        Seq::empty()
    } else {
        component_declaration_ids(s[i]) + component_declarations_ids(s, i + 1)
    }
}

pub open spec fn equations_ids(s: Seq<Equation>, i: int) -> Seq<int>
    decreases s, s.len() - i,
{
    if i < 0 || i >= s.len() {
        Seq::empty()
    } else {
        equation_ids(s[i]) + equations_ids(s, i + 1)
    }
}

pub open spec fn statements_ids(s: Seq<Statement>, i: int) -> Seq<int>
    decreases s, s.len() - i,
{
    if i < 0 || i >= s.len() {
        Seq::empty()
    } else {
        statement_ids(s[i]) + statements_ids(s, i + 1)
    }
}

pub open spec fn expressions_ids(s: Seq<Expression>, i: int) -> Seq<int>
    decreases s, s.len() - i,
{
    if i < 0 || i >= s.len() {
        Seq::empty()
    } else {
        expression_ids(s[i]) + expressions_ids(s, i + 1)
    }
}

pub open spec fn subscripts_ids(s: Seq<Subscript>, i: int) -> Seq<int>
    decreases s, s.len() - i,
{
    if i < 0 || i >= s.len() {
        Seq::empty()
    } else {
        subscript_ids(s[i]) + subscripts_ids(s, i + 1)
    }
}

pub open spec fn ref_parts_ids(s: Seq<RefPart>, i: int) -> Seq<int>
    decreases s, s.len() - i,
{
    if i < 0 || i >= s.len() {
        Seq::empty()
    } else {
        ref_part_ids(s[i]) + ref_parts_ids(s, i + 1)
    }
}

pub open spec fn for_indices_ids(s: Seq<ForIndex>, i: int) -> Seq<int>
    decreases s, s.len() - i,
{
    if i < 0 || i >= s.len() {
        Seq::empty()
    } else {
        for_index_ids(s[i]) + for_indices_ids(s, i + 1)
    }
}

pub open spec fn equation_if_blocks_ids(s: Seq<EquationIfBlock>, i: int) -> Seq<int>
    decreases s, s.len() - i,
{
    if i < 0 || i >= s.len() {
        Seq::empty()
    } else {
        equation_if_block_ids(s[i]) + equation_if_blocks_ids(s, i + 1)
    }
}

pub open spec fn statement_if_blocks_ids(s: Seq<StatementIfBlock>, i: int) -> Seq<int>
    decreases s, s.len() - i,
{
    if i < 0 || i >= s.len() {
        Seq::empty()
    } else {
        statement_if_block_ids(s[i]) + statement_if_blocks_ids(s, i + 1)
    }
}

pub open spec fn expression_if_blocks_ids(s: Seq<ExpressionIfBlock>, i: int) -> Seq<int>
    decreases s, s.len() - i,
{
    if i < 0 || i >= s.len() {
        Seq::empty()
    } else {
        expression_if_block_ids(s[i]) + expression_if_blocks_ids(s, i + 1)
    }
}

pub open spec fn statement_lists_ids(s: Seq<Vec<Statement>>, i: int) -> Seq<int>
    decreases s, s.len() - i, 1int,
{
    if i < 0 || i >= s.len() {
        Seq::empty()
    } else {
        statements_ids(s[i]@, 0) + statement_lists_ids(s, i + 1)
    }
}

pub proof fn lemma_classes_ids_push(s: Seq<ClassDefinition>, x: ClassDefinition, k: int)
    requires
        0 <= k <= s.len(),
    ensures
        classes_ids(s.push(x), k) == classes_ids(s, k) + class_definition_ids(x),
    decreases s.len() - k,
{
    let s2 = s.push(x);
    if k < s.len() {
        lemma_classes_ids_push(s, x, k + 1);
        assert(s2[k] == s[k]);
        assert(classes_ids(s2, k) == classes_ids(s, k) + class_definition_ids(x));
    } else {
        assert(classes_ids(s2, k + 1) =~= Seq::empty());
        assert(classes_ids(s, k) =~= Seq::empty());
        assert(classes_ids(s2, k) =~= class_definition_ids(x));
    }
}

pub proof fn lemma_import_clauses_ids_push(s: Seq<ImportClause>, x: ImportClause, k: int)
    requires
        0 <= k <= s.len(),
    ensures
        import_clauses_ids(s.push(x), k) == import_clauses_ids(s, k) + import_clause_ids(x),
    decreases s.len() - k,
{
    let s2 = s.push(x);
    if k < s.len() {
        lemma_import_clauses_ids_push(s, x, k + 1);
        assert(s2[k] == s[k]);
        assert(import_clauses_ids(s2, k) == import_clauses_ids(s, k) + import_clause_ids(x));
    } else {
        assert(import_clauses_ids(s2, k + 1) =~= Seq::empty());
        assert(import_clauses_ids(s, k) =~= Seq::empty());
        assert(import_clauses_ids(s2, k) =~= import_clause_ids(x));
    }
}

pub proof fn lemma_arguments_ids_push(s: Seq<Argument>, x: Argument, k: int)
    requires
        0 <= k <= s.len(),
    ensures
        arguments_ids(s.push(x), k) == arguments_ids(s, k) + argument_ids(x),
    decreases s.len() - k,
{
    let s2 = s.push(x);
    if k < s.len() {
        lemma_arguments_ids_push(s, x, k + 1);
        assert(s2[k] == s[k]);
        assert(arguments_ids(s2, k) == arguments_ids(s, k) + argument_ids(x));
    } else {
        assert(arguments_ids(s2, k + 1) =~= Seq::empty());
        assert(arguments_ids(s, k) =~= Seq::empty());
        assert(arguments_ids(s2, k) =~= argument_ids(x));
    }
}

pub proof fn lemma_component_declarations_ids_concat(s1: Seq<ComponentDeclaration>, s2: Seq<ComponentDeclaration>)
    ensures
        component_declarations_ids(s1 + s2, 0) == component_declarations_ids(s1, 0) + component_declarations_ids(s2, 0),
    decreases s1.len(),
{
    if s1.len() == 0 {
        assert(s1 + s2 =~= s2);
        assert(component_declarations_ids(s1, 0) =~= Seq::empty());
    } else {
        let t1 = s1.drop_first();
        assert((s1 + s2).drop_first() =~= t1 + s2);
        lemma_component_declarations_ids_concat(t1, s2);
        lemma_component_declarations_ids_shift(s1 + s2);
        lemma_component_declarations_ids_shift(s1);
        assert((s1 + s2)[0] == s1[0]);
    }
}

pub proof fn lemma_component_declarations_ids_shift(s: Seq<ComponentDeclaration>)
    requires
        s.len() > 0,
    ensures
        component_declarations_ids(s, 0) == component_declaration_ids(s[0]) + component_declarations_ids(s.drop_first(), 0),
    decreases s.len(),
{
        lemma_component_declarations_ids_tail(s, 1);
}

pub proof fn lemma_component_declarations_ids_tail(s: Seq<ComponentDeclaration>, k: int)
    requires
        1 <= k <= s.len(),
    ensures
        component_declarations_ids(s, k) == component_declarations_ids(s.drop_first(), k - 1),
    decreases s.len() - k,
{
    if k < s.len() {
        lemma_component_declarations_ids_tail(s, k + 1);
    }
    assert(k < s.len() ==> s.drop_first()[k - 1] == s[k]);
}

pub proof fn lemma_component_declarations_ids_push(s: Seq<ComponentDeclaration>, x: ComponentDeclaration, k: int)
    requires
        0 <= k <= s.len(),
    ensures
        component_declarations_ids(s.push(x), k) == component_declarations_ids(s, k) + component_declaration_ids(x),
    decreases s.len() - k,
{
    let s2 = s.push(x);
    if k < s.len() {
        lemma_component_declarations_ids_push(s, x, k + 1);
        assert(s2[k] == s[k]);
        assert(component_declarations_ids(s2, k) == component_declarations_ids(s, k) + component_declaration_ids(x));
    } else {
        assert(component_declarations_ids(s2, k + 1) =~= Seq::empty());
        assert(component_declarations_ids(s, k) =~= Seq::empty());
        assert(component_declarations_ids(s2, k) =~= component_declaration_ids(x));
    }
}

pub proof fn lemma_equations_ids_concat(s1: Seq<Equation>, s2: Seq<Equation>)
    ensures
        equations_ids(s1 + s2, 0) == equations_ids(s1, 0) + equations_ids(s2, 0),
    decreases s1.len(),
{
    if s1.len() == 0 {
        assert(s1 + s2 =~= s2);
        assert(equations_ids(s1, 0) =~= Seq::empty());
    } else {
        let t1 = s1.drop_first();
        assert((s1 + s2).drop_first() =~= t1 + s2);
        lemma_equations_ids_concat(t1, s2);
        lemma_equations_ids_shift(s1 + s2);
        lemma_equations_ids_shift(s1);
        assert((s1 + s2)[0] == s1[0]);
    }
}

pub proof fn lemma_equations_ids_shift(s: Seq<Equation>)
    requires
        s.len() > 0,
    ensures
        equations_ids(s, 0) == equation_ids(s[0]) + equations_ids(s.drop_first(), 0),
    decreases s.len(),
{
        lemma_equations_ids_tail(s, 1);
}

pub proof fn lemma_equations_ids_tail(s: Seq<Equation>, k: int)
    requires
        1 <= k <= s.len(),
    ensures
        equations_ids(s, k) == equations_ids(s.drop_first(), k - 1),
    decreases s.len() - k,
{
    if k < s.len() {
        lemma_equations_ids_tail(s, k + 1);
    }
    assert(k < s.len() ==> s.drop_first()[k - 1] == s[k]);
}

pub proof fn lemma_equations_ids_push(s: Seq<Equation>, x: Equation, k: int)
    requires
        0 <= k <= s.len(),
    ensures
        equations_ids(s.push(x), k) == equations_ids(s, k) + equation_ids(x),
    decreases s.len() - k,
{
    let s2 = s.push(x);
    if k < s.len() {
        lemma_equations_ids_push(s, x, k + 1);
        assert(s2[k] == s[k]);
        assert(equations_ids(s2, k) == equations_ids(s, k) + equation_ids(x));
    } else {
        assert(equations_ids(s2, k + 1) =~= Seq::empty());
        assert(equations_ids(s, k) =~= Seq::empty());
        assert(equations_ids(s2, k) =~= equation_ids(x));
    }
}

pub proof fn lemma_statements_ids_push(s: Seq<Statement>, x: Statement, k: int)
    requires
        0 <= k <= s.len(),
    ensures
        statements_ids(s.push(x), k) == statements_ids(s, k) + statement_ids(x),
    decreases s.len() - k,
{
    let s2 = s.push(x);
    if k < s.len() {
        lemma_statements_ids_push(s, x, k + 1);
        assert(s2[k] == s[k]);
        assert(statements_ids(s2, k) == statements_ids(s, k) + statement_ids(x));
    } else {
        assert(statements_ids(s2, k + 1) =~= Seq::empty());
        assert(statements_ids(s, k) =~= Seq::empty());
        assert(statements_ids(s2, k) =~= statement_ids(x));
    }
}

pub proof fn lemma_expressions_ids_push(s: Seq<Expression>, x: Expression, k: int)
    requires
        0 <= k <= s.len(),
    ensures
        expressions_ids(s.push(x), k) == expressions_ids(s, k) + expression_ids(x),
    decreases s.len() - k,
{
    let s2 = s.push(x);
    if k < s.len() {
        lemma_expressions_ids_push(s, x, k + 1);
        assert(s2[k] == s[k]);
        assert(expressions_ids(s2, k) == expressions_ids(s, k) + expression_ids(x));
    } else {
        assert(expressions_ids(s2, k + 1) =~= Seq::empty());
        assert(expressions_ids(s, k) =~= Seq::empty());
        assert(expressions_ids(s2, k) =~= expression_ids(x));
    }
}

pub proof fn lemma_subscripts_ids_push(s: Seq<Subscript>, x: Subscript, k: int)
    requires
        0 <= k <= s.len(),
    ensures
        subscripts_ids(s.push(x), k) == subscripts_ids(s, k) + subscript_ids(x),
    decreases s.len() - k,
{
    let s2 = s.push(x);
    if k < s.len() {
        lemma_subscripts_ids_push(s, x, k + 1);
        assert(s2[k] == s[k]);
        assert(subscripts_ids(s2, k) == subscripts_ids(s, k) + subscript_ids(x));
    } else {
        assert(subscripts_ids(s2, k + 1) =~= Seq::empty());
        assert(subscripts_ids(s, k) =~= Seq::empty());
        assert(subscripts_ids(s2, k) =~= subscript_ids(x));
    }
}

pub proof fn lemma_ref_parts_ids_push(s: Seq<RefPart>, x: RefPart, k: int)
    requires
        0 <= k <= s.len(),
    ensures
        ref_parts_ids(s.push(x), k) == ref_parts_ids(s, k) + ref_part_ids(x),
    decreases s.len() - k,
{
    let s2 = s.push(x);
    if k < s.len() {
        lemma_ref_parts_ids_push(s, x, k + 1);
        assert(s2[k] == s[k]);
        assert(ref_parts_ids(s2, k) == ref_parts_ids(s, k) + ref_part_ids(x));
    } else {
        assert(ref_parts_ids(s2, k + 1) =~= Seq::empty());
        assert(ref_parts_ids(s, k) =~= Seq::empty());
        assert(ref_parts_ids(s2, k) =~= ref_part_ids(x));
    }
}

pub proof fn lemma_for_indices_ids_push(s: Seq<ForIndex>, x: ForIndex, k: int)
    requires
        0 <= k <= s.len(),
    ensures
        for_indices_ids(s.push(x), k) == for_indices_ids(s, k) + for_index_ids(x),
    decreases s.len() - k,
{
    let s2 = s.push(x);
    if k < s.len() {
        lemma_for_indices_ids_push(s, x, k + 1);
        assert(s2[k] == s[k]);
        assert(for_indices_ids(s2, k) == for_indices_ids(s, k) + for_index_ids(x));
    } else {
        assert(for_indices_ids(s2, k + 1) =~= Seq::empty());
        assert(for_indices_ids(s, k) =~= Seq::empty());
        assert(for_indices_ids(s2, k) =~= for_index_ids(x));
    }
}

pub proof fn lemma_equation_if_blocks_ids_push(s: Seq<EquationIfBlock>, x: EquationIfBlock, k: int)
    requires
        0 <= k <= s.len(),
    ensures
        equation_if_blocks_ids(s.push(x), k) == equation_if_blocks_ids(s, k) + equation_if_block_ids(x),
    decreases s.len() - k,
{
    let s2 = s.push(x);
    if k < s.len() {
        lemma_equation_if_blocks_ids_push(s, x, k + 1);
        assert(s2[k] == s[k]);
        assert(equation_if_blocks_ids(s2, k) == equation_if_blocks_ids(s, k) + equation_if_block_ids(x));
    } else {
        assert(equation_if_blocks_ids(s2, k + 1) =~= Seq::empty());
        assert(equation_if_blocks_ids(s, k) =~= Seq::empty());
        assert(equation_if_blocks_ids(s2, k) =~= equation_if_block_ids(x));
    }
}

pub proof fn lemma_statement_if_blocks_ids_push(s: Seq<StatementIfBlock>, x: StatementIfBlock, k: int)
    requires
        0 <= k <= s.len(),
    ensures
        statement_if_blocks_ids(s.push(x), k) == statement_if_blocks_ids(s, k) + statement_if_block_ids(x),
    decreases s.len() - k,
{
    let s2 = s.push(x);
    if k < s.len() {
        lemma_statement_if_blocks_ids_push(s, x, k + 1);
        assert(s2[k] == s[k]);
        assert(statement_if_blocks_ids(s2, k) == statement_if_blocks_ids(s, k) + statement_if_block_ids(x));
    } else {
        assert(statement_if_blocks_ids(s2, k + 1) =~= Seq::empty());
        assert(statement_if_blocks_ids(s, k) =~= Seq::empty());
        assert(statement_if_blocks_ids(s2, k) =~= statement_if_block_ids(x));
    }
}

pub proof fn lemma_expression_if_blocks_ids_push(s: Seq<ExpressionIfBlock>, x: ExpressionIfBlock, k: int)
    requires
        0 <= k <= s.len(),
    ensures
        expression_if_blocks_ids(s.push(x), k) == expression_if_blocks_ids(s, k) + expression_if_block_ids(x),
    decreases s.len() - k,
{
    let s2 = s.push(x);
    if k < s.len() {
        lemma_expression_if_blocks_ids_push(s, x, k + 1);
        assert(s2[k] == s[k]);
        assert(expression_if_blocks_ids(s2, k) == expression_if_blocks_ids(s, k) + expression_if_block_ids(x));
    } else {
        assert(expression_if_blocks_ids(s2, k + 1) =~= Seq::empty());
        assert(expression_if_blocks_ids(s, k) =~= Seq::empty());
        assert(expression_if_blocks_ids(s2, k) =~= expression_if_block_ids(x));
    }
}

pub proof fn lemma_statement_lists_ids_push(s: Seq<Vec<Statement>>, x: Vec<Statement>, k: int)
    requires
        0 <= k <= s.len(),
    ensures
        statement_lists_ids(s.push(x), k) == statement_lists_ids(s, k) + statements_ids(x@, 0),
    decreases s.len() - k,
{
    let s2 = s.push(x);
    if k < s.len() {
        lemma_statement_lists_ids_push(s, x, k + 1);
        assert(s2[k] == s[k]);
        assert(statement_lists_ids(s2, k) == statement_lists_ids(s, k) + statements_ids(x@, 0));
    } else {
        assert(statement_lists_ids(s2, k + 1) =~= Seq::empty());
        assert(statement_lists_ids(s, k) =~= Seq::empty());
        assert(statement_lists_ids(s2, k) =~= statements_ids(x@, 0));
    }
}

} // verus!
