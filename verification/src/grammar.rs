use vstd::prelude::*;
use crate::ast::{
    AlgorithmSection, Argument, ArgumentModification, ArgumentRedeclaration, ArgumentReplaceable,
    Causality, ClassDefinition, ClassFlags, ClassPrefixes, ClassType, ComponentDeclaration,
    Connection, Declaration, Description, DescriptionString, ElementFlags, Equation,
    EquationConnect, EquationFor, EquationIf, EquationIfBlock, EquationSection, EquationSimple,
    Expression, ExtendsClause, ForIndex, ImportClause, ModExpr, ModExprBreak, Modification,
    ModificationClass, Name, NodeData, ParserContext, Statement, StatementAssignment, StatementBreak,
    StatementFor, StatementIf, StatementIfBlock, StatementReturn, StatementWhile,
    StoredDefinition, Subscript, TypePrefix, TypeSpecifier, Variability, Visibility,
};
use crate::ids::{
    argument_ids, arguments_ids, class_definition_ids, classes_ids, component_declaration_ids,
    component_declarations_ids, component_reference_ids, description_ids, equation_ids,
    equation_if_block_ids, equation_if_blocks_ids, equations_ids, expression_ids, for_index_ids,
    for_indices_ids, ids_ok, import_clause_ids, import_clauses_ids, lemma_arguments_ids_push,
    lemma_classes_ids_push, lemma_component_declarations_ids_concat,
    lemma_component_declarations_ids_push, lemma_equation_if_blocks_ids_push,
    lemma_equations_ids_concat, lemma_equations_ids_push, lemma_for_indices_ids_push,
    lemma_ids_ok_concat, lemma_ids_ok_insert, lemma_ids_ok_widen, lemma_import_clauses_ids_push,
    lemma_statement_if_blocks_ids_push, lemma_statement_lists_ids_push, lemma_statements_ids_push,
    mod_expr_ids, modification_ids, statement_ids, statement_if_block_ids,
    statement_if_blocks_ids, statement_lists_ids, statements_ids, stored_definition_ids,
    subscripts_ids,
};
use crate::lexer::{Token, TokenKind};
use crate::parser::{
    at, err_here, expect, expect_ident, last_end, parse_array_subscripts,
    parse_component_reference, parse_error_wf, parse_expression, parse_name, parse_type_specifier,
    peek, pinv, pstep, start_of, ParseError, MAX_TOKENS,
};

verus! {

/// Parses an optional description: `[string {+ string}] [annotation ( args )]`.
/// Returns `None`, consuming nothing, when neither part is present.
#[verifier::loop_isolation(false)]
pub(crate) fn parse_description(toks: &Vec<Token>, pos: &mut usize, ctx: &mut ParserContext) -> (r:
    Result<Option<Description>, ParseError>)
    requires
        pinv(toks@, *old(pos) as int, *old(ctx)),
    ensures
        pstep(toks@, *old(pos) as int, *final(pos) as int, *old(ctx), *final(ctx)),
        r is Ok ==> ids_ok(
            (match r->Ok_0 {
                Some(d) => description_ids(d),
                None => Seq::empty(),
            }),
            old(ctx).id_count as int,
            final(ctx).id_count as int,
        ),
        r is Err ==> parse_error_wf(r->Err_0, toks@),
    decreases toks@.len() - *pos, 10int,
{
    let ghost lo = ctx.id_count as int;
    if !at(toks, *pos, TokenKind::StringLit) && !at(toks, *pos, TokenKind::KwAnnotation) {
        return Ok(None);
    }
    let start = start_of(toks, *pos);
    let mut strings: Vec<String> = Vec::new();
    if at(toks, *pos, TokenKind::StringLit) {
        strings.push(toks[*pos].text.clone());
        *pos = *pos + 1;
        while at(toks, *pos, TokenKind::Plus)
            invariant
                pinv(toks@, *pos as int, *ctx),
                *old(pos) < *pos,
            decreases toks@.len() - *pos,
        {
            *pos = *pos + 1;
            if at(toks, *pos, TokenKind::StringLit) {
                strings.push(toks[*pos].text.clone());
                *pos = *pos + 1;
            } else {
                return Err(err_here(toks, *pos, vec![TokenKind::StringLit]));
            }
        }
    }
    let mut annotation: Vec<Argument> = Vec::new();
    if at(toks, *pos, TokenKind::KwAnnotation) {
        *pos = *pos + 1;
        match expect(toks, pos, TokenKind::LParen) {
            Ok(()) => {},
            Err(e) => {
                return Err(e);
            },
        }
        annotation = match parse_argument_list(toks, pos, ctx) {
            Ok(v) => v,
            Err(e) => {
                return Err(e);
            },
        };
        match expect(toks, pos, TokenKind::RParen) {
            Ok(()) => {},
            Err(e) => {
                return Err(e);
            },
        }
    } else {
        proof {
            assert(arguments_ids(annotation@, 0) =~= Seq::empty());
        }
    }
    let end = last_end(toks, *pos);
    let ghost hi = ctx.id_count as int;
    let id = ctx.new_id();
    proof {
        assert(ids_ok(seq![id as int], hi, hi + 1));
        lemma_ids_ok_concat(arguments_ids(annotation@, 0), seq![id as int], lo, hi, hi + 1);
    }
    Ok(Some(Description { node_data: NodeData::new(id, start, end), strings, annotation }))
}

/// Parses a comma-separated argument list; stops (without consuming) at `)`.
#[verifier::loop_isolation(false)]
pub(crate) fn parse_argument_list(toks: &Vec<Token>, pos: &mut usize, ctx: &mut ParserContext) -> (r:
    Result<Vec<Argument>, ParseError>)
    requires
        pinv(toks@, *old(pos) as int, *old(ctx)),
    ensures
        pstep(toks@, *old(pos) as int, *final(pos) as int, *old(ctx), *final(ctx)),
        r is Ok ==> ids_ok(
            arguments_ids(r->Ok_0@, 0),
            old(ctx).id_count as int,
            final(ctx).id_count as int,
        ),
        r is Err ==> parse_error_wf(r->Err_0, toks@),
    decreases toks@.len() - *pos, 22int,
{
    let ghost lo = ctx.id_count as int;
    let mut items: Vec<Argument> = Vec::new();
    if at(toks, *pos, TokenKind::RParen) {
        proof {
            assert(arguments_ids(items@, 0) =~= Seq::empty());
        }
        return Ok(items);
    }
    loop
        invariant
            pinv(toks@, *pos as int, *ctx),
            *old(pos) <= *pos,
            old(ctx).id_count <= ctx.id_count,
            ctx.id_count - old(ctx).id_count <= 2 * (*pos - *old(pos)),
            ids_ok(arguments_ids(items@, 0), lo, ctx.id_count as int),
            lo == old(ctx).id_count as int,
        decreases toks@.len() - *pos, 1int,
    {
        let ghost mid = ctx.id_count as int;
        let ghost items0 = items@;
        let a = match parse_argument(toks, pos, ctx) {
            Ok(a) => a,
            Err(e) => {
                return Err(e);
            },
        };
        proof {
            lemma_arguments_ids_push(items0, a, 0);
            lemma_ids_ok_concat(
                arguments_ids(items0, 0),
                argument_ids(a),
                lo,
                mid,
                ctx.id_count as int,
            );
        }
        items.push(a);
        if at(toks, *pos, TokenKind::Comma) {
            *pos = *pos + 1;
        } else {
            return Ok(items);
        }
    }
}

/// Parses one argument of a class or annotation modification:
/// `redeclare`, `replaceable`, or `[each] [final] name [modification]
/// [description]`.
fn parse_argument(toks: &Vec<Token>, pos: &mut usize, ctx: &mut ParserContext) -> (r: Result<
    Argument,
    ParseError,
>)
    requires
        pinv(toks@, *old(pos) as int, *old(ctx)),
    ensures
        pstep(toks@, *old(pos) as int, *final(pos) as int, *old(ctx), *final(ctx)),
        r is Ok ==> *final(pos) > *old(pos),
        r is Ok ==> ids_ok(
            argument_ids(r->Ok_0),
            old(ctx).id_count as int,
            final(ctx).id_count as int,
        ),
        r is Err ==> parse_error_wf(r->Err_0, toks@),
    decreases toks@.len() - *pos, 21int,
{
    let ghost lo = ctx.id_count as int;
    let start = start_of(toks, *pos);
    if at(toks, *pos, TokenKind::KwRedeclare) {
        *pos = *pos + 1;
        let end = last_end(toks, *pos);
        let id = ctx.new_id();
        proof {
            assert(ids_ok(seq![id as int], id as int, id as int + 1));
        }
        return Ok(
            Argument::Redeclaration(ArgumentRedeclaration { node_data: NodeData::new(id, start, end) }),
        );
    }
    if at(toks, *pos, TokenKind::KwReplaceable) {
        *pos = *pos + 1;
        let end = last_end(toks, *pos);
        let id = ctx.new_id();
        proof {
            assert(ids_ok(seq![id as int], id as int, id as int + 1));
        }
        return Ok(
            Argument::Replaceable(ArgumentReplaceable { node_data: NodeData::new(id, start, end) }),
        );
    }
    let mut each = false;
    if at(toks, *pos, TokenKind::KwEach) {
        each = true;
        *pos = *pos + 1;
    }
    let mut is_final = false;
    if at(toks, *pos, TokenKind::KwFinal) {
        is_final = true;
        *pos = *pos + 1;
    }
    let name = match parse_name(toks, pos) {
        Ok(n) => n,
        Err(e) => {
            return Err(e);
        },
    };
    let ghost m1 = ctx.id_count as int;
    let mut modification: Option<Modification> = None;
    if at(toks, *pos, TokenKind::LParen) || at(toks, *pos, TokenKind::Eq) || at(
        toks,
        *pos,
        TokenKind::Assign,
    ) {
        modification = match parse_modification(toks, pos, ctx) {
            Ok(m) => Some(m),
            Err(e) => {
                return Err(e);
            },
        };
    }
    let ghost m2 = ctx.id_count as int;
    let description = match parse_description(toks, pos, ctx) {
        Ok(d) => d,
        Err(e) => {
            return Err(e);
        },
    };
    let end = last_end(toks, *pos);
    let ghost m3 = ctx.id_count as int;
    let id = ctx.new_id();
    let arg = ArgumentModification {
        node_data: NodeData::new(id, start, end),
        name,
        each,
        is_final,
        modification,
        description,
    };
    proof {
        let garg = arg;
        lemma_ids_ok_concat(
            (match garg.modification {
                Some(m) => modification_ids(m),
                None => Seq::empty(),
            }),
            (match garg.description {
                Some(d) => description_ids(d),
                None => Seq::empty(),
            }),
            m1,
            m2,
            m3,
        );
        assert(ids_ok(seq![id as int], m3, m3 + 1));
        lemma_ids_ok_concat(
            (match garg.modification {
                Some(m) => modification_ids(m),
                None => Seq::empty(),
            }) + (match garg.description {
                Some(d) => description_ids(d),
                None => Seq::empty(),
            }),
            seq![id as int],
            m1,
            m3,
            m3 + 1,
        );
        lemma_ids_ok_widen(argument_ids(Argument::Modification(garg)), m1, m3 + 1, lo, m3 + 1);
    }
    Ok(Argument::Modification(arg))
}

/// Parses a modification: `( args ) [= mod_expr]` or `= mod_expr` or
/// `:= mod_expr`.
fn parse_modification(toks: &Vec<Token>, pos: &mut usize, ctx: &mut ParserContext) -> (r: Result<
    Modification,
    ParseError,
>)
    requires
        pinv(toks@, *old(pos) as int, *old(ctx)),
    ensures
        pstep(toks@, *old(pos) as int, *final(pos) as int, *old(ctx), *final(ctx)),
        r is Ok ==> *final(pos) > *old(pos),
        r is Ok ==> ids_ok(
            modification_ids(r->Ok_0),
            old(ctx).id_count as int,
            final(ctx).id_count as int,
        ),
        r is Err ==> parse_error_wf(r->Err_0, toks@),
    decreases toks@.len() - *pos, 23int,
{
    let ghost lo = ctx.id_count as int;
    let start = start_of(toks, *pos);
    if at(toks, *pos, TokenKind::LParen) {
        *pos = *pos + 1;
        let args = match parse_argument_list(toks, pos, ctx) {
            Ok(v) => v,
            Err(e) => {
                return Err(e);
            },
        };
        match expect(toks, pos, TokenKind::RParen) {
            Ok(()) => {},
            Err(e) => {
                return Err(e);
            },
        }
        let ghost m1 = ctx.id_count as int;
        let mut expr: Option<ModExpr> = None;
        if at(toks, *pos, TokenKind::Eq) {
            *pos = *pos + 1;
            expr = match parse_mod_expr(toks, pos, ctx) {
                Ok(m) => Some(m),
                Err(e) => {
                    return Err(e);
                },
            };
        }
        let end = last_end(toks, *pos);
        let ghost m2 = ctx.id_count as int;
        let id = ctx.new_id();
        let node = ModificationClass {
            node_data: NodeData::new(id, start, end),
            args,
            expr,
        };
        proof {
            let gnode = node;
            lemma_ids_ok_concat(
                arguments_ids(gnode.args@, 0),
                (match gnode.expr {
                    Some(m) => mod_expr_ids(m),
                    None => Seq::empty(),
                }),
                lo,
                m1,
                m2,
            );
            assert(ids_ok(seq![id as int], m2, m2 + 1));
            lemma_ids_ok_concat(
                arguments_ids(gnode.args@, 0) + (match gnode.expr {
                    Some(m) => mod_expr_ids(m),
                    None => Seq::empty(),
                }),
                seq![id as int],
                lo,
                m2,
                m2 + 1,
            );
        }
        Ok(Modification::Class(node))
    } else if at(toks, *pos, TokenKind::Eq) || at(toks, *pos, TokenKind::Assign) {
        *pos = *pos + 1;
        let me = match parse_mod_expr(toks, pos, ctx) {
            Ok(m) => m,
            Err(e) => {
                return Err(e);
            },
        };
        Ok(Modification::Expression(me))
    } else {
        Err(err_here(toks, *pos, vec![TokenKind::LParen, TokenKind::Eq, TokenKind::Assign]))
    }
}

/// Parses the right side of a value modification: `break` or an expression.
fn parse_mod_expr(toks: &Vec<Token>, pos: &mut usize, ctx: &mut ParserContext) -> (r: Result<
    ModExpr,
    ParseError,
>)
    requires
        pinv(toks@, *old(pos) as int, *old(ctx)),
    ensures
        pstep(toks@, *old(pos) as int, *final(pos) as int, *old(ctx), *final(ctx)),
        r is Ok ==> *final(pos) > *old(pos),
        r is Ok ==> ids_ok(
            mod_expr_ids(r->Ok_0),
            old(ctx).id_count as int,
            final(ctx).id_count as int,
        ),
        r is Err ==> parse_error_wf(r->Err_0, toks@),
    decreases toks@.len() - *pos, 65int,
{
    if at(toks, *pos, TokenKind::KwBreak) {
        let start = start_of(toks, *pos);
        *pos = *pos + 1;
        let end = last_end(toks, *pos);
        let id = ctx.new_id();
        proof {
            assert(ids_ok(seq![id as int], id as int, id as int + 1));
        }
        Ok(ModExpr::Break(ModExprBreak { node_data: NodeData::new(id, start, end) }))
    } else {
        let e = match parse_expression(toks, pos, ctx) {
            Ok(e) => e,
            Err(err) => {
                return Err(err);
            },
        };
        Ok(ModExpr::Expression(e))
    }
}

/// Parses the indices of a for clause: `ident [in expr] { , ident [in expr] }`.
#[verifier::loop_isolation(false)]
fn parse_for_indices(toks: &Vec<Token>, pos: &mut usize, ctx: &mut ParserContext) -> (r: Result<
    Vec<ForIndex>,
    ParseError,
>)
    requires
        pinv(toks@, *old(pos) as int, *old(ctx)),
    ensures
        pstep(toks@, *old(pos) as int, *final(pos) as int, *old(ctx), *final(ctx)),
        r is Ok ==> *final(pos) > *old(pos),
        r is Ok ==> ids_ok(
            for_indices_ids(r->Ok_0@, 0),
            old(ctx).id_count as int,
            final(ctx).id_count as int,
        ),
        r is Err ==> parse_error_wf(r->Err_0, toks@),
    decreases toks@.len() - *pos, 66int,
{
    let ghost lo = ctx.id_count as int;
    let mut items: Vec<ForIndex> = Vec::new();
    loop
        invariant
            pinv(toks@, *pos as int, *ctx),
            *old(pos) <= *pos,
            old(ctx).id_count <= ctx.id_count,
            ctx.id_count - old(ctx).id_count <= 2 * (*pos - *old(pos)),
            ids_ok(for_indices_ids(items@, 0), lo, ctx.id_count as int),
            lo == old(ctx).id_count as int,
        decreases toks@.len() - *pos, 1int,
    {
        let ghost mid = ctx.id_count as int;
        let ghost items0 = items@;
        let istart = start_of(toks, *pos);
        let ident = match expect_ident(toks, pos) {
            Ok(s) => s,
            Err(e) => {
                return Err(e);
            },
        };
        let mut in_expr: Option<Expression> = None;
        if at(toks, *pos, TokenKind::KwIn) {
            *pos = *pos + 1;
            in_expr = match parse_expression(toks, pos, ctx) {
                Ok(e) => Some(e),
                Err(e) => {
                    return Err(e);
                },
            };
        }
        let iend = last_end(toks, *pos);
        let ghost m1 = ctx.id_count as int;
        let id = ctx.new_id();
        let fi = ForIndex { node_data: NodeData::new(id, istart, iend), ident, in_expr };
        proof {
            let gfi = fi;
            assert(ids_ok(seq![id as int], m1, m1 + 1));
            lemma_ids_ok_concat(
                (match gfi.in_expr {
                    Some(e) => expression_ids(e),
                    None => Seq::empty(),
                }),
                seq![id as int],
                mid,
                m1,
                m1 + 1,
            );
            lemma_for_indices_ids_push(items0, gfi, 0);
            lemma_ids_ok_concat(
                for_indices_ids(items0, 0),
                for_index_ids(gfi),
                lo,
                mid,
                ctx.id_count as int,
            );
        }
        items.push(fi);
        if at(toks, *pos, TokenKind::Comma) {
            *pos = *pos + 1;
        } else {
            return Ok(items);
        }
    }
}

} // verus!

verus! {

/// True when the cursor stands where an equation or statement section ends:
/// at end of input or at a keyword that opens the next section or closes the
/// class body.
fn section_done(toks: &Vec<Token>, pos: usize) -> (r: bool)
    requires
        pos <= toks@.len(),
{
    match peek(toks, pos) {
        None => true,
        Some(TokenKind::KwEnd) => true,
        Some(TokenKind::KwElse) => true,
        Some(TokenKind::KwElseif) => true,
        Some(TokenKind::KwEquation) => true,
        Some(TokenKind::KwAlgorithm) => true,
        Some(TokenKind::KwInitial) => true,
        Some(TokenKind::KwPublic) => true,
        Some(TokenKind::KwProtected) => true,
        Some(TokenKind::KwAnnotation) => true,
        _ => false,
    }
}

/// Parses equations until the section ends. Each equation carries its own
/// terminating semicolon.
#[verifier::loop_isolation(false)]
fn parse_equation_list(toks: &Vec<Token>, pos: &mut usize, ctx: &mut ParserContext) -> (r: Result<
    Vec<Equation>,
    ParseError,
>)
    requires
        pinv(toks@, *old(pos) as int, *old(ctx)),
    ensures
        pstep(toks@, *old(pos) as int, *final(pos) as int, *old(ctx), *final(ctx)),
        r is Ok ==> ids_ok(
            equations_ids(r->Ok_0@, 0),
            old(ctx).id_count as int,
            final(ctx).id_count as int,
        ),
        r is Err ==> parse_error_wf(r->Err_0, toks@),
    decreases toks@.len() - *pos, 71int,
{
    let ghost lo = ctx.id_count as int;
    let mut items: Vec<Equation> = Vec::new();
    while !section_done(toks, *pos)
        invariant
            pinv(toks@, *pos as int, *ctx),
            *old(pos) <= *pos,
            old(ctx).id_count <= ctx.id_count,
            ctx.id_count - old(ctx).id_count <= 2 * (*pos - *old(pos)),
            ids_ok(equations_ids(items@, 0), lo, ctx.id_count as int),
            lo == old(ctx).id_count as int,
        decreases toks@.len() - *pos,
    {
        let ghost mid = ctx.id_count as int;
        let ghost items0 = items@;
        let e = match parse_equation(toks, pos, ctx) {
            Ok(e) => e,
            Err(err) => {
                return Err(err);
            },
        };
        proof {
            lemma_equations_ids_push(items0, e, 0);
            lemma_ids_ok_concat(
                equations_ids(items0, 0),
                equation_ids(e),
                lo,
                mid,
                ctx.id_count as int,
            );
        }
        items.push(e);
    }
    Ok(items)
}

/// Parses one equation: `connect(a, b);`, an if-equation, a for-equation,
/// or a simple equation `lhs = rhs;`, each with an optional description.
#[verifier::loop_isolation(false)]
fn parse_equation(toks: &Vec<Token>, pos: &mut usize, ctx: &mut ParserContext) -> (r: Result<
    Equation,
    ParseError,
>)
    requires
        pinv(toks@, *old(pos) as int, *old(ctx)),
    ensures
        pstep(toks@, *old(pos) as int, *final(pos) as int, *old(ctx), *final(ctx)),
        r is Ok ==> *final(pos) > *old(pos),
        r is Ok ==> ids_ok(
            equation_ids(r->Ok_0),
            old(ctx).id_count as int,
            final(ctx).id_count as int,
        ),
        r is Err ==> parse_error_wf(r->Err_0, toks@),
    decreases toks@.len() - *pos, 70int,
{
    let ghost lo = ctx.id_count as int;
    let start = start_of(toks, *pos);
    if at(toks, *pos, TokenKind::KwConnect) {
        *pos = *pos + 1;
        match expect(toks, pos, TokenKind::LParen) {
            Ok(()) => {},
            Err(e) => {
                return Err(e);
            },
        }
        let lhs = match parse_component_reference(toks, pos, ctx) {
            Ok(c) => c,
            Err(e) => {
                return Err(e);
            },
        };
        match expect(toks, pos, TokenKind::Comma) {
            Ok(()) => {},
            Err(e) => {
                return Err(e);
            },
        }
        let ghost m1 = ctx.id_count as int;
        let rhs = match parse_component_reference(toks, pos, ctx) {
            Ok(c) => c,
            Err(e) => {
                return Err(e);
            },
        };
        match expect(toks, pos, TokenKind::RParen) {
            Ok(()) => {},
            Err(e) => {
                return Err(e);
            },
        }
        let ghost m2 = ctx.id_count as int;
        let description = match parse_description(toks, pos, ctx) {
            Ok(d) => d,
            Err(e) => {
                return Err(e);
            },
        };
        match expect(toks, pos, TokenKind::Semicolon) {
            Ok(()) => {},
            Err(e) => {
                return Err(e);
            },
        }
        let end = last_end(toks, *pos);
        let ghost m3 = ctx.id_count as int;
        let id = ctx.new_id();
        let node = EquationConnect { node_data: NodeData::new(id, start, end), lhs, rhs, description };
        proof {
            let g = node;
            lemma_ids_ok_concat(
                component_reference_ids(g.lhs),
                component_reference_ids(g.rhs),
                lo,
                m1,
                m2,
            );
            lemma_ids_ok_concat(
                component_reference_ids(g.lhs) + component_reference_ids(g.rhs),
                (match g.description {
                    Some(d) => description_ids(d),
                    None => Seq::empty(),
                }),
                lo,
                m2,
                m3,
            );
            assert(ids_ok(seq![id as int], m3, m3 + 1));
            lemma_ids_ok_concat(
                component_reference_ids(g.lhs) + component_reference_ids(g.rhs) + (match g.description {
                    Some(d) => description_ids(d),
                    None => Seq::empty(),
                }),
                seq![id as int],
                lo,
                m3,
                m3 + 1,
            );
        }
        return Ok(Equation::Connect(node));
    }
    if at(toks, *pos, TokenKind::KwIf) {
        *pos = *pos + 1;
        let mut if_blocks: Vec<EquationIfBlock> = Vec::new();
        loop
            invariant
                pinv(toks@, *pos as int, *ctx),
                *old(pos) < *pos,
                old(ctx).id_count <= ctx.id_count,
                ctx.id_count - old(ctx).id_count <= 2 * (*pos - *old(pos)) - 1,
                ids_ok(equation_if_blocks_ids(if_blocks@, 0), lo, ctx.id_count as int),
                lo == old(ctx).id_count as int,
            decreases toks@.len() - *pos, 1int,
        {
            let ghost mid = ctx.id_count as int;
            let ghost blocks0 = if_blocks@;
            let bstart = start_of(toks, *pos);
            let cond = match parse_expression(toks, pos, ctx) {
                Ok(e) => e,
                Err(e) => {
                    return Err(e);
                },
            };
            match expect(toks, pos, TokenKind::KwThen) {
                Ok(()) => {},
                Err(e) => {
                    return Err(e);
                },
            }
            let ghost m1 = ctx.id_count as int;
            let eqs = match parse_equation_list(toks, pos, ctx) {
                Ok(v) => v,
                Err(e) => {
                    return Err(e);
                },
            };
            let bend = last_end(toks, *pos);
            let ghost m2 = ctx.id_count as int;
            let bid = ctx.new_id();
            let block = EquationIfBlock { node_data: NodeData::new(bid, bstart, bend), cond, eqs };
            proof {
                let g = block;
                lemma_ids_ok_concat(expression_ids(g.cond), equations_ids(g.eqs@, 0), mid, m1, m2);
                assert(ids_ok(seq![bid as int], m2, m2 + 1));
                lemma_ids_ok_concat(
                    expression_ids(g.cond) + equations_ids(g.eqs@, 0),
                    seq![bid as int],
                    mid,
                    m2,
                    m2 + 1,
                );
                lemma_equation_if_blocks_ids_push(blocks0, g, 0);
                lemma_ids_ok_concat(
                    equation_if_blocks_ids(blocks0, 0),
                    equation_if_block_ids(g),
                    lo,
                    mid,
                    ctx.id_count as int + 1,
                );
            }
            if_blocks.push(block);
            if !at(toks, *pos, TokenKind::KwElseif) {
                break ;
            }
            *pos = *pos + 1;
        }
        let mut else_eqs: Vec<Equation> = Vec::new();
        let ghost m3 = ctx.id_count as int;
        if at(toks, *pos, TokenKind::KwElse) {
            *pos = *pos + 1;
            else_eqs = match parse_equation_list(toks, pos, ctx) {
                Ok(v) => v,
                Err(e) => {
                    return Err(e);
                },
            };
        } else {
            proof {
                assert(equations_ids(else_eqs@, 0) =~= Seq::empty());
            }
        }
        match expect(toks, pos, TokenKind::KwEnd) {
            Ok(()) => {},
            Err(e) => {
                return Err(e);
            },
        }
        match expect(toks, pos, TokenKind::KwIf) {
            Ok(()) => {},
            Err(e) => {
                return Err(e);
            },
        }
        let ghost m4 = ctx.id_count as int;
        let description = match parse_description(toks, pos, ctx) {
            Ok(d) => d,
            Err(e) => {
                return Err(e);
            },
        };
        match expect(toks, pos, TokenKind::Semicolon) {
            Ok(()) => {},
            Err(e) => {
                return Err(e);
            },
        }
        let end = last_end(toks, *pos);
        let ghost m5 = ctx.id_count as int;
        let id = ctx.new_id();
        let node = EquationIf {
            node_data: NodeData::new(id, start, end),
            if_blocks,
            else_eqs,
            description,
        };
        proof {
            let g = node;
            lemma_ids_ok_concat(
                equation_if_blocks_ids(g.if_blocks@, 0),
                equations_ids(g.else_eqs@, 0),
                lo,
                m3,
                m4,
            );
            lemma_ids_ok_concat(
                equation_if_blocks_ids(g.if_blocks@, 0) + equations_ids(g.else_eqs@, 0),
                (match g.description {
                    Some(d) => description_ids(d),
                    None => Seq::empty(),
                }),
                lo,
                m4,
                m5,
            );
            assert(ids_ok(seq![id as int], m5, m5 + 1));
            lemma_ids_ok_concat(
                equation_if_blocks_ids(g.if_blocks@, 0) + equations_ids(g.else_eqs@, 0) + (match g.description {
                    Some(d) => description_ids(d),
                    None => Seq::empty(),
                }),
                seq![id as int],
                lo,
                m5,
                m5 + 1,
            );
        }
        return Ok(Equation::If(node));
    }
    if at(toks, *pos, TokenKind::KwFor) {
        *pos = *pos + 1;
        let indices = match parse_for_indices(toks, pos, ctx) {
            Ok(v) => v,
            Err(e) => {
                return Err(e);
            },
        };
        match expect(toks, pos, TokenKind::KwLoop) {
            Ok(()) => {},
            Err(e) => {
                return Err(e);
            },
        }
        let ghost m1 = ctx.id_count as int;
        let eqs = match parse_equation_list(toks, pos, ctx) {
            Ok(v) => v,
            Err(e) => {
                return Err(e);
            },
        };
        match expect(toks, pos, TokenKind::KwEnd) {
            Ok(()) => {},
            Err(e) => {
                return Err(e);
            },
        }
        match expect(toks, pos, TokenKind::KwFor) {
            Ok(()) => {},
            Err(e) => {
                return Err(e);
            },
        }
        let ghost m2 = ctx.id_count as int;
        let description = match parse_description(toks, pos, ctx) {
            Ok(d) => d,
            Err(e) => {
                return Err(e);
            },
        };
        match expect(toks, pos, TokenKind::Semicolon) {
            Ok(()) => {},
            Err(e) => {
                return Err(e);
            },
        }
        let end = last_end(toks, *pos);
        let ghost m3 = ctx.id_count as int;
        let id = ctx.new_id();
        let node = EquationFor { node_data: NodeData::new(id, start, end), indices, eqs, description };
        proof {
            let g = node;
            lemma_ids_ok_concat(for_indices_ids(g.indices@, 0), equations_ids(g.eqs@, 0), lo, m1, m2);
            lemma_ids_ok_concat(
                for_indices_ids(g.indices@, 0) + equations_ids(g.eqs@, 0),
                (match g.description {
                    Some(d) => description_ids(d),
                    None => Seq::empty(),
                }),
                lo,
                m2,
                m3,
            );
            assert(ids_ok(seq![id as int], m3, m3 + 1));
            lemma_ids_ok_concat(
                for_indices_ids(g.indices@, 0) + equations_ids(g.eqs@, 0) + (match g.description {
                    Some(d) => description_ids(d),
                    None => Seq::empty(),
                }),
                seq![id as int],
                lo,
                m3,
                m3 + 1,
            );
        }
        return Ok(Equation::For(node));
    }
    // simple equation: lhs = rhs [description] ;
    let lhs = match parse_expression(toks, pos, ctx) {
        Ok(e) => e,
        Err(e) => {
            return Err(e);
        },
    };
    match expect(toks, pos, TokenKind::Eq) {
        Ok(()) => {},
        Err(e) => {
            return Err(e);
        },
    }
    let ghost m1 = ctx.id_count as int;
    let rhs = match parse_expression(toks, pos, ctx) {
        Ok(e) => e,
        Err(e) => {
            return Err(e);
        },
    };
    let ghost m2 = ctx.id_count as int;
    let description = match parse_description(toks, pos, ctx) {
        Ok(d) => d,
        Err(e) => {
            return Err(e);
        },
    };
    match expect(toks, pos, TokenKind::Semicolon) {
        Ok(()) => {},
        Err(e) => {
            return Err(e);
        },
    }
    let end = last_end(toks, *pos);
    let ghost m3 = ctx.id_count as int;
    let id = ctx.new_id();
    let node = EquationSimple { node_data: NodeData::new(id, start, end), lhs, rhs, description };
    proof {
        let g = node;
        lemma_ids_ok_concat(expression_ids(g.lhs), expression_ids(g.rhs), lo, m1, m2);
        lemma_ids_ok_concat(
            expression_ids(g.lhs) + expression_ids(g.rhs),
            (match g.description {
                Some(d) => description_ids(d),
                None => Seq::empty(),
            }),
            lo,
            m2,
            m3,
        );
        assert(ids_ok(seq![id as int], m3, m3 + 1));
        lemma_ids_ok_concat(
            expression_ids(g.lhs) + expression_ids(g.rhs) + (match g.description {
                Some(d) => description_ids(d),
                None => Seq::empty(),
            }),
            seq![id as int],
            lo,
            m3,
            m3 + 1,
        );
    }
    Ok(Equation::Simple(node))
}

} // verus!

verus! {

/// Parses statements until the section ends. Each statement carries its own
/// terminating semicolon.
#[verifier::loop_isolation(false)]
fn parse_statement_list(toks: &Vec<Token>, pos: &mut usize, ctx: &mut ParserContext) -> (r: Result<
    Vec<Statement>,
    ParseError,
>)
    requires
        pinv(toks@, *old(pos) as int, *old(ctx)),
    ensures
        pstep(toks@, *old(pos) as int, *final(pos) as int, *old(ctx), *final(ctx)),
        r is Ok ==> ids_ok(
            statements_ids(r->Ok_0@, 0),
            old(ctx).id_count as int,
            final(ctx).id_count as int,
        ),
        r is Err ==> parse_error_wf(r->Err_0, toks@),
    decreases toks@.len() - *pos, 71int,
{
    let ghost lo = ctx.id_count as int;
    let mut items: Vec<Statement> = Vec::new();
    while !section_done(toks, *pos)
        invariant
            pinv(toks@, *pos as int, *ctx),
            *old(pos) <= *pos,
            old(ctx).id_count <= ctx.id_count,
            ctx.id_count - old(ctx).id_count <= 2 * (*pos - *old(pos)),
            ids_ok(statements_ids(items@, 0), lo, ctx.id_count as int),
            lo == old(ctx).id_count as int,
        decreases toks@.len() - *pos,
    {
        let ghost mid = ctx.id_count as int;
        let ghost items0 = items@;
        let s = match parse_statement(toks, pos, ctx) {
            Ok(s) => s,
            Err(err) => {
                return Err(err);
            },
        };
        proof {
            lemma_statements_ids_push(items0, s, 0);
            lemma_ids_ok_concat(
                statements_ids(items0, 0),
                statement_ids(s),
                lo,
                mid,
                ctx.id_count as int,
            );
        }
        items.push(s);
    }
    Ok(items)
}

/// Parses one statement: `break;`, `return;`, an if-, for- or
/// while-statement, or an assignment `comp := expr;`, each with an optional
/// description.
#[verifier::loop_isolation(false)]
fn parse_statement(toks: &Vec<Token>, pos: &mut usize, ctx: &mut ParserContext) -> (r: Result<
    Statement,
    ParseError,
>)
    requires
        pinv(toks@, *old(pos) as int, *old(ctx)),
    ensures
        pstep(toks@, *old(pos) as int, *final(pos) as int, *old(ctx), *final(ctx)),
        r is Ok ==> *final(pos) > *old(pos),
        r is Ok ==> ids_ok(
            statement_ids(r->Ok_0),
            old(ctx).id_count as int,
            final(ctx).id_count as int,
        ),
        r is Err ==> parse_error_wf(r->Err_0, toks@),
    decreases toks@.len() - *pos, 70int,
{
    let ghost lo = ctx.id_count as int;
    let start = start_of(toks, *pos);
    if at(toks, *pos, TokenKind::KwBreak) || at(toks, *pos, TokenKind::KwReturn) {
        let is_break = at(toks, *pos, TokenKind::KwBreak);
        *pos = *pos + 1;
        let ghost m1 = ctx.id_count as int;
        let description = match parse_description(toks, pos, ctx) {
            Ok(d) => d,
            Err(e) => {
                return Err(e);
            },
        };
        match expect(toks, pos, TokenKind::Semicolon) {
            Ok(()) => {},
            Err(e) => {
                return Err(e);
            },
        }
        let end = last_end(toks, *pos);
        let ghost m2 = ctx.id_count as int;
        let id = ctx.new_id();
        let nd = NodeData::new(id, start, end);
        proof {
            assert(ids_ok(seq![id as int], m2, m2 + 1));
        }
        if is_break {
            let node = StatementBreak { node_data: nd, description };
            proof {
                let g = node;
                lemma_ids_ok_concat(
                    (match g.description {
                        Some(d) => description_ids(d),
                        None => Seq::empty(),
                    }),
                    seq![id as int],
                    m1,
                    m2,
                    m2 + 1,
                );
            }
            return Ok(Statement::Break(node));
        } else {
            let node = StatementReturn { node_data: nd, description };
            proof {
                let g = node;
                lemma_ids_ok_concat(
                    (match g.description {
                        Some(d) => description_ids(d),
                        None => Seq::empty(),
                    }),
                    seq![id as int],
                    m1,
                    m2,
                    m2 + 1,
                );
            }
            return Ok(Statement::Return(node));
        }
    }
    if at(toks, *pos, TokenKind::KwIf) {
        *pos = *pos + 1;
        let mut if_blocks: Vec<StatementIfBlock> = Vec::new();
        loop
            invariant
                pinv(toks@, *pos as int, *ctx),
                *old(pos) < *pos,
                old(ctx).id_count <= ctx.id_count,
                ctx.id_count - old(ctx).id_count <= 2 * (*pos - *old(pos)) - 1,
                ids_ok(statement_if_blocks_ids(if_blocks@, 0), lo, ctx.id_count as int),
                lo == old(ctx).id_count as int,
            decreases toks@.len() - *pos, 1int,
        {
            let ghost mid = ctx.id_count as int;
            let ghost blocks0 = if_blocks@;
            let bstart = start_of(toks, *pos);
            let cond = match parse_expression(toks, pos, ctx) {
                Ok(e) => e,
                Err(e) => {
                    return Err(e);
                },
            };
            match expect(toks, pos, TokenKind::KwThen) {
                Ok(()) => {},
                Err(e) => {
                    return Err(e);
                },
            }
            let ghost m1 = ctx.id_count as int;
            let stmts = match parse_statement_list(toks, pos, ctx) {
                Ok(v) => v,
                Err(e) => {
                    return Err(e);
                },
            };
            let bend = last_end(toks, *pos);
            let ghost m2 = ctx.id_count as int;
            let bid = ctx.new_id();
            let block = StatementIfBlock { node_data: NodeData::new(bid, bstart, bend), cond, stmts };
            proof {
                let g = block;
                lemma_ids_ok_concat(expression_ids(g.cond), statements_ids(g.stmts@, 0), mid, m1, m2);
                assert(ids_ok(seq![bid as int], m2, m2 + 1));
                lemma_ids_ok_concat(
                    expression_ids(g.cond) + statements_ids(g.stmts@, 0),
                    seq![bid as int],
                    mid,
                    m2,
                    m2 + 1,
                );
                lemma_statement_if_blocks_ids_push(blocks0, g, 0);
                lemma_ids_ok_concat(
                    statement_if_blocks_ids(blocks0, 0),
                    statement_if_block_ids(g),
                    lo,
                    mid,
                    ctx.id_count as int + 1,
                );
            }
            if_blocks.push(block);
            if !at(toks, *pos, TokenKind::KwElseif) {
                break ;
            }
            *pos = *pos + 1;
        }
        let mut else_stmts: Vec<Statement> = Vec::new();
        let ghost m3 = ctx.id_count as int;
        if at(toks, *pos, TokenKind::KwElse) {
            *pos = *pos + 1;
            else_stmts = match parse_statement_list(toks, pos, ctx) {
                Ok(v) => v,
                Err(e) => {
                    return Err(e);
                },
            };
        } else {
            proof {
                assert(statements_ids(else_stmts@, 0) =~= Seq::empty());
            }
        }
        match expect(toks, pos, TokenKind::KwEnd) {
            Ok(()) => {},
            Err(e) => {
                return Err(e);
            },
        }
        match expect(toks, pos, TokenKind::KwIf) {
            Ok(()) => {},
            Err(e) => {
                return Err(e);
            },
        }
        let ghost m4 = ctx.id_count as int;
        let description = match parse_description(toks, pos, ctx) {
            Ok(d) => d,
            Err(e) => {
                return Err(e);
            },
        };
        match expect(toks, pos, TokenKind::Semicolon) {
            Ok(()) => {},
            Err(e) => {
                return Err(e);
            },
        }
        let end = last_end(toks, *pos);
        let ghost m5 = ctx.id_count as int;
        let id = ctx.new_id();
        let node = StatementIf {
            node_data: NodeData::new(id, start, end),
            if_blocks,
            else_stmts,
            description,
        };
        proof {
            let g = node;
            lemma_ids_ok_concat(
                statement_if_blocks_ids(g.if_blocks@, 0),
                statements_ids(g.else_stmts@, 0),
                lo,
                m3,
                m4,
            );
            lemma_ids_ok_concat(
                statement_if_blocks_ids(g.if_blocks@, 0) + statements_ids(g.else_stmts@, 0),
                (match g.description {
                    Some(d) => description_ids(d),
                    None => Seq::empty(),
                }),
                lo,
                m4,
                m5,
            );
            assert(ids_ok(seq![id as int], m5, m5 + 1));
            lemma_ids_ok_concat(
                statement_if_blocks_ids(g.if_blocks@, 0) + statements_ids(g.else_stmts@, 0) + (match g.description {
                    Some(d) => description_ids(d),
                    None => Seq::empty(),
                }),
                seq![id as int],
                lo,
                m5,
                m5 + 1,
            );
        }
        return Ok(Statement::If(node));
    }
    if at(toks, *pos, TokenKind::KwFor) {
        *pos = *pos + 1;
        let indices = match parse_for_indices(toks, pos, ctx) {
            Ok(v) => v,
            Err(e) => {
                return Err(e);
            },
        };
        match expect(toks, pos, TokenKind::KwLoop) {
            Ok(()) => {},
            Err(e) => {
                return Err(e);
            },
        }
        let ghost m1 = ctx.id_count as int;
        let stmts = match parse_statement_list(toks, pos, ctx) {
            Ok(v) => v,
            Err(e) => {
                return Err(e);
            },
        };
        match expect(toks, pos, TokenKind::KwEnd) {
            Ok(()) => {},
            Err(e) => {
                return Err(e);
            },
        }
        match expect(toks, pos, TokenKind::KwFor) {
            Ok(()) => {},
            Err(e) => {
                return Err(e);
            },
        }
        let ghost m2 = ctx.id_count as int;
        let description = match parse_description(toks, pos, ctx) {
            Ok(d) => d,
            Err(e) => {
                return Err(e);
            },
        };
        match expect(toks, pos, TokenKind::Semicolon) {
            Ok(()) => {},
            Err(e) => {
                return Err(e);
            },
        }
        let end = last_end(toks, *pos);
        let ghost m3 = ctx.id_count as int;
        let id = ctx.new_id();
        let node = StatementFor { node_data: NodeData::new(id, start, end), indices, stmts, description };
        proof {
            let g = node;
            lemma_ids_ok_concat(for_indices_ids(g.indices@, 0), statements_ids(g.stmts@, 0), lo, m1, m2);
            lemma_ids_ok_concat(
                for_indices_ids(g.indices@, 0) + statements_ids(g.stmts@, 0),
                (match g.description {
                    Some(d) => description_ids(d),
                    None => Seq::empty(),
                }),
                lo,
                m2,
                m3,
            );
            assert(ids_ok(seq![id as int], m3, m3 + 1));
            lemma_ids_ok_concat(
                for_indices_ids(g.indices@, 0) + statements_ids(g.stmts@, 0) + (match g.description {
                    Some(d) => description_ids(d),
                    None => Seq::empty(),
                }),
                seq![id as int],
                lo,
                m3,
                m3 + 1,
            );
        }
        return Ok(Statement::For(node));
    }
    if at(toks, *pos, TokenKind::KwWhile) {
        *pos = *pos + 1;
        let cond = match parse_expression(toks, pos, ctx) {
            Ok(e) => e,
            Err(e) => {
                return Err(e);
            },
        };
        match expect(toks, pos, TokenKind::KwLoop) {
            Ok(()) => {},
            Err(e) => {
                return Err(e);
            },
        }
        let ghost m1 = ctx.id_count as int;
        let stmts = match parse_statement_list(toks, pos, ctx) {
            Ok(v) => v,
            Err(e) => {
                return Err(e);
            },
        };
        match expect(toks, pos, TokenKind::KwEnd) {
            Ok(()) => {},
            Err(e) => {
                return Err(e);
            },
        }
        match expect(toks, pos, TokenKind::KwWhile) {
            Ok(()) => {},
            Err(e) => {
                return Err(e);
            },
        }
        let ghost m2 = ctx.id_count as int;
        let description = match parse_description(toks, pos, ctx) {
            Ok(d) => d,
            Err(e) => {
                return Err(e);
            },
        };
        match expect(toks, pos, TokenKind::Semicolon) {
            Ok(()) => {},
            Err(e) => {
                return Err(e);
            },
        }
        let end = last_end(toks, *pos);
        let ghost m3 = ctx.id_count as int;
        let id = ctx.new_id();
        let node = StatementWhile { node_data: NodeData::new(id, start, end), cond, stmts, description };
        proof {
            let g = node;
            lemma_ids_ok_concat(expression_ids(g.cond), statements_ids(g.stmts@, 0), lo, m1, m2);
            lemma_ids_ok_concat(
                expression_ids(g.cond) + statements_ids(g.stmts@, 0),
                (match g.description {
                    Some(d) => description_ids(d),
                    None => Seq::empty(),
                }),
                lo,
                m2,
                m3,
            );
            assert(ids_ok(seq![id as int], m3, m3 + 1));
            lemma_ids_ok_concat(
                expression_ids(g.cond) + statements_ids(g.stmts@, 0) + (match g.description {
                    Some(d) => description_ids(d),
                    None => Seq::empty(),
                }),
                seq![id as int],
                lo,
                m3,
                m3 + 1,
            );
        }
        return Ok(Statement::While(node));
    }
    // assignment: comp := expr [description] ;
    let comp = match parse_component_reference(toks, pos, ctx) {
        Ok(c) => c,
        Err(e) => {
            return Err(e);
        },
    };
    match expect(toks, pos, TokenKind::Assign) {
        Ok(()) => {},
        Err(e) => {
            return Err(e);
        },
    }
    let ghost m1 = ctx.id_count as int;
    let rhs = match parse_expression(toks, pos, ctx) {
        Ok(e) => e,
        Err(e) => {
            return Err(e);
        },
    };
    let ghost m2 = ctx.id_count as int;
    let description = match parse_description(toks, pos, ctx) {
        Ok(d) => d,
        Err(e) => {
            return Err(e);
        },
    };
    match expect(toks, pos, TokenKind::Semicolon) {
        Ok(()) => {},
        Err(e) => {
            return Err(e);
        },
    }
    let end = last_end(toks, *pos);
    let ghost m3 = ctx.id_count as int;
    let id = ctx.new_id();
    let node = StatementAssignment { node_data: NodeData::new(id, start, end), comp, rhs, description };
    proof {
        let g = node;
        lemma_ids_ok_concat(component_reference_ids(g.comp), expression_ids(g.rhs), lo, m1, m2);
        lemma_ids_ok_concat(
            component_reference_ids(g.comp) + expression_ids(g.rhs),
            (match g.description {
                Some(d) => description_ids(d),
                None => Seq::empty(),
            }),
            lo,
            m2,
            m3,
        );
        assert(ids_ok(seq![id as int], m3, m3 + 1));
        lemma_ids_ok_concat(
            component_reference_ids(g.comp) + expression_ids(g.rhs) + (match g.description {
                Some(d) => description_ids(d),
                None => Seq::empty(),
            }),
            seq![id as int],
            lo,
            m3,
            m3 + 1,
        );
    }
    Ok(Statement::Assignment(node))
}

} // verus!

verus! {

/// The sequence of ids a class body's fields hold, in field order. The
/// class's own id comes after all of them.
pub open spec fn class_body_ids(
    imports: Seq<ImportClause>,
    modification: Seq<Argument>,
    components: Seq<ComponentDeclaration>,
    classes: Seq<ClassDefinition>,
    equations: Seq<Equation>,
    algorithms: Seq<Vec<Statement>>,
    initial_equations: Seq<Equation>,
    initial_algorithms: Seq<Vec<Statement>>,
) -> Seq<int> {
    import_clauses_ids(imports, 0) + arguments_ids(modification, 0) + component_declarations_ids(
        components,
        0,
    ) + classes_ids(classes, 0) + equations_ids(equations, 0) + statement_lists_ids(algorithms, 0)
        + equations_ids(initial_equations, 0) + statement_lists_ids(initial_algorithms, 0)
}

/// Parses the keyword naming the kind of a class, including the two-word
/// kinds (`operator record`, `pure function`, `expandable connector`, ...).
fn parse_class_type(toks: &Vec<Token>, pos: &mut usize) -> (r: Result<ClassType, ParseError>)
    requires
        *old(pos) <= toks@.len(),
        toks@.len() <= MAX_TOKENS as int,
    ensures
        *old(pos) <= *final(pos) <= toks@.len(),
        r is Ok ==> *final(pos) > *old(pos),
        *old(pos) < toks@.len() && toks@[*old(pos) as int].kind == TokenKind::KwModel ==> r
            == Ok::<ClassType, ParseError>(ClassType::Model) && *final(pos) == *old(pos) + 1,
        r is Err ==> parse_error_wf(r->Err_0, toks@),
{
    let k = peek(toks, *pos);
    match k {
        Some(TokenKind::KwClass) => {
            *pos = *pos + 1;
            Ok(ClassType::Class)
        },
        Some(TokenKind::KwModel) => {
            *pos = *pos + 1;
            Ok(ClassType::Model)
        },
        Some(TokenKind::KwRecord) => {
            *pos = *pos + 1;
            Ok(ClassType::Record)
        },
        Some(TokenKind::KwBlock) => {
            *pos = *pos + 1;
            Ok(ClassType::Block)
        },
        Some(TokenKind::KwConnector) => {
            *pos = *pos + 1;
            Ok(ClassType::Connector)
        },
        Some(TokenKind::KwType) => {
            *pos = *pos + 1;
            Ok(ClassType::Type)
        },
        Some(TokenKind::KwPackage) => {
            *pos = *pos + 1;
            Ok(ClassType::Package)
        },
        Some(TokenKind::KwFunction) => {
            *pos = *pos + 1;
            Ok(ClassType::Function)
        },
        Some(TokenKind::KwOperator) => {
            *pos = *pos + 1;
            if at(toks, *pos, TokenKind::KwRecord) {
                *pos = *pos + 1;
                Ok(ClassType::OperatorRecord)
            } else if at(toks, *pos, TokenKind::KwFunction) {
                *pos = *pos + 1;
                Ok(ClassType::OperatorFunction)
            } else {
                Ok(ClassType::Operator)
            }
        },
        Some(TokenKind::KwPure) => {
            *pos = *pos + 1;
            match expect(toks, pos, TokenKind::KwFunction) {
                Ok(()) => Ok(ClassType::PureFunction),
                Err(e) => Err(e),
            }
        },
        Some(TokenKind::KwImpure) => {
            *pos = *pos + 1;
            match expect(toks, pos, TokenKind::KwFunction) {
                Ok(()) => Ok(ClassType::ImpureFunction),
                Err(e) => Err(e),
            }
        },
        Some(TokenKind::KwExpandable) => {
            *pos = *pos + 1;
            match expect(toks, pos, TokenKind::KwConnector) {
                Ok(()) => Ok(ClassType::ExpandableConnector),
                Err(e) => Err(e),
            }
        },
        _ => Err(
            err_here(
                toks,
                *pos,
                vec![
                    TokenKind::KwClass,
                    TokenKind::KwModel,
                    TokenKind::KwRecord,
                    TokenKind::KwBlock,
                    TokenKind::KwConnector,
                    TokenKind::KwType,
                    TokenKind::KwPackage,
                    TokenKind::KwFunction,
                    TokenKind::KwOperator,
                    TokenKind::KwPure,
                    TokenKind::KwImpure,
                    TokenKind::KwExpandable,
                ],
            ),
        ),
    }
}

/// Looks ahead (without consuming) to tell a nested class definition from a
/// component clause: skips shared element prefixes, then checks for a
/// class-kind keyword.
#[verifier::loop_isolation(false)]
fn looks_like_class(toks: &Vec<Token>, pos: usize) -> (r: bool)
    requires
        pos <= toks@.len(),
    ensures
        pos < toks@.len() && is_class_kind_token(toks@[pos as int].kind) ==> r,
{
    let n = toks.len();
    let mut j = pos;
    while j < n && (toks[j].kind == TokenKind::KwFinal || toks[j].kind == TokenKind::KwRedeclare
        || toks[j].kind == TokenKind::KwInner || toks[j].kind == TokenKind::KwOuter
        || toks[j].kind == TokenKind::KwReplaceable)
        invariant
            pos <= j <= n,
            pos < toks@.len() && is_class_kind_token(toks@[pos as int].kind) ==> j == pos,
        decreases n - j,
    {
        j = j + 1;
    }
    if j >= n {
        return false;
    }
    let k = toks[j].kind;
    k == TokenKind::KwEncapsulated || k == TokenKind::KwPartial || k == TokenKind::KwClass || k
        == TokenKind::KwModel || k == TokenKind::KwRecord || k == TokenKind::KwBlock || k
        == TokenKind::KwConnector || k == TokenKind::KwType || k == TokenKind::KwPackage || k
        == TokenKind::KwFunction || k == TokenKind::KwOperator || k == TokenKind::KwPure || k
        == TokenKind::KwImpure || k == TokenKind::KwExpandable
}

/// Parses one declarator of a component clause: a name with optional
/// subscripts, modification, conditional guard and description. The shared
/// clause prefixes are passed in.
#[verifier::loop_isolation(false)]
fn parse_declarator(
    toks: &Vec<Token>,
    pos: &mut usize,
    ctx: &mut ParserContext,
    ts: &TypeSpecifier,
    flags: ElementFlags,
    prefix: TypePrefix,
    visibility: Visibility,
) -> (r: Result<ComponentDeclaration, ParseError>)
    requires
        pinv(toks@, *old(pos) as int, *old(ctx)),
    ensures
        pstep(toks@, *old(pos) as int, *final(pos) as int, *old(ctx), *final(ctx)),
        r is Ok ==> *final(pos) > *old(pos),
        r is Ok ==> ids_ok(
            component_declaration_ids(r->Ok_0),
            old(ctx).id_count as int,
            final(ctx).id_count as int,
        ),
        r is Err ==> parse_error_wf(r->Err_0, toks@),
    decreases toks@.len() - *pos, 74int,
{
    let ghost mid = ctx.id_count as int;
    let dstart = start_of(toks, *pos);
    let name = match expect_ident(toks, pos) {
        Ok(s) => s,
        Err(e) => {
            return Err(e);
        },
    };
    let mut array_subscripts: Vec<Subscript> = Vec::new();
    if at(toks, *pos, TokenKind::LBracket) {
        array_subscripts = match parse_array_subscripts(toks, pos, ctx) {
            Ok(v) => v,
            Err(e) => {
                return Err(e);
            },
        };
    } else {
        proof {
            assert(subscripts_ids(array_subscripts@, 0) =~= Seq::empty());
        }
    }
    let ghost m1 = ctx.id_count as int;
    let mut modification: Option<Modification> = None;
    if at(toks, *pos, TokenKind::LParen) || at(toks, *pos, TokenKind::Eq) || at(
        toks,
        *pos,
        TokenKind::Assign,
    ) {
        modification = match parse_modification(toks, pos, ctx) {
            Ok(m) => Some(m),
            Err(e) => {
                return Err(e);
            },
        };
    }
    let ghost m2 = ctx.id_count as int;
    let mut condition_attribute: Option<Expression> = None;
    if at(toks, *pos, TokenKind::KwIf) {
        *pos = *pos + 1;
        condition_attribute = match parse_expression(toks, pos, ctx) {
            Ok(e) => Some(e),
            Err(e) => {
                return Err(e);
            },
        };
    }
    let ghost m3 = ctx.id_count as int;
    let description = match parse_description(toks, pos, ctx) {
        Ok(d) => d,
        Err(e) => {
            return Err(e);
        },
    };
    let dend = last_end(toks, *pos);
    let ghost m4 = ctx.id_count as int;
    let id = ctx.new_id();
    let decl = Declaration { name, array_subscripts, modification };
    let cd = ComponentDeclaration {
        node_data: NodeData::new(id, dstart, dend),
        name: decl.name,
        type_specifier: ts.clone(),
        flags,
        connection: prefix.connection,
        variability: prefix.variability,
        causality: prefix.causality,
        visibility,
        array_subscripts: decl.array_subscripts,
        modification: decl.modification,
        condition_attribute,
        description,
    };
    proof {
        let g = cd;
        let sa = subscripts_ids(g.array_subscripts@, 0);
        let sb = (match g.modification {
            Some(m) => modification_ids(m),
            None => Seq::empty(),
        });
        let sc = (match g.condition_attribute {
            Some(e) => expression_ids(e),
            None => Seq::empty(),
        });
        let sd = (match g.description {
            Some(d) => description_ids(d),
            None => Seq::empty(),
        });
        lemma_ids_ok_concat(sa, sb, mid, m1, m2);
        lemma_ids_ok_concat(sa + sb, sc, mid, m2, m3);
        lemma_ids_ok_concat(sa + sb + sc, sd, mid, m3, m4);
        assert(ids_ok(seq![id as int], m4, m4 + 1));
        lemma_ids_ok_concat(sa + sb + sc + sd, seq![id as int], mid, m4, m4 + 1);
        assert(component_declaration_ids(g) == sa + sb + sc + sd + seq![id as int]);
    }
    Ok(cd)
}

/// Parses one component clause: element prefixes, a type prefix, a type
/// specifier and one or more declarators, ended by `;`. Every declarator
/// becomes one component declaration carrying the shared prefixes and the
/// given visibility; each declared name must be new, both within the clause
/// and against the class's components so far.
#[verifier::loop_isolation(false)]
#[verifier::spinoff_prover]
#[verifier::rlimit(60)]
fn parse_component_clause(
    toks: &Vec<Token>,
    pos: &mut usize,
    ctx: &mut ParserContext,
    visibility: Visibility,
    existing: &Vec<ComponentDeclaration>,
) -> (r: Result<Vec<ComponentDeclaration>, ParseError>)
    requires
        pinv(toks@, *old(pos) as int, *old(ctx)),
        unique_component_names(existing@),
    ensures
        pstep(toks@, *old(pos) as int, *final(pos) as int, *old(ctx), *final(ctx)),
        r is Ok ==> *final(pos) > *old(pos),
        r is Ok ==> ids_ok(
            component_declarations_ids(r->Ok_0@, 0),
            old(ctx).id_count as int,
            final(ctx).id_count as int,
        ),
        r is Ok ==> unique_component_names(existing@ + r->Ok_0@),
        r is Err ==> parse_error_wf(r->Err_0, toks@),
    decreases toks@.len() - *pos, 75int,
{
    proof {
        assert(existing@ + Seq::<ComponentDeclaration>::empty() =~= existing@);
    }
    let ghost lo = ctx.id_count as int;
    let mut flags = ElementFlags {
        replaceable: false,
        redeclare: false,
        is_final: false,
        inner: false,
        outer: false,
    };
    while at(toks, *pos, TokenKind::KwFinal) || at(toks, *pos, TokenKind::KwRedeclare) || at(
        toks,
        *pos,
        TokenKind::KwInner,
    ) || at(toks, *pos, TokenKind::KwOuter) || at(toks, *pos, TokenKind::KwReplaceable)
        invariant
            pinv(toks@, *pos as int, *ctx),
            *old(pos) <= *pos,
            ctx.id_count == old(ctx).id_count,
        decreases toks@.len() - *pos,
    {
        if at(toks, *pos, TokenKind::KwFinal) {
            flags.is_final = true;
        } else if at(toks, *pos, TokenKind::KwRedeclare) {
            flags.redeclare = true;
        } else if at(toks, *pos, TokenKind::KwInner) {
            flags.inner = true;
        } else if at(toks, *pos, TokenKind::KwOuter) {
            flags.outer = true;
        } else {
            flags.replaceable = true;
        }
        *pos = *pos + 1;
    }
    let mut connection = Connection::Empty;
    if at(toks, *pos, TokenKind::KwFlow) {
        connection = Connection::Flow;
        *pos = *pos + 1;
    } else if at(toks, *pos, TokenKind::KwStream) {
        connection = Connection::Stream;
        *pos = *pos + 1;
    }
    let mut variability = Variability::Empty;
    if at(toks, *pos, TokenKind::KwDiscrete) {
        variability = Variability::Discrete;
        *pos = *pos + 1;
    } else if at(toks, *pos, TokenKind::KwParameter) {
        variability = Variability::Parameter;
        *pos = *pos + 1;
    } else if at(toks, *pos, TokenKind::KwConstant) {
        variability = Variability::Constant;
        *pos = *pos + 1;
    }
    let mut causality = Causality::Empty;
    if at(toks, *pos, TokenKind::KwInput) {
        causality = Causality::Input;
        *pos = *pos + 1;
    } else if at(toks, *pos, TokenKind::KwOutput) {
        causality = Causality::Output;
        *pos = *pos + 1;
    }
    let prefix = TypePrefix { connection, variability, causality };
    let ts = match parse_type_specifier(toks, pos) {
        Ok(t) => t,
        Err(e) => {
            return Err(e);
        },
    };
    let mut cds: Vec<ComponentDeclaration> = Vec::new();
    loop
        invariant
            pinv(toks@, *pos as int, *ctx),
            *old(pos) < *pos,
            old(ctx).id_count <= ctx.id_count,
            ctx.id_count - old(ctx).id_count <= 2 * (*pos - *old(pos)),
            ids_ok(component_declarations_ids(cds@, 0), lo, ctx.id_count as int),
            lo == old(ctx).id_count as int,
            unique_component_names(existing@ + cds@),
        decreases toks@.len() - *pos, 1int,
    {
        let ghost mid = ctx.id_count as int;
        let ghost cds0 = cds@;
        let dpos = *pos;
        let cd = match parse_declarator(toks, pos, ctx, &ts, flags, prefix, visibility) {
            Ok(c) => c,
            Err(e) => {
                return Err(e);
            },
        };
        if has_component_named(existing, &cd.name) || has_component_named(&cds, &cd.name) {
            return Err(err_here(toks, dpos, vec![TokenKind::Ident]));
        }
        proof {
            lemma_unique_components_push(existing@, cds0, cd);
            lemma_component_declarations_ids_push(cds0, cd, 0);
            lemma_ids_ok_concat(
                component_declarations_ids(cds0, 0),
                component_declaration_ids(cd),
                lo,
                mid,
                ctx.id_count as int,
            );
        }
        cds.push(cd);
        if at(toks, *pos, TokenKind::Comma) {
            *pos = *pos + 1;
        } else {
            match expect(toks, pos, TokenKind::Semicolon) {
                Ok(()) => {
                    return Ok(cds);
                },
                Err(e) => {
                    return Err(e);
                },
            }
        }
    }
}

} // verus!

verus! {



/// The token kinds that can open a class definition head.
pub open spec fn is_class_kind_token(k: TokenKind) -> bool {
    ||| k == TokenKind::KwEncapsulated
    ||| k == TokenKind::KwPartial
    ||| k == TokenKind::KwClass
    ||| k == TokenKind::KwModel
    ||| k == TokenKind::KwRecord
    ||| k == TokenKind::KwBlock
    ||| k == TokenKind::KwConnector
    ||| k == TokenKind::KwType
    ||| k == TokenKind::KwPackage
    ||| k == TokenKind::KwFunction
    ||| k == TokenKind::KwOperator
    ||| k == TokenKind::KwPure
    ||| k == TokenKind::KwImpure
    ||| k == TokenKind::KwExpandable
}

/// Four tokens from `at` spell a minimal model class with a matching end
/// name: `model <name> end <name>`.
pub open spec fn minimal_model_tokens(toks: Seq<Token>, at: int) -> bool {
    &&& 0 <= at && at + 4 <= toks.len()
    &&& toks[at].kind == TokenKind::KwModel
    &&& toks[at + 1].kind == TokenKind::Ident
    &&& toks[at + 2].kind == TokenKind::KwEnd
    &&& toks[at + 3].kind == TokenKind::Ident
    &&& toks[at + 3].text@ == toks[at + 1].text@
}

/// A model class with the given name and nothing inside it: no prefixes, no
/// body parts of any kind.
pub open spec fn is_empty_model_class(c: ClassDefinition, name: Seq<char>) -> bool {
    &&& c.name@ == name
    &&& c.class_type == ClassType::Model
    &&& c.flags == (ClassFlags {
        partial: false,
        encapsulated: false,
        replaceable: false,
        redeclare: false,
        is_final: false,
        inner: false,
        outer: false,
    })
    &&& c.extends@.len() == 0
    &&& c.imports@.len() == 0
    &&& c.modification@.len() == 0
    &&& c.description.parts@.len() == 0
    &&& c.components@.len() == 0
    &&& c.classes@.len() == 0
    &&& c.equations@.len() == 0
    &&& c.algorithms@.len() == 0
    &&& c.initial_equations@.len() == 0
    &&& c.initial_algorithms@.len() == 0
}

/// The eight field groups of a class body, with fresh ids spliced into one
/// of them, still hold pairwise distinct ids. One lemma per group that the
/// body loop extends.
#[verifier::spinoff_prover]
#[verifier::rlimit(50)]
proof fn lemma_body_insert_imports(
    imports: Seq<ImportClause>,
    modification: Seq<Argument>,
    components: Seq<ComponentDeclaration>,
    classes: Seq<ClassDefinition>,
    equations: Seq<Equation>,
    algorithms: Seq<Vec<Statement>>,
    initial_equations: Seq<Equation>,
    initial_algorithms: Seq<Vec<Statement>>,
    ic: ImportClause,
    lo: int,
    mid: int,
    hi: int,
)
    requires
        lo <= mid <= hi,
        ids_ok(
            class_body_ids(imports, modification, components, classes, equations, algorithms,
                initial_equations, initial_algorithms),
            lo,
            mid,
        ),
        ids_ok(import_clause_ids(ic), mid, hi),
    ensures
        ids_ok(
            class_body_ids(imports.push(ic), modification, components, classes, equations,
                algorithms, initial_equations, initial_algorithms),
            lo,
            hi,
        ),
{
    let x = import_clauses_ids(imports, 0);
    let y = arguments_ids(modification, 0) + component_declarations_ids(components, 0)
        + classes_ids(classes, 0) + equations_ids(equations, 0) + statement_lists_ids(
        algorithms,
        0,
    ) + equations_ids(initial_equations, 0) + statement_lists_ids(initial_algorithms, 0);
    assert(x + y =~= class_body_ids(imports, modification, components, classes, equations,
        algorithms, initial_equations, initial_algorithms));
    lemma_import_clauses_ids_push(imports, ic, 0);
    lemma_ids_ok_insert(x, import_clause_ids(ic), y, lo, mid, hi);
    assert(class_body_ids(imports.push(ic), modification, components, classes, equations,
        algorithms, initial_equations, initial_algorithms) =~= x + import_clause_ids(ic) + y);
}

proof fn lemma_body_insert_components(
    imports: Seq<ImportClause>,
    modification: Seq<Argument>,
    components: Seq<ComponentDeclaration>,
    classes: Seq<ClassDefinition>,
    equations: Seq<Equation>,
    algorithms: Seq<Vec<Statement>>,
    initial_equations: Seq<Equation>,
    initial_algorithms: Seq<Vec<Statement>>,
    cds: Seq<ComponentDeclaration>,
    lo: int,
    mid: int,
    hi: int,
)
    requires
        lo <= mid <= hi,
        ids_ok(
            class_body_ids(imports, modification, components, classes, equations, algorithms,
                initial_equations, initial_algorithms),
            lo,
            mid,
        ),
        ids_ok(component_declarations_ids(cds, 0), mid, hi),
    ensures
        ids_ok(
            class_body_ids(imports, modification, components + cds, classes, equations,
                algorithms, initial_equations, initial_algorithms),
            lo,
            hi,
        ),
{
    let x = import_clauses_ids(imports, 0) + arguments_ids(modification, 0)
        + component_declarations_ids(components, 0);
    let y = classes_ids(classes, 0) + equations_ids(equations, 0) + statement_lists_ids(
        algorithms,
        0,
    ) + equations_ids(initial_equations, 0) + statement_lists_ids(initial_algorithms, 0);
    assert(x + y =~= class_body_ids(imports, modification, components, classes, equations,
        algorithms, initial_equations, initial_algorithms));
    lemma_component_declarations_ids_concat(components, cds);
    lemma_ids_ok_insert(x, component_declarations_ids(cds, 0), y, lo, mid, hi);
    assert(class_body_ids(imports, modification, components + cds, classes, equations, algorithms,
        initial_equations, initial_algorithms) =~= x + component_declarations_ids(cds, 0) + y);
}

proof fn lemma_body_insert_class(
    imports: Seq<ImportClause>,
    modification: Seq<Argument>,
    components: Seq<ComponentDeclaration>,
    classes: Seq<ClassDefinition>,
    equations: Seq<Equation>,
    algorithms: Seq<Vec<Statement>>,
    initial_equations: Seq<Equation>,
    initial_algorithms: Seq<Vec<Statement>>,
    c: ClassDefinition,
    lo: int,
    mid: int,
    hi: int,
)
    requires
        lo <= mid <= hi,
        ids_ok(
            class_body_ids(imports, modification, components, classes, equations, algorithms,
                initial_equations, initial_algorithms),
            lo,
            mid,
        ),
        ids_ok(class_definition_ids(c), mid, hi),
    ensures
        ids_ok(
            class_body_ids(imports, modification, components, classes.push(c), equations,
                algorithms, initial_equations, initial_algorithms),
            lo,
            hi,
        ),
{
    let x = import_clauses_ids(imports, 0) + arguments_ids(modification, 0)
        + component_declarations_ids(components, 0) + classes_ids(classes, 0);
    let y = equations_ids(equations, 0) + statement_lists_ids(algorithms, 0) + equations_ids(
        initial_equations,
        0,
    ) + statement_lists_ids(initial_algorithms, 0);
    assert(x + y =~= class_body_ids(imports, modification, components, classes, equations,
        algorithms, initial_equations, initial_algorithms));
    lemma_classes_ids_push(classes, c, 0);
    lemma_ids_ok_insert(x, class_definition_ids(c), y, lo, mid, hi);
    assert(class_body_ids(imports, modification, components, classes.push(c), equations,
        algorithms, initial_equations, initial_algorithms) =~= x + class_definition_ids(c) + y);
}

proof fn lemma_body_insert_equations(
    imports: Seq<ImportClause>,
    modification: Seq<Argument>,
    components: Seq<ComponentDeclaration>,
    classes: Seq<ClassDefinition>,
    equations: Seq<Equation>,
    algorithms: Seq<Vec<Statement>>,
    initial_equations: Seq<Equation>,
    initial_algorithms: Seq<Vec<Statement>>,
    ne: Seq<Equation>,
    lo: int,
    mid: int,
    hi: int,
)
    requires
        lo <= mid <= hi,
        ids_ok(
            class_body_ids(imports, modification, components, classes, equations, algorithms,
                initial_equations, initial_algorithms),
            lo,
            mid,
        ),
        ids_ok(equations_ids(ne, 0), mid, hi),
    ensures
        ids_ok(
            class_body_ids(imports, modification, components, classes, equations + ne, algorithms,
                initial_equations, initial_algorithms),
            lo,
            hi,
        ),
{
    let x = import_clauses_ids(imports, 0) + arguments_ids(modification, 0)
        + component_declarations_ids(components, 0) + classes_ids(classes, 0) + equations_ids(
        equations,
        0,
    );
    let y = statement_lists_ids(algorithms, 0) + equations_ids(initial_equations, 0)
        + statement_lists_ids(initial_algorithms, 0);
    assert(x + y =~= class_body_ids(imports, modification, components, classes, equations,
        algorithms, initial_equations, initial_algorithms));
    lemma_equations_ids_concat(equations, ne);
    lemma_ids_ok_insert(x, equations_ids(ne, 0), y, lo, mid, hi);
    assert(class_body_ids(imports, modification, components, classes, equations + ne, algorithms,
        initial_equations, initial_algorithms) =~= x + equations_ids(ne, 0) + y);
}

proof fn lemma_body_insert_algorithm(
    imports: Seq<ImportClause>,
    modification: Seq<Argument>,
    components: Seq<ComponentDeclaration>,
    classes: Seq<ClassDefinition>,
    equations: Seq<Equation>,
    algorithms: Seq<Vec<Statement>>,
    initial_equations: Seq<Equation>,
    initial_algorithms: Seq<Vec<Statement>>,
    sl: Vec<Statement>,
    lo: int,
    mid: int,
    hi: int,
)
    requires
        lo <= mid <= hi,
        ids_ok(
            class_body_ids(imports, modification, components, classes, equations, algorithms,
                initial_equations, initial_algorithms),
            lo,
            mid,
        ),
        ids_ok(statements_ids(sl@, 0), mid, hi),
    ensures
        ids_ok(
            class_body_ids(imports, modification, components, classes, equations,
                algorithms.push(sl), initial_equations, initial_algorithms),
            lo,
            hi,
        ),
{
    let x = import_clauses_ids(imports, 0) + arguments_ids(modification, 0)
        + component_declarations_ids(components, 0) + classes_ids(classes, 0) + equations_ids(
        equations,
        0,
    ) + statement_lists_ids(algorithms, 0);
    let y = equations_ids(initial_equations, 0) + statement_lists_ids(initial_algorithms, 0);
    assert(x + y =~= class_body_ids(imports, modification, components, classes, equations,
        algorithms, initial_equations, initial_algorithms));
    lemma_statement_lists_ids_push(algorithms, sl, 0);
    lemma_ids_ok_insert(x, statements_ids(sl@, 0), y, lo, mid, hi);
    assert(class_body_ids(imports, modification, components, classes, equations,
        algorithms.push(sl), initial_equations, initial_algorithms) =~= x + statements_ids(sl@, 0)
        + y);
}

proof fn lemma_body_insert_initial_equations(
    imports: Seq<ImportClause>,
    modification: Seq<Argument>,
    components: Seq<ComponentDeclaration>,
    classes: Seq<ClassDefinition>,
    equations: Seq<Equation>,
    algorithms: Seq<Vec<Statement>>,
    initial_equations: Seq<Equation>,
    initial_algorithms: Seq<Vec<Statement>>,
    ne: Seq<Equation>,
    lo: int,
    mid: int,
    hi: int,
)
    requires
        lo <= mid <= hi,
        ids_ok(
            class_body_ids(imports, modification, components, classes, equations, algorithms,
                initial_equations, initial_algorithms),
            lo,
            mid,
        ),
        ids_ok(equations_ids(ne, 0), mid, hi),
    ensures
        ids_ok(
            class_body_ids(imports, modification, components, classes, equations, algorithms,
                initial_equations + ne, initial_algorithms),
            lo,
            hi,
        ),
{
    let x = import_clauses_ids(imports, 0) + arguments_ids(modification, 0)
        + component_declarations_ids(components, 0) + classes_ids(classes, 0) + equations_ids(
        equations,
        0,
    ) + statement_lists_ids(algorithms, 0) + equations_ids(initial_equations, 0);
    let y = statement_lists_ids(initial_algorithms, 0);
    assert(x + y =~= class_body_ids(imports, modification, components, classes, equations,
        algorithms, initial_equations, initial_algorithms));
    lemma_equations_ids_concat(initial_equations, ne);
    lemma_ids_ok_insert(x, equations_ids(ne, 0), y, lo, mid, hi);
    assert(class_body_ids(imports, modification, components, classes, equations, algorithms,
        initial_equations + ne, initial_algorithms) =~= x + equations_ids(ne, 0) + y);
}

proof fn lemma_body_insert_initial_algorithm(
    imports: Seq<ImportClause>,
    modification: Seq<Argument>,
    components: Seq<ComponentDeclaration>,
    classes: Seq<ClassDefinition>,
    equations: Seq<Equation>,
    algorithms: Seq<Vec<Statement>>,
    initial_equations: Seq<Equation>,
    initial_algorithms: Seq<Vec<Statement>>,
    sl: Vec<Statement>,
    lo: int,
    mid: int,
    hi: int,
)
    requires
        lo <= mid <= hi,
        ids_ok(
            class_body_ids(imports, modification, components, classes, equations, algorithms,
                initial_equations, initial_algorithms),
            lo,
            mid,
        ),
        ids_ok(statements_ids(sl@, 0), mid, hi),
    ensures
        ids_ok(
            class_body_ids(imports, modification, components, classes, equations, algorithms,
                initial_equations, initial_algorithms.push(sl)),
            lo,
            hi,
        ),
{
    let x = import_clauses_ids(imports, 0) + arguments_ids(modification, 0)
        + component_declarations_ids(components, 0) + classes_ids(classes, 0) + equations_ids(
        equations,
        0,
    ) + statement_lists_ids(algorithms, 0) + equations_ids(initial_equations, 0)
        + statement_lists_ids(initial_algorithms, 0);
    let y = Seq::<int>::empty();
    assert(x + y =~= class_body_ids(imports, modification, components, classes, equations,
        algorithms, initial_equations, initial_algorithms));
    lemma_statement_lists_ids_push(initial_algorithms, sl, 0);
    lemma_ids_ok_insert(x, statements_ids(sl@, 0), y, lo, mid, hi);
    assert(class_body_ids(imports, modification, components, classes, equations, algorithms,
        initial_equations, initial_algorithms.push(sl)) =~= x + statements_ids(sl@, 0) + y);
}


/// Class names are pairwise distinct within the sequence.
pub open spec fn unique_class_names(s: Seq<ClassDefinition>) -> bool {
    forall|i: int, j: int| 0 <= i < j < s.len() ==> (#[trigger] s[i]).name@ != (#[trigger] s[j]).name@
}

/// Component names are pairwise distinct within the sequence.
pub open spec fn unique_component_names(s: Seq<ComponentDeclaration>) -> bool {
    forall|i: int, j: int| 0 <= i < j < s.len() ==> (#[trigger] s[i]).name@ != (#[trigger] s[j]).name@
}

/// The naming invariant of a class, holding throughout the tree: component
/// and nested-class names are unique within each class.
pub open spec fn class_names_wf(c: ClassDefinition) -> bool
    decreases c, 0int,
{
    &&& unique_component_names(c.components@)
    &&& unique_class_names(c.classes@)
    &&& forall|i: int| 0 <= i < c.classes@.len() ==> class_names_wf(#[trigger] c.classes@[i])
}

/// The naming invariant of a whole stored definition.
pub open spec fn stored_names_wf(d: StoredDefinition) -> bool {
    &&& unique_class_names(d.classes@)
    &&& forall|i: int| 0 <= i < d.classes@.len() ==> class_names_wf(#[trigger] d.classes@[i])
}


/// Appending a class whose name is fresh keeps class names unique.
proof fn lemma_unique_classes_push(s: Seq<ClassDefinition>, c: ClassDefinition)
    requires
        unique_class_names(s),
        forall|i: int| 0 <= i < s.len() ==> (#[trigger] s[i]).name@ != c.name@,
    ensures
        unique_class_names(s.push(c)),
{
    let s1 = s.push(c);
    assert forall|i: int, j: int| 0 <= i < j < s1.len() implies (#[trigger] s1[i]).name@
        != (#[trigger] s1[j]).name@ by {
        if j < s.len() {
            assert(s1[i] == s[i] && s1[j] == s[j]);
        } else {
            assert(s1[j] == c && s1[i] == s[i]);
        }
    }
}

/// Appending a component whose name is fresh keeps component names unique.
proof fn lemma_unique_components_push(
    existing: Seq<ComponentDeclaration>,
    cds: Seq<ComponentDeclaration>,
    cd: ComponentDeclaration,
)
    requires
        unique_component_names(existing + cds),
        forall|i: int| 0 <= i < existing.len() ==> (#[trigger] existing[i]).name@ != cd.name@,
        forall|i: int| 0 <= i < cds.len() ==> (#[trigger] cds[i]).name@ != cd.name@,
    ensures
        unique_component_names(existing + cds.push(cd)),
{
    let all0 = existing + cds;
    let all1 = existing + cds.push(cd);
    assert(all1 =~= all0.push(cd));
    assert forall|i: int, j: int| 0 <= i < j < all1.len() implies (#[trigger] all1[i]).name@
        != (#[trigger] all1[j]).name@ by {
        if j < all0.len() {
            assert(all1[i] == all0[i] && all1[j] == all0[j]);
        } else {
            assert(all1[j] == cd);
            if i < existing.len() {
                assert(all1[i] == existing[i]);
            } else {
                assert(all1[i] == cds[i - existing.len()]);
            }
        }
    }
}

/// True if some class in the sequence already has this name.
#[verifier::loop_isolation(false)]
fn has_class_named(classes: &Vec<ClassDefinition>, name: &String) -> (r: bool)
    ensures
        r == exists|i: int| 0 <= i < classes@.len() && (#[trigger] classes@[i]).name@ == name@,
{
    let n = classes.len();
    for i in 0..n
        invariant
            forall|k: int| 0 <= k < i ==> (#[trigger] classes@[k]).name@ != name@,
        decreases n - i,
    {
        if classes[i].name == *name {
            return true;
        }
    }
    false
}

/// True if some component in the sequence already has this name.
#[verifier::loop_isolation(false)]
fn has_component_named(components: &Vec<ComponentDeclaration>, name: &String) -> (r: bool)
    ensures
        r == exists|i: int| 0 <= i < components@.len() && (#[trigger] components@[i]).name@
            == name@,
{
    let n = components.len();
    for i in 0..n
        invariant
            forall|k: int| 0 <= k < i ==> (#[trigger] components@[k]).name@ != name@,
        decreases n - i,
    {
        if components[i].name == *name {
            return true;
        }
    }
    false
}

/// Parses the head of a class definition: prefix flags, the class kind, the
/// class name (possibly in the `extends` specifier form, which carries a
/// modification), and the description string.
#[verifier::loop_isolation(false)]
fn parse_class_head(toks: &Vec<Token>, pos: &mut usize, ctx: &mut ParserContext) -> (r: Result<
    (ClassFlags, ClassType, String, Vec<Argument>, DescriptionString, usize),
    ParseError,
>)
    requires
        pinv(toks@, *old(pos) as int, *old(ctx)),
    ensures
        pstep(toks@, *old(pos) as int, *final(pos) as int, *old(ctx), *final(ctx)),
        r is Ok ==> *final(pos) > *old(pos),
        r is Ok ==> final(ctx).id_count - old(ctx).id_count <= 2 * (*final(pos) - *old(pos)) - 4,
        r is Ok ==> ids_ok(
            arguments_ids(r->Ok_0.3@, 0),
            old(ctx).id_count as int,
            final(ctx).id_count as int,
        ),
        r is Ok ==> r->Ok_0.5 <= toks@.len(),
        ({
            &&& *old(pos) + 3 <= toks@.len()
            &&& toks@[*old(pos) as int].kind == TokenKind::KwModel
            &&& toks@[*old(pos) + 1].kind == TokenKind::Ident
            &&& toks@[*old(pos) + 2].kind == TokenKind::KwEnd
        }) ==> ({
            &&& r matches Ok(h)
            &&& *final(pos) == *old(pos) + 2
            &&& *final(ctx) == *old(ctx)
            &&& h.0 == (ClassFlags {
                partial: false,
                encapsulated: false,
                replaceable: false,
                redeclare: false,
                is_final: false,
                inner: false,
                outer: false,
            })
            &&& h.1 == ClassType::Model
            &&& h.2@ == toks@[*old(pos) + 1].text@
            &&& h.3@.len() == 0
            &&& h.4.parts@.len() == 0
            &&& h.5 == *old(pos) + 1
        }),
        r is Err ==> parse_error_wf(r->Err_0, toks@),
    decreases toks@.len() - *pos, 82int,
{
    let ghost hyp = *old(pos) + 3 <= toks@.len() && toks@[*old(pos) as int].kind
        == TokenKind::KwModel && toks@[*old(pos) + 1].kind == TokenKind::Ident && toks@[*old(pos)
        + 2].kind == TokenKind::KwEnd;
    let ghost lo = ctx.id_count as int;
    let mut flags = ClassFlags {
        partial: false,
        encapsulated: false,
        replaceable: false,
        redeclare: false,
        is_final: false,
        inner: false,
        outer: false,
    };
    while at(toks, *pos, TokenKind::KwEncapsulated) || at(toks, *pos, TokenKind::KwPartial) || at(
        toks,
        *pos,
        TokenKind::KwFinal,
    ) || at(toks, *pos, TokenKind::KwRedeclare) || at(toks, *pos, TokenKind::KwInner) || at(
        toks,
        *pos,
        TokenKind::KwOuter,
    ) || at(toks, *pos, TokenKind::KwReplaceable)
        invariant
            pinv(toks@, *pos as int, *ctx),
            *old(pos) <= *pos,
            ctx.id_count == old(ctx).id_count,
            hyp ==> *pos == *old(pos) && flags == (ClassFlags {
                partial: false,
                encapsulated: false,
                replaceable: false,
                redeclare: false,
                is_final: false,
                inner: false,
                outer: false,
            }),
        decreases toks@.len() - *pos,
    {
        if at(toks, *pos, TokenKind::KwEncapsulated) {
            flags.encapsulated = true;
        } else if at(toks, *pos, TokenKind::KwPartial) {
            flags.partial = true;
        } else if at(toks, *pos, TokenKind::KwFinal) {
            flags.is_final = true;
        } else if at(toks, *pos, TokenKind::KwRedeclare) {
            flags.redeclare = true;
        } else if at(toks, *pos, TokenKind::KwInner) {
            flags.inner = true;
        } else if at(toks, *pos, TokenKind::KwOuter) {
            flags.outer = true;
        } else {
            flags.replaceable = true;
        }
        *pos = *pos + 1;
    }
    let parsed_type = match parse_class_type(toks, pos) {
        Ok(t) => t,
        Err(e) => {
            return Err(e);
        },
    };
    let prefixes = ClassPrefixes { is_partial: flags.partial, class_type: parsed_type };
    let class_type = prefixes.class_type;
    let mut modification: Vec<Argument> = Vec::new();
    let name;
    let name_pos;
    if at(toks, *pos, TokenKind::KwExtends) {
        *pos = *pos + 1;
        name_pos = *pos;
        name = match expect_ident(toks, pos) {
            Ok(s) => s,
            Err(e) => {
                return Err(e);
            },
        };
        if at(toks, *pos, TokenKind::LParen) {
            *pos = *pos + 1;
            modification = match parse_argument_list(toks, pos, ctx) {
                Ok(v) => v,
                Err(e) => {
                    return Err(e);
                },
            };
            match expect(toks, pos, TokenKind::RParen) {
                Ok(()) => {},
                Err(e) => {
                    return Err(e);
                },
            }
        } else {
            proof {
                assert(arguments_ids(modification@, 0) =~= Seq::empty());
            }
        }
    } else {
        name_pos = *pos;
        name = match expect_ident(toks, pos) {
            Ok(s) => s,
            Err(e) => {
                return Err(e);
            },
        };
        proof {
            assert(arguments_ids(modification@, 0) =~= Seq::empty());
        }
    }
    let mut parts: Vec<String> = Vec::new();
    let ghost pstr = *pos;
    let ghost cstr = ctx.id_count;
    if at(toks, *pos, TokenKind::StringLit) {
        parts.push(toks[*pos].text.clone());
        *pos = *pos + 1;
        while at(toks, *pos, TokenKind::Plus)
            invariant
                pinv(toks@, *pos as int, *ctx),
                pstr < *pos,
                ctx.id_count == cstr,
            decreases toks@.len() - *pos,
        {
            *pos = *pos + 1;
            if at(toks, *pos, TokenKind::StringLit) {
                parts.push(toks[*pos].text.clone());
                *pos = *pos + 1;
            } else {
                return Err(err_here(toks, *pos, vec![TokenKind::StringLit]));
            }
        }
    }
    Ok((flags, class_type, name, modification, DescriptionString { parts, }, name_pos))
}

/// Parses one class definition, from its prefix flags through `end name`.
/// The body's parts may come in any order and are gathered into the class's
/// fields; the name after `end` must equal the class's name, and the class's
/// name must not repeat one of its given siblings', as the language
/// requires. Component and nested-class names are unique within the result.
/// The caller consumes the `;` that follows.
#[verifier::loop_isolation(false)]
#[verifier::spinoff_prover]
#[verifier::rlimit(30)]
pub(crate) fn parse_class_definition(
    toks: &Vec<Token>,
    pos: &mut usize,
    ctx: &mut ParserContext,
    siblings: &Vec<ClassDefinition>,
) -> (r: Result<ClassDefinition, ParseError>)
    requires
        pinv(toks@, *old(pos) as int, *old(ctx)),
    ensures
        pstep(toks@, *old(pos) as int, *final(pos) as int, *old(ctx), *final(ctx)),
        r is Ok ==> *final(pos) > *old(pos),
        r is Ok ==> ids_ok(
            class_definition_ids(r->Ok_0),
            old(ctx).id_count as int,
            final(ctx).id_count as int,
        ),
        r is Ok ==> class_names_wf(r->Ok_0),
        r is Ok ==> forall|i: int|
            0 <= i < siblings@.len() ==> (#[trigger] siblings@[i]).name@ != r->Ok_0.name@,
        ({
            &&& minimal_model_tokens(toks@, *old(pos) as int)
            &&& !(exists|i: int|
                0 <= i < siblings@.len() && (#[trigger] siblings@[i]).name@ == toks@[*old(pos)
                    + 1].text@)
        }) ==> ({
            &&& r matches Ok(c)
            &&& is_empty_model_class(c, toks@[*old(pos) + 1].text@)
            &&& *final(pos) == *old(pos) + 4
        }),
        r is Err ==> parse_error_wf(r->Err_0, toks@),
    decreases toks@.len() - *pos, 85int,
{
    let ghost hyp = minimal_model_tokens(toks@, *old(pos) as int) && !(exists|i: int|
        0 <= i < siblings@.len() && (#[trigger] siblings@[i]).name@ == toks@[*old(pos) + 1].text@);
    let ghost lo = ctx.id_count as int;
    let start = start_of(toks, *pos);
    let (flags, class_type, name, modification, description, name_pos) = match parse_class_head(
        toks,
        pos,
        ctx,
    ) {
        Ok(h) => h,
        Err(e) => {
            return Err(e);
        },
    };
    if has_class_named(siblings, &name) {
        return Err(err_here(toks, name_pos, vec![TokenKind::Ident]));
    }
    let ghost mhead = ctx.id_count as int;
    let mut extends: Vec<TypeSpecifier> = Vec::new();
    let mut imports: Vec<ImportClause> = Vec::new();
    let mut components: Vec<ComponentDeclaration> = Vec::new();
    let mut classes: Vec<ClassDefinition> = Vec::new();
    let mut equations: Vec<Equation> = Vec::new();
    let mut algorithms: Vec<Vec<Statement>> = Vec::new();
    let mut initial_equations: Vec<Equation> = Vec::new();
    let mut initial_algorithms: Vec<Vec<Statement>> = Vec::new();
    let mut cur_vis = Visibility::Empty;
    proof {
        assert(import_clauses_ids(imports@, 0) =~= Seq::empty());
        assert(component_declarations_ids(components@, 0) =~= Seq::empty());
        assert(classes_ids(classes@, 0) =~= Seq::empty());
        assert(equations_ids(equations@, 0) =~= Seq::empty());
        assert(statement_lists_ids(algorithms@, 0) =~= Seq::empty());
        assert(equations_ids(initial_equations@, 0) =~= Seq::empty());
        assert(statement_lists_ids(initial_algorithms@, 0) =~= Seq::empty());
        assert(class_body_ids(
            imports@,
            modification@,
            components@,
            classes@,
            equations@,
            algorithms@,
            initial_equations@,
            initial_algorithms@,
        ) =~= arguments_ids(modification@, 0));
    }
    loop
        invariant
            pinv(toks@, *pos as int, *ctx),
            *old(pos) < *pos,
            old(ctx).id_count <= ctx.id_count,
            ctx.id_count - old(ctx).id_count <= 2 * (*pos - *old(pos)) - 4,
            ids_ok(
                class_body_ids(
                    imports@,
                    modification@,
                    components@,
                    classes@,
                    equations@,
                    algorithms@,
                    initial_equations@,
                    initial_algorithms@,
                ),
                lo,
                ctx.id_count as int,
            ),
            lo == old(ctx).id_count as int,
            unique_component_names(components@),
            unique_class_names(classes@),
            forall|i: int| 0 <= i < classes@.len() ==> class_names_wf(#[trigger] classes@[i]),
            hyp ==> *pos == *old(pos) + 2 && extends@.len() == 0 && imports@.len() == 0
                && components@.len() == 0 && classes@.len() == 0 && equations@.len() == 0
                && algorithms@.len() == 0 && initial_equations@.len() == 0
                && initial_algorithms@.len() == 0,
        decreases toks@.len() - *pos, 1int,
    {
        let ghost mid = ctx.id_count as int;
        let k = peek(toks, *pos);
        match k {
            Some(TokenKind::KwEnd) => {
                break ;
            },
            Some(TokenKind::KwPublic) => {
                cur_vis = Visibility::Public;
                *pos = *pos + 1;
            },
            Some(TokenKind::KwProtected) => {
                cur_vis = Visibility::Protected;
                *pos = *pos + 1;
            },
            Some(TokenKind::KwEquation) => {
                *pos = *pos + 1;
                let ne = match parse_equation_list(toks, pos, ctx) {
                    Ok(v) => v,
                    Err(e) => {
                        return Err(e);
                    },
                };
                let mut sec = EquationSection { initial: false, equations: ne };
                proof {
                    lemma_body_insert_equations(imports@, modification@, components@, classes@,
                        equations@, algorithms@, initial_equations@, initial_algorithms@,
                        sec.equations@, lo, mid, ctx.id_count as int);
                }
                equations.append(&mut sec.equations);
            },
            Some(TokenKind::KwAlgorithm) => {
                *pos = *pos + 1;
                let sl = match parse_statement_list(toks, pos, ctx) {
                    Ok(v) => v,
                    Err(e) => {
                        return Err(e);
                    },
                };
                let sec = AlgorithmSection { initial: false, statements: sl };
                proof {
                    lemma_body_insert_algorithm(imports@, modification@, components@, classes@,
                        equations@, algorithms@, initial_equations@, initial_algorithms@,
                        sec.statements, lo, mid, ctx.id_count as int);
                }
                algorithms.push(sec.statements);
            },
            Some(TokenKind::KwInitial) => {
                *pos = *pos + 1;
                if at(toks, *pos, TokenKind::KwEquation) {
                    *pos = *pos + 1;
                    let ne = match parse_equation_list(toks, pos, ctx) {
                        Ok(v) => v,
                        Err(e) => {
                            return Err(e);
                        },
                    };
                    let mut sec = EquationSection { initial: true, equations: ne };
                    proof {
                        lemma_body_insert_initial_equations(imports@, modification@, components@,
                            classes@, equations@, algorithms@, initial_equations@,
                            initial_algorithms@, sec.equations@, lo, mid, ctx.id_count as int);
                    }
                    initial_equations.append(&mut sec.equations);
                } else if at(toks, *pos, TokenKind::KwAlgorithm) {
                    *pos = *pos + 1;
                    let sl = match parse_statement_list(toks, pos, ctx) {
                        Ok(v) => v,
                        Err(e) => {
                            return Err(e);
                        },
                    };
                    let sec = AlgorithmSection { initial: true, statements: sl };
                    proof {
                        lemma_body_insert_initial_algorithm(imports@, modification@, components@,
                            classes@, equations@, algorithms@, initial_equations@,
                            initial_algorithms@, sec.statements, lo, mid, ctx.id_count as int);
                    }
                    initial_algorithms.push(sec.statements);
                } else {
                    return Err(
                        err_here(toks, *pos, vec![TokenKind::KwEquation, TokenKind::KwAlgorithm]),
                    );
                }
            },
            Some(TokenKind::KwImport) => {
                *pos = *pos + 1;
                let istart = start_of(toks, *pos);
                let mut alias = String::new();
                let iname;
                if at(toks, *pos, TokenKind::Ident) && *pos < toks.len() - 1 && toks[*pos
                    + 1].kind == TokenKind::Eq {
                    alias = toks[*pos].text.clone();
                    *pos = *pos + 2;
                    iname = match parse_name(toks, pos) {
                        Ok(n) => n,
                        Err(e) => {
                            return Err(e);
                        },
                    };
                } else {
                    iname = match parse_name(toks, pos) {
                        Ok(n) => n,
                        Err(e) => {
                            return Err(e);
                        },
                    };
                }
                let ghost m1 = ctx.id_count as int;
                let idesc = match parse_description(toks, pos, ctx) {
                    Ok(d) => d,
                    Err(e) => {
                        return Err(e);
                    },
                };
                match expect(toks, pos, TokenKind::Semicolon) {
                    Ok(()) => {},
                    Err(e) => {
                        return Err(e);
                    },
                }
                let iend = last_end(toks, *pos);
                let ghost m2 = ctx.id_count as int;
                let iid = ctx.new_id();
                let ic = ImportClause {
                    node_data: NodeData::new(iid, istart, iend),
                    alias,
                    name: iname,
                    description: idesc,
                };
                proof {
                    let g = ic;
                    let sd = (match g.description {
                        Some(d) => description_ids(d),
                        None => Seq::empty(),
                    });
                    lemma_ids_ok_concat(sd, seq![iid as int], m1, m2, m2 + 1);
                    assert(import_clause_ids(g) == sd + seq![iid as int]);
                    lemma_body_insert_imports(imports@, modification@, components@, classes@,
                        equations@, algorithms@, initial_equations@, initial_algorithms@, g, lo,
                        mid, ctx.id_count as int);
                }
                imports.push(ic);
            },
            Some(TokenKind::KwExtends) => {
                let estart = start_of(toks, *pos);
                *pos = *pos + 1;
                let ts = match parse_type_specifier(toks, pos) {
                    Ok(t) => t,
                    Err(e) => {
                        return Err(e);
                    },
                };
                match expect(toks, pos, TokenKind::Semicolon) {
                    Ok(()) => {},
                    Err(e) => {
                        return Err(e);
                    },
                }
                let eend = last_end(toks, *pos);
                let eid = ctx.new_id();
                let ec = ExtendsClause {
                    node_data: NodeData::new(eid, estart, eend),
                    type_specifier: ts,
                };
                extends.push(ec.type_specifier);
            },
            _ => {
                if looks_like_class(toks, *pos) {
                    let c = match parse_class_definition(toks, pos, ctx, &classes) {
                        Ok(c) => c,
                        Err(e) => {
                            return Err(e);
                        },
                    };
                    match expect(toks, pos, TokenKind::Semicolon) {
                        Ok(()) => {},
                        Err(e) => {
                            return Err(e);
                        },
                    }
                    proof {
                        lemma_body_insert_class(imports@, modification@, components@, classes@,
                            equations@, algorithms@, initial_equations@, initial_algorithms@, c,
                            lo, mid, ctx.id_count as int);
                        lemma_unique_classes_push(classes@, c);
                    }
                    classes.push(c);
                } else {
                    let mut cds = match parse_component_clause(
                        toks,
                        pos,
                        ctx,
                        cur_vis,
                        &components,
                    ) {
                        Ok(v) => v,
                        Err(e) => {
                            return Err(e);
                        },
                    };
                    proof {
                        lemma_body_insert_components(imports@, modification@, components@,
                            classes@, equations@, algorithms@, initial_equations@,
                            initial_algorithms@, cds@, lo, mid, ctx.id_count as int);
                    }
                    components.append(&mut cds);
                }
            },
        }
    }
    match expect(toks, pos, TokenKind::KwEnd) {
        Ok(()) => {},
        Err(e) => {
            return Err(e);
        },
    }
    let tpos = *pos;
    let end_name = match expect_ident(toks, pos) {
        Ok(s) => s,
        Err(e) => {
            return Err(e);
        },
    };
    if !(name == end_name) {
        return Err(err_here(toks, tpos, vec![TokenKind::Ident]));
    }
    let end = last_end(toks, *pos);
    let ghost hi = ctx.id_count as int;
    let id = ctx.new_id();
    let cd = ClassDefinition {
        node_data: NodeData::new(id, start, end),
        name,
        class_type,
        extends,
        imports,
        flags,
        modification,
        description,
        components,
        classes,
        equations,
        algorithms,
        initial_equations,
        initial_algorithms,
    };
    proof {
        let g = cd;
        assert(ids_ok(seq![id as int], hi, hi + 1));
        lemma_ids_ok_concat(
            class_body_ids(
                g.imports@,
                g.modification@,
                g.components@,
                g.classes@,
                g.equations@,
                g.algorithms@,
                g.initial_equations@,
                g.initial_algorithms@,
            ),
            seq![id as int],
            lo,
            hi,
            hi + 1,
        );
        assert(class_definition_ids(g) == class_body_ids(
            g.imports@,
            g.modification@,
            g.components@,
            g.classes@,
            g.equations@,
            g.algorithms@,
            g.initial_equations@,
            g.initial_algorithms@,
        ) + seq![id as int]);
    }
    Ok(cd)
}

/// Parses a whole stored definition: an optional `within` clause followed by
/// class definitions, each ended by `;`, to the end of input. On success the
/// whole input has been consumed, all node ids in the tree are pairwise
/// distinct - each was assigned once, in construction order, by the parse's
/// context - and names are unique: no two classes of the file share a name,
/// and within every class the same holds of its components and of its nested
/// classes.
#[verifier::loop_isolation(false)]
pub fn parse_stored_definition(toks: &Vec<Token>, pos: &mut usize, ctx: &mut ParserContext) -> (r:
    Result<StoredDefinition, ParseError>)
    requires
        pinv(toks@, *old(pos) as int, *old(ctx)),
    ensures
        *old(pos) <= *final(pos) <= toks@.len(),
        old(ctx).id_count <= final(ctx).id_count,
        final(ctx).id_count - old(ctx).id_count <= 2 * (*final(pos) - *old(pos)) + 1,
        r is Ok ==> *final(pos) == toks@.len(),
        r is Ok ==> ids_ok(
            stored_definition_ids(r->Ok_0),
            old(ctx).id_count as int,
            final(ctx).id_count as int,
        ),
        r is Ok ==> stored_names_wf(r->Ok_0),
        toks@.len() == 0 ==> ({
            &&& r matches Ok(d)
            &&& d.within is None
            &&& d.classes@.len() == 0
        }),
        ({
            &&& *old(pos) == 0
            &&& toks@.len() == 5
            &&& minimal_model_tokens(toks@, 0)
            &&& toks@[4].kind == TokenKind::Semicolon
        }) ==> ({
            &&& r matches Ok(d)
            &&& d.within is None
            &&& d.classes@.len() == 1
            &&& is_empty_model_class(d.classes@[0], toks@[1].text@)
        }),
        r is Err ==> parse_error_wf(r->Err_0, toks@),
    decreases toks@.len() - *pos, 90int,
{
    let ghost hyp = *old(pos) == 0 && toks@.len() == 5 && minimal_model_tokens(toks@, 0)
        && toks@[4].kind == TokenKind::Semicolon;
    let ghost lo = ctx.id_count as int;
    let mut within: Option<Name> = None;
    if at(toks, *pos, TokenKind::KwWithin) {
        *pos = *pos + 1;
        if !at(toks, *pos, TokenKind::Semicolon) {
            within = match parse_name(toks, pos) {
                Ok(n) => Some(n),
                Err(e) => {
                    return Err(e);
                },
            };
        }
        match expect(toks, pos, TokenKind::Semicolon) {
            Ok(()) => {},
            Err(e) => {
                return Err(e);
            },
        }
    }
    let mut classes: Vec<ClassDefinition> = Vec::new();
    proof {
        assert(classes_ids(classes@, 0) =~= Seq::empty());
    }
    while *pos < toks.len()
        invariant
            pinv(toks@, *pos as int, *ctx),
            *old(pos) <= *pos,
            old(ctx).id_count <= ctx.id_count,
            ctx.id_count - old(ctx).id_count <= 2 * (*pos - *old(pos)),
            ids_ok(classes_ids(classes@, 0), lo, ctx.id_count as int),
            lo == old(ctx).id_count as int,
            unique_class_names(classes@),
            forall|i: int| 0 <= i < classes@.len() ==> class_names_wf(#[trigger] classes@[i]),
            classes@.len() <= *pos,
            hyp ==> (*pos == 0 && classes@.len() == 0) || (*pos == 5 && classes@.len() == 1
                && is_empty_model_class(classes@[0], toks@[1].text@)),
        decreases toks@.len() - *pos,
    {
        if !looks_like_class(toks, *pos) {
            let t = &toks[*pos];
            let e = ParseError::ExtraToken { start: t.start, end: t.end, kind: t.kind };
            proof {
                assert((toks@[*pos as int]).start == e->ExtraToken_start);
            }
            return Err(e);
        }
        let ghost mid = ctx.id_count as int;
        let ghost classes0 = classes@;
        let c = match parse_class_definition(toks, pos, ctx, &classes) {
            Ok(c) => c,
            Err(e) => {
                return Err(e);
            },
        };
        match expect(toks, pos, TokenKind::Semicolon) {
            Ok(()) => {},
            Err(e) => {
                return Err(e);
            },
        }
        proof {
            lemma_classes_ids_push(classes0, c, 0);
            lemma_ids_ok_concat(
                classes_ids(classes0, 0),
                class_definition_ids(c),
                lo,
                mid,
                ctx.id_count as int,
            );
            lemma_unique_classes_push(classes0, c);
        }
        classes.push(c);
    }
    let end = if toks.len() == 0 {
        0
    } else {
        last_end(toks, toks.len())
    };
    let ghost hi = ctx.id_count as int;
    let id = ctx.new_id();
    let def = StoredDefinition {
        node_data: NodeData::new(id, 0, end),
        within,
        model_md5: String::new(),
        rumoca_parser_version: String::new(),
        rumoca_parser_git: String::new(),
        classes,
    };
    proof {
        let g = def;
        assert(ids_ok(seq![id as int], hi, hi + 1));
        lemma_ids_ok_concat(classes_ids(g.classes@, 0), seq![id as int], lo, hi, hi + 1);
        assert(stored_definition_ids(g) == classes_ids(g.classes@, 0) + seq![id as int]);
    }
    Ok(def)
}

} // verus!
