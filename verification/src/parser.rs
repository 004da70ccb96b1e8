use vstd::prelude::*;
use crate::ast::{
    Array, Binary, BinaryOp, Boolean, ComponentReference, Expression, ExpressionIf,
    ExpressionIfBlock, FunctionCall, Name, NodeData, ParserContext, RefPart, Subscript,
    SubscriptRange, TypeSpecifier, Unary, UnaryOp, UnsignedInteger, UnsignedReal,
};
use crate::ids::{
    component_reference_ids, expression_ids, expression_if_block_ids, expression_if_blocks_ids,
    expressions_ids, ids_ok, lemma_expression_if_blocks_ids_push, lemma_expressions_ids_push,
    lemma_ids_ok_concat, lemma_ref_parts_ids_push, lemma_subscripts_ids_push, ref_part_ids,
    ref_parts_ids, subscript_ids, subscripts_ids,
};
use crate::lexer::{LexicalError, Token, TokenKind};

verus! {

/// The most tokens one parse accepts. This is a machine limit: it keeps the
/// arithmetic on node ids inside `usize` on any target.
pub const MAX_TOKENS: usize = 0x4000_0000;

/// A failed parse. The parse is abandoned at the first error; no partial
/// tree is ever returned.
#[derive(Debug, PartialEq, Eq)]
pub enum ParseError {
    /// The tokenizer failed; the lexical error is carried unchanged.
    User { error: LexicalError },
    /// A well-formed stored definition ended, but this token followed it.
    ExtraToken { start: usize, end: usize, kind: TokenKind },
    /// The input ended although one of `expected` was still required.
    UnrecognizedEof { location: usize, expected: Vec<TokenKind> },
    /// The token at `start .. end` fits no production here; one of
    /// `expected` would have been accepted instead.
    UnrecognizedToken { start: usize, end: usize, kind: TokenKind, expected: Vec<TokenKind> },
}

/// Where the end of input is reported: just after the last token, or 0 for
/// empty input.
pub open spec fn eof_location(toks: Seq<Token>) -> int {
    if toks.len() == 0 {
        0
    } else {
        toks[toks.len() - 1].end as int
    }
}

/// Every parse error the grammar parser itself produces points at a real
/// token of the input (or at the end of input): the reported span brackets
/// exactly the offending token's offsets. The grammar parser never produces
/// the lexical variant; only the orchestrating `parse` wraps one.
pub open spec fn parse_error_wf(e: ParseError, toks: Seq<Token>) -> bool {
    match e {
        ParseError::User { error } => false,
        ParseError::ExtraToken { start, end, kind } => exists|k: int|
            0 <= k < toks.len() && (#[trigger] toks[k]).start == start && toks[k].end == end
                && toks[k].kind == kind,
        ParseError::UnrecognizedEof { location, expected } => location == eof_location(toks),
        ParseError::UnrecognizedToken { start, end, kind, expected } => exists|k: int|
            0 <= k < toks.len() && (#[trigger] toks[k]).start == start && toks[k].end == end
                && toks[k].kind == kind,
    }
}

/// The parser's running invariant: the cursor is inside the token sequence,
/// the sequence is within the machine limit, and the ids handed out so far
/// are bounded by the tokens consumed (each consumed token pays for at most
/// two node ids, plus one id for the root).
pub open spec fn pinv(toks: Seq<Token>, pos: int, ctx: ParserContext) -> bool {
    &&& pos <= toks.len()
    &&& toks.len() <= MAX_TOKENS as int
    &&& ctx.id_count <= 2 * pos + 1
}

/// What every parsing step guarantees: the cursor only moves forward and
/// stays in bounds, and ids only grow, at most two new ids for each token
/// consumed by the step.
pub open spec fn pstep(toks: Seq<Token>, pos0: int, pos1: int, c0: ParserContext, c1: ParserContext) -> bool {
    &&& pos0 <= pos1 <= toks.len()
    &&& c0.id_count <= c1.id_count
    &&& c1.id_count - c0.id_count <= 2 * (pos1 - pos0)
}

/// The end offset of the last consumed token.
pub(crate) fn last_end(toks: &Vec<Token>, pos: usize) -> (r: usize)
    requires
        0 < pos <= toks@.len(),
    ensures
        r == toks@[pos - 1].end,
{
    toks[pos - 1].end
}

/// The kind of the token at `pos`, if any.
pub(crate) fn peek(toks: &Vec<Token>, pos: usize) -> (r: Option<TokenKind>)
    requires
        pos <= toks@.len(),
    ensures
        pos < toks@.len() ==> r == Some(toks@[pos as int].kind),
        pos >= toks@.len() ==> r is None,
{
    if pos < toks.len() {
        Some(toks[pos].kind)
    } else {
        None
    }
}

/// True if the token at `pos` has the given kind.
pub(crate) fn at(toks: &Vec<Token>, pos: usize, kind: TokenKind) -> (r: bool)
    requires
        pos <= toks@.len(),
    ensures
        r == (pos < toks@.len() && toks@[pos as int].kind == kind),
{
    pos < toks.len() && toks[pos].kind == kind
}

/// The error for "this token (or the end of input) fits no production".
pub(crate) fn err_here(toks: &Vec<Token>, pos: usize, expected: Vec<TokenKind>) -> (e: ParseError)
    requires
        pos <= toks@.len(),
    ensures
        parse_error_wf(e, toks@),
{
    if pos < toks.len() {
        let t = &toks[pos];
        let e = ParseError::UnrecognizedToken { start: t.start, end: t.end, kind: t.kind, expected };
        proof {
            assert((toks@[pos as int]).start == e->UnrecognizedToken_start);
        }
        e
    } else {
        let location = if toks.len() == 0 {
            0
        } else {
            toks[toks.len() - 1].end
        };
        ParseError::UnrecognizedEof { location, expected }
    }
}

/// Consumes one token of the given kind, or fails without moving.
pub(crate) fn expect(toks: &Vec<Token>, pos: &mut usize, kind: TokenKind) -> (r: Result<(), ParseError>)
    requires
        *old(pos) <= toks@.len(),
    ensures
        r is Ok <==> *old(pos) < toks@.len() && toks@[*old(pos) as int].kind == kind,
        r is Ok ==> *final(pos) == *old(pos) + 1,
        r is Err ==> *final(pos) == *old(pos) && parse_error_wf(r->Err_0, toks@),
{
    if *pos < toks.len() && toks[*pos].kind == kind {
        *pos = *pos + 1;
        Ok(())
    } else {
        Err(err_here(toks, *pos, vec![kind]))
    }
}

/// Consumes an identifier token and returns its lexeme.
pub(crate) fn expect_ident(toks: &Vec<Token>, pos: &mut usize) -> (r: Result<String, ParseError>)
    requires
        *old(pos) <= toks@.len(),
    ensures
        r is Ok <==> *old(pos) < toks@.len() && toks@[*old(pos) as int].kind == TokenKind::Ident,
        r is Ok ==> *final(pos) == *old(pos) + 1 && r->Ok_0@ == toks@[*old(pos) as int].text@,
        r is Err ==> *final(pos) == *old(pos) && parse_error_wf(r->Err_0, toks@),
{
    if *pos < toks.len() && toks[*pos].kind == TokenKind::Ident {
        let text = toks[*pos].text.clone();
        *pos = *pos + 1;
        Ok(text)
    } else {
        Err(err_here(toks, *pos, vec![TokenKind::Ident]))
    }
}

/// Parses a dotted name: `ident { . ident }`.
#[verifier::loop_isolation(false)]
pub(crate) fn parse_name(toks: &Vec<Token>, pos: &mut usize) -> (r: Result<Name, ParseError>)
    requires
        *old(pos) <= toks@.len(),
        toks@.len() <= MAX_TOKENS as int,
    ensures
        *old(pos) <= *final(pos) <= toks@.len(),
        r is Ok ==> *final(pos) > *old(pos),
        r is Err ==> parse_error_wf(r->Err_0, toks@),
    decreases toks@.len() - *pos, 11int,
{
    let mut parts: Vec<String> = Vec::new();
    let first = match expect_ident(toks, pos) {
        Ok(s) => s,
        Err(e) => {
            return Err(e);
        },
    };
    parts.push(first);
    while at(toks, *pos, TokenKind::Dot) && *pos + 1 < toks.len() && toks[*pos + 1].kind
        == TokenKind::Ident
        invariant
            *old(pos) < *pos <= toks@.len(),
        decreases toks@.len() - *pos,
    {
        *pos = *pos + 1;
        let part = match expect_ident(toks, pos) {
            Ok(s) => s,
            Err(e) => {
                return Err(e);
            },
        };
        parts.push(part);
    }
    Ok(Name { parts })
}

/// Parses a type specifier: `[.] name`. The leading dot marks an absolute
/// (root-anchored) name.
pub(crate) fn parse_type_specifier(toks: &Vec<Token>, pos: &mut usize) -> (r: Result<
    TypeSpecifier,
    ParseError,
>)
    requires
        *old(pos) <= toks@.len(),
        toks@.len() <= MAX_TOKENS as int,
    ensures
        *old(pos) <= *final(pos) <= toks@.len(),
        r is Ok ==> *final(pos) > *old(pos),
        r is Err ==> parse_error_wf(r->Err_0, toks@),
    decreases toks@.len() - *pos, 12int,
{
    let mut local = false;
    if at(toks, *pos, TokenKind::Dot) {
        local = true;
        *pos = *pos + 1;
    }
    let name = match parse_name(toks, pos) {
        Ok(n) => n,
        Err(e) => {
            return Err(e);
        },
    };
    Ok(TypeSpecifier { local, name })
}

} // verus!

verus! {

/// The start offset of the token at `pos`, or 0 at end of input.
pub(crate) fn start_of(toks: &Vec<Token>, pos: usize) -> (r: usize)
    requires
        pos <= toks@.len(),
{
    if pos < toks.len() {
        toks[pos].start
    } else {
        0
    }
}

/// Builds a binary expression node, allocating its id after both operands.
fn mk_binary(
    ctx: &mut ParserContext,
    op: BinaryOp,
    lhs: Expression,
    rhs: Expression,
    start: usize,
    end: usize,
    Ghost(lo): Ghost<int>,
    Ghost(mid): Ghost<int>,
) -> (r: Expression)
    requires
        old(ctx).id_count < usize::MAX,
        lo <= mid <= old(ctx).id_count as int,
        ids_ok(expression_ids(lhs), lo, mid),
        ids_ok(expression_ids(rhs), mid, old(ctx).id_count as int),
    ensures
        final(ctx).id_count == old(ctx).id_count + 1,
        ids_ok(expression_ids(r), lo, final(ctx).id_count as int),
        r matches Expression::Binary(b) && b.op == op && *b.lhs == lhs && *b.rhs == rhs
            && b.node_data.span == (start, end),
{
    let ghost hi = ctx.id_count as int;
    let id = ctx.new_id();
    proof {
        lemma_ids_ok_concat(expression_ids(lhs), expression_ids(rhs), lo, mid, hi);
        assert(ids_ok(seq![id as int], hi, hi + 1));
        lemma_ids_ok_concat(
            expression_ids(lhs) + expression_ids(rhs),
            seq![id as int],
            lo,
            hi,
            hi + 1,
        );
    }
    Expression::Binary(
        Binary {
            node_data: NodeData::new(id, start, end),
            op,
            lhs: Box::new(lhs),
            rhs: Box::new(rhs),
        },
    )
}

/// Builds a unary expression node, allocating its id after the operand.
fn mk_unary(
    ctx: &mut ParserContext,
    op: UnaryOp,
    rhs: Expression,
    start: usize,
    end: usize,
    Ghost(lo): Ghost<int>,
) -> (r: Expression)
    requires
        old(ctx).id_count < usize::MAX,
        lo <= old(ctx).id_count as int,
        ids_ok(expression_ids(rhs), lo, old(ctx).id_count as int),
    ensures
        final(ctx).id_count == old(ctx).id_count + 1,
        ids_ok(expression_ids(r), lo, final(ctx).id_count as int),
        r matches Expression::Unary(u) && u.op == op && *u.rhs == rhs && u.node_data.span == (
            start,
            end,
        ),
{
    let ghost hi = ctx.id_count as int;
    let id = ctx.new_id();
    proof {
        assert(ids_ok(seq![id as int], hi, hi + 1));
        lemma_ids_ok_concat(expression_ids(rhs), seq![id as int], lo, hi, hi + 1);
    }
    Expression::Unary(Unary { node_data: NodeData::new(id, start, end), op, rhs: Box::new(rhs) })
}

/// Parses array subscripts: `[ subscript { , subscript } ]`.
#[verifier::loop_isolation(false)]
pub(crate) fn parse_array_subscripts(toks: &Vec<Token>, pos: &mut usize, ctx: &mut ParserContext) -> (r:
    Result<Vec<Subscript>, ParseError>)
    requires
        pinv(toks@, *old(pos) as int, *old(ctx)),
    ensures
        pstep(toks@, *old(pos) as int, *final(pos) as int, *old(ctx), *final(ctx)),
        r is Ok ==> *final(pos) > *old(pos),
        r is Ok ==> ids_ok(
            subscripts_ids(r->Ok_0@, 0),
            old(ctx).id_count as int,
            final(ctx).id_count as int,
        ),
        r is Err ==> parse_error_wf(r->Err_0, toks@),
    decreases toks@.len() - *pos, 63int,
{
    let ghost lo = ctx.id_count as int;
    match expect(toks, pos, TokenKind::LBracket) {
        Ok(()) => {},
        Err(e) => {
            return Err(e);
        },
    }
    let mut subs: Vec<Subscript> = Vec::new();
    loop
        invariant
            pinv(toks@, *pos as int, *ctx),
            *old(pos) < *pos,
            old(ctx).id_count <= ctx.id_count,
            ctx.id_count - old(ctx).id_count <= 2 * (*pos - *old(pos)),
            ids_ok(subscripts_ids(subs@, 0), lo, ctx.id_count as int),
            lo == old(ctx).id_count as int,
        decreases toks@.len() - *pos, 1int,
    {
        let ghost mid = ctx.id_count as int;
        let ghost subs0 = subs@;
        let s = match parse_subscript(toks, pos, ctx) {
            Ok(s) => s,
            Err(e) => {
                return Err(e);
            },
        };
        proof {
            lemma_subscripts_ids_push(subs0, s, 0);
            lemma_ids_ok_concat(
                subscripts_ids(subs0, 0),
                subscript_ids(s),
                lo,
                mid,
                ctx.id_count as int,
            );
        }
        subs.push(s);
        if at(toks, *pos, TokenKind::Comma) {
            *pos = *pos + 1;
        } else {
            match expect(toks, pos, TokenKind::RBracket) {
                Ok(()) => {
                    return Ok(subs);
                },
                Err(e) => {
                    return Err(e);
                },
            }
        }
    }
}

/// Parses one subscript: `:` or an expression.
fn parse_subscript(toks: &Vec<Token>, pos: &mut usize, ctx: &mut ParserContext) -> (r: Result<
    Subscript,
    ParseError,
>)
    requires
        pinv(toks@, *old(pos) as int, *old(ctx)),
    ensures
        pstep(toks@, *old(pos) as int, *final(pos) as int, *old(ctx), *final(ctx)),
        r is Ok ==> *final(pos) > *old(pos),
        r is Ok ==> ids_ok(
            subscript_ids(r->Ok_0),
            old(ctx).id_count as int,
            final(ctx).id_count as int,
        ),
        r is Err ==> parse_error_wf(r->Err_0, toks@),
    decreases toks@.len() - *pos, 62int,
{
    if at(toks, *pos, TokenKind::Colon) {
        let start = start_of(toks, *pos);
        *pos = *pos + 1;
        let end = last_end(toks, *pos);
        let id = ctx.new_id();
        proof {
            assert(ids_ok(seq![id as int], id as int, id as int + 1));
        }
        Ok(Subscript::Range(SubscriptRange { node_data: NodeData::new(id, start, end) }))
    } else {
        let e = match parse_expression(toks, pos, ctx) {
            Ok(e) => e,
            Err(err) => {
                return Err(err);
            },
        };
        Ok(Subscript::Expression(e))
    }
}

/// Parses a component reference: `[.] ident [subs] { . ident [subs] }`.
/// It is a pure dotted path; resolution happens in a later phase.
#[verifier::loop_isolation(false)]
pub(crate) fn parse_component_reference(toks: &Vec<Token>, pos: &mut usize, ctx: &mut ParserContext) -> (r:
    Result<ComponentReference, ParseError>)
    requires
        pinv(toks@, *old(pos) as int, *old(ctx)),
    ensures
        pstep(toks@, *old(pos) as int, *final(pos) as int, *old(ctx), *final(ctx)),
        r is Ok ==> *final(pos) > *old(pos),
        r is Ok ==> ids_ok(
            component_reference_ids(r->Ok_0),
            old(ctx).id_count as int,
            final(ctx).id_count as int,
        ),
        r is Err ==> parse_error_wf(r->Err_0, toks@),
    decreases toks@.len() - *pos, 30int,
{
    let ghost lo = ctx.id_count as int;
    let start = start_of(toks, *pos);
    let mut local = false;
    if at(toks, *pos, TokenKind::Dot) {
        local = true;
        *pos = *pos + 1;
    }
    let mut parts: Vec<RefPart> = Vec::new();
    loop
        invariant
            pinv(toks@, *pos as int, *ctx),
            *old(pos) <= *pos,
            old(ctx).id_count <= ctx.id_count,
            ctx.id_count - old(ctx).id_count <= 2 * (*pos - *old(pos)) - parts@.len(),
            parts@.len() <= *pos - *old(pos),
            ids_ok(ref_parts_ids(parts@, 0), lo, ctx.id_count as int),
            lo == old(ctx).id_count as int,
        decreases toks@.len() - *pos, 1int,
    {
        let ghost mid = ctx.id_count as int;
        let ghost parts0 = parts@;
        let pstart = start_of(toks, *pos);
        let name = match expect_ident(toks, pos) {
            Ok(s) => s,
            Err(e) => {
                return Err(e);
            },
        };
        let mut array_subscripts: Vec<Subscript> = Vec::new();
        if at(toks, *pos, TokenKind::LBracket) {
            array_subscripts = match parse_array_subscripts(toks, pos, ctx) {
                Ok(v) => v,
                Err(e) => {
                    return Err(e);
                },
            };
        }
        let pend = last_end(toks, *pos);
        let id = ctx.new_id();
        let part = RefPart { node_data: NodeData::new(id, pstart, pend), name, array_subscripts };
        proof {
            assert(ids_ok(seq![id as int], id as int, id as int + 1));
            lemma_ids_ok_concat(
                subscripts_ids(part.array_subscripts@, 0),
                seq![id as int],
                mid,
                id as int,
                id as int + 1,
            );
            lemma_ids_ok_concat(
                ref_parts_ids(parts0, 0),
                ref_part_ids(part),
                lo,
                mid,
                ctx.id_count as int,
            );
            lemma_ref_parts_ids_push(parts0, part, 0);
        }
        parts.push(part);
        if at(toks, *pos, TokenKind::Dot) && *pos < toks.len() - 1 && toks[*pos + 1].kind
            == TokenKind::Ident {
            *pos = *pos + 1;
        } else {
            let end = last_end(toks, *pos);
            let ghost hi = ctx.id_count as int;
            let id2 = ctx.new_id();
            proof {
                assert(ids_ok(seq![id2 as int], hi, hi + 1));
                lemma_ids_ok_concat(ref_parts_ids(parts@, 0), seq![id2 as int], lo, hi, hi + 1);
            }
            return Ok(
                ComponentReference { node_data: NodeData::new(id2, start, end), local, parts },
            );
        }
    }
}

} // verus!

verus! {


/// The token at `p` is an integer literal whose following token (if any) is
/// not in the given continuation; used to pin precedence contracts.
pub open spec fn uint_tok(toks: Seq<Token>, p: int) -> bool {
    0 <= p < toks.len() && toks[p].kind == TokenKind::UInt
}

/// The expression is the integer literal with this lexeme.
pub open spec fn is_uint_lit(e: Expression, v: Seq<char>) -> bool {
    e matches Expression::UnsignedInteger(u) && u.val@ == v
}

/// The expression is `a + b * c` with the grouping precedence requires:
/// addition outermost, the multiplication on its right.
pub open spec fn is_add_of_mul(e: Expression, a: Seq<char>, b: Seq<char>, c: Seq<char>) -> bool {
    e matches Expression::Binary(add) && add.op == BinaryOp::Add && is_uint_lit(*add.lhs, a)
        && (*add.rhs matches Expression::Binary(mul) && mul.op == BinaryOp::Mul && is_uint_lit(
        *mul.lhs,
        b,
    ) && is_uint_lit(*mul.rhs, c))
}

/// The expression is `b ^ c` over integer literals.
pub open spec fn is_pow_lit(e: Expression, b: Seq<char>, c: Seq<char>) -> bool {
    e matches Expression::Binary(pow) && pow.op == BinaryOp::Exp && is_uint_lit(*pow.lhs, b)
        && is_uint_lit(*pow.rhs, c)
}

/// The expression is `a ^ (b ^ c)` over integer literals: exponentiation
/// grouped to the right.
pub open spec fn is_pow_of_pow(e: Expression, a: Seq<char>, b: Seq<char>, c: Seq<char>) -> bool {
    e matches Expression::Binary(outer) && outer.op == BinaryOp::Exp && is_uint_lit(*outer.lhs, a)
        && is_pow_lit(*outer.rhs, b, c)
}

/// Three tokens from `p` spell `<int> ^ <int>`, with no further caret after.
pub open spec fn pow_tokens(toks: Seq<Token>, p: int) -> bool {
    &&& 0 <= p && p + 3 <= toks.len()
    &&& toks[p].kind == TokenKind::UInt
    &&& toks[p + 1].kind == TokenKind::Caret
    &&& toks[p + 2].kind == TokenKind::UInt
    &&& next_not_power(toks, p + 2)
}

/// Five tokens from `p` spell `<int> ^ <int> ^ <int>`, with no further caret.
pub open spec fn pow_pow_tokens(toks: Seq<Token>, p: int) -> bool {
    &&& 0 <= p && p + 5 <= toks.len()
    &&& toks[p].kind == TokenKind::UInt
    &&& toks[p + 1].kind == TokenKind::Caret
    &&& pow_tokens(toks, p + 2)
}

/// The expression is `b * c` over integer literals.
pub open spec fn is_mul_lit(e: Expression, b: Seq<char>, c: Seq<char>) -> bool {
    e matches Expression::Binary(mul) && mul.op == BinaryOp::Mul && is_uint_lit(*mul.lhs, b)
        && is_uint_lit(*mul.rhs, c)
}

/// Five tokens from `p` spell `<int> + <int> * <int>`, and the token after
/// them (if any) continues no expression: it is a semicolon.
pub open spec fn add_mul_tokens(toks: Seq<Token>, p: int) -> bool {
    &&& 0 <= p && p + 5 <= toks.len()
    &&& toks[p].kind == TokenKind::UInt
    &&& toks[p + 1].kind == TokenKind::Plus
    &&& toks[p + 2].kind == TokenKind::UInt
    &&& toks[p + 3].kind == TokenKind::Star
    &&& toks[p + 4].kind == TokenKind::UInt
    &&& (p + 5 == toks.len() || toks[p + 5].kind == TokenKind::Semicolon)
}

/// The conclusion the precedence contracts promise for `<a> + <b> * <c>`:
/// success, five tokens consumed, and the tree grouped as `a + (b * c)`.
pub open spec fn add_mul_result(
    r: Result<Expression, ParseError>,
    toks: Seq<Token>,
    p0: int,
    p1: int,
) -> bool {
    &&& r matches Ok(e)
    &&& is_add_of_mul(e, toks[p0].text@, toks[p0 + 2].text@, toks[p0 + 4].text@)
    &&& p1 == p0 + 5
}

/// The token after `p` (if any) is none of the given kinds; the helper form
/// used in the leaf-level precedence clauses.
pub open spec fn next_not_power(toks: Seq<Token>, p: int) -> bool {
    p + 1 == toks.len() || (toks[p + 1].kind != TokenKind::Caret && toks[p + 1].kind
        != TokenKind::DotCaret)
}

/// Parses a comma-separated expression list; stops (without consuming) at
/// the given terminator. The list may be empty.
#[verifier::loop_isolation(false)]
fn parse_expression_list(
    toks: &Vec<Token>,
    pos: &mut usize,
    ctx: &mut ParserContext,
    term: TokenKind,
) -> (r: Result<Vec<Expression>, ParseError>)
    requires
        pinv(toks@, *old(pos) as int, *old(ctx)),
    ensures
        pstep(toks@, *old(pos) as int, *final(pos) as int, *old(ctx), *final(ctx)),
        r is Ok ==> ids_ok(
            expressions_ids(r->Ok_0@, 0),
            old(ctx).id_count as int,
            final(ctx).id_count as int,
        ),
        r is Err ==> parse_error_wf(r->Err_0, toks@),
    decreases toks@.len() - *pos, 61int,
{
    let ghost lo = ctx.id_count as int;
    let mut items: Vec<Expression> = Vec::new();
    if at(toks, *pos, term) {
        proof {
            assert(expressions_ids(items@, 0) =~= Seq::empty());
        }
        return Ok(items);
    }
    loop
        invariant
            pinv(toks@, *pos as int, *ctx),
            *old(pos) <= *pos,
            old(ctx).id_count <= ctx.id_count,
            ctx.id_count - old(ctx).id_count <= 2 * (*pos - *old(pos)),
            ids_ok(expressions_ids(items@, 0), lo, ctx.id_count as int),
            lo == old(ctx).id_count as int,
        decreases toks@.len() - *pos, 1int,
    {
        let ghost mid = ctx.id_count as int;
        let ghost items0 = items@;
        let e = match parse_expression(toks, pos, ctx) {
            Ok(e) => e,
            Err(err) => {
                return Err(err);
            },
        };
        proof {
            lemma_expressions_ids_push(items0, e, 0);
            lemma_ids_ok_concat(
                expressions_ids(items0, 0),
                expression_ids(e),
                lo,
                mid,
                ctx.id_count as int,
            );
        }
        items.push(e);
        if at(toks, *pos, TokenKind::Comma) {
            *pos = *pos + 1;
        } else {
            return Ok(items);
        }
    }
}

/// Parses a primary expression: a literal, `true`/`false`, a parenthesized
/// expression, an array constructor, a component reference, or a function
/// call.
fn parse_primary(toks: &Vec<Token>, pos: &mut usize, ctx: &mut ParserContext) -> (r: Result<
    Expression,
    ParseError,
>)
    requires
        pinv(toks@, *old(pos) as int, *old(ctx)),
    ensures
        pstep(toks@, *old(pos) as int, *final(pos) as int, *old(ctx), *final(ctx)),
        r is Ok ==> *final(pos) > *old(pos),
        r is Ok ==> ids_ok(
            expression_ids(r->Ok_0),
            old(ctx).id_count as int,
            final(ctx).id_count as int,
        ),
        uint_tok(toks@, *old(pos) as int) ==> ({
            &&& r matches Ok(e)
            &&& is_uint_lit(e, toks@[*old(pos) as int].text@)
            &&& *final(pos) == *old(pos) + 1
        }),
        r is Err ==> parse_error_wf(r->Err_0, toks@),
    decreases toks@.len() - *pos, 40int,
{
    let ghost lo = ctx.id_count as int;
    let k = peek(toks, *pos);
    match k {
        Some(TokenKind::UInt) => {
            let t_start = toks[*pos].start;
            let t_end = toks[*pos].end;
            let val = toks[*pos].text.clone();
            *pos = *pos + 1;
            let id = ctx.new_id();
            proof {
                assert(ids_ok(seq![id as int], id as int, id as int + 1));
            }
            Ok(
                Expression::UnsignedInteger(
                    UnsignedInteger { node_data: NodeData::new(id, t_start, t_end), val },
                ),
            )
        },
        Some(TokenKind::UReal) => {
            let t_start = toks[*pos].start;
            let t_end = toks[*pos].end;
            let val = toks[*pos].text.clone();
            *pos = *pos + 1;
            let id = ctx.new_id();
            proof {
                assert(ids_ok(seq![id as int], id as int, id as int + 1));
            }
            Ok(
                Expression::UnsignedReal(
                    UnsignedReal { node_data: NodeData::new(id, t_start, t_end), val },
                ),
            )
        },
        Some(TokenKind::KwTrue) => {
            let t_start = toks[*pos].start;
            let t_end = toks[*pos].end;
            *pos = *pos + 1;
            let id = ctx.new_id();
            proof {
                assert(ids_ok(seq![id as int], id as int, id as int + 1));
            }
            Ok(Expression::Boolean(Boolean { node_data: NodeData::new(id, t_start, t_end), val: true }))
        },
        Some(TokenKind::KwFalse) => {
            let t_start = toks[*pos].start;
            let t_end = toks[*pos].end;
            *pos = *pos + 1;
            let id = ctx.new_id();
            proof {
                assert(ids_ok(seq![id as int], id as int, id as int + 1));
            }
            Ok(Expression::Boolean(Boolean { node_data: NodeData::new(id, t_start, t_end), val: false }))
        },
        Some(TokenKind::LParen) => {
            let start = start_of(toks, *pos);
            *pos = *pos + 1;
            let e = match parse_expression(toks, pos, ctx) {
                Ok(e) => e,
                Err(err) => {
                    return Err(err);
                },
            };
            match expect(toks, pos, TokenKind::RParen) {
                Ok(()) => {},
                Err(err) => {
                    return Err(err);
                },
            }
            let end = last_end(toks, *pos);
            Ok(mk_unary(ctx, UnaryOp::Paren, e, start, end, Ghost(lo)))
        },
        Some(TokenKind::LBrace) => {
            let start = start_of(toks, *pos);
            *pos = *pos + 1;
            let args = match parse_expression_list(toks, pos, ctx, TokenKind::RBrace) {
                Ok(v) => v,
                Err(err) => {
                    return Err(err);
                },
            };
            match expect(toks, pos, TokenKind::RBrace) {
                Ok(()) => {},
                Err(err) => {
                    return Err(err);
                },
            }
            let end = last_end(toks, *pos);
            let ghost hi = ctx.id_count as int;
            let id = ctx.new_id();
            proof {
                assert(ids_ok(seq![id as int], hi, hi + 1));
                lemma_ids_ok_concat(expressions_ids(args@, 0), seq![id as int], lo, hi, hi + 1);
            }
            Ok(Expression::Array(Array { node_data: NodeData::new(id, start, end), args }))
        },
        Some(TokenKind::Ident) => parse_ref_or_call(toks, pos, ctx),
        Some(TokenKind::Dot) => parse_ref_or_call(toks, pos, ctx),
        _ => {
            Err(
                err_here(
                    toks,
                    *pos,
                    vec![
                        TokenKind::UInt,
                        TokenKind::UReal,
                        TokenKind::KwTrue,
                        TokenKind::KwFalse,
                        TokenKind::LParen,
                        TokenKind::LBrace,
                        TokenKind::Ident,
                        TokenKind::Dot,
                    ],
                ),
            )
        },
    }
}

/// Parses a component reference, then a function call if `(` follows it.
fn parse_ref_or_call(toks: &Vec<Token>, pos: &mut usize, ctx: &mut ParserContext) -> (r: Result<
    Expression,
    ParseError,
>)
    requires
        pinv(toks@, *old(pos) as int, *old(ctx)),
    ensures
        pstep(toks@, *old(pos) as int, *final(pos) as int, *old(ctx), *final(ctx)),
        r is Ok ==> *final(pos) > *old(pos),
        r is Ok ==> ids_ok(
            expression_ids(r->Ok_0),
            old(ctx).id_count as int,
            final(ctx).id_count as int,
        ),
        r is Err ==> parse_error_wf(r->Err_0, toks@),
    decreases toks@.len() - *pos, 35int,
{
    let ghost lo = ctx.id_count as int;
    let start = start_of(toks, *pos);
    let comp = match parse_component_reference(toks, pos, ctx) {
        Ok(c) => c,
        Err(e) => {
            return Err(e);
        },
    };
    if at(toks, *pos, TokenKind::LParen) {
        *pos = *pos + 1;
        let ghost mid = ctx.id_count as int;
        let args = match parse_expression_list(toks, pos, ctx, TokenKind::RParen) {
            Ok(v) => v,
            Err(err) => {
                return Err(err);
            },
        };
        match expect(toks, pos, TokenKind::RParen) {
            Ok(()) => {},
            Err(err) => {
                return Err(err);
            },
        }
        let end = last_end(toks, *pos);
        let ghost hi = ctx.id_count as int;
        let id = ctx.new_id();
        proof {
            lemma_ids_ok_concat(
                component_reference_ids(comp),
                expressions_ids(args@, 0),
                lo,
                mid,
                hi,
            );
            assert(ids_ok(seq![id as int], hi, hi + 1));
            lemma_ids_ok_concat(
                component_reference_ids(comp) + expressions_ids(args@, 0),
                seq![id as int],
                lo,
                hi,
                hi + 1,
            );
        }
        Ok(
            Expression::FunctionCall(
                FunctionCall { node_data: NodeData::new(id, start, end), comp, args },
            ),
        )
    } else {
        Ok(Expression::Ref(comp))
    }
}

/// Parses an exponentiation: `primary [ (^ | .^) factor ]`. Exponentiation
/// binds tighter than unary sign and groups to the right.
fn parse_power(toks: &Vec<Token>, pos: &mut usize, ctx: &mut ParserContext) -> (r: Result<
    Expression,
    ParseError,
>)
    requires
        pinv(toks@, *old(pos) as int, *old(ctx)),
    ensures
        pstep(toks@, *old(pos) as int, *final(pos) as int, *old(ctx), *final(ctx)),
        r is Ok ==> *final(pos) > *old(pos),
        r is Ok ==> ids_ok(
            expression_ids(r->Ok_0),
            old(ctx).id_count as int,
            final(ctx).id_count as int,
        ),
        uint_tok(toks@, *old(pos) as int) && next_not_power(toks@, *old(pos) as int) ==> ({
            &&& r matches Ok(e)
            &&& is_uint_lit(e, toks@[*old(pos) as int].text@)
            &&& *final(pos) == *old(pos) + 1
        }),
        pow_tokens(toks@, *old(pos) as int) ==> ({
            &&& r matches Ok(e)
            &&& is_pow_lit(e, toks@[*old(pos) as int].text@, toks@[*old(pos) + 2].text@)
            &&& *final(pos) == *old(pos) + 3
        }),
        pow_pow_tokens(toks@, *old(pos) as int) ==> ({
            &&& r matches Ok(e)
            &&& is_pow_of_pow(
                e,
                toks@[*old(pos) as int].text@,
                toks@[*old(pos) + 2].text@,
                toks@[*old(pos) + 4].text@,
            )
            &&& *final(pos) == *old(pos) + 5
        }),
        r is Err ==> parse_error_wf(r->Err_0, toks@),
    decreases toks@.len() - *pos, 42int,
{
    let ghost lo = ctx.id_count as int;
    let start = start_of(toks, *pos);
    let base = match parse_primary(toks, pos, ctx) {
        Ok(e) => e,
        Err(e) => {
            return Err(e);
        },
    };
    let k = peek(toks, *pos);
    let op = match k {
        Some(TokenKind::Caret) => BinaryOp::Exp,
        Some(TokenKind::DotCaret) => BinaryOp::ElemExp,
        _ => {
            return Ok(base);
        },
    };
    *pos = *pos + 1;
    let ghost mid = ctx.id_count as int;
    let rhs = match parse_factor(toks, pos, ctx) {
        Ok(e) => e,
        Err(e) => {
            return Err(e);
        },
    };
    let end = last_end(toks, *pos);
    Ok(mk_binary(ctx, op, base, rhs, start, end, Ghost(lo), Ghost(mid)))
}

/// Parses a signed factor: `[+ | - | .+ | .-] factor | power`. The sign
/// binds looser than exponentiation and tighter than multiplication.
fn parse_factor(toks: &Vec<Token>, pos: &mut usize, ctx: &mut ParserContext) -> (r: Result<
    Expression,
    ParseError,
>)
    requires
        pinv(toks@, *old(pos) as int, *old(ctx)),
    ensures
        pstep(toks@, *old(pos) as int, *final(pos) as int, *old(ctx), *final(ctx)),
        r is Ok ==> *final(pos) > *old(pos),
        r is Ok ==> ids_ok(
            expression_ids(r->Ok_0),
            old(ctx).id_count as int,
            final(ctx).id_count as int,
        ),
        uint_tok(toks@, *old(pos) as int) && next_not_power(toks@, *old(pos) as int) ==> ({
            &&& r matches Ok(e)
            &&& is_uint_lit(e, toks@[*old(pos) as int].text@)
            &&& *final(pos) == *old(pos) + 1
        }),
        pow_tokens(toks@, *old(pos) as int) ==> ({
            &&& r matches Ok(e)
            &&& is_pow_lit(e, toks@[*old(pos) as int].text@, toks@[*old(pos) + 2].text@)
            &&& *final(pos) == *old(pos) + 3
        }),
        pow_pow_tokens(toks@, *old(pos) as int) ==> ({
            &&& r matches Ok(e)
            &&& is_pow_of_pow(
                e,
                toks@[*old(pos) as int].text@,
                toks@[*old(pos) + 2].text@,
                toks@[*old(pos) + 4].text@,
            )
            &&& *final(pos) == *old(pos) + 5
        }),
        r is Err ==> parse_error_wf(r->Err_0, toks@),
    decreases toks@.len() - *pos, 44int,
{
    let ghost lo = ctx.id_count as int;
    let start = start_of(toks, *pos);
    let k = peek(toks, *pos);
    let op = match k {
        Some(TokenKind::Minus) => Some(UnaryOp::Negative),
        Some(TokenKind::Plus) => Some(UnaryOp::Positive),
        Some(TokenKind::DotMinus) => Some(UnaryOp::ElemNegative),
        Some(TokenKind::DotPlus) => Some(UnaryOp::ElemPositive),
        _ => None,
    };
    match op {
        Some(u) => {
            *pos = *pos + 1;
            let rhs = match parse_factor(toks, pos, ctx) {
                Ok(e) => e,
                Err(e) => {
                    return Err(e);
                },
            };
            let end = last_end(toks, *pos);
            Ok(mk_unary(ctx, u, rhs, start, end, Ghost(lo)))
        },
        None => parse_power(toks, pos, ctx),
    }
}

/// Parses a multiplicative chain: `factor { (* | / | .* | ./) factor }`,
/// grouping to the left.
#[verifier::loop_isolation(false)]
fn parse_term(toks: &Vec<Token>, pos: &mut usize, ctx: &mut ParserContext) -> (r: Result<
    Expression,
    ParseError,
>)
    requires
        pinv(toks@, *old(pos) as int, *old(ctx)),
    ensures
        pstep(toks@, *old(pos) as int, *final(pos) as int, *old(ctx), *final(ctx)),
        r is Ok ==> *final(pos) > *old(pos),
        r is Ok ==> ids_ok(
            expression_ids(r->Ok_0),
            old(ctx).id_count as int,
            final(ctx).id_count as int,
        ),
        ({
            &&& uint_tok(toks@, *old(pos) as int)
            &&& next_not_power(toks@, *old(pos) as int)
            &&& (*old(pos) + 1 == toks@.len() || (toks@[*old(pos) + 1].kind != TokenKind::Star
                && toks@[*old(pos) + 1].kind != TokenKind::Slash && toks@[*old(pos) + 1].kind
                != TokenKind::DotStar && toks@[*old(pos) + 1].kind != TokenKind::DotSlash))
        }) ==> ({
            &&& r matches Ok(e)
            &&& is_uint_lit(e, toks@[*old(pos) as int].text@)
            &&& *final(pos) == *old(pos) + 1
        }),
        ({
            &&& uint_tok(toks@, *old(pos) as int)
            &&& *old(pos) + 3 <= toks@.len()
            &&& toks@[*old(pos) + 1].kind == TokenKind::Star
            &&& toks@[*old(pos) + 2].kind == TokenKind::UInt
            &&& next_not_power(toks@, *old(pos) + 2)
            &&& (*old(pos) + 3 == toks@.len() || (toks@[*old(pos) + 3].kind != TokenKind::Star
                && toks@[*old(pos) + 3].kind != TokenKind::Slash && toks@[*old(pos) + 3].kind
                != TokenKind::DotStar && toks@[*old(pos) + 3].kind != TokenKind::DotSlash))
        }) ==> ({
            &&& r matches Ok(e)
            &&& is_mul_lit(e, toks@[*old(pos) as int].text@, toks@[*old(pos) + 2].text@)
            &&& *final(pos) == *old(pos) + 3
        }),
        r is Err ==> parse_error_wf(r->Err_0, toks@),
    decreases toks@.len() - *pos, 46int,
{
    let ghost p0 = *old(pos) as int;
    let ghost hyp_one = uint_tok(toks@, p0) && next_not_power(toks@, p0) && (p0 + 1 == toks@.len()
        || (toks@[p0 + 1].kind != TokenKind::Star && toks@[p0 + 1].kind != TokenKind::Slash
        && toks@[p0 + 1].kind != TokenKind::DotStar && toks@[p0 + 1].kind
        != TokenKind::DotSlash));
    let ghost hyp_mul = uint_tok(toks@, p0) && p0 + 3 <= toks@.len() && toks@[p0 + 1].kind
        == TokenKind::Star && toks@[p0 + 2].kind == TokenKind::UInt && next_not_power(
        toks@,
        p0 + 2,
    ) && (p0 + 3 == toks@.len() || (toks@[p0 + 3].kind != TokenKind::Star && toks@[p0 + 3].kind
        != TokenKind::Slash && toks@[p0 + 3].kind != TokenKind::DotStar && toks@[p0 + 3].kind
        != TokenKind::DotSlash));
    let ghost lo = ctx.id_count as int;
    let start = start_of(toks, *pos);
    let mut lhs = match parse_factor(toks, pos, ctx) {
        Ok(e) => e,
        Err(e) => {
            return Err(e);
        },
    };
    loop
        invariant
            pinv(toks@, *pos as int, *ctx),
            *old(pos) < *pos,
            old(ctx).id_count <= ctx.id_count,
            ctx.id_count - old(ctx).id_count <= 2 * (*pos - *old(pos)),
            ids_ok(expression_ids(lhs), lo, ctx.id_count as int),
            lo == old(ctx).id_count as int,
            hyp_one ==> *pos == p0 + 1 && is_uint_lit(lhs, toks@[p0].text@),
            hyp_mul ==> (*pos == p0 + 1 && is_uint_lit(lhs, toks@[p0].text@)) || (*pos == p0 + 3
                && is_mul_lit(lhs, toks@[p0].text@, toks@[p0 + 2].text@)),
        decreases toks@.len() - *pos, 1int,
    {
        let k = peek(toks, *pos);
        let op = match k {
            Some(TokenKind::Star) => BinaryOp::Mul,
            Some(TokenKind::Slash) => BinaryOp::Div,
            Some(TokenKind::DotStar) => BinaryOp::ElemMul,
            Some(TokenKind::DotSlash) => BinaryOp::ElemDiv,
            _ => {
                return Ok(lhs);
            },
        };
        *pos = *pos + 1;
        let ghost mid = ctx.id_count as int;
        let rhs = match parse_factor(toks, pos, ctx) {
            Ok(e) => e,
            Err(e) => {
                return Err(e);
            },
        };
        let end = last_end(toks, *pos);
        lhs = mk_binary(ctx, op, lhs, rhs, start, end, Ghost(lo), Ghost(mid));
    }
}

/// Parses an additive chain: `term { (+ | - | .+ | .-) term }`, grouping to
/// the left.
#[verifier::loop_isolation(false)]
fn parse_arith(toks: &Vec<Token>, pos: &mut usize, ctx: &mut ParserContext) -> (r: Result<
    Expression,
    ParseError,
>)
    requires
        pinv(toks@, *old(pos) as int, *old(ctx)),
    ensures
        pstep(toks@, *old(pos) as int, *final(pos) as int, *old(ctx), *final(ctx)),
        r is Ok ==> *final(pos) > *old(pos),
        r is Ok ==> ids_ok(
            expression_ids(r->Ok_0),
            old(ctx).id_count as int,
            final(ctx).id_count as int,
        ),
        add_mul_tokens(toks@, *old(pos) as int) ==> add_mul_result(
            r,
            toks@,
            *old(pos) as int,
            *final(pos) as int,
        ),
        r is Err ==> parse_error_wf(r->Err_0, toks@),
    decreases toks@.len() - *pos, 48int,
{
    let ghost p0 = *old(pos) as int;
    let ghost hyp = add_mul_tokens(toks@, p0);
    let ghost lo = ctx.id_count as int;
    let start = start_of(toks, *pos);
    let mut lhs = match parse_term(toks, pos, ctx) {
        Ok(e) => e,
        Err(e) => {
            return Err(e);
        },
    };
    loop
        invariant
            pinv(toks@, *pos as int, *ctx),
            *old(pos) < *pos,
            old(ctx).id_count <= ctx.id_count,
            ctx.id_count - old(ctx).id_count <= 2 * (*pos - *old(pos)),
            ids_ok(expression_ids(lhs), lo, ctx.id_count as int),
            lo == old(ctx).id_count as int,
            hyp ==> (*pos == p0 + 1 && is_uint_lit(lhs, toks@[p0].text@)) || (*pos == p0 + 5
                && is_add_of_mul(lhs, toks@[p0].text@, toks@[p0 + 2].text@, toks@[p0 + 4].text@)),
        decreases toks@.len() - *pos, 1int,
    {
        let k = peek(toks, *pos);
        let op = match k {
            Some(TokenKind::Plus) => BinaryOp::Add,
            Some(TokenKind::Minus) => BinaryOp::Sub,
            Some(TokenKind::DotPlus) => BinaryOp::ElemAdd,
            Some(TokenKind::DotMinus) => BinaryOp::ElemSub,
            _ => {
                return Ok(lhs);
            },
        };
        *pos = *pos + 1;
        let ghost mid = ctx.id_count as int;
        let rhs = match parse_term(toks, pos, ctx) {
            Ok(e) => e,
            Err(e) => {
                return Err(e);
            },
        };
        let end = last_end(toks, *pos);
        lhs = mk_binary(ctx, op, lhs, rhs, start, end, Ghost(lo), Ghost(mid));
    }
}

/// Parses a relation: `arith [relop arith]`. Relational operators do not
/// chain: `a < b < c` is rejected at the second `<`.
fn parse_relation(toks: &Vec<Token>, pos: &mut usize, ctx: &mut ParserContext) -> (r: Result<
    Expression,
    ParseError,
>)
    requires
        pinv(toks@, *old(pos) as int, *old(ctx)),
    ensures
        pstep(toks@, *old(pos) as int, *final(pos) as int, *old(ctx), *final(ctx)),
        r is Ok ==> *final(pos) > *old(pos),
        r is Ok ==> ids_ok(
            expression_ids(r->Ok_0),
            old(ctx).id_count as int,
            final(ctx).id_count as int,
        ),
        add_mul_tokens(toks@, *old(pos) as int) ==> add_mul_result(
            r,
            toks@,
            *old(pos) as int,
            *final(pos) as int,
        ),
        r is Err ==> parse_error_wf(r->Err_0, toks@),
    decreases toks@.len() - *pos, 50int,
{
    let ghost lo = ctx.id_count as int;
    let start = start_of(toks, *pos);
    let lhs = match parse_arith(toks, pos, ctx) {
        Ok(e) => e,
        Err(e) => {
            return Err(e);
        },
    };
    let k = peek(toks, *pos);
    let op = match k {
        Some(TokenKind::Lt) => BinaryOp::LessThan,
        Some(TokenKind::Le) => BinaryOp::LessThanOrEqual,
        Some(TokenKind::Gt) => BinaryOp::GreaterThan,
        Some(TokenKind::Ge) => BinaryOp::GreaterThanOrEqual,
        Some(TokenKind::EqEq) => BinaryOp::Equal,
        Some(TokenKind::Ne) => BinaryOp::NotEqual,
        _ => {
            return Ok(lhs);
        },
    };
    *pos = *pos + 1;
    let ghost mid = ctx.id_count as int;
    let rhs = match parse_arith(toks, pos, ctx) {
        Ok(e) => e,
        Err(e) => {
            return Err(e);
        },
    };
    let end = last_end(toks, *pos);
    Ok(mk_binary(ctx, op, lhs, rhs, start, end, Ghost(lo), Ghost(mid)))
}

/// Parses a logical factor: `[not] relation`.
fn parse_logical_factor(toks: &Vec<Token>, pos: &mut usize, ctx: &mut ParserContext) -> (r: Result<
    Expression,
    ParseError,
>)
    requires
        pinv(toks@, *old(pos) as int, *old(ctx)),
    ensures
        pstep(toks@, *old(pos) as int, *final(pos) as int, *old(ctx), *final(ctx)),
        r is Ok ==> *final(pos) > *old(pos),
        r is Ok ==> ids_ok(
            expression_ids(r->Ok_0),
            old(ctx).id_count as int,
            final(ctx).id_count as int,
        ),
        add_mul_tokens(toks@, *old(pos) as int) ==> add_mul_result(
            r,
            toks@,
            *old(pos) as int,
            *final(pos) as int,
        ),
        r is Err ==> parse_error_wf(r->Err_0, toks@),
    decreases toks@.len() - *pos, 52int,
{
    let ghost lo = ctx.id_count as int;
    let start = start_of(toks, *pos);
    if at(toks, *pos, TokenKind::KwNot) {
        *pos = *pos + 1;
        let rhs = match parse_relation(toks, pos, ctx) {
            Ok(e) => e,
            Err(e) => {
                return Err(e);
            },
        };
        let end = last_end(toks, *pos);
        Ok(mk_unary(ctx, UnaryOp::Not, rhs, start, end, Ghost(lo)))
    } else {
        parse_relation(toks, pos, ctx)
    }
}

/// Parses a conjunction: `lfactor { and lfactor }`.
#[verifier::loop_isolation(false)]
fn parse_and(toks: &Vec<Token>, pos: &mut usize, ctx: &mut ParserContext) -> (r: Result<
    Expression,
    ParseError,
>)
    requires
        pinv(toks@, *old(pos) as int, *old(ctx)),
    ensures
        pstep(toks@, *old(pos) as int, *final(pos) as int, *old(ctx), *final(ctx)),
        r is Ok ==> *final(pos) > *old(pos),
        r is Ok ==> ids_ok(
            expression_ids(r->Ok_0),
            old(ctx).id_count as int,
            final(ctx).id_count as int,
        ),
        add_mul_tokens(toks@, *old(pos) as int) ==> add_mul_result(
            r,
            toks@,
            *old(pos) as int,
            *final(pos) as int,
        ),
        r is Err ==> parse_error_wf(r->Err_0, toks@),
    decreases toks@.len() - *pos, 54int,
{
    let ghost p0 = *old(pos) as int;
    let ghost hyp = add_mul_tokens(toks@, p0);
    let ghost lo = ctx.id_count as int;
    let start = start_of(toks, *pos);
    let mut lhs = match parse_logical_factor(toks, pos, ctx) {
        Ok(e) => e,
        Err(e) => {
            return Err(e);
        },
    };
    loop
        invariant
            pinv(toks@, *pos as int, *ctx),
            *old(pos) < *pos,
            old(ctx).id_count <= ctx.id_count,
            ctx.id_count - old(ctx).id_count <= 2 * (*pos - *old(pos)),
            ids_ok(expression_ids(lhs), lo, ctx.id_count as int),
            lo == old(ctx).id_count as int,
            hyp ==> *pos == p0 + 5 && is_add_of_mul(lhs, toks@[p0].text@, toks@[p0 + 2].text@,
                toks@[p0 + 4].text@),
        decreases toks@.len() - *pos, 1int,
    {
        if !at(toks, *pos, TokenKind::KwAnd) {
            return Ok(lhs);
        }
        *pos = *pos + 1;
        let ghost mid = ctx.id_count as int;
        let rhs = match parse_logical_factor(toks, pos, ctx) {
            Ok(e) => e,
            Err(e) => {
                return Err(e);
            },
        };
        let end = last_end(toks, *pos);
        lhs = mk_binary(ctx, BinaryOp::And, lhs, rhs, start, end, Ghost(lo), Ghost(mid));
    }
}

/// Parses a disjunction: `and_expr { or and_expr }`.
#[verifier::loop_isolation(false)]
fn parse_or(toks: &Vec<Token>, pos: &mut usize, ctx: &mut ParserContext) -> (r: Result<
    Expression,
    ParseError,
>)
    requires
        pinv(toks@, *old(pos) as int, *old(ctx)),
    ensures
        pstep(toks@, *old(pos) as int, *final(pos) as int, *old(ctx), *final(ctx)),
        r is Ok ==> *final(pos) > *old(pos),
        r is Ok ==> ids_ok(
            expression_ids(r->Ok_0),
            old(ctx).id_count as int,
            final(ctx).id_count as int,
        ),
        add_mul_tokens(toks@, *old(pos) as int) ==> add_mul_result(
            r,
            toks@,
            *old(pos) as int,
            *final(pos) as int,
        ),
        r is Err ==> parse_error_wf(r->Err_0, toks@),
    decreases toks@.len() - *pos, 56int,
{
    let ghost p0 = *old(pos) as int;
    let ghost hyp = add_mul_tokens(toks@, p0);
    let ghost lo = ctx.id_count as int;
    let start = start_of(toks, *pos);
    let mut lhs = match parse_and(toks, pos, ctx) {
        Ok(e) => e,
        Err(e) => {
            return Err(e);
        },
    };
    loop
        invariant
            pinv(toks@, *pos as int, *ctx),
            *old(pos) < *pos,
            old(ctx).id_count <= ctx.id_count,
            ctx.id_count - old(ctx).id_count <= 2 * (*pos - *old(pos)),
            ids_ok(expression_ids(lhs), lo, ctx.id_count as int),
            lo == old(ctx).id_count as int,
            hyp ==> *pos == p0 + 5 && is_add_of_mul(lhs, toks@[p0].text@, toks@[p0 + 2].text@,
                toks@[p0 + 4].text@),
        decreases toks@.len() - *pos, 1int,
    {
        if !at(toks, *pos, TokenKind::KwOr) {
            return Ok(lhs);
        }
        *pos = *pos + 1;
        let ghost mid = ctx.id_count as int;
        let rhs = match parse_and(toks, pos, ctx) {
            Ok(e) => e,
            Err(e) => {
                return Err(e);
            },
        };
        let end = last_end(toks, *pos);
        lhs = mk_binary(ctx, BinaryOp::Or, lhs, rhs, start, end, Ghost(lo), Ghost(mid));
    }
}

/// Parses a simple expression: `or_expr { : or_expr }`, the colon building
/// range expressions, grouping to the left.
#[verifier::loop_isolation(false)]
fn parse_simple_expression(toks: &Vec<Token>, pos: &mut usize, ctx: &mut ParserContext) -> (r:
    Result<Expression, ParseError>)
    requires
        pinv(toks@, *old(pos) as int, *old(ctx)),
    ensures
        pstep(toks@, *old(pos) as int, *final(pos) as int, *old(ctx), *final(ctx)),
        r is Ok ==> *final(pos) > *old(pos),
        r is Ok ==> ids_ok(
            expression_ids(r->Ok_0),
            old(ctx).id_count as int,
            final(ctx).id_count as int,
        ),
        add_mul_tokens(toks@, *old(pos) as int) ==> add_mul_result(
            r,
            toks@,
            *old(pos) as int,
            *final(pos) as int,
        ),
        r is Err ==> parse_error_wf(r->Err_0, toks@),
    decreases toks@.len() - *pos, 58int,
{
    let ghost p0 = *old(pos) as int;
    let ghost hyp = add_mul_tokens(toks@, p0);
    let ghost lo = ctx.id_count as int;
    let start = start_of(toks, *pos);
    let mut lhs = match parse_or(toks, pos, ctx) {
        Ok(e) => e,
        Err(e) => {
            return Err(e);
        },
    };
    loop
        invariant
            pinv(toks@, *pos as int, *ctx),
            *old(pos) < *pos,
            old(ctx).id_count <= ctx.id_count,
            ctx.id_count - old(ctx).id_count <= 2 * (*pos - *old(pos)),
            ids_ok(expression_ids(lhs), lo, ctx.id_count as int),
            lo == old(ctx).id_count as int,
            hyp ==> *pos == p0 + 5 && is_add_of_mul(lhs, toks@[p0].text@, toks@[p0 + 2].text@,
                toks@[p0 + 4].text@),
        decreases toks@.len() - *pos, 1int,
    {
        if !at(toks, *pos, TokenKind::Colon) {
            return Ok(lhs);
        }
        *pos = *pos + 1;
        let ghost mid = ctx.id_count as int;
        let rhs = match parse_or(toks, pos, ctx) {
            Ok(e) => e,
            Err(e) => {
                return Err(e);
            },
        };
        let end = last_end(toks, *pos);
        lhs = mk_binary(ctx, BinaryOp::Range, lhs, rhs, start, end, Ghost(lo), Ghost(mid));
    }
}

/// Parses an expression: an if-expression or a simple expression. An
/// if-expression requires its else branch.
#[verifier::loop_isolation(false)]
pub(crate) fn parse_expression(toks: &Vec<Token>, pos: &mut usize, ctx: &mut ParserContext) -> (r: Result<
    Expression,
    ParseError,
>)
    requires
        pinv(toks@, *old(pos) as int, *old(ctx)),
    ensures
        pstep(toks@, *old(pos) as int, *final(pos) as int, *old(ctx), *final(ctx)),
        r is Ok ==> *final(pos) > *old(pos),
        r is Ok ==> ids_ok(
            expression_ids(r->Ok_0),
            old(ctx).id_count as int,
            final(ctx).id_count as int,
        ),
        add_mul_tokens(toks@, *old(pos) as int) ==> add_mul_result(
            r,
            toks@,
            *old(pos) as int,
            *final(pos) as int,
        ),
        r is Err ==> parse_error_wf(r->Err_0, toks@),
    decreases toks@.len() - *pos, 60int,
{
    if !at(toks, *pos, TokenKind::KwIf) {
        return parse_simple_expression(toks, pos, ctx);
    }
    let ghost lo = ctx.id_count as int;
    let start = start_of(toks, *pos);
    let mut if_blocks: Vec<ExpressionIfBlock> = Vec::new();
    *pos = *pos + 1;
    loop
        invariant
            pinv(toks@, *pos as int, *ctx),
            *old(pos) < *pos,
            old(ctx).id_count <= ctx.id_count,
            ctx.id_count - old(ctx).id_count <= 2 * (*pos - *old(pos)) - 1,
            ids_ok(expression_if_blocks_ids(if_blocks@, 0), lo, ctx.id_count as int),
            lo == old(ctx).id_count as int,
        decreases toks@.len() - *pos, 1int,
    {
        let ghost mid = ctx.id_count as int;
        let ghost blocks0 = if_blocks@;
        let bstart = start_of(toks, *pos);
        let cond = match parse_expression(toks, pos, ctx) {
            Ok(e) => e,
            Err(e) => {
                return Err(e);
            },
        };
        match expect(toks, pos, TokenKind::KwThen) {
            Ok(()) => {},
            Err(e) => {
                return Err(e);
            },
        }
        let ghost m2 = ctx.id_count as int;
        let body = match parse_expression(toks, pos, ctx) {
            Ok(e) => e,
            Err(e) => {
                return Err(e);
            },
        };
        let bend = last_end(toks, *pos);
        let ghost m3 = ctx.id_count as int;
        let bid = ctx.new_id();
        let block = ExpressionIfBlock {
            node_data: NodeData::new(bid, bstart, bend),
            cond,
            expr: body,
        };
        proof {
            lemma_ids_ok_concat(
                expression_ids(block.cond),
                expression_ids(block.expr),
                mid,
                m2,
                m3,
            );
            assert(ids_ok(seq![bid as int], m3, m3 + 1));
            lemma_ids_ok_concat(
                expression_ids(block.cond) + expression_ids(block.expr),
                seq![bid as int],
                mid,
                m3,
                m3 + 1,
            );
            lemma_expression_if_blocks_ids_push(blocks0, block, 0);
            lemma_ids_ok_concat(
                expression_if_blocks_ids(blocks0, 0),
                expression_if_block_ids(block),
                lo,
                mid,
                ctx.id_count as int + 1,
            );
        }
        if_blocks.push(block);
        if !at(toks, *pos, TokenKind::KwElseif) {
            break ;
        }
        *pos = *pos + 1;
    }
    match expect(toks, pos, TokenKind::KwElse) {
        Ok(()) => {},
        Err(e) => {
            return Err(e);
        },
    }
    let ghost m4 = ctx.id_count as int;
    let else_e = match parse_expression(toks, pos, ctx) {
        Ok(e) => e,
        Err(e) => {
            return Err(e);
        },
    };
    let end = last_end(toks, *pos);
    let ghost m5 = ctx.id_count as int;
    let id = ctx.new_id();
    let node = ExpressionIf {
        node_data: NodeData::new(id, start, end),
        if_blocks,
        else_expr: Some(Box::new(else_e)),
    };
    proof {
        lemma_ids_ok_concat(
            expression_if_blocks_ids(node.if_blocks@, 0),
            expression_ids(else_e),
            lo,
            m4,
            m5,
        );
        assert(ids_ok(seq![id as int], m5, m5 + 1));
        lemma_ids_ok_concat(
            expression_if_blocks_ids(node.if_blocks@, 0) + expression_ids(else_e),
            seq![id as int],
            lo,
            m5,
            m5 + 1,
        );
    }
    Ok(Expression::If(node))
}

} // verus!
