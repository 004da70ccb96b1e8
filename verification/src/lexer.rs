use vstd::prelude::*;
use vstd::string::StrSliceExecFns;

verus! {

/// The kind of a token. Keyword kinds carry no text; identifier, literal and
/// string kinds carry their lexeme in the token's `text` field.
#[derive(Clone, Copy, Debug, PartialEq, Eq, Structural)]
pub enum TokenKind {
    Ident,
    UInt,
    UReal,
    StringLit,
    KwAlgorithm,
    KwAnd,
    KwAnnotation,
    KwBlock,
    KwBreak,
    KwClass,
    KwConnect,
    KwConnector,
    KwConstant,
    KwDiscrete,
    KwEach,
    KwElse,
    KwElseif,
    KwEncapsulated,
    KwEnd,
    KwEquation,
    KwExpandable,
    KwExtends,
    KwFalse,
    KwFinal,
    KwFlow,
    KwFor,
    KwFunction,
    KwIf,
    KwImport,
    KwImpure,
    KwIn,
    KwInitial,
    KwInner,
    KwInput,
    KwLoop,
    KwModel,
    KwNot,
    KwOperator,
    KwOr,
    KwOuter,
    KwOutput,
    KwPackage,
    KwParameter,
    KwPartial,
    KwProtected,
    KwPublic,
    KwPure,
    KwRecord,
    KwRedeclare,
    KwReplaceable,
    KwReturn,
    KwStream,
    KwThen,
    KwTrue,
    KwType,
    KwWhile,
    KwWithin,
    LParen,
    RParen,
    LBracket,
    RBracket,
    LBrace,
    RBrace,
    Semicolon,
    Comma,
    Colon,
    Dot,
    Assign,
    Eq,
    Plus,
    Minus,
    Star,
    Slash,
    Caret,
    DotPlus,
    DotMinus,
    DotStar,
    DotSlash,
    DotCaret,
    Lt,
    Le,
    Gt,
    Ge,
    EqEq,
    Ne,
}

/// One token: its kind, the half-open character span `start .. end` it was
/// scanned from, and its lexeme where the kind carries one.
#[derive(Debug, PartialEq, Eq)]
pub struct Token {
    pub kind: TokenKind,
    pub start: usize,
    pub end: usize,
    pub text: String,
}

/// A failure of the tokenizer. Both variants abort the parse.
#[derive(Debug, PartialEq, Eq)]
pub enum LexicalError {
    /// A numeral with a malformed exponent part.
    InvalidInteger { start: usize, end: usize, detail: String },
    /// A character that starts no token, or an unterminated string, quoted
    /// identifier or block comment starting here.
    InvalidToken { location: usize },
}

/// A token is well formed against the scanned text: its span is a non-empty
/// range of the text, and a numeric token's lexeme is exactly the spanned
/// characters.
pub open spec fn token_wf(t: Token, text: Seq<char>) -> bool {
    &&& t.start < t.end <= text.len()
    &&& (t.kind == TokenKind::UInt || t.kind == TokenKind::UReal) ==> t.text@
        == text.subrange(t.start as int, t.end as int)
}

/// The token sequence is well formed: every token is, and the spans come in
/// source order without overlap.
pub open spec fn tokens_wf(s: Seq<Token>, text: Seq<char>) -> bool {
    &&& forall|i: int| 0 <= i < s.len() ==> token_wf(#[trigger] s[i], text)
    &&& forall|i: int, j: int| 0 <= i < j < s.len() ==> (#[trigger] s[i]).end <= (#[trigger] s[j]).start
}

/// A lexical error points into (or just past) the text.
pub open spec fn lex_error_wf(e: LexicalError, text: Seq<char>) -> bool {
    match e {
        LexicalError::InvalidInteger { start, end, detail } => start < end <= text.len(),
        LexicalError::InvalidToken { location } => location < text.len(),
    }
}

pub open spec fn is_digit(c: char) -> bool {
    48 <= c as u32 <= 57
}

pub open spec fn is_ident_start(c: char) -> bool {
    ||| 65 <= c as u32 <= 90
    ||| 97 <= c as u32 <= 122
    ||| c as u32 == 95
}

pub open spec fn is_ident_char(c: char) -> bool {
    is_ident_start(c) || is_digit(c)
}

fn digit(c: char) -> (r: bool)
    ensures
        r == is_digit(c),
{
    let u = c as u32;
    48 <= u && u <= 57
}

fn ident_start(c: char) -> (r: bool)
    ensures
        r == is_ident_start(c),
{
    let u = c as u32;
    (65 <= u && u <= 90) || (97 <= u && u <= 122) || u == 95
}

fn ident_char(c: char) -> (r: bool)
    ensures
        r == is_ident_char(c),
{
    ident_start(c) || digit(c)
}

/// Character-for-character string equality.
fn str_eq(a: &str, b: &str) -> (r: bool)
    ensures
        r == (a@ == b@),
{
    let na = a.unicode_len();
    let nb = b.unicode_len();
    if na != nb {
        proof {
            assert(a@ != b@) by {
                assert(a@.len() != b@.len());
            }
        }
        return false;
    }
    for i in 0..na
        invariant
            na == a@.len() == b@.len(),
            forall|k: int| 0 <= k < i ==> a@[k] == b@[k],
        decreases na - i,
    {
        if a.get_char(i) != b.get_char(i) {
            return false;
        }
    }
    proof {
        assert(a@ =~= b@);
    }
    true
}

/// The keyword kind of a word, if it is one.
pub open spec fn spec_keyword(w: Seq<char>) -> Option<TokenKind> {
    if w == "algorithm"@ {
        Some(TokenKind::KwAlgorithm)
    } else if w == "and"@ {
        Some(TokenKind::KwAnd)
    } else if w == "annotation"@ {
        Some(TokenKind::KwAnnotation)
    } else if w == "block"@ {
        Some(TokenKind::KwBlock)
    } else if w == "break"@ {
        Some(TokenKind::KwBreak)
    } else if w == "class"@ {
        Some(TokenKind::KwClass)
    } else if w == "connect"@ {
        Some(TokenKind::KwConnect)
    } else if w == "connector"@ {
        Some(TokenKind::KwConnector)
    } else if w == "constant"@ {
        Some(TokenKind::KwConstant)
    } else if w == "discrete"@ {
        Some(TokenKind::KwDiscrete)
    } else if w == "each"@ {
        Some(TokenKind::KwEach)
    } else if w == "else"@ {
        Some(TokenKind::KwElse)
    } else if w == "elseif"@ {
        Some(TokenKind::KwElseif)
    } else if w == "encapsulated"@ {
        Some(TokenKind::KwEncapsulated)
    } else if w == "end"@ {
        Some(TokenKind::KwEnd)
    } else if w == "equation"@ {
        Some(TokenKind::KwEquation)
    } else if w == "expandable"@ {
        Some(TokenKind::KwExpandable)
    } else if w == "extends"@ {
        Some(TokenKind::KwExtends)
    } else if w == "false"@ {
        Some(TokenKind::KwFalse)
    } else if w == "final"@ {
        Some(TokenKind::KwFinal)
    } else if w == "flow"@ {
        Some(TokenKind::KwFlow)
    } else if w == "for"@ {
        Some(TokenKind::KwFor)
    } else if w == "function"@ {
        Some(TokenKind::KwFunction)
    } else if w == "if"@ {
        Some(TokenKind::KwIf)
    } else if w == "import"@ {
        Some(TokenKind::KwImport)
    } else if w == "impure"@ {
        Some(TokenKind::KwImpure)
    } else if w == "in"@ {
        Some(TokenKind::KwIn)
    } else if w == "initial"@ {
        Some(TokenKind::KwInitial)
    } else if w == "inner"@ {
        Some(TokenKind::KwInner)
    } else if w == "input"@ {
        Some(TokenKind::KwInput)
    } else if w == "loop"@ {
        Some(TokenKind::KwLoop)
    } else if w == "model"@ {
        Some(TokenKind::KwModel)
    } else if w == "not"@ {
        Some(TokenKind::KwNot)
    } else if w == "operator"@ {
        Some(TokenKind::KwOperator)
    } else if w == "or"@ {
        Some(TokenKind::KwOr)
    } else if w == "outer"@ {
        Some(TokenKind::KwOuter)
    } else if w == "output"@ {
        Some(TokenKind::KwOutput)
    } else if w == "package"@ {
        Some(TokenKind::KwPackage)
    } else if w == "parameter"@ {
        Some(TokenKind::KwParameter)
    } else if w == "partial"@ {
        Some(TokenKind::KwPartial)
    } else if w == "protected"@ {
        Some(TokenKind::KwProtected)
    } else if w == "public"@ {
        Some(TokenKind::KwPublic)
    } else if w == "pure"@ {
        Some(TokenKind::KwPure)
    } else if w == "record"@ {
        Some(TokenKind::KwRecord)
    } else if w == "redeclare"@ {
        Some(TokenKind::KwRedeclare)
    } else if w == "replaceable"@ {
        Some(TokenKind::KwReplaceable)
    } else if w == "return"@ {
        Some(TokenKind::KwReturn)
    } else if w == "stream"@ {
        Some(TokenKind::KwStream)
    } else if w == "then"@ {
        Some(TokenKind::KwThen)
    } else if w == "true"@ {
        Some(TokenKind::KwTrue)
    } else if w == "type"@ {
        Some(TokenKind::KwType)
    } else if w == "while"@ {
        Some(TokenKind::KwWhile)
    } else if w == "within"@ {
        Some(TokenKind::KwWithin)
    } else {
        None
    }
}

/// Maps a scanned word to its keyword kind, if it is one.
#[verifier::rlimit(30)]
fn keyword_of(s: &str) -> (r: Option<TokenKind>)
    ensures
        r == spec_keyword(s@),
{
    if str_eq(s, "algorithm") {
        Some(TokenKind::KwAlgorithm)
    } else if str_eq(s, "and") {
        Some(TokenKind::KwAnd)
    } else if str_eq(s, "annotation") {
        Some(TokenKind::KwAnnotation)
    } else if str_eq(s, "block") {
        Some(TokenKind::KwBlock)
    } else if str_eq(s, "break") {
        Some(TokenKind::KwBreak)
    } else if str_eq(s, "class") {
        Some(TokenKind::KwClass)
    } else if str_eq(s, "connect") {
        Some(TokenKind::KwConnect)
    } else if str_eq(s, "connector") {
        Some(TokenKind::KwConnector)
    } else if str_eq(s, "constant") {
        Some(TokenKind::KwConstant)
    } else if str_eq(s, "discrete") {
        Some(TokenKind::KwDiscrete)
    } else if str_eq(s, "each") {
        Some(TokenKind::KwEach)
    } else if str_eq(s, "else") {
        Some(TokenKind::KwElse)
    } else if str_eq(s, "elseif") {
        Some(TokenKind::KwElseif)
    } else if str_eq(s, "encapsulated") {
        Some(TokenKind::KwEncapsulated)
    } else if str_eq(s, "end") {
        Some(TokenKind::KwEnd)
    } else if str_eq(s, "equation") {
        Some(TokenKind::KwEquation)
    } else if str_eq(s, "expandable") {
        Some(TokenKind::KwExpandable)
    } else if str_eq(s, "extends") {
        Some(TokenKind::KwExtends)
    } else if str_eq(s, "false") {
        Some(TokenKind::KwFalse)
    } else if str_eq(s, "final") {
        Some(TokenKind::KwFinal)
    } else if str_eq(s, "flow") {
        Some(TokenKind::KwFlow)
    } else if str_eq(s, "for") {
        Some(TokenKind::KwFor)
    } else if str_eq(s, "function") {
        Some(TokenKind::KwFunction)
    } else if str_eq(s, "if") {
        Some(TokenKind::KwIf)
    } else if str_eq(s, "import") {
        Some(TokenKind::KwImport)
    } else if str_eq(s, "impure") {
        Some(TokenKind::KwImpure)
    } else if str_eq(s, "in") {
        Some(TokenKind::KwIn)
    } else if str_eq(s, "initial") {
        Some(TokenKind::KwInitial)
    } else if str_eq(s, "inner") {
        Some(TokenKind::KwInner)
    } else if str_eq(s, "input") {
        Some(TokenKind::KwInput)
    } else if str_eq(s, "loop") {
        Some(TokenKind::KwLoop)
    } else if str_eq(s, "model") {
        Some(TokenKind::KwModel)
    } else if str_eq(s, "not") {
        Some(TokenKind::KwNot)
    } else if str_eq(s, "operator") {
        Some(TokenKind::KwOperator)
    } else if str_eq(s, "or") {
        Some(TokenKind::KwOr)
    } else if str_eq(s, "outer") {
        Some(TokenKind::KwOuter)
    } else if str_eq(s, "output") {
        Some(TokenKind::KwOutput)
    } else if str_eq(s, "package") {
        Some(TokenKind::KwPackage)
    } else if str_eq(s, "parameter") {
        Some(TokenKind::KwParameter)
    } else if str_eq(s, "partial") {
        Some(TokenKind::KwPartial)
    } else if str_eq(s, "protected") {
        Some(TokenKind::KwProtected)
    } else if str_eq(s, "public") {
        Some(TokenKind::KwPublic)
    } else if str_eq(s, "pure") {
        Some(TokenKind::KwPure)
    } else if str_eq(s, "record") {
        Some(TokenKind::KwRecord)
    } else if str_eq(s, "redeclare") {
        Some(TokenKind::KwRedeclare)
    } else if str_eq(s, "replaceable") {
        Some(TokenKind::KwReplaceable)
    } else if str_eq(s, "return") {
        Some(TokenKind::KwReturn)
    } else if str_eq(s, "stream") {
        Some(TokenKind::KwStream)
    } else if str_eq(s, "then") {
        Some(TokenKind::KwThen)
    } else if str_eq(s, "true") {
        Some(TokenKind::KwTrue)
    } else if str_eq(s, "type") {
        Some(TokenKind::KwType)
    } else if str_eq(s, "while") {
        Some(TokenKind::KwWhile)
    } else if str_eq(s, "within") {
        Some(TokenKind::KwWithin)
    } else {
        None
    }
}


/// A token at the specification level: character offsets as mathematical
/// integers and the lexeme as a character sequence.
pub struct SpecToken {
    pub kind: TokenKind,
    pub start: int,
    pub end: int,
    pub text: Seq<char>,
}

/// What the scanner does at one position: skip separator characters, emit
/// one token, or fail.
pub enum ScanStep {
    Skip { next: int },
    Emit { tok: SpecToken, next: int },
    BadNumeral { start: int, end: int },
    BadChar { location: int },
}

/// The outcome of scanning a whole suffix of the text.
pub enum ScanOutcome {
    Toks { toks: Seq<SpecToken> },
    BadNumeral { start: int, end: int },
    BadChar { location: int },
}

pub open spec fn is_space(c: char) -> bool {
    c == ' ' || c == '\t' || c == '\r' || c == '\n'
}

/// The first position at or after `i` that does not continue an identifier.
pub open spec fn ident_span_end(text: Seq<char>, i: int) -> int
    decreases text.len() - i,
{
    if i < 0 || i >= text.len() || !is_ident_char(text[i]) {
        i
    } else {
        ident_span_end(text, i + 1)
    }
}

/// The first position at or after `i` that is not a digit.
pub open spec fn digits_span_end(text: Seq<char>, i: int) -> int
    decreases text.len() - i,
{
    if i < 0 || i >= text.len() || !is_digit(text[i]) {
        i
    } else {
        digits_span_end(text, i + 1)
    }
}

/// The position of the newline ending a line comment, or the end of text.
pub open spec fn line_comment_end(text: Seq<char>, i: int) -> int
    decreases text.len() - i,
{
    if i < 0 || i >= text.len() || text[i] == '\n' {
        i
    } else {
        line_comment_end(text, i + 1)
    }
}

/// The position just past the first closing `*/` at or after `i`, if any.
pub open spec fn block_comment_close(text: Seq<char>, i: int) -> Option<int>
    decreases text.len() - i,
{
    if i < 0 || i >= text.len() {
        None
    } else if text[i] == '*' && i + 1 < text.len() && text[i + 1] == '/' {
        Some(i + 2)
    } else {
        block_comment_close(text, i + 1)
    }
}

/// The position just past the closing quote at or after `i`, skipping
/// backslash-escaped pairs, if any.
pub open spec fn quote_close(text: Seq<char>, i: int, q: char) -> Option<int>
    decreases text.len() - i,
{
    if i < 0 || i >= text.len() {
        None
    } else if text[i] == '\\' && i + 1 < text.len() {
        quote_close(text, i + 2, q)
    } else if text[i] == q {
        Some(i + 1)
    } else {
        quote_close(text, i + 1, q)
    }
}

/// The two-character operators, matched before any one-character operator.
pub open spec fn two_char_op(c: char, d: char) -> Option<TokenKind> {
    if c == ':' && d == '=' {
        Some(TokenKind::Assign)
    } else if c == '=' && d == '=' {
        Some(TokenKind::EqEq)
    } else if c == '<' && d == '>' {
        Some(TokenKind::Ne)
    } else if c == '<' && d == '=' {
        Some(TokenKind::Le)
    } else if c == '>' && d == '=' {
        Some(TokenKind::Ge)
    } else if c == '.' && d == '+' {
        Some(TokenKind::DotPlus)
    } else if c == '.' && d == '-' {
        Some(TokenKind::DotMinus)
    } else if c == '.' && d == '*' {
        Some(TokenKind::DotStar)
    } else if c == '.' && d == '/' {
        Some(TokenKind::DotSlash)
    } else if c == '.' && d == '^' {
        Some(TokenKind::DotCaret)
    } else {
        None
    }
}

/// The one-character operators and punctuation.
pub open spec fn one_char_op(c: char) -> Option<TokenKind> {
    if c == '(' {
        Some(TokenKind::LParen)
    } else if c == ')' {
        Some(TokenKind::RParen)
    } else if c == '[' {
        Some(TokenKind::LBracket)
    } else if c == ']' {
        Some(TokenKind::RBracket)
    } else if c == '{' {
        Some(TokenKind::LBrace)
    } else if c == '}' {
        Some(TokenKind::RBrace)
    } else if c == ';' {
        Some(TokenKind::Semicolon)
    } else if c == ',' {
        Some(TokenKind::Comma)
    } else if c == ':' {
        Some(TokenKind::Colon)
    } else if c == '.' {
        Some(TokenKind::Dot)
    } else if c == '=' {
        Some(TokenKind::Eq)
    } else if c == '+' {
        Some(TokenKind::Plus)
    } else if c == '-' {
        Some(TokenKind::Minus)
    } else if c == '*' {
        Some(TokenKind::Star)
    } else if c == '/' {
        Some(TokenKind::Slash)
    } else if c == '^' {
        Some(TokenKind::Caret)
    } else if c == '<' {
        Some(TokenKind::Lt)
    } else if c == '>' {
        Some(TokenKind::Gt)
    } else {
        None
    }
}

/// The scan of a numeral beginning with the digit at `start`: digits, an
/// optional fraction, an optional exponent whose digits must not be missing.
pub open spec fn number_step(text: Seq<char>, start: int) -> ScanStep {
    let d1 = digits_span_end(text, start + 1);
    let dotted = d1 < text.len() && text[d1] == '.';
    let d2 = if dotted {
        digits_span_end(text, d1 + 1)
    } else {
        d1
    };
    let has_exp = d2 < text.len() && (text[d2] == 'e' || text[d2] == 'E');
    if has_exp {
        let s0 = if d2 + 1 < text.len() && (text[d2 + 1] == '+' || text[d2 + 1] == '-') {
            d2 + 2
        } else {
            d2 + 1
        };
        if s0 >= text.len() || !is_digit(text[s0]) {
            ScanStep::BadNumeral {
                start,
                end: if s0 < text.len() {
                    s0 + 1
                } else {
                    text.len() as int
                },
            }
        } else {
            let e = digits_span_end(text, s0);
            ScanStep::Emit {
                tok: SpecToken {
                    kind: TokenKind::UReal,
                    start,
                    end: e,
                    text: text.subrange(start, e),
                },
                next: e,
            }
        }
    } else {
        ScanStep::Emit {
            tok: SpecToken {
                kind: if dotted {
                    TokenKind::UReal
                } else {
                    TokenKind::UInt
                },
                start,
                end: d2,
                text: text.subrange(start, d2),
            },
            next: d2,
        }
    }
}

/// What the scanner does at position `i` of the text: the specification of
/// one step of `tokenize`, exactly one case per class of leading character,
/// with the two-character operators matched before the one-character ones.
pub open spec fn scan_step(text: Seq<char>, i: int) -> ScanStep {
    let c = text[i];
    if is_space(c) {
        ScanStep::Skip { next: i + 1 }
    } else if c == '/' && i + 1 < text.len() && text[i + 1] == '/' {
        ScanStep::Skip { next: line_comment_end(text, i + 2) }
    } else if c == '/' && i + 1 < text.len() && text[i + 1] == '*' {
        match block_comment_close(text, i + 2) {
            Some(j) => ScanStep::Skip { next: j },
            None => ScanStep::BadChar { location: i },
        }
    } else if is_ident_start(c) {
        let j = ident_span_end(text, i + 1);
        let w = text.subrange(i, j);
        match spec_keyword(w) {
            Some(k) => ScanStep::Emit {
                tok: SpecToken { kind: k, start: i, end: j, text: Seq::empty() },
                next: j,
            },
            None => ScanStep::Emit {
                tok: SpecToken { kind: TokenKind::Ident, start: i, end: j, text: w },
                next: j,
            },
        }
    } else if is_digit(c) {
        number_step(text, i)
    } else if c == '"' {
        match quote_close(text, i + 1, '"') {
            Some(j) => ScanStep::Emit {
                tok: SpecToken {
                    kind: TokenKind::StringLit,
                    start: i,
                    end: j,
                    text: text.subrange(i + 1, j - 1),
                },
                next: j,
            },
            None => ScanStep::BadChar { location: i },
        }
    } else if c == '\'' {
        match quote_close(text, i + 1, '\'') {
            Some(j) => ScanStep::Emit {
                tok: SpecToken {
                    kind: TokenKind::Ident,
                    start: i,
                    end: j,
                    text: text.subrange(i + 1, j - 1),
                },
                next: j,
            },
            None => ScanStep::BadChar { location: i },
        }
    } else {
        let two = if i + 1 < text.len() {
            two_char_op(c, text[i + 1])
        } else {
            None
        };
        match two {
            Some(k) => ScanStep::Emit {
                tok: SpecToken { kind: k, start: i, end: i + 2, text: Seq::empty() },
                next: i + 2,
            },
            None => match one_char_op(c) {
                Some(k) => ScanStep::Emit {
                    tok: SpecToken { kind: k, start: i, end: i + 1, text: Seq::empty() },
                    next: i + 1,
                },
                None => ScanStep::BadChar { location: i },
            },
        }
    }
}

/// The scan of the text from position `i` to its end: the tokens of the
/// suffix, or the first failure. Every step of the scanner advances, so the
/// no-progress guard arms can never be reached.
pub open spec fn scan_from(text: Seq<char>, i: int) -> ScanOutcome
    decreases text.len() - i,
{
    if i < 0 || i >= text.len() {
        ScanOutcome::Toks { toks: Seq::empty() }
    } else {
        match scan_step(text, i) {
            ScanStep::Skip { next } => if i < next <= text.len() {
                scan_from(text, next)
            } else {
                ScanOutcome::BadChar { location: i }
            },
            ScanStep::Emit { tok, next } => if i < next <= text.len() {
                match scan_from(text, next) {
                    ScanOutcome::Toks { toks } => ScanOutcome::Toks { toks: seq![tok] + toks },
                    o => o,
                }
            } else {
                ScanOutcome::BadChar { location: i }
            },
            ScanStep::BadNumeral { start, end } => ScanOutcome::BadNumeral { start, end },
            ScanStep::BadChar { location } => ScanOutcome::BadChar { location },
        }
    }
}

/// The scan of the whole text: what `tokenize` computes.
pub open spec fn spec_tokens(text: Seq<char>) -> ScanOutcome {
    scan_from(text, 0)
}

/// The executable token agrees with the specification token.
pub open spec fn token_matches(t: Token, st: SpecToken) -> bool {
    &&& t.kind == st.kind
    &&& t.start as int == st.start
    &&& t.end as int == st.end
    &&& t.text@ == st.text
}

/// The executable token sequence agrees with the specification sequence,
/// token for token.
pub open spec fn tokens_match(ts: Seq<Token>, sts: Seq<SpecToken>) -> bool {
    &&& ts.len() == sts.len()
    &&& forall|k: int| 0 <= k < ts.len() ==> token_matches(#[trigger] ts[k], sts[k])
}

/// Tokens already scanned, prepended to the outcome of the remaining scan.
pub open spec fn scan_cat(pre: Seq<SpecToken>, o: ScanOutcome) -> ScanOutcome {
    match o {
        ScanOutcome::Toks { toks } => ScanOutcome::Toks { toks: pre + toks },
        _ => o,
    }
}

/// Emitting one token commutes with prepending: scanning on from `i`, where
/// the step emits `st` and moves to `j`, prepends `st` to the rest.
proof fn lemma_scan_cat_emit(pre: Seq<SpecToken>, st: SpecToken, text: Seq<char>, i: int, j: int)
    requires
        0 <= i < text.len(),
        scan_step(text, i) == (ScanStep::Emit { tok: st, next: j }),
        i < j <= text.len(),
    ensures
        scan_cat(pre, scan_from(text, i)) == scan_cat(pre.push(st), scan_from(text, j)),
{
    match scan_from(text, j) {
        ScanOutcome::Toks { toks } => {
            assert(pre + (seq![st] + toks) =~= pre.push(st) + toks);
        },
        _ => {},
    }
}

/// The characters of the text, one per index.
fn chars_of(text: &str) -> (v: Vec<char>)
    ensures
        v@ == text@,
{
    let n = text.unicode_len();
    let mut v: Vec<char> = Vec::new();
    for i in 0..n
        invariant
            n == text@.len(),
            v@ =~= text@.subrange(0, i as int),
        decreases n - i,
    {
        v.push(text.get_char(i));
    }
    proof {
        assert(v@ =~= text@);
    }
    v
}

/// Scans the whole text into its token sequence, eagerly, computing exactly
/// the specification scan `spec_tokens`: the same tokens on success and the
/// same first failure otherwise, so scanning is a pure function of the text.
/// Whitespace, line comments and block comments separate tokens and are
/// dropped; block comments do not nest. Operators are matched longest-first,
/// so `:=` is one token and the element-wise operators `.+  .-  .*  ./  .^`
/// are kept apart from their scalar counterparts. A malformed numeral or an
/// unrecognized character fails the whole scan at once, so a lexical error
/// is never deferred to the parser.
#[verifier::loop_isolation(false)]
#[verifier::spinoff_prover]
#[verifier::rlimit(100)]
pub fn tokenize(text: &str) -> (r: Result<Vec<Token>, LexicalError>)
    ensures
        r is Ok <==> spec_tokens(text@) is Toks,
        r matches Ok(v) ==> spec_tokens(text@) matches ScanOutcome::Toks { toks }
            && tokens_match(v@, toks),
        r matches Err(LexicalError::InvalidInteger { start, end, detail }) ==> spec_tokens(text@)
            == (ScanOutcome::BadNumeral { start: start as int, end: end as int }),
        r matches Err(LexicalError::InvalidToken { location }) ==> spec_tokens(text@)
            == (ScanOutcome::BadChar { location: location as int }),
        r is Ok ==> tokens_wf(r->Ok_0@, text@),
        r is Ok ==> r->Ok_0@.len() <= text@.len(),
        r is Err ==> lex_error_wf(r->Err_0, text@),
{
    let chars = chars_of(text);
    let n = chars.len();
    let mut toks: Vec<Token> = Vec::new();
    let ghost mut sts: Seq<SpecToken> = Seq::empty();
    let mut i: usize = 0;
    while i < n
        invariant
            i <= n,
            tokens_wf(toks@, text@),
            toks@.len() <= i,
            forall|k: int| 0 <= k < toks@.len() ==> (#[trigger] toks@[k]).end <= i,
            tokens_match(toks@, sts),
            scan_from(text@, 0) == scan_cat(sts, scan_from(text@, i as int)),
        decreases n - i,
    {
        let ghost i0 = i as int;
        let ghost sts0 = sts;
        let c = chars[i];
        if c == ' ' || c == '\t' || c == '\r' || c == '\n' {
            i = i + 1;
            proof {
                assert(scan_step(text@, i0) == (ScanStep::Skip { next: i0 + 1 }));
            }
        } else if c == '/' && i + 1 < n && chars[i + 1] == '/' {
            // line comment: to end of line
            let after = i + 2;
            i = after;
            while i < n && chars[i] != '\n'
                invariant
                    after <= i <= n,
                    line_comment_end(text@, after as int) == line_comment_end(text@, i as int),
                decreases n - i,
            {
                i = i + 1;
            }
            proof {
                assert(line_comment_end(text@, i as int) == i as int);
                assert(scan_step(text@, i0) == (ScanStep::Skip { next: i as int }));
            }
        } else if c == '/' && i + 1 < n && chars[i + 1] == '*' {
            // block comment, not nested: to the first `*/`
            let open_at = i;
            i = i + 2;
            let mut closed = false;
            while i < n && !closed
                invariant
                    open_at + 2 <= i <= n,
                    block_comment_close(text@, (open_at + 2) as int) == (if closed {
                        Some(i as int)
                    } else {
                        block_comment_close(text@, i as int)
                    }),
                decreases n - i,
            {
                if chars[i] == '*' && i + 1 < n && chars[i + 1] == '/' {
                    i = i + 2;
                    closed = true;
                } else {
                    i = i + 1;
                }
            }
            if !closed {
                proof {
                    assert(block_comment_close(text@, i as int) is None);
                    assert(scan_step(text@, i0) == (ScanStep::BadChar { location: i0 }));
                    assert(scan_from(text@, i0) == (ScanOutcome::BadChar { location: i0 }));
                }
                return Err(LexicalError::InvalidToken { location: open_at });
            }
            proof {
                assert(scan_step(text@, i0) == (ScanStep::Skip { next: i as int }));
            }
        } else if ident_start(c) {
            let start = i;
            i = i + 1;
            while i < n && ident_char(chars[i])
                invariant
                    start < i <= n,
                    ident_span_end(text@, (start + 1) as int) == ident_span_end(text@, i as int),
                decreases n - i,
            {
                i = i + 1;
            }
            proof {
                assert(ident_span_end(text@, i as int) == i as int);
            }
            let word = text.substring_char(start, i);
            let kind = keyword_of(word);
            match kind {
                Some(k) => {
                    let t = Token { kind: k, start, end: i, text: String::new() };
                    let ghost st = SpecToken {
                        kind: k,
                        start: start as int,
                        end: i as int,
                        text: Seq::empty(),
                    };
                    proof {
                        assert(scan_step(text@, i0) == (ScanStep::Emit { tok: st, next: i as int }));
                        lemma_scan_cat_emit(sts0, st, text@, i0, i as int);
                        sts = sts0.push(st);
                    }
                    toks.push(t);
                },
                None => {
                    let t = Token { kind: TokenKind::Ident, start, end: i, text: word.to_owned() };
                    let ghost st = SpecToken {
                        kind: TokenKind::Ident,
                        start: start as int,
                        end: i as int,
                        text: text@.subrange(start as int, i as int),
                    };
                    proof {
                        assert(scan_step(text@, i0) == (ScanStep::Emit { tok: st, next: i as int }));
                        lemma_scan_cat_emit(sts0, st, text@, i0, i as int);
                        sts = sts0.push(st);
                    }
                    toks.push(t);
                },
            }
        } else if digit(c) {
            let start = i;
            i = i + 1;
            while i < n && digit(chars[i])
                invariant
                    start < i <= n,
                    digits_span_end(text@, (start + 1) as int) == digits_span_end(text@, i as int),
                decreases n - i,
            {
                i = i + 1;
            }
            proof {
                assert(digits_span_end(text@, i as int) == i as int);
            }
            let ghost d1 = i as int;
            let mut is_real = false;
            if i < n && chars[i] == '.' {
                is_real = true;
                i = i + 1;
                while i < n && digit(chars[i])
                    invariant
                        start < i <= n,
                        digits_span_end(text@, (d1 + 1) as int) == digits_span_end(
                            text@,
                            i as int,
                        ),
                    decreases n - i,
                {
                    i = i + 1;
                }
                proof {
                    assert(digits_span_end(text@, i as int) == i as int);
                }
            }
            let ghost d2 = i as int;
            if i < n && (chars[i] == 'e' || chars[i] == 'E') {
                is_real = true;
                i = i + 1;
                if i < n && (chars[i] == '+' || chars[i] == '-') {
                    i = i + 1;
                }
                let ghost s0 = i as int;
                if i >= n || !digit(chars[i]) {
                    let end = if i < n {
                        i + 1
                    } else {
                        n
                    };
                    proof {
                        assert(number_step(text@, i0) == (ScanStep::BadNumeral {
                            start: i0,
                            end: end as int,
                        }));
                        assert(scan_from(text@, i0) == (ScanOutcome::BadNumeral {
                            start: i0,
                            end: end as int,
                        }));
                    }
                    return Err(LexicalError::InvalidInteger {
                        start,
                        end,
                        detail: "exponent has no digits".to_owned(),
                    });
                }
                while i < n && digit(chars[i])
                    invariant
                        start < i <= n,
                        digits_span_end(text@, s0) == digits_span_end(text@, i as int),
                    decreases n - i,
                {
                    i = i + 1;
                }
                proof {
                    assert(digits_span_end(text@, i as int) == i as int);
                }
            }
            let lexeme = text.substring_char(start, i);
            let kind = if is_real {
                TokenKind::UReal
            } else {
                TokenKind::UInt
            };
            let t = Token { kind, start, end: i, text: lexeme.to_owned() };
            let ghost st = SpecToken {
                kind,
                start: start as int,
                end: i as int,
                text: text@.subrange(start as int, i as int),
            };
            proof {
                assert(number_step(text@, i0) == (ScanStep::Emit { tok: st, next: i as int }));
                assert(scan_step(text@, i0) == (ScanStep::Emit { tok: st, next: i as int }));
                lemma_scan_cat_emit(sts0, st, text@, i0, i as int);
                sts = sts0.push(st);
            }
            toks.push(t);
        } else if c == '"' {
            let start = i;
            i = i + 1;
            let mut closed = false;
            while i < n && !closed
                invariant
                    start < i <= n,
                    closed ==> start + 2 <= i,
                    quote_close(text@, (start + 1) as int, '"') == (if closed {
                        Some(i as int)
                    } else {
                        quote_close(text@, i as int, '"')
                    }),
                decreases n - i,
            {
                if chars[i] == '\\' && i + 1 < n {
                    i = i + 2;
                } else if chars[i] == '"' {
                    i = i + 1;
                    closed = true;
                } else {
                    i = i + 1;
                }
            }
            if !closed {
                proof {
                    assert(quote_close(text@, i as int, '"') is None);
                    assert(scan_step(text@, i0) == (ScanStep::BadChar { location: i0 }));
                    assert(scan_from(text@, i0) == (ScanOutcome::BadChar { location: i0 }));
                }
                return Err(LexicalError::InvalidToken { location: start });
            }
            let inner = text.substring_char(start + 1, i - 1);
            let t = Token { kind: TokenKind::StringLit, start, end: i, text: inner.to_owned() };
            let ghost st = SpecToken {
                kind: TokenKind::StringLit,
                start: start as int,
                end: i as int,
                text: text@.subrange(start as int + 1, i as int - 1),
            };
            proof {
                assert(scan_step(text@, i0) == (ScanStep::Emit { tok: st, next: i as int }));
                lemma_scan_cat_emit(sts0, st, text@, i0, i as int);
                sts = sts0.push(st);
            }
            toks.push(t);
        } else if c == '\'' {
            // quoted identifier; treated as a plain identifier downstream
            let start = i;
            i = i + 1;
            let mut closed = false;
            while i < n && !closed
                invariant
                    start < i <= n,
                    closed ==> start + 2 <= i,
                    quote_close(text@, (start + 1) as int, '\'') == (if closed {
                        Some(i as int)
                    } else {
                        quote_close(text@, i as int, '\'')
                    }),
                decreases n - i,
            {
                if chars[i] == '\\' && i + 1 < n {
                    i = i + 2;
                } else if chars[i] == '\'' {
                    i = i + 1;
                    closed = true;
                } else {
                    i = i + 1;
                }
            }
            if !closed {
                proof {
                    assert(quote_close(text@, i as int, '\'') is None);
                    assert(scan_step(text@, i0) == (ScanStep::BadChar { location: i0 }));
                    assert(scan_from(text@, i0) == (ScanOutcome::BadChar { location: i0 }));
                }
                return Err(LexicalError::InvalidToken { location: start });
            }
            let inner = text.substring_char(start + 1, i - 1);
            let t = Token { kind: TokenKind::Ident, start, end: i, text: inner.to_owned() };
            let ghost st = SpecToken {
                kind: TokenKind::Ident,
                start: start as int,
                end: i as int,
                text: text@.subrange(start as int + 1, i as int - 1),
            };
            proof {
                assert(scan_step(text@, i0) == (ScanStep::Emit { tok: st, next: i as int }));
                lemma_scan_cat_emit(sts0, st, text@, i0, i as int);
                sts = sts0.push(st);
            }
            toks.push(t);
        } else {
            // operators and punctuation, longest match first
            let start = i;
            let two = if i + 1 < n {
                let d = chars[i + 1];
                if c == ':' && d == '=' {
                    Some(TokenKind::Assign)
                } else if c == '=' && d == '=' {
                    Some(TokenKind::EqEq)
                } else if c == '<' && d == '>' {
                    Some(TokenKind::Ne)
                } else if c == '<' && d == '=' {
                    Some(TokenKind::Le)
                } else if c == '>' && d == '=' {
                    Some(TokenKind::Ge)
                } else if c == '.' && d == '+' {
                    Some(TokenKind::DotPlus)
                } else if c == '.' && d == '-' {
                    Some(TokenKind::DotMinus)
                } else if c == '.' && d == '*' {
                    Some(TokenKind::DotStar)
                } else if c == '.' && d == '/' {
                    Some(TokenKind::DotSlash)
                } else if c == '.' && d == '^' {
                    Some(TokenKind::DotCaret)
                } else {
                    None
                }
            } else {
                None
            };
            proof {
                assert(two == (if i0 + 1 < text@.len() {
                    two_char_op(text@[i0], text@[i0 + 1])
                } else {
                    None::<TokenKind>
                }));
            }
            match two {
                Some(k) => {
                    i = i + 2;
                    let t = Token { kind: k, start, end: i, text: String::new() };
                    let ghost st = SpecToken {
                        kind: k,
                        start: start as int,
                        end: i as int,
                        text: Seq::empty(),
                    };
                    proof {
                        assert(scan_step(text@, i0) == (ScanStep::Emit { tok: st, next: i as int }));
                        lemma_scan_cat_emit(sts0, st, text@, i0, i as int);
                        sts = sts0.push(st);
                    }
                    toks.push(t);
                },
                None => {
                    let one = if c == '(' {
                        Some(TokenKind::LParen)
                    } else if c == ')' {
                        Some(TokenKind::RParen)
                    } else if c == '[' {
                        Some(TokenKind::LBracket)
                    } else if c == ']' {
                        Some(TokenKind::RBracket)
                    } else if c == '{' {
                        Some(TokenKind::LBrace)
                    } else if c == '}' {
                        Some(TokenKind::RBrace)
                    } else if c == ';' {
                        Some(TokenKind::Semicolon)
                    } else if c == ',' {
                        Some(TokenKind::Comma)
                    } else if c == ':' {
                        Some(TokenKind::Colon)
                    } else if c == '.' {
                        Some(TokenKind::Dot)
                    } else if c == '=' {
                        Some(TokenKind::Eq)
                    } else if c == '+' {
                        Some(TokenKind::Plus)
                    } else if c == '-' {
                        Some(TokenKind::Minus)
                    } else if c == '*' {
                        Some(TokenKind::Star)
                    } else if c == '/' {
                        Some(TokenKind::Slash)
                    } else if c == '^' {
                        Some(TokenKind::Caret)
                    } else if c == '<' {
                        Some(TokenKind::Lt)
                    } else if c == '>' {
                        Some(TokenKind::Gt)
                    } else {
                        None
                    };
                    proof {
                        assert(one == one_char_op(text@[i0]));
                    }
                    match one {
                        Some(k) => {
                            i = i + 1;
                            let t = Token { kind: k, start, end: i, text: String::new() };
                            let ghost st = SpecToken {
                                kind: k,
                                start: start as int,
                                end: i as int,
                                text: Seq::empty(),
                            };
                            proof {
                                assert(scan_step(text@, i0) == (ScanStep::Emit {
                                    tok: st,
                                    next: i as int,
                                }));
                                lemma_scan_cat_emit(sts0, st, text@, i0, i as int);
                                sts = sts0.push(st);
                            }
                            toks.push(t);
                        },
                        None => {
                            proof {
                                assert(scan_step(text@, i0) == (ScanStep::BadChar { location: i0 }));
                                assert(scan_from(text@, i0) == (ScanOutcome::BadChar {
                                    location: i0,
                                }));
                            }
                            return Err(LexicalError::InvalidToken { location: i });
                        },
                    }
                },
            }
        }
    }
    proof {
        assert(scan_from(text@, i as int) == (ScanOutcome::Toks { toks: Seq::empty() }));
        assert(sts + Seq::<SpecToken>::empty() =~= sts);
    }
    Ok(toks)
}

} // verus!
