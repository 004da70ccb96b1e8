use vstd::prelude::*;
use crate::ast::{ParserContext, StoredDefinition};
use crate::grammar::{
    is_empty_model_class, minimal_model_tokens, parse_stored_definition, stored_names_wf,
};
use crate::ids::{no_dups, stored_definition_ids};
use crate::lexer::{lex_error_wf, spec_tokens, tokenize, ScanOutcome, SpecToken, TokenKind};
use crate::parser::{ParseError, MAX_TOKENS};

verus! {

/// The lowercase hexadecimal MD5 digest of the UTF-8 encoding of the given
/// text; a pure function of the characters alone.
pub uninterp spec fn md5_hex(text: Seq<char>) -> Seq<char>;

/// Relies on md5::compute and the md5 crate's LowerHex rendering: the digest
/// of the text's bytes, written as two lowercase hex digits per digest byte,
/// 32 characters in all.
#[verifier::external_body]
fn fingerprint(text: &str) -> (r: String)
    ensures
        r@ == md5_hex(text@),
        r@.len() == 32,
{
    let digest = md5::compute(text.as_bytes());
    format!("{:x}", digest)
}

/// Five scanned tokens spell the minimal model class `model <name> end
/// <name> ;` with a matching end name.
pub open spec fn minimal_model_scan(toks: Seq<SpecToken>) -> bool {
    &&& toks.len() == 5
    &&& toks[0].kind == TokenKind::KwModel
    &&& toks[1].kind == TokenKind::Ident
    &&& toks[2].kind == TokenKind::KwEnd
    &&& toks[3].kind == TokenKind::Ident
    &&& toks[3].text == toks[1].text
    &&& toks[4].kind == TokenKind::Semicolon
}

/// A parse failure, described against the input text: the reported offsets
/// lie within the text (or point at its very end). That they bracket exactly
/// the offending token is stated at the token level by `parse_error_wf`.
pub open spec fn failure_wf(e: ParseError, text: Seq<char>) -> bool {
    match e {
        ParseError::User { error } => lex_error_wf(error, text),
        ParseError::ExtraToken { start, end, kind } => start < end <= text.len(),
        ParseError::UnrecognizedEof { location, expected } => location <= text.len(),
        ParseError::UnrecognizedToken { start, end, kind, expected } => start < end <= text.len(),
    }
}

/// Parses one source text into its stored definition and stamps the three
/// provenance fields: the content fingerprint (the MD5 of the exact text),
/// and the caller-supplied parser version and source-revision strings.
///
/// On success the tree is self-describing: equal fingerprints mean
/// byte-identical input; every node id in the tree is distinct, assigned
/// once in construction order; and class, component and nested-class names
/// are unique within their scopes. On failure the single first error is
/// returned; no partial tree ever is. The length bound is a machine limit
/// that keeps node-id arithmetic within `usize`.
pub fn parse(file_txt: &str, version: &str, revision: &str) -> (r: Result<
    StoredDefinition,
    ParseError,
>)
    requires
        file_txt@.len() <= MAX_TOKENS as int,
    ensures
        r matches Ok(def) ==> {
            &&& def.model_md5@ == md5_hex(file_txt@)
            &&& def.rumoca_parser_version@ == version@
            &&& def.rumoca_parser_git@ == revision@
            &&& no_dups(stored_definition_ids(def))
            &&& stored_names_wf(def)
        },
        r matches Err(e) ==> failure_wf(e, file_txt@),
        ({
            &&& spec_tokens(file_txt@) matches ScanOutcome::Toks { toks }
            &&& toks.len() == 0
        }) ==> ({
            &&& r matches Ok(d)
            &&& d.within is None
            &&& d.classes@.len() == 0
        }),
        ({
            &&& spec_tokens(file_txt@) matches ScanOutcome::Toks { toks }
            &&& minimal_model_scan(toks)
        }) ==> ({
            &&& r matches Ok(d)
            &&& d.within is None
            &&& d.classes@.len() == 1
            &&& is_empty_model_class(
                d.classes@[0],
                spec_tokens(file_txt@)->Toks_toks[1].text,
            )
        }),
{
    let toks = match tokenize(file_txt) {
        Ok(v) => v,
        Err(e) => {
            return Err(ParseError::User { error: e });
        },
    };
    proof {
        match spec_tokens(file_txt@) {
            ScanOutcome::Toks { toks: sts } => {
                if minimal_model_scan(sts) {
                    assert(toks@.len() == 5);
                    assert(toks@[0].kind == sts[0].kind && toks@[1].kind == sts[1].kind
                        && toks@[2].kind == sts[2].kind && toks@[3].kind == sts[3].kind
                        && toks@[4].kind == sts[4].kind);
                    assert(toks@[1].text@ == sts[1].text && toks@[3].text@ == sts[3].text);
                    assert(minimal_model_tokens(toks@, 0));
                }
            },
            _ => {},
        }
    }
    let mut pos: usize = 0;
    let mut ctx = ParserContext::default();
    let def = match parse_stored_definition(&toks, &mut pos, &mut ctx) {
        Ok(d) => d,
        Err(e) => {
            proof {
                let ge = e;
                match ge {
                    ParseError::UnrecognizedToken { start, end, kind, expected } => {
                        let k = choose|k: int|
                            0 <= k < toks@.len() && (#[trigger] toks@[k]).start == start
                                && toks@[k].end == end && toks@[k].kind == kind;
                        assert(start < end <= file_txt@.len());
                    },
                    ParseError::ExtraToken { start, end, kind } => {
                        let k = choose|k: int|
                            0 <= k < toks@.len() && (#[trigger] toks@[k]).start == start
                                && toks@[k].end == end && toks@[k].kind == kind;
                        assert(start < end <= file_txt@.len());
                    },
                    ParseError::UnrecognizedEof { location, expected } => {
                        if toks@.len() > 0 {
                            assert(toks@[toks@.len() - 1].end <= file_txt@.len());
                        }
                    },
                    ParseError::User { error } => {},
                }
            }
            return Err(e);
        },
    };
    let mut def = def;
    stamp_provenance(&mut def, fingerprint(file_txt), version, revision);
    Ok(def)
}

/// Stamps the three provenance fields onto a freshly parsed tree and touches
/// nothing else: the within clause, the classes and the root node data all
/// stay exactly as the grammar parser built them.
pub fn stamp_provenance(def: &mut StoredDefinition, md5: String, version: &str, revision: &str)
    ensures
        final(def).model_md5 == md5,
        final(def).rumoca_parser_version@ == version@,
        final(def).rumoca_parser_git@ == revision@,
        final(def).node_data == old(def).node_data,
        final(def).within == old(def).within,
        final(def).classes == old(def).classes,
{
    def.model_md5 = md5;
    def.rumoca_parser_version = version.to_owned();
    def.rumoca_parser_git = revision.to_owned();
}

} // verus!
