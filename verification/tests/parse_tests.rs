use rumoca_parser::ast::{BinaryOp, ClassType, Equation, Expression, Subscript, UnaryOp, Variability};
use rumoca_parser::lexer::LexicalError;
use rumoca_parser::parse;
use rumoca_parser::parser::ParseError;

const VER: &str = "0.1.0";
const REV: &str = "test-rev";

#[test]
fn minimal_class_round_trip() {
    let def = parse("model M end M;", VER, REV).expect("parse failed");
    assert_eq!(def.classes.len(), 1);
    let c = &def.classes[0];
    assert_eq!(c.name, "M");
    assert_eq!(c.class_type, ClassType::Model);
    assert!(c.equations.is_empty());
    assert!(c.initial_equations.is_empty());
    assert!(c.algorithms.is_empty());
    assert!(c.initial_algorithms.is_empty());
    assert!(c.components.is_empty());
    assert!(c.classes.is_empty());
}

#[test]
fn fingerprint_is_md5_of_text() {
    let text = "model M end M;";
    let def = parse(text, VER, REV).expect("parse failed");
    assert_eq!(def.model_md5, "36b369261e361b6532b2aef1ff31d3de");
    // cross-check against the hash of the exact input text
    assert_eq!(def.model_md5, format!("{:x}", md5::compute(text.as_bytes())));
    assert_eq!(def.rumoca_parser_version, VER);
    assert_eq!(def.rumoca_parser_git, REV);
}

#[test]
fn fingerprint_differs_for_different_text() {
    let a = parse("model M end M;", VER, REV).expect("parse failed");
    let b = parse("model N end N;", VER, REV).expect("parse failed");
    assert_ne!(a.model_md5, b.model_md5);
}

#[test]
fn empty_input_is_a_valid_stored_definition() {
    let def = parse("", VER, REV).expect("parse failed");
    assert!(def.classes.is_empty());
    assert_eq!(def.model_md5, "d41d8cd98f00b204e9800998ecf8427e");
}

#[test]
fn parsing_twice_is_deterministic() {
    let text = "model M Real x; equation x = 1 + 2 * x; end M;";
    let a = parse(text, VER, REV).expect("parse failed");
    let b = parse(text, VER, REV).expect("parse failed");
    assert_eq!(a, b);
}

#[test]
fn node_ids_increase_with_construction_order() {
    let text = "model M equation x = 1 + 2; end M;";
    let def = parse(text, VER, REV).expect("parse failed");
    let c = &def.classes[0];
    // children are built before their parents, so ids grow inward-out
    match &c.equations[0] {
        Equation::Simple(eq) => {
            match &eq.rhs {
                Expression::Binary(b) => {
                    let lhs_id = match &*b.lhs {
                        Expression::UnsignedInteger(u) => u.node_data.id,
                        other => panic!("expected integer, got {:?}", other),
                    };
                    let rhs_id = match &*b.rhs {
                        Expression::UnsignedInteger(u) => u.node_data.id,
                        other => panic!("expected integer, got {:?}", other),
                    };
                    assert!(lhs_id < rhs_id);
                    assert!(rhs_id < b.node_data.id);
                    assert!(b.node_data.id < eq.node_data.id);
                }
                other => panic!("expected binary, got {:?}", other),
            }
            assert!(eq.node_data.id < c.node_data.id);
        }
        other => panic!("expected simple equation, got {:?}", other),
    }
    assert!(c.node_data.id < def.node_data.id);
}

fn rhs_of_first_equation(text: &str) -> Expression {
    let def = parse(text, VER, REV).expect("parse failed");
    let mut classes = def.classes;
    let c = classes.remove(0);
    let mut eqs = c.equations;
    match eqs.remove(0) {
        Equation::Simple(eq) => eq.rhs,
        other => panic!("expected simple equation, got {:?}", other),
    }
}

#[test]
fn addition_binds_looser_than_multiplication() {
    let rhs = rhs_of_first_equation("model M equation y = 2+3*4; end M;");
    match rhs {
        Expression::Binary(add) => {
            assert_eq!(add.op, BinaryOp::Add);
            match *add.lhs {
                Expression::UnsignedInteger(ref u) => assert_eq!(u.val, "2"),
                ref other => panic!("expected 2, got {:?}", other),
            }
            match *add.rhs {
                Expression::Binary(ref mul) => {
                    assert_eq!(mul.op, BinaryOp::Mul);
                    match *mul.lhs {
                        Expression::UnsignedInteger(ref u) => assert_eq!(u.val, "3"),
                        ref other => panic!("expected 3, got {:?}", other),
                    }
                    match *mul.rhs {
                        Expression::UnsignedInteger(ref u) => assert_eq!(u.val, "4"),
                        ref other => panic!("expected 4, got {:?}", other),
                    }
                }
                ref other => panic!("expected multiplication, got {:?}", other),
            }
        }
        other => panic!("expected addition, got {:?}", other),
    }
}

#[test]
fn exponentiation_groups_to_the_right() {
    let rhs = rhs_of_first_equation("model M equation y = 2^3^2; end M;");
    match rhs {
        Expression::Binary(outer) => {
            assert_eq!(outer.op, BinaryOp::Exp);
            match *outer.lhs {
                Expression::UnsignedInteger(ref u) => assert_eq!(u.val, "2"),
                ref other => panic!("expected 2, got {:?}", other),
            }
            match *outer.rhs {
                Expression::Binary(ref inner) => {
                    assert_eq!(inner.op, BinaryOp::Exp);
                    match *inner.lhs {
                        Expression::UnsignedInteger(ref u) => assert_eq!(u.val, "3"),
                        ref other => panic!("expected 3, got {:?}", other),
                    }
                }
                ref other => panic!("expected nested power, got {:?}", other),
            }
        }
        other => panic!("expected power, got {:?}", other),
    }
}

#[test]
fn exponentiation_binds_tighter_than_unary_sign() {
    let rhs = rhs_of_first_equation("model M equation y = -2^3; end M;");
    match rhs {
        Expression::Unary(neg) => {
            assert_eq!(neg.op, UnaryOp::Negative);
            match *neg.rhs {
                Expression::Binary(ref pow) => assert_eq!(pow.op, BinaryOp::Exp),
                ref other => panic!("expected power under the sign, got {:?}", other),
            }
        }
        other => panic!("expected unary minus, got {:?}", other),
    }
}

#[test]
fn parenthesized_grouping_overrides_precedence() {
    let rhs = rhs_of_first_equation("model M equation y = (2+3)*4; end M;");
    match rhs {
        Expression::Binary(mul) => {
            assert_eq!(mul.op, BinaryOp::Mul);
            match *mul.lhs {
                Expression::Unary(ref paren) => assert_eq!(paren.op, UnaryOp::Paren),
                ref other => panic!("expected parenthesized operand, got {:?}", other),
            }
        }
        other => panic!("expected multiplication, got {:?}", other),
    }
}

#[test]
fn relational_operators_do_not_chain() {
    let r = parse("model M equation y = 1 < 2 < 3; end M;", VER, REV);
    assert!(r.is_err());
}

#[test]
fn element_wise_operators_are_distinct() {
    let rhs = rhs_of_first_equation("model M equation y = a .+ b .* c; end M;");
    match rhs {
        Expression::Binary(add) => {
            assert_eq!(add.op, BinaryOp::ElemAdd);
            match *add.rhs {
                Expression::Binary(ref mul) => assert_eq!(mul.op, BinaryOp::ElemMul),
                ref other => panic!("expected element-wise multiplication, got {:?}", other),
            }
        }
        other => panic!("expected element-wise addition, got {:?}", other),
    }
}

#[test]
fn logical_precedence_and_binds_tighter_than_or() {
    let rhs = rhs_of_first_equation("model M equation y = a or b and c; end M;");
    match rhs {
        Expression::Binary(or) => {
            assert_eq!(or.op, BinaryOp::Or);
            match *or.rhs {
                Expression::Binary(ref and) => assert_eq!(and.op, BinaryOp::And),
                ref other => panic!("expected conjunction, got {:?}", other),
            }
        }
        other => panic!("expected disjunction, got {:?}", other),
    }
}

#[test]
fn mismatched_end_name_is_rejected_with_its_span() {
    // the offending token is "N" at offsets 12..13
    let r = parse("model M end N;", VER, REV);
    match r {
        Err(ParseError::UnrecognizedToken { start, end, .. }) => {
            assert_eq!((start, end), (12, 13));
        }
        other => panic!("expected an unrecognized-token error, got {:?}", other),
    }
}

#[test]
fn error_span_brackets_the_offending_token() {
    // "model M equation = 1; end M;": the "=" at 17..18 starts no expression
    let r = parse("model M equation = 1; end M;", VER, REV);
    match r {
        Err(ParseError::UnrecognizedToken { start, end, expected, .. }) => {
            assert_eq!((start, end), (17, 18));
            assert!(!expected.is_empty());
        }
        other => panic!("expected an unrecognized-token error, got {:?}", other),
    }
}

#[test]
fn unexpected_end_of_input_reports_expected_kinds() {
    let r = parse("model M", VER, REV);
    match r {
        Err(ParseError::UnrecognizedEof { location, expected }) => {
            assert_eq!(location, 7);
            assert!(!expected.is_empty());
        }
        other => panic!("expected an end-of-input error, got {:?}", other),
    }
}

#[test]
fn extra_token_after_complete_definition() {
    let r = parse("model M end M; )", VER, REV);
    match r {
        Err(ParseError::ExtraToken { start, end, .. }) => {
            assert_eq!((start, end), (15, 16));
        }
        other => panic!("expected an extra-token error, got {:?}", other),
    }
}

#[test]
fn malformed_exponent_is_a_lexical_error() {
    let r = parse("model M equation x = 1e; end M;", VER, REV);
    match r {
        Err(ParseError::User { error: LexicalError::InvalidInteger { start, end, .. } }) => {
            assert_eq!(start, 21);
            assert!(end > start);
        }
        other => panic!("expected an invalid-integer error, got {:?}", other),
    }
}

#[test]
fn unrecognized_character_is_a_lexical_error() {
    let r = parse("model M ? end M;", VER, REV);
    match r {
        Err(ParseError::User { error: LexicalError::InvalidToken { location } }) => {
            assert_eq!(location, 8);
        }
        other => panic!("expected an invalid-token error, got {:?}", other),
    }
}

#[test]
fn within_clause_and_comments() {
    let text = "// a line comment\nwithin pkg.sub;\n/* a block\n comment */\nmodel M end M;";
    let def = parse(text, VER, REV).expect("parse failed");
    let w = def.within.expect("expected a within clause");
    assert_eq!(w.parts, vec!["pkg".to_string(), "sub".to_string()]);
    assert_eq!(def.classes[0].name, "M");
}

#[test]
fn component_declarations_carry_their_prefixes() {
    let text = "model M parameter Real x = 1; flow Real y; input Real u; end M;";
    let def = parse(text, VER, REV).expect("parse failed");
    let c = &def.classes[0];
    assert_eq!(c.components.len(), 3);
    assert_eq!(c.components[0].name, "x");
    assert_eq!(c.components[0].variability, Variability::Parameter);
    assert_eq!(c.components[0].type_specifier.name.parts, vec!["Real".to_string()]);
    assert_eq!(c.components[1].name, "y");
    assert_eq!(c.components[2].name, "u");
    assert!(c.components[0].modification.is_some());
}

#[test]
fn multiple_declarators_share_one_clause() {
    let def = parse("model M Real x, y, z; end M;", VER, REV).expect("parse failed");
    let c = &def.classes[0];
    assert_eq!(c.components.len(), 3);
    assert_eq!(c.components[1].name, "y");
}

#[test]
fn sections_are_gathered_in_source_order() {
    let text = "model M \
                Real x; \
                equation x = 1; \
                algorithm x := 2; \
                initial equation x = 3; \
                initial algorithm x := 4; \
                equation x = 5; \
                end M;";
    let def = parse(text, VER, REV).expect("parse failed");
    let c = &def.classes[0];
    assert_eq!(c.equations.len(), 2);
    assert_eq!(c.algorithms.len(), 1);
    assert_eq!(c.algorithms[0].len(), 1);
    assert_eq!(c.initial_equations.len(), 1);
    assert_eq!(c.initial_algorithms.len(), 1);
}

#[test]
fn connect_for_if_and_while_forms() {
    let text = "model M \
                equation \
                  connect(a.b, c); \
                  for i in 1:3 loop x = i; end for; \
                  if x > 1 then x = 1; elseif x < 0 then x = 0; else x = 2; end if; \
                algorithm \
                  while x < 10 loop x := x + 1; end while; \
                  if x > 1 then break; else return; end if; \
                end M;";
    let def = parse(text, VER, REV).expect("parse failed");
    let c = &def.classes[0];
    assert_eq!(c.equations.len(), 3);
    assert!(matches!(c.equations[0], Equation::Connect(_)));
    assert!(matches!(c.equations[1], Equation::For(_)));
    assert!(matches!(c.equations[2], Equation::If(_)));
    assert_eq!(c.algorithms[0].len(), 2);
}

#[test]
fn nested_classes_imports_and_extends() {
    let text = "package P \
                  import SI = Modelica.Units; \
                  extends Base.Icon; \
                  model M Real x; end M; \
                end P;";
    let def = parse(text, VER, REV).expect("parse failed");
    let p = &def.classes[0];
    assert_eq!(p.class_type, ClassType::Package);
    assert_eq!(p.imports.len(), 1);
    assert_eq!(p.imports[0].alias, "SI");
    assert_eq!(p.imports[0].name.parts, vec!["Modelica".to_string(), "Units".to_string()]);
    assert_eq!(p.extends.len(), 1);
    assert_eq!(p.extends[0].name.parts, vec!["Base".to_string(), "Icon".to_string()]);
    assert_eq!(p.classes.len(), 1);
    assert_eq!(p.classes[0].name, "M");
}

#[test]
fn quoted_identifiers_act_as_plain_identifiers() {
    let def = parse("model 'my model' Real 'x y'; end 'my model';", VER, REV)
        .expect("parse failed");
    let c = &def.classes[0];
    assert_eq!(c.name, "my model");
    assert_eq!(c.components[0].name, "x y");
}

#[test]
fn descriptions_and_annotations_attach_to_components() {
    let text = "model M Real x \"the state\" annotation(each final fixed = true); end M;";
    let def = parse(text, VER, REV).expect("parse failed");
    let c = &def.classes[0];
    let d = c.components[0].description.as_ref().expect("expected a description");
    assert_eq!(d.strings, vec!["the state".to_string()]);
    assert_eq!(d.annotation.len(), 1);
}

#[test]
fn class_description_strings_concatenate() {
    let def = parse("model M \"part one\" + \" and two\" end M;", VER, REV)
        .expect("parse failed");
    assert_eq!(
        def.classes[0].description.parts,
        vec!["part one".to_string(), " and two".to_string()]
    );
}

#[test]
fn function_calls_arrays_and_subscripts() {
    let text = "model M equation y[1] = der(x) + {1, 2, 3}; end M;";
    let def = parse(text, VER, REV).expect("parse failed");
    assert_eq!(def.classes[0].equations.len(), 1);
}

#[test]
fn assignment_uses_colon_equal_not_equal() {
    assert!(parse("model M algorithm x := 1; end M;", VER, REV).is_ok());
    assert!(parse("model M algorithm x = 1; end M;", VER, REV).is_err());
}

#[test]
fn class_kinds_are_distinguished() {
    let text = "record R end R; connector C end C; block B end B; \
                type T end T; function F end F; operator record OR end OR; \
                expandable connector EC end EC;";
    let def = parse(text, VER, REV).expect("parse failed");
    let kinds: Vec<ClassType> = def.classes.iter().map(|c| c.class_type).collect();
    assert_eq!(
        kinds,
        vec![
            ClassType::Record,
            ClassType::Connector,
            ClassType::Block,
            ClassType::Type,
            ClassType::Function,
            ClassType::OperatorRecord,
            ClassType::ExpandableConnector,
        ]
    );
}

#[test]
fn class_flags_are_recorded() {
    let def = parse("encapsulated partial model M end M;", VER, REV).expect("parse failed");
    let c = &def.classes[0];
    assert!(c.flags.encapsulated);
    assert!(c.flags.partial);
    assert!(!c.flags.is_final);
}

#[test]
fn real_literals_keep_their_lexeme() {
    let rhs = rhs_of_first_equation("model M equation y = 1.5e-3; end M;");
    match rhs {
        Expression::UnsignedReal(u) => assert_eq!(u.val, "1.5e-3"),
        other => panic!("expected a real literal, got {:?}", other),
    }
}

#[test]
fn spans_cover_the_matched_source_region() {
    let text = "model M end M;";
    let def = parse(text, VER, REV).expect("parse failed");
    let c = &def.classes[0];
    assert_eq!(c.node_data.span, (0, 13));
    assert!(def.node_data.span.1 <= text.len());
}

#[test]
fn if_expressions_require_their_else_branch() {
    let rhs = rhs_of_first_equation("model M equation y = if a then 1 elseif b then 2 else 3; end M;");
    match rhs {
        Expression::If(ifx) => {
            assert_eq!(ifx.if_blocks.len(), 2);
            assert!(ifx.else_expr.is_some());
        }
        other => panic!("expected an if-expression, got {:?}", other),
    }
    assert!(parse("model M equation y = if a then 1; end M;", VER, REV).is_err());
}

#[test]
fn modifications_nest_and_carry_values() {
    let text = "model M Real x(start = 1, fixed = true) = 5; end M;";
    let def = parse(text, VER, REV).expect("parse failed");
    let c = &def.classes[0];
    match c.components[0].modification.as_ref().expect("expected a modification") {
        rumoca_parser::ast::Modification::Class(mc) => {
            assert_eq!(mc.args.len(), 2);
            assert!(mc.expr.is_some());
        }
        other => panic!("expected a class modification, got {:?}", other),
    }
}

#[test]
fn subscripts_take_ranges_and_expressions() {
    let text = "model M equation y = x[:, i + 1]; end M;";
    let rhs = rhs_of_first_equation(text);
    match rhs {
        Expression::Ref(cr) => {
            let subs = &cr.parts[0].array_subscripts;
            assert_eq!(subs.len(), 2);
            assert!(matches!(subs[0], Subscript::Range(_)));
            assert!(matches!(subs[1], Subscript::Expression(_)));
        }
        other => panic!("expected a component reference, got {:?}", other),
    }
}

#[test]
fn for_equations_take_several_indices() {
    let text = "model M equation for i in 1:3, j loop x = i; end for; end M;";
    let def = parse(text, VER, REV).expect("parse failed");
    match &def.classes[0].equations[0] {
        Equation::For(f) => {
            assert_eq!(f.indices.len(), 2);
            assert_eq!(f.indices[0].ident, "i");
            assert!(f.indices[0].in_expr.is_some());
            assert!(f.indices[1].in_expr.is_none());
        }
        other => panic!("expected a for-equation, got {:?}", other),
    }
}

#[test]
fn range_expressions_use_the_colon() {
    let rhs = rhs_of_first_equation("model M equation y = 1:2:10; end M;");
    match rhs {
        Expression::Binary(outer) => assert_eq!(outer.op, BinaryOp::Range),
        other => panic!("expected a range, got {:?}", other),
    }
}

#[test]
fn string_literals_keep_escapes_as_written() {
    let def = parse("model M \"say \\\"hi\\\"\" end M;", VER, REV).expect("parse failed");
    assert_eq!(def.classes[0].description.parts[0], "say \\\"hi\\\"");
}

#[test]
fn not_binds_between_comparison_and_conjunction() {
    let rhs = rhs_of_first_equation("model M equation y = not a > b and c; end M;");
    match rhs {
        Expression::Binary(and) => {
            assert_eq!(and.op, BinaryOp::And);
            match *and.lhs {
                Expression::Unary(ref not) => {
                    assert_eq!(not.op, UnaryOp::Not);
                    match *not.rhs {
                        Expression::Binary(ref gt) => assert_eq!(gt.op, BinaryOp::GreaterThan),
                        ref other => panic!("expected a comparison, got {:?}", other),
                    }
                }
                ref other => panic!("expected a negation, got {:?}", other),
            }
        }
        other => panic!("expected a conjunction, got {:?}", other),
    }
}

#[test]
fn duplicate_class_names_are_rejected() {
    // the second "M" (its head starts at offset 15) repeats a class name
    let r = parse("model M end M; model M end M;", VER, REV);
    match r {
        Err(ParseError::UnrecognizedToken { start, .. }) => assert_eq!(start, 21),
        other => panic!("expected a duplicate-name error, got {:?}", other),
    }
}

#[test]
fn duplicate_component_names_are_rejected() {
    assert!(parse("model M Real x; Real x; end M;", VER, REV).is_err());
    assert!(parse("model M Real x, x; end M;", VER, REV).is_err());
    assert!(parse("model M Real x; Integer y; end M;", VER, REV).is_ok());
}

#[test]
fn duplicate_nested_class_names_are_rejected() {
    assert!(parse("package P model M end M; model M end M; end P;", VER, REV).is_err());
}
