use rumoca_parser::ast::{Equation, Expression};
use rumoca_parser::node::Node;
use rumoca_parser::parse;
use rumoca_parser::passes::{count_nodes, NodeCounter, PrintVisitor, SentinelVisitor};
use rumoca_parser::rewrite::rewrite_integer_literals;
use rumoca_parser::visitable::Visitable;
use rumoca_parser::visitable_mut::VisitableMut;
use rumoca_parser::walker::Walker;

const VER: &str = "0.1.0";
const REV: &str = "test-rev";

#[test]
fn counter_visits_every_node_of_a_minimal_class() {
    // stored definition + class definition + class kind tag = 3 nodes
    let def = parse("model M end M;", VER, REV).expect("parse failed");
    let mut v = NodeCounter::new();
    def.accept(&mut v);
    assert_eq!(v.entered, 3);
    assert_eq!(v.exited, 3);
}

#[test]
fn counter_matches_the_node_measure() {
    // stored definition, class, class kind, equation, ref expression,
    // component reference, ref part, integer expression = 8 nodes
    let def = parse("model M equation x = 1; end M;", VER, REV).expect("parse failed");
    let mut v = NodeCounter::new();
    def.accept(&mut v);
    assert_eq!(v.entered, 8);
    assert_eq!(v.exited, 8);
    assert_eq!(count_nodes(&def), 8);
}

#[test]
fn walker_entry_points_agree_with_accept() {
    let def = parse("model M equation x = 1; end M;", VER, REV).expect("parse failed");
    let mut a = NodeCounter::new();
    Walker::walk_stored_definition(&mut a, &def);
    let mut b = NodeCounter::new();
    def.accept(&mut b);
    assert_eq!(a.entered, b.entered);
    let mut c = NodeCounter::new();
    Walker::walk_class_definition(&mut c, &def.classes[0]);
    assert_eq!(c.entered, b.entered - 1);
}

#[test]
fn owned_nodes_dispatch_to_their_kind() {
    let def = parse("model M equation y = 1 + 2; end M;", VER, REV).expect("parse failed");
    let mut classes = def.classes;
    let c = classes.remove(0);
    let mut eqs = c.equations;
    let rhs = match eqs.remove(0) {
        Equation::Simple(eq) => eq.rhs,
        other => panic!("expected simple equation, got {:?}", other),
    };
    // binary node + operator tag + two integer operands = 4 nodes
    let node = Node::Expression(rhs);
    let mut v = NodeCounter::new();
    node.accept(&mut v);
    assert_eq!(v.entered, 4);
}

#[test]
fn print_visitor_renders_an_outline() {
    let def = parse("model M Real x; equation x = 1; end M;", VER, REV).expect("parse failed");
    let mut v = PrintVisitor::default();
    Walker::walk_stored_definition(&mut v, &def);
    let out = v.rendered();
    assert!(out.contains("stored definition"));
    assert!(out.contains("class M"));
    assert!(out.contains("component: x"));
    assert!(out.contains("equation"));
    assert!(out.contains("1"));
}

fn integer_values_of(e: &Expression, out: &mut Vec<String>) {
    match e {
        Expression::UnsignedInteger(u) => out.push(u.val.clone()),
        Expression::Binary(b) => {
            integer_values_of(&b.lhs, out);
            integer_values_of(&b.rhs, out);
        }
        Expression::Unary(u) => integer_values_of(&u.rhs, out),
        _ => {}
    }
}

#[test]
fn rewrite_pass_replaces_every_integer_literal_and_nothing_else() {
    let text = "model M equation x = 1 + 2 * 2.5; end M;";
    let mut def = parse(text, VER, REV).expect("parse failed");
    let before = count_nodes(&def);
    rewrite_integer_literals(&mut def, &"42".to_string());
    assert_eq!(count_nodes(&def), before);
    let c = &def.classes[0];
    match &c.equations[0] {
        Equation::Simple(eq) => {
            let mut ints = Vec::new();
            integer_values_of(&eq.rhs, &mut ints);
            assert_eq!(ints, vec!["42".to_string(), "42".to_string()]);
            // the real literal is untouched
            match &eq.rhs {
                Expression::Binary(add) => match &*add.rhs {
                    Expression::Binary(mul) => match &*mul.rhs {
                        Expression::UnsignedReal(r) => assert_eq!(r.val, "2.5"),
                        other => panic!("expected a real literal, got {:?}", other),
                    },
                    other => panic!("expected a multiplication, got {:?}", other),
                },
                other => panic!("expected an addition, got {:?}", other),
            }
        }
        other => panic!("expected a simple equation, got {:?}", other),
    }
}

#[test]
fn sentinel_visitor_rewrites_through_the_mutating_traversal() {
    let text = "model M equation x = 7; end M;";
    let mut def = parse(text, VER, REV).expect("parse failed");
    let mut v = SentinelVisitor::new("0".to_string());
    def.accept_mut(&mut v);
    match &def.classes[0].equations[0] {
        Equation::Simple(eq) => match &eq.rhs {
            Expression::UnsignedInteger(u) => assert_eq!(u.val, "0"),
            other => panic!("expected an integer literal, got {:?}", other),
        },
        other => panic!("expected a simple equation, got {:?}", other),
    }
}

#[test]
fn mutating_traversal_preserves_the_node_count() {
    let text = "model M Real x; equation x = 1 + 2; end M;";
    let mut def = parse(text, VER, REV).expect("parse failed");
    let before = count_nodes(&def);
    let mut v = SentinelVisitor::new("0".to_string());
    def.accept_mut(&mut v);
    assert_eq!(count_nodes(&def), before);
}
