use vstd::prelude::*;
use vstd::string::StringExecFns;
use crate::ast::{
    BinaryOp, ClassDefinition, ComponentDeclaration, ComponentReference, Equation, Expression,
    StoredDefinition, UnaryOp,
};
use crate::node::{NodeKind, NodeRef};
use crate::trace::VisitEvent;
use crate::size::stored_definition_count;
use crate::visitable::Visitable;
use crate::visitor::Visitor;
use crate::visitor_mut::VisitorMut;

verus! {

/// A read-only visitor that counts how many nodes a traversal enters and
/// exits: its counter goes up by one in the global enter hook, once per
/// visited node.
pub struct NodeCounter {
    pub entered: usize,
    pub exited: usize,
    pub events: Ghost<Seq<VisitEvent>>,
}

impl NodeCounter {
    pub fn new() -> (r: NodeCounter)
        ensures
            r.wf(),
            r.entered == 0,
            r.exited == 0,
            r.events@ == Seq::<VisitEvent>::empty(),
    {
        NodeCounter { entered: 0, exited: 0, events: Ghost(Seq::empty()) }
    }
}

impl Visitor for NodeCounter {
    open spec fn wf(&self) -> bool {
        self.exited <= self.entered
    }

    open spec fn enters(&self) -> nat {
        self.entered as nat
    }

    open spec fn exits(&self) -> nat {
        self.exited as nat
    }

    open spec fn trace(&self) -> Seq<VisitEvent> {
        self.events@
    }

    fn enter_any<'a>(&mut self, node: NodeRef<'a>) {
        self.entered = self.entered + 1;
        proof {
            self.events@ = self.events@.push(VisitEvent::Enter(node.spec_kind()));
        }
    }

    fn exit_any<'a>(&mut self, node: NodeRef<'a>) {
        self.exited = self.exited + 1;
        proof {
            self.events@ = self.events@.push(VisitEvent::Exit(node.spec_kind()));
        }
    }
}

/// Counts every node of the tree, leaves included, by running a counting
/// visitor over it: the counter reports exactly the tree's node measure,
/// because the traversal enters every node exactly once.
pub fn count_nodes(def: &StoredDefinition) -> (n: usize)
    requires
        stored_definition_count(*def) <= usize::MAX as nat,
    ensures
        n as nat == stored_definition_count(*def),
{
    let mut v = NodeCounter::new();
    def.accept(&mut v);
    v.entered
}

/// `k` copies of `s`, one after another.
pub open spec fn repeat_seq(s: Seq<char>, k: nat) -> Seq<char>
    decreases k,
{
    if k == 0 {
        Seq::empty()
    } else {
        repeat_seq(s, (k - 1) as nat) + s
    }
}

/// A read-only visitor that renders an indented outline of the tree into an
/// internal buffer, one line per interesting node.
pub struct PrintVisitor {
    pub level: usize,
    pub indent: String,
    pub output: String,
    pub entered: Ghost<nat>,
    pub exited: Ghost<nat>,
    pub events: Ghost<Seq<VisitEvent>>,
}

impl PrintVisitor {
    /// The rendered outline so far.
    pub fn rendered(&self) -> (r: String)
        ensures
            r@ == self.output@,
    {
        self.output.clone()
    }

    /// Appends one line to the buffer: the indentation piece repeated once
    /// per nesting level, then the text, then a newline. Nothing else
    /// changes.
    pub fn print(&mut self, s: &str)
        ensures
            final(self).level == old(self).level,
            final(self).indent == old(self).indent,
            final(self).entered == old(self).entered,
            final(self).exited == old(self).exited,
            final(self).events == old(self).events,
            final(self).output@ == old(self).output@ + repeat_seq(
                old(self).indent@,
                old(self).level as nat,
            ) + s@ + "\n"@,
    {
        let mut i: usize = 0;
        while i < self.level
            invariant
                i <= self.level,
                self.level == old(self).level,
                self.indent == old(self).indent,
                self.entered == old(self).entered,
                self.exited == old(self).exited,
                self.events == old(self).events,
                self.output@ == old(self).output@ + repeat_seq(self.indent@, i as nat),
            decreases self.level - i,
        {
            let piece = self.indent.clone();
            self.output.append(piece.as_str());
            i = i + 1;
        }
        self.output.append(s);
        self.output.append("\n");
    }
}

impl Default for PrintVisitor {
    /// A fresh printer with two-space indentation and an empty buffer.
    fn default() -> (r: Self)
        ensures
            r.wf(),
            r.output@.len() == 0,
    {
        PrintVisitor {
            level: 0,
            indent: String::from_str("  "),
            output: String::new(),
            entered: Ghost(0),
            exited: Ghost(0),
            events: Ghost(Seq::empty()),
        }
    }
}

impl Visitor for PrintVisitor {
    open spec fn wf(&self) -> bool {
        &&& self.exited@ <= self.entered@
        &&& self.level as nat == self.entered@ - self.exited@
    }

    open spec fn enters(&self) -> nat {
        self.entered@
    }

    open spec fn exits(&self) -> nat {
        self.exited@
    }

    open spec fn trace(&self) -> Seq<VisitEvent> {
        self.events@
    }

    fn enter_any<'a>(&mut self, node: NodeRef<'a>) {
        self.level = self.level + 1;
        proof {
            self.entered@ = self.entered@ + 1;
            self.events@ = self.events@.push(VisitEvent::Enter(node.spec_kind()));
        }
    }

    fn exit_any<'a>(&mut self, node: NodeRef<'a>) {
        self.level = self.level - 1;
        proof {
            self.exited@ = self.exited@ + 1;
            self.events@ = self.events@.push(VisitEvent::Exit(node.spec_kind()));
        }
    }

    fn enter_stored_definition(&mut self, node: &StoredDefinition) {
        self.print("stored definition");
    }

    fn enter_class_definition(&mut self, node: &ClassDefinition) {
        let mut line = String::from_str("class ");
        line.append(node.name.as_str());
        self.print(line.as_str());
    }

    fn enter_component_declaration(&mut self, node: &ComponentDeclaration) {
        let mut line = String::from_str("component: ");
        line.append(node.name.as_str());
        self.print(line.as_str());
    }

    fn enter_equation(&mut self, node: &Equation) {
        match node {
            Equation::Empty => {},
            Equation::Connect(_) => {
                self.print("connect");
            },
            Equation::For(_) => {
                self.print("for");
            },
            Equation::If(_) => {
                self.print("if");
            },
            Equation::Simple(_) => {
                self.print("equation");
            },
        }
    }

    fn enter_expression(&mut self, node: &Expression) {
        match node {
            Expression::Empty => {},
            Expression::Array(_) => {
                self.print("array");
            },
            Expression::Binary(p) => {
                let s = binary_op_name(&p.op);
                self.print(s);
            },
            Expression::Boolean(p) => {
                if p.val {
                    self.print("true");
                } else {
                    self.print("false");
                }
            },
            Expression::FunctionCall(_) => {
                self.print("function call");
            },
            Expression::If(_) => {
                self.print("if");
            },
            Expression::Ref(_) => {
                self.print("ref");
            },
            Expression::Unary(p) => {
                let s = unary_op_name(&p.op);
                self.print(s);
            },
            Expression::UnsignedInteger(p) => {
                let line = p.val.clone();
                self.print(line.as_str());
            },
            Expression::UnsignedReal(p) => {
                let line = p.val.clone();
                self.print(line.as_str());
            },
        }
    }

    fn exit_component_reference(&mut self, node: &ComponentReference) {
        let mut line = String::new();
        let n = node.parts.len();
        for i in 0..n
            invariant
                n == node.parts@.len(),
                self.level == old(self).level,
                self.indent == old(self).indent,
                self.entered == old(self).entered,
                self.exited == old(self).exited,
                self.events == old(self).events,
            decreases n - i,
        {
            if i != 0 || node.local {
                line.append(".");
            }
            line.append(node.parts[i].name.as_str());
        }
        self.print(line.as_str());
    }
}

/// The display name of each binary operator.
pub open spec fn spec_binary_op_name(op: BinaryOp) -> Seq<char> {
    match op {
        BinaryOp::Empty => "empty"@,
        BinaryOp::Add => "add"@,
        BinaryOp::And => "and"@,
        BinaryOp::Div => "div"@,
        BinaryOp::ElemAdd => "elem add"@,
        BinaryOp::ElemDiv => "elem div"@,
        BinaryOp::ElemExp => "elem exp"@,
        BinaryOp::ElemMul => "elem mul"@,
        BinaryOp::ElemSub => "elem sub"@,
        BinaryOp::Equal => "equal"@,
        BinaryOp::Exp => "exp"@,
        BinaryOp::GreaterThan => "greater than"@,
        BinaryOp::GreaterThanOrEqual => "greater than or equal"@,
        BinaryOp::LessThan => "less than"@,
        BinaryOp::LessThanOrEqual => "less than or equal"@,
        BinaryOp::Mul => "mul"@,
        BinaryOp::Not => "not"@,
        BinaryOp::NotEqual => "not equal"@,
        BinaryOp::Or => "or"@,
        BinaryOp::Paren => "paren"@,
        BinaryOp::Range => "range"@,
        BinaryOp::Sub => "sub"@,
    }
}

/// The display name of a binary operator.
pub fn binary_op_name(op: &BinaryOp) -> (r: &'static str)
    ensures
        r@ == spec_binary_op_name(*op),
{
    match op {
        BinaryOp::Empty => "empty",
        BinaryOp::Add => "add",
        BinaryOp::And => "and",
        BinaryOp::Div => "div",
        BinaryOp::ElemAdd => "elem add",
        BinaryOp::ElemDiv => "elem div",
        BinaryOp::ElemExp => "elem exp",
        BinaryOp::ElemMul => "elem mul",
        BinaryOp::ElemSub => "elem sub",
        BinaryOp::Equal => "equal",
        BinaryOp::Exp => "exp",
        BinaryOp::GreaterThan => "greater than",
        BinaryOp::GreaterThanOrEqual => "greater than or equal",
        BinaryOp::LessThan => "less than",
        BinaryOp::LessThanOrEqual => "less than or equal",
        BinaryOp::Mul => "mul",
        BinaryOp::Not => "not",
        BinaryOp::NotEqual => "not equal",
        BinaryOp::Or => "or",
        BinaryOp::Paren => "paren",
        BinaryOp::Range => "range",
        BinaryOp::Sub => "sub",
    }
}

/// The display name of each unary operator.
pub open spec fn spec_unary_op_name(op: UnaryOp) -> Seq<char> {
    match op {
        UnaryOp::Empty => "empty"@,
        UnaryOp::ElemNegative => "elem negative"@,
        UnaryOp::ElemPositive => "elem positive"@,
        UnaryOp::Negative => "negative"@,
        UnaryOp::Not => "not"@,
        UnaryOp::Paren => "paren"@,
        UnaryOp::Positive => "positive"@,
    }
}

/// The display name of a unary operator.
pub fn unary_op_name(op: &UnaryOp) -> (r: &'static str)
    ensures
        r@ == spec_unary_op_name(*op),
{
    match op {
        UnaryOp::Empty => "empty",
        UnaryOp::ElemNegative => "elem negative",
        UnaryOp::ElemPositive => "elem positive",
        UnaryOp::Negative => "negative",
        UnaryOp::Not => "not",
        UnaryOp::Paren => "paren",
        UnaryOp::Positive => "positive",
    }
}

/// A mutating visitor that rewrites the lexeme of every integer literal it
/// enters to one fixed sentinel, touching nothing else.
pub struct SentinelVisitor {
    pub sentinel: String,
    pub entered: Ghost<nat>,
    pub exited: Ghost<nat>,
}

impl SentinelVisitor {
    pub fn new(sentinel: String) -> (r: SentinelVisitor)
        ensures
            r.wf(),
            r.sentinel@ == sentinel@,
    {
        SentinelVisitor { sentinel, entered: Ghost(0), exited: Ghost(0) }
    }
}

impl VisitorMut for SentinelVisitor {
    open spec fn wf(&self) -> bool {
        self.exited@ <= self.entered@
    }

    open spec fn enters(&self) -> nat {
        self.entered@
    }

    open spec fn exits(&self) -> nat {
        self.exited@
    }

    fn enter_any(&mut self, kind: NodeKind) {
        proof {
            self.entered@ = self.entered@ + 1;
        }
    }

    fn exit_any(&mut self, kind: NodeKind) {
        proof {
            self.exited@ = self.exited@ + 1;
        }
    }

    fn enter_expression_mut(&mut self, node: &mut Expression) {
        match node {
            Expression::UnsignedInteger(p) => {
                p.val = self.sentinel.clone();
            },
            _ => {},
        }
    }
}

} // verus!
