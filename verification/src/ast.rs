use vstd::prelude::*;

verus! {

/// Allocates strictly increasing node identifiers during one parse.
/// One context is created per parse invocation; it is never shared.
#[derive(Clone, Debug, PartialEq, Eq, Structural)]
pub struct ParserContext {
    pub id_count: usize,
}

impl ParserContext {
    /// Returns the next fresh node id; ids start at 0 and increase by one.
    pub fn new_id(&mut self) -> (id: usize)
        requires
            old(self).id_count < usize::MAX,
        ensures
            id == old(self).id_count,
            final(self).id_count == old(self).id_count + 1,
    {
        let id = self.id_count;
        self.id_count = self.id_count + 1;
        id
    }
}

impl Default for ParserContext {
    /// A fresh context allocates ids from 0.
    fn default() -> (r: Self)
        ensures
            r.id_count == 0,
    {
        ParserContext { id_count: 0 }
    }
}

/// Data attached to every structural node: a unique id (assigned in
/// construction order by the parse's ParserContext) and the character span
/// of the matched source region.
#[derive(Clone, Copy, Debug, PartialEq, Eq)]
pub struct NodeData {
    pub id: usize,
    pub span: (usize, usize),
}

impl NodeData {
    pub fn new(id: usize, left: usize, right: usize) -> (r: Self)
        ensures
            r.id == id,
            r.span.0 == left,
            r.span.1 == right,
    {
        NodeData { id, span: (left, right) }
    }
}

/// Prefix flags that may precede a class definition.
#[derive(Clone, Copy, Debug, PartialEq, Eq, Structural)]
pub struct ClassFlags {
    pub partial: bool,
    pub encapsulated: bool,
    pub replaceable: bool,
    pub redeclare: bool,
    pub is_final: bool,
    pub inner: bool,
    pub outer: bool,
}

/// The description string attached to a class: adjacent string literals.
#[derive(Clone, Debug, PartialEq, Eq)]
pub struct DescriptionString {
    pub parts: Vec<String>,
}

/// The connection / variability / causality prefix of a component clause.
#[derive(Clone, Copy, Debug, PartialEq, Eq, Structural)]
pub struct TypePrefix {
    pub connection: Connection,
    pub variability: Variability,
    pub causality: Causality,
}

/// The prefixes of a class definition head.
#[derive(Clone, Copy, Debug, PartialEq, Eq, Structural)]
pub struct ClassPrefixes {
    pub is_partial: bool,
    pub class_type: ClassType,
}

/// A declarator inside a component clause: used while parsing only.
#[derive(Debug, PartialEq, Eq)]
pub struct Declaration {
    pub name: String,
    pub array_subscripts: Vec<Subscript>,
    pub modification: Option<Modification>,
}

/// An extends clause, as parsed inside a class body.
#[derive(Debug, PartialEq, Eq)]
pub struct ExtendsClause {
    pub node_data: NodeData,
    pub type_specifier: TypeSpecifier,
}

/// One part of a class body, in source order: used while parsing only.
#[derive(Debug, PartialEq, Eq)]
pub enum CompositionPart {
    Empty,
    AlgorithmSection(AlgorithmSection),
    ElementList(ElementList),
    EquationSection(EquationSection),
}

/// A run of element declarations under one visibility: parsing only.
#[derive(Debug, PartialEq, Eq)]
pub struct ElementList {
    pub visibility: Visibility,
    pub elements: Vec<Element>,
}

/// An equation section, either plain or initial: parsing only.
#[derive(Debug, PartialEq, Eq)]
pub struct EquationSection {
    pub initial: bool,
    pub equations: Vec<Equation>,
}

/// An algorithm section, either plain or initial: parsing only.
#[derive(Debug, PartialEq, Eq)]
pub struct AlgorithmSection {
    pub initial: bool,
    pub statements: Vec<Statement>,
}

/// One element of a class body element list: parsing only.
#[derive(Debug, PartialEq, Eq)]
pub enum Element {
    Empty,
    ClassDefinition(ClassDefinition),
    ComponentClause(Vec<ComponentDeclaration>),
    ExtendsClause(ExtendsClause),
    ImportClause(ImportClause),
}

#[derive(Clone, Copy, Debug, PartialEq, Eq, Structural)]
pub enum Causality {
    Empty,
    Input,
    Output,
}

#[derive(Clone, Copy, Debug, PartialEq, Eq, Structural)]
pub enum Variability {
    Empty,
    Constant,
    Continuous,
    Discrete,
    Parameter,
}

#[derive(Clone, Copy, Debug, PartialEq, Eq, Structural)]
pub enum Visibility {
    Empty,
    Public,
    Protected,
}

#[derive(Clone, Copy, Debug, PartialEq, Eq, Structural)]
pub enum Connection {
    Empty,
    Flow,
    Stream,
}

#[derive(Clone, Copy, Debug, PartialEq, Eq, Structural)]
pub enum UnaryOp {
    Empty,
    ElemNegative,
    ElemPositive,
    Negative,
    Not,
    Paren,
    Positive,
}

#[derive(Clone, Copy, Debug, PartialEq, Eq, Structural)]
pub enum BinaryOp {
    Empty,
    Add,
    And,
    Div,
    ElemAdd,
    ElemDiv,
    ElemExp,
    ElemMul,
    ElemSub,
    Equal,
    Exp,
    GreaterThan,
    GreaterThanOrEqual,
    LessThan,
    LessThanOrEqual,
    Mul,
    Not,
    NotEqual,
    Or,
    Paren,
    Range,
    Sub,
}

#[derive(Clone, Copy, Debug, PartialEq, Eq, Structural)]
pub enum ClassType {
    Empty,
    Block,
    Class,
    Connector,
    ExpandableConnector,
    Function,
    ImpureFunction,
    Model,
    Operator,
    OperatorFunction,
    OperatorRecord,
    Package,
    PureFunction,
    Record,
    Type,
}

#[derive(Clone, Copy, Debug, PartialEq, Eq, Structural)]
pub struct ElementFlags {
    pub replaceable: bool,
    pub redeclare: bool,
    pub is_final: bool,
    pub inner: bool,
    pub outer: bool,
}

#[derive(Clone, Debug, PartialEq, Eq)]
pub struct Name {
    pub parts: Vec<String>,
}

#[derive(Debug, PartialEq, Eq)]
pub struct StoredDefinition {
    pub node_data: NodeData,
    pub within: Option<Name>,
    pub model_md5: String,
    pub rumoca_parser_version: String,
    pub rumoca_parser_git: String,
    pub classes: Vec<ClassDefinition>,
}

#[derive(Debug, PartialEq, Eq)]
pub struct ClassDefinition {
    pub node_data: NodeData,
    pub name: String,
    pub class_type: ClassType,
    pub extends: Vec<TypeSpecifier>,
    pub imports: Vec<ImportClause>,
    pub flags: ClassFlags,
    pub modification: Vec<Argument>,
    pub description: DescriptionString,
    pub components: Vec<ComponentDeclaration>,
    pub classes: Vec<ClassDefinition>,
    pub equations: Vec<Equation>,
    pub algorithms: Vec<Vec<Statement>>,
    pub initial_equations: Vec<Equation>,
    pub initial_algorithms: Vec<Vec<Statement>>,
}

#[derive(Debug, PartialEq, Eq)]
pub struct ImportClause {
    pub node_data: NodeData,
    pub alias: String,
    pub name: Name,
    pub description: Option<Description>,
}

#[derive(Debug, PartialEq, Eq)]
pub struct ComponentDeclaration {
    pub node_data: NodeData,
    pub name: String,
    pub type_specifier: TypeSpecifier,
    pub flags: ElementFlags,
    pub connection: Connection,
    pub variability: Variability,
    pub causality: Causality,
    pub visibility: Visibility,
    pub array_subscripts: Vec<Subscript>,
    pub modification: Option<Modification>,
    pub condition_attribute: Option<Expression>,
    pub description: Option<Description>,
}

#[derive(Debug, PartialEq, Eq)]
pub struct ComponentReference {
    pub node_data: NodeData,
    pub local: bool,
    pub parts: Vec<RefPart>,
}

#[derive(Debug, PartialEq, Eq)]
pub struct RefPart {
    pub node_data: NodeData,
    pub name: String,
    pub array_subscripts: Vec<Subscript>,
}

#[derive(Debug, PartialEq, Eq)]
pub struct Description {
    pub node_data: NodeData,
    pub strings: Vec<String>,
    pub annotation: Vec<Argument>,
}

#[derive(Debug, PartialEq, Eq)]
pub struct ForIndex {
    pub node_data: NodeData,
    pub ident: String,
    pub in_expr: Option<Expression>,
}

#[derive(Debug, PartialEq, Eq)]
pub struct EquationIfBlock {
    pub node_data: NodeData,
    pub cond: Expression,
    pub eqs: Vec<Equation>,
}

#[derive(Debug, PartialEq, Eq)]
pub struct StatementIfBlock {
    pub node_data: NodeData,
    pub cond: Expression,
    pub stmts: Vec<Statement>,
}

#[derive(Debug, PartialEq, Eq)]
pub struct ExpressionIfBlock {
    pub node_data: NodeData,
    pub cond: Expression,
    pub expr: Expression,
}

#[derive(Clone, Debug, PartialEq, Eq)]
pub struct TypeSpecifier {
    pub local: bool,
    pub name: Name,
}

#[derive(Debug, PartialEq, Eq)]
pub struct EquationConnect {
    pub node_data: NodeData,
    pub lhs: ComponentReference,
    pub rhs: ComponentReference,
    pub description: Option<Description>,
}

#[derive(Debug, PartialEq, Eq)]
pub struct EquationFor {
    pub node_data: NodeData,
    pub indices: Vec<ForIndex>,
    pub eqs: Vec<Equation>,
    pub description: Option<Description>,
}

#[derive(Debug, PartialEq, Eq)]
pub struct EquationIf {
    pub node_data: NodeData,
    pub if_blocks: Vec<EquationIfBlock>,
    pub else_eqs: Vec<Equation>,
    pub description: Option<Description>,
}

#[derive(Debug, PartialEq, Eq)]
pub struct EquationSimple {
    pub node_data: NodeData,
    pub lhs: Expression,
    pub rhs: Expression,
    pub description: Option<Description>,
}

#[derive(Debug, PartialEq, Eq)]
pub struct StatementAssignment {
    pub node_data: NodeData,
    pub comp: ComponentReference,
    pub rhs: Expression,
    pub description: Option<Description>,
}

#[derive(Debug, PartialEq, Eq)]
pub struct StatementBreak {
    pub node_data: NodeData,
    pub description: Option<Description>,
}

#[derive(Debug, PartialEq, Eq)]
pub struct StatementFor {
    pub node_data: NodeData,
    pub indices: Vec<ForIndex>,
    pub stmts: Vec<Statement>,
    pub description: Option<Description>,
}

#[derive(Debug, PartialEq, Eq)]
pub struct StatementIf {
    pub node_data: NodeData,
    pub if_blocks: Vec<StatementIfBlock>,
    pub else_stmts: Vec<Statement>,
    pub description: Option<Description>,
}

#[derive(Debug, PartialEq, Eq)]
pub struct StatementReturn {
    pub node_data: NodeData,
    pub description: Option<Description>,
}

#[derive(Debug, PartialEq, Eq)]
pub struct StatementWhile {
    pub node_data: NodeData,
    pub cond: Expression,
    pub stmts: Vec<Statement>,
    pub description: Option<Description>,
}

#[derive(Debug, PartialEq, Eq)]
pub struct Array {
    pub node_data: NodeData,
    pub args: Vec<Expression>,
}

#[derive(Debug, PartialEq, Eq)]
pub struct Binary {
    pub node_data: NodeData,
    pub op: BinaryOp,
    pub lhs: Box<Expression>,
    pub rhs: Box<Expression>,
}

#[derive(Debug, PartialEq, Eq)]
pub struct Boolean {
    pub node_data: NodeData,
    pub val: bool,
}

#[derive(Debug, PartialEq, Eq)]
pub struct FunctionCall {
    pub node_data: NodeData,
    pub comp: ComponentReference,
    pub args: Vec<Expression>,
}

#[derive(Debug, PartialEq, Eq)]
pub struct ExpressionIf {
    pub node_data: NodeData,
    pub if_blocks: Vec<ExpressionIfBlock>,
    pub else_expr: Option<Box<Expression>>,
}

#[derive(Debug, PartialEq, Eq)]
pub struct Unary {
    pub node_data: NodeData,
    pub op: UnaryOp,
    pub rhs: Box<Expression>,
}

#[derive(Debug, PartialEq, Eq)]
pub struct UnsignedInteger {
    pub node_data: NodeData,
    pub val: String,
}

#[derive(Debug, PartialEq, Eq)]
pub struct UnsignedReal {
    pub node_data: NodeData,
    pub val: String,
}

#[derive(Debug, PartialEq, Eq)]
pub struct SubscriptRange {
    pub node_data: NodeData,
}

#[derive(Debug, PartialEq, Eq)]
pub struct ArgumentModification {
    pub node_data: NodeData,
    pub name: Name,
    pub each: bool,
    pub is_final: bool,
    pub modification: Option<Modification>,
    pub description: Option<Description>,
}

#[derive(Debug, PartialEq, Eq)]
pub struct ArgumentRedeclaration {
    pub node_data: NodeData,
}

#[derive(Debug, PartialEq, Eq)]
pub struct ArgumentReplaceable {
    pub node_data: NodeData,
}

#[derive(Debug, PartialEq, Eq)]
pub struct ModificationClass {
    pub node_data: NodeData,
    pub args: Vec<Argument>,
    pub expr: Option<ModExpr>,
}

#[derive(Debug, PartialEq, Eq)]
pub struct ModExprBreak {
    pub node_data: NodeData,
}

#[derive(Debug, PartialEq, Eq)]
pub enum Equation {
    Empty,
    Connect(EquationConnect),
    For(EquationFor),
    If(EquationIf),
    Simple(EquationSimple),
}

#[derive(Debug, PartialEq, Eq)]
pub enum Statement {
    Empty,
    Assignment(StatementAssignment),
    Break(StatementBreak),
    For(StatementFor),
    If(StatementIf),
    Return(StatementReturn),
    While(StatementWhile),
}

#[derive(Debug, PartialEq, Eq)]
pub enum Expression {
    Empty,
    Array(Array),
    Binary(Binary),
    Boolean(Boolean),
    FunctionCall(FunctionCall),
    If(ExpressionIf),
    Ref(ComponentReference),
    Unary(Unary),
    UnsignedInteger(UnsignedInteger),
    UnsignedReal(UnsignedReal),
}

#[derive(Debug, PartialEq, Eq)]
pub enum Subscript {
    Empty,
    Range(SubscriptRange),
    Expression(Expression),
}

#[derive(Debug, PartialEq, Eq)]
pub enum Argument {
    Empty,
    Modification(ArgumentModification),
    Redeclaration(ArgumentRedeclaration),
    Replaceable(ArgumentReplaceable),
}

#[derive(Debug, PartialEq, Eq)]
pub enum Modification {
    Empty,
    Class(ModificationClass),
    Expression(ModExpr),
}

#[derive(Debug, PartialEq, Eq)]
pub enum ModExpr {
    Empty,
    Break(ModExprBreak),
    Expression(Expression),
}

} // verus!
