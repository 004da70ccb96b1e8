use vstd::prelude::*;
use crate::ast::{
    ClassDefinition, ComponentReference, Equation, Expression, Statement, StoredDefinition,
};
use crate::size::{
    class_definition_count, component_reference_count, equation_count, expression_count,
    statement_count, stored_definition_count,
};
use crate::trace::{
    class_definition_trace, component_reference_trace, equation_trace, expression_trace,
    statement_trace, stored_definition_trace,
};
use crate::visitable::Visitable;
use crate::visitor::Visitor;

verus! {

/// Free-standing entry points into the read-only traversal, one per commonly
/// walked node kind. Each runs the visitor over the whole subtree, calling
/// both global hooks exactly once per node.
pub struct Walker;

impl Walker {
    pub fn walk_stored_definition<V: Visitor>(visitor: &mut V, def: &StoredDefinition)
        requires
            old(visitor).wf(),
            old(visitor).exits() <= old(visitor).enters(),
            old(visitor).enters() + stored_definition_count(*def) <= usize::MAX as nat,
        ensures
            final(visitor).wf(),
            final(visitor).enters() == old(visitor).enters() + stored_definition_count(*def),
            final(visitor).exits() == old(visitor).exits() + stored_definition_count(*def),
            final(visitor).trace() == old(visitor).trace() + stored_definition_trace(*def),
    {
        def.accept(visitor)
    }

    pub fn walk_class_definition<V: Visitor>(visitor: &mut V, class: &ClassDefinition)
        requires
            old(visitor).wf(),
            old(visitor).exits() <= old(visitor).enters(),
            old(visitor).enters() + class_definition_count(*class) <= usize::MAX as nat,
        ensures
            final(visitor).wf(),
            final(visitor).enters() == old(visitor).enters() + class_definition_count(*class),
            final(visitor).exits() == old(visitor).exits() + class_definition_count(*class),
            final(visitor).trace() == old(visitor).trace() + class_definition_trace(*class),
    {
        class.accept(visitor)
    }

    pub fn walk_equation<V: Visitor>(visitor: &mut V, eq: &Equation)
        requires
            old(visitor).wf(),
            old(visitor).exits() <= old(visitor).enters(),
            old(visitor).enters() + equation_count(*eq) <= usize::MAX as nat,
        ensures
            final(visitor).wf(),
            final(visitor).enters() == old(visitor).enters() + equation_count(*eq),
            final(visitor).exits() == old(visitor).exits() + equation_count(*eq),
            final(visitor).trace() == old(visitor).trace() + equation_trace(*eq),
    {
        eq.accept(visitor)
    }

    pub fn walk_statement<V: Visitor>(visitor: &mut V, stmt: &Statement)
        requires
            old(visitor).wf(),
            old(visitor).exits() <= old(visitor).enters(),
            old(visitor).enters() + statement_count(*stmt) <= usize::MAX as nat,
        ensures
            final(visitor).wf(),
            final(visitor).enters() == old(visitor).enters() + statement_count(*stmt),
            final(visitor).exits() == old(visitor).exits() + statement_count(*stmt),
            final(visitor).trace() == old(visitor).trace() + statement_trace(*stmt),
    {
        stmt.accept(visitor)
    }

    pub fn walk_expression<V: Visitor>(visitor: &mut V, expr: &Expression)
        requires
            old(visitor).wf(),
            old(visitor).exits() <= old(visitor).enters(),
            old(visitor).enters() + expression_count(*expr) <= usize::MAX as nat,
        ensures
            final(visitor).wf(),
            final(visitor).enters() == old(visitor).enters() + expression_count(*expr),
            final(visitor).exits() == old(visitor).exits() + expression_count(*expr),
            final(visitor).trace() == old(visitor).trace() + expression_trace(*expr),
    {
        expr.accept(visitor)
    }

    pub fn walk_component_reference<V: Visitor>(visitor: &mut V, comp: &ComponentReference)
        requires
            old(visitor).wf(),
            old(visitor).exits() <= old(visitor).enters(),
            old(visitor).enters() + component_reference_count(*comp) <= usize::MAX as nat,
        ensures
            final(visitor).wf(),
            final(visitor).enters() == old(visitor).enters() + component_reference_count(*comp),
            final(visitor).exits() == old(visitor).exits() + component_reference_count(*comp),
            final(visitor).trace() == old(visitor).trace() + component_reference_trace(*comp),
    {
        comp.accept(visitor)
    }
}

} // verus!
