//! An expression on its way from text to tree.
use vstd::prelude::*;
use vstd::string::StringExecFns;
use crate::operator::Operator;
use crate::node::{Node, node_models};
use crate::error::Error;
use crate::builder::{
    append_operator, append_value_to_last_node, build_from, build_step, build_tree, close_bracket,
    close_comma, get_final_node, push_node, stack_outcome,
};
use crate::lexer::{lex, operator_models, positions, scan_operators, scan_positions};

verus! {

/// The text of an expression with what the passes have made of it so far:
/// the cut points, the operator stream and the tree.
pub struct Tree {
    pub raw: String,
    pub pos: Vec<usize>,
    pub operators: Vec<Operator>,
    pub node: Option<Node>,
}

/// Takes one operator of the stream onto the stack.
pub fn take_operator(parsing_nodes: &mut Vec<Node>, operator: &Operator) -> (r: Result<(), Error>)
    ensures
        stack_outcome(
            r,
            final(parsing_nodes)@,
            build_step(node_models(old(parsing_nodes)@), operator.model()),
        ),
{
    if operator.carried_priority().is_some() {
        return append_operator(parsing_nodes, operator);
    }
    match operator {
        Operator::Function(_) | Operator::LeftParenthesis => {
            push_node(parsing_nodes, operator.to_node());
            Ok(())
        },
        Operator::Comma => close_comma(parsing_nodes),
        Operator::RightParenthesis | Operator::RightSquareBracket => close_bracket(
            parsing_nodes,
            operator.get_left(),
        ),
        Operator::Value(_) | Operator::Identifier(_) => append_value_to_last_node(
            parsing_nodes,
            operator,
        ),
        _ => Ok(()),
    }
}

/// The tree of an operator stream.
pub fn build(operators: &Vec<Operator>) -> (r: Result<Node, Error>)
    ensures
        match build_tree(operator_models(operators@)) {
            Ok(n) => r is Ok && r->Ok_0.model() == n,
            Err(e) => r is Err && r->Err_0.model() == e,
        },
{
    let mut parsing_nodes: Vec<Node> = Vec::new();
    let ghost ops = operator_models(operators@);
    let mut i: usize = 0;
    assert(ops.subrange(0, ops.len() as int) =~= ops);
    assert(node_models(parsing_nodes@) =~= Seq::empty());
    while i < operators.len()
        invariant
            i <= operators.len(),
            ops == operator_models(operators@),
            build_from(ops, Seq::empty()) == build_from(
                ops.subrange(i as int, ops.len() as int),
                node_models(parsing_nodes@),
            ),
        decreases operators.len() - i,
    {
        let ghost rest = ops.subrange(i as int, ops.len() as int);
        assert(rest[0] == operators[i as int].model());
        assert(rest.subrange(1, rest.len() as int) =~= ops.subrange(i + 1, ops.len() as int));
        match take_operator(&mut parsing_nodes, &operators[i]) {
            Ok(()) => {},
            Err(e) => {
                return Err(e);
            },
        }
        i = i + 1;
    }
    get_final_node(parsing_nodes)
}

impl Tree {
    pub fn new(raw: &str) -> (r: Tree)
        ensures
            r.raw@ == raw@,
            r.pos@.len() == 0,
            r.operators@.len() == 0,
            r.node is None,
    {
        Tree { raw: String::from_str(raw), pos: Vec::new(), operators: Vec::new(), node: None }
    }

    /// Finds the cut points of the text. It never fails.
    pub fn parse_pos(&mut self) -> (r: Result<(), Error>)
        ensures
            r is Ok,
            final(self).pos@ == positions(old(self).raw@),
            final(self).raw == old(self).raw,
            final(self).operators == old(self).operators,
            final(self).node == old(self).node,
    {
        self.pos = scan_positions(self.raw.as_str());
        Ok(())
    }

    /// Turns the raw tokens between the cut points into operators.
    pub fn parse_operators(&mut self) -> (r: Result<(), Error>)
        ensures
            match lex(old(self).raw@, old(self).pos@) {
                Ok(ops) => r is Ok && operator_models(final(self).operators@) == ops,
                Err(e) => r is Err && r->Err_0.model() == e && final(self).operators == old(
                    self,
                ).operators,
            },
            final(self).raw == old(self).raw,
            final(self).pos == old(self).pos,
            final(self).node == old(self).node,
    {
        match scan_operators(self.raw.as_str(), &self.pos) {
            Ok(operators) => {
                self.operators = operators;
                Ok(())
            },
            Err(e) => Err(e),
        }
    }

    /// Builds the tree of the operator stream.
    pub fn parse_node(&mut self) -> (r: Result<(), Error>)
        ensures
            match build_tree(operator_models(old(self).operators@)) {
                Ok(n) => r is Ok && final(self).node is Some && final(self).node->Some_0.model()
                    == n,
                Err(e) => r is Err && r->Err_0.model() == e && final(self).node == old(self).node,
            },
            final(self).raw == old(self).raw,
            final(self).pos == old(self).pos,
            final(self).operators == old(self).operators,
    {
        match build(&self.operators) {
            Ok(node) => {
                self.node = Some(node);
                Ok(())
            },
            Err(e) => Err(e),
        }
    }
}

} // verus!
