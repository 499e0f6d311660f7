//! The tree builder: a stack of partly built subtrees that each incoming
//! operator extends, wraps, robs or closes.
use vstd::prelude::*;
use crate::operator::{Operator, OperatorModel};
use crate::node::{Node, NodeModel, node_models};
use crate::error::{Error, ErrorModel};

verus! {

/// The two nodes that stand on the stack after `robber` has taken the
/// rightmost child of `was_robed` as its left operand.
pub open spec fn rob(was_robed: NodeModel, robber: NodeModel) -> Seq<NodeModel> {
    seq![
        NodeModel { children: was_robed.children.drop_last(), ..was_robed },
        robber.with_child(was_robed.children.last()),
    ]
}

/// The stack after an operator that carries a priority has come in.
pub open spec fn place_operator(stack: Seq<NodeModel>, op: OperatorModel) -> Result<
    Seq<NodeModel>,
    ErrorModel,
> {
    if stack.len() > 0 {
        let prev = stack.last();
        if prev.is_value_or_full_children() {
            if prev.operator.priority() < op.priority() && !prev.closed {
                Ok(stack.drop_last() + rob(prev, op.to_node()))
            } else {
                Ok(stack.drop_last().push(op.to_node().with_child(prev)))
            }
        } else if prev.operator.can_at_beginning() {
            Ok(stack.push(op.to_node()))
        } else {
            Err(ErrorModel::DuplicateOperatorNode)
        }
    } else if op.can_at_beginning() {
        Ok(seq![op.to_node()])
    } else {
        Err(ErrorModel::StartWithNonValueOperator)
    }
}

/// The stack after a literal or an identifier has come in.
pub open spec fn place_value(stack: Seq<NodeModel>, op: OperatorModel) -> Result<
    Seq<NodeModel>,
    ErrorModel,
> {
    let node = op.to_node().with_closed(true);
    if stack.len() > 0 {
        let prev = stack.last();
        if prev.operator is Dot {
            Ok(stack.drop_last().push(prev.with_child(node).with_closed(true)))
        } else if prev.operator is LeftSquareBracket {
            Ok(stack.push(node))
        } else if prev.is_value_or_full_children() {
            Err(ErrorModel::DuplicateValueNode)
        } else if prev.is_enough() {
            Ok(stack.push(node))
        } else if prev.operator.can_have_child() {
            Ok(stack.drop_last().push(prev.with_child(node)))
        } else {
            Err(ErrorModel::CanNotAddChild)
        }
    } else {
        Ok(seq![node])
    }
}

/// `prev` with `current` as one more child, closed if that fills it.
pub open spec fn graft(prev: NodeModel, current: NodeModel) -> NodeModel {
    let grown = prev.with_child(current);
    if grown.is_enough() {
        grown.with_closed(true)
    } else {
        grown
    }
}

/// The stack after a comma: the argument on top is folded together and
/// handed to the function whose parenthesis lies under it. An opening
/// bracket on top, with no opening bracket under it, leaves the stack as
/// it is.
pub open spec fn after_comma(stack: Seq<NodeModel>) -> Result<Seq<NodeModel>, ErrorModel>
    decreases stack.len(),
{
    if stack.len() < 2 {
        Err(ErrorModel::CommaNotWithFunction)
    } else {
        let current = stack.last();
        let prev = stack[stack.len() - 2];
        let rest = stack.subrange(0, stack.len() - 2);
        if current.operator is Comma {
            Ok(rest.push(prev))
        } else if prev.operator.is_left() {
            if rest.len() > 0 && rest.last().is_unclosed_function() {
                Ok(rest.drop_last().push(rest.last().with_child(current)).push(prev))
            } else {
                Err(ErrorModel::CommaNotWithFunction)
            }
        } else if current.operator.is_left() {
            Ok(rest.push(prev).push(current))
        } else if !prev.closed && rest.len() > 0 {
            after_comma(rest.push(graft(prev, current)))
        } else {
            Err(ErrorModel::StartWithNonValueOperator)
        }
    }
}

/// The stack after a closing bracket that answers `bracket`. An open
/// square bracket on top encloses nothing, and is refused.
pub open spec fn after_bracket(stack: Seq<NodeModel>, bracket: OperatorModel) -> Result<
    Seq<NodeModel>,
    ErrorModel,
>
    decreases stack.len(),
{
    if stack.len() < 2 {
        Err(ErrorModel::BracketNotWithFunction)
    } else {
        let current = stack.last();
        let prev = stack[stack.len() - 2];
        let rest = stack.subrange(0, stack.len() - 2);
        if current.is_unclosed_square_bracket() {
            Err(ErrorModel::BracketNotWithFunction)
        } else if prev.operator is LeftSquareBracket {
            Ok(rest.push(prev.with_child(current).with_closed(true)))
        } else if current.operator == bracket {
            if prev.is_unclosed_function() {
                Ok(rest.push(prev.with_closed(true)))
            } else {
                Err(ErrorModel::BracketNotWithFunction)
            }
        } else if prev.operator == bracket {
            let group = current.with_closed(true);
            if rest.len() == 0 {
                Ok(seq![group])
            } else if rest.last().is_unclosed_function() {
                Ok(rest.drop_last().push(rest.last().with_closed(true).with_child(group)))
            } else if rest.last().is_unclosed_arithmetic() {
                Ok(rest.drop_last().push(rest.last().with_child(group)))
            } else {
                Ok(rest.push(group))
            }
        } else if !prev.closed && rest.len() > 0 {
            after_bracket(rest.push(graft(prev, current)), bracket)
        } else {
            Err(ErrorModel::StartWithNonValueOperator)
        }
    }
}

/// The one node that the stack collapses to at the end of the input: each
/// node becomes the last child of the one under it.
pub open spec fn final_node(stack: Seq<NodeModel>) -> Result<NodeModel, ErrorModel>
    decreases stack.len(),
{
    if stack.len() == 0 {
        Err(ErrorModel::NoFinalNode)
    } else if stack.len() == 1 {
        Ok(stack[0])
    } else {
        let last = stack.last();
        let prev = stack[stack.len() - 2];
        if prev.operator.can_have_child() {
            final_node(stack.subrange(0, stack.len() - 2).push(prev.with_child(last)))
        } else {
            Err(ErrorModel::CanNotAddChild)
        }
    }
}

/// The stack after one operator of the token stream.
pub open spec fn build_step(stack: Seq<NodeModel>, op: OperatorModel) -> Result<
    Seq<NodeModel>,
    ErrorModel,
> {
    if op.has_priority() {
        place_operator(stack, op)
    } else if op is Function || op is LeftParenthesis {
        Ok(stack.push(op.to_node()))
    } else if op is Comma {
        after_comma(stack)
    } else if op is RightParenthesis || op is RightSquareBracket {
        after_bracket(stack, op.left())
    } else if op.is_value_or_ident() {
        place_value(stack, op)
    } else {
        Ok(stack)
    }
}

/// The stack after all of `ops`, taken in order, starting from `stack`.
pub open spec fn build_from(ops: Seq<OperatorModel>, stack: Seq<NodeModel>) -> Result<
    Seq<NodeModel>,
    ErrorModel,
>
    decreases ops.len(),
{
    if ops.len() == 0 {
        Ok(stack)
    } else {
        match build_step(stack, ops[0]) {
            Ok(next) => build_from(ops.subrange(1, ops.len() as int), next),
            Err(e) => Err(e),
        }
    }
}

/// The tree that a token stream denotes.
pub open spec fn build_tree(ops: Seq<OperatorModel>) -> Result<NodeModel, ErrorModel> {
    match build_from(ops, Seq::empty()) {
        Ok(stack) => final_node(stack),
        Err(e) => Err(e),
    }
}

/// Whether `r`, with the stack it left, is the outcome `expected`.
pub open spec fn stack_outcome(
    r: Result<(), Error>,
    stack: Seq<Node>,
    expected: Result<Seq<NodeModel>, ErrorModel>,
) -> bool {
    match expected {
        Ok(s) => r is Ok && node_models(stack) == s,
        Err(e) => r is Err && r->Err_0.model() == e,
    }
}

pub fn push_node(stack: &mut Vec<Node>, node: Node)
    ensures
        node_models(final(stack)@) == node_models(old(stack)@).push(node.model()),
        final(stack).len() == old(stack).len() + 1,
{
    stack.push(node);
    assert(node_models(final(stack)@) =~= node_models(old(stack)@).push(node.model()));
}

pub fn pop_node(stack: &mut Vec<Node>) -> (r: Node)
    requires
        old(stack).len() > 0,
    ensures
        r.model() == node_models(old(stack)@).last(),
        node_models(final(stack)@) == node_models(old(stack)@).drop_last(),
        final(stack).len() == old(stack).len() - 1,
{
    let r = stack.pop().unwrap();
    assert(node_models(final(stack)@) =~= node_models(old(stack)@).drop_last());
    r
}

pub fn rob_to(was_robed: Node, robber: Node) -> (r: Vec<Node>)
    requires
        was_robed.model().children.len() > 0,
    ensures
        node_models(r@) == rob(was_robed.model(), robber.model()),
{
    let mut loser = was_robed;
    let mut winner = robber;
    let ghost before = (loser.model(), winner.model());
    let move_out_node = loser.move_out_last_node();
    winner.add_child(move_out_node);
    let mut r: Vec<Node> = Vec::new();
    push_node(&mut r, loser);
    push_node(&mut r, winner);
    assert(node_models(r@) =~= rob(before.0, before.1)) by {
        assert(node_models(Seq::<Node>::empty()) =~= Seq::<NodeModel>::empty());
    }
    r
}

/// Takes in an operator that carries a priority.
pub fn append_operator(parsing_nodes: &mut Vec<Node>, operator: &Operator) -> (r: Result<(), Error>)
    requires
        operator.model().has_priority(),
    ensures
        stack_outcome(
            r,
            final(parsing_nodes)@,
            place_operator(node_models(old(parsing_nodes)@), operator.model()),
        ),
{
    let priority = operator.get_priority();
    if parsing_nodes.len() > 0 {
        let prev = pop_node(parsing_nodes);
        if prev.is_value_or_full_children() {
            if prev.operator.get_priority() < priority && !prev.closed {
                let pair = rob_to(prev, operator.to_node());
                let mut pair = pair;
                let robber = pop_node(&mut pair);
                let was_robed = pop_node(&mut pair);
                push_node(parsing_nodes, was_robed);
                push_node(parsing_nodes, robber);
                assert(node_models(final(parsing_nodes)@) =~= node_models(
                    old(parsing_nodes)@,
                ).drop_last() + rob(prev.model(), operator.model().to_node()));
            } else {
                let mut node = operator.to_node();
                node.add_child(prev);
                push_node(parsing_nodes, node);
            }
            Ok(())
        } else if prev.operator.can_at_beginning() {
            push_node(parsing_nodes, prev);
            push_node(parsing_nodes, operator.to_node());
            assert(node_models(old(parsing_nodes)@).drop_last().push(prev.model()) =~= node_models(
                old(parsing_nodes)@,
            ));
            Ok(())
        } else {
            Err(Error::DuplicateOperatorNode)
        }
    } else if operator.can_at_beginning() {
        push_node(parsing_nodes, operator.to_node());
        assert(node_models(final(parsing_nodes)@) =~= seq![operator.model().to_node()]);
        Ok(())
    } else {
        Err(Error::StartWithNonValueOperator)
    }
}

pub fn append_value_to_last_node(parsing_nodes: &mut Vec<Node>, operator: &Operator) -> (r: Result<
    (),
    Error,
>)
    ensures
        stack_outcome(
            r,
            final(parsing_nodes)@,
            place_value(node_models(old(parsing_nodes)@), operator.model()),
        ),
{
    let mut node = operator.to_node();
    node.set_closed(true);
    if parsing_nodes.len() > 0 {
        let mut prev = pop_node(parsing_nodes);
        let ghost rest = node_models(parsing_nodes@);
        assert(rest.push(prev.model()) =~= node_models(old(parsing_nodes)@));
        if prev.is_dot() {
            prev.add_child(node);
            prev.set_closed(true);
            push_node(parsing_nodes, prev);
        } else if prev.is_left_square_bracket() {
            push_node(parsing_nodes, prev);
            push_node(parsing_nodes, node);
        } else if prev.is_value_or_full_children() {
            return Err(Error::DuplicateValueNode);
        } else if prev.is_enough() {
            push_node(parsing_nodes, prev);
            push_node(parsing_nodes, node);
        } else if prev.operator.can_have_child() {
            prev.add_child(node);
            push_node(parsing_nodes, prev);
        } else {
            return Err(Error::CanNotAddChild);
        }
    } else {
        push_node(parsing_nodes, node);
        assert(node_models(final(parsing_nodes)@) =~= seq![node.model()]);
    }
    Ok(())
}

/// Hands `current` to `prev` as one more child, and closes `prev` if that
/// fills it.
pub fn graft_child(prev: Node, current: Node) -> (r: Node)
    ensures
        r.model() == graft(prev.model(), current.model()),
{
    let mut prev = prev;
    prev.add_child(current);
    if prev.is_enough() {
        prev.set_closed(true);
    }
    prev
}

pub fn get_final_node(parsing_nodes: Vec<Node>) -> (r: Result<Node, Error>)
    ensures
        match final_node(node_models(parsing_nodes@)) {
            Ok(n) => r is Ok && r->Ok_0.model() == n,
            Err(e) => r is Err && r->Err_0.model() == e,
        },
    decreases parsing_nodes.len(),
{
    let mut parsing_nodes = parsing_nodes;
    if parsing_nodes.len() == 0 {
        return Err(Error::NoFinalNode);
    }
    if parsing_nodes.len() == 1 {
        let only = pop_node(&mut parsing_nodes);
        return Ok(only);
    }
    let ghost all = node_models(parsing_nodes@);
    let last = pop_node(&mut parsing_nodes);
    let mut prev = pop_node(&mut parsing_nodes);
    assert(node_models(parsing_nodes@) =~= all.subrange(0, all.len() - 2));
    if prev.operator.can_have_child() {
        prev.add_child(last);
        push_node(&mut parsing_nodes, prev);
        get_final_node(parsing_nodes)
    } else {
        Err(Error::CanNotAddChild)
    }
}

pub fn close_bracket(parsing_nodes: &mut Vec<Node>, bracket: Operator) -> (r: Result<(), Error>)
    requires
        bracket.model() is LeftParenthesis || bracket.model() is LeftSquareBracket,
    ensures
        stack_outcome(
            r,
            final(parsing_nodes)@,
            after_bracket(node_models(old(parsing_nodes)@), bracket.model()),
        ),
    decreases old(parsing_nodes).len(),
{
    if parsing_nodes.len() < 2 {
        return Err(Error::BracketNotWithFunction);
    }
    let ghost all = node_models(parsing_nodes@);
    let mut current = pop_node(parsing_nodes);
    let mut prev = pop_node(parsing_nodes);
    let ghost rest = node_models(parsing_nodes@);
    assert(rest =~= all.subrange(0, all.len() - 2));
    if current.is_unclosed_square_bracket() {
        Err(Error::BracketNotWithFunction)
    } else if prev.operator.is_left_square_bracket() {
        prev.add_child(current);
        prev.set_closed(true);
        push_node(parsing_nodes, prev);
        Ok(())
    } else if current.operator.is_bracket(&bracket) {
        if prev.is_unclosed_function() {
            prev.set_closed(true);
            push_node(parsing_nodes, prev);
            Ok(())
        } else {
            Err(Error::BracketNotWithFunction)
        }
    } else if prev.operator.is_bracket(&bracket) {
        current.set_closed(true);
        if parsing_nodes.len() > 0 {
            let mut p = pop_node(parsing_nodes);
            if p.is_unclosed_function() {
                p.set_closed(true);
                p.add_child(current);
                push_node(parsing_nodes, p);
            } else if p.is_unclosed_arithmetic() {
                p.add_child(current);
                push_node(parsing_nodes, p);
            } else {
                push_node(parsing_nodes, p);
                assert(node_models(parsing_nodes@) =~= rest);
                push_node(parsing_nodes, current);
            }
        } else {
            push_node(parsing_nodes, current);
            assert(node_models(parsing_nodes@) =~= seq![current.model()]);
        }
        Ok(())
    } else if !prev.closed && parsing_nodes.len() > 0 {
        let grown = graft_child(prev, current);
        push_node(parsing_nodes, grown);
        close_bracket(parsing_nodes, bracket)
    } else {
        Err(Error::StartWithNonValueOperator)
    }
}

pub fn close_comma(parsing_nodes: &mut Vec<Node>) -> (r: Result<(), Error>)
    ensures
        stack_outcome(r, final(parsing_nodes)@, after_comma(node_models(old(parsing_nodes)@))),
    decreases old(parsing_nodes).len(),
{
    if parsing_nodes.len() < 2 {
        return Err(Error::CommaNotWithFunction);
    }
    let ghost all = node_models(parsing_nodes@);
    let current = pop_node(parsing_nodes);
    let prev = pop_node(parsing_nodes);
    let ghost rest = node_models(parsing_nodes@);
    assert(rest =~= all.subrange(0, all.len() - 2));
    let is_comma = match current.operator {
        Operator::Comma => true,
        _ => false,
    };
    if is_comma {
        push_node(parsing_nodes, prev);
        Ok(())
    } else if prev.operator.is_left() {
        if parsing_nodes.len() > 0 {
            let mut p = pop_node(parsing_nodes);
            if p.is_unclosed_function() {
                p.add_child(current);
                push_node(parsing_nodes, p);
                push_node(parsing_nodes, prev);
                Ok(())
            } else {
                Err(Error::CommaNotWithFunction)
            }
        } else {
            Err(Error::CommaNotWithFunction)
        }
    } else if current.operator.is_left() {
        push_node(parsing_nodes, prev);
        push_node(parsing_nodes, current);
        Ok(())
    } else if !prev.closed && parsing_nodes.len() > 0 {
        let grown = graft_child(prev, current);
        push_node(parsing_nodes, grown);
        close_comma(parsing_nodes)
    } else {
        Err(Error::StartWithNonValueOperator)
    }
}

} // verus!
