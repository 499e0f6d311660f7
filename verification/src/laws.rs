//! Laws of evaluation that hold of every tree, every context stack and
//! every application.
use vstd::prelude::*;
use crate::value::{ValueModel, member};
use crate::error::ErrorModel;
use crate::node::NodeModel;
use crate::operator::OperatorModel;
use crate::builder::{build_from, build_step, build_tree, final_node, rob};
use crate::host::Host;
use crate::host::Registry;
use crate::builtin::builtin_arity;
use crate::eval::{
    Chain, ContextModel, chain, eval, eval_args, find_model, lemma_chain_done, number_model,
    range_syntax,
};

verus! {

/// A name that the innermost context binds has the value bound there,
/// whatever the outer contexts bind to it.
pub proof fn lemma_innermost_wins(contexts: Seq<ContextModel>, key: Seq<char>)
    requires
        contexts.len() > 0,
        member(contexts.last(), key) is Some,
    ensures
        find_model(contexts, key) == member(contexts.last(), key),
{
}

/// A name that only an outer context binds has the value of the innermost
/// context that binds it: a context that does not bind the name is passed
/// over.
pub proof fn lemma_unbound_context_is_passed_over(contexts: Seq<ContextModel>, key: Seq<char>)
    requires
        contexts.len() > 0,
        member(contexts.last(), key) is None,
    ensures
        find_model(contexts, key) == find_model(contexts.drop_last(), key),
{
}

/// An identifier that is neither a number nor a range evaluates to what
/// the innermost context binds to it, where that context binds it.
pub proof fn lemma_lookup_precedence<H: Host>(
    host: &H,
    contexts: Seq<ContextModel>,
    node: NodeModel,
    key: Seq<char>,
)
    requires
        node.operator == crate::operator::OperatorModel::Identifier(key),
        number_model(host, key) is None,
        !range_syntax(key),
        contexts.len() > 0,
        member(contexts.last(), key) is Some,
    ensures
        eval(host, contexts, node) == Ok::<ValueModel, ErrorModel>(
            member(contexts.last(), key).unwrap(),
        ),
{
    lemma_innermost_wins(contexts, key);
}

/// An identifier that is neither a number nor a range, and that no context
/// binds, evaluates to null.
pub proof fn lemma_missing_identifier_is_null<H: Host>(
    host: &H,
    contexts: Seq<ContextModel>,
    node: NodeModel,
    key: Seq<char>,
)
    requires
        node.operator == crate::operator::OperatorModel::Identifier(key),
        number_model(host, key) is None,
        !range_syntax(key),
        find_model(contexts, key) is None,
    ensures
        eval(host, contexts, node) == Ok::<ValueModel, ErrorModel>(ValueModel::Null),
{
}

/// A chain of member accesses or of indices whose first child evaluates to
/// null evaluates to null, however long it is and whatever follows.
pub proof fn lemma_null_propagates<H: Host>(host: &H, contexts: Seq<ContextModel>, node: NodeModel)
    requires
        node.operator is Dot || node.operator is LeftSquareBracket,
        node.children.len() > 0,
        eval(host, contexts, node.children[0]) == Ok::<ValueModel, ErrorModel>(ValueModel::Null),
    ensures
        eval(host, contexts, node) == Ok::<ValueModel, ErrorModel>(ValueModel::Null),
{
    let indexing = node.operator is LeftSquareBracket;
    let n = node.children.len() as int;
    assert(chain(host, contexts, node, 0, indexing) == Chain::Start);
    assert(chain(host, contexts, node, 1, indexing) == Chain::Done(Ok(ValueModel::Null)));
    lemma_chain_done(host, contexts, node, 1, n, indexing);
}

/// A call of a built-in function that the application does not shadow, with
/// arguments that all evaluate, fails where there are more arguments than
/// the function takes, and where there are fewer than it needs; the error
/// carries the bound that was passed.
pub proof fn lemma_builtin_arity_is_enforced<H: Host>(
    host: &H,
    contexts: Seq<ContextModel>,
    node: NodeModel,
    name: Seq<char>,
)
    requires
        node.operator == crate::operator::OperatorModel::Function(name),
        host.function_model(Registry::User, name) is None,
        builtin_arity(name) is Some,
        eval_args(host, contexts, node, node.children.len() as int) is Ok,
    ensures
        ({
            let arity = builtin_arity(name).unwrap();
            &&& (arity.max_args is Some && node.children.len() > arity.max_args.unwrap()) ==> eval(
                host,
                contexts,
                node,
            ) == Err::<ValueModel, ErrorModel>(
                ErrorModel::ArgumentsGreater(arity.max_args.unwrap()),
            )
            &&& (arity.min_args is Some && node.children.len() < arity.min_args.unwrap()
                && !(arity.max_args is Some && node.children.len() > arity.max_args.unwrap()))
                ==> eval(host, contexts, node) == Err::<ValueModel, ErrorModel>(
                ErrorModel::ArgumentsLess(arity.min_args.unwrap()),
            )
        }),
{
}

/// Whether an operator takes exactly two operands.
pub open spec fn takes_two(op: OperatorModel) -> bool {
    op.has_priority() && op.max_args() == Some(2usize)
}

/// A closed node without children: what a literal or an identifier
/// becomes.
pub open spec fn leaf(op: OperatorModel) -> NodeModel {
    NodeModel { operator: op, children: Seq::empty(), closed: true }
}

/// An open node of an operator over two operands.
pub open spec fn pair(op: OperatorModel, left: NodeModel, right: NodeModel) -> NodeModel {
    NodeModel { operator: op, children: seq![left, right], closed: false }
}

/// Precedence: of `a o1 b o2 c`, with operands that are literals or
/// identifiers and operators of two operands, the tree is `a o1 (b o2 c)`
/// where `o2` binds tighter than `o1`, and `(a o1 b) o2 c` where it does
/// not: operators of one priority group to the left.
pub proof fn lemma_precedence(
    a: OperatorModel,
    o1: OperatorModel,
    b: OperatorModel,
    o2: OperatorModel,
    c: OperatorModel,
)
    requires
        a.is_value_or_ident(),
        b.is_value_or_ident(),
        c.is_value_or_ident(),
        takes_two(o1),
        takes_two(o2),
    ensures
        build_tree(seq![a, o1, b, o2, c]) == Ok::<NodeModel, ErrorModel>(
            if o1.priority() < o2.priority() {
                pair(o1, leaf(a), pair(o2, leaf(b), leaf(c)))
            } else {
                pair(o2, pair(o1, leaf(a), leaf(b)), leaf(c))
            },
        ),
{
    let ops = seq![a, o1, b, o2, c];
    let ops1 = ops.subrange(1, 5);
    let ops2 = ops1.subrange(1, 4);
    let ops3 = ops2.subrange(1, 3);
    let ops4 = ops3.subrange(1, 2);
    let ops5 = ops4.subrange(1, 1);
    let none = Seq::<NodeModel>::empty();
    let n1 = NodeModel { operator: o1, children: seq![leaf(a)], closed: false };
    let n2 = pair(o1, leaf(a), leaf(b));
    let s1 = seq![leaf(a)];
    let s2 = seq![n1];
    let s3 = seq![n2];
    assert(a.to_node().with_closed(true) == leaf(a));
    assert(b.to_node().with_closed(true) == leaf(b));
    assert(c.to_node().with_closed(true) == leaf(c));
    assert(build_step(none, a) == Ok::<Seq<NodeModel>, ErrorModel>(s1));
    assert(build_step(s1, o1) == Ok::<Seq<NodeModel>, ErrorModel>(s2)) by {
        assert(s1.drop_last() =~= none);
        assert(o1.to_node().with_child(leaf(a)).children =~= seq![leaf(a)]);
        assert(none.push(n1) =~= s2);
    }
    assert(build_step(s2, b) == Ok::<Seq<NodeModel>, ErrorModel>(s3)) by {
        assert(s2.drop_last() =~= none);
        assert(n1.with_child(leaf(b)).children =~= seq![leaf(a), leaf(b)]);
        assert(none.push(n2) =~= s3);
    }
    let tight = o1.priority() < o2.priority();
    let robbed = NodeModel { operator: o1, children: seq![leaf(a)], closed: false };
    let robber = NodeModel { operator: o2, children: seq![leaf(b)], closed: false };
    let wrapped = NodeModel { operator: o2, children: seq![n2], closed: false };
    let s4 = if tight {
        seq![robbed, robber]
    } else {
        seq![wrapped]
    };
    assert(build_step(s3, o2) == Ok::<Seq<NodeModel>, ErrorModel>(s4)) by {
        assert(s3.drop_last() =~= none);
        assert(n2.is_enough());
        if tight {
            assert(n2.children.drop_last() =~= seq![leaf(a)]);
            assert(o2.to_node().with_child(n2.children.last()).children =~= seq![leaf(b)]);
            assert(rob(n2, o2.to_node()) =~= seq![robbed, robber]);
            assert(none + rob(n2, o2.to_node()) =~= s4);
        } else {
            assert(o2.to_node().with_child(n2).children =~= seq![n2]);
            assert(none.push(wrapped) =~= s4);
        }
    }
    let top = if tight {
        pair(o2, leaf(b), leaf(c))
    } else {
        pair(o2, n2, leaf(c))
    };
    let s5 = if tight {
        seq![robbed, top]
    } else {
        seq![top]
    };
    assert(build_step(s4, c) == Ok::<Seq<NodeModel>, ErrorModel>(s5)) by {
        if tight {
            assert(s4.drop_last() =~= seq![robbed]);
            assert(robber.with_child(leaf(c)).children =~= seq![leaf(b), leaf(c)]);
            assert(seq![robbed].push(top) =~= s5);
        } else {
            assert(s4.drop_last() =~= none);
            assert(wrapped.with_child(leaf(c)).children =~= seq![n2, leaf(c)]);
            assert(none.push(top) =~= s5);
        }
    }
    assert(ops1 =~= seq![o1, b, o2, c]);
    assert(ops2 =~= seq![b, o2, c]);
    assert(ops3 =~= seq![o2, c]);
    assert(ops4 =~= seq![c]);
    assert(ops5 =~= Seq::<OperatorModel>::empty());
    assert(build_from(ops5, s5) == Ok::<Seq<NodeModel>, ErrorModel>(s5));
    assert(build_from(ops4, s4) == build_from(ops5, s5));
    assert(build_from(ops3, s3) == build_from(ops4, s4));
    assert(build_from(ops2, s2) == build_from(ops3, s3));
    assert(build_from(ops1, s1) == build_from(ops2, s2));
    assert(build_from(ops, none) == build_from(ops1, s1));
    if tight {
        let whole = pair(o1, leaf(a), top);
        assert(s5.subrange(0, 0).push(robbed.with_child(top)) =~= seq![whole]) by {
            assert(robbed.with_child(top).children =~= seq![leaf(a), top]);
        }
        assert(final_node(seq![whole]) == Ok::<NodeModel, ErrorModel>(whole));
        assert(final_node(s5) == Ok::<NodeModel, ErrorModel>(whole));
    } else {
        assert(final_node(s5) == Ok::<NodeModel, ErrorModel>(top));
    }
}

/// Evaluation is a function of the tree, the contexts and the application:
/// two evaluations of equal trees against equal contexts agree, in the
/// value or in the error.
pub proof fn lemma_evaluation_is_determined<H: Host>(
    host: &H,
    contexts: Seq<ContextModel>,
    other: Seq<ContextModel>,
    node: NodeModel,
    twin: NodeModel,
)
    requires
        contexts =~~= other,
        node =~~= twin,
    ensures
        eval(host, contexts, node) == eval(host, other, twin),
{
}

} // verus!
