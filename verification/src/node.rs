//! A node of the operator tree.
use vstd::prelude::*;
use crate::operator::{Operator, OperatorModel};
use crate::error::Error;
use crate::host::Function;

verus! {

/// An operator with its children, in order. A closed node takes no more
/// children.
#[derive(Debug)]
pub struct Node {
    pub operator: Operator,
    pub children: Vec<Node>,
    pub closed: bool,
}

pub struct NodeModel {
    pub operator: OperatorModel,
    pub children: Seq<NodeModel>,
    pub closed: bool,
}

/// The models of a sequence of nodes, item by item.
pub open spec fn node_models(nodes: Seq<Node>) -> Seq<NodeModel> {
    Seq::new(nodes.len(), |i: int| nodes[i].model())
}

impl NodeModel {
    pub open spec fn is_enough(self) -> bool {
        match self.operator.max_args() {
            Some(n) => self.children.len() == n,
            None => false,
        }
    }

    /// Whether the node can serve as a left operand.
    pub open spec fn is_value_or_full_children(self) -> bool {
        if self.operator.is_value_or_ident() {
            true
        } else if self.operator.can_have_child() {
            self.closed || self.is_enough()
        } else {
            false
        }
    }

    pub open spec fn is_unclosed_arithmetic(self) -> bool {
        !self.closed && self.operator.can_have_child()
    }

    pub open spec fn is_unclosed_function(self) -> bool {
        self.operator is Function && !self.closed
    }

    pub open spec fn is_unclosed_square_bracket(self) -> bool {
        self.operator is LeftSquareBracket && !self.closed
    }

    pub open spec fn with_child(self, child: NodeModel) -> NodeModel {
        NodeModel { children: self.children.push(child), ..self }
    }

    pub open spec fn with_closed(self, closed: bool) -> NodeModel {
        NodeModel { closed, ..self }
    }

    /// The error, if any, of calling `function` with this node's children
    /// as arguments: too many is tested before too few.
    pub open spec fn arity_error(self, function: Function) -> Option<Error> {
        if function.max_args is Some && self.children.len() > function.max_args.unwrap() {
            Some(Error::ArgumentsGreater(function.max_args.unwrap()))
        } else if function.min_args is Some && self.children.len() < function.min_args.unwrap() {
            Some(Error::ArgumentsLess(function.min_args.unwrap()))
        } else {
            None
        }
    }
}

impl Node {
    pub open spec fn model(&self) -> NodeModel
        decreases self,
    {
        NodeModel {
            operator: self.operator.model(),
            children: Seq::new(
                self.children.len() as nat,
                |i: int|
                    if 0 <= i < self.children.len() {
                        self.children[i].model()
                    } else {
                        arbitrary()
                    },
            ),
            closed: self.closed,
        }
    }

    /// The model's children are the models of the children.
    pub proof fn lemma_children(&self)
        ensures
            self.model().children == node_models(self.children@),
            self.model().children.len() == self.children.len(),
    {
        assert(self.model().children =~= node_models(self.children@));
    }

    pub fn new(operator: Operator) -> (r: Node)
        ensures
            r.model() == operator.model().to_node(),
    {
        let r = Node { operator, children: Vec::new(), closed: false };
        assert(r.model().children =~= Seq::empty());
        r
    }

    /// A deep copy.
    #[verifier::loop_isolation(false)]
    pub fn duplicate(&self) -> (r: Node)
        ensures
            r.model() == self.model(),
        decreases self,
    {
        let mut out: Vec<Node> = Vec::new();
        let mut i: usize = 0;
        while i < self.children.len()
            invariant
                i <= self.children.len(),
                out.len() == i,
                forall|j: int| 0 <= j < i ==> (#[trigger] out[j]).model() == self.children[j].model(),
            decreases self.children.len() - i,
        {
            proof {
                vstd::std_specs::vec::axiom_vec_index_decreases(self.children, i as int);
            }
            out.push(self.children[i].duplicate());
            i = i + 1;
        }
        let r = Node { operator: self.operator.duplicate(), children: out, closed: self.closed };
        assert(r.model().children =~= self.model().children);
        r
    }

    pub fn check_function_args(&self, function: &Function) -> (r: Result<(), Error>)
        ensures
            match self.model().arity_error(*function) {
                Some(e) => r == Err::<(), Error>(e),
                None => r is Ok,
            },
    {
        proof {
            self.lemma_children();
        }
        let args_length = self.children.len();
        if let Some(len) = function.max_args {
            if args_length > len {
                return Err(Error::ArgumentsGreater(len));
            }
        }
        if let Some(len) = function.min_args {
            if args_length < len {
                return Err(Error::ArgumentsLess(len));
            }
        }
        Ok(())
    }

    pub fn is_enough(&self) -> (r: bool)
        ensures
            r == self.model().is_enough(),
    {
        proof {
            self.lemma_children();
        }
        match self.operator.get_max_args() {
            Some(value) => self.children.len() == value,
            None => false,
        }
    }

    pub fn is_value_or_full_children(&self) -> (r: bool)
        ensures
            r == self.model().is_value_or_full_children(),
    {
        if self.operator.is_value_or_ident() {
            true
        } else if self.operator.can_have_child() {
            if self.closed {
                true
            } else {
                self.is_enough()
            }
        } else {
            false
        }
    }

    pub fn is_unclosed_arithmetic(&self) -> (r: bool)
        ensures
            r == self.model().is_unclosed_arithmetic(),
    {
        !self.closed && self.operator.can_have_child()
    }

    pub fn is_unclosed_function(&self) -> (r: bool)
        ensures
            r == self.model().is_unclosed_function(),
    {
        match self.operator {
            Operator::Function(_) => !self.closed,
            _ => false,
        }
    }

    pub fn is_unclosed_square_bracket(&self) -> (r: bool)
        ensures
            r == self.model().is_unclosed_square_bracket(),
    {
        match self.operator {
            Operator::LeftSquareBracket(_) => !self.closed,
            _ => false,
        }
    }

    pub fn is_left_square_bracket(&self) -> (r: bool)
        ensures
            r == (self.model().operator is LeftSquareBracket),
    {
        self.operator.is_left_square_bracket()
    }

    pub fn is_dot(&self) -> (r: bool)
        ensures
            r == (self.model().operator is Dot),
    {
        self.operator.is_dot()
    }

    pub fn add_child(&mut self, node: Node)
        ensures
            final(self).model() == old(self).model().with_child(node.model()),
    {
        self.children.push(node);
        assert(final(self).model().children =~= old(self).model().children.push(node.model()));
    }

    /// Marks the node as closed, or as open again.
    pub fn set_closed(&mut self, closed: bool)
        ensures
            final(self).model() == old(self).model().with_closed(closed),
    {
        self.closed = closed;
        assert(final(self).model().children =~= old(self).model().children);
    }

    pub fn get_first_child(&self) -> (r: Node)
        requires
            self.model().children.len() > 0,
        ensures
            r.model() == self.model().children.first(),
    {
        proof {
            self.lemma_children();
        }
        self.children[0].duplicate()
    }

    pub fn get_last_child(&self) -> (r: Node)
        requires
            self.model().children.len() > 0,
        ensures
            r.model() == self.model().children.last(),
    {
        proof {
            self.lemma_children();
        }
        self.children[self.children.len() - 1].duplicate()
    }

    pub fn move_out_last_node(&mut self) -> (r: Node)
        requires
            old(self).model().children.len() > 0,
        ensures
            r.model() == old(self).model().children.last(),
            final(self).model() == (NodeModel {
                children: old(self).model().children.drop_last(),
                ..old(self).model()
            }),
    {
        proof {
            self.lemma_children();
        }
        let r = self.children.pop().unwrap();
        assert(final(self).model().children =~= old(self).model().children.drop_last());
        r
    }
}

} // verus!
