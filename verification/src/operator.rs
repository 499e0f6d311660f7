//! The operator catalog: the kinds of token, their priorities, arities and
//! classes, and the mapping from token text to operator.
use vstd::prelude::*;
use vstd::string::StringExecFns;
use crate::value::{Value, ValueModel, text_eq};
use crate::node::{Node, NodeModel};

verus! {

/// A token of an expression. The arithmetic, comparison, logical and member
/// operators carry their priority: the higher, the tighter they bind.
#[derive(Debug)]
pub enum Operator {
    Add(u8),
    Sub(u8),
    Mul(u8),
    Div(u8),
    Rem(u8),
    Not(u8),
    Eq(u8),
    Ne(u8),
    Gt(u8),
    Lt(u8),
    Ge(u8),
    Le(u8),
    And(u8),
    Or(u8),
    Dot(u8),
    LeftSquareBracket(u8),
    LeftParenthesis,
    RightParenthesis,
    RightSquareBracket,
    DoubleQuotes,
    SingleQuote,
    WhiteSpace,
    Comma,
    Function(String),
    Identifier(String),
    Value(Value),
}

pub enum OperatorModel {
    Add(u8),
    Sub(u8),
    Mul(u8),
    Div(u8),
    Rem(u8),
    Not(u8),
    Eq(u8),
    Ne(u8),
    Gt(u8),
    Lt(u8),
    Ge(u8),
    Le(u8),
    And(u8),
    Or(u8),
    Dot(u8),
    LeftSquareBracket(u8),
    LeftParenthesis,
    RightParenthesis,
    RightSquareBracket,
    DoubleQuotes,
    SingleQuote,
    WhiteSpace,
    Comma,
    Function(Seq<char>),
    Identifier(Seq<char>),
    Value(ValueModel),
}

impl OperatorModel {
    /// The priority that the operator carries; 255 for a value or an
    /// identifier, 0 for every other token.
    pub open spec fn priority(self) -> u8 {
        match self {
            OperatorModel::Add(p) => p,
            OperatorModel::Sub(p) => p,
            OperatorModel::Mul(p) => p,
            OperatorModel::Div(p) => p,
            OperatorModel::Rem(p) => p,
            OperatorModel::Not(p) => p,
            OperatorModel::Eq(p) => p,
            OperatorModel::Ne(p) => p,
            OperatorModel::Gt(p) => p,
            OperatorModel::Lt(p) => p,
            OperatorModel::Ge(p) => p,
            OperatorModel::Le(p) => p,
            OperatorModel::And(p) => p,
            OperatorModel::Or(p) => p,
            OperatorModel::Dot(p) => p,
            OperatorModel::LeftSquareBracket(p) => p,
            OperatorModel::Value(_) | OperatorModel::Identifier(_) => 255,
            _ => 0,
        }
    }

    /// Whether the operator carries a priority.
    pub open spec fn has_priority(self) -> bool {
        match self {
            OperatorModel::Add(_) | OperatorModel::Sub(_) | OperatorModel::Mul(_) | OperatorModel::Div(_) | OperatorModel::Rem(_) | OperatorModel::Not(_) | OperatorModel::Eq(_) | OperatorModel::Ne(_) | OperatorModel::Gt(_) | OperatorModel::Lt(_) | OperatorModel::Ge(_) | OperatorModel::Le(_) | OperatorModel::And(_) | OperatorModel::Or(_) | OperatorModel::Dot(_) | OperatorModel::LeftSquareBracket(_) => true,
            _ => false,
        }
    }

    /// The number of children that fills a node of this operator; `None`
    /// where it is unbounded.
    pub open spec fn max_args(self) -> Option<usize> {
        match self {
            OperatorModel::Not(_) => Some(1),
            OperatorModel::Function(_) | OperatorModel::Dot(_) | OperatorModel::LeftSquareBracket(_) => None,
            _ => if self.has_priority() {
                Some(2)
            } else {
                Some(0)
            },
        }
    }

    pub open spec fn can_at_beginning(self) -> bool {
        self is Sub || self is Not || self is LeftParenthesis || self is Add
    }

    pub open spec fn can_have_child(self) -> bool {
        self.has_priority() || self is Function
    }

    pub open spec fn is_value_or_ident(self) -> bool {
        self is Value || self is Identifier
    }

    pub open spec fn is_left(self) -> bool {
        self is LeftParenthesis || self is LeftSquareBracket || self is Function
    }

    /// The opening bracket that a closing bracket answers.
    pub open spec fn left(self) -> OperatorModel {
        if self is RightSquareBracket {
            OperatorModel::LeftSquareBracket(7)
        } else {
            OperatorModel::LeftParenthesis
        }
    }

    /// The name that an identifier or a function carries; empty otherwise.
    pub open spec fn identifier(self) -> Seq<char> {
        match self {
            OperatorModel::Identifier(name) => name,
            OperatorModel::Function(name) => name,
            _ => Seq::empty(),
        }
    }

    /// A fresh open node of this operator, without children.
    pub open spec fn to_node(self) -> NodeModel {
        NodeModel { operator: self, children: Seq::empty(), closed: false }
    }
}

/// The operator that a token's text denotes. Every text that is no operator
/// symbol and no boolean literal is an identifier, numbers included.
pub open spec fn operator_of(raw: Seq<char>) -> OperatorModel {
    if raw == "+"@ {
        OperatorModel::Add(4)
    } else if raw == "-"@ {
        OperatorModel::Sub(4)
    } else if raw == "*"@ {
        OperatorModel::Mul(5)
    } else if raw == "/"@ {
        OperatorModel::Div(5)
    } else if raw == "%"@ {
        OperatorModel::Rem(5)
    } else if raw == "!"@ {
        OperatorModel::Not(6)
    } else if raw == "=="@ {
        OperatorModel::Eq(3)
    } else if raw == "!="@ {
        OperatorModel::Ne(3)
    } else if raw == ">"@ {
        OperatorModel::Gt(3)
    } else if raw == "<"@ {
        OperatorModel::Lt(3)
    } else if raw == ">="@ {
        OperatorModel::Ge(3)
    } else if raw == "<="@ {
        OperatorModel::Le(3)
    } else if raw == "&&"@ {
        OperatorModel::And(2)
    } else if raw == "||"@ {
        OperatorModel::Or(1)
    } else if raw == "."@ {
        OperatorModel::Dot(7)
    } else if raw == "["@ {
        OperatorModel::LeftSquareBracket(7)
    } else if raw == "("@ {
        OperatorModel::LeftParenthesis
    } else if raw == ")"@ {
        OperatorModel::RightParenthesis
    } else if raw == "]"@ {
        OperatorModel::RightSquareBracket
    } else if raw == "\""@ {
        OperatorModel::DoubleQuotes
    } else if raw == "'"@ {
        OperatorModel::SingleQuote
    } else if raw == " "@ {
        OperatorModel::WhiteSpace
    } else if raw == ","@ {
        OperatorModel::Comma
    } else if raw == "false"@ {
        OperatorModel::Value(ValueModel::Bool(false))
    } else if raw == "true"@ {
        OperatorModel::Value(ValueModel::Bool(true))
    } else {
        OperatorModel::Identifier(raw)
    }
}

impl Operator {
    pub open spec fn model(&self) -> OperatorModel {
        match self {
            Operator::Add(p) => OperatorModel::Add(*p),
            Operator::Sub(p) => OperatorModel::Sub(*p),
            Operator::Mul(p) => OperatorModel::Mul(*p),
            Operator::Div(p) => OperatorModel::Div(*p),
            Operator::Rem(p) => OperatorModel::Rem(*p),
            Operator::Not(p) => OperatorModel::Not(*p),
            Operator::Eq(p) => OperatorModel::Eq(*p),
            Operator::Ne(p) => OperatorModel::Ne(*p),
            Operator::Gt(p) => OperatorModel::Gt(*p),
            Operator::Lt(p) => OperatorModel::Lt(*p),
            Operator::Ge(p) => OperatorModel::Ge(*p),
            Operator::Le(p) => OperatorModel::Le(*p),
            Operator::And(p) => OperatorModel::And(*p),
            Operator::Or(p) => OperatorModel::Or(*p),
            Operator::Dot(p) => OperatorModel::Dot(*p),
            Operator::LeftSquareBracket(p) => OperatorModel::LeftSquareBracket(*p),
            Operator::LeftParenthesis => OperatorModel::LeftParenthesis,
            Operator::RightParenthesis => OperatorModel::RightParenthesis,
            Operator::RightSquareBracket => OperatorModel::RightSquareBracket,
            Operator::DoubleQuotes => OperatorModel::DoubleQuotes,
            Operator::SingleQuote => OperatorModel::SingleQuote,
            Operator::WhiteSpace => OperatorModel::WhiteSpace,
            Operator::Comma => OperatorModel::Comma,
            Operator::Function(name) => OperatorModel::Function(name@),
            Operator::Identifier(name) => OperatorModel::Identifier(name@),
            Operator::Value(v) => OperatorModel::Value(v.model()),
        }
    }

    /// A deep copy.
    pub fn duplicate(&self) -> (r: Operator)
        ensures
            r.model() == self.model(),
    {
        match self {
            Operator::Add(p) => Operator::Add(*p),
            Operator::Sub(p) => Operator::Sub(*p),
            Operator::Mul(p) => Operator::Mul(*p),
            Operator::Div(p) => Operator::Div(*p),
            Operator::Rem(p) => Operator::Rem(*p),
            Operator::Not(p) => Operator::Not(*p),
            Operator::Eq(p) => Operator::Eq(*p),
            Operator::Ne(p) => Operator::Ne(*p),
            Operator::Gt(p) => Operator::Gt(*p),
            Operator::Lt(p) => Operator::Lt(*p),
            Operator::Ge(p) => Operator::Ge(*p),
            Operator::Le(p) => Operator::Le(*p),
            Operator::And(p) => Operator::And(*p),
            Operator::Or(p) => Operator::Or(*p),
            Operator::Dot(p) => Operator::Dot(*p),
            Operator::LeftSquareBracket(p) => Operator::LeftSquareBracket(*p),
            Operator::LeftParenthesis => Operator::LeftParenthesis,
            Operator::RightParenthesis => Operator::RightParenthesis,
            Operator::RightSquareBracket => Operator::RightSquareBracket,
            Operator::DoubleQuotes => Operator::DoubleQuotes,
            Operator::SingleQuote => Operator::SingleQuote,
            Operator::WhiteSpace => Operator::WhiteSpace,
            Operator::Comma => Operator::Comma,
            Operator::Function(name) => Operator::Function(name.clone()),
            Operator::Identifier(name) => Operator::Identifier(name.clone()),
            Operator::Value(v) => Operator::Value(v.duplicate()),
        }
    }

    pub fn from_str(raw: &str) -> (r: Operator)
        ensures
            r.model() == operator_of(raw@),
    {
        if text_eq(raw, "+") {
            Operator::Add(4)
        } else if text_eq(raw, "-") {
            Operator::Sub(4)
        } else if text_eq(raw, "*") {
            Operator::Mul(5)
        } else if text_eq(raw, "/") {
            Operator::Div(5)
        } else if text_eq(raw, "%") {
            Operator::Rem(5)
        } else if text_eq(raw, "!") {
            Operator::Not(6)
        } else if text_eq(raw, "==") {
            Operator::Eq(3)
        } else if text_eq(raw, "!=") {
            Operator::Ne(3)
        } else if text_eq(raw, ">") {
            Operator::Gt(3)
        } else if text_eq(raw, "<") {
            Operator::Lt(3)
        } else if text_eq(raw, ">=") {
            Operator::Ge(3)
        } else if text_eq(raw, "<=") {
            Operator::Le(3)
        } else if text_eq(raw, "&&") {
            Operator::And(2)
        } else if text_eq(raw, "||") {
            Operator::Or(1)
        } else if text_eq(raw, ".") {
            Operator::Dot(7)
        } else if text_eq(raw, "[") {
            Operator::LeftSquareBracket(7)
        } else if text_eq(raw, "(") {
            Operator::LeftParenthesis
        } else if text_eq(raw, ")") {
            Operator::RightParenthesis
        } else if text_eq(raw, "]") {
            Operator::RightSquareBracket
        } else if text_eq(raw, "\"") {
            Operator::DoubleQuotes
        } else if text_eq(raw, "'") {
            Operator::SingleQuote
        } else if text_eq(raw, " ") {
            Operator::WhiteSpace
        } else if text_eq(raw, ",") {
            Operator::Comma
        } else if text_eq(raw, "false") {
            Operator::Value(Value::Bool(false))
        } else if text_eq(raw, "true") {
            Operator::Value(Value::Bool(true))
        } else {
            Operator::Identifier(String::from_str(raw))
        }
    }

    pub fn get_priority(&self) -> (r: u8)
        ensures
            r == self.model().priority(),
    {
        match self {
            Operator::Add(p) => *p,
            Operator::Sub(p) => *p,
            Operator::Mul(p) => *p,
            Operator::Div(p) => *p,
            Operator::Rem(p) => *p,
            Operator::Not(p) => *p,
            Operator::Eq(p) => *p,
            Operator::Ne(p) => *p,
            Operator::Gt(p) => *p,
            Operator::Lt(p) => *p,
            Operator::Ge(p) => *p,
            Operator::Le(p) => *p,
            Operator::And(p) => *p,
            Operator::Or(p) => *p,
            Operator::Dot(p) => *p,
            Operator::LeftSquareBracket(p) => *p,
            Operator::Value(_) | Operator::Identifier(_) => 255,
            _ => 0,
        }
    }

    /// The priority that the operator carries, if it carries one.
    pub fn carried_priority(&self) -> (r: Option<u8>)
        ensures
            r is Some == self.model().has_priority(),
            r is Some ==> r.unwrap() == self.model().priority(),
    {
        match self {
            Operator::Add(p) => Some(*p),
            Operator::Sub(p) => Some(*p),
            Operator::Mul(p) => Some(*p),
            Operator::Div(p) => Some(*p),
            Operator::Rem(p) => Some(*p),
            Operator::Not(p) => Some(*p),
            Operator::Eq(p) => Some(*p),
            Operator::Ne(p) => Some(*p),
            Operator::Gt(p) => Some(*p),
            Operator::Lt(p) => Some(*p),
            Operator::Ge(p) => Some(*p),
            Operator::Le(p) => Some(*p),
            Operator::And(p) => Some(*p),
            Operator::Or(p) => Some(*p),
            Operator::Dot(p) => Some(*p),
            Operator::LeftSquareBracket(p) => Some(*p),
            _ => None,
        }
    }

    pub fn get_max_args(&self) -> (r: Option<usize>)
        ensures
            r == self.model().max_args(),
    {
        match self {
            Operator::Not(_) => Some(1),
            Operator::Function(_) | Operator::Dot(_) | Operator::LeftSquareBracket(_) => None,
            _ => if self.carried_priority().is_some() {
                Some(2)
            } else {
                Some(0)
            },
        }
    }

    pub fn can_at_beginning(&self) -> (r: bool)
        ensures
            r == self.model().can_at_beginning(),
    {
        match self {
            Operator::Sub(_) | Operator::Not(_) | Operator::LeftParenthesis | Operator::Add(_) => true,
            _ => false,
        }
    }

    pub fn can_have_child(&self) -> (r: bool)
        ensures
            r == self.model().can_have_child(),
    {
        match self {
            Operator::Function(_) => true,
            _ => self.carried_priority().is_some(),
        }
    }

    pub fn is_identifier(&self) -> (r: bool)
        ensures
            r == (self.model() is Identifier),
    {
        match self {
            Operator::Identifier(_) => true,
            _ => false,
        }
    }

    pub fn is_value_or_ident(&self) -> (r: bool)
        ensures
            r == self.model().is_value_or_ident(),
    {
        match self {
            Operator::Value(_) | Operator::Identifier(_) => true,
            _ => false,
        }
    }

    pub fn is_left(&self) -> (r: bool)
        ensures
            r == self.model().is_left(),
    {
        match self {
            Operator::LeftParenthesis | Operator::LeftSquareBracket(_) | Operator::Function(_) => true,
            _ => false,
        }
    }

    pub fn is_left_parenthesis(&self) -> (r: bool)
        ensures
            r == (self.model() is LeftParenthesis),
    {
        match self {
            Operator::LeftParenthesis => true,
            _ => false,
        }
    }

    pub fn is_left_square_bracket(&self) -> (r: bool)
        ensures
            r == (self.model() is LeftSquareBracket),
    {
        match self {
            Operator::LeftSquareBracket(_) => true,
            _ => false,
        }
    }

    pub fn is_dot(&self) -> (r: bool)
        ensures
            r == (self.model() is Dot),
    {
        match self {
            Operator::Dot(_) => true,
            _ => false,
        }
    }

    pub fn is_not(&self) -> (r: bool)
        ensures
            r == (self.model() is Not),
    {
        match self {
            Operator::Not(_) => true,
            _ => false,
        }
    }

    /// The opening bracket that this closing bracket answers.
    pub fn get_left(&self) -> (r: Operator)
        requires
            self.model() is RightParenthesis || self.model() is RightSquareBracket,
        ensures
            r.model() == self.model().left(),
    {
        match self {
            Operator::RightSquareBracket => Operator::LeftSquareBracket(7),
            _ => Operator::LeftParenthesis,
        }
    }

    /// Whether this operator is the opening bracket `bracket`.
    pub fn is_bracket(&self, bracket: &Operator) -> (r: bool)
        requires
            bracket.model() is LeftParenthesis || bracket.model() is LeftSquareBracket,
        ensures
            r == (self.model() == bracket.model()),
    {
        match (self, bracket) {
            (Operator::LeftParenthesis, Operator::LeftParenthesis) => true,
            (Operator::LeftSquareBracket(a), Operator::LeftSquareBracket(b)) => *a == *b,
            _ => false,
        }
    }

    pub fn get_identifier(&self) -> (r: &str)
        ensures
            r@ == self.model().identifier(),
    {
        match self {
            Operator::Identifier(name) => name.as_str(),
            Operator::Function(name) => name.as_str(),
            _ => {
                proof {
                    reveal_strlit("");
                }
                let r = "";
                assert(r@ =~= Seq::empty());
                r
            },
        }
    }

    pub fn to_node(&self) -> (r: Node)
        ensures
            r.model() == self.model().to_node(),
    {
        Node::new(self.duplicate())
    }

    pub fn children_to_node(&self, children: Vec<Node>) -> (r: Node)
        ensures
            r.model() == (NodeModel {
                operator: self.model(),
                children: crate::node::node_models(children@),
                closed: false,
            }),
    {
        let r = Node { operator: self.duplicate(), children, closed: false };
        assert(r.model().children =~= crate::node::node_models(children@));
        r
    }
}

} // verus!
