//! The lexer: the scan for cut points, and the pass that turns the raw
//! tokens between them into operators.
use vstd::prelude::*;
use vstd::string::{StrSliceExecFns, StringExecFns};
use crate::operator::{Operator, OperatorModel, operator_of};
use crate::error::{Error, ErrorModel};
use crate::value::{Value, ValueModel, text_eq};
use crate::number::{float_syntax, is_float_text};

verus! {

/// Whether a character is cut off as a token of its own outside double
/// quotes.
pub open spec fn is_cut_char(c: char) -> bool {
    c == '(' || c == ')' || c == '+' || c == '-' || c == '*' || c == '/' || c == ',' || c == ' '
        || c == '!' || c == '=' || c == '>' || c == '<' || c == '\'' || c == '[' || c == ']' || c
        == '.' || c == '%' || c == '&' || c == '|'
}

/// Whether a double quote stands open after the first `n` characters.
pub open spec fn quote_open(raw: Seq<char>, n: int) -> bool
    decreases n,
{
    if n <= 0 {
        false
    } else {
        quote_open(raw, n - 1) != (raw[n - 1] == '"')
    }
}

/// The cut points that the first `n` characters give: both sides of every
/// double quote, and of every cut character outside double quotes.
pub open spec fn cuts(raw: Seq<char>, n: int) -> Seq<usize>
    decreases n,
{
    if n <= 0 {
        Seq::empty()
    } else if raw[n - 1] == '"' || (is_cut_char(raw[n - 1]) && !quote_open(raw, n - 1)) {
        cuts(raw, n - 1).push((n - 1) as usize).push(n as usize)
    } else {
        cuts(raw, n - 1)
    }
}

/// The positions between which the raw tokens of a text lie. The last one
/// is the length of the text, in characters.
pub open spec fn positions(raw: Seq<char>) -> Seq<usize> {
    cuts(raw, raw.len() as int).push(raw.len() as usize)
}

pub fn cut_char(c: char) -> (r: bool)
    ensures
        r == is_cut_char(c),
{
    c == '(' || c == ')' || c == '+' || c == '-' || c == '*' || c == '/' || c == ',' || c == ' '
        || c == '!' || c == '=' || c == '>' || c == '<' || c == '\'' || c == '[' || c == ']' || c
        == '.' || c == '%' || c == '&' || c == '|'
}

/// The cut points of a text.
pub fn scan_positions(raw: &str) -> (pos: Vec<usize>)
    ensures
        pos@ == positions(raw@),
{
    let n = raw.unicode_len();
    let mut found_quote = false;
    let mut pos: Vec<usize> = Vec::new();
    let mut index: usize = 0;
    while index < n
        invariant
            n == raw@.len(),
            index <= n,
            pos@ == cuts(raw@, index as int),
            found_quote == quote_open(raw@, index as int),
        decreases n - index,
    {
        let cur = raw.get_char(index);
        if cur == '"' {
            found_quote = !found_quote;
            pos.push(index);
            pos.push(index + 1);
        } else if cut_char(cur) && !found_quote {
            pos.push(index);
            pos.push(index + 1);
        }
        index = index + 1;
    }
    pos.push(n);
    pos
}

#[derive(Clone, Copy, Debug, PartialEq, Eq, Structural)]
pub enum Quote {
    Double,
    Single,
}

/// What the second pass remembers between two raw tokens.
pub struct LexModel {
    /// The operators emitted so far.
    pub operators: Seq<OperatorModel>,
    /// Where the last raw token ended.
    pub end: usize,
    /// Opening minus closing parentheses.
    pub parenthesis: int,
    /// The quote that stands open.
    pub quote: Option<Quote>,
    /// The text gathered inside quotes, or the last token, by which a
    /// two-character operator is told.
    pub prev: Seq<char>,
    /// The number gathered so far.
    pub number: Seq<char>,
}

pub struct LexState {
    pub operators: Vec<Operator>,
    pub end: usize,
    pub parenthesis: i128,
    pub quote: Option<Quote>,
    pub prev: String,
    pub number: String,
}

/// The models of a sequence of operators, item by item.
pub open spec fn operator_models(ops: Seq<Operator>) -> Seq<OperatorModel> {
    Seq::new(ops.len(), |i: int| ops[i].model())
}

impl LexState {
    pub open spec fn model(&self) -> LexModel {
        LexModel {
            operators: operator_models(self.operators@),
            end: self.end,
            parenthesis: self.parenthesis as int,
            quote: self.quote,
            prev: self.prev@,
            number: self.number@,
        }
    }
}

impl LexModel {
    pub open spec fn initial() -> LexModel {
        LexModel {
            operators: Seq::empty(),
            end: 0,
            parenthesis: 0,
            quote: None,
            prev: Seq::empty(),
            number: Seq::empty(),
        }
    }

    pub open spec fn emit(self, op: OperatorModel) -> LexModel {
        LexModel { operators: self.operators.push(op), ..self }
    }

    pub open spec fn with_prev(self, prev: Seq<char>) -> LexModel {
        LexModel { prev, ..self }
    }

    /// A pending `!`, `>` or `<`, emitted now that no `=` follows it.
    pub open spec fn flush_head(self) -> LexModel {
        if is_comparison_head(self.prev) {
            self.emit(operator_of(self.prev)).with_prev(Seq::empty())
        } else {
            self
        }
    }

    /// The pending number, if any, emitted as one operator.
    pub open spec fn flush_number(self) -> LexModel {
        if self.number.len() > 0 {
            LexModel {
                operators: self.operators.push(operator_of(self.number)),
                number: Seq::empty(),
                ..self
            }
        } else {
            self
        }
    }
}

/// Whether `s` is `!`, `>` or `<`: a symbol that an `=` may follow.
pub open spec fn is_comparison_head(s: Seq<char>) -> bool {
    s == "!"@ || s == ">"@ || s == "<"@
}

/// Whether `s` is `&` or `|`.
pub open spec fn is_logical_half(s: Seq<char>) -> bool {
    s == "&"@ || s == "|"@
}

/// The quote that a token is, if it is one.
pub open spec fn quote_of(op: OperatorModel) -> Option<Quote> {
    match op {
        OperatorModel::DoubleQuotes => Some(Quote::Double),
        OperatorModel::SingleQuote => Some(Quote::Single),
        _ => None,
    }
}

/// The state after one non-empty raw token outside quotes, once a pending
/// number has been dealt with.
pub open spec fn lex_symbol(state: LexModel, raw: Seq<char>) -> Result<LexModel, ErrorModel> {
    let operator = operator_of(raw);
    if raw == "="@ {
        if is_comparison_head(state.prev) || state.prev == "="@ {
            Ok(state.emit(operator_of(state.prev + "="@)).with_prev(Seq::empty()))
        } else {
            Ok(state.with_prev(raw))
        }
    } else if is_comparison_head(raw) {
        if is_comparison_head(state.prev) {
            Ok(state.emit(operator_of(state.prev)).with_prev(Seq::empty()))
        } else {
            Ok(state.with_prev(raw))
        }
    } else {
        let state = state.flush_head();
        if is_logical_half(raw) && is_logical_half(state.prev) {
            if raw == state.prev {
                Ok(state.emit(operator_of(state.prev + raw)).with_prev(Seq::empty()))
            } else {
                Err(ErrorModel::UnsupportedOperator(state.prev))
            }
        } else if is_logical_half(raw) {
            Ok(state.with_prev(raw))
        } else if operator is WhiteSpace {
            Ok(state)
        } else if operator is LeftParenthesis && state.operators.len() > 0
            && state.operators.last() is Identifier {
            Ok(
                LexModel {
                    operators: state.operators.drop_last().push(
                        OperatorModel::Function(state.operators.last().identifier()),
                    ).push(operator),
                    parenthesis: state.parenthesis + 1,
                    ..state
                },
            )
        } else {
            Ok(
                LexModel {
                    operators: state.operators.push(operator),
                    parenthesis: state.parenthesis + (if operator is LeftParenthesis {
                        1int
                    } else if operator is RightParenthesis {
                        -1int
                    } else {
                        0int
                    }),
                    prev: raw,
                    ..state
                },
            )
        }
    }
}

/// The state after one non-empty raw token. A lone `=` before it is
/// refused. Inside quotes the token is text. Outside, a quote opens, a
/// number or a point within a number is gathered, and anything else is a
/// symbol; a `!`, `>` or `<` that waited for an `=` is emitted first.
pub open spec fn lex_token(state: LexModel, raw: Seq<char>) -> Result<LexModel, ErrorModel> {
    let operator = operator_of(raw);
    if state.quote is None && state.prev == "="@ && raw != "="@ && !(operator is WhiteSpace) {
        Err(ErrorModel::UnsupportedOperator(state.prev))
    } else if state.quote is None && quote_of(operator) is Some {
        Ok(LexModel { quote: quote_of(operator), prev: Seq::empty(), ..state.flush_head() })
    } else if state.quote is Some && state.quote == quote_of(operator) {
        Ok(
            LexModel {
                operators: state.operators.push(OperatorModel::Value(ValueModel::String(state.prev))),
                quote: None,
                prev: Seq::empty(),
                ..state
            },
        )
    } else if state.quote is Some {
        Ok(state.with_prev(state.prev + raw))
    } else if float_syntax(raw) || (operator is Dot && state.number.len() > 0) {
        Ok(LexModel { number: state.number + raw, ..state.flush_head() })
    } else {
        lex_symbol(state.flush_number(), raw)
    }
}

/// The state after the position `pos`: the raw token runs from the end of
/// the last one to `pos`. Position 0 is passed over; so is a token that is
/// empty, and a position that lies before the last one or beyond the text.
pub open spec fn lex_position(state: LexModel, text: Seq<char>, pos: usize) -> Result<
    LexModel,
    ErrorModel,
> {
    if pos == 0 {
        Ok(state)
    } else if state.end < pos <= text.len() {
        lex_token(LexModel { end: pos, ..state }, text.subrange(state.end as int, pos as int))
    } else {
        Ok(LexModel { end: pos, ..state })
    }
}

pub open spec fn lex_from(state: LexModel, text: Seq<char>, pos: Seq<usize>) -> Result<
    LexModel,
    ErrorModel,
>
    decreases pos.len(),
{
    if pos.len() == 0 {
        Ok(state)
    } else {
        match lex_position(state, text, pos[0]) {
            Ok(next) => lex_from(next, text, pos.subrange(1, pos.len() as int)),
            Err(e) => Err(e),
        }
    }
}

/// The operators at the end of the input: a pending number is emitted; a
/// lone `=` is refused, and so are parentheses that do not pair.
pub open spec fn lex_finish(state: LexModel) -> Result<Seq<OperatorModel>, ErrorModel> {
    if state.quote is None && state.prev == "="@ {
        Err(ErrorModel::UnsupportedOperator(state.prev))
    } else if state.parenthesis != 0 {
        Err(ErrorModel::UnpairedBrackets)
    } else {
        Ok(state.flush_number().operators)
    }
}

/// The operator stream of a text that is cut at the positions `pos`.
pub open spec fn lex(text: Seq<char>, pos: Seq<usize>) -> Result<Seq<OperatorModel>, ErrorModel> {
    match lex_from(LexModel::initial(), text, pos) {
        Ok(state) => lex_finish(state),
        Err(e) => Err(e),
    }
}

pub fn push_operator(ops: &mut Vec<Operator>, op: Operator)
    ensures
        operator_models(final(ops)@) == operator_models(old(ops)@).push(op.model()),
{
    ops.push(op);
    assert(operator_models(final(ops)@) =~= operator_models(old(ops)@).push(op.model()));
}

pub fn comparison_head(s: &str) -> (r: bool)
    ensures
        r == is_comparison_head(s@),
{
    text_eq(s, "!") || text_eq(s, ">") || text_eq(s, "<")
}

pub fn logical_half(s: &str) -> (r: bool)
    ensures
        r == is_logical_half(s@),
{
    text_eq(s, "&") || text_eq(s, "|")
}

impl LexState {
    pub fn new() -> (r: LexState)
        ensures
            r.model() == LexModel::initial(),
    {
        let r = LexState {
            operators: Vec::new(),
            end: 0,
            parenthesis: 0,
            quote: None,
            prev: String::new(),
            number: String::new(),
        };
        assert(r.model().operators =~= Seq::empty());
        r
    }

    /// Emits the operator that the text `prev`, with `tail` behind it,
    /// denotes, and forgets `prev`.
    fn emit_prev(&mut self, tail: &str)
        ensures
            final(self).model() == old(self).model().emit(
                operator_of(old(self).prev@ + tail@),
            ).with_prev(Seq::empty()),
    {
        self.prev.append(tail);
        let op = Operator::from_str(self.prev.as_str());
        push_operator(&mut self.operators, op);
        self.prev = String::new();
    }

    fn flush_head(&mut self)
        ensures
            final(self).model() == old(self).model().flush_head(),
            final(self).parenthesis == old(self).parenthesis,
    {
        proof {
            reveal_strlit("");
            assert(self.prev@ + ""@ =~= self.prev@);
        }
        if comparison_head(self.prev.as_str()) {
            self.emit_prev("");
        }
    }

    fn flush_number(&mut self)
        ensures
            final(self).model() == old(self).model().flush_number(),
    {
        if !self.number.as_str().is_empty() {
            let op = Operator::from_str(self.number.as_str());
            push_operator(&mut self.operators, op);
            self.number = String::new();
        }
    }

    fn symbol(&mut self, raw: &str) -> (r: Result<(), Error>)
        requires
            i128::MIN < old(self).parenthesis < i128::MAX,
        ensures
            match lex_symbol(old(self).model(), raw@) {
                Ok(next) => r is Ok && final(self).model() == next && -1 <= final(self).parenthesis
                    - old(self).parenthesis <= 1,
                Err(e) => r is Err && r->Err_0.model() == e,
            },
    {
        proof {
            reveal_strlit("");
            assert(self.prev@ + ""@ =~= self.prev@);
        }
        let operator = Operator::from_str(raw);
        if text_eq(raw, "=") {
            if comparison_head(self.prev.as_str()) || text_eq(self.prev.as_str(), "=") {
                self.emit_prev("=");
            } else {
                self.prev = String::from_str(raw);
            }
            return Ok(());
        } else if comparison_head(raw) {
            if comparison_head(self.prev.as_str()) {
                self.emit_prev("");
            } else {
                self.prev = String::from_str(raw);
            }
            return Ok(());
        }
        self.flush_head();
        if logical_half(raw) && logical_half(self.prev.as_str()) {
            if text_eq(raw, self.prev.as_str()) {
                self.emit_prev(raw);
                return Ok(());
            } else {
                return Err(Error::UnsupportedOperator(self.prev.clone()));
            }
        } else if logical_half(raw) {
            self.prev = String::from_str(raw);
            return Ok(());
        }
        match operator {
            Operator::WhiteSpace => {
                return Ok(());
            },
            Operator::LeftParenthesis => {
                self.parenthesis = self.parenthesis + 1;
                if self.operators.len() > 0 {
                    let ghost before = operator_models(self.operators@);
                    let prev_operator = self.operators.pop().unwrap();
                    assert(operator_models(self.operators@) =~= before.drop_last());
                    if prev_operator.is_identifier() {
                        let name = String::from_str(prev_operator.get_identifier());
                        push_operator(&mut self.operators, Operator::Function(name));
                        push_operator(&mut self.operators, operator);
                        return Ok(());
                    } else {
                        push_operator(&mut self.operators, prev_operator);
                        assert(operator_models(self.operators@) =~= before);
                    }
                }
            },
            Operator::RightParenthesis => {
                self.parenthesis = self.parenthesis - 1;
            },
            _ => {},
        }
        self.prev = String::from_str(raw);
        push_operator(&mut self.operators, operator);
        Ok(())
    }

    /// Takes in one non-empty raw token.
    pub fn token(&mut self, raw: &str) -> (r: Result<(), Error>)
        requires
            i128::MIN < old(self).parenthesis < i128::MAX,
        ensures
            match lex_token(old(self).model(), raw@) {
                Ok(next) => r is Ok && final(self).model() == next && -1 <= final(self).parenthesis
                    - old(self).parenthesis <= 1,
                Err(e) => r is Err && r->Err_0.model() == e,
            },
    {
        let operator = Operator::from_str(raw);
        let kind = match operator {
            Operator::DoubleQuotes => Some(Quote::Double),
            Operator::SingleQuote => Some(Quote::Single),
            _ => None,
        };
        let is_space = match operator {
            Operator::WhiteSpace => true,
            _ => false,
        };
        match self.quote {
            None => {
                if text_eq(self.prev.as_str(), "=") && !text_eq(raw, "=") && !is_space {
                    return Err(Error::UnsupportedOperator(self.prev.clone()));
                }
                if kind.is_some() {
                    self.flush_head();
                    self.quote = kind;
                    self.prev = String::new();
                    return Ok(());
                }
            },
            Some(open) => {
                if kind == Some(open) {
                    let text = self.prev.clone();
                    push_operator(&mut self.operators, Operator::Value(Value::String(text)));
                    self.prev = String::new();
                    self.quote = None;
                } else {
                    self.prev.append(raw);
                }
                return Ok(());
            },
        }
        if is_float_text(raw) || (operator.is_dot() && !self.number.as_str().is_empty()) {
            self.flush_head();
            self.number.append(raw);
            return Ok(());
        }
        self.flush_number();
        self.symbol(raw)
    }

    /// Ends the input.
    pub fn finish(self) -> (r: Result<Vec<Operator>, Error>)
        ensures
            match lex_finish(self.model()) {
                Ok(ops) => r is Ok && operator_models(r->Ok_0@) == ops,
                Err(e) => r is Err && r->Err_0.model() == e,
            },
    {
        let mut state = self;
        if state.quote.is_none() && text_eq(state.prev.as_str(), "=") {
            Err(Error::UnsupportedOperator(state.prev))
        } else if state.parenthesis != 0 {
            Err(Error::UnpairedBrackets)
        } else {
            state.flush_number();
            Ok(state.operators)
        }
    }
}

/// The operator stream of `text`, cut at the positions `pos`.
pub fn scan_operators(text: &str, pos: &Vec<usize>) -> (r: Result<Vec<Operator>, Error>)
    ensures
        match lex(text@, pos@) {
            Ok(ops) => r is Ok && operator_models(r->Ok_0@) == ops,
            Err(e) => r is Err && r->Err_0.model() == e,
        },
{
    let n = text.unicode_len();
    let mut state = LexState::new();
    let mut i: usize = 0;
    assert(pos@.subrange(0, pos@.len() as int) =~= pos@);
    while i < pos.len()
        invariant
            n == text@.len(),
            i <= pos.len(),
            -(i as int) <= state.parenthesis <= i as int,
            lex_from(LexModel::initial(), text@, pos@) == lex_from(
                state.model(),
                text@,
                pos@.subrange(i as int, pos@.len() as int),
            ),
        decreases pos.len() - i,
    {
        let ghost rest = pos@.subrange(i as int, pos@.len() as int);
        assert(rest[0] == pos@[i as int]);
        assert(rest.subrange(1, rest.len() as int) =~= pos@.subrange(i + 1, pos@.len() as int));
        let p = pos[i];
        if p != 0 {
            let start = state.end;
            state.end = p;
            if start < p && p <= n {
                let raw = text.substring_char(start, p);
                match state.token(raw) {
                    Ok(()) => {},
                    Err(e) => {
                        return Err(e);
                    },
                }
            }
        }
        i = i + 1;
    }
    state.finish()
}

} // verus!
