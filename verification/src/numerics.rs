//! The floating point work that the library leaves to its host.
//!
//! The library holds floating point numbers by their bits and never computes
//! with them. Where an evaluation needs the result of parsing a number, of a
//! conversion, of an arithmetic operation or of formatting, it looks for that
//! result among the facts that its caller hands in. If the fact is there, the
//! evaluation goes on with it; if not, the evaluation stops with the query
//! that is pending. The host answers the query, records the fact and runs the
//! evaluation again. Every evaluation is a function of its arguments and of
//! the facts, so it is proved for whatever the host answers.

use crate::error::ErrorModel;
use crate::error::VesperError;
use crate::number::Float;
use crate::text::same_text;
use vstd::prelude::*;

verus! {

/// An arithmetic operator of the expression language.
#[derive(Clone, Copy, Debug, PartialEq, Eq, Structural)]
pub enum Operator {
    Add,
    Subtract,
    Multiply,
    Divide,
}

/// A question to the host about floating point numbers.
#[derive(Debug)]
pub enum NumericQuery {
    /// Which number does this text denote as a floating point literal, if
    /// any?
    Parse(String),
    /// Which floating point number is nearest to this integer?
    FromInt(i64),
    /// What does the operator make of these two numbers?
    Apply(Operator, Float, Float),
    /// How is this number written for a reader?
    Display(Float),
    /// How is this number written in the representation for debugging?
    Debug(Float),
}

/// What a query is, mathematically: its view.
pub enum QueryModel {
    Parse(Seq<char>),
    FromInt(i64),
    Apply(Operator, Float, Float),
    Display(Float),
    Debug(Float),
}

impl View for NumericQuery {
    type V = QueryModel;

    open spec fn view(&self) -> QueryModel {
        match self {
            NumericQuery::Parse(s) => QueryModel::Parse(s@),
            NumericQuery::FromInt(i) => QueryModel::FromInt(*i),
            NumericQuery::Apply(op, a, b) => QueryModel::Apply(*op, *a, *b),
            NumericQuery::Display(a) => QueryModel::Display(*a),
            NumericQuery::Debug(a) => QueryModel::Debug(*a),
        }
    }
}

/// A query together with the host's answer to it.
#[derive(Debug)]
pub enum NumericFact {
    /// The text denotes the number given, or no number.
    Parsed(String, Option<Float>),
    /// The integer converts to the number given.
    Converted(i64, Float),
    /// The operator makes of the first two numbers the third.
    Applied(Operator, Float, Float, Float),
    /// The number is written as the text for a reader.
    Displayed(Float, String),
    /// The number is written as the text for debugging.
    Debugged(Float, String),
}

impl NumericFact {
    /// The query that this fact answers.
    pub open spec fn query(self) -> QueryModel {
        match self {
            NumericFact::Parsed(s, _) => QueryModel::Parse(s@),
            NumericFact::Converted(i, _) => QueryModel::FromInt(i),
            NumericFact::Applied(op, a, b, _) => QueryModel::Apply(op, a, b),
            NumericFact::Displayed(a, _) => QueryModel::Display(a),
            NumericFact::Debugged(a, _) => QueryModel::Debug(a),
        }
    }

    /// Whether this fact answers `query`.
    pub fn answers(&self, query: &NumericQuery) -> (r: bool)
        ensures
            r == (self.query() == query@),
    {
        match self {
            NumericFact::Parsed(s, _) => match query {
                NumericQuery::Parse(t) => same_text(s.as_str(), t.as_str()),
                _ => false,
            },
            NumericFact::Converted(i, _) => match query {
                NumericQuery::FromInt(j) => *i == *j,
                _ => false,
            },
            NumericFact::Applied(op, a, b, _) => match query {
                NumericQuery::Apply(op2, a2, b2) => *op == *op2 && a.bits == a2.bits && b.bits
                    == b2.bits,
                _ => false,
            },
            NumericFact::Displayed(a, _) => match query {
                NumericQuery::Display(a2) => a.bits == a2.bits,
                _ => false,
            },
            NumericFact::Debugged(a, _) => match query {
                NumericQuery::Debug(a2) => a.bits == a2.bits,
                _ => false,
            },
        }
    }
}

/// The first of the facts `known` that answers `query`.
pub open spec fn first_answer(known: Seq<NumericFact>, query: QueryModel) -> Option<NumericFact>
    decreases known.len(),
{
    if known.len() == 0 {
        None
    } else if known[0].query() == query {
        Some(known[0])
    } else {
        first_answer(known.drop_first(), query)
    }
}

/// What the facts say that `text` denotes: `Some(None)` if they say that it
/// denotes no number, `None` if they do not say.
pub open spec fn parsed(known: Seq<NumericFact>, text: Seq<char>) -> Option<Option<Float>> {
    match first_answer(known, QueryModel::Parse(text)) {
        Some(NumericFact::Parsed(_, r)) => Some(r),
        _ => None,
    }
}

/// What the facts say that the integer `i` converts to.
pub open spec fn converted(known: Seq<NumericFact>, i: i64) -> Option<Float> {
    match first_answer(known, QueryModel::FromInt(i)) {
        Some(NumericFact::Converted(_, r)) => Some(r),
        _ => None,
    }
}

/// What the facts say that `op` makes of `a` and `b`.
pub open spec fn applied(known: Seq<NumericFact>, op: Operator, a: Float, b: Float) -> Option<
    Float,
> {
    match first_answer(known, QueryModel::Apply(op, a, b)) {
        Some(NumericFact::Applied(_, _, _, r)) => Some(r),
        _ => None,
    }
}

/// How the facts say that `a` is written for a reader.
pub open spec fn displayed(known: Seq<NumericFact>, a: Float) -> Option<Seq<char>> {
    match first_answer(known, QueryModel::Display(a)) {
        Some(NumericFact::Displayed(_, r)) => Some(r@),
        _ => None,
    }
}

/// How the facts say that `a` is written for debugging.
pub open spec fn debugged(known: Seq<NumericFact>, a: Float) -> Option<Seq<char>> {
    match first_answer(known, QueryModel::Debug(a)) {
        Some(NumericFact::Debugged(_, r)) => Some(r@),
        _ => None,
    }
}

/// Why an evaluation stopped without a result.
#[derive(Debug)]
pub enum Halt {
    /// It failed with an error.
    Failed(VesperError),
    /// It needs a fact that it was not given: the host answers the query,
    /// records the fact and runs the evaluation again.
    Pending(NumericQuery),
}

/// What a halt is, mathematically: its view.
pub enum HaltModel {
    Failed(ErrorModel),
    Pending(QueryModel),
}

impl View for Halt {
    type V = HaltModel;

    open spec fn view(&self) -> HaltModel {
        match self {
            Halt::Failed(e) => HaltModel::Failed(e@),
            Halt::Pending(q) => HaltModel::Pending(q@),
        }
    }
}

/// The facts about floating point numbers that the host has established.
#[derive(Debug)]
pub struct NumericFacts {
    pub facts: Vec<NumericFact>,
}

impl View for NumericFacts {
    type V = Seq<NumericFact>;

    open spec fn view(&self) -> Seq<NumericFact> {
        self.facts@
    }
}

impl NumericFacts {
    /// No facts.
    pub fn new() -> (r: NumericFacts)
        ensures
            r@.len() == 0,
    {
        NumericFacts { facts: Vec::new() }
    }

    /// Adds a fact after those that are there. An earlier fact on the same
    /// query keeps the word.
    pub fn record(&mut self, fact: NumericFact)
        ensures
            final(self)@ == old(self)@.push(fact),
    {
        self.facts.push(fact);
    }

    /// The first fact that answers `query`.
    pub fn lookup(&self, query: &NumericQuery) -> (r: Option<&NumericFact>)
        ensures
            match r {
                Some(fact) => first_answer(self@, query@) == Some(*fact),
                None => first_answer(self@, query@) is None,
            },
    {
        let n = self.facts.len();
        let mut i: usize = 0;
        assert(self@.subrange(0, n as int) =~= self@);
        while i < n
            invariant
                i <= n,
                n == self@.len(),
                first_answer(self@, query@) == first_answer(
                    self@.subrange(i as int, n as int),
                    query@,
                ),
            decreases n - i,
        {
            if self.facts[i].answers(query) {
                return Some(&self.facts[i]);
            }
            assert(self@.subrange(i as int, n as int).drop_first() =~= self@.subrange(
                i + 1,
                n as int,
            ));
            i += 1;
        }
        None
    }

    /// The number that `text` denotes as a floating point literal, none if it
    /// denotes no number; pending if the facts do not say.
    pub fn parse(&self, text: &str) -> (r: Result<Option<Float>, Halt>)
        ensures
            match r {
                Ok(v) => parsed(self@, text@) == Some(v),
                Err(h) => parsed(self@, text@) is None && h@ == HaltModel::Pending(
                    QueryModel::Parse(text@),
                ),
            },
    {
        let query = NumericQuery::Parse(String::from_str(text));
        match self.lookup(&query) {
            Some(NumericFact::Parsed(_, v)) => Ok(*v),
            _ => Err(Halt::Pending(query)),
        }
    }

    /// The floating point number nearest to `i`; pending if the facts do not
    /// say.
    pub fn from_int(&self, i: i64) -> (r: Result<Float, Halt>)
        ensures
            match r {
                Ok(v) => converted(self@, i) == Some(v),
                Err(h) => converted(self@, i) is None && h@ == HaltModel::Pending(
                    QueryModel::FromInt(i),
                ),
            },
    {
        let query = NumericQuery::FromInt(i);
        match self.lookup(&query) {
            Some(NumericFact::Converted(_, v)) => Ok(*v),
            _ => Err(Halt::Pending(query)),
        }
    }

    /// What `op` makes of `a` and `b`; pending if the facts do not say.
    pub fn apply(&self, op: Operator, a: Float, b: Float) -> (r: Result<Float, Halt>)
        ensures
            match r {
                Ok(v) => applied(self@, op, a, b) == Some(v),
                Err(h) => applied(self@, op, a, b) is None && h@ == HaltModel::Pending(
                    QueryModel::Apply(op, a, b),
                ),
            },
    {
        let query = NumericQuery::Apply(op, a, b);
        match self.lookup(&query) {
            Some(NumericFact::Applied(_, _, _, v)) => Ok(*v),
            _ => Err(Halt::Pending(query)),
        }
    }

    /// How `a` is written for a reader; pending if the facts do not say.
    pub fn display(&self, a: Float) -> (r: Result<String, Halt>)
        ensures
            match r {
                Ok(v) => displayed(self@, a) == Some(v@),
                Err(h) => displayed(self@, a) is None && h@ == HaltModel::Pending(
                    QueryModel::Display(a),
                ),
            },
    {
        let query = NumericQuery::Display(a);
        match self.lookup(&query) {
            Some(NumericFact::Displayed(_, v)) => Ok(v.clone()),
            _ => Err(Halt::Pending(query)),
        }
    }

    /// How `a` is written for debugging; pending if the facts do not say.
    pub fn debug(&self, a: Float) -> (r: Result<String, Halt>)
        ensures
            match r {
                Ok(v) => debugged(self@, a) == Some(v@),
                Err(h) => debugged(self@, a) is None && h@ == HaltModel::Pending(
                    QueryModel::Debug(a),
                ),
            },
    {
        let query = NumericQuery::Debug(a);
        match self.lookup(&query) {
            Some(NumericFact::Debugged(_, v)) => Ok(v.clone()),
            _ => Err(Halt::Pending(query)),
        }
    }
}

} // verus!
