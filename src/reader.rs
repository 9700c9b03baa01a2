//! The token reader: a fixed list of read-only queries, each with a slot of its
//! own, so that one failed read never keeps the others from running.
use vstd::prelude::*;

verus! {

/// The read-only token queries, in the order they are made.
#[derive(Debug, Clone, Copy, PartialEq, Eq, Structural)]
pub enum Query {
    Name,
    Symbol,
    Decimals,
    TotalSupply,
    BalanceOf,
}

/// How many queries a reader makes.
pub const QUERY_COUNT: usize = 5;

/// The query made in slot `i`.
pub open spec fn query_at(i: int) -> Query {
    if i == 0 {
        Query::Name
    } else if i == 1 {
        Query::Symbol
    } else if i == 2 {
        Query::Decimals
    } else if i == 3 {
        Query::TotalSupply
    } else {
        Query::BalanceOf
    }
}

/// The results of the queries made so far, slot by slot: the value as text,
/// or the endpoint's message.
pub struct ReadReport {
    results: Vec<Result<String, String>>,
}

impl View for ReadReport {
    type V = Seq<Result<String, String>>;

    closed spec fn view(&self) -> Seq<Result<String, String>> {
        self.results@
    }
}

impl ReadReport {
    pub open spec fn wf(&self) -> bool {
        self@.len() <= QUERY_COUNT
    }

    /// A report with no query made yet.
    pub fn new() -> (r: ReadReport)
        ensures
            r.wf(),
            r@.len() == 0,
    {
        ReadReport { results: Vec::new() }
    }

    /// The next query to make, or `None` once all have been made. It depends
    /// only on how many results are recorded, not on whether they succeeded.
    pub fn next_query(&self) -> (r: Option<Query>)
        requires
            self.wf(),
        ensures
            self@.len() < QUERY_COUNT ==> r == Some(query_at(self@.len() as int)),
            self@.len() == QUERY_COUNT ==> r is None,
    {
        let n = self.results.len();
        if n == 0 {
            Some(Query::Name)
        } else if n == 1 {
            Some(Query::Symbol)
        } else if n == 2 {
            Some(Query::Decimals)
        } else if n == 3 {
            Some(Query::TotalSupply)
        } else if n == 4 {
            Some(Query::BalanceOf)
        } else {
            None
        }
    }

    /// Records the result of the pending query in its own slot; earlier slots
    /// are kept as they were.
    pub fn record(&mut self, result: Result<String, String>)
        requires
            old(self).wf(),
            old(self)@.len() < QUERY_COUNT,
        ensures
            final(self).wf(),
            final(self)@ == old(self)@.push(result),
    {
        self.results.push(result);
    }

    /// Whether every query has a result.
    pub fn is_complete(&self) -> (r: bool)
        ensures
            r == (self@.len() == QUERY_COUNT),
    {
        self.results.len() == QUERY_COUNT
    }

    /// The result in slot `i`.
    pub fn result(&self, i: usize) -> (r: &Result<String, String>)
        requires
            i < self@.len(),
        ensures
            *r == self@[i as int],
    {
        &self.results[i]
    }

    /// How many queries have a result.
    pub fn len(&self) -> (r: usize)
        ensures
            r == self@.len(),
    {
        self.results.len()
    }
}

} // verus!
