//! The request for the directory of profiles.

use vstd::prelude::*;
use crate::errors::MastodonError;
use crate::query::{
    pairs_view, push_flag, push_number, push_text, query_of, to_query, with_flag, with_number,
    with_text, Pair,
};
use crate::text::opt_text;

verus! {

/// Whether a flag is off, in which case it is left out of a query string.
pub fn is_false(b: &bool) -> (r: bool)
    ensures
        r == !*b,
{
    !*b
}

/// Collects which part of the directory is asked for.
#[derive(Debug, Clone, Default, PartialEq, Eq)]
pub struct DirectoryRequest {
    pub offset: Option<usize>,
    pub limit: Option<usize>,
    pub order: Option<String>,
    pub local: bool,
}

/// What a `DirectoryRequest` stands for.
pub struct DirectoryModel {
    pub offset: Option<usize>,
    pub limit: Option<usize>,
    pub order: Option<Seq<char>>,
    pub local: bool,
}

impl View for DirectoryRequest {
    type V = DirectoryModel;

    open spec fn view(&self) -> DirectoryModel {
        DirectoryModel {
            offset: self.offset,
            limit: self.limit,
            order: opt_text(self.order),
            local: self.local,
        }
    }
}

/// The pairs of the query of a request, in the order in which they are
/// written. A flag that is off and a value that is absent are left out.
pub open spec fn directory_pairs(r: DirectoryModel) -> Seq<(Seq<char>, Seq<char>)> {
    let a = with_number(Seq::empty(), "offset"@, r.offset);
    let b = with_number(a, "limit"@, r.limit);
    let c = with_text(b, "order"@, r.order);
    with_flag(c, "local"@, r.local)
}

impl DirectoryRequest {
    /// The pairs of the query of this request.
    pub fn pairs(&self) -> (r: Vec<Pair>)
        ensures
            pairs_view(r@) == directory_pairs(self@),
    {
        let mut list: Vec<Pair> = Vec::new();
        proof {
            assert(pairs_view(list@) =~= Seq::empty());
        }
        push_number(&mut list, "offset", self.offset);
        push_number(&mut list, "limit", self.limit);
        push_text(&mut list, "order", &self.order);
        push_flag(&mut list, "local", self.local);
        list
    }

    /// The query string of this request.
    pub fn to_querystring(&self) -> (r: Result<String, MastodonError>)
        ensures
            match query_of(directory_pairs(self@)) {
                Some(q) => r matches Ok(text) && text@ == q,
                None => r matches Err(MastodonError::QueryString(_)),
            },
    {
        let list = self.pairs();
        to_query(&list)
    }

    /// A request with nothing said.
    pub fn new() -> (r: Self)
        ensures
            r@ == (DirectoryModel { offset: None, limit: None, order: None, local: false }),
    {
        DirectoryRequest { offset: None, limit: None, order: None, local: false }
    }

    /// Skips the first `offset` profiles.
    pub fn offset(self, offset: usize) -> (r: Self)
        ensures
            r@ == (DirectoryModel { offset: Some(offset), ..self@ }),
    {
        let mut r = self;
        r.offset = Some(offset);
        r
    }

    /// Asks for at most `limit` profiles.
    pub fn limit(self, limit: usize) -> (r: Self)
        ensures
            r@ == (DirectoryModel { limit: Some(limit), ..self@ }),
    {
        let mut r = self;
        r.limit = Some(limit);
        r
    }

    /// Sets the order of the profiles.
    pub fn order(self, order: &str) -> (r: Self)
        ensures
            r@ == (DirectoryModel { order: Some(order@), ..self@ }),
    {
        let mut r = self;
        r.order = Some(String::from_str(order));
        r
    }

    /// Asks for local profiles only.
    pub fn local(self) -> (r: Self)
        ensures
            r@ == (DirectoryModel { local: true, ..self@ }),
    {
        let mut r = self;
        r.local = true;
        r
    }
}

} // verus!
