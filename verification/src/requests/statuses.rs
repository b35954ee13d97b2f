//! The request for the statuses of an account.

use vstd::prelude::*;
use crate::errors::MastodonError;
use crate::query::{
    pairs_view, push_flag, push_number, push_text, query_of, to_query, with_flag, with_number,
    with_text, Pair,
};
use crate::text::{clone_opt, opt_text};

verus! {

/// Whether a flag is off, in which case it is left out of a query string.
pub fn is_false(b: &bool) -> (r: bool)
    ensures
        r == !*b,
{
    !*b
}

/// Collects which statuses of an account are asked for.
#[derive(Clone, Debug, Default, PartialEq, Eq)]
pub struct StatusesRequest {
    pub only_media: bool,
    pub exclude_replies: bool,
    pub pinned: bool,
    pub max_id: Option<String>,
    pub since_id: Option<String>,
    pub limit: Option<usize>,
    pub min_id: Option<String>,
    pub exclude_reblogs: bool,
}

/// What a `StatusesRequest` stands for.
pub struct StatusesModel {
    pub only_media: bool,
    pub exclude_replies: bool,
    pub pinned: bool,
    pub max_id: Option<Seq<char>>,
    pub since_id: Option<Seq<char>>,
    pub limit: Option<usize>,
    pub min_id: Option<Seq<char>>,
    pub exclude_reblogs: bool,
}

impl View for StatusesRequest {
    type V = StatusesModel;

    open spec fn view(&self) -> StatusesModel {
        StatusesModel {
            only_media: self.only_media,
            exclude_replies: self.exclude_replies,
            pinned: self.pinned,
            max_id: opt_text(self.max_id),
            since_id: opt_text(self.since_id),
            limit: self.limit,
            min_id: opt_text(self.min_id),
            exclude_reblogs: self.exclude_reblogs,
        }
    }
}

/// The request that asks for every status.
pub open spec fn every_status() -> StatusesModel {
    StatusesModel {
        only_media: false,
        exclude_replies: false,
        pinned: false,
        max_id: None,
        since_id: None,
        limit: None,
        min_id: None,
        exclude_reblogs: false,
    }
}

/// The pairs of the query of a request, in the order in which they are
/// written. A flag that is off and a value that is absent are left out.
pub open spec fn statuses_pairs(r: StatusesModel) -> Seq<(Seq<char>, Seq<char>)> {
    let a = with_flag(Seq::empty(), "only_media"@, r.only_media);
    let b = with_flag(a, "exclude_replies"@, r.exclude_replies);
    let c = with_flag(b, "pinned"@, r.pinned);
    let d = with_text(c, "max_id"@, r.max_id);
    let e = with_text(d, "since_id"@, r.since_id);
    let f = with_number(e, "limit"@, r.limit);
    let g = with_text(f, "min_id"@, r.min_id);
    with_flag(g, "exclude_reblogs"@, r.exclude_reblogs)
}

impl StatusesRequest {
    /// The pairs of the query of this request.
    pub fn pairs(&self) -> (r: Vec<Pair>)
        ensures
            pairs_view(r@) == statuses_pairs(self@),
    {
        let mut list: Vec<Pair> = Vec::new();
        proof {
            assert(pairs_view(list@) =~= Seq::empty());
        }
        push_flag(&mut list, "only_media", self.only_media);
        push_flag(&mut list, "exclude_replies", self.exclude_replies);
        push_flag(&mut list, "pinned", self.pinned);
        push_text(&mut list, "max_id", &self.max_id);
        push_text(&mut list, "since_id", &self.since_id);
        push_number(&mut list, "limit", self.limit);
        push_text(&mut list, "min_id", &self.min_id);
        push_flag(&mut list, "exclude_reblogs", self.exclude_reblogs);
        list
    }

    /// The query string of this request, with `?` in front.
    pub fn to_querystring(&self) -> (r: Result<String, MastodonError>)
        ensures
            match query_of(statuses_pairs(self@)) {
                Some(q) => r matches Ok(text) && text@ == "?"@ + q,
                None => r matches Err(MastodonError::QueryString(_)),
            },
    {
        let list = self.pairs();
        match to_query(&list) {
            Ok(q) => {
                let mut text = String::from_str("?");
                text.append(q.as_str());
                Ok(text)
            },
            Err(e) => Err(e),
        }
    }

    /// A request that asks for every status.
    pub fn new() -> (r: Self)
        ensures
            r@ == every_status(),
    {
        StatusesRequest {
            only_media: false,
            exclude_replies: false,
            pinned: false,
            max_id: None,
            since_id: None,
            limit: None,
            min_id: None,
            exclude_reblogs: false,
        }
    }

    /// Asks for statuses with media only.
    pub fn only_media(self) -> (r: Self)
        ensures
            r@ == (StatusesModel { only_media: true, ..self@ }),
    {
        let mut r = self;
        r.only_media = true;
        r
    }

    /// Leaves out reblogs.
    pub fn exclude_reblogs(self) -> (r: Self)
        ensures
            r@ == (StatusesModel { exclude_reblogs: true, ..self@ }),
    {
        let mut r = self;
        r.exclude_reblogs = true;
        r
    }

    /// Leaves out replies.
    pub fn exclude_replies(self) -> (r: Self)
        ensures
            r@ == (StatusesModel { exclude_replies: true, ..self@ }),
    {
        let mut r = self;
        r.exclude_replies = true;
        r
    }

    /// Asks for pinned statuses only.
    pub fn pinned(self) -> (r: Self)
        ensures
            r@ == (StatusesModel { pinned: true, ..self@ }),
    {
        let mut r = self;
        r.pinned = true;
        r
    }

    /// Asks for statuses older than the one with the id `max_id`.
    pub fn max_id(self, max_id: &str) -> (r: Self)
        ensures
            r@ == (StatusesModel { max_id: Some(max_id@), ..self@ }),
    {
        let mut r = self;
        r.max_id = Some(String::from_str(max_id));
        r
    }

    /// Asks for statuses newer than the one with the id `since_id`.
    pub fn since_id(self, since_id: &str) -> (r: Self)
        ensures
            r@ == (StatusesModel { since_id: Some(since_id@), ..self@ }),
    {
        let mut r = self;
        r.since_id = Some(String::from_str(since_id));
        r
    }

    /// Asks for at most `limit` statuses.
    pub fn limit(self, limit: usize) -> (r: Self)
        ensures
            r@ == (StatusesModel { limit: Some(limit), ..self@ }),
    {
        let mut r = self;
        r.limit = Some(limit);
        r
    }

    /// Asks for the statuses right after the one with the id `min_id`.
    pub fn min_id(self, min_id: &str) -> (r: Self)
        ensures
            r@ == (StatusesModel { min_id: Some(min_id@), ..self@ }),
    {
        let mut r = self;
        r.min_id = Some(String::from_str(min_id));
        r
    }

    /// A copy of this request, for a call that takes a request or none.
    pub fn to_option(&self) -> (r: Option<StatusesRequest>)
        ensures
            r matches Some(copy) && copy@ == self@,
    {
        Some(
            StatusesRequest {
                only_media: self.only_media,
                exclude_replies: self.exclude_replies,
                pinned: self.pinned,
                max_id: clone_opt(&self.max_id),
                since_id: clone_opt(&self.since_id),
                limit: self.limit,
                min_id: clone_opt(&self.min_id),
                exclude_reblogs: self.exclude_reblogs,
            },
        )
    }
}

} // verus!
