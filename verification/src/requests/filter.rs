//! The request that creates a filter.

use std::time::Duration;
use vstd::prelude::*;
use crate::entities::filter::FilterContext;

verus! {

/// The form that creates a filter.
#[derive(Debug, Clone, PartialEq, Eq)]
pub struct AddFilterRequest {
    pub phrase: String,
    pub context: FilterContext,
    pub irreversible: Option<bool>,
    pub whole_word: Option<bool>,
    pub expires_in: Option<Duration>,
}

/// What an `AddFilterRequest` stands for.
pub struct AddFilterModel {
    pub phrase: Seq<char>,
    pub context: FilterContext,
    pub irreversible: Option<bool>,
    pub whole_word: Option<bool>,
    pub expires_in: Option<Duration>,
}

impl View for AddFilterRequest {
    type V = AddFilterModel;

    open spec fn view(&self) -> AddFilterModel {
        AddFilterModel {
            phrase: self.phrase@,
            context: self.context,
            irreversible: self.irreversible,
            whole_word: self.whole_word,
            expires_in: self.expires_in,
        }
    }
}

impl AddFilterRequest {
    /// A filter on `phrase` in `context`, with nothing else said.
    pub fn new(phrase: &str, context: FilterContext) -> (r: AddFilterRequest)
        ensures
            r@ == (AddFilterModel {
                phrase: phrase@,
                context,
                irreversible: None,
                whole_word: None,
                expires_in: None,
            }),
    {
        AddFilterRequest {
            phrase: String::from_str(phrase),
            context,
            irreversible: None,
            whole_word: None,
            expires_in: None,
        }
    }

    /// Makes the filter irreversible.
    pub fn irreversible(self) -> (r: Self)
        ensures
            r@ == (AddFilterModel { irreversible: Some(true), ..self@ }),
    {
        let mut r = self;
        r.irreversible = Some(true);
        r
    }

    /// Makes the filter match whole words only.
    pub fn whole_word(self) -> (r: Self)
        ensures
            r@ == (AddFilterModel { whole_word: Some(true), ..self@ }),
    {
        let mut r = self;
        r.whole_word = Some(true);
        r
    }

    /// Makes the filter end after `d`.
    pub fn expires_in(self, d: Duration) -> (r: Self)
        ensures
            r@ == (AddFilterModel { expires_in: Some(d), ..self@ }),
    {
        let mut r = self;
        r.expires_in = Some(d);
        r
    }
}

} // verus!
