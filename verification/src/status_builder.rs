//! Putting a status together before it is posted.

use vstd::prelude::*;
use crate::errors::MastodonError;
use crate::text::{clone_opt, clone_texts, opt_text, texts_of};

verus! {

/// A language of `isolang`, carried and not read.
#[verifier::external_type_specification]
#[verifier::external_body]
pub struct ExLanguage(isolang::Language);

/// Who can see a status.
#[derive(Clone, Copy, Debug, PartialEq, Eq, Structural)]
pub enum Visibility {
    /// A direct message to a user.
    Direct,
    /// Only the followers.
    Private,
    /// Everyone, but not on public timelines.
    Unlisted,
    /// Everyone, on public timelines too.
    Public,
}

impl Default for Visibility {
    fn default() -> (r: Visibility)
        ensures
            r == Visibility::Public,
    {
        Visibility::Public
    }
}

/// A status that can be posted.
#[derive(Debug, Clone, PartialEq)]
pub struct NewStatus {
    pub status: Option<String>,
    pub in_reply_to_id: Option<String>,
    pub media_ids: Option<Vec<String>>,
    pub sensitive: Option<bool>,
    pub spoiler_text: Option<String>,
    pub visibility: Option<Visibility>,
    pub language: Option<isolang::Language>,
    pub content_type: Option<String>,
}

/// Collects the parts of a status.
#[derive(Debug, Clone, PartialEq)]
pub struct StatusBuilder {
    pub status: Option<String>,
    pub in_reply_to_id: Option<String>,
    pub media_ids: Option<Vec<String>>,
    pub sensitive: Option<bool>,
    pub spoiler_text: Option<String>,
    pub content_type: Option<String>,
    pub visibility: Option<Visibility>,
    pub language: Option<isolang::Language>,
}

/// What a `StatusBuilder` and a `NewStatus` stand for.
pub struct StatusModel {
    pub status: Option<Seq<char>>,
    pub in_reply_to_id: Option<Seq<char>>,
    pub media_ids: Option<Seq<Seq<char>>>,
    pub sensitive: Option<bool>,
    pub spoiler_text: Option<Seq<char>>,
    pub content_type: Option<Seq<char>>,
    pub visibility: Option<Visibility>,
    pub language: Option<isolang::Language>,
}

/// The texts of a list of ids that may be absent.
pub open spec fn opt_texts(o: Option<Vec<String>>) -> Option<Seq<Seq<char>>> {
    match o {
        Some(list) => Some(texts_of(list@)),
        None => None,
    }
}

impl View for StatusBuilder {
    type V = StatusModel;

    open spec fn view(&self) -> StatusModel {
        StatusModel {
            status: opt_text(self.status),
            in_reply_to_id: opt_text(self.in_reply_to_id),
            media_ids: opt_texts(self.media_ids),
            sensitive: self.sensitive,
            spoiler_text: opt_text(self.spoiler_text),
            content_type: opt_text(self.content_type),
            visibility: self.visibility,
            language: self.language,
        }
    }
}

impl View for NewStatus {
    type V = StatusModel;

    open spec fn view(&self) -> StatusModel {
        StatusModel {
            status: opt_text(self.status),
            in_reply_to_id: opt_text(self.in_reply_to_id),
            media_ids: opt_texts(self.media_ids),
            sensitive: self.sensitive,
            spoiler_text: opt_text(self.spoiler_text),
            content_type: opt_text(self.content_type),
            visibility: self.visibility,
            language: self.language,
        }
    }
}

/// The builder with nothing set.
pub open spec fn empty_status() -> StatusModel {
    StatusModel {
        status: None,
        in_reply_to_id: None,
        media_ids: None,
        sensitive: None,
        spoiler_text: None,
        content_type: None,
        visibility: None,
        language: None,
    }
}

/// Whether a status can be posted: it has a text, or media.
pub open spec fn can_post(s: StatusModel) -> bool {
    s.status is Some || s.media_ids is Some
}

impl Default for StatusBuilder {
    fn default() -> (r: StatusBuilder)
        ensures
            r@ == empty_status(),
    {
        StatusBuilder::new()
    }
}

impl Default for NewStatus {
    fn default() -> (r: NewStatus)
        ensures
            r@ == empty_status(),
    {
        NewStatus {
            status: None,
            in_reply_to_id: None,
            media_ids: None,
            sensitive: None,
            spoiler_text: None,
            visibility: None,
            language: None,
            content_type: None,
        }
    }
}

impl StatusBuilder {
    /// A builder with nothing set.
    pub fn new() -> (r: StatusBuilder)
        ensures
            r@ == empty_status(),
    {
        StatusBuilder {
            status: None,
            in_reply_to_id: None,
            media_ids: None,
            sensitive: None,
            spoiler_text: None,
            content_type: None,
            visibility: None,
            language: None,
        }
    }

    /// Sets the text of the status.
    pub fn status(&mut self, status: &str) -> (r: &mut Self)
        ensures
            r@ == (StatusModel { status: Some(status@), ..old(self)@ }),
            *final(self) == *final(r),
    {
        self.status = Some(String::from_str(status));
        self
    }

    /// Sets the id of the status that this one answers.
    pub fn in_reply_to(&mut self, id: &str) -> (r: &mut Self)
        ensures
            r@ == (StatusModel { in_reply_to_id: Some(id@), ..old(self)@ }),
            *final(self) == *final(r),
    {
        self.in_reply_to_id = Some(String::from_str(id));
        self
    }

    /// Sets the ids of the media that the status shows.
    pub fn media_ids(&mut self, ids: &[&str]) -> (r: &mut Self)
        ensures
            r@ == (StatusModel {
                media_ids: Some(ids@.map_values(|id: &str| id@)),
                ..old(self)@
            }),
            *final(self) == *final(r),
    {
        let mut list: Vec<String> = Vec::new();
        let mut i: usize = 0;
        while i < ids.len()
            invariant
                i <= ids.len(),
                list@.len() == i,
                forall|j: int| 0 <= j < i ==> list@[j]@ == ids@[j]@,
            decreases ids.len() - i,
        {
            list.push(String::from_str(ids[i]));
            i += 1;
        }
        proof {
            assert(texts_of(list@) =~= ids@.map_values(|id: &str| id@));
        }
        self.media_ids = Some(list);
        self
    }

    /// Says whether the media of the status are sensitive.
    pub fn sensitive(&mut self, sensitive: bool) -> (r: &mut Self)
        ensures
            r@ == (StatusModel { sensitive: Some(sensitive), ..old(self)@ }),
            *final(self) == *final(r),
    {
        self.sensitive = Some(sensitive);
        self
    }

    /// Sets the warning that is shown before the status.
    pub fn spoiler_text(&mut self, spoiler_text: &str) -> (r: &mut Self)
        ensures
            r@ == (StatusModel { spoiler_text: Some(spoiler_text@), ..old(self)@ }),
            *final(self) == *final(r),
    {
        self.spoiler_text = Some(String::from_str(spoiler_text));
        self
    }

    /// Sets the content type of the text, such as `text/plain` or
    /// `text/markdown`. Which types a server takes varies.
    pub fn content_type(&mut self, content_type: &str) -> (r: &mut Self)
        ensures
            r@ == (StatusModel { content_type: Some(content_type@), ..old(self)@ }),
            *final(self) == *final(r),
    {
        self.content_type = Some(String::from_str(content_type));
        self
    }

    /// Sets who can see the status.
    pub fn visibility(&mut self, visibility: Visibility) -> (r: &mut Self)
        ensures
            r@ == (StatusModel { visibility: Some(visibility), ..old(self)@ }),
            *final(self) == *final(r),
    {
        self.visibility = Some(visibility);
        self
    }

    /// Sets the language of the status.
    pub fn language(&mut self, language: isolang::Language) -> (r: &mut Self)
        ensures
            r@ == (StatusModel { language: Some(language), ..old(self)@ }),
            *final(self) == *final(r),
    {
        self.language = Some(language);
        self
    }

    /// The status that the builder describes. A status needs a text or media:
    /// without either it is not built.
    pub fn build(&self) -> (r: Result<NewStatus, MastodonError>)
        ensures
            can_post(self@) ==> (r matches Ok(s) && s@ == self@),
            !can_post(self@) ==> (r matches Err(MastodonError::Other(text)) && text@
                == "status text or media ids are required in order to post a status"@),
    {
        if self.status.is_none() && self.media_ids.is_none() {
            return Err(
                MastodonError::Other(
                    String::from_str(
                        "status text or media ids are required in order to post a status",
                    ),
                ),
            );
        }
        Ok(
            NewStatus {
                status: clone_opt(&self.status),
                in_reply_to_id: clone_opt(&self.in_reply_to_id),
                media_ids: match &self.media_ids {
                    Some(list) => Some(clone_texts(list)),
                    None => None,
                },
                sensitive: self.sensitive,
                spoiler_text: clone_opt(&self.spoiler_text),
                visibility: self.visibility,
                language: self.language,
                content_type: clone_opt(&self.content_type),
            },
        )
    }
}

} // verus!
