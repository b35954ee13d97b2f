//! The request that changes the account of the user.

use vstd::prelude::*;
use crate::entities::account::{fields_view, Credentials, CredentialsModel, MetadataField, UpdateSource};
use crate::errors::MastodonError;
use crate::status_builder::Visibility;
use crate::text::{clone_opt, opt_text};

verus! {

/// Collects the changes to an account. A path is kept as its text.
#[derive(Debug, Default, Clone, PartialEq, Eq)]
pub struct UpdateCredsRequest {
    pub display_name: Option<String>,
    pub note: Option<String>,
    pub avatar: Option<String>,
    pub header: Option<String>,
    pub field_attributes: Vec<MetadataField>,
    pub privacy: Option<Visibility>,
    pub sensitive: Option<bool>,
}

/// What an `UpdateCredsRequest` stands for.
pub struct UpdateCredsModel {
    pub display_name: Option<Seq<char>>,
    pub note: Option<Seq<char>>,
    pub avatar: Option<Seq<char>>,
    pub header: Option<Seq<char>>,
    pub field_attributes: Seq<(Seq<char>, Seq<char>)>,
    pub privacy: Option<Visibility>,
    pub sensitive: Option<bool>,
}

impl View for UpdateCredsRequest {
    type V = UpdateCredsModel;

    open spec fn view(&self) -> UpdateCredsModel {
        UpdateCredsModel {
            display_name: opt_text(self.display_name),
            note: opt_text(self.note),
            avatar: opt_text(self.avatar),
            header: opt_text(self.header),
            field_attributes: fields_view(self.field_attributes@),
            privacy: self.privacy,
            sensitive: self.sensitive,
        }
    }
}

/// The request with no change.
pub open spec fn no_change() -> UpdateCredsModel {
    UpdateCredsModel {
        display_name: None,
        note: None,
        avatar: None,
        header: None,
        field_attributes: Seq::empty(),
        privacy: None,
        sensitive: None,
    }
}

/// The changes that a request sends. The header image is sent as the avatar
/// is; the header of the request is not sent.
pub open spec fn credentials_of(r: UpdateCredsModel) -> CredentialsModel {
    CredentialsModel {
        display_name: r.display_name,
        note: r.note,
        avatar: r.avatar,
        header: r.avatar,
        source: Some(UpdateSource { privacy: r.privacy, sensitive: r.sensitive }),
        fields_attributes: r.field_attributes,
    }
}

impl UpdateCredsRequest {
    /// A request with no change.
    pub fn new() -> (r: UpdateCredsRequest)
        ensures
            r@ == no_change(),
    {
        let r = UpdateCredsRequest {
            display_name: None,
            note: None,
            avatar: None,
            header: None,
            field_attributes: Vec::new(),
            privacy: None,
            sensitive: None,
        };
        proof {
            assert(fields_view(r.field_attributes@) =~= Seq::empty());
        }
        r
    }

    /// Sets the new display name.
    pub fn display_name(self, name: &str) -> (r: Self)
        ensures
            r@ == (UpdateCredsModel { display_name: Some(name@), ..self@ }),
    {
        let mut r = self;
        r.display_name = Some(String::from_str(name));
        r
    }

    /// Sets the new note.
    pub fn note(self, note: &str) -> (r: Self)
        ensures
            r@ == (UpdateCredsModel { note: Some(note@), ..self@ }),
    {
        let mut r = self;
        r.note = Some(String::from_str(note));
        r
    }

    /// Sets the path of the new avatar.
    pub fn avatar(self, path: &str) -> (r: Self)
        ensures
            r@ == (UpdateCredsModel { avatar: Some(path@), ..self@ }),
    {
        let mut r = self;
        let path = String::from_str(path);
        r.avatar = Some(path);
        r
    }

    /// Sets the path of the new header image.
    pub fn header(self, path: &str) -> (r: Self)
        ensures
            r@ == (UpdateCredsModel { header: Some(path@), ..self@ }),
    {
        let mut r = self;
        let path = String::from_str(path);
        r.header = Some(path);
        r
    }

    /// Sets who can see new statuses by default.
    pub fn privacy(self, privacy: Visibility) -> (r: Self)
        ensures
            r@ == (UpdateCredsModel { privacy: Some(privacy), ..self@ }),
    {
        let mut r = self;
        r.privacy = Some(privacy);
        r
    }

    /// Sets whether new media are sensitive by default.
    pub fn sensitive(self, sensitive: bool) -> (r: Self)
        ensures
            r@ == (UpdateCredsModel { sensitive: Some(sensitive), ..self@ }),
    {
        let mut r = self;
        r.sensitive = Some(sensitive);
        r
    }

    /// Adds a field to the profile, behind those added before.
    pub fn field_attribute(self, name: &str, value: &str) -> (r: Self)
        ensures
            r@ == (UpdateCredsModel {
                field_attributes: self@.field_attributes.push((name@, value@)),
                ..self@
            }),
    {
        let mut r = self;
        r.field_attributes.push(MetadataField::new(name, value));
        proof {
            assert(fields_view(r.field_attributes@) =~= fields_view(self.field_attributes@).push(
                (name@, value@),
            ));
        }
        r
    }

    /// The changes as they are sent.
    pub fn build(self) -> (r: Result<Credentials, MastodonError>)
        ensures
            r matches Ok(c) && c@ == credentials_of(self@),
    {
        Ok(
            Credentials {
                display_name: clone_opt(&self.display_name),
                note: clone_opt(&self.note),
                avatar: clone_opt(&self.avatar),
                header: clone_opt(&self.avatar),
                source: Some(UpdateSource { privacy: self.privacy, sensitive: self.sensitive }),
                fields_attributes: self.field_attributes,
            },
        )
    }
}

} // verus!
