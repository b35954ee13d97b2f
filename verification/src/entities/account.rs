//! The parts of an account that its owner can change.

use vstd::prelude::*;
use crate::errors::MastodonError;
use crate::status_builder::Visibility;
use crate::text::{opt_text, str_eq};

verus! {

/// A field of the profile: a name and a value.
#[derive(Debug, Clone, PartialEq, Eq, Default)]
pub struct MetadataField {
    pub name: String,
    pub value: String,
}

impl MetadataField {
    /// The field `name` with the value `value`.
    pub fn new(name: &str, value: &str) -> (r: MetadataField)
        ensures
            r.name@ == name@,
            r.value@ == value@,
    {
        MetadataField { name: String::from_str(name), value: String::from_str(value) }
    }
}

/// The defaults for new statuses that the owner can change.
#[derive(Debug, Clone, Copy, PartialEq, Eq, Default, Structural)]
pub struct UpdateSource {
    pub privacy: Option<Visibility>,
    pub sensitive: Option<bool>,
}

/// The changes to an account as they are sent. A path is kept as its text.
#[derive(Debug, Clone, PartialEq, Eq, Default)]
pub struct Credentials {
    pub display_name: Option<String>,
    pub note: Option<String>,
    pub avatar: Option<String>,
    pub header: Option<String>,
    pub source: Option<UpdateSource>,
    pub fields_attributes: Vec<MetadataField>,
}

/// What a `Credentials` stands for.
pub struct CredentialsModel {
    pub display_name: Option<Seq<char>>,
    pub note: Option<Seq<char>>,
    pub avatar: Option<Seq<char>>,
    pub header: Option<Seq<char>>,
    pub source: Option<UpdateSource>,
    pub fields_attributes: Seq<(Seq<char>, Seq<char>)>,
}

/// The names and values of a list of fields.
pub open spec fn fields_view(fields: Seq<MetadataField>) -> Seq<(Seq<char>, Seq<char>)> {
    fields.map_values(|f: MetadataField| (f.name@, f.value@))
}

impl View for Credentials {
    type V = CredentialsModel;

    open spec fn view(&self) -> CredentialsModel {
        CredentialsModel {
            display_name: opt_text(self.display_name),
            note: opt_text(self.note),
            avatar: opt_text(self.avatar),
            header: opt_text(self.header),
            source: self.source,
            fields_attributes: fields_view(self.fields_attributes@),
        }
    }
}

/// A value that the API writes now as a boolean and now as a text.
#[derive(Clone, Debug, PartialEq, Eq)]
pub enum BoolOrString {
    Bool(bool),
    Str(String),
}

/// The boolean that a value stands for: itself, or what the texts `true` and
/// `false` say. No other text stands for one.
pub open spec fn string_or_bool_spec(value: BoolOrString) -> Option<bool> {
    match value {
        BoolOrString::Bool(b) => Some(b),
        BoolOrString::Str(s) => if s@ == "true"@ {
            Some(true)
        } else if s@ == "false"@ {
            Some(false)
        } else {
            None
        },
    }
}

/// Reads a boolean that may be written as a text.
pub fn string_or_bool(value: BoolOrString) -> (r: Result<bool, MastodonError>)
    ensures
        match string_or_bool_spec(value) {
            Some(b) => r == Ok::<bool, MastodonError>(b),
            None => r matches Err(MastodonError::Other(_)),
        },
{
    match value {
        BoolOrString::Bool(b) => Ok(b),
        BoolOrString::Str(s) => {
            if str_eq(s.as_str(), "true") {
                Ok(true)
            } else if str_eq(s.as_str(), "false") {
                Ok(false)
            } else {
                Err(MastodonError::Other(String::from_str("invalid value: expected true or false")))
            }
        },
    }
}

/// The changes to the name, the note and the images of an account, as they
/// are sent in a form of several parts. A path is kept as its text.
#[derive(Debug, Clone, PartialEq, Eq, Default)]
pub struct CredentialsBuilder {
    pub display_name: Option<String>,
    pub note: Option<String>,
    pub avatar: Option<String>,
    pub header: Option<String>,
}

/// One part of a form: a text, or a file that is read when the form is sent.
#[derive(Debug, Clone, PartialEq, Eq)]
pub enum FormPart {
    Text { name: String, value: String },
    File { name: String, path: String },
}

/// What a `FormPart` stands for.
pub enum FormPartModel {
    Text { name: Seq<char>, value: Seq<char> },
    File { name: Seq<char>, path: Seq<char> },
}

impl View for FormPart {
    type V = FormPartModel;

    open spec fn view(&self) -> FormPartModel {
        match self {
            FormPart::Text { name, value } => FormPartModel::Text { name: name@, value: value@ },
            FormPart::File { name, path } => FormPartModel::File { name: name@, path: path@ },
        }
    }
}

/// What a list of parts stands for.
pub open spec fn parts_view(parts: Seq<FormPart>) -> Seq<FormPartModel> {
    parts.map_values(|p: FormPart| p@)
}

/// `parts` with a text part behind it where there is a text.
pub open spec fn with_text_part(parts: Seq<FormPartModel>, name: Seq<char>, value: Option<Seq<char>>) -> Seq<
    FormPartModel,
> {
    match value {
        Some(v) => parts.push(FormPartModel::Text { name, value: v }),
        None => parts,
    }
}

/// `parts` with a file part behind it where there is a path.
pub open spec fn with_file_part(parts: Seq<FormPartModel>, name: Seq<char>, path: Option<Seq<char>>) -> Seq<
    FormPartModel,
> {
    match path {
        Some(p) => parts.push(FormPartModel::File { name, path: p }),
        None => parts,
    }
}

impl CredentialsBuilder {
    /// The parts of the form that sends these changes: the name and the note
    /// as texts, then the avatar and the header as files, each where it is
    /// set.
    pub open spec fn parts_spec(&self) -> Seq<FormPartModel> {
        let a = with_text_part(Seq::empty(), "display_name"@, opt_text(self.display_name));
        let b = with_text_part(a, "note"@, opt_text(self.note));
        let c = with_file_part(b, "avatar"@, opt_text(self.avatar));
        with_file_part(c, "header"@, opt_text(self.header))
    }

    /// The parts of the form that sends these changes.
    pub fn into_form(self) -> (r: Vec<FormPart>)
        ensures
            parts_view(r@) == self.parts_spec(),
    {
        let mut parts: Vec<FormPart> = Vec::new();
        proof {
            assert(parts_view(parts@) =~= Seq::empty());
        }
        if let Some(value) = self.display_name {
            let ghost before = parts@;
            parts.push(FormPart::Text { name: String::from_str("display_name"), value });
            proof {
                assert(parts_view(parts@) =~= parts_view(before).push(parts@.last()@));
            }
        }
        if let Some(value) = self.note {
            let ghost before = parts@;
            parts.push(FormPart::Text { name: String::from_str("note"), value });
            proof {
                assert(parts_view(parts@) =~= parts_view(before).push(parts@.last()@));
            }
        }
        if let Some(path) = self.avatar {
            let ghost before = parts@;
            parts.push(FormPart::File { name: String::from_str("avatar"), path });
            proof {
                assert(parts_view(parts@) =~= parts_view(before).push(parts@.last()@));
            }
        }
        if let Some(path) = self.header {
            let ghost before = parts@;
            parts.push(FormPart::File { name: String::from_str("header"), path });
            proof {
                assert(parts_view(parts@) =~= parts_view(before).push(parts@.last()@));
            }
        }
        parts
    }
}

} // verus!
