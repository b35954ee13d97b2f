//! Describing an application that is to be registered with an instance.

use vstd::prelude::*;
use crate::errors::MastodonError;
use crate::scopes::Scope;
use crate::text::opt_text;

verus! {

/// The permissions that an application asks for.
#[derive(Debug, Clone, Copy, PartialEq, Eq, Structural)]
pub enum Scopes {
    /// All permissions: `read write follow`.
    All,
    /// Only permission to add and remove followers.
    Follow,
    /// Read only permissions.
    Read,
    /// Read and follow permissions.
    ReadFollow,
    /// Read and write permissions.
    ReadWrite,
    /// Write only permissions.
    Write,
    /// Write and follow permissions.
    WriteFollow,
}

impl Scopes {
    /// The permissions as they stand in a query string: their names, with
    /// `%20` between two names.
    pub open spec fn name_spec(self) -> Seq<char> {
        match self {
            Scopes::All => "read%20write%20follow"@,
            Scopes::Follow => "follow"@,
            Scopes::Read => "read"@,
            Scopes::ReadFollow => "read%20follow"@,
            Scopes::ReadWrite => "read%20write"@,
            Scopes::Write => "write"@,
            Scopes::WriteFollow => "write%20follow"@,
        }
    }

    /// The permissions as they stand in a query string.
    pub fn to_string(&self) -> (r: String)
        ensures
            r@ == self.name_spec(),
    {
        String::from_str(
            match self {
                Scopes::All => "read%20write%20follow",
                Scopes::Follow => "follow",
                Scopes::Read => "read",
                Scopes::ReadFollow => "read%20follow",
                Scopes::ReadWrite => "read%20write",
                Scopes::Write => "write",
                Scopes::WriteFollow => "write%20follow",
            },
        )
    }
}

impl Scopes {
    /// The single scopes that these permissions are made of.
    pub open spec fn set_spec(self) -> Set<Scope> {
        match self {
            Scopes::All => set![Scope::Read(None), Scope::Write(None), Scope::Follow],
            Scopes::Follow => set![Scope::Follow],
            Scopes::Read => set![Scope::Read(None)],
            Scopes::ReadFollow => set![Scope::Read(None), Scope::Follow],
            Scopes::ReadWrite => set![Scope::Read(None), Scope::Write(None)],
            Scopes::Write => set![Scope::Write(None)],
            Scopes::WriteFollow => set![Scope::Write(None), Scope::Follow],
        }
    }

    /// The permissions as a set of single scopes.
    pub fn to_set(&self) -> (r: crate::scopes::Scopes)
        ensures
            r@ == self.set_spec(),
    {
        let r = match self {
            Scopes::All => crate::scopes::Scopes::read_all().and(
                crate::scopes::Scopes::write_all(),
            ).and(crate::scopes::Scopes::follow()),
            Scopes::Follow => crate::scopes::Scopes::follow(),
            Scopes::Read => crate::scopes::Scopes::read_all(),
            Scopes::ReadFollow => crate::scopes::Scopes::read_all().and(
                crate::scopes::Scopes::follow(),
            ),
            Scopes::ReadWrite => crate::scopes::Scopes::read_all().and(
                crate::scopes::Scopes::write_all(),
            ),
            Scopes::Write => crate::scopes::Scopes::write_all(),
            Scopes::WriteFollow => crate::scopes::Scopes::write_all().and(
                crate::scopes::Scopes::follow(),
            ),
        };
        proof {
            assert(r@ =~= self.set_spec());
        }
        r
    }
}

impl Default for Scopes {
    fn default() -> (r: Scopes)
        ensures
            r == Scopes::Read,
    {
        Scopes::Read
    }
}

/// An application that can be registered with an instance.
#[derive(Debug, Clone, PartialEq, Eq)]
pub struct App {
    pub client_name: String,
    pub redirect_uris: String,
    pub scopes: Scopes,
    pub website: Option<String>,
}

/// What an `App` stands for.
pub struct AppModel {
    pub client_name: Seq<char>,
    pub redirect_uris: Seq<char>,
    pub scopes: Scopes,
    pub website: Option<Seq<char>>,
}

impl View for App {
    type V = AppModel;

    open spec fn view(&self) -> AppModel {
        AppModel {
            client_name: self.client_name@,
            redirect_uris: self.redirect_uris@,
            scopes: self.scopes,
            website: opt_text(self.website),
        }
    }
}

impl App {
    /// A builder with nothing set.
    pub fn builder() -> (r: AppBuilder)
        ensures
            r@ == AppBuilder::empty(),
    {
        AppBuilder::new()
    }

    /// The permissions that the application asks for.
    pub fn scopes(&self) -> (r: Scopes)
        ensures
            r == self.scopes,
    {
        self.scopes
    }
}

/// Collects what describes an application.
#[derive(Clone, Debug, Default, PartialEq, Eq)]
pub struct AppBuilder {
    pub client_name: Option<String>,
    pub redirect_uris: Option<String>,
    pub scopes: Option<Scopes>,
    pub website: Option<String>,
}

/// What an `AppBuilder` stands for.
pub struct AppBuilderModel {
    pub client_name: Option<Seq<char>>,
    pub redirect_uris: Option<Seq<char>>,
    pub scopes: Option<Scopes>,
    pub website: Option<Seq<char>>,
}

impl View for AppBuilder {
    type V = AppBuilderModel;

    open spec fn view(&self) -> AppBuilderModel {
        AppBuilderModel {
            client_name: opt_text(self.client_name),
            redirect_uris: opt_text(self.redirect_uris),
            scopes: self.scopes,
            website: opt_text(self.website),
        }
    }
}

/// The application that a builder describes, or `None` where the builder has
/// no name for it. Without redirect URIs the application is redirected out of
/// band; without permissions it asks to read.
pub open spec fn built_app(b: AppBuilderModel) -> Option<AppModel> {
    match b.client_name {
        None => None,
        Some(name) => Some(
            AppModel {
                client_name: name,
                redirect_uris: match b.redirect_uris {
                    Some(uris) => uris,
                    None => "urn:ietf:wg:oauth:2.0:oob"@,
                },
                scopes: match b.scopes {
                    Some(scopes) => scopes,
                    None => Scopes::Read,
                },
                website: b.website,
            },
        ),
    }
}

impl AppBuilder {
    /// The builder with nothing set.
    pub open spec fn empty() -> AppBuilderModel {
        AppBuilderModel { client_name: None, redirect_uris: None, scopes: None, website: None }
    }

    /// A builder with nothing set.
    pub fn new() -> (r: Self)
        ensures
            r@ == Self::empty(),
    {
        AppBuilder { client_name: None, redirect_uris: None, scopes: None, website: None }
    }

    /// Sets the name of the application, which is shown to the user who
    /// grants the permissions. An application cannot be built without it.
    pub fn client_name(&mut self, name: &str) -> (r: &mut Self)
        ensures
            r@ == (AppBuilderModel { client_name: Some(name@), ..old(self)@ }),
            *final(self) == *final(r),
    {
        self.client_name = Some(String::from_str(name));
        self
    }

    /// Sets where the user is sent after authorization.
    pub fn redirect_uris(&mut self, uris: &str) -> (r: &mut Self)
        ensures
            r@ == (AppBuilderModel { redirect_uris: Some(uris@), ..old(self)@ }),
            *final(self) == *final(r),
    {
        self.redirect_uris = Some(String::from_str(uris));
        self
    }

    /// Sets the permissions that the application asks for.
    pub fn scopes(&mut self, scopes: Scopes) -> (r: &mut Self)
        ensures
            r@ == (AppBuilderModel { scopes: Some(scopes), ..old(self)@ }),
            *final(self) == *final(r),
    {
        self.scopes = Some(scopes);
        self
    }

    /// Sets the URL of the homepage of the application.
    pub fn website(&mut self, website: &str) -> (r: &mut Self)
        ensures
            r@ == (AppBuilderModel { website: Some(website@), ..old(self)@ }),
            *final(self) == *final(r),
    {
        self.website = Some(String::from_str(website));
        self
    }

    /// Builds the application. Fails where no name was given.
    pub fn build(self) -> (r: Result<App, MastodonError>)
        ensures
            match built_app(self@) {
                Some(app) => r matches Ok(a) && a@ == app,
                None => r matches Err(MastodonError::MissingField(field)) && field@
                    == "client_name"@,
            },
    {
        let client_name = match self.client_name {
            Some(name) => name,
            None => {
                return Err(MastodonError::MissingField("client_name"));
            },
        };
        let redirect_uris = match self.redirect_uris {
            Some(uris) => uris,
            None => String::from_str("urn:ietf:wg:oauth:2.0:oob"),
        };
        let scopes = match self.scopes {
            Some(scopes) => scopes,
            None => Scopes::Read,
        };
        Ok(App { client_name, redirect_uris, scopes, website: self.website })
    }
}

} // verus!
