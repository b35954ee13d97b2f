//! Registering an application with an instance, as far as it is computing:
//! what is sent, and the URLs of the authorization flow.

use vstd::prelude::*;
use crate::apps::{App, AppBuilder, AppBuilderModel, built_app};
use crate::errors::MastodonError;
use crate::data::Data;
use crate::scopes::{display_of, Scopes};
use crate::urls::{add_pair, join_url, parsed, then_pair, url_agrees, url_join, UrlOutcome};

verus! {

/// The redirect URI of an application that is redirected out of band.
pub open spec fn default_redirect_uri_spec() -> Seq<char> {
    "urn:ietf:wg:oauth:2.0:oob"@
}

/// The redirect URI that stands in for one that the server leaves out.
pub fn default_redirect_uri() -> (r: String)
    ensures
        r@ == default_redirect_uri_spec(),
{
    String::from_str("urn:ietf:wg:oauth:2.0:oob")
}

/// Collects what registers an application with the instance at `base`.
#[derive(Debug, Clone, PartialEq, Eq)]
pub struct Registration {
    pub base: String,
    pub app_builder: AppBuilder,
    pub force_login: bool,
}

impl Registration {
    /// A registration with the instance at `base`, with nothing said of the
    /// application.
    pub fn new(base: &str) -> (r: Self)
        ensures
            r.base@ == base@,
            r.app_builder@ == AppBuilder::empty(),
            !r.force_login,
    {
        Registration { base: String::from_str(base), app_builder: AppBuilder::new(), force_login: false }
    }

    /// Sets the name of the application. Without it nothing can be built.
    pub fn client_name(&mut self, name: &str) -> (r: &mut Self)
        ensures
            r.app_builder@ == (AppBuilderModel { client_name: Some(name@), ..old(self).app_builder@ }),
            r.base == old(self).base,
            r.force_login == old(self).force_login,
            *final(self) == *final(r),
    {
        self.app_builder.client_name = Some(String::from_str(name));
        self
    }

    /// Sets where the user is sent after authorization.
    pub fn redirect_uris(&mut self, uris: &str) -> (r: &mut Self)
        ensures
            r.app_builder@ == (AppBuilderModel { redirect_uris: Some(uris@), ..old(self).app_builder@ }),
            r.base == old(self).base,
            r.force_login == old(self).force_login,
            *final(self) == *final(r),
    {
        self.app_builder.redirect_uris = Some(String::from_str(uris));
        self
    }

    /// Sets the permissions that the application asks for.
    pub fn scopes(&mut self, scopes: crate::apps::Scopes) -> (r: &mut Self)
        ensures
            r.app_builder@ == (AppBuilderModel { scopes: Some(scopes), ..old(self).app_builder@ }),
            r.base == old(self).base,
            r.force_login == old(self).force_login,
            *final(self) == *final(r),
    {
        self.app_builder.scopes = Some(scopes);
        self
    }

    /// Sets the URL of the homepage of the application.
    pub fn website(&mut self, website: &str) -> (r: &mut Self)
        ensures
            r.app_builder@ == (AppBuilderModel { website: Some(website@), ..old(self).app_builder@ }),
            r.base == old(self).base,
            r.force_login == old(self).force_login,
            *final(self) == *final(r),
    {
        self.app_builder.website = Some(String::from_str(website));
        self
    }

    /// Says whether the user has to log in again, which helps to authorize a
    /// second user of the same instance.
    pub fn force_login(&mut self, force_login: bool) -> (r: &mut Self)
        ensures
            r.force_login == force_login,
            r.base == old(self).base,
            r.app_builder == old(self).app_builder,
            *final(self) == *final(r),
    {
        self.force_login = force_login;
        self
    }

    /// The application that is sent to the instance. Fails where no name was
    /// given.
    pub fn app(&self) -> (r: Result<App, MastodonError>)
        ensures
            match built_app(self.app_builder@) {
                Some(app) => r matches Ok(a) && a@ == app,
                None => r matches Err(MastodonError::MissingField(field)) && field@
                    == "client_name"@,
            },
    {
        let builder = AppBuilder {
            client_name: crate::text::clone_opt(&self.app_builder.client_name),
            redirect_uris: crate::text::clone_opt(&self.app_builder.redirect_uris),
            scopes: self.app_builder.scopes,
            website: crate::text::clone_opt(&self.app_builder.website),
        };
        builder.build()
    }
}

impl Registration {
    /// The registration that the answer of the instance completes: the id and
    /// the secret that it gave, the redirect URI that it gave or else the one
    /// of an application that is redirected out of band, and the permissions
    /// of the application `app`.
    pub fn registered(
        &self,
        app: &App,
        client_id: String,
        client_secret: String,
        redirect_uri: Option<String>,
    ) -> (r: Registered)
        ensures
            r.base@ == self.base@,
            r.client_id == client_id,
            r.client_secret == client_secret,
            r.redirect@ == match redirect_uri {
                Some(uri) => uri@,
                None => default_redirect_uri_spec(),
            },
            r.scopes@ == app.scopes.set_spec(),
            r.force_login == self.force_login,
    {
        Registered {
            base: self.base.clone(),
            client_id,
            client_secret,
            redirect: match redirect_uri {
                Some(uri) => uri,
                None => default_redirect_uri(),
            },
            scopes: app.scopes.to_set(),
            force_login: self.force_login,
        }
    }
}

/// How a boolean is written in a query.
pub open spec fn bool_text(b: bool) -> Seq<char> {
    if b {
        "true"@
    } else {
        "false"@
    }
}

/// The URL that the user opens to authorize the application: the
/// authorization route of the instance with the id of the client, the
/// redirect URI, the permissions, the kind of answer and whether to log in
/// again, in that order.
pub open spec fn authorize_url_spec(
    base: Seq<char>,
    client_id: Seq<char>,
    redirect: Seq<char>,
    scopes: Set<crate::scopes::Scope>,
    force_login: bool,
) -> UrlOutcome {
    let start = parsed(url_join(base, "/oauth/authorize"@));
    let with_id = then_pair(start, "client_id"@, client_id);
    let with_redirect = then_pair(with_id, "redirect_uri"@, redirect);
    let with_scope = then_pair(with_redirect, "scope"@, display_of(scopes));
    let with_type = then_pair(with_scope, "response_type"@, "code"@);
    then_pair(with_type, "force_login"@, bool_text(force_login))
}

/// The URL at which the code of the authorization is traded for an access
/// token.
pub open spec fn token_url_spec(
    base: Seq<char>,
    client_id: Seq<char>,
    client_secret: Seq<char>,
    code: Seq<char>,
    redirect: Seq<char>,
) -> Seq<char> {
    base + "/oauth/token?client_id="@ + client_id + "&client_secret="@ + client_secret + "&code="@
        + code + "&grant_type=authorization_code&redirect_uri="@ + redirect
}

/// An application that is registered, with a user who is not yet authorized.
#[derive(Debug, Clone)]
pub struct Registered {
    pub base: String,
    pub client_id: String,
    pub client_secret: String,
    pub redirect: String,
    pub scopes: Scopes,
    pub force_login: bool,
}

impl Registered {
    /// A registration made of what an earlier one left: so the id and the
    /// secret need not be asked of the server again.
    pub fn from_parts(
        base: &str,
        client_id: &str,
        client_secret: &str,
        redirect: &str,
        scopes: Scopes,
        force_login: bool,
    ) -> (r: Registered)
        ensures
            r.base@ == base@,
            r.client_id@ == client_id@,
            r.client_secret@ == client_secret@,
            r.redirect@ == redirect@,
            r.scopes == scopes,
            r.force_login == force_login,
    {
        Registered {
            base: String::from_str(base),
            client_id: String::from_str(client_id),
            client_secret: String::from_str(client_secret),
            redirect: String::from_str(redirect),
            scopes,
            force_login,
        }
    }

    /// The parts of which `from_parts` makes this registration again.
    pub fn into_parts(self) -> (r: (String, String, String, String, Scopes, bool))
        ensures
            r == (
                self.base,
                self.client_id,
                self.client_secret,
                self.redirect,
                self.scopes,
                self.force_login,
            ),
    {
        (
            self.base,
            self.client_id,
            self.client_secret,
            self.redirect,
            self.scopes,
            self.force_login,
        )
    }

    /// The URL that the user opens in a browser to authorize the application.
    pub fn authorize_url(&self) -> (r: Result<String, MastodonError>)
        ensures
            url_agrees(
                r,
                authorize_url_spec(
                    self.base@,
                    self.client_id@,
                    self.redirect@,
                    self.scopes@,
                    self.force_login,
                ),
            ),
    {
        let start = match join_url(self.base.as_str(), "/oauth/authorize") {
            Ok(u) => u,
            Err(e) => {
                return Err(MastodonError::Url(e));
            },
        };
        let with_id = match add_pair(start.as_str(), "client_id", self.client_id.as_str()) {
            Ok(u) => u,
            Err(e) => {
                return Err(e);
            },
        };
        let with_redirect = match add_pair(
            with_id.as_str(),
            "redirect_uri",
            self.redirect.as_str(),
        ) {
            Ok(u) => u,
            Err(e) => {
                return Err(e);
            },
        };
        let scope = self.scopes.to_string();
        let with_scope = match add_pair(with_redirect.as_str(), "scope", scope.as_str()) {
            Ok(u) => u,
            Err(e) => {
                return Err(e);
            },
        };
        let with_type = match add_pair(with_scope.as_str(), "response_type", "code") {
            Ok(u) => u,
            Err(e) => {
                return Err(e);
            },
        };
        let force = if self.force_login { "true" } else { "false" };
        add_pair(with_type.as_str(), "force_login", force)
    }

    /// The URL at which `code`, which the authorization gave, is traded for
    /// an access token.
    pub fn token_url(&self, code: &str) -> (r: String)
        ensures
            r@ == token_url_spec(
                self.base@,
                self.client_id@,
                self.client_secret@,
                code@,
                self.redirect@,
            ),
    {
        let mut r = self.base.clone();
        r.append("/oauth/token?client_id=");
        r.append(self.client_id.as_str());
        r.append("&client_secret=");
        r.append(self.client_secret.as_str());
        r.append("&code=");
        r.append(code);
        r.append("&grant_type=authorization_code&redirect_uri=");
        r.append(self.redirect.as_str());
        r
    }

    /// The data of the client that the access token `token` authorizes.
    pub fn complete(&self, token: String) -> (r: Data)
        ensures
            r.base@ == self.base@,
            r.client_id@ == self.client_id@,
            r.client_secret@ == self.client_secret@,
            r.redirect@ == self.redirect@,
            r.token == token,
    {
        Data {
            base: self.base.clone(),
            client_id: self.client_id.clone(),
            client_secret: self.client_secret.clone(),
            redirect: self.redirect.clone(),
            token,
        }
    }
}

} // verus!
