//! Builder for the browser-backed client's configuration.

use vstd::prelude::*;
use crate::mangalib::HeadlessBrowserClient;

verus! {

pub const USER_AGENT: &'static str = "Mozilla/5.0 (Macintosh; Intel Mac OS X 10_15_7) AppleWebKit/537.36 (KHTML, like Gecko) Chrome/91.0.4472.114 Safari/537.36";

pub const ACCEPT_LANGUAGE: &'static str = "en-US,en;q=0.9,hi;q=0.8,es;q=0.7,lt;q=0.6";

pub const PLATFORM: &'static str = "macOS";

pub const IMAGE_SERVER_PREFIX: &'static str = "https://img33.imgslib.link";

pub const MANGALIB_DEFAULT_BASE_URL: &'static str = "https://api.mangalib.me";

/// Collects overrides for the client configuration; [`Builder::build`] fills
/// every field that was not set with its default.
#[derive(Debug)]
pub struct Builder {
    user_agent: Option<String>,
    accept_language: Option<String>,
    platform: Option<String>,
    image_server_prefix: Option<String>,
    base_url: Option<String>,
}

impl Default for Builder {
    /// A builder with no overrides set.
    fn default() -> (b: Self)
        ensures
            b@ == BuilderView::empty(),
    {
        Builder {
            user_agent: None,
            accept_language: None,
            platform: None,
            image_server_prefix: None,
            base_url: None,
        }
    }
}

/// The mathematical value of a [`Builder`]: each override as an optional
/// character sequence.
pub struct BuilderView {
    pub user_agent: Option<Seq<char>>,
    pub accept_language: Option<Seq<char>>,
    pub platform: Option<Seq<char>>,
    pub image_server_prefix: Option<Seq<char>>,
    pub base_url: Option<Seq<char>>,
}

impl BuilderView {
    /// The value of a builder with no overrides.
    pub open spec fn empty() -> BuilderView {
        BuilderView {
            user_agent: None,
            accept_language: None,
            platform: None,
            image_server_prefix: None,
            base_url: None,
        }
    }
}

impl View for Builder {
    type V = BuilderView;

    closed spec fn view(&self) -> BuilderView {
        BuilderView {
            user_agent: match self.user_agent {
                Some(ref s) => Some(s@),
                None => None,
            },
            accept_language: match self.accept_language {
                Some(ref s) => Some(s@),
                None => None,
            },
            platform: match self.platform {
                Some(ref s) => Some(s@),
                None => None,
            },
            image_server_prefix: match self.image_server_prefix {
                Some(ref s) => Some(s@),
                None => None,
            },
            base_url: match self.base_url {
                Some(ref s) => Some(s@),
                None => None,
            },
        }
    }
}

/// The string a configuration field ends up with: the override if one was
/// set, the default otherwise.
pub open spec fn configured(field: Option<Seq<char>>, default: Seq<char>) -> Seq<char> {
    match field {
        Some(s) => s,
        None => default,
    }
}

impl Builder {
    /// Overrides the user agent reported to the scraped site.
    pub fn user_agent(self, user_agent: &str) -> (b: Self)
        ensures
            b@ == (BuilderView { user_agent: Some(user_agent@), ..self@ }),
    {
        Builder { user_agent: Some(user_agent.to_owned()), ..self }
    }

    /// Overrides the accept-language header value.
    pub fn accept_language(self, accept_language: &str) -> (b: Self)
        ensures
            b@ == (BuilderView { accept_language: Some(accept_language@), ..self@ }),
    {
        Builder { accept_language: Some(accept_language.to_owned()), ..self }
    }

    /// Overrides the platform reported to the scraped site.
    pub fn platform(self, platform: &str) -> (b: Self)
        ensures
            b@ == (BuilderView { platform: Some(platform@), ..self@ }),
    {
        Builder { platform: Some(platform.to_owned()), ..self }
    }

    /// Overrides the prefix prepended to every relative image path.
    pub fn image_server_prefix(self, image_server_prefix: &str) -> (b: Self)
        ensures
            b@ == (BuilderView { image_server_prefix: Some(image_server_prefix@), ..self@ }),
    {
        Builder { image_server_prefix: Some(image_server_prefix.to_owned()), ..self }
    }

    /// Overrides the base URL of the upstream API.
    pub fn base_url(self, base_url: &str) -> (b: Self)
        ensures
            b@ == (BuilderView { base_url: Some(base_url@), ..self@ }),
    {
        Builder { base_url: Some(base_url.to_owned()), ..self }
    }

    /// Produces the client configuration, filling every field that was not
    /// overridden with its default.
    pub fn build(self) -> (c: HeadlessBrowserClient)
        ensures
            c.user_agent@ == configured(self@.user_agent, USER_AGENT@),
            c.accept_language@ == configured(self@.accept_language, ACCEPT_LANGUAGE@),
            c.platform@ == configured(self@.platform, PLATFORM@),
            c.image_server_prefix@ == configured(self@.image_server_prefix, IMAGE_SERVER_PREFIX@),
            c.base_url@ == configured(self@.base_url, MANGALIB_DEFAULT_BASE_URL@),
    {
        HeadlessBrowserClient {
            user_agent: match self.user_agent {
                Some(s) => s,
                None => USER_AGENT.to_owned(),
            },
            accept_language: match self.accept_language {
                Some(s) => s,
                None => ACCEPT_LANGUAGE.to_owned(),
            },
            platform: match self.platform {
                Some(s) => s,
                None => PLATFORM.to_owned(),
            },
            image_server_prefix: match self.image_server_prefix {
                Some(s) => s,
                None => IMAGE_SERVER_PREFIX.to_owned(),
            },
            base_url: match self.base_url {
                Some(s) => s,
                None => MANGALIB_DEFAULT_BASE_URL.to_owned(),
            },
        }
    }
}

} // verus!
