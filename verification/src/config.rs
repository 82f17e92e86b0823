//! What the server is configured with: where it listens, which directory it
//! serves, and the URLs that end up in the documents.

use crate::text::{decimal, push_decimal};
use vstd::prelude::*;

verus! {

/// Directory, host and port of the server.
#[derive(Debug, PartialEq)]
pub struct Serving {
    /// The directory that is served, as the text of its path.
    pub path: String,
    pub host: String,
    pub port: u32,
}

/// The separator of identifiers and the base URLs of the two APIs.
#[derive(Debug, PartialEq)]
pub struct Urls {
    /// What stands between the segments of an identifier in a request.
    pub path_sep: String,
    pub image_api: String,
    pub presentation_api: String,
}

/// The whole configuration.
#[derive(Debug, PartialEq)]
pub struct Config {
    pub serving: Serving,
    pub urls: Urls,
}

impl Clone for Serving {
    fn clone(&self) -> (r: Serving)
        ensures
            r == *self,
    {
        Serving { path: self.path.clone(), host: self.host.clone(), port: self.port }
    }
}

impl Clone for Urls {
    fn clone(&self) -> (r: Urls)
        ensures
            r == *self,
    {
        Urls {
            path_sep: self.path_sep.clone(),
            image_api: self.image_api.clone(),
            presentation_api: self.presentation_api.clone(),
        }
    }
}

impl Clone for Config {
    fn clone(&self) -> (r: Config)
        ensures
            r == *self,
    {
        Config { serving: self.serving.clone(), urls: self.urls.clone() }
    }
}

impl Serving {
    /// The address to listen on: `{host}:{port}`.
    pub fn bind(&self) -> (r: String)
        ensures
            r@ == self.host@ + ":"@ + decimal(self.port as nat),
    {
        let mut out = self.host.clone();
        out.append(":");
        push_decimal(&mut out, self.port as usize);
        out
    }
}

} // verus!
