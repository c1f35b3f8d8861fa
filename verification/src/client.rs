//! The endpoint configuration a client session is built from, and its
//! validation: the menu endpoint is a template and must carry a replace
//! token; the restaurant endpoint is a plain URL and must not.

use vstd::prelude::*;

verus! {

/// One configured endpoint: a URL, and the replace token inside it when the
/// endpoint is a template.
#[derive(Clone, Debug)]
pub struct Endpoint {
    pub url: String,
    pub replace_token: Option<String>,
}

/// The overridable endpoints of a client session.
#[derive(Clone, Debug)]
pub struct EndpointConfig {
    pub menu: Option<Endpoint>,
    pub restaurant: Option<Endpoint>,
}

/// Why an endpoint configuration was rejected: the name of the offending
/// endpoint, and its URL or the superfluous token.
#[derive(Debug, PartialEq, Eq)]
pub enum EndpointConfigError {
    MissingReplaceToken(String, String),
    UnnecessaryReplaceToken(String, String),
}

/// Why a client session could not be built.
#[derive(Debug, PartialEq, Eq)]
pub enum ClientInitError {
    InvalidEndpointConfig(EndpointConfigError),
}

impl EndpointConfig {
    /// A configuration that passes validation: a configured menu endpoint
    /// carries a replace token, a configured restaurant endpoint does not.
    pub open spec fn spec_valid(self) -> bool {
        &&& (self.menu is Some ==> self.menu->0.replace_token is Some)
        &&& (self.restaurant is Some ==> self.restaurant->0.replace_token is None)
    }

    /// Checks the configuration once, at construction time. A menu endpoint
    /// without a token is reported first; then a restaurant endpoint with one.
    pub fn validate(&self) -> (r: Result<(), EndpointConfigError>)
        ensures
            match r {
                Ok(_) => self.spec_valid(),
                Err(EndpointConfigError::MissingReplaceToken(which, url)) => {
                    &&& self.menu is Some
                    &&& self.menu->0.replace_token is None
                    &&& which@ == "menu"@
                    &&& url@ == self.menu->0.url@
                },
                Err(EndpointConfigError::UnnecessaryReplaceToken(which, token)) => {
                    &&& (self.menu is Some ==> self.menu->0.replace_token is Some)
                    &&& self.restaurant is Some
                    &&& self.restaurant->0.replace_token is Some
                    &&& which@ == "restaurant"@
                    &&& token@ == self.restaurant->0.replace_token->0@
                },
            },
    {
        if let Some(menu) = &self.menu {
            if menu.replace_token.is_none() {
                return Err(
                    EndpointConfigError::MissingReplaceToken(
                        String::from_str("menu"),
                        menu.url.clone(),
                    ),
                );
            }
        }
        if let Some(restaurant) = &self.restaurant {
            if restaurant.replace_token.is_some() {
                let token = restaurant.replace_token.as_ref().unwrap();
                return Err(
                    EndpointConfigError::UnnecessaryReplaceToken(
                        String::from_str("restaurant"),
                        token.clone(),
                    ),
                );
            }
        }
        Ok(())
    }
}

} // verus!
