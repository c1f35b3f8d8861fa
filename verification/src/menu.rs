//! The menu side of the client: the raw payload shape returned by the menu
//! service, the templated menu endpoint, and the classification of a menu
//! fetch outcome into a summary or a typed error.

use vstd::prelude::*;

use crate::error::GetError;
use crate::summary::spec_complete;
use crate::summary::spec_missing_fields;
use crate::summary::spec_response_builder;
use crate::summary::spec_summary_of;
use crate::summary::BuildError;
use crate::summary::Summary;
use crate::text::contains_sub;
use crate::text::replace_sub;
use crate::text::spec_contains;
use crate::text::spec_replace;

verus! {

/// Raw restaurant menu data from the menu service, already decoded from JSON
/// into plain values by the caller.
pub struct Response {
    pub restaurant_id: i32,
    pub entrees: Vec<Item>,
    pub sides: Vec<Item>,
}

/// Raw menu item from the menu service. The two price fields carry the
/// upstream decimal prices in an opaque 32-bit encoding chosen by the caller;
/// the reduction moves them around but never computes with them.
pub struct Item {
    pub item_category: String,
    pub item_type: String,
    pub item_id: String,
    pub item_name: String,
    pub unit_price: u32,
    pub unit_delivery_price: u32,
}

/// A menu endpoint: a URL format and the token inside it that a store id
/// replaces when the URL is rendered.
#[derive(Debug, PartialEq)]
pub struct Endpoint {
    pub url: String,
    pub replace_token: String,
}

/// Why an endpoint format and replace token were rejected.
#[derive(Debug, PartialEq, Eq, Structural)]
pub enum EndpointConfigError {
    MissingEndpoint,
    MissingReplaceToken,
    ReplaceTokenNotInEndpoint,
}

impl Endpoint {
    /// A well-formed menu endpoint: non-empty format, non-empty token, and the
    /// token occurs in the format.
    pub open spec fn wf(self) -> bool {
        self.url@.len() > 0 && self.replace_token@.len() > 0 && spec_contains(
            self.url@,
            self.replace_token@,
        )
    }

    /// Validates an endpoint format and replace token at configuration time.
    /// An empty token, an empty format, and a token that does not occur in the
    /// format are each rejected with their own error; rendering never checks
    /// again.
    pub fn try_new(endpoint_format: String, replace_token: String) -> (r: Result<
        Self,
        EndpointConfigError,
    >)
        ensures
            r == if replace_token@.len() == 0 {
                Err::<Endpoint, EndpointConfigError>(EndpointConfigError::MissingReplaceToken)
            } else if endpoint_format@.len() == 0 {
                Err::<Endpoint, EndpointConfigError>(EndpointConfigError::MissingEndpoint)
            } else if !spec_contains(endpoint_format@, replace_token@) {
                Err::<Endpoint, EndpointConfigError>(EndpointConfigError::ReplaceTokenNotInEndpoint)
            } else {
                Ok::<Endpoint, EndpointConfigError>(
                    Endpoint { url: endpoint_format, replace_token },
                )
            },
            r is Ok ==> r->Ok_0.wf(),
    {
        if replace_token.as_str().is_empty() {
            return Err(EndpointConfigError::MissingReplaceToken);
        }
        if endpoint_format.as_str().is_empty() {
            return Err(EndpointConfigError::MissingEndpoint);
        }
        if !contains_sub(endpoint_format.as_str(), replace_token.as_str()) {
            return Err(EndpointConfigError::ReplaceTokenNotInEndpoint);
        }
        Ok(Self { url: endpoint_format, replace_token })
    }

    /// Renders the endpoint for one store: every occurrence of the replace
    /// token in the URL format is replaced, literally, by `store_id`.
    pub fn to_url(&self, store_id: &str) -> (r: String)
        requires
            self.replace_token@.len() > 0,
        ensures
            r@ == spec_replace(self.url@, self.replace_token@, store_id@),
    {
        replace_sub(self.url.as_str(), self.replace_token.as_str(), store_id)
    }
}

/// What one attempt to fetch a store's menu came to. The application performs
/// the GET against the rendered URL and reports back: it reads the body only
/// on a success status and decodes it before handing it over.
pub enum MenuFetchEvent {
    /// The request failed in the transport; no response arrived.
    TransportFailed(String),
    /// A response arrived with a non-success status; the body was not read.
    StatusOnly(u16),
    /// A response arrived with a success status but its body was unreadable.
    BodyUnreadable(String),
    /// The body was read but was not valid JSON of the expected shape.
    Unparsable(String),
    /// The body decoded into this raw menu response.
    Parsed(Response),
}

/// Classifies one menu fetch: any transport, status, body or decode failure
/// fails this store's fetch with its own error; a decoded response is reduced
/// to the fixed summary, and an incomplete reduction fails with the missing
/// fields.
pub fn menu_summary_from_fetch(event: MenuFetchEvent) -> (r: Result<Summary, GetError>)
    ensures
        match event {
            MenuFetchEvent::TransportFailed(m) => r == Err::<Summary, GetError>(
                GetError::RequestError(m),
            ),
            MenuFetchEvent::StatusOnly(status) => r == Err::<Summary, GetError>(
                GetError::ResponseError(status),
            ),
            MenuFetchEvent::BodyUnreadable(m) => r == Err::<Summary, GetError>(
                GetError::ResponseBodyError(m),
            ),
            MenuFetchEvent::Unparsable(m) => r == Err::<Summary, GetError>(GetError::ParseError(m)),
            MenuFetchEvent::Parsed(res) => ({
                let b = spec_response_builder(res);
                match r {
                    Ok(s) => spec_complete(b) && s == spec_summary_of(b),
                    Err(GetError::TranslateError(BuildError::MissingFields(fields))) =>
                        !spec_complete(b) && fields.deep_view() == spec_missing_fields(b),
                    Err(_) => false,
                }
            }),
        },
{
    match event {
        MenuFetchEvent::TransportFailed(m) => Err(GetError::RequestError(m)),
        MenuFetchEvent::StatusOnly(status) => Err(GetError::ResponseError(status)),
        MenuFetchEvent::BodyUnreadable(m) => Err(GetError::ResponseBodyError(m)),
        MenuFetchEvent::Unparsable(m) => Err(GetError::ParseError(m)),
        MenuFetchEvent::Parsed(res) => match Summary::from_response(res) {
            Ok(summary) => Ok(summary),
            Err(e) => Err(GetError::TranslateError(e)),
        },
    }
}

} // verus!
