use vstd::prelude::*;

verus! {

/// The default URL to retrieve the API key from.
pub const DEFAULT_API_KEY_SOURCE_URL: &'static str =
    "https://orderweb-prd-centralus-cdne.azureedge.net/js/app.js";

/// The default endpoint for the restaurant info service.
pub const DEFAULT_RESTAURANT_SERVICE_URL: &'static str =
    "https://services.chipotle.com/restaurant/v3/restaurant/";

/// The default endpoint format for the menu service.
pub const DEFAULT_MENU_SERVICE_URL_FORMAT: &'static str = "https://services.chipotle.com/menuinnovation/v1/restaurants/$store_id/onlinemenu?channelId=web&includeUnavailableItems=true";

/// The substitution token that marks the store id in the menu URL format.
pub const DEFAULT_MENU_SERVICE_URL_REPLACE_TOKEN: &'static str = "$store_id";

/// The header to use to send API keys in requests.
pub const API_KEY_HEADER: &'static str = "Ocp-Apim-Subscription-Key";

} // verus!
