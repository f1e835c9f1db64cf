use vstd::prelude::*;
use crate::six_degrees_config::SixDegreesConfig;
use vstd::utf8::encode_utf8;
use crate::tmdb::{
    authorization_name, bearer_text, details_endpoint, header_text_ok, search_endpoint, ClientError, PersonClient,
};

verus! {

/// What the route handlers share: the one upstream client of the process.
pub struct RequestController {
    pub person_client: PersonClient,
}

impl RequestController {
    /// Makes the controller and its upstream client from `config`; fails as
    /// `PersonClient::new` does.
    pub fn new(config: Option<SixDegreesConfig>) -> (r: Result<RequestController, ClientError>)
        ensures
            config is None ==> r == Err::<RequestController, ClientError>(
                ClientError::MissingConfig,
            ),
            config matches Some(c) && c.api_token@.len() == 0 ==> r == Err::<
                RequestController,
                ClientError,
            >(ClientError::EmptyToken),
            r matches Ok(rc) ==> config matches Some(c) && rc.person_client.spec_search_url()
                == search_endpoint(c.base_url@) && rc.person_client.spec_details_url()
                == details_endpoint(c.base_url@) && rc.person_client.spec_default_headers().contains_key(
                authorization_name(),
            ) && rc.person_client.spec_default_headers()[authorization_name()] == seq![
                (encode_utf8(bearer_text(c.api_token@)), true),
            ],
            config matches Some(c) && c.api_token@.len() > 0 && !header_text_ok(
                encode_utf8(bearer_text(c.api_token@)),
            ) ==> r == Err::<RequestController, ClientError>(ClientError::InvalidToken),
            config matches Some(c) && c.api_token@.len() > 0 && header_text_ok(
                encode_utf8(bearer_text(c.api_token@)),
            ) ==> r is Ok || r == Err::<RequestController, ClientError>(ClientError::Build),
    {
        match PersonClient::new(config) {
            Ok(person_client) => Ok(RequestController { person_client }),
            Err(e) => Err(e),
        }
    }
}

} // verus!
