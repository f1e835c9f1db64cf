use vstd::prelude::*;
use vstd::string::StringSliceAdditionalSpecFns;
use vstd::utf8::encode_utf8;
use reqwest::header::{HeaderMap, HeaderValue, InvalidHeaderValue};
use crate::request_url::{decimal, decimal_string, encode_query, percent_encode};
use crate::six_degrees_config::SixDegreesConfig;

verus! {

#[verifier::external_type_specification]
#[verifier::external_body]
pub struct ExHeaderValue(HeaderValue);

#[verifier::external_type_specification]
#[verifier::external_body]
pub struct ExInvalidHeaderValue(InvalidHeaderValue);

#[verifier::external_type_specification]
#[verifier::external_body]
#[verifier::reject_recursive_types(T)]
pub struct ExHeaderMap<T>(HeaderMap<T>);

#[verifier::external_type_specification]
#[verifier::external_body]
pub struct ExClient(reqwest::Client);

#[verifier::external_type_specification]
#[verifier::external_body]
pub struct ExError(reqwest::Error);

/// A byte that an HTTP header value may hold: visible ASCII, a space, a tab,
/// or any byte of 0x80 and above.
pub open spec fn header_byte_ok(b: u8) -> bool {
    (b >= 32 && b != 127) || b == 9
}

/// Whether the UTF-8 form of `text` is a valid HTTP header value.
pub open spec fn header_text_ok(text: Seq<u8>) -> bool {
    forall|i: int| 0 <= i < text.len() ==> header_byte_ok(#[trigger] text[i])
}

/// The bytes an HTTP header value holds.
pub uninterp spec fn header_value_bytes(v: HeaderValue) -> Seq<u8>;

/// Whether an HTTP header value is marked sensitive (kept out of debug output
/// and of header compression).
pub uninterp spec fn header_value_sensitive(v: HeaderValue) -> bool;

/// What a header value is, as plain values: its bytes and its sensitivity mark.
pub open spec fn header_entry(v: HeaderValue) -> (Seq<u8>, bool) {
    (header_value_bytes(v), header_value_sensitive(v))
}

/// What a header map holds: for each (lower-case) header name, its values in
/// order.
pub uninterp spec fn header_map_entries(m: HeaderMap) -> Map<Seq<char>, Seq<(Seq<u8>, bool)>>;

/// The headers an HTTP client sends by default on every request: for each
/// (lower-case) header name, its values in order.
pub uninterp spec fn client_header_entries(c: reqwest::Client) -> Map<
    Seq<char>,
    Seq<(Seq<u8>, bool)>,
>;

/// The name of the `Authorization` header, as a header map keeps it.
pub open spec fn authorization_name() -> Seq<char> {
    seq!['a', 'u', 't', 'h', 'o', 'r', 'i', 'z', 'a', 't', 'i', 'o', 'n']
}

/// A header map that holds exactly one header: `name` with the one value `entry`.
pub open spec fn single_header(name: Seq<char>, entry: (Seq<u8>, bool)) -> Map<
    Seq<char>,
    Seq<(Seq<u8>, bool)>,
> {
    Map::<Seq<char>, Seq<(Seq<u8>, bool)>>::empty().insert(name, seq![entry])
}

/// Relies on http's `HeaderValue::from_str` (re-exported by reqwest): it
/// accepts a string exactly when every byte passes `header_byte_ok`, and the
/// value it makes holds a copy of the string's bytes, not marked sensitive.
pub assume_specification[ HeaderValue::from_str ](src: &str) -> (r: Result<
    HeaderValue,
    InvalidHeaderValue,
>)
    ensures
        r is Ok <==> header_text_ok(src.spec_bytes()),
        r matches Ok(v) ==> header_value_bytes(v) == src.spec_bytes() && !header_value_sensitive(v),
;

/// Relies on http's `HeaderValue::set_sensitive`, which sets the sensitivity
/// mark and leaves the bytes alone.
pub assume_specification[ HeaderValue::set_sensitive ](v: &mut HeaderValue, val: bool)
    ensures
        header_value_bytes(*final(v)) == header_value_bytes(*old(v)),
        header_value_sensitive(*final(v)) == val,
;

/// Relies on http's `HeaderMap::new` and `HeaderMap::insert`: a new map is
/// empty, and inserting under a name it does not hold gives that name the one
/// value. The map is built here, so it can never be full when `insert` runs.
#[verifier::external_body]
fn authorization_headers(value: HeaderValue) -> (r: HeaderMap)
    ensures
        header_map_entries(r) == single_header(authorization_name(), header_entry(value)),
{
    let mut headers = HeaderMap::new();
    headers.insert(reqwest::header::AUTHORIZATION, value);
    headers
}

/// Relies on reqwest's `ClientBuilder::default_headers` and
/// `ClientBuilder::build`: each header of `headers` is inserted into the
/// client's default headers, so a name of `headers` ends with its last value
/// there. The build fails when the TLS backend or the resolver cannot start.
#[verifier::external_body]
fn build_client(headers: HeaderMap) -> (r: Result<reqwest::Client, reqwest::Error>)
    ensures
        r matches Ok(c) ==> forall|k: Seq<char>|
            #[trigger] header_map_entries(headers).contains_key(k) && header_map_entries(
                headers,
            )[k].len() > 0 ==> client_header_entries(c).contains_key(k) && client_header_entries(
                c,
            )[k] == seq![header_map_entries(headers)[k].last()],
{
    reqwest::Client::builder().default_headers(headers).build()
}

/// The scheme word of the `Authorization` header.
pub const BEARER: &'static str = "Bearer";

/// The text of the `Authorization` header for `token`.
pub open spec fn bearer_text(token: Seq<char>) -> Seq<char> {
    BEARER@ + " "@ + token
}

/// Why an upstream client could not be made.
#[derive(Debug, PartialEq, Eq, Structural)]
pub enum ClientError {
    /// No settings were given.
    MissingConfig,
    /// The settings carry no token.
    EmptyToken,
    /// The token holds a byte that no header value may hold.
    InvalidToken,
    /// The HTTP client itself could not be built.
    Build,
}

/// A client of the upstream API's person endpoints. Every request it sends
/// carries the bearer token it was made with.
pub struct PersonClient {
    tmdb_client: reqwest::Client,
    search_url: String,
    details_url: String,
}

/// Where people are searched, under the API root `base`.
pub open spec fn search_endpoint(base: Seq<char>) -> Seq<char> {
    base + "/search/person"@
}

/// Where one person is looked up, under the API root `base`.
pub open spec fn details_endpoint(base: Seq<char>) -> Seq<char> {
    base + "/person"@
}

fn join(base: &String, tail: &str) -> (r: String)
    ensures
        r@ == base@ + tail@,
{
    let mut r = base.clone();
    r.append(tail);
    r
}

impl PersonClient {
    /// The endpoint that searches are sent to.
    pub closed spec fn spec_search_url(&self) -> Seq<char> {
        self.search_url@
    }

    /// The endpoint under which people are looked up by id.
    pub closed spec fn spec_details_url(&self) -> Seq<char> {
        self.details_url@
    }

    /// The headers the client sends on every request.
    pub closed spec fn spec_default_headers(&self) -> Map<Seq<char>, Seq<(Seq<u8>, bool)>> {
        client_header_entries(self.tmdb_client)
    }

    /// Makes a client for the API at `config.base_url`, authorised by
    /// `config.api_token`.
    pub fn new(config: Option<SixDegreesConfig>) -> (r: Result<PersonClient, ClientError>)
        ensures
            config is None ==> r == Err::<PersonClient, ClientError>(ClientError::MissingConfig),
            config matches Some(c) && c.api_token@.len() == 0 ==> r == Err::<
                PersonClient,
                ClientError,
            >(ClientError::EmptyToken),
            config matches Some(c) && c.api_token@.len() > 0 && !header_text_ok(
                encode_utf8(bearer_text(c.api_token@)),
            ) ==> r == Err::<PersonClient, ClientError>(ClientError::InvalidToken),
            config matches Some(c) && c.api_token@.len() > 0 && header_text_ok(
                encode_utf8(bearer_text(c.api_token@)),
            ) ==> r is Ok || r == Err::<PersonClient, ClientError>(ClientError::Build),
            r matches Ok(client) ==> config matches Some(c) && client.spec_search_url()
                == search_endpoint(c.base_url@) && client.spec_details_url() == details_endpoint(
                c.base_url@,
            ) && client.spec_default_headers().contains_key(authorization_name())
                && client.spec_default_headers()[authorization_name()] == seq![
                (encode_utf8(bearer_text(c.api_token@)), true),
            ],
    {
        match config {
            None => Err(ClientError::MissingConfig),
            Some(config) => {
                if !config.has_token() {
                    return Err(ClientError::EmptyToken);
                }
                let headers = match Self::create_headers(&config.api_token) {
                    Ok(h) => h,
                    Err(_) => {
                        return Err(ClientError::InvalidToken);
                    },
                };
                assert(header_map_entries(headers).contains_key(authorization_name()));
                match build_client(headers) {
                    Ok(client) => Ok(
                        PersonClient {
                            tmdb_client: client,
                            search_url: join(&config.base_url, "/search/person"),
                            details_url: join(&config.base_url, "/person"),
                        },
                    ),
                    Err(_) => Err(ClientError::Build),
                }
            },
        }
    }

    /// The header map sent on every request: exactly one header,
    /// `Authorization: Bearer <token>`, marked sensitive. Fails when that text
    /// is no valid header value.
    pub fn create_headers(auth_token: &String) -> (r: Result<HeaderMap, InvalidHeaderValue>)
        ensures
            r is Ok <==> header_text_ok(encode_utf8(bearer_text(auth_token@))),
            r matches Ok(m) ==> header_map_entries(m) == single_header(
                authorization_name(),
                (encode_utf8(bearer_text(auth_token@)), true),
            ),
    {
        match Self::create_auth_header(auth_token) {
            Ok(auth_value) => Ok(authorization_headers(auth_value)),
            Err(e) => Err(e),
        }
    }

    /// The text `Bearer <token>`.
    pub fn bearer_header_text(auth_token: &str) -> (r: String)
        ensures
            r@ == bearer_text(auth_token@),
    {
        let mut text = String::from_str(BEARER);
        text.append(" ");
        text.append(auth_token);
        text
    }

    /// The `Authorization` value for `auth_token`: the bytes of
    /// `Bearer <token>`, marked sensitive. Fails when that text is no valid
    /// header value.
    pub fn create_auth_header(auth_token: &String) -> (r: Result<HeaderValue, InvalidHeaderValue>)
        ensures
            r is Ok <==> header_text_ok(encode_utf8(bearer_text(auth_token@))),
            r matches Ok(v) ==> header_value_bytes(v) == encode_utf8(bearer_text(auth_token@))
                && header_value_sensitive(v),
    {
        let text = Self::bearer_header_text(auth_token.as_str());
        match HeaderValue::from_str(text.as_str()) {
            Ok(mut value) => {
                value.set_sensitive(true);
                Ok(value)
            },
            Err(e) => Err(e),
        }
    }

    /// The HTTP client that carries the authorization header.
    pub fn http_client(&self) -> &reqwest::Client {
        &self.tmdb_client
    }

    /// The endpoint that searches are sent to.
    pub fn search_url(&self) -> (r: &String)
        ensures
            r@ == self.spec_search_url(),
    {
        &self.search_url
    }

    /// The endpoint under which people are looked up by id.
    pub fn details_url(&self) -> (r: &String)
        ensures
            r@ == self.spec_details_url(),
    {
        &self.details_url
    }

    /// The URL that looks up the person with this id: `<details>/<id>`.
    pub fn person_url(&self, id: i32) -> (r: String)
        ensures
            r@ == self.spec_details_url() + "/"@ + decimal(id as int),
    {
        let mut url = join(&self.details_url, "/");
        let digits = decimal_string(id);
        url.append(digits.as_str());
        url
    }

    /// The URL that searches for people by name: `<search>?query=<query>`,
    /// with the query percent-encoded.
    pub fn search_request_url(&self, query: &str) -> (r: String)
        ensures
            r@ == self.spec_search_url() + "?query="@ + percent_encode(query.spec_bytes()),
    {
        let mut url = join(&self.search_url, "?query=");
        let encoded = encode_query(query);
        url.append(encoded.as_str());
        url
    }
}

} // verus!
