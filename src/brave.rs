use vstd::prelude::*;

verus! {

/// The query as the provider echoes it back.
pub struct Query {
    pub original: String,
}

/// One suggested completion.
pub struct Suggestion {
    pub query: String,
}

/// A decoded reply of the suggestion provider, kept as the provider sent it.
pub struct SuggestResponse {
    pub response_type: String,
    pub query: Query,
    pub results: Vec<Suggestion>,
}

/// Why a suggestion lookup failed.
pub enum SuggestionError {
    /// The HTTP client could not be set up (no TLS backend, no resolver).
    Configuration,
    /// The request did not get through.
    Transport(String),
    /// The body was not a well-formed reply.
    Decode(String),
}

#[verifier::external_type_specification]
#[verifier::external_body]
pub struct ExHttpClient(reqwest::Client);

#[verifier::external_type_specification]
#[verifier::external_body]
pub struct ExHttpError(reqwest::Error);

/// Relies on reqwest::ClientBuilder::build, which fails when a TLS backend
/// cannot be initialised or the resolver cannot load its configuration.
#[verifier::external_body]
fn build_http_client() -> (r: Result<reqwest::Client, reqwest::Error>) {
    reqwest::ClientBuilder::new().build()
}

/// The name of the header that carries the API key.
pub open spec fn token_header() -> Seq<char> {
    seq!['X', '-', 'S', 'u', 'b', 's', 'c', 'r', 'i', 'p', 't', 'i', 'o', 'n', '-', 'T', 'o', 'k', 'e', 'n']
}

/// The query parameters of a lookup of `q`, in the order they are sent.
pub open spec fn suggest_params(q: Seq<char>) -> Seq<(Seq<char>, Seq<char>)> {
    seq![
        (seq!['q'], q),
        (seq!['c', 'o', 'u', 'n', 't', 'r', 'y'], seq!['U', 'S']),
        (seq!['r', 'i', 'c', 'h'], seq!['f', 'a', 'l', 's', 'e']),
    ]
}

/// One GET request to the suggestion provider.
pub struct SuggestRequest {
    pub url: String,
    pub header_name: String,
    pub header_value: String,
    pub params: Vec<(String, String)>,
}

impl SuggestRequest {
    /// The query parameters as plain text.
    pub open spec fn params_view(&self) -> Seq<(Seq<char>, Seq<char>)> {
        self.params@.map_values(|p: (String, String)| (p.0@, p.1@))
    }
}

/// A client of the suggestion provider at one endpoint, with one API key.
pub struct Brave {
    client: reqwest::Client,
    url: String,
    api_key: String,
}

impl Brave {
    pub closed spec fn url_view(&self) -> Seq<char> {
        self.url@
    }

    pub closed spec fn api_key_view(&self) -> Seq<char> {
        self.api_key@
    }

    /// Sets up the HTTP client. The endpoint and the key are kept as given;
    /// only a client that cannot be set up makes this fail.
    pub fn new(url: String, api_key: String) -> (r: Result<Brave, SuggestionError>)
        ensures
            r matches Ok(b) ==> b.url_view() == url@ && b.api_key_view() == api_key@,
            r matches Err(e) ==> e is Configuration,
    {
        match build_http_client() {
            Ok(client) => Ok(Brave { client, url, api_key }),
            Err(_) => Err(SuggestionError::Configuration),
        }
    }

    /// The HTTP client that sends the requests.
    pub fn client(&self) -> &reqwest::Client {
        &self.client
    }

    pub fn url(&self) -> (r: &String)
        ensures
            r@ == self.url_view(),
    {
        &self.url
    }

    pub fn api_key(&self) -> (r: &String)
        ensures
            r@ == self.api_key_view(),
    {
        &self.api_key
    }

    /// The one request that a lookup of `query` sends: a GET to the endpoint,
    /// the key in its header, and `query` unchanged as the `q` parameter.
    pub fn suggest_request(&self, query: &str) -> (r: SuggestRequest)
        ensures
            r.url@ == self.url_view(),
            r.header_name@ == token_header(),
            r.header_value@ == self.api_key_view(),
            r.params_view() == suggest_params(query@),
    {
        proof {
            reveal_strlit("X-Subscription-Token");
            reveal_strlit("q");
            reveal_strlit("country");
            reveal_strlit("US");
            reveal_strlit("rich");
            reveal_strlit("false");
        }
        let mut params: Vec<(String, String)> = Vec::new();
        params.push(("q".to_owned(), query.to_owned()));
        params.push(("country".to_owned(), "US".to_owned()));
        params.push(("rich".to_owned(), "false".to_owned()));
        let r = SuggestRequest {
            url: self.url.clone(),
            header_name: "X-Subscription-Token".to_owned(),
            header_value: self.api_key.clone(),
            params,
        };
        assert("q"@ =~= seq!['q']);
        assert("country"@ =~= seq!['c', 'o', 'u', 'n', 't', 'r', 'y']);
        assert("US"@ =~= seq!['U', 'S']);
        assert("rich"@ =~= seq!['r', 'i', 'c', 'h']);
        assert("false"@ =~= seq!['f', 'a', 'l', 's', 'e']);
        assert(r.params_view() =~= suggest_params(query@));
        r
    }
}

} // verus!
