//! What the two clients make of their environment: where to connect, and as whom.
use crate::text::{joined, same, text_view, texts, trim, trimmed};
use std::str::FromStr;
use tokio_tungstenite::tungstenite::http::HeaderValue;
use tonic::metadata::{Ascii, MetadataValue};
use tonic::transport::Channel;
use vstd::prelude::*;

verus! {

/// The scope of access that the speech client works under.
pub const GOOGLE_SCOPE: &'static str = "https://www.googleapis.com/auth/cloud-platform";

/// Where the service is looked for unless the environment says otherwise.
pub const DEFAULT_LOCATION: &'static str = "europe-west4";

/// The variables of the environment that the speech client reads: `None` where one is not
/// set, or is no text.
#[derive(Debug)]
pub struct SpeechEnv {
    /// `GOOGLE_CLOUD_PROJECT`
    pub project: Option<String>,
    /// `GOOGLE_CLOUD_LOCATION`
    pub location: Option<String>,
    /// `GOOGLE_CLOUD_SPEECH_ENDPOINT`
    pub endpoint: Option<String>,
    /// `GOOGLE_API_TOKEN`
    pub api_token: Option<String>,
    /// `GOOGLE_ACCESS_TOKEN`
    pub access_token: Option<String>,
}

/// What the speech client connects to, and as whom.
#[derive(Debug)]
pub struct SpeechSettings {
    pub project_id: String,
    pub location: String,
    pub endpoint: String,
    /// The domain that the certificate of the service is to be for.
    pub tls_domain: String,
    pub bearer_token: String,
    pub recognizer: String,
}

/// What is wrong with the settings.
#[derive(Debug)]
pub enum SettingsError {
    MissingProject,
    /// Neither of the two tokens is set.
    NoToken,
    /// The client cannot start, as there is no token.
    MissingToken,
    InvalidEndpoint { endpoint: String },
    InvalidToken,
    InvalidUserProject,
    MissingApiKey,
    InvalidApiKey,
}

/// What a [`SpeechEnv`] holds.
pub struct SpeechEnvView {
    pub project: Option<Seq<char>>,
    pub location: Option<Seq<char>>,
    pub endpoint: Option<Seq<char>>,
    pub api_token: Option<Seq<char>>,
    pub access_token: Option<Seq<char>>,
}

/// What a [`SpeechSettings`] holds.
pub struct SpeechSettingsView {
    pub project_id: Seq<char>,
    pub location: Seq<char>,
    pub endpoint: Seq<char>,
    pub tls_domain: Seq<char>,
    pub bearer_token: Seq<char>,
    pub recognizer: Seq<char>,
}

/// What a [`SettingsError`] holds.
pub enum SettingsErrorView {
    MissingProject,
    NoToken,
    MissingToken,
    InvalidEndpoint { endpoint: Seq<char> },
    InvalidToken,
    InvalidUserProject,
    MissingApiKey,
    InvalidApiKey,
}

impl View for SpeechEnv {
    type V = SpeechEnvView;

    open spec fn view(&self) -> SpeechEnvView {
        SpeechEnvView {
            project: text_view(self.project),
            location: text_view(self.location),
            endpoint: text_view(self.endpoint),
            api_token: text_view(self.api_token),
            access_token: text_view(self.access_token),
        }
    }
}

impl View for SpeechSettings {
    type V = SpeechSettingsView;

    open spec fn view(&self) -> SpeechSettingsView {
        SpeechSettingsView {
            project_id: self.project_id@,
            location: self.location@,
            endpoint: self.endpoint@,
            tls_domain: self.tls_domain@,
            bearer_token: self.bearer_token@,
            recognizer: self.recognizer@,
        }
    }
}

impl View for SettingsError {
    type V = SettingsErrorView;

    open spec fn view(&self) -> SettingsErrorView {
        match *self {
            SettingsError::MissingProject => SettingsErrorView::MissingProject,
            SettingsError::NoToken => SettingsErrorView::NoToken,
            SettingsError::MissingToken => SettingsErrorView::MissingToken,
            SettingsError::InvalidEndpoint { endpoint } => SettingsErrorView::InvalidEndpoint {
                endpoint: endpoint@,
            },
            SettingsError::InvalidToken => SettingsErrorView::InvalidToken,
            SettingsError::InvalidUserProject => SettingsErrorView::InvalidUserProject,
            SettingsError::MissingApiKey => SettingsErrorView::MissingApiKey,
            SettingsError::InvalidApiKey => SettingsErrorView::InvalidApiKey,
        }
    }
}

/// The text of an error.
pub open spec fn settings_message(error: SettingsErrorView) -> Seq<char> {
    match error {
        SettingsErrorView::MissingProject =>
            "set GOOGLE_CLOUD_PROJECT to your Google Cloud project id"@,
        SettingsErrorView::NoToken => "missing Google access token"@,
        SettingsErrorView::MissingToken =>
            "set GOOGLE_API_TOKEN or GOOGLE_ACCESS_TOKEN, or run `gcloud auth application-default print-access-token` and export the result"@,
        SettingsErrorView::InvalidEndpoint { endpoint } => "invalid speech endpoint: "@ + endpoint,
        SettingsErrorView::InvalidToken => "invalid bearer token"@,
        SettingsErrorView::InvalidUserProject =>
            "failed to encode x-goog-user-project metadata"@,
        SettingsErrorView::MissingApiKey =>
            "set OPENAI_API_KEY to an OpenAI API key before running this example"@,
        SettingsErrorView::InvalidApiKey => "invalid OPENAI_API_KEY header value"@,
    }
}

impl SettingsError {
    /// The text of the error.
    pub fn message(&self) -> (r: String)
        ensures
            r@ == settings_message(self@),
    {
        match self {
            SettingsError::MissingProject =>
                "set GOOGLE_CLOUD_PROJECT to your Google Cloud project id".to_owned(),
            SettingsError::NoToken => "missing Google access token".to_owned(),
            SettingsError::MissingToken =>
                "set GOOGLE_API_TOKEN or GOOGLE_ACCESS_TOKEN, or run `gcloud auth application-default print-access-token` and export the result".to_owned(),
            SettingsError::InvalidEndpoint { endpoint } => joined(
                "invalid speech endpoint: ",
                endpoint.as_str(),
            ),
            SettingsError::InvalidToken => "invalid bearer token".to_owned(),
            SettingsError::InvalidUserProject =>
                "failed to encode x-goog-user-project metadata".to_owned(),
            SettingsError::MissingApiKey =>
                "set OPENAI_API_KEY to an OpenAI API key before running this example".to_owned(),
            SettingsError::InvalidApiKey => "invalid OPENAI_API_KEY header value".to_owned(),
        }
    }
}

/// The domain of the service at a location.
pub open spec fn domain_text(location: Seq<char>) -> Seq<char> {
    if location == "global"@ {
        "speech.googleapis.com"@
    } else {
        location + "-speech.googleapis.com"@
    }
}

/// The address of the service at a location.
pub open spec fn endpoint_text(location: Seq<char>) -> Seq<char> {
    if location == "global"@ {
        "https://speech.googleapis.com"@
    } else {
        "https://"@ + location + "-speech.googleapis.com"@
    }
}

/// The name of the default recognizer of a project at a location.
pub open spec fn recognizer_text(project_id: Seq<char>, location: Seq<char>) -> Seq<char> {
    "projects/"@ + project_id + "/locations/"@ + location + "/recognizers/_"@
}

/// The token to use: the first of the two that is set, without white space around it.
pub open spec fn chosen_token(
    api_token: Option<Seq<char>>,
    access_token: Option<Seq<char>>,
) -> Option<Seq<char>> {
    match api_token {
        Some(token) => Some(trimmed(token)),
        None => match access_token {
            Some(token) => Some(trimmed(token)),
            None => None,
        },
    }
}

/// The value, or `default` where there is none.
pub open spec fn or_default(value: Option<Seq<char>>, default: Seq<char>) -> Seq<char> {
    match value {
        Some(value) => value,
        None => default,
    }
}

/// What the client makes of the environment. A project and a token must be set. The
/// certificate is to be for the location, whatever the address.
pub open spec fn resolved(env: SpeechEnvView) -> Result<SpeechSettingsView, SettingsErrorView> {
    match env.project {
        None => Err(SettingsErrorView::MissingProject),
        Some(project_id) => match chosen_token(env.api_token, env.access_token) {
            None => Err(SettingsErrorView::MissingToken),
            Some(bearer_token) => {
                let location = or_default(env.location, DEFAULT_LOCATION@);
                Ok(
                    SpeechSettingsView {
                        project_id,
                        location,
                        endpoint: or_default(env.endpoint, endpoint_text(location)),
                        tls_domain: domain_text(location),
                        bearer_token,
                        recognizer: recognizer_text(project_id, location),
                    },
                )
            },
        },
    }
}

/// Whether a text can be the value of a header: each character is a tab, or is no ASCII
/// control character.
pub open spec fn header_text(s: Seq<char>) -> bool {
    forall|i: int|
        0 <= i < s.len() ==> #[trigger] s[i] == '\t' || (' ' <= s[i] && s[i] != '\u{7f}')
}

/// The value of the header that gives a token.
pub open spec fn bearer_text(token: Seq<char>) -> Seq<char> {
    "Bearer "@ + token
}

/// Whether `tonic::transport::Channel::from_shared` takes `endpoint` for an address.
pub uninterp spec fn endpoint_accepted(endpoint: Seq<char>) -> bool;

/// Calls `tonic::transport::Channel::from_shared` and says whether it took the text for an
/// address.
#[verifier::external_body]
fn accepts_endpoint(endpoint: &str) -> (r: bool)
    ensures
        r == endpoint_accepted(endpoint@),
{
    Channel::from_shared(endpoint.to_owned()).is_ok()
}

/// Calls `from_str` of `tonic::metadata::MetadataValue<Ascii>` and says whether it took the
/// text: it refuses ASCII control characters other than the tab.
#[verifier::external_body]
fn accepts_metadata(value: &str) -> (r: bool)
    ensures
        r == header_text(value@),
{
    MetadataValue::<Ascii>::from_str(value).is_ok()
}

/// Calls `http::HeaderValue::from_str` and says whether it took the text: it refuses ASCII
/// control characters other than the tab.
#[verifier::external_body]
fn accepts_header(value: &str) -> (r: bool)
    ensures
        r == header_text(value@),
{
    HeaderValue::from_str(value).is_ok()
}

/// The address of the service at a location.
pub fn speech_endpoint(location: &str) -> (r: String)
    ensures
        r@ == endpoint_text(location@),
{
    if same(location, "global") {
        "https://speech.googleapis.com".to_owned()
    } else {
        let mut r = joined("https://", location);
        r.append("-speech.googleapis.com");
        r
    }
}

/// The domain of the service at a location.
pub fn speech_domain(location: &str) -> (r: String)
    ensures
        r@ == domain_text(location@),
{
    if same(location, "global") {
        "speech.googleapis.com".to_owned()
    } else {
        joined(location, "-speech.googleapis.com")
    }
}

/// The name of the default recognizer of a project at a location.
pub fn recognizer_name(project_id: &str, location: &str) -> (r: String)
    ensures
        r@ == recognizer_text(project_id@, location@),
{
    let mut r = joined("projects/", project_id);
    r.append("/locations/");
    r.append(location);
    r.append("/recognizers/_");
    r
}

/// The token to use: the first of the two that is set, without white space around it.
pub fn read_bearer_token(api_token: Option<String>, access_token: Option<String>) -> (r: Result<
    String,
    SettingsError,
>)
    ensures
        match chosen_token(
            text_view(api_token),
            text_view(access_token),
        ) {
            Some(token) => r matches Ok(t) && t@ == token,
            None => r matches Err(e) && e@ == SettingsErrorView::NoToken,
        },
{
    match api_token {
        Some(token) => Ok(trim(token.as_str()).to_owned()),
        None => match access_token {
            Some(token) => Ok(trim(token.as_str()).to_owned()),
            None => Err(SettingsError::NoToken),
        },
    }
}

impl SpeechSettings {
    /// What the client makes of the environment.
    pub fn resolve(env: SpeechEnv) -> (r: Result<SpeechSettings, SettingsError>)
        ensures
            match resolved(env@) {
                Ok(settings) => r matches Ok(s) && s@ == settings,
                Err(error) => r matches Err(e) && e@ == error,
            },
            r matches Ok(s) ==> {
                &&& env.project matches Some(project) && s.project_id@ == project@
                &&& env.location matches Some(location) ==> s.location@ == location@
                &&& env.location is None ==> s.location@ == "europe-west4"@
                &&& env.endpoint matches Some(endpoint) ==> s.endpoint@ == endpoint@
                &&& env.endpoint is None ==> s.endpoint@ == "https://"@ + s.tls_domain@
                &&& s.recognizer@ == "projects/"@ + s.project_id@ + "/locations/"@ + s.location@
                    + "/recognizers/_"@
            },
    {
        proof {
            law_endpoint_is_of_location(env@);
        }
        let project_id = match env.project {
            Some(project_id) => project_id,
            None => {
                return Err(SettingsError::MissingProject);
            },
        };
        let location = match env.location {
            Some(location) => location,
            None => DEFAULT_LOCATION.to_owned(),
        };
        let endpoint = match env.endpoint {
            Some(endpoint) => endpoint,
            None => speech_endpoint(location.as_str()),
        };
        let bearer_token = match read_bearer_token(env.api_token, env.access_token) {
            Ok(token) => token,
            Err(_) => {
                return Err(SettingsError::MissingToken);
            },
        };
        let recognizer = recognizer_name(project_id.as_str(), location.as_str());
        let tls_domain = speech_domain(location.as_str());
        Ok(
            SpeechSettings {
                project_id,
                location,
                endpoint,
                tls_domain,
                bearer_token,
                recognizer,
            },
        )
    }
}

/// Whether the address can be connected to at all.
pub fn check_endpoint(endpoint: &str) -> (r: Result<(), SettingsError>)
    ensures
        match r {
            Ok(()) => endpoint_accepted(endpoint@),
            Err(e) => !endpoint_accepted(endpoint@) && e@ == (SettingsErrorView::InvalidEndpoint {
                endpoint: endpoint@,
            }),
        },
{
    if accepts_endpoint(endpoint) {
        Ok(())
    } else {
        Err(SettingsError::InvalidEndpoint { endpoint: endpoint.to_owned() })
    }
}

/// The value of the `authorization` metadata of the speech client.
pub fn speech_authorization(token: &str) -> (r: Result<String, SettingsError>)
    ensures
        match r {
            Ok(value) => header_text(bearer_text(token@)) && value@ == bearer_text(token@),
            Err(e) => !header_text(bearer_text(token@)) && e@ == SettingsErrorView::InvalidToken,
        },
        r matches Ok(value) ==> value@ == "Bearer "@ + token@,
        r is Ok <==> header_text("Bearer "@ + token@),
{
    let value = joined("Bearer ", token);
    if accepts_metadata(value.as_str()) {
        Ok(value)
    } else {
        Err(SettingsError::InvalidToken)
    }
}

/// The value of the `x-goog-user-project` metadata of the speech client.
pub fn user_project(project_id: &str) -> (r: Result<String, SettingsError>)
    ensures
        match r {
            Ok(value) => header_text(project_id@) && value@ == project_id@,
            Err(e) => !header_text(project_id@) && e@ == SettingsErrorView::InvalidUserProject,
        },
{
    if accepts_metadata(project_id) {
        Ok(project_id.to_owned())
    } else {
        Err(SettingsError::InvalidUserProject)
    }
}

/// The value of the `Authorization` header of the realtime client: `api_key` is the
/// variable `OPENAI_API_KEY`.
pub fn realtime_authorization(api_key: Option<String>) -> (r: Result<String, SettingsError>)
    ensures
        match text_view(api_key) {
            None => r matches Err(e) && e@ == SettingsErrorView::MissingApiKey,
            Some(key) => match r {
                Ok(value) => header_text(bearer_text(key)) && value@ == bearer_text(key),
                Err(e) => !header_text(bearer_text(key)) && e@ == SettingsErrorView::InvalidApiKey,
            },
        },
        r matches Ok(value) ==> (api_key matches Some(key) && value@ == "Bearer "@ + key@),
        api_key matches Some(key) ==> (r is Ok <==> header_text("Bearer "@ + key@)),
{
    match api_key {
        None => Err(SettingsError::MissingApiKey),
        Some(key) => {
            let value = joined("Bearer ", key.as_str());
            if accepts_header(value.as_str()) {
                Ok(value)
            } else {
                Err(SettingsError::InvalidApiKey)
            }
        },
    }
}

/// The address of the service at a location is that of its domain, over HTTPS.
pub proof fn law_endpoint_is_domain(location: Seq<char>)
    ensures
        endpoint_text(location) == "https://"@ + domain_text(location),
{
    reveal_strlit("https://speech.googleapis.com");
    reveal_strlit("https://");
    reveal_strlit("speech.googleapis.com");
    assert("https://speech.googleapis.com"@ =~= "https://"@ + "speech.googleapis.com"@);
    assert(endpoint_text(location) =~= "https://"@ + domain_text(location));
}

/// No two locations have the same domain.
pub proof fn law_domain_tells_location(a: Seq<char>, b: Seq<char>)
    requires
        domain_text(a) == domain_text(b),
    ensures
        a == b,
{
    reveal_strlit("speech.googleapis.com");
    reveal_strlit("-speech.googleapis.com");
    let tail = "-speech.googleapis.com"@;
    assert(tail.len() == 22);
    assert("speech.googleapis.com"@.len() == 21);
    if a != "global"@ && b != "global"@ {
        assert(a + tail == b + tail);
        assert(a =~= (a + tail).take((a + tail).len() - tail.len()));
        assert(b =~= (b + tail).take((b + tail).len() - tail.len()));
    } else if a != "global"@ {
        assert((a + tail).len() == "speech.googleapis.com"@.len());
    } else if b != "global"@ {
        assert((b + tail).len() == "speech.googleapis.com"@.len());
    }
}

/// The lines that the speech client prints when it has started.
pub open spec fn banner_text(endpoint: Seq<char>, recognizer: Seq<char>) -> Seq<Seq<char>> {
    seq![
        "Streaming microphone audio to Google Speech-to-Text v2. Press Ctrl+C to stop."@,
        "Lowest live price tier: v2 standard recognition ($0.016/min as of 2026-05-15)."@,
        "Using scope: "@ + GOOGLE_SCOPE@,
        "Using endpoint: "@ + endpoint,
        "Using recognizer: "@ + recognizer,
    ]
}

/// The lines that the speech client prints when it has started.
pub fn startup_banner(endpoint: &str, recognizer: &str) -> (r: Vec<String>)
    ensures
        texts(r@) == banner_text(endpoint@, recognizer@),
{
    let r: Vec<String> = vec![
        "Streaming microphone audio to Google Speech-to-Text v2. Press Ctrl+C to stop.".to_owned(),
        "Lowest live price tier: v2 standard recognition ($0.016/min as of 2026-05-15).".to_owned(),
        joined("Using scope: ", GOOGLE_SCOPE),
        joined("Using endpoint: ", endpoint),
        joined("Using recognizer: ", recognizer),
    ];
    assert(texts(r@) =~= banner_text(endpoint@, recognizer@));
    r
}

/// Where no address is set, it is that of the TLS domain, over HTTPS; and the domain is that of
/// the location that is set. A set address is taken as it is, and the domain stays.
pub proof fn law_endpoint_is_of_location(env: SpeechEnvView)
    ensures
        resolved(env) matches Ok(s) ==> {
            &&& env.location matches Some(location) ==> s.location == location
            &&& env.location is None ==> s.location == "europe-west4"@
            &&& env.endpoint matches Some(endpoint) ==> s.endpoint == endpoint
            &&& env.endpoint is None ==> s.endpoint == "https://"@ + s.tls_domain
            &&& s.location == "global"@ ==> s.tls_domain == "speech.googleapis.com"@
            &&& s.location != "global"@ ==> s.tls_domain == s.location + "-speech.googleapis.com"@
        },
{
    if resolved(env) is Ok {
        law_endpoint_is_domain(resolved(env)->Ok_0.location);
    }
}

/// Where no address is set, two environments with different locations have different addresses
/// and different domains.
pub proof fn law_endpoint_tells_location(a: SpeechEnvView, b: SpeechEnvView)
    requires
        a.endpoint is None,
        b.endpoint is None,
    ensures
        resolved(a) matches Ok(s) ==> (resolved(b) matches Ok(t) ==> {
            &&& s.location != t.location ==> s.endpoint != t.endpoint
            &&& s.location != t.location ==> s.tls_domain != t.tls_domain
            &&& s.location == t.location ==> s.endpoint == t.endpoint
        }),
{
    if resolved(a) is Ok && resolved(b) is Ok {
        let s = resolved(a)->Ok_0;
        let t = resolved(b)->Ok_0;
        law_endpoint_is_of_location(a);
        law_endpoint_is_of_location(b);
        let scheme = "https://"@;
        if s.endpoint == t.endpoint {
            assert(s.tls_domain =~= s.endpoint.skip(scheme.len() as int));
            assert(t.tls_domain =~= t.endpoint.skip(scheme.len() as int));
        }
        if s.tls_domain == t.tls_domain {
            law_domain_tells_location(s.location, t.location);
        }
    }
}

/// The location alone says where the default address lies: with the same location, a project or
/// a token makes no difference to address and domain.
pub proof fn law_address_depends_on_location_alone(a: SpeechEnvView, b: SpeechEnvView)
    requires
        a.location == b.location,
        a.endpoint == b.endpoint,
    ensures
        resolved(a) matches Ok(s) ==> (resolved(b) matches Ok(t) ==> s.endpoint == t.endpoint
            && s.tls_domain == t.tls_domain && s.location == t.location),
{
}

/// A project and a token are all that must be set, and the project is missed first.
pub proof fn law_what_must_be_set(env: SpeechEnvView)
    ensures
        resolved(env) is Ok <==> env.project is Some && (env.api_token is Some
            || env.access_token is Some),
        env.project is None ==> resolved(env) == Err::<SpeechSettingsView, SettingsErrorView>(
            SettingsErrorView::MissingProject,
        ),
        env.project is Some && env.api_token is None && env.access_token is None ==> resolved(env)
            == Err::<SpeechSettingsView, SettingsErrorView>(SettingsErrorView::MissingToken),
{
}

/// The token is `GOOGLE_API_TOKEN`, whatever the other one is, or that other one, without white
/// space around it. Nothing else has a say in it.
pub proof fn law_token(env: SpeechEnvView)
    ensures
        resolved(env) matches Ok(s) ==> {
            &&& env.api_token matches Some(token) ==> s.bearer_token == trimmed(token)
            &&& env.api_token is None ==> (env.access_token matches Some(token) && s.bearer_token
                == trimmed(token))
        },
        env.api_token matches Some(token) ==> chosen_token(env.api_token, env.access_token)
            == Some(trimmed(token)),
        env.api_token is None ==> (env.access_token matches Some(token) ==> chosen_token(
            env.api_token,
            env.access_token,
        ) == Some(trimmed(token))),
        chosen_token(env.api_token, env.access_token) is None <==> env.api_token is None
            && env.access_token is None,
{
}

/// The recognizer is the default one of the project that is set, at the resolved location.
pub proof fn law_recognizer(env: SpeechEnvView)
    ensures
        resolved(env) matches Ok(s) ==> env.project == Some(s.project_id) && s.recognizer
            == "projects/"@ + s.project_id + "/locations/"@ + s.location + "/recognizers/_"@,
{
}

/// A text can be the value of a header exactly where no character of it is an ASCII control
/// character other than the tab.
pub proof fn law_header_text(s: Seq<char>)
    ensures
        header_text(s) <==> forall|i: int|
            0 <= i < s.len() ==> !(#[trigger] s[i] < ' ' && s[i] != '\t') && s[i] != '\u{7f}',
{
}

/// What is said of each error.
pub proof fn law_settings_messages(endpoint: Seq<char>)
    ensures
        settings_message(SettingsErrorView::MissingProject)
            == "set GOOGLE_CLOUD_PROJECT to your Google Cloud project id"@,
        settings_message(SettingsErrorView::NoToken) == "missing Google access token"@,
        settings_message(SettingsErrorView::MissingToken)
            == "set GOOGLE_API_TOKEN or GOOGLE_ACCESS_TOKEN, or run `gcloud auth application-default print-access-token` and export the result"@,
        settings_message(SettingsErrorView::InvalidEndpoint { endpoint })
            == "invalid speech endpoint: "@ + endpoint,
        settings_message(SettingsErrorView::InvalidToken) == "invalid bearer token"@,
        settings_message(SettingsErrorView::InvalidUserProject)
            == "failed to encode x-goog-user-project metadata"@,
        settings_message(SettingsErrorView::MissingApiKey)
            == "set OPENAI_API_KEY to an OpenAI API key before running this example"@,
        settings_message(SettingsErrorView::InvalidApiKey)
            == "invalid OPENAI_API_KEY header value"@,
{
}

/// The lines at the start name the address and the recognizer that are used, and else are the
/// same for all.
pub proof fn law_banner(endpoint: Seq<char>, recognizer: Seq<char>)
    ensures
        banner_text(endpoint, recognizer).len() == 5,
        banner_text(endpoint, recognizer)[0]
            == "Streaming microphone audio to Google Speech-to-Text v2. Press Ctrl+C to stop."@,
        banner_text(endpoint, recognizer)[1]
            == "Lowest live price tier: v2 standard recognition ($0.016/min as of 2026-05-15)."@,
        banner_text(endpoint, recognizer)[2] == "Using scope: "@
            + "https://www.googleapis.com/auth/cloud-platform"@,
        banner_text(endpoint, recognizer)[3] == "Using endpoint: "@ + endpoint,
        banner_text(endpoint, recognizer)[4] == "Using recognizer: "@ + recognizer,
{
}

} // verus!
