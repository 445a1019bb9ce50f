//! HTTP requests: methods, headers, query parameters, bodies, URLs and
//! authentication settings.

use std::collections::HashMap;

use vstd::prelude::*;
use vstd::string::*;

use crate::base::{
    clone_opt_string, is_json_text, new_id, now, parse_json, Id, Identifiable, Temporal, Timestamp,
};

verus! {

/// HTTP request method.
#[derive(Clone, Copy, Debug, PartialEq, Eq, Structural, Hash)]
pub enum HttpMethod {
    GET,
    POST,
    PUT,
    DELETE,
    PATCH,
    HEAD,
    OPTIONS,
}

/// The uppercase form of a text, character by character as Unicode defines it.
pub uninterp spec fn uppercase_of(s: Seq<char>) -> Seq<char>;

/// Relies on `str::to_uppercase`: the Unicode uppercase form of the text,
/// which depends on the text alone.
#[verifier::external_body]
fn to_uppercase(s: &str) -> (r: String)
    ensures
        r@ == uppercase_of(s@),
{
    s.to_uppercase()
}

/// The name of a method.
pub open spec fn method_name(m: HttpMethod) -> Seq<char> {
    match m {
        HttpMethod::GET => "GET"@,
        HttpMethod::POST => "POST"@,
        HttpMethod::PUT => "PUT"@,
        HttpMethod::DELETE => "DELETE"@,
        HttpMethod::PATCH => "PATCH"@,
        HttpMethod::HEAD => "HEAD"@,
        HttpMethod::OPTIONS => "OPTIONS"@,
    }
}

/// The method whose name is exactly `t`.
pub open spec fn method_named(t: Seq<char>) -> Option<HttpMethod> {
    if t == "GET"@ {
        Some(HttpMethod::GET)
    } else if t == "POST"@ {
        Some(HttpMethod::POST)
    } else if t == "PUT"@ {
        Some(HttpMethod::PUT)
    } else if t == "DELETE"@ {
        Some(HttpMethod::DELETE)
    } else if t == "PATCH"@ {
        Some(HttpMethod::PATCH)
    } else if t == "HEAD"@ {
        Some(HttpMethod::HEAD)
    } else if t == "OPTIONS"@ {
        Some(HttpMethod::OPTIONS)
    } else {
        None
    }
}

impl HttpMethod {
    /// Every method, in declaration order.
    pub const ALL: [HttpMethod; 7] = [
        HttpMethod::GET,
        HttpMethod::POST,
        HttpMethod::PUT,
        HttpMethod::DELETE,
        HttpMethod::PATCH,
        HttpMethod::HEAD,
        HttpMethod::OPTIONS,
    ];

    pub fn as_str(&self) -> (r: &'static str)
        ensures
            r@ == method_name(*self),
    {
        match self {
            HttpMethod::GET => "GET",
            HttpMethod::POST => "POST",
            HttpMethod::PUT => "PUT",
            HttpMethod::DELETE => "DELETE",
            HttpMethod::PATCH => "PATCH",
            HttpMethod::HEAD => "HEAD",
            HttpMethod::OPTIONS => "OPTIONS",
        }
    }

    /// The method named exactly `t` (already in uppercase); otherwise the
    /// error "Invalid HTTP method: <original>".
    pub fn from_uppercase(t: &str, original: &str) -> (r: Result<Self, String>)
        ensures
            match method_named(t@) {
                Some(m) => r == Ok::<HttpMethod, String>(m),
                None => r matches Err(e) && e@ == "Invalid HTTP method: "@ + original@,
            },
    {
        let s = String::from_str(t);
        if s == String::from_str("GET") {
            Ok(HttpMethod::GET)
        } else if s == String::from_str("POST") {
            Ok(HttpMethod::POST)
        } else if s == String::from_str("PUT") {
            Ok(HttpMethod::PUT)
        } else if s == String::from_str("DELETE") {
            Ok(HttpMethod::DELETE)
        } else if s == String::from_str("PATCH") {
            Ok(HttpMethod::PATCH)
        } else if s == String::from_str("HEAD") {
            Ok(HttpMethod::HEAD)
        } else if s == String::from_str("OPTIONS") {
            Ok(HttpMethod::OPTIONS)
        } else {
            Err(String::from_str("Invalid HTTP method: ").concat(original))
        }
    }

    /// The method named `s`, in any case.
    pub fn from_str(s: &str) -> (r: Result<Self, String>)
        ensures
            match method_named(uppercase_of(s@)) {
                Some(m) => r == Ok::<HttpMethod, String>(m),
                None => r matches Err(e) && e@ == "Invalid HTTP method: "@ + s@,
            },
    {
        let upper = to_uppercase(s);
        Self::from_uppercase(upper.as_str(), s)
    }
}

impl std::str::FromStr for HttpMethod {
    type Err = String;

    fn from_str(s: &str) -> Result<Self, String> {
        HttpMethod::from_str(s)
    }
}

/// An HTTP header.
#[derive(Debug, PartialEq, Eq)]
pub struct Header {
    pub key: String,
    pub value: String,
    pub enabled: bool,
}

impl Clone for Header {
    fn clone(&self) -> (r: Self)
        ensures
            r == *self,
    {
        Header { key: self.key.clone(), value: self.value.clone(), enabled: self.enabled }
    }
}

impl Header {
    pub fn new(key: String, value: String) -> (r: Self)
        ensures
            r == (Header { key, value, enabled: true }),
    {
        Header { key, value, enabled: true }
    }

    pub fn disabled(key: String, value: String) -> (r: Self)
        ensures
            r == (Header { key, value, enabled: false }),
    {
        Header { key, value, enabled: false }
    }
}

/// A query parameter.
#[derive(Debug, PartialEq, Eq)]
pub struct Param {
    pub key: String,
    pub value: String,
    pub enabled: bool,
    pub description: Option<String>,
}

impl Clone for Param {
    fn clone(&self) -> (r: Self)
        ensures
            r == *self,
    {
        Param {
            key: self.key.clone(),
            value: self.value.clone(),
            enabled: self.enabled,
            description: clone_opt_string(&self.description),
        }
    }
}

impl Param {
    pub fn new(key: String, value: String) -> (r: Self)
        ensures
            r == (Param { key, value, enabled: true, description: None }),
    {
        Param { key, value, enabled: true, description: None }
    }
}

/// A file of a multipart upload.
#[derive(Clone, Debug, PartialEq, Eq)]
pub struct FileField {
    pub name: String,
    pub content_type: Option<String>,
    pub path: Option<String>,
}

impl FileField {
    pub fn new(name: String) -> (r: Self)
        ensures
            r == (FileField { name, content_type: None, path: None }),
    {
        FileField { name, content_type: None, path: None }
    }

    pub fn with_content_type(self, content_type: String) -> (r: Self)
        ensures
            r == (FileField { content_type: Some(content_type), ..self }),
    {
        let mut f = self;
        f.content_type = Some(content_type);
        f
    }

    pub fn with_path(self, path: String) -> (r: Self)
        ensures
            r == (FileField { path: Some(path), ..self }),
    {
        let mut f = self;
        f.path = Some(path);
        f
    }
}

/// A field of a form body.
#[derive(Clone, Debug, PartialEq, Eq)]
pub struct FormField {
    pub key: String,
    pub value: String,
    pub enabled: bool,
    pub file: Option<FileField>,
}

impl FormField {
    pub fn new(key: String, value: String) -> (r: Self)
        ensures
            r == (FormField { key, value, enabled: true, file: None }),
    {
        FormField { key, value, enabled: true, file: None }
    }

    /// A file field, with an empty value.
    pub fn file(key: String, file: FileField) -> (r: Self)
        ensures
            r.key == key,
            r.value@.len() == 0,
            r.enabled,
            r.file == Some(file),
    {
        FormField { key, value: String::new(), enabled: true, file: Some(file) }
    }
}

/// The kinds of request body.
#[derive(Clone, Copy, Debug, PartialEq, Eq, Structural)]
pub enum BodyMode {
    /// No body at all.
    NoBody,
    Json,
    FormData,
    UrlEncoded,
    Raw,
    Binary,
}

impl BodyMode {
    /// Every kind of body, in declaration order.
    pub const ALL: [BodyMode; 6] = [
        BodyMode::NoBody,
        BodyMode::Json,
        BodyMode::FormData,
        BodyMode::UrlEncoded,
        BodyMode::Raw,
        BodyMode::Binary,
    ];

    pub fn as_str(&self) -> (r: &'static str)
        ensures
            r@ == match *self {
                BodyMode::NoBody => "none"@,
                BodyMode::Json => "json"@,
                BodyMode::FormData => "formdata"@,
                BodyMode::UrlEncoded => "urlencoded"@,
                BodyMode::Raw => "raw"@,
                BodyMode::Binary => "binary"@,
            },
    {
        match self {
            BodyMode::NoBody => "none",
            BodyMode::Json => "json",
            BodyMode::FormData => "formdata",
            BodyMode::UrlEncoded => "urlencoded",
            BodyMode::Raw => "raw",
            BodyMode::Binary => "binary",
        }
    }
}

/// A request body.
#[derive(Clone, Debug, PartialEq, Eq)]
pub enum RequestBody {
    /// No body at all.
    NoBody,
    Json { raw: String },
    FormData { formdata: Vec<FormField> },
    UrlEncoded { urlencoded: Vec<FormField> },
    Raw { raw: String, language: Option<String> },
    Binary,
}

/// The kind of a body.
pub open spec fn body_mode(b: RequestBody) -> BodyMode {
    match b {
        RequestBody::NoBody => BodyMode::NoBody,
        RequestBody::Json { .. } => BodyMode::Json,
        RequestBody::FormData { .. } => BodyMode::FormData,
        RequestBody::UrlEncoded { .. } => BodyMode::UrlEncoded,
        RequestBody::Raw { .. } => BodyMode::Raw,
        RequestBody::Binary => BodyMode::Binary,
    }
}

impl Default for RequestBody {
    fn default() -> (r: Self)
        ensures
            r == RequestBody::NoBody,
    {
        RequestBody::NoBody
    }
}

impl RequestBody {
    pub fn none() -> (r: Self)
        ensures
            r == RequestBody::NoBody,
    {
        RequestBody::NoBody
    }

    pub fn json(raw: String) -> (r: Self)
        ensures
            r == (RequestBody::Json { raw }),
    {
        RequestBody::Json { raw }
    }

    pub fn form_data(formdata: Vec<FormField>) -> (r: Self)
        ensures
            r == (RequestBody::FormData { formdata }),
    {
        RequestBody::FormData { formdata }
    }

    pub fn url_encoded(urlencoded: Vec<FormField>) -> (r: Self)
        ensures
            r == (RequestBody::UrlEncoded { urlencoded }),
    {
        RequestBody::UrlEncoded { urlencoded }
    }

    pub fn raw(raw: String) -> (r: Self)
        ensures
            r == (RequestBody::Raw { raw, language: None }),
    {
        RequestBody::Raw { raw, language: None }
    }

    pub fn raw_with_language(raw: String, language: String) -> (r: Self)
        ensures
            r == (RequestBody::Raw { raw, language: Some(language) }),
    {
        RequestBody::Raw { raw, language: Some(language) }
    }

    pub fn binary() -> (r: Self)
        ensures
            r == RequestBody::Binary,
    {
        RequestBody::Binary
    }

    pub fn mode(&self) -> (r: BodyMode)
        ensures
            r == body_mode(*self),
    {
        match self {
            RequestBody::NoBody => BodyMode::NoBody,
            RequestBody::Json { .. } => BodyMode::Json,
            RequestBody::FormData { .. } => BodyMode::FormData,
            RequestBody::UrlEncoded { .. } => BodyMode::UrlEncoded,
            RequestBody::Raw { .. } => BodyMode::Raw,
            RequestBody::Binary => BodyMode::Binary,
        }
    }

    /// The raw text of a JSON or raw body.
    pub fn get_raw(&self) -> (r: Option<&str>)
        ensures
            match *self {
                RequestBody::Json { raw } => r matches Some(t) && t@ == raw@,
                RequestBody::Raw { raw, .. } => r matches Some(t) && t@ == raw@,
                _ => r is None,
            },
    {
        match self {
            RequestBody::NoBody => None,
            RequestBody::Json { raw } => Some(raw.as_str()),
            RequestBody::FormData { .. } => None,
            RequestBody::UrlEncoded { .. } => None,
            RequestBody::Raw { raw, .. } => Some(raw.as_str()),
            RequestBody::Binary => None,
        }
    }

    /// The document of a JSON body whose text parses; `None` otherwise.
    pub fn get_json(&self) -> (r: Option<serde_json::Value>)
        ensures
            r is Some <==> (*self matches RequestBody::Json { raw } && is_json_text(raw@)),
    {
        match self {
            RequestBody::Json { raw } => match parse_json(raw.as_str()) {
                Ok(v) => Some(v),
                Err(_) => None,
            },
            _ => None,
        }
    }
}

/// Where an API key is sent.
#[derive(Clone, Copy, Debug, PartialEq, Eq, Structural)]
pub enum ApiKeyLocation {
    Header,
    Query,
}

impl Default for ApiKeyLocation {
    fn default() -> (r: Self)
        ensures
            r == ApiKeyLocation::Header,
    {
        ApiKeyLocation::Header
    }
}

/// OAuth 2 client settings.
#[derive(Clone, Debug, PartialEq, Eq)]
pub struct OAuth2Config {
    pub client_id: String,
    pub client_secret: String,
    pub scope: String,
    pub redirect_url: String,
    pub auth_url: String,
    pub access_token_url: String,
    pub grant_type: String,
}

/// How a request authenticates.
#[derive(Clone, Debug, PartialEq, Eq)]
pub enum AuthConfig {
    Noauth,
    Bearer { token: String },
    Basic { username: String, password: String },
    ApiKey { key: String, value: String, add_to: ApiKeyLocation },
    Digest { username: String, password: String },
    OAuth1 {
        consumer_key: String,
        consumer_secret: String,
        token: String,
        token_secret: String,
        signature_method: String,
        timestamp: Option<String>,
        nonce: Option<String>,
        version: Option<String>,
        realm: Option<String>,
    },
    OAuth2 { config: OAuth2Config },
    Awsv4 { access_key: String, secret_key: String, region: String, service: String },
    Hawk {
        auth_id: String,
        auth_key: String,
        algorithm: String,
        user: String,
        nonce: Option<String>,
        ext: Option<String>,
        mac: Option<String>,
        timestamp: Option<String>,
    },
    BearerCustom { config: HashMap<String, serde_json::Value> },
}

/// Scripts run around a request.
#[derive(Clone, Debug, PartialEq, Eq)]
pub struct ScriptConfig {
    pub pre_request: Option<String>,
    pub post_response: Option<String>,
    pub test: Option<String>,
}

impl Default for ScriptConfig {
    fn default() -> (r: Self)
        ensures
            r == (ScriptConfig { pre_request: None, post_response: None, test: None }),
    {
        ScriptConfig { pre_request: None, post_response: None, test: None }
    }
}

/// A URL, keeping the text as written (it may hold `{{variables}}`).
#[derive(Debug, PartialEq, Eq)]
pub struct Url {
    pub raw: String,
    pub protocol: Option<String>,
    pub host: Option<String>,
    pub port: Option<u16>,
    pub path: Option<String>,
    pub query: Option<String>,
    pub hash: Option<String>,
}

impl Clone for Url {
    fn clone(&self) -> (r: Self)
        ensures
            r == *self,
    {
        Url {
            raw: self.raw.clone(),
            protocol: clone_opt_string(&self.protocol),
            host: clone_opt_string(&self.host),
            port: self.port,
            path: clone_opt_string(&self.path),
            query: clone_opt_string(&self.query),
            hash: clone_opt_string(&self.hash),
        }
    }
}

/// Scheme, host, port, path, query and fragment of a parsed URL.
pub type UrlParts = (String, Option<String>, Option<u16>, String, Option<String>, Option<String>);

/// The text of an optional string.
pub open spec fn opt_view(s: Option<String>) -> Option<Seq<char>> {
    match s {
        Some(t) => Some(t@),
        None => None,
    }
}

/// The parts of a URL as text.
pub open spec fn parts_view(p: UrlParts) -> (
    Seq<char>,
    Option<Seq<char>>,
    Option<u16>,
    Seq<char>,
    Option<Seq<char>>,
    Option<Seq<char>>,
) {
    (p.0@, opt_view(p.1), p.2, p.3@, opt_view(p.4), opt_view(p.5))
}

/// What the WHATWG URL parser makes of a text: its scheme, host, port, path,
/// query and fragment, or `None` when the text is no valid absolute URL.
pub uninterp spec fn url_components(s: Seq<char>) -> Option<
    (Seq<char>, Option<Seq<char>>, Option<u16>, Seq<char>, Option<Seq<char>>, Option<Seq<char>>),
>;

/// Relies on `url::Url::parse` and its accessors `scheme`, `host_str`,
/// `port`, `path`, `query` and `fragment`; on failure, the parse error's text.
#[verifier::external_body]
fn parse_url_parts(raw: &str) -> (r: Result<UrlParts, String>)
    ensures
        match r {
            Ok(p) => url_components(raw@) == Some(parts_view(p)),
            Err(_) => url_components(raw@) is None,
        },
{
    match url::Url::parse(raw) {
        Ok(u) => Ok((
            u.scheme().to_string(),
            u.host_str().map(String::from),
            u.port(),
            u.path().to_string(),
            u.query().map(String::from),
            u.fragment().map(String::from),
        )),
        Err(e) => Err(e.to_string()),
    }
}

impl Url {
    /// A URL known by its text only.
    pub fn new(raw: String) -> (r: Self)
        ensures
            r == (Url {
                raw,
                protocol: None,
                host: None,
                port: None,
                path: None,
                query: None,
                hash: None,
            }),
    {
        Url { raw, protocol: None, host: None, port: None, path: None, query: None, hash: None }
    }

    /// A URL with the text `raw` and the parsed `parts`.
    pub fn from_parts(raw: String, parts: UrlParts) -> (r: Self)
        ensures
            r.raw == raw,
            r.protocol == Some(parts.0),
            r.host == parts.1,
            r.port == parts.2,
            r.path == Some(parts.3),
            r.query == parts.4,
            r.hash == parts.5,
    {
        Url {
            raw,
            protocol: Some(parts.0),
            host: parts.1,
            port: parts.2,
            path: Some(parts.3),
            query: parts.4,
            hash: parts.5,
        }
    }

    /// Parses `raw` into its parts, keeping the text; fails with the parser's
    /// message when it is no valid absolute URL.
    pub fn parse(raw: String) -> (r: Result<Self, String>)
        ensures
            r is Err <==> url_components(raw@) is None,
            r matches Ok(u) ==> u.raw == raw && url_components(raw@) == Some(
                (
                    u.protocol->Some_0@,
                    opt_view(u.host),
                    u.port,
                    u.path->Some_0@,
                    opt_view(u.query),
                    opt_view(u.hash),
                ),
            ) && u.protocol is Some && u.path is Some,
    {
        match parse_url_parts(raw.as_str()) {
            Ok(parts) => Ok(Self::from_parts(raw, parts)),
            Err(e) => Err(e),
        }
    }
}

/// Interface state of a request.
#[derive(Clone, Debug, PartialEq, Eq)]
pub struct RequestUiState {
    pub is_expanded: bool,
    pub selected_tab: u32,
    /// Bit pattern of the `f32` scroll offset, if any.
    pub scroll_position_bits: Option<u32>,
}

impl Default for RequestUiState {
    fn default() -> (r: Self)
        ensures
            r == (RequestUiState {
                is_expanded: false,
                selected_tab: 0,
                scroll_position_bits: None,
            }),
    {
        RequestUiState { is_expanded: false, selected_tab: 0, scroll_position_bits: None }
    }
}

/// An HTTP request.
#[derive(Clone, Debug, PartialEq)]
pub struct Request {
    pub id: Id,
    pub name: String,
    pub description: Option<String>,
    pub method: HttpMethod,
    /// May hold `{{variables}}`.
    pub url: Url,
    pub headers: Vec<Header>,
    pub query_params: Vec<Param>,
    pub body: RequestBody,
    pub auth: Option<AuthConfig>,
    pub script: ScriptConfig,
    pub collection_id: Option<Id>,
    pub folder_id: Option<Id>,
    pub created_at: Timestamp,
    pub updated_at: Timestamp,
    pub ui_state: RequestUiState,
}

/// The enabled headers of `h`, in order.
pub open spec fn enabled_headers_of(h: Seq<Header>) -> Seq<Header>
    decreases h.len(),
{
    if h.len() == 0 {
        h
    } else if h.last().enabled {
        enabled_headers_of(h.drop_last()).push(h.last())
    } else {
        enabled_headers_of(h.drop_last())
    }
}

/// The enabled parameters of `p`, in order.
pub open spec fn enabled_params_of(p: Seq<Param>) -> Seq<Param>
    decreases p.len(),
{
    if p.len() == 0 {
        p
    } else if p.last().enabled {
        enabled_params_of(p.drop_last()).push(p.last())
    } else {
        enabled_params_of(p.drop_last())
    }
}

fn copy_headers(v: &Vec<Header>) -> (r: Vec<Header>)
    ensures
        r@ == v@,
{
    let mut out: Vec<Header> = Vec::new();
    let mut i: usize = 0;
    while i < v.len()
        invariant
            i <= v@.len(),
            out@ == v@.take(i as int),
        decreases v@.len() - i,
    {
        out.push(v[i].clone());
        i = i + 1;
        assert(out@ =~= v@.take(i as int));
    }
    assert(v@.take(i as int) =~= v@);
    out
}

fn copy_params(v: &Vec<Param>) -> (r: Vec<Param>)
    ensures
        r@ == v@,
{
    let mut out: Vec<Param> = Vec::new();
    let mut i: usize = 0;
    while i < v.len()
        invariant
            i <= v@.len(),
            out@ == v@.take(i as int),
        decreases v@.len() - i,
    {
        out.push(v[i].clone());
        i = i + 1;
        assert(out@ =~= v@.take(i as int));
    }
    assert(v@.take(i as int) =~= v@);
    out
}

impl Request {
    /// A request with no headers, parameters, body, auth or scripts.
    pub fn new(name: String, method: HttpMethod, url: String) -> (r: Self)
        ensures
            r.name == name,
            r.description is None,
            r.method == method,
            r.url == Url::new_spec(url),
            r.headers@.len() == 0,
            r.query_params@.len() == 0,
            r.body == RequestBody::NoBody,
            r.auth is None,
            r.collection_id is None,
            r.folder_id is None,
            r.created_at == r.updated_at,
    {
        let t = now();
        Request {
            id: new_id(),
            name,
            description: None,
            method,
            url: Url::new(url),
            headers: Vec::new(),
            query_params: Vec::new(),
            body: RequestBody::none(),
            auth: None,
            script: ScriptConfig::default(),
            collection_id: None,
            folder_id: None,
            created_at: t,
            updated_at: t,
            ui_state: RequestUiState::default(),
        }
    }

    pub fn with_description(self, description: String) -> (r: Self)
        ensures
            r == (Request { description: Some(description), ..self }),
    {
        let mut q = self;
        q.description = Some(description);
        q
    }

    pub fn with_collection(self, collection_id: Id) -> (r: Self)
        ensures
            r == (Request { collection_id: Some(collection_id), ..self }),
    {
        let mut q = self;
        q.collection_id = Some(collection_id);
        q
    }

    pub fn with_folder(self, folder_id: Id) -> (r: Self)
        ensures
            r == (Request { folder_id: Some(folder_id), ..self }),
    {
        let mut q = self;
        q.folder_id = Some(folder_id);
        q
    }

    /// Appends an enabled header.
    pub fn with_header(self, key: String, value: String) -> (r: Self)
        ensures
            r == (Request {
                headers: r.headers,
                ..self
            }),
            r.headers@ == self.headers@.push(Header { key, value, enabled: true }),
    {
        let mut q = self;
        q.headers.push(Header::new(key, value));
        q
    }

    /// Appends an enabled query parameter.
    pub fn with_query_param(self, key: String, value: String) -> (r: Self)
        ensures
            r == (Request { query_params: r.query_params, ..self }),
            r.query_params@ == self.query_params@.push(
                Param { key, value, enabled: true, description: None },
            ),
    {
        let mut q = self;
        q.query_params.push(Param::new(key, value));
        q
    }

    pub fn with_body(self, body: RequestBody) -> (r: Self)
        ensures
            r == (Request { body, ..self }),
    {
        let mut q = self;
        q.body = body;
        q
    }

    pub fn with_auth(self, auth: AuthConfig) -> (r: Self)
        ensures
            r == (Request { auth: Some(auth), ..self }),
    {
        let mut q = self;
        q.auth = Some(auth);
        q
    }

    pub fn with_pre_request_script(self, script: String) -> (r: Self)
        ensures
            r == (Request {
                script: ScriptConfig { pre_request: Some(script), ..self.script },
                ..self
            }),
    {
        let mut q = self;
        q.script.pre_request = Some(script);
        q
    }

    pub fn with_post_response_script(self, script: String) -> (r: Self)
        ensures
            r == (Request {
                script: ScriptConfig { post_response: Some(script), ..self.script },
                ..self
            }),
    {
        let mut q = self;
        q.script.post_response = Some(script);
        q
    }

    pub fn with_test_script(self, script: String) -> (r: Self)
        ensures
            r == (Request { script: ScriptConfig { test: Some(script), ..self.script }, ..self }),
    {
        let mut q = self;
        q.script.test = Some(script);
        q
    }

    /// The enabled headers, in order.
    pub fn enabled_headers(&self) -> (r: Vec<&Header>)
        ensures
            r@.len() == enabled_headers_of(self.headers@).len(),
            forall|k: int|
                0 <= k < r@.len() ==> *r@[k] == enabled_headers_of(self.headers@)[k],
    {
        let mut out: Vec<&Header> = Vec::new();
        let mut i: usize = 0;
        while i < self.headers.len()
            invariant
                i <= self.headers@.len(),
                out@.len() == enabled_headers_of(self.headers@.take(i as int)).len(),
                forall|k: int|
                    0 <= k < out@.len() ==> *out@[k] == enabled_headers_of(
                        self.headers@.take(i as int),
                    )[k],
            decreases self.headers@.len() - i,
        {
            proof {
                assert(self.headers@.take(i + 1).drop_last() =~= self.headers@.take(i as int));
            }
            if self.headers[i].enabled {
                out.push(&self.headers[i]);
            }
            i = i + 1;
        }
        assert(self.headers@.take(i as int) =~= self.headers@);
        out
    }

    /// The enabled query parameters, in order.
    pub fn enabled_query_params(&self) -> (r: Vec<&Param>)
        ensures
            r@.len() == enabled_params_of(self.query_params@).len(),
            forall|k: int|
                0 <= k < r@.len() ==> *r@[k] == enabled_params_of(self.query_params@)[k],
    {
        let mut out: Vec<&Param> = Vec::new();
        let mut i: usize = 0;
        while i < self.query_params.len()
            invariant
                i <= self.query_params@.len(),
                out@.len() == enabled_params_of(self.query_params@.take(i as int)).len(),
                forall|k: int|
                    0 <= k < out@.len() ==> *out@[k] == enabled_params_of(
                        self.query_params@.take(i as int),
                    )[k],
            decreases self.query_params@.len() - i,
        {
            proof {
                assert(self.query_params@.take(i + 1).drop_last() =~= self.query_params@.take(
                    i as int,
                ));
            }
            if self.query_params[i].enabled {
                out.push(&self.query_params[i]);
            }
            i = i + 1;
        }
        assert(self.query_params@.take(i as int) =~= self.query_params@);
        out
    }

    pub fn has_body(&self) -> (r: bool)
        ensures
            r == (self.body != RequestBody::NoBody),
    {
        match self.body {
            RequestBody::NoBody => false,
            _ => true,
        }
    }

    /// A copy under a new id, named "<name> (Copy)".
    pub fn duplicate(&self) -> (r: Self)
        ensures
            r.name@ == self.name@ + " (Copy)"@,
            r.description == self.description,
            r.method == self.method,
            r.url == self.url,
            r.headers@ == self.headers@,
            r.query_params@ == self.query_params@,
            r.collection_id == self.collection_id,
            r.folder_id == self.folder_id,
    {
        let t = now();
        Request {
            id: new_id(),
            name: String::from_str(self.name.as_str()).concat(" (Copy)"),
            description: clone_opt_string(&self.description),
            method: self.method,
            url: self.url.clone(),
            headers: copy_headers(&self.headers),
            query_params: copy_params(&self.query_params),
            body: self.body.clone(),
            auth: self.auth.clone(),
            script: self.script.clone(),
            collection_id: self.collection_id,
            folder_id: self.folder_id,
            created_at: t,
            updated_at: t,
            ui_state: self.ui_state.clone(),
        }
    }
}

/// Builds a request step by step.
pub struct RequestBuilder {
    request: Request,
}

impl RequestBuilder {
    /// The request being built.
    pub closed spec fn current(&self) -> Request {
        self.request
    }

    pub fn new(name: String, method: HttpMethod, url: String) -> (r: Self)
        ensures
            r.current().name == name,
            r.current().method == method,
            r.current().url == Url::new_spec(url),
            r.current().headers@.len() == 0,
            r.current().query_params@.len() == 0,
            r.current().body == RequestBody::NoBody,
    {
        RequestBuilder { request: Request::new(name, method, url) }
    }

    pub fn description(self, description: String) -> (r: Self)
        ensures
            r.current() == (Request { description: Some(description), ..self.current() }),
    {
        RequestBuilder { request: self.request.with_description(description) }
    }

    /// Appends an enabled header.
    pub fn header(self, key: String, value: String) -> (r: Self)
        ensures
            r.current() == (Request { headers: r.current().headers, ..self.current() }),
            r.current().headers@ == self.current().headers@.push(
                Header { key, value, enabled: true },
            ),
    {
        RequestBuilder { request: self.request.with_header(key, value) }
    }

    pub fn headers(self, headers: Vec<Header>) -> (r: Self)
        ensures
            r.current() == (Request { headers, ..self.current() }),
    {
        let mut q = self.request;
        q.headers = headers;
        RequestBuilder { request: q }
    }

    /// Appends an enabled query parameter.
    pub fn query_param(self, key: String, value: String) -> (r: Self)
        ensures
            r.current() == (Request { query_params: r.current().query_params, ..self.current() }),
            r.current().query_params@ == self.current().query_params@.push(
                Param { key, value, enabled: true, description: None },
            ),
    {
        RequestBuilder { request: self.request.with_query_param(key, value) }
    }

    pub fn body(self, body: RequestBody) -> (r: Self)
        ensures
            r.current() == (Request { body, ..self.current() }),
    {
        RequestBuilder { request: self.request.with_body(body) }
    }

    pub fn auth(self, auth: AuthConfig) -> (r: Self)
        ensures
            r.current() == (Request { auth: Some(auth), ..self.current() }),
    {
        RequestBuilder { request: self.request.with_auth(auth) }
    }

    pub fn collection(self, collection_id: Id) -> (r: Self)
        ensures
            r.current() == (Request { collection_id: Some(collection_id), ..self.current() }),
    {
        RequestBuilder { request: self.request.with_collection(collection_id) }
    }

    pub fn folder(self, folder_id: Id) -> (r: Self)
        ensures
            r.current() == (Request { folder_id: Some(folder_id), ..self.current() }),
    {
        RequestBuilder { request: self.request.with_folder(folder_id) }
    }

    pub fn pre_request_script(self, script: String) -> (r: Self)
        ensures
            r.current() == (Request {
                script: ScriptConfig { pre_request: Some(script), ..self.current().script },
                ..self.current()
            }),
    {
        RequestBuilder { request: self.request.with_pre_request_script(script) }
    }

    pub fn post_response_script(self, script: String) -> (r: Self)
        ensures
            r.current() == (Request {
                script: ScriptConfig { post_response: Some(script), ..self.current().script },
                ..self.current()
            }),
    {
        RequestBuilder { request: self.request.with_post_response_script(script) }
    }

    pub fn test_script(self, script: String) -> (r: Self)
        ensures
            r.current() == (Request {
                script: ScriptConfig { test: Some(script), ..self.current().script },
                ..self.current()
            }),
    {
        RequestBuilder { request: self.request.with_test_script(script) }
    }

    pub fn build(self) -> (r: Request)
        ensures
            r == self.current(),
    {
        self.request
    }
}

impl Url {
    /// The URL `new` builds from `raw`.
    pub open spec fn new_spec(raw: String) -> Url {
        Url { raw, protocol: None, host: None, port: None, path: None, query: None, hash: None }
    }
}

impl Temporal for Request {
    fn created_at(&self) -> Timestamp {
        self.created_at
    }

    fn updated_at(&self) -> Timestamp {
        self.updated_at
    }
}

impl Identifiable for Request {
    fn id(&self) -> Id {
        self.id
    }
}

} // verus!
