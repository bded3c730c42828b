//! The request pipeline: one request plan per remote operation, the versioned
//! URL and headers of a request, and the classification of the service's
//! answer.

use crate::config::Config;
use crate::error::Error;
use crate::json::{
    json_parses, json_text, object_entries, object_keys, object_text, parse_value, parsed_json,
    JsonObject,
};
use crate::text::{decimal, push_decimal};
use crate::types::{CustomerOptions, DripCampaignOptions, EmailOptions, RenderOptions, TemplateOptions};
use crate::wire::{
    keys_of, payload_entries, record_view, texts_view, Payload, WireValue, WireView,
};
use reqwest::Error as TransportError;
use vstd::prelude::*;
use vstd::string::*;

verus! {

/// The HTTP verb of a request.
#[derive(Debug, Clone, Copy, PartialEq, Eq, Structural)]
pub enum Method {
    Get,
    Post,
    Put,
    Delete,
}

/// One remote operation: its verb, its endpoint path (relative to the
/// versioned API root) and the JSON object it sends, if any.
#[derive(Debug, Clone, PartialEq)]
pub struct ApiRequest {
    pub method: Method,
    pub endpoint: String,
    pub payload: Option<Payload>,
}

fn concat2(a: &str, b: &str) -> (r: String)
    ensures
        r@ == a@ + b@,
{
    let mut s = String::from_str(a);
    s.append(b);
    s
}

fn concat3(a: &str, b: &str, c: &str) -> (r: String)
    ensures
        r@ == a@ + b@ + c@,
{
    let mut s = String::from_str(a);
    s.append(b);
    s.append(c);
    s
}

fn concat4(a: &str, b: &str, c: &str, d: &str) -> (r: String)
    ensures
        r@ == a@ + b@ + c@ + d@,
{
    let mut s = String::from_str(a);
    s.append(b);
    s.append(c);
    s.append(d);
    s
}

/// The `key=value` filters of a customer's email log, in the order count,
/// created_gt, created_lt; absent filters are left out.
pub open spec fn log_filters(
    count: Option<u32>,
    created_gt: Option<Seq<char>>,
    created_lt: Option<Seq<char>>,
) -> Seq<Seq<char>> {
    (match count {
        Some(c) => seq!["count="@ + decimal(c as nat)],
        None => seq![],
    }) + (match created_gt {
        Some(g) => seq!["created_gt="@ + g],
        None => seq![],
    }) + (match created_lt {
        Some(l) => seq!["created_lt="@ + l],
        None => seq![],
    })
}

/// `parts` separated by `sep`.
pub open spec fn joined(parts: Seq<Seq<char>>, sep: Seq<char>) -> Seq<char>
    decreases parts.len(),
{
    if parts.len() == 0 {
        seq![]
    } else if parts.len() == 1 {
        parts[0]
    } else {
        joined(parts.drop_last(), sep) + sep + parts.last()
    }
}

/// The query string of `params`: empty when there are none, else `?`
/// followed by the parameters joined with `&`.
pub open spec fn query_string(params: Seq<Seq<char>>) -> Seq<char> {
    if params.len() == 0 {
        seq![]
    } else {
        "?"@ + joined(params, "&"@)
    }
}

/// The endpoint of a customer's email log with the given filters.
pub open spec fn log_endpoint(
    email: Seq<char>,
    count: Option<u32>,
    created_gt: Option<Seq<char>>,
    created_lt: Option<Seq<char>>,
) -> Seq<char> {
    "customers/"@ + email + "/logs"@ + query_string(log_filters(count, created_gt, created_lt))
}

fn join_with(parts: &Vec<String>, sep: &str) -> (r: String)
    ensures
        r@ == joined(texts_view(parts@), sep@),
{
    let ghost v = texts_view(parts@);
    let mut s = String::new();
    for i in 0..parts.len()
        invariant
            v == texts_view(parts@),
            s@ == joined(v.take(i as int), sep@),
    {
        let ghost before = s@;
        if i > 0 {
            s.append(sep);
        }
        s.append(parts[i].as_str());
        proof {
            assert(v.take(i + 1).drop_last() =~= v.take(i as int));
            if i == 0 {
                assert(before =~= Seq::<char>::empty());
                assert(s@ =~= v.take(1)[0]);
            }
        }
    }
    assert(v.take(parts@.len() as int) =~= v);
    s
}

/// The query string that selects the given filters of a customer's email log.
pub fn log_query(count: Option<u32>, created_gt: &Option<String>, created_lt: &Option<String>) -> (r:
    String)
    ensures
        r@ == query_string(
            log_filters(
                count,
                crate::config::opt_view(*created_gt),
                crate::config::opt_view(*created_lt),
            ),
        ),
{
    let mut params: Vec<String> = Vec::new();
    match count {
        Some(c) => {
            let mut p = String::from_str("count=");
            push_decimal(&mut p, c);
            params.push(p);
        },
        None => {},
    }
    match created_gt {
        Some(g) => params.push(concat2("created_gt=", g.as_str())),
        None => {},
    }
    match created_lt {
        Some(l) => params.push(concat2("created_lt=", l.as_str())),
        None => {},
    }
    let ghost want = log_filters(
        count,
        crate::config::opt_view(*created_gt),
        crate::config::opt_view(*created_lt),
    );
    assert(texts_view(params@) =~= want);
    if params.len() == 0 {
        String::new()
    } else {
        let j = join_with(&params, "&");
        concat2("?", j.as_str())
    }
}

/// A path with a trailing slash.
pub open spec fn with_slash(path: Seq<char>) -> Seq<char> {
    if path.len() > 0 && path.last() == '/' {
        path
    } else {
        path + "/"@
    }
}

/// The absolute path of `endpoint` under a base path: the base path, then
/// `api/v{version}/`, then the endpoint (whose `?` starts the query).
pub open spec fn api_path(base_path: Seq<char>, version: Seq<char>, endpoint: Seq<char>) -> Seq<
    char,
> {
    with_slash(base_path) + "api/v"@ + version + "/"@ + endpoint
}

/// Whether a base path can start an absolute-path reference: it is empty or
/// starts with exactly one `/` (a path starting `//` would read as a host).
pub open spec fn single_rooted(path: Seq<char>) -> bool {
    path.len() == 0 || (path[0] == '/' && !(path.len() >= 2 && path[1] == '/'))
}

/// The text of the URL that `reference` names relative to the URL `base`,
/// `None` when either does not parse.
pub uninterp spec fn joined_url(base: Seq<char>, reference: Seq<char>) -> Option<Seq<char>>;

/// Relies on url::Url::parse of `base` and url::Url::join: the URL that
/// `reference` names relative to it, as text.
#[verifier::external_body]
fn join_url(base: &str, reference: &str) -> (r: Option<String>)
    ensures
        crate::config::opt_view(r) == joined_url(base@, reference@),
{
    url::Url::parse(base).and_then(|u| u.join(reference)).ok().map(|u| u.to_string())
}

/// Builds the full URL of `endpoint` from the configuration: the base URL
/// with its path extended by `api/v{version}/` and the endpoint. Fails when
/// the base URL cannot take path segments, or its path does not start with
/// exactly one `/`.
pub fn build_url(config: &Config, endpoint: &str) -> (r: Result<String, Error>)
    ensures
        match r {
            Ok(u) => !config.url@.cannot_be_a_base && single_rooted(config.url@.path) && joined_url(
                config.url@.text,
                api_path(config.url@.path, config.api_version@, endpoint@),
            ) == Some(u@),
            Err(e) => e is InvalidApiUrl && (config.url@.cannot_be_a_base || !single_rooted(
                config.url@.path,
            ) || joined_url(
                config.url@.text,
                api_path(config.url@.path, config.api_version@, endpoint@),
            ) is None),
        },
{
    if config.url.cannot_be_a_base() {
        return Err(Error::InvalidApiUrl);
    }
    let p = config.url.path();
    let n = p.unicode_len();
    if n > 0 && (p.get_char(0) != '/' || (n >= 2 && p.get_char(1) == '/')) {
        return Err(Error::InvalidApiUrl);
    }
    let mut path = String::from_str(p);
    if !(n > 0 && p.get_char(n - 1) == '/') {
        path.append("/");
    }
    path.append("api/v");
    path.append(config.api_version.as_str());
    path.append("/");
    path.append(endpoint);
    match join_url(config.url.text(), path.as_str()) {
        Some(u) => Ok(u),
        None => Err(Error::InvalidApiUrl),
    }
}

/// The headers sent with every request, in order: the JSON content type, the
/// API key and the client identifier.
pub open spec fn headers_spec(config: &Config) -> Seq<(Seq<char>, Seq<char>)> {
    seq![
        ("Content-Type"@, "application/json"@),
        ("X-SWU-API-KEY"@, config.api_key@),
        ("X-SWU-API-CLIENT"@, config.client_stub@),
    ]
}

/// The headers sent with every request.
pub fn request_headers(config: &Config) -> (r: Vec<(String, String)>)
    ensures
        record_view(r@) == headers_spec(config),
{
    let mut r: Vec<(String, String)> = Vec::new();
    r.push((String::from_str("Content-Type"), String::from_str("application/json")));
    r.push((String::from_str("X-SWU-API-KEY"), config.api_key.clone()));
    r.push((String::from_str("X-SWU-API-CLIENT"), config.client_stub.clone()));
    assert(record_view(r@) =~= headers_spec(config));
    r
}

/// The statuses on which the response body is the result.
pub open spec fn is_success(status: u16) -> bool {
    status == 200 || status == 201 || status == 202
}

/// The error that an unsuccessful status stands for.
pub open spec fn is_status_error(e: Error, endpoint: Seq<char>, status: u16, body: Seq<char>) -> bool {
    if status == 404 {
        e matches Error::InvalidEndpoint(n) && n@ == endpoint
    } else if status == 403 {
        e is InvalidCredentials
    } else if status == 400 {
        e matches Error::InvalidRequest(b) && b@ == body
    } else {
        e matches Error::ApiError { status: s, message: m } && s == status && m@ == body
    }
}

/// Sorts a response by its status: the body on 200, 201 and 202, else the
/// error the status stands for.
pub fn check_status(endpoint: &str, status: u16, body: String) -> (r: Result<String, Error>)
    ensures
        is_success(status) ==> (r matches Ok(b) && b@ == body@),
        !is_success(status) ==> (r matches Err(e) && is_status_error(e, endpoint@, status, body@)),
{
    if status == 200 || status == 201 || status == 202 {
        Ok(body)
    } else if status == 404 {
        Err(Error::InvalidEndpoint(String::from_str(endpoint)))
    } else if status == 403 {
        Err(Error::InvalidCredentials)
    } else if status == 400 {
        Err(Error::InvalidRequest(body))
    } else {
        Err(Error::ApiError { status, message: body })
    }
}

/// Parses a response body as JSON.
pub fn parse_body(body: &str) -> (r: Result<serde_json::Value, Error>)
    ensures
        r is Ok <==> json_parses(body@),
        r matches Ok(v) ==> v == parsed_json(body@),
        r matches Err(e) ==> e is SerializationFailed,
{
    match parse_value(body) {
        Ok(v) => Ok(v),
        Err(e) => Err(Error::SerializationFailed(e)),
    }
}

/// The result of a request from the status and body of its response.
pub fn handle_response(endpoint: &str, status: u16, body: String) -> (r: Result<
    serde_json::Value,
    Error,
>)
    ensures
        is_success(status) ==> (r is Ok <==> json_parses(body@)),
        is_success(status) ==> (r matches Ok(v) ==> v == parsed_json(body@)),
        is_success(status) ==> (r matches Err(e) ==> e is SerializationFailed),
        !is_success(status) ==> (r matches Err(e) && is_status_error(e, endpoint@, status, body@)),
{
    match check_status(endpoint, status, body) {
        Ok(b) => parse_body(b.as_str()),
        Err(e) => Err(e),
    }
}

/// The error for a failed exchange: `ConnectionFailed` when no connection
/// could be made, else the transport's own error.
pub fn transport_error(connect: bool, cause: TransportError) -> (r: Error)
    ensures
        connect ==> r is ConnectionFailed,
        !connect ==> r == Error::RequestFailed(cause),
{
    if connect {
        Error::ConnectionFailed
    } else {
        Error::RequestFailed(cause)
    }
}

/// Whether the failure `e` happened while connecting.
pub uninterp spec fn connect_failure(e: TransportError) -> bool;

/// Relies on reqwest::Error::is_connect: whether the failure happened while
/// connecting, read from the error itself.
#[verifier::external_body]
fn failed_to_connect(e: &TransportError) -> (r: bool)
    ensures
        r == connect_failure(*e),
{
    e.is_connect()
}

/// The error for a failed exchange, as reqwest reports it: `ConnectionFailed`
/// for a connect failure, else the transport's own error.
pub fn send_error(cause: TransportError) -> (r: Error)
    ensures
        connect_failure(cause) ==> r is ConnectionFailed,
        !connect_failure(cause) ==> r == Error::RequestFailed(cause),
{
    let connect = failed_to_connect(&cause);
    transport_error(connect, cause)
}

/// The fields of an optional payload.
pub open spec fn opt_payload(p: Option<Payload>) -> Option<Seq<(Seq<char>, WireView)>> {
    match p {
        Some(x) => Some(x@),
        None => None,
    }
}

impl ApiRequest {
    /// The fields this request sends, if it sends a payload.
    pub open spec fn payload_view(&self) -> Option<Seq<(Seq<char>, WireView)>> {
        opt_payload(self.payload)
    }

    /// The request's payload as a JSON object.
    pub fn json_payload(&self) -> (r: Option<JsonObject>)
        ensures
            self.payload is None ==> r is None,
            match self.payload {
                Some(p) => match r {
                    Some(m) => object_keys(m) == keys_of(p@).to_set() && object_entries(m)
                        == payload_entries(p@),
                    None => false,
                },
                None => true,
            },
    {
        match &self.payload {
            Some(p) => Some(p.to_json()),
            None => None,
        }
    }

    /// The request body: the JSON text of the payload, or none without one.
    pub fn body(&self) -> (r: Result<Option<String>, Error>)
        ensures
            r is Ok,
            match self.payload {
                Some(p) => match r {
                    Ok(Some(t)) => t@ == json_text(payload_entries(p@)),
                    _ => false,
                },
                None => r matches Ok(b) && b is None,
            },
    {
        match self.json_payload() {
            Some(m) => match object_text(&m) {
                Ok(t) => Ok(Some(t)),
                Err(e) => Err(Error::SerializationFailed(e)),
            },
            None => Ok(None),
        }
    }

    fn plan(method: Method, endpoint: String, payload: Option<Payload>) -> (r: ApiRequest)
        ensures
            r == (ApiRequest { method, endpoint, payload }),
    {
        ApiRequest { method, endpoint, payload }
    }

    /// Sends an email; fails without a request when the template id is empty.
    pub fn send_email(options: &EmailOptions) -> (r: Result<ApiRequest, Error>)
        ensures
            options.email_id@.len() == 0 ==> (r matches Err(e) && e is MissingTemplateId),
            options.email_id@.len() > 0 ==> (r matches Ok(q) && q.method == Method::Post
                && q.endpoint@ == "send"@ && q.payload_view() == Some(options.payload_spec())),
    {
        if options.email_id.as_str().is_empty() {
            return Err(Error::MissingTemplateId);
        }
        Ok(ApiRequest::plan(Method::Post, String::from_str("send"), Some(options.payload())))
    }

    /// Lists the templates.
    pub fn list_templates() -> (r: ApiRequest)
        ensures
            r.method == Method::Get,
            r.endpoint@ == "emails"@,
            r.payload is None,
    {
        ApiRequest::plan(Method::Get, String::from_str("emails"), None)
    }

    /// Renders a template.
    pub fn render(options: &RenderOptions) -> (r: ApiRequest)
        ensures
            r.method == Method::Post,
            r.endpoint@ == "render"@,
            r.payload_view() == Some(options.payload_spec()),
    {
        ApiRequest::plan(Method::Post, String::from_str("render"), Some(options.payload()))
    }

    /// Creates a template.
    pub fn create_template(options: &TemplateOptions) -> (r: ApiRequest)
        ensures
            r.method == Method::Post,
            r.endpoint@ == "emails"@,
            r.payload_view() == Some(options.payload_spec()),
    {
        ApiRequest::plan(Method::Post, String::from_str("emails"), Some(options.payload()))
    }

    /// Lists the drip campaigns.
    pub fn list_drip_campaigns() -> (r: ApiRequest)
        ensures
            r.method == Method::Get,
            r.endpoint@ == "drip_campaigns"@,
            r.payload is None,
    {
        ApiRequest::plan(Method::Get, String::from_str("drip_campaigns"), None)
    }

    /// Starts a recipient on a drip campaign.
    pub fn start_on_drip_campaign(campaign_id: &str, options: &DripCampaignOptions) -> (r:
        ApiRequest)
        ensures
            r.method == Method::Post,
            r.endpoint@ == "drip_campaigns/"@ + campaign_id@ + "/activate"@,
            r.payload_view() == Some(options.payload_spec()),
    {
        let e = concat3("drip_campaigns/", campaign_id, "/activate");
        ApiRequest::plan(Method::Post, e, Some(options.payload()))
    }

    /// Removes a recipient from a drip campaign.
    pub fn remove_from_drip_campaign(campaign_id: &str, recipient_address: &str) -> (r:
        ApiRequest)
        ensures
            r.method == Method::Post,
            r.endpoint@ == "drip_campaigns/"@ + campaign_id@ + "/deactivate"@,
            r.payload_view() == Some(
                seq![("recipient_address"@, WireView::Text(recipient_address@))],
            ),
    {
        let e = concat3("drip_campaigns/", campaign_id, "/deactivate");
        let mut p = Payload::new();
        p.push("recipient_address", WireValue::Text(String::from_str(recipient_address)));
        assert(p@ =~= seq![("recipient_address"@, WireView::Text(recipient_address@))]);
        ApiRequest::plan(Method::Post, e, Some(p))
    }

    /// Shows a drip campaign.
    pub fn drip_campaign_details(campaign_id: &str) -> (r: ApiRequest)
        ensures
            r.method == Method::Get,
            r.endpoint@ == "drip_campaigns/"@ + campaign_id@,
            r.payload is None,
    {
        ApiRequest::plan(Method::Get, concat2("drip_campaigns/", campaign_id), None)
    }

    /// Shows a customer.
    pub fn customer_get(email: &str) -> (r: ApiRequest)
        ensures
            r.method == Method::Get,
            r.endpoint@ == "customers/"@ + email@,
            r.payload is None,
    {
        ApiRequest::plan(Method::Get, concat2("customers/", email), None)
    }

    /// Creates or updates a customer.
    pub fn customer_create(options: &CustomerOptions) -> (r: ApiRequest)
        ensures
            r.method == Method::Post,
            r.endpoint@ == "customers"@,
            r.payload_view() == Some(options.payload_spec()),
    {
        ApiRequest::plan(Method::Post, String::from_str("customers"), Some(options.payload()))
    }

    /// Deletes a customer.
    pub fn customer_delete(email: &str) -> (r: ApiRequest)
        ensures
            r.method == Method::Delete,
            r.endpoint@ == "customers/"@ + email@,
            r.payload is None,
    {
        ApiRequest::plan(Method::Delete, concat2("customers/", email), None)
    }

    /// Lists the emails sent to a customer, with optional filters.
    pub fn customer_email_log(
        email: &str,
        count: Option<u32>,
        created_gt: Option<String>,
        created_lt: Option<String>,
    ) -> (r: ApiRequest)
        ensures
            r.method == Method::Get,
            r.endpoint@ == log_endpoint(
                email@,
                count,
                crate::config::opt_view(created_gt),
                crate::config::opt_view(created_lt),
            ),
            r.payload is None,
    {
        let q = log_query(count, &created_gt, &created_lt);
        let e = concat3("customers/", email, "/logs");
        let e = concat2(e.as_str(), q.as_str());
        ApiRequest::plan(Method::Get, e, None)
    }

    /// Shows a log entry.
    pub fn log(log_id: &str) -> (r: ApiRequest)
        ensures
            r.method == Method::Get,
            r.endpoint@ == "logs/"@ + log_id@,
            r.payload is None,
    {
        ApiRequest::plan(Method::Get, concat2("logs/", log_id), None)
    }

    /// Lists the events of a log entry.
    pub fn log_events(log_id: &str) -> (r: ApiRequest)
        ensures
            r.method == Method::Get,
            r.endpoint@ == "logs/"@ + log_id@ + "/events"@,
            r.payload is None,
    {
        ApiRequest::plan(Method::Get, concat3("logs/", log_id, "/events"), None)
    }

    /// Deletes a template.
    pub fn delete_template(template_id: &str) -> (r: ApiRequest)
        ensures
            r.method == Method::Delete,
            r.endpoint@ == "templates/"@ + template_id@,
            r.payload is None,
    {
        ApiRequest::plan(Method::Delete, concat2("templates/", template_id), None)
    }

    /// Lists the versions of a template.
    pub fn list_template_versions(template_id: &str) -> (r: ApiRequest)
        ensures
            r.method == Method::Get,
            r.endpoint@ == "templates/"@ + template_id@ + "/versions"@,
            r.payload is None,
    {
        ApiRequest::plan(Method::Get, concat3("templates/", template_id, "/versions"), None)
    }

    /// Shows a version of a template.
    pub fn get_template_version(template_id: &str, version_id: &str) -> (r: ApiRequest)
        ensures
            r.method == Method::Get,
            r.endpoint@ == "templates/"@ + template_id@ + "/versions/"@ + version_id@,
            r.payload is None,
    {
        let e = concat4("templates/", template_id, "/versions/", version_id);
        ApiRequest::plan(Method::Get, e, None)
    }

    /// Replaces a version of a template.
    pub fn update_template_version(
        template_id: &str,
        version_id: &str,
        options: &TemplateOptions,
    ) -> (r: ApiRequest)
        ensures
            r.method == Method::Put,
            r.endpoint@ == "templates/"@ + template_id@ + "/versions/"@ + version_id@,
            r.payload_view() == Some(options.payload_spec()),
    {
        let e = concat4("templates/", template_id, "/versions/", version_id);
        ApiRequest::plan(Method::Put, e, Some(options.payload()))
    }

    /// Adds a version to a template.
    pub fn create_template_version(template_id: &str, options: &TemplateOptions) -> (r:
        ApiRequest)
        ensures
            r.method == Method::Post,
            r.endpoint@ == "templates/"@ + template_id@ + "/versions"@,
            r.payload_view() == Some(options.payload_spec()),
    {
        let e = concat3("templates/", template_id, "/versions");
        ApiRequest::plan(Method::Post, e, Some(options.payload()))
    }

    /// Unsubscribes an address from all drip campaigns; fails without a
    /// request when the address is empty.
    pub fn drips_unsubscribe(email_address: &str) -> (r: Result<ApiRequest, Error>)
        ensures
            email_address@.len() == 0 ==> (r matches Err(e) && e is MissingRecipientAddress),
            email_address@.len() > 0 ==> (r matches Ok(q) && q.method == Method::Post
                && q.endpoint@ == "drips/unsubscribe"@ && q.payload_view() == Some(
                seq![("email_address"@, WireView::Text(email_address@))],
            )),
    {
        if email_address.is_empty() {
            return Err(Error::MissingRecipientAddress);
        }
        let mut p = Payload::new();
        p.push("email_address", WireValue::Text(String::from_str(email_address)));
        assert(p@ =~= seq![("email_address"@, WireView::Text(email_address@))]);
        Ok(ApiRequest::plan(Method::Post, String::from_str("drips/unsubscribe"), Some(p)))
    }
}

} // verus!

verus! {

/// The log endpoint carries a query string only when a filter is supplied;
/// the supplied filters appear in the order count, created_gt, created_lt,
/// joined with `&`.
pub proof fn lemma_log_endpoint_filters(
    email: Seq<char>,
    count: Option<u32>,
    created_gt: Option<Seq<char>>,
    created_lt: Option<Seq<char>>,
)
    ensures
        count is None && created_gt is None && created_lt is None ==> log_endpoint(
            email,
            count,
            created_gt,
            created_lt,
        ) == "customers/"@ + email + "/logs"@,
        count is Some && created_gt is None && created_lt is None ==> log_endpoint(
            email,
            count,
            created_gt,
            created_lt,
        ) == "customers/"@ + email + "/logs"@ + "?"@ + ("count="@ + decimal(count->0 as nat)),
        count is None && created_gt is Some && created_lt is None ==> log_endpoint(
            email,
            count,
            created_gt,
            created_lt,
        ) == "customers/"@ + email + "/logs"@ + "?"@ + ("created_gt="@ + created_gt->0),
        count is Some && created_gt is Some && created_lt is Some ==> log_endpoint(
            email,
            count,
            created_gt,
            created_lt,
        ) == "customers/"@ + email + "/logs"@ + "?"@ + ("count="@ + decimal(count->0 as nat) + "&"@
            + ("created_gt="@ + created_gt->0) + "&"@ + ("created_lt="@ + created_lt->0)),
{
    let f = log_filters(count, created_gt, created_lt);
    if count is None && created_gt is None && created_lt is None {
        assert(f =~= Seq::<Seq<char>>::empty());
    }
    if count is Some && created_gt is None && created_lt is None {
        assert(f.len() == 1);
    }
    if count is None && created_gt is Some && created_lt is None {
        assert(f.len() == 1);
    }
    if count is Some && created_gt is Some && created_lt is Some {
        assert(f.len() == 3);
        assert(f.drop_last().len() == 2);
        assert(f.drop_last().drop_last().len() == 1);
        assert(joined(f.drop_last(), "&"@) == joined(f.drop_last().drop_last(), "&"@) + "&"@
            + f.drop_last().last());
    }
}

} // verus!
