//! The outbound request: what is to be sent, and the `reqwest` builder for it.

use crate::cli::Cli;
use crate::error::RequestError;
use crate::header::{header_parts, split_header, without_quotes};
use crate::method::{method_of, parse_method, Method};
use reqwest::blocking::{Client, RequestBuilder};
use vstd::prelude::*;

verus! {

/// `reqwest::blocking::Client`, the handle that requests are made through.
/// Nothing is known of what it holds.
#[verifier::external_type_specification]
#[verifier::external_body]
pub struct ExClient(reqwest::blocking::Client);

/// `reqwest::blocking::RequestBuilder`, a request that was not sent yet.
/// Nothing is known of what it holds.
#[verifier::external_type_specification]
#[verifier::external_body]
pub struct ExRequestBuilder(reqwest::blocking::RequestBuilder);

/// What a request consists of.
#[derive(Debug)]
pub struct RequestPlan {
    /// The verb to send.
    pub method: Method,
    /// The address to send it to.
    pub url: String,
    /// The one extra header, as name and value.
    pub header: Option<(String, String)>,
}

/// A request plan as plain values.
pub struct RequestModel {
    pub method: Method,
    pub url: Seq<char>,
    pub header: Option<(Seq<char>, Seq<char>)>,
}

impl View for RequestPlan {
    type V = RequestModel;

    open spec fn view(&self) -> RequestModel {
        RequestModel {
            method: self.method,
            url: self.url@,
            header: match self.header {
                Some((name, value)) => Some((name@, value@)),
                None => None,
            },
        }
    }
}

/// The request that a configuration asks for. The method name must select a
/// verb; a header that is not empty must split into name and value. Of the
/// two errors the invalid type comes first.
pub open spec fn plan_of(type_of_req: Seq<char>, url: Seq<char>, header: Seq<char>) -> Result<
    RequestModel,
    RequestError,
> {
    match method_of(type_of_req) {
        None => Err(RequestError::InvalidType),
        Some(method) => if header.len() == 0 {
            Ok(RequestModel { method, url, header: None })
        } else {
            match header_parts(header) {
                None => Err(RequestError::MalformedHeader),
                Some(parts) => Ok(RequestModel { method, url, header: Some(parts) }),
            }
        },
    }
}

/// Works out the request for a configuration, or the reason why none can be
/// made.
pub fn plan_request(cli: &Cli) -> (res: Result<RequestPlan, RequestError>)
    ensures
        match res {
            Ok(plan) => plan_of(cli.type_of_req@, cli.url@, cli.header@) == Ok::<
                RequestModel,
                RequestError,
            >(plan@),
            Err(e) => plan_of(cli.type_of_req@, cli.url@, cli.header@) == Err::<
                RequestModel,
                RequestError,
            >(e),
        },
{
    let method = match parse_method(cli.type_of_req.as_str()) {
        Ok(method) => method,
        Err(e) => {
            return Err(e);
        },
    };
    let header = if cli.header.as_str().unicode_len() == 0 {
        None
    } else {
        match split_header(cli.header.as_str()) {
            Ok(parts) => Some(parts),
            Err(e) => {
                return Err(e);
            },
        }
    };
    Ok(RequestPlan { method, url: cli.url.clone(), header })
}

/// The builder that `reqwest::blocking::Client::get` returns for a client
/// and an address.
pub uninterp spec fn built_get(client: Client, url: Seq<char>) -> RequestBuilder;

/// The builder that `reqwest::blocking::Client::post` returns for a client
/// and an address.
pub uninterp spec fn built_post(client: Client, url: Seq<char>) -> RequestBuilder;

/// The builder that `reqwest::blocking::Client::put` returns for a client
/// and an address.
pub uninterp spec fn built_put(client: Client, url: Seq<char>) -> RequestBuilder;

/// The builder that `reqwest::blocking::Client::delete` returns for a client
/// and an address.
pub uninterp spec fn built_delete(client: Client, url: Seq<char>) -> RequestBuilder;

/// The builder that `reqwest::blocking::Client::head` returns for a client
/// and an address.
pub uninterp spec fn built_head(client: Client, url: Seq<char>) -> RequestBuilder;

/// The builder that `reqwest::blocking::RequestBuilder::header` returns for a
/// builder and the name and value of a header.
pub uninterp spec fn built_header(
    builder: RequestBuilder,
    name: Seq<char>,
    value: Seq<char>,
) -> RequestBuilder;

/// The builder for `method` on `url`: what the client's call of that verb
/// returns for the address, character for character.
pub open spec fn request_for(client: Client, method: Method, url: Seq<char>) -> RequestBuilder {
    match method {
        Method::Get => built_get(client, url),
        Method::Post => built_post(client, url),
        Method::Put => built_put(client, url),
        Method::Delete => built_delete(client, url),
        Method::Head => built_head(client, url),
    }
}

/// The builder for a planned request: the one for its verb and address, with
/// the header added where the plan has one.
pub open spec fn planned_builder(client: Client, plan: RequestModel) -> RequestBuilder {
    match plan.header {
        Some(parts) => built_header(
            request_for(client, plan.method, plan.url),
            parts.0,
            parts.1,
        ),
        None => request_for(client, plan.method, plan.url),
    }
}

/// `reqwest::blocking::Client::get`: a builder for a `GET` request to `url`,
/// the one that the call gives for this client and address. Nothing is
/// sent, and an address that does not parse is kept in the builder as an
/// error.
#[verifier::external_body]
fn client_get(client: &Client, url: &str) -> (builder: RequestBuilder)
    ensures
        builder == built_get(*client, url@),
{
    client.get(url)
}

/// `reqwest::blocking::Client::post`: as [`client_get`], for `POST`.
#[verifier::external_body]
fn client_post(client: &Client, url: &str) -> (builder: RequestBuilder)
    ensures
        builder == built_post(*client, url@),
{
    client.post(url)
}

/// `reqwest::blocking::Client::put`: as [`client_get`], for `PUT`.
#[verifier::external_body]
fn client_put(client: &Client, url: &str) -> (builder: RequestBuilder)
    ensures
        builder == built_put(*client, url@),
{
    client.put(url)
}

/// `reqwest::blocking::Client::delete`: as [`client_get`], for `DELETE`.
#[verifier::external_body]
fn client_delete(client: &Client, url: &str) -> (builder: RequestBuilder)
    ensures
        builder == built_delete(*client, url@),
{
    client.delete(url)
}

/// `reqwest::blocking::Client::head`: as [`client_get`], for `HEAD`.
#[verifier::external_body]
fn client_head(client: &Client, url: &str) -> (builder: RequestBuilder)
    ensures
        builder == built_head(*client, url@),
{
    client.head(url)
}

/// `reqwest::blocking::RequestBuilder::header`: the builder with one more
/// header, the one that the call gives for this builder, name and value. A
/// name or value that HTTP does not allow is kept in the builder as an error.
#[verifier::external_body]
fn builder_header(builder: RequestBuilder, name: &str, value: &str) -> (with_header:
    RequestBuilder)
    ensures
        with_header == built_header(builder, name@, value@),
{
    builder.header(name, value)
}

/// Starts the builder for `method` on `url`.
fn dispatch(client: &Client, method: Method, url: &str) -> (builder: RequestBuilder)
    ensures
        builder == request_for(*client, method, url@),
{
    match method {
        Method::Get => client_get(client, url),
        Method::Post => client_post(client, url),
        Method::Put => client_put(client, url),
        Method::Delete => client_delete(client, url),
        Method::Head => client_head(client, url),
    }
}

/// Starts the builder for the method that `type_of_req` names: the client's
/// call of the selected verb, on the address as it was given. A name that
/// selects no verb is refused, and then no builder is made.
pub fn build_req(client: &Client, url: &String, type_of_req: &str) -> (res: Result<
    RequestBuilder,
    RequestError,
>)
    ensures
        match res {
            Ok(builder) => method_of(type_of_req@) is Some && builder == request_for(
                *client,
                method_of(type_of_req@).unwrap(),
                url@,
            ),
            Err(e) => e == RequestError::InvalidType && method_of(type_of_req@) is None,
        },
{
    match parse_method(type_of_req) {
        Ok(method) => Ok(dispatch(client, method, url.as_str())),
        Err(e) => Err(e),
    }
}

/// Makes the builder for the request that a configuration asks for: the
/// verb, the address and the header, if there is one. Where the configuration
/// is refused, no builder is made.
pub fn prepare_request(client: &Client, cli: &Cli) -> (res: Result<RequestBuilder, RequestError>)
    ensures
        match res {
            Ok(builder) => plan_of(cli.type_of_req@, cli.url@, cli.header@) is Ok
                && builder == planned_builder(
                *client,
                plan_of(cli.type_of_req@, cli.url@, cli.header@).unwrap(),
            ),
            Err(e) => plan_of(cli.type_of_req@, cli.url@, cli.header@) == Err::<
                RequestModel,
                RequestError,
            >(e),
        },
{
    match plan_request(cli) {
        Ok(plan) => {
            let builder = dispatch(client, plan.method, plan.url.as_str());
            match &plan.header {
                Some(parts) => Ok(builder_header(builder, parts.0.as_str(), parts.1.as_str())),
                None => Ok(builder),
            }
        },
        Err(e) => Err(e),
    }
}

/// Every spelling of a verb builds the request of that verb: the name may
/// mix upper and lower case, the builder is the one of the client's call for
/// the verb, on the address as given.
pub proof fn lemma_spelling_builds_its_verb(
    client: Client,
    method: Method,
    name: Seq<char>,
    url: Seq<char>,
)
    requires
        crate::text::same_ignoring_case(name, method.verb()),
    ensures
        method_of(name) == Some(method),
        request_for(client, method_of(name).unwrap(), url) == request_for(client, method, url),
{
    crate::method::lemma_verb_round_trip(method, name);
}

/// A header `name:value` reaches the request: with a method name that
/// selects a verb, the planned builder is the one for verb and address with
/// that header added, name and value without their quote characters.
pub proof fn lemma_header_reaches_request(
    client: Client,
    type_of_req: Seq<char>,
    url: Seq<char>,
    name: Seq<char>,
    value: Seq<char>,
)
    requires
        method_of(type_of_req) is Some,
        !name.contains(':'),
    ensures
        plan_of(type_of_req, url, name + seq![':'] + value) == Ok::<RequestModel, RequestError>(
            RequestModel {
                method: method_of(type_of_req).unwrap(),
                url,
                header: Some((without_quotes(name), without_quotes(value))),
            },
        ),
        planned_builder(client, plan_of(type_of_req, url, name + seq![':'] + value).unwrap())
            == built_header(
            request_for(client, method_of(type_of_req).unwrap(), url),
            without_quotes(name),
            without_quotes(value),
        ),
{
    crate::header::lemma_split_of_joined(name, value);
    assert((name + seq![':'] + value).len() > 0);
}

} // verus!
