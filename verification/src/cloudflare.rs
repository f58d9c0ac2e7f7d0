//! Delivery through a Cloudflare Worker that holds the `send_email` binding: the
//! MIME message of an email is posted to it.
use crate::email::OutboundEmail;
use crate::mime::{
    all_plain, build_failure, build_message, email_headers, email_part, message_bytes,
    message_headers, message_octets, message_part, plain_address, refused_content_type,
    shows_email, BuildError, HeaderField,
};
use crate::text::{contextual, with_context};
use vstd::prelude::*;
use vstd::string::StringExecFns;

verus! {

/// The configuration of the transport.
#[derive(Debug)]
pub struct CloudflareConfig {
    /// HTTPS URL of the Worker that holds the `send_email` binding.
    pub worker_url: String,
    /// Bearer token the Worker checks, if it checks one.
    pub api_token: Option<String>,
}

/// A required variable is missing.
#[derive(Debug)]
pub struct MissingVar {
    pub key: String,
}

impl MissingVar {
    /// The message of the error.
    pub open spec fn message(self) -> Seq<char> {
        "missing env var "@ + self.key@
    }

    /// The message of the error, for display.
    pub fn to_text(&self) -> (text: String)
        ensures
            text@ == self.message(),
            text@ == "missing env var "@ + self.key@,
    {
        "missing env var ".to_owned().concat(self.key.as_str())
    }
}

/// The name of the variable with the URL.
pub open spec fn url_key(prefix: Seq<char>) -> Seq<char> {
    prefix + "_WORKER_URL"@
}

/// The name of the variable with the token.
pub open spec fn token_key(prefix: Seq<char>) -> Seq<char> {
    prefix + "_TOKEN"@
}

impl CloudflareConfig {
    /// Builds the configuration from two variables, `{prefix}_WORKER_URL` and
    /// `{prefix}_TOKEN`. The first is required; one that cannot be looked up counts
    /// as missing. No other key is asked for, and the token only once the URL was
    /// found: the lookup has to be fit for these calls alone.
    pub fn from_lookup<E, F>(prefix: &str, lookup: F) -> (made: Result<
        CloudflareConfig,
        MissingVar,
    >) where F: Fn(&str) -> Result<String, E>
        requires
            forall|key: &str|
                key@ == url_key(prefix@) ==> #[trigger] call_requires(lookup, (key,)),
            (exists|asked: &str, url: String|
                asked@ == url_key(prefix@) && #[trigger] call_ensures(lookup, (asked,), Ok(url)))
                ==> (forall|key: &str|
                key@ == token_key(prefix@) ==> #[trigger] call_requires(lookup, (key,))),
        ensures
            match made {
                Ok(config) => {
                    &&& exists|key: &str, found: Result<String, E>|
                        key@ == url_key(prefix@) && #[trigger] call_ensures(
                            lookup,
                            (key,),
                            found,
                        ) && found == Ok::<String, E>(config.worker_url)
                    &&& exists|key: &str, found: Result<String, E>|
                        key@ == token_key(prefix@) && #[trigger] call_ensures(
                            lookup,
                            (key,),
                            found,
                        ) && config.api_token == match found {
                            Ok(token) => Some(token),
                            Err(_) => None,
                        }
                },
                Err(missing) => {
                    &&& missing.key@ == url_key(prefix@)
                    &&& exists|key: &str, error: E|
                        key@ == url_key(prefix@) && #[trigger] call_ensures(
                            lookup,
                            (key,),
                            Err(error),
                        )
                },
            },
    {
        let url_key = prefix.to_owned().concat("_WORKER_URL");
        let worker_url = match lookup(url_key.as_str()) {
            Ok(url) => url,
            Err(_) => {
                return Err(MissingVar { key: url_key });
            },
        };
        let token_key = prefix.to_owned().concat("_TOKEN");
        let api_token = match lookup(token_key.as_str()) {
            Ok(token) => Some(token),
            Err(_) => None,
        };
        Ok(CloudflareConfig { worker_url, api_token })
    }

    /// Builds the transport around the HTTP client that it will post with, or
    /// reports that there is none.
    pub fn build<C, E>(self, client: Result<C, E>) -> (built: Result<
        CloudflareTransport<C>,
        String,
    >)
        ensures
            match client {
                Ok(client) => built matches Ok(transport) && transport.client == client
                    && transport.worker_url == self.worker_url && transport.api_token
                    == self.api_token,
                Err(_) => built matches Err(error) && error@ == "building http client"@,
            },
    {
        match client {
            Ok(client) => Ok(
                CloudflareTransport {
                    client,
                    worker_url: self.worker_url,
                    api_token: self.api_token,
                },
            ),
            Err(_) => Err("building http client".to_owned()),
        }
    }
}

/// Sends emails through a Worker, with an HTTP client of type `C`.
#[derive(Debug)]
pub struct CloudflareTransport<C> {
    pub client: C,
    pub worker_url: String,
    pub api_token: Option<String>,
}

/// An HTTP POST to the Worker.
#[derive(Debug)]
pub struct WorkerRequest {
    pub url: String,
    pub content_type: String,
    pub bearer: Option<String>,
    pub body: Vec<u8>,
}

/// What came of the POST.
#[derive(Debug)]
pub enum WorkerReply {
    /// The request did not get through.
    PostFailed,
    /// The Worker answered with this status and body.
    Answered { status: u16, body: String },
}

/// How `reqwest::StatusCode` is written: the number and the reason phrase.
pub uninterp spec fn status_text(status: u16) -> Seq<char>;

/// The three decimal digits of a status.
pub open spec fn status_digits(status: u16) -> Seq<char> {
    seq![
        ('0' as int + status / 100) as char,
        ('0' as int + status / 10 % 10) as char,
        ('0' as int + status % 10) as char,
    ]
}

/// Whether a text begins with the digits of a status and a space.
pub open spec fn names_status(text: Seq<char>, status: u16) -> bool {
    text.len() > 4 && text.take(4) == status_digits(status).push(' ')
}

/// `reqwest::StatusCode::to_string` on the status of the given number
/// (`StatusCode::from_u16`).
///
/// Claims that the text depends on the number alone, and begins with its three
/// digits and a space; which reason phrase follows is not stated. Numbers that are
/// no status are left out, since there is no such status to write.
#[verifier::external_body]
fn write_status(status: u16) -> (text: String)
    requires
        100 <= status <= 999,
    ensures
        text@ == status_text(status),
        names_status(text@, status),
{
    reqwest::StatusCode::from_u16(status).unwrap().to_string()
}

/// The message of a delivery that the Worker refused with a status and a body.
pub open spec fn refusal_message(status: Seq<char>, body: Seq<char>) -> Seq<char> {
    with_context("cloudflare email worker returned "@ + status, body)
}

/// Reports a delivery that the Worker refused with a status and a body.
pub fn report_refusal(status: &str, body: &str) -> (message: String)
    ensures
        message@ == refusal_message(status@, body@),
        message@ == "cloudflare email worker returned "@ + status@ + ": "@ + body@,
{
    contextual("cloudflare email worker returned ".to_owned().concat(status).as_str(), body)
}

/// Why a delivery failed, given what came of the POST; `None` if it did not.
pub open spec fn delivery_failure(reply: WorkerReply) -> Option<Seq<char>> {
    match reply {
        WorkerReply::PostFailed => Some("posting message to cloudflare email worker"@),
        WorkerReply::Answered { status, body } => if 200 <= status < 300 {
            None
        } else {
            Some(refusal_message(status_text(status), body@))
        },
    }
}

impl<C> CloudflareTransport<C> {
    /// The request that delivers an email: its MIME message, posted to the Worker
    /// with the token if there is one.
    pub fn prepare_send(&self, email: &OutboundEmail) -> (prepared: Result<
        WorkerRequest,
        BuildError,
    >)
        ensures
            match build_failure(*email) {
                Some(failure) => prepared matches Err(error) && error@ == failure,
                None => prepared matches Ok(request) && {
                    &&& request.url == self.worker_url
                    &&& request.content_type@ == "message/rfc822"@
                    &&& request.bearer == self.api_token
                    &&& exists|message: lettre::Message|
                        {
                            &&& request.body@ == #[trigger] message_octets(message)
                            &&& message_headers(message) == email_headers(*email).remove(
                                HeaderField::Bcc,
                            )
                            &&& message_part(message) == email_part(*email)
                            &&& shows_email(message_headers(message), *email)
                        }
                },
            },
            email.recipients@.len() == 0 ==> prepared is Err,
            plain_address(email.sender@) && all_plain(email.recipients@)
                && email.recipients@.len() > 0 && refused_content_type(email.attachments@) is None
                ==> prepared is Ok,
    {
        let message = build_message(email)?;
        Ok(self.post_of(message_bytes(&message)))
    }

    /// The request that posts the octets of a message to the Worker.
    pub fn post_of(&self, octets: Vec<u8>) -> (request: WorkerRequest)
        ensures
            request.url == self.worker_url,
            request.content_type@ == "message/rfc822"@,
            request.bearer == self.api_token,
            request.body == octets,
    {
        WorkerRequest {
            url: self.worker_url.clone(),
            content_type: "message/rfc822".to_owned(),
            bearer: self.api_token.clone(),
            body: octets,
        }
    }

    /// Tells a delivered email from a failed one by what came of the POST: only a
    /// status of success counts.
    pub fn conclude_send(&self, reply: WorkerReply) -> (delivered: Result<(), String>)
        requires
            reply matches WorkerReply::Answered { status, .. } ==> 100 <= status <= 999,
        ensures
            match delivery_failure(reply) {
                Some(message) => delivered matches Err(error) && error@ == message,
                None => delivered is Ok,
            },
            reply matches WorkerReply::Answered { status, .. } ==> (delivered is Err
                ==> names_status(status_text(status), status)),
            delivered is Ok <==> (reply matches WorkerReply::Answered { status, .. } && 200
                <= status <= 299),
            reply is PostFailed ==> (delivered matches Err(error) && error@
                == "posting message to cloudflare email worker"@),
            reply matches WorkerReply::Answered { status, body } ==> (delivered matches Err(error)
                ==> error@ == "cloudflare email worker returned "@ + status_text(status) + ": "@
                + body@),
    {
        match reply {
            WorkerReply::PostFailed => Err("posting message to cloudflare email worker".to_owned()),
            WorkerReply::Answered { status, body } => {
                if 200 <= status && status < 300 {
                    Ok(())
                } else {
                    Err(report_refusal(write_status(status).as_str(), body.as_str()))
                }
            },
        }
    }
}

/// The two variables are the prefix with `_WORKER_URL` and with `_TOKEN` behind it.
pub proof fn law_variables_are_named_after_the_prefix(prefix: Seq<char>, missing: MissingVar)
    ensures
        url_key(prefix) == prefix + "_WORKER_URL"@,
        token_key(prefix) == prefix + "_TOKEN"@,
        missing.message() == "missing env var "@ + missing.key@,
{
}

/// A delivery succeeds exactly on an answer with a status of two hundred and
/// something; another answer is reported with its status and its body, and a POST
/// that did not get through as such.
pub proof fn law_delivery_is_judged_by_the_status(reply: WorkerReply)
    ensures
        delivery_failure(reply) is None <==> (reply matches WorkerReply::Answered { status, .. }
            && 200 <= status <= 299),
        reply matches WorkerReply::Answered { status, body } ==> (delivery_failure(
            reply,
        ) matches Some(message) ==> message == "cloudflare email worker returned "@ + status_text(
            status,
        ) + ": "@ + body@),
        reply is PostFailed ==> delivery_failure(reply) == Some(
            "posting message to cloudflare email worker"@,
        ),
{
}

} // verus!
