//! The dispatch engine: resolve a named endpoint, fan a rendered message
//! out to its destination URLs under the configured concurrency bound, and
//! aggregate per-destination failures.
//!
//! The outbound HTTP calls themselves are outside work; this module decides
//! everything around them. A [`Dispatcher`] hands out sends one at a time
//! through [`Dispatcher::launch`] and takes results back through
//! [`Dispatcher::complete`]; its well-formedness invariant caps the number
//! of launched-but-uncompleted sends at the effective concurrency limit, so
//! any driver that goes through it respects the bound.

use vstd::prelude::*;
use crate::config::spec_find_webhook;
use crate::config::find_webhook;
use crate::convert::Converter;
use crate::types::Config;
use crate::types::FeishuWebhook;
use crate::types::ForwardConfig;
use crate::types::GlitchTipSlackWebhook;
use crate::types::WebhookConfig;
use crate::types::WebhookResponse;
use crate::textutil::spec_dec;
use crate::textutil::u64_to_dec;

verus! {

/// Why a dispatch could not run at all. The kinds are distinct: an unknown
/// endpoint name is not a transport failure and is never retried.
#[derive(Debug, Clone, Copy, PartialEq, Eq, Structural)]
pub enum DispatchError {
    /// No endpoint of the requested name exists.
    NotFound,
    /// The endpoint exists and is enabled but lists no destination URLs.
    NoUrls,
}

/// The text of an endpoint-name-not-found error.
pub open spec fn spec_not_found_text(name: Seq<char>) -> Seq<char> {
    "Webhook '"@ + name + "' not found in configuration"@
}

/// The text of an empty-URL-list error.
pub open spec fn spec_no_urls_text(name: Seq<char>) -> Seq<char> {
    "Webhook '"@ + name + "' has no URLs configured"@
}

impl DispatchError {
    /// The human-readable message for this error about endpoint `name`.
    pub fn message(&self, name: &str) -> (r: String)
        ensures
            *self is NotFound ==> r@ == spec_not_found_text(name@),
            *self is NoUrls ==> r@ == spec_no_urls_text(name@),
    {
        let mut out = String::from_str("Webhook '");
        out.append(name);
        match self {
            DispatchError::NotFound => {
                out.append("' not found in configuration");
            },
            DispatchError::NoUrls => {
                out.append("' has no URLs configured");
            },
        }
        proof {
            if *self is NotFound {
                assert(out@ =~= spec_not_found_text(name@));
            } else {
                assert(out@ =~= spec_no_urls_text(name@));
            }
        }
        out
    }
}

/// One aggregated failure line: `name (url): reason`.
pub open spec fn spec_failure_text(name: Seq<char>, url: Seq<char>, reason: Seq<char>) -> Seq<
    char,
> {
    name + " ("@ + url + "): "@ + reason
}

/// Format one aggregated failure line.
pub fn format_failure(name: &str, url: &str, reason: &str) -> (r: String)
    ensures
        r@ == spec_failure_text(name@, url@, reason@),
{
    let mut out = String::from_str(name);
    out.append(" (");
    out.append(url);
    out.append("): ");
    out.append(reason);
    proof {
        assert(out@ =~= spec_failure_text(name@, url@, reason@));
    }
    out
}

/// The delivery classification of one outbound response: `HTTP status: body`.
pub open spec fn spec_http_error_text(status: u16, body: Seq<char>) -> Seq<char> {
    "HTTP "@ + spec_dec(status as u64) + ": "@ + body
}

/// Classify one outbound HTTP response: any status outside 200..=299 is a
/// delivery failure carrying the status and response body; a success
/// produces no record.
pub fn classify_response(status: u16, body: &str) -> (r: Option<String>)
    ensures
        r is None <==> 200 <= status < 300,
        match r {
            Some(s) => s@ == spec_http_error_text(status, body@),
            None => true,
        },
{
    if 200 <= status && status < 300 {
        None
    } else {
        let mut out = String::from_str("HTTP ");
        let d = u64_to_dec(status as u64);
        out.append(d.as_str());
        out.append(": ");
        out.append(body);
        proof {
            assert(out@ =~= spec_http_error_text(status, body@));
        }
        Some(out)
    }
}

/// The effective concurrency bound of one dispatch: one when there is a
/// single URL or the configured bound is one or less, otherwise the smaller
/// of the configured bound and the URL count.
pub open spec fn spec_effective_limit(n_par: i32, n_urls: int) -> int {
    if n_urls <= 1 || n_par <= 1 {
        1
    } else if n_par as int <= n_urls {
        n_par as int
    } else {
        n_urls
    }
}

/// One dispatch in progress: which sends have been handed out, which came
/// back, and the failures recorded so far.
#[derive(Debug)]
pub struct Dispatcher {
    /// The endpoint's name, used in failure lines.
    pub name: String,
    /// The destination URLs, in configuration order.
    pub urls: Vec<String>,
    /// The effective concurrency bound.
    pub limit: usize,
    /// How many sends have been handed out.
    pub launched: usize,
    /// How many sends are handed out but not yet completed.
    pub in_flight: usize,
    /// How many sends have completed.
    pub completed: usize,
    /// The failure lines recorded so far.
    pub errors: Vec<String>,
}

impl Dispatcher {
    /// The dispatch invariant: counters are consistent and the number of
    /// uncompleted sends never passes the bound.
    pub open spec fn wf(self) -> bool {
        &&& self.limit >= 1
        &&& self.launched <= self.urls@.len()
        &&& self.completed <= self.launched
        &&& self.in_flight == self.launched - self.completed
        &&& self.in_flight <= self.limit
    }

    /// A fresh dispatch for an endpoint: nothing launched, nothing
    /// completed, no failures, the bound at its effective value.
    pub fn start(w: &WebhookConfig) -> (d: Dispatcher)
        requires
            w.url@.len() >= 1,
        ensures
            d.wf(),
            d.name@ == w.name@,
            d.urls@ == w.url@,
            d.limit as int == spec_effective_limit(w.config.n_par, w.url@.len() as int),
            d.launched == 0,
            d.in_flight == 0,
            d.completed == 0,
            d.errors@.len() == 0,
    {
        let n_urls = w.url.len();
        let limit: usize = if n_urls <= 1 || w.config.n_par <= 1 {
            1
        } else if w.config.n_par as usize <= n_urls {
            w.config.n_par as usize
        } else {
            n_urls
        };
        let urls = w.url.clone();
        proof {
            assert(urls@ =~= w.url@);
        }
        Dispatcher {
            name: w.name.clone(),
            urls,
            limit,
            launched: 0,
            in_flight: 0,
            completed: 0,
            errors: Vec::new(),
        }
    }

    /// Hand out the next send, when one is pending and the bound has room:
    /// the destination's index and URL. `None` when all sends are handed out
    /// or the bound is reached; the dispatch is then unchanged.
    pub fn launch(&mut self) -> (r: Option<(usize, String)>)
        requires
            old(self).wf(),
        ensures
            final(self).wf(),
            final(self).name == old(self).name,
            final(self).urls == old(self).urls,
            final(self).limit == old(self).limit,
            final(self).completed == old(self).completed,
            final(self).errors == old(self).errors,
            if old(self).in_flight < old(self).limit && old(self).launched < old(
                self,
            ).urls@.len() {
                match r {
                    Some(p) => {
                        &&& p.0 == old(self).launched
                        &&& p.1@ == old(self).urls@[old(self).launched as int]@
                        &&& final(self).launched == old(self).launched + 1
                        &&& final(self).in_flight == old(self).in_flight + 1
                    },
                    None => false,
                }
            } else {
                r is None && final(self).launched == old(self).launched && final(self).in_flight
                    == old(self).in_flight
            },
    {
        if self.in_flight < self.limit && self.launched < self.urls.len() {
            let index = self.launched;
            let url = self.urls[index].clone();
            self.launched = self.launched + 1;
            self.in_flight = self.in_flight + 1;
            Some((index, url))
        } else {
            None
        }
    }

    /// Take back the result of the send to destination `index`: a failure
    /// reason, or `None` for a successful delivery. A failure is recorded as
    /// one `name (url): reason` line; a success records nothing. Siblings
    /// are unaffected either way.
    pub fn complete(&mut self, index: usize, failure: Option<String>)
        requires
            old(self).wf(),
            old(self).in_flight >= 1,
            index < old(self).urls@.len(),
        ensures
            final(self).wf(),
            final(self).name == old(self).name,
            final(self).urls == old(self).urls,
            final(self).limit == old(self).limit,
            final(self).launched == old(self).launched,
            final(self).completed == old(self).completed + 1,
            final(self).in_flight == old(self).in_flight - 1,
            match failure {
                None => final(self).errors == old(self).errors,
                Some(reason) => {
                    &&& final(self).errors@.len() == old(self).errors@.len() + 1
                    &&& forall|j: int|
                        0 <= j < old(self).errors@.len() ==> final(self).errors@[j] == old(
                            self,
                        ).errors@[j]
                    &&& final(self).errors@.last()@ == spec_failure_text(
                        old(self).name@,
                        old(self).urls@[index as int]@,
                        reason@,
                    )
                },
            },
    {
        self.in_flight = self.in_flight - 1;
        self.completed = self.completed + 1;
        match failure {
            Some(reason) => {
                let line = format_failure(
                    self.name.as_str(),
                    self.urls[index].as_str(),
                    reason.as_str(),
                );
                self.errors.push(line);
            },
            None => {},
        }
    }

    /// Whether every send has been handed out and completed.
    pub fn done(&self) -> (r: bool)
        ensures
            r == (self.completed == self.urls@.len()),
    {
        self.completed == self.urls.len()
    }

    /// The aggregated outcome: the recorded failure lines, empty meaning
    /// full success.
    pub fn outcome(self) -> (r: Vec<String>)
        ensures
            r == self.errors,
    {
        self.errors
    }
}

/// However a dispatch is driven, the number of sends in flight never passes
/// the effective concurrency bound.
pub proof fn lemma_in_flight_bounded(d: Dispatcher)
    requires
        d.wf(),
    ensures
        d.in_flight <= d.limit,
{
}

/// When every send has completed, every destination was sent to exactly
/// once: the launch counter equals the URL count and nothing is in flight.
pub proof fn lemma_done_means_all_sent(d: Dispatcher)
    requires
        d.wf(),
        d.completed == d.urls@.len(),
    ensures
        d.launched == d.urls@.len(),
        d.in_flight == 0,
{
}

/// What a dispatch resolves to before any send runs.
#[derive(Debug)]
pub enum DispatchPlan {
    /// The endpoint is disabled: accept silently, deliver nothing. The
    /// outcome is empty and no send is ever handed out.
    Disabled,
    /// The endpoint forwards: drive the contained dispatch.
    Run(Dispatcher),
}

/// The per-destination action for an endpoint's forwarding variant.
#[derive(Debug)]
pub enum SendAction {
    /// Post this message body, as JSON, to the destination.
    Post(FeishuWebhook),
    /// The variant is not implemented: fail fast with this reason, making
    /// no network call.
    Unimplemented(String),
}

/// Relays inbound alerts to configured endpoints.
pub struct WebhookService {
    /// The configuration store the service reads.
    pub config_manager: crate::config::LazyConfigManager,
}

impl WebhookService {
    /// A service over a configuration store.
    pub fn new(config_manager: crate::config::LazyConfigManager) -> (r: Self)
        ensures
            r.config_manager == config_manager,
    {
        WebhookService { config_manager }
    }

    /// Resolve the named endpoint and plan its dispatch.
    ///
    /// An unknown name is a not-found error; a disabled endpoint plans an
    /// empty outcome with no sends; an enabled endpoint without URLs is a
    /// configuration error; otherwise a fresh dispatch over the endpoint's
    /// URLs and effective concurrency bound is returned.
    pub fn forward_to_endpoint(&self, endpoint_id: &str, config: &Config) -> (r: Result<
        DispatchPlan,
        DispatchError,
    >)
        ensures
            match spec_find_webhook(config.webhooks@, endpoint_id@) {
                None => r == Err::<DispatchPlan, DispatchError>(DispatchError::NotFound),
                Some(i) => {
                    let w = config.webhooks@[i];
                    if !w.enabled {
                        r matches Ok(p) && p is Disabled
                    } else if w.url@.len() == 0 {
                        r == Err::<DispatchPlan, DispatchError>(DispatchError::NoUrls)
                    } else {
                        match r {
                            Ok(DispatchPlan::Run(d)) => {
                                &&& d.wf()
                                &&& d.name@ == w.name@
                                &&& d.urls@ == w.url@
                                &&& d.limit as int == spec_effective_limit(
                                    w.config.n_par,
                                    w.url@.len() as int,
                                )
                                &&& d.launched == 0
                                &&& d.in_flight == 0
                                &&& d.completed == 0
                                &&& d.errors@.len() == 0
                            },
                            _ => false,
                        }
                    }
                },
            },
    {
        match find_webhook(&config.webhooks, endpoint_id) {
            None => Err(DispatchError::NotFound),
            Some(i) => {
                let w = &config.webhooks[i];
                if !w.enabled {
                    Ok(DispatchPlan::Disabled)
                } else if w.url.len() == 0 {
                    Err(DispatchError::NoUrls)
                } else {
                    Ok(DispatchPlan::Run(Dispatcher::start(w)))
                }
            },
        }
    }

    /// The action for one destination of this endpoint: the rendered card
    /// message for the Feishu variant, a fail-fast reason for the variants
    /// that are not implemented. The message is rendered once per endpoint;
    /// the driver posts the same body to every destination.
    pub fn send_action(converter: &Converter, glitchtip: &GlitchTipSlackWebhook, w: &WebhookConfig)
        -> (r: SendAction)
        ensures
            match w.forward_config {
                ForwardConfig::FeishuRobotMsg(_) => match r {
                    SendAction::Post(msg) => msg.msg_type@ == "interactive"@ && msg.content is None
                        && msg.card is Some,
                    SendAction::Unimplemented(_) => false,
                },
                ForwardConfig::WecomWebhook(_) => match r {
                    SendAction::Unimplemented(s) => s@ == "WeCom webhook not implemented yet"@,
                    SendAction::Post(_) => false,
                },
                ForwardConfig::DingtalkWebhook(_) => match r {
                    SendAction::Unimplemented(s) => s@ == "DingTalk webhook not implemented yet"@,
                    SendAction::Post(_) => false,
                },
            },
    {
        match &w.forward_config {
            ForwardConfig::FeishuRobotMsg(_) => {
                match converter.glitchtip_to_feishu_card(glitchtip) {
                    Some(msg) => SendAction::Post(msg),
                    None => {
                        proof {
                            assert(false);
                        }
                        SendAction::Unimplemented(String::new())
                    },
                }
            },
            ForwardConfig::WecomWebhook(_) => SendAction::Unimplemented(
                String::from_str("WeCom webhook not implemented yet"),
            ),
            ForwardConfig::DingtalkWebhook(_) => SendAction::Unimplemented(
                String::from_str("DingTalk webhook not implemented yet"),
            ),
        }
    }
}

/// The message of a fully successful dispatch.
pub open spec fn spec_success_text(name: Seq<char>) -> Seq<char> {
    "Webhook forwarded successfully to endpoint '"@ + name + "'"@
}

/// The message of a partially failed dispatch.
pub open spec fn spec_partial_text(name: Seq<char>) -> Seq<char> {
    "Some webhooks failed for endpoint '"@ + name + "'"@
}

/// The HTTP reply for a dispatch that ran: full success is `success` with
/// code 200; partial failure is `partial_success`, still code 200, with the
/// failure lines attached.
pub fn webhook_response_ok(endpoint_id: &str, errors: Vec<String>) -> (r: (WebhookResponse, u16))
    ensures
        errors@.len() == 0 ==> {
            &&& r.0.status@ == "success"@
            &&& r.0.message@ == spec_success_text(endpoint_id@)
            &&& r.0.errors is None
            &&& r.1 == 200
        },
        errors@.len() > 0 ==> {
            &&& r.0.status@ == "partial_success"@
            &&& r.0.message@ == spec_partial_text(endpoint_id@)
            &&& r.0.errors == Some(errors)
            &&& r.1 == 200
        },
{
    if errors.len() == 0 {
        let mut message = String::from_str("Webhook forwarded successfully to endpoint '");
        message.append(endpoint_id);
        message.append("'");
        proof {
            assert(message@ =~= spec_success_text(endpoint_id@));
        }
        (
            WebhookResponse { status: String::from_str("success"), message, errors: None },
            200,
        )
    } else {
        let mut message = String::from_str("Some webhooks failed for endpoint '");
        message.append(endpoint_id);
        message.append("'");
        proof {
            assert(message@ =~= spec_partial_text(endpoint_id@));
        }
        (
            WebhookResponse {
                status: String::from_str("partial_success"),
                message,
                errors: Some(errors),
            },
            200,
        )
    }
}

/// The HTTP reply for a dispatch that could not run: status `error`, the
/// error's message, code 404 — the not-found kind and the configuration
/// kind both surface this way, distinct from any transport failure, which
/// only ever appears inside a partial-success outcome.
pub fn webhook_response_err(endpoint_id: &str, err: &DispatchError) -> (r: (WebhookResponse, u16))
    ensures
        r.0.status@ == "error"@,
        r.0.errors is None,
        r.1 == 404,
        *err is NotFound ==> r.0.message@ == spec_not_found_text(endpoint_id@),
        *err is NoUrls ==> r.0.message@ == spec_no_urls_text(endpoint_id@),
{
    (
        WebhookResponse {
            status: String::from_str("error"),
            message: err.message(endpoint_id),
            errors: None,
        },
        404,
    )
}

} // verus!
