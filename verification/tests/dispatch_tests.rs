use glitchtip_relay::config::LazyConfigManager;
use glitchtip_relay::convert::Converter;
use glitchtip_relay::dispatch::SendAction;
use glitchtip_relay::types::DingtalkConfig;
use glitchtip_relay::types::GlitchTipSlackWebhook;
use glitchtip_relay::types::WecomConfig;
use glitchtip_relay::dispatch::DispatchError;
use glitchtip_relay::dispatch::DispatchPlan;
use glitchtip_relay::dispatch::Dispatcher;
use glitchtip_relay::dispatch::WebhookService;
use glitchtip_relay::dispatch::classify_response;
use glitchtip_relay::dispatch::format_failure;
use glitchtip_relay::dispatch::webhook_response_err;
use glitchtip_relay::dispatch::webhook_response_ok;
use glitchtip_relay::types::Config;
use glitchtip_relay::types::FeishuConfig;
use glitchtip_relay::types::ForwardConfig;
use glitchtip_relay::types::WebhookConfig;
use glitchtip_relay::types::WebhookRuntimeConfig;

fn endpoint(name: &str, urls: &[&str], enabled: bool, n_par: i32) -> WebhookConfig {
    WebhookConfig {
        name: String::from(name),
        url: urls.iter().map(|u| String::from(*u)).collect(),
        enabled,
        forward_config: ForwardConfig::FeishuRobotMsg(FeishuConfig {
            card_theme: None,
            mention_all: None,
            buttons: None,
            color_mapping: None,
        }),
        config: WebhookRuntimeConfig { n_par, timeout: 30, retry: 3 },
    }
}

fn config_with(webhooks: Vec<WebhookConfig>) -> Config {
    Config {
        server_port: 7876,
        server_host: String::from("127.0.0.1"),
        template_dir: None,
        webhooks,
    }
}

fn service() -> WebhookService {
    WebhookService::new(LazyConfigManager::new())
}

#[test]
fn unresolved_endpoint_is_not_found_in_kind() {
    let config = config_with(vec![endpoint("known", &["https://a.test"], true, 1)]);
    let r = service().forward_to_endpoint("missing", &config);
    // The kind itself distinguishes resolution failures from transport
    // failures, which only ever appear as outcome entries.
    assert!(matches!(r, Err(DispatchError::NotFound)));
    assert!(!matches!(r, Err(DispatchError::NoUrls)));
}

#[test]
fn disabled_endpoint_plans_an_empty_outcome_with_zero_sends() {
    let config = config_with(vec![endpoint("quiet", &["https://a.test"], false, 4)]);
    let r = service().forward_to_endpoint("quiet", &config);
    match r {
        Ok(DispatchPlan::Disabled) => {}
        other => panic!("expected a disabled plan, got {other:?}"),
    }
}

#[test]
fn endpoint_without_urls_is_a_configuration_error() {
    let config = config_with(vec![endpoint("empty", &[], true, 1)]);
    let r = service().forward_to_endpoint("empty", &config);
    assert!(matches!(r, Err(DispatchError::NoUrls)));
}

fn run_dispatcher(d: &mut Dispatcher, fail_url: Option<&str>) -> (usize, usize) {
    // Drive the dispatch as a transport spy: count launches and track the
    // highest number of sends in flight at any instant.
    let mut launches = 0usize;
    let mut max_in_flight = 0usize;
    let mut pending: Vec<(usize, String)> = Vec::new();
    while !d.done() {
        while let Some((index, url)) = d.launch() {
            launches += 1;
            assert!(d.in_flight <= d.limit, "concurrency bound violated");
            max_in_flight = max_in_flight.max(d.in_flight);
            pending.push((index, url));
        }
        let (index, url) = pending.remove(0);
        let failure = match fail_url {
            Some(f) if url == f => classify_response(500, "boom"),
            _ => classify_response(200, ""),
        };
        d.complete(index, failure);
    }
    (launches, max_in_flight)
}

#[test]
fn three_urls_limit_two_caps_in_flight_and_sends_all() {
    let config = config_with(vec![endpoint(
        "fanout",
        &["https://a.test", "https://b.test", "https://c.test"],
        true,
        2,
    )]);
    let r = service().forward_to_endpoint("fanout", &config);
    let mut d = match r {
        Ok(DispatchPlan::Run(d)) => d,
        other => panic!("expected a running plan, got {other:?}"),
    };
    assert_eq!(d.limit, 2);
    let (launches, max_in_flight) = run_dispatcher(&mut d, None);
    assert_eq!(launches, 3);
    assert!(max_in_flight <= 2);
    assert_eq!(max_in_flight, 2);
    assert!(d.outcome().is_empty());
}

#[test]
fn one_failing_destination_records_exactly_one_entry() {
    let config = config_with(vec![endpoint(
        "partial",
        &["https://a.test", "https://b.test", "https://c.test"],
        true,
        2,
    )]);
    let mut d = match service().forward_to_endpoint("partial", &config) {
        Ok(DispatchPlan::Run(d)) => d,
        other => panic!("expected a running plan, got {other:?}"),
    };
    let (launches, _) = run_dispatcher(&mut d, Some("https://b.test"));
    assert_eq!(launches, 3);
    let outcome = d.outcome();
    assert_eq!(outcome.len(), 1);
    assert_eq!(outcome[0], "partial (https://b.test): HTTP 500: boom");
    assert!(!outcome[0].contains("a.test"));
    assert!(!outcome[0].contains("c.test"));
}

#[test]
fn sequential_mode_launches_in_url_order() {
    let config = config_with(vec![endpoint(
        "ordered",
        &["https://1.test", "https://2.test", "https://3.test"],
        true,
        1,
    )]);
    let mut d = match service().forward_to_endpoint("ordered", &config) {
        Ok(DispatchPlan::Run(d)) => d,
        other => panic!("expected a running plan, got {other:?}"),
    };
    assert_eq!(d.limit, 1);
    let mut seen = Vec::new();
    while !d.done() {
        let (index, url) = d.launch().expect("sequential launch");
        assert!(d.launch().is_none(), "bound of one admits a single send");
        seen.push(url);
        d.complete(index, None);
    }
    assert_eq!(seen, vec!["https://1.test", "https://2.test", "https://3.test"]);
}

#[test]
fn limit_is_capped_by_url_count() {
    let config = config_with(vec![endpoint("wide", &["https://a.test", "https://b.test"], true, 10)]);
    match service().forward_to_endpoint("wide", &config) {
        Ok(DispatchPlan::Run(d)) => assert_eq!(d.limit, 2),
        other => panic!("expected a running plan, got {other:?}"),
    }
}

#[test]
fn non_positive_bounds_mean_sequential() {
    for n_par in [0, -5] {
        let config = config_with(vec![endpoint(
            "seq",
            &["https://a.test", "https://b.test"],
            true,
            n_par,
        )]);
        match service().forward_to_endpoint("seq", &config) {
            Ok(DispatchPlan::Run(d)) => assert_eq!(d.limit, 1),
            other => panic!("expected a running plan, got {other:?}"),
        }
    }
}

#[test]
fn single_url_is_sequential_whatever_the_bound() {
    let config = config_with(vec![endpoint("single", &["https://a.test"], true, 10)]);
    match service().forward_to_endpoint("single", &config) {
        Ok(DispatchPlan::Run(d)) => assert_eq!(d.limit, 1),
        other => panic!("expected a running plan, got {other:?}"),
    }
}

#[test]
fn response_classification() {
    assert_eq!(classify_response(200, ""), None);
    assert_eq!(classify_response(204, ""), None);
    assert_eq!(classify_response(299, ""), None);
    assert_eq!(classify_response(301, "moved"), Some(String::from("HTTP 301: moved")));
    assert_eq!(classify_response(500, "oops"), Some(String::from("HTTP 500: oops")));
    assert_eq!(classify_response(199, ""), Some(String::from("HTTP 199: ")));
}

#[test]
fn failure_line_format() {
    assert_eq!(
        format_failure("team", "https://a.test", "timed out"),
        "team (https://a.test): timed out"
    );
}

#[test]
fn error_messages_name_the_endpoint() {
    assert_eq!(
        DispatchError::NotFound.message("ops"),
        "Webhook 'ops' not found in configuration"
    );
    assert_eq!(DispatchError::NoUrls.message("ops"), "Webhook 'ops' has no URLs configured");
}

#[test]
fn unimplemented_variants_fail_fast_without_a_message_body() {
    let alert = GlitchTipSlackWebhook {
        alias: String::from("GlitchTip"),
        text: String::from("Error!"),
        attachments: vec![],
        sections: vec![],
    };
    let converter = Converter::new(None, true);

    let mut wecom = endpoint("w", &["https://a.test"], true, 1);
    wecom.forward_config = ForwardConfig::WecomWebhook(WecomConfig {
        corp_id: String::from("c"),
        corp_secret: String::from("s"),
        agent_id: None,
        to_user: None,
    });
    match WebhookService::send_action(&converter, &alert, &wecom) {
        SendAction::Unimplemented(reason) => {
            assert_eq!(reason, "WeCom webhook not implemented yet")
        }
        SendAction::Post(_) => panic!("WeCom must not produce a message body"),
    }

    let mut dingtalk = endpoint("d", &["https://a.test"], true, 1);
    dingtalk.forward_config = ForwardConfig::DingtalkWebhook(DingtalkConfig {
        access_token: String::from("t"),
        secret: None,
        at_mobiles: None,
    });
    match WebhookService::send_action(&converter, &alert, &dingtalk) {
        SendAction::Unimplemented(reason) => {
            assert_eq!(reason, "DingTalk webhook not implemented yet")
        }
        SendAction::Post(_) => panic!("DingTalk must not produce a message body"),
    }

    let feishu = endpoint("f", &["https://a.test"], true, 1);
    match WebhookService::send_action(&converter, &alert, &feishu) {
        SendAction::Post(msg) => {
            assert_eq!(msg.msg_type, "interactive");
            assert!(msg.card.is_some());
        }
        SendAction::Unimplemented(_) => panic!("the Feishu variant is implemented"),
    }
}

#[test]
fn http_replies_reflect_the_outcome() {
    let (ok, code) = webhook_response_ok("team", vec![]);
    assert_eq!(code, 200);
    assert_eq!(ok.status, "success");
    assert!(ok.errors.is_none());

    let (partial, code) = webhook_response_ok("team", vec![String::from("team (u): HTTP 500: x")]);
    assert_eq!(code, 200);
    assert_eq!(partial.status, "partial_success");
    assert_eq!(partial.errors.unwrap().len(), 1);

    let (err, code) = webhook_response_err("team", &DispatchError::NotFound);
    assert_eq!(code, 404);
    assert_eq!(err.status, "error");
    assert_eq!(err.message, "Webhook 'team' not found in configuration");
}
