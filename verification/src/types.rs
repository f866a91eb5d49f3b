//! Data model: inbound alert payloads, outbound Feishu messages, and the
//! routing configuration.

use vstd::prelude::*;

verus! {

// ---------------------------------------------------------------------------
// Inbound alert payload (Slack-format webhook from the monitoring source)
// ---------------------------------------------------------------------------
/// Inbound alert payload.
#[derive(Debug, Clone)]
pub struct GlitchTipSlackWebhook {
    /// Webhook alias or source name.
    pub alias: String,
    /// Main message text.
    pub text: String,
    /// Attachments carrying error details.
    pub attachments: Vec<SlackAttachment>,
    /// Activity sections.
    pub sections: Vec<ActivitySection>,
}

/// Attachment carrying error details.
#[derive(Debug, Clone)]
pub struct SlackAttachment {
    /// Color indicator for the attachment.
    pub color: String,
    /// Key-value fields.
    pub fields: Vec<AttachmentField>,
    /// Optional image URL.
    pub image_url: Option<String>,
    /// Markdown formatting options.
    pub mrkdown_in: Option<Vec<String>>,
    /// Optional attachment text.
    pub text: Option<String>,
    /// Attachment title.
    pub title: String,
    /// Link to the issue details.
    pub title_link: String,
}

/// Key-value field within an attachment.
#[derive(Debug, Clone)]
pub struct AttachmentField {
    /// Field title.
    pub title: String,
    /// Field value.
    pub value: String,
    /// Whether to display the field in compact form.
    pub short: bool,
}

/// Activity information section.
#[derive(Debug, Clone)]
pub struct ActivitySection {
    /// Activity title.
    pub activity_title: String,
    /// Activity subtitle; often embeds a markdown link to the issue.
    pub activity_subtitle: String,
}

// ---------------------------------------------------------------------------
// Outbound Feishu message envelope
// ---------------------------------------------------------------------------
/// Outbound Feishu message envelope.
#[derive(Debug)]
pub struct FeishuWebhook {
    /// Message type: `text`, `post` or `interactive`.
    pub msg_type: String,
    /// Plain or rich text content, for the non-card message types.
    pub content: Option<FeishuContent>,
    /// Interactive card document.
    pub card: Option<serde_json::Value>,
}

/// Feishu message content.
#[derive(Debug, Clone)]
pub struct FeishuContent {
    /// Plain text content.
    pub text: Option<String>,
    /// Rich text content.
    pub post: Option<FeishuPost>,
}

/// Feishu rich text post.
#[derive(Debug, Clone)]
pub struct FeishuPost {
    /// Chinese-locale content.
    pub zh_cn: FeishuPostContent,
}

/// Feishu post content.
#[derive(Debug, Clone)]
pub struct FeishuPostContent {
    /// Post title.
    pub title: Option<String>,
    /// Post content elements, one list per line.
    pub content: Vec<Vec<FeishuPostElement>>,
}

/// One element of a Feishu rich text line.
#[derive(Debug, Clone)]
pub enum FeishuPostElement {
    /// Plain text run.
    Text { text: String },
    /// Hyperlink run.
    Link { text: String, href: String },
    /// Mention of a user.
    At { user_id: String, user_name: Option<String> },
}

// ---------------------------------------------------------------------------
// API response envelopes
// ---------------------------------------------------------------------------
/// Configuration information response.
#[derive(Debug, Clone)]
pub struct ConfigResponse {
    /// Server port.
    pub server_port: u16,
    /// Configured webhooks, sanitized.
    pub feishu_webhooks: Vec<FeishuWebhookInfo>,
}

/// Sanitized webhook configuration entry.
#[derive(Debug, Clone)]
pub struct FeishuWebhookInfo {
    /// Webhook name.
    pub name: String,
    /// Webhook URL, masked.
    pub url: String,
    /// Whether the webhook is enabled.
    pub enabled: bool,
    /// Whether a secret is configured.
    pub has_secret: bool,
}

/// Webhook processing response.
#[derive(Debug, Clone)]
pub struct WebhookResponse {
    /// Response status: `success`, `partial_success` or `error`.
    pub status: String,
    /// Human-readable message.
    pub message: String,
    /// Per-destination failure texts, when some sends failed.
    pub errors: Option<Vec<String>>,
}

// ---------------------------------------------------------------------------
// Routing configuration
// ---------------------------------------------------------------------------
/// Feishu robot message options.
#[derive(Debug, Clone)]
pub struct FeishuConfig {
    /// Card theme name.
    pub card_theme: Option<String>,
    /// Whether to mention everyone.
    pub mention_all: Option<bool>,
    /// Custom buttons.
    pub buttons: Option<Vec<Button>>,
    /// Ordered (severity, color) pairs.
    pub color_mapping: Option<Vec<(String, String)>>,
}

/// WeChat Work webhook options.
#[derive(Debug, Clone)]
pub struct WecomConfig {
    pub corp_id: String,
    pub corp_secret: String,
    pub agent_id: Option<String>,
    pub to_user: Option<String>,
}

/// DingTalk webhook options.
#[derive(Debug, Clone)]
pub struct DingtalkConfig {
    pub access_token: String,
    pub secret: Option<String>,
    pub at_mobiles: Option<Vec<String>>,
}

/// Custom button for interactive messages.
#[derive(Debug, Clone)]
pub struct Button {
    pub text: String,
    pub url: String,
}

/// Forwarding variant: the destination platform's wire format. Only the
/// Feishu card variant is implemented; the others fail fast per destination.
#[derive(Debug, Clone)]
pub enum ForwardConfig {
    FeishuRobotMsg(FeishuConfig),
    WecomWebhook(WecomConfig),
    DingtalkWebhook(DingtalkConfig),
}

/// Per-endpoint runtime policy.
#[derive(Debug, Clone)]
pub struct WebhookRuntimeConfig {
    /// Concurrency bound: at most this many sends in flight at once; a value
    /// of one or less means sequential.
    pub n_par: i32,
    /// Outbound request timeout in seconds.
    pub timeout: u64,
    /// Declared retry count. It is carried in the configuration but not
    /// enforced by the dispatch path; callers decide whether to honor it.
    pub retry: u32,
}

/// One named routing endpoint.
#[derive(Debug, Clone)]
pub struct WebhookConfig {
    /// Endpoint name, unique across the configuration and used as the
    /// routing key.
    pub name: String,
    /// Destination URLs.
    pub url: Vec<String>,
    /// Whether this endpoint forwards at all.
    pub enabled: bool,
    /// Forwarding variant.
    pub forward_config: ForwardConfig,
    /// Runtime policy.
    pub config: WebhookRuntimeConfig,
}

/// Whole application configuration.
#[derive(Debug, Clone)]
pub struct Config {
    /// Server port.
    pub server_port: u16,
    /// Server bind address.
    pub server_host: String,
    /// Directory holding template overrides, when configured.
    pub template_dir: Option<String>,
    /// The routing endpoints.
    pub webhooks: Vec<WebhookConfig>,
}

/// Legacy single-URL webhook configuration, kept for backward compatibility.
#[derive(Debug, Clone)]
pub struct FeishuWebhookConfig {
    /// Webhook name.
    pub name: String,
    /// Webhook URL.
    pub url: String,
    /// Optional secret for signature verification.
    pub secret: Option<String>,
    /// Whether the webhook is enabled.
    pub enabled: bool,
}

// ---------------------------------------------------------------------------
// Defaults
// ---------------------------------------------------------------------------
/// Default concurrency bound: sequential.
pub fn default_parallel() -> (r: i32)
    ensures
        r == 1,
{
    1
}

/// Whether a concurrency bound is the default.
pub fn is_default_parallel(v: &i32) -> (r: bool)
    ensures
        r == (*v == 1),
{
    *v == 1
}

/// Default outbound timeout in seconds.
pub fn default_timeout() -> (r: u64)
    ensures
        r == 30,
{
    30
}

/// Whether a timeout is the default.
pub fn is_default_timeout(v: &u64) -> (r: bool)
    ensures
        r == (*v == 30),
{
    *v == 30
}

/// Default declared retry count.
pub fn default_retry() -> (r: u32)
    ensures
        r == 3,
{
    3
}

/// Whether a retry count is the default.
pub fn is_default_retry(v: &u32) -> (r: bool)
    ensures
        r == (*v == 3),
{
    *v == 3
}

/// Default enablement of an endpoint.
pub fn default_enabled() -> (r: bool)
    ensures
        r,
{
    true
}

/// Whether an enablement flag is the default.
pub fn is_default_enabled(v: &bool) -> (r: bool)
    ensures
        r == (*v == true),
{
    *v == true
}

/// Whether a runtime policy holds the default values.
pub open spec fn spec_is_default_runtime_config(v: WebhookRuntimeConfig) -> bool {
    v.n_par == 1 && v.timeout == 30 && v.retry == 3
}

/// The default runtime policy: sequential, 30 s timeout, 3 declared retries.
pub fn default_runtime_config() -> (r: WebhookRuntimeConfig)
    ensures
        spec_is_default_runtime_config(r),
{
    WebhookRuntimeConfig { n_par: 1, timeout: 30, retry: 3 }
}

/// Whether a runtime policy holds the default values.
pub fn is_default_runtime_config(v: &WebhookRuntimeConfig) -> (r: bool)
    ensures
        r == spec_is_default_runtime_config(*v),
{
    v.n_par == 1 && v.timeout == 30 && v.retry == 3
}

/// Default server port.
pub fn default_server_port() -> (r: u16)
    ensures
        r == 7876,
{
    7876
}

/// Whether a port is the default.
pub fn is_default_server_port(v: &u16) -> (r: bool)
    ensures
        r == (*v == 7876),
{
    *v == 7876
}

/// Default server bind address.
pub fn default_server_host() -> (r: String)
    ensures
        r@ == "127.0.0.1"@,
{
    String::from_str("127.0.0.1")
}

/// Whether a bind address is the default.
pub fn is_default_server_host(v: &str) -> (r: bool)
    ensures
        r == (v@ == "127.0.0.1"@),
{
    crate::textutil::str_eq(v, "127.0.0.1")
}

/// Default endpoint list: empty.
pub fn default_webhooks() -> (r: Vec<WebhookConfig>)
    ensures
        r@.len() == 0,
{
    Vec::new()
}

/// Whether an endpoint list is the default.
pub fn is_default_webhooks(v: &Vec<WebhookConfig>) -> (r: bool)
    ensures
        r == (v@.len() == 0),
{
    v.len() == 0
}

/// Whether a configuration holds the hard-coded defaults.
pub open spec fn spec_is_default_config(c: Config) -> bool {
    &&& c.server_port == 7876
    &&& c.server_host@ == "127.0.0.1"@
    &&& c.template_dir is None
    &&& c.webhooks@.len() == 0
}

impl Default for Config {
    /// The hard-coded default configuration.
    fn default() -> (r: Self)
        ensures
            spec_is_default_config(r),
    {
        Config {
            server_port: 7876,
            server_host: String::from_str("127.0.0.1"),
            template_dir: None,
            webhooks: Vec::new(),
        }
    }
}

} // verus!
