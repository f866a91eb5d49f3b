//! Metadata extraction and card rendering.
//!
//! An inbound alert is first flattened into a [`WebhookMetadata`] attribute
//! set, then a template is rendered against those attributes and parsed into
//! the destination card document. Rendering falls back through the embedded
//! template and, last, a minimal hand-built document that cannot fail.

use vstd::prelude::*;
use crate::color::hash_to_color;
use crate::color::spec_color_for;
use crate::outside::json_text_value;
use crate::outside::parse_json;
use crate::outside::random_u64;
use crate::outside::render_template_str;
use crate::outside::spec_json_parses;
use crate::outside::spec_pairs_view;
use crate::outside::spec_rendered;
use crate::textutil::escape_json;
use crate::textutil::find_char;
use crate::textutil::spec_escape_json;
use crate::textutil::spec_find;
use crate::textutil::spec_hex;
use crate::textutil::spec_starts_with;
use crate::textutil::str_eq;
use crate::textutil::strip_prefix_str;
use crate::textutil::u64_to_hex;
use crate::timestamp::current_timestamp;
use crate::timestamp::spec_timestamp_text;
use crate::timestamp::MAX_FORMAT_SECONDS;
use crate::types::AttachmentField;
use crate::types::FeishuWebhook;
use crate::types::GlitchTipSlackWebhook;

verus! {

/// The embedded default card template: a Feishu interactive card document
/// with every metadata attribute bound as a named variable.
pub const EMBEDDED_TEMPLATE: &'static str = r#"{
  "schema": "2.0",
  "config": { "update_multi": true },
  "header": {
    "title": { "tag": "plain_text", "content": "{{ webhook_alias }} Alert - {{ issue_identifier }}" },
    "subtitle": { "tag": "plain_text", "content": "{{ current_timestamp }}" },
    "template": "red"
  },
  "body": {
    "elements": [
      { "tag": "markdown", "content": "**{{ exception_class_name }}**", "element_id": "a{{ element_id_1 }}" },
      { "tag": "markdown", "content": "{{ full_error_message }}", "element_id": "a{{ element_id_2 }}" },
      {
        "tag": "column_set",
        "element_id": "a{{ element_id_3 }}",
        "columns": [
          {
            "tag": "column",
            "background_style": "{{ project_bg_color }}",
            "elements": [
              { "tag": "markdown", "content": "<text_tag color='{{ project_fg_color }}'>{{ project_id }}</text_tag>" }
            ]
          },
          {
            "tag": "column",
            "background_style": "{{ env_bg_color }}",
            "elements": [
              { "tag": "markdown", "content": "<text_tag color='{{ env_fg_color }}'>{{ environment_name }}</text_tag>" }
            ]
          },
          {
            "tag": "column",
            "background_style": "{{ host_bg_color }}",
            "elements": [
              { "tag": "markdown", "content": "<text_tag color='{{ host_fg_color }}'>{{ hostname }}</text_tag>" }
            ]
          }
        ]
      },
      { "tag": "markdown", "content": "Release: {{ commit_hash }}" },
      {
        "tag": "button",
        "text": { "tag": "plain_text", "content": "View Issue" },
        "behaviors": [ { "type": "open_url", "default_url": "{{ issue_url }}" } ]
      }
    ]
  }
}"#;

/// Flattened attribute set extracted from one inbound alert.
#[derive(Debug, Clone)]
pub struct WebhookMetadata {
    pub webhook_alias: String,
    pub issue_identifier: String,
    pub exception_class_name: String,
    pub full_error_message: String,
    pub issue_url: String,
    pub project_id: String,
    pub environment_name: String,
    pub hostname: String,
    pub commit_hash: String,
    pub current_timestamp: String,
    pub colors: ColorInfo,
    pub element_ids: ElementIds,
}

/// The three derived (background, foreground) style pairs.
#[derive(Debug, Clone)]
pub struct ColorInfo {
    pub project_bg: String,
    pub project_fg: String,
    pub env_bg: String,
    pub env_fg: String,
    pub host_bg: String,
    pub host_fg: String,
}

/// Opaque per-render identifiers that keep card elements unique.
#[derive(Debug, Clone)]
pub struct ElementIds {
    pub id_1: String,
    pub id_2: String,
    pub id_3: String,
}

// ---------------------------------------------------------------------------
// Extraction specification
// ---------------------------------------------------------------------------
/// The display text of the first markdown link `[text](url)` pattern in `s`,
/// or `s` itself when the pattern is absent: the text between the first `[`
/// and the first `]`, provided the `]` comes later.
pub open spec fn spec_markdown_text(s: Seq<char>) -> Seq<char> {
    match spec_find(s, '[') {
        Some(start) => match spec_find(s, ']') {
            Some(end) => if end > start {
                s.subrange(start + 1, end)
            } else {
                s
            },
            None => s,
        },
        None => s,
    }
}

/// `s` with a leading `"View Issue "` removed, when present.
pub open spec fn spec_strip_view_issue(s: Seq<char>) -> Seq<char> {
    if spec_starts_with(s, "View Issue "@) {
        s.subrange("View Issue "@.len() as int, s.len() as int)
    } else {
        s
    }
}

/// The issue identifier: from the first section's subtitle, with the
/// `"View Issue "` prefix stripped and a markdown link reduced to its text;
/// `"Unknown"` when the alert has no sections.
pub open spec fn spec_issue_identifier(g: GlitchTipSlackWebhook) -> Seq<char> {
    if g.sections@.len() == 0 {
        "Unknown"@
    } else {
        spec_markdown_text(spec_strip_view_issue(g.sections@[0].activity_subtitle@))
    }
}

/// The part of an attachment title before its first colon.
pub open spec fn spec_class_of_title(title: Seq<char>) -> Seq<char> {
    match spec_find(title, ':') {
        Some(i) => title.subrange(0, i),
        None => title,
    }
}

/// The exception class name: the first attachment's title up to the first
/// colon, or `"Unknown"` without attachments.
pub open spec fn spec_exception_class_name(g: GlitchTipSlackWebhook) -> Seq<char> {
    if g.attachments@.len() == 0 {
        "Unknown"@
    } else {
        spec_class_of_title(g.attachments@[0].title@)
    }
}

/// The full error message: the first attachment's title verbatim, or the
/// `"Unknown error"` sentinel without attachments.
pub open spec fn spec_full_error_message(g: GlitchTipSlackWebhook) -> Seq<char> {
    if g.attachments@.len() == 0 {
        "Unknown error"@
    } else {
        g.attachments@[0].title@
    }
}

/// The issue URL: the first attachment's title link, or empty.
pub open spec fn spec_issue_url(g: GlitchTipSlackWebhook) -> Seq<char> {
    if g.attachments@.len() == 0 {
        ""@
    } else {
        g.attachments@[0].title_link@
    }
}

/// The value of the first field titled `key`, from position `i` on;
/// `"Unknown"` when no field matches.
pub open spec fn spec_field_lookup(fields: Seq<AttachmentField>, key: Seq<char>, i: int) -> Seq<
    char,
>
    decreases fields.len() - i,
{
    if i < 0 || i >= fields.len() {
        "Unknown"@
    } else if fields[i].title@ == key {
        fields[i].value@
    } else {
        spec_field_lookup(fields, key, i + 1)
    }
}

/// The value of the first field titled `key`, or `"Unknown"`.
pub open spec fn spec_field_value(fields: Seq<AttachmentField>, key: Seq<char>) -> Seq<char> {
    spec_field_lookup(fields, key, 0)
}

/// A keyed attribute of the first attachment: the first field whose title is
/// `key`, or `"Unknown"` when there is no attachment or no such field.
pub open spec fn spec_attachment_field(g: GlitchTipSlackWebhook, key: Seq<char>) -> Seq<char> {
    if g.attachments@.len() == 0 {
        "Unknown"@
    } else {
        spec_field_value(g.attachments@[0].fields@, key)
    }
}

// ---------------------------------------------------------------------------
// Extraction
// ---------------------------------------------------------------------------
/// The display text of the first markdown link in `s`, or `s` itself.
fn markdown_text<'a>(s: &'a str) -> (r: &'a str)
    ensures
        r@ == spec_markdown_text(s@),
{
    match find_char(s, '[') {
        Some(start) => match find_char(s, ']') {
            Some(end) => if end > start {
                s.substring_char(start + 1, end)
            } else {
                s
            },
            None => s,
        },
        None => s,
    }
}

/// The value of the first field titled `key`, or `"Unknown"`.
fn field_value(fields: &Vec<AttachmentField>, key: &str) -> (r: String)
    ensures
        r@ == spec_field_value(fields@, key@),
{
    let n = fields.len();
    for i in 0..n
        invariant
            n == fields@.len(),
            spec_field_value(fields@, key@) == spec_field_lookup(fields@, key@, i as int),
    {
        if str_eq(fields[i].title.as_str(), key) {
            proof {
                assert(spec_field_lookup(fields@, key@, i as int) == fields@[i as int].value@);
            }
            return fields[i].value.clone();
        }
        proof {
            assert(spec_field_lookup(fields@, key@, i as int) == spec_field_lookup(
                fields@,
                key@,
                i + 1,
            ));
        }
    }
    String::from_str("Unknown")
}

/// One fresh opaque identifier: the hexadecimal rendering of a random word.
fn fresh_element_id() -> (r: String)
    ensures
        exists|v: u64| r@ == spec_hex(v),
{
    let v = random_u64();
    let r = u64_to_hex(v);
    proof {
        assert(r@ == spec_hex(v));
    }
    r
}

/// Converts inbound alerts into destination card messages.
pub struct Converter {
    /// Template text overriding the embedded default, when one is configured
    /// and was readable.
    pub template_override: Option<String>,
    /// Whether style pairs are derived from the attribute text; when off,
    /// three fixed pairs are used instead.
    pub enable_hash_colors: bool,
}

impl Converter {
    /// A converter with the given template override and color switch.
    pub fn new(template_override: Option<String>, enable_hash_colors: bool) -> (r: Self)
        ensures
            r.template_override == template_override,
            r.enable_hash_colors == enable_hash_colors,
    {
        Converter { template_override, enable_hash_colors }
    }

    /// Extract the flattened attribute set from an inbound alert.
    ///
    /// Every attribute except the timestamp and the element identifiers is a
    /// function of the alert alone; the timestamp is a well-formed clock
    /// rendering and the identifiers are hexadecimal words.
    pub fn extract_metadata(&self, g: &GlitchTipSlackWebhook) -> (m: WebhookMetadata)
        ensures
            m.webhook_alias@ == "GlitchTip"@,
            m.issue_identifier@ == spec_issue_identifier(*g),
            m.exception_class_name@ == spec_exception_class_name(*g),
            m.full_error_message@ == spec_full_error_message(*g),
            m.issue_url@ == spec_issue_url(*g),
            m.project_id@ == spec_attachment_field(*g, "Project"@),
            m.environment_name@ == spec_attachment_field(*g, "Environment"@),
            m.hostname@ == spec_attachment_field(*g, "Server Name"@),
            m.commit_hash@ == spec_attachment_field(*g, "Release"@),
            exists|t: u64| t <= MAX_FORMAT_SECONDS && m.current_timestamp@ == spec_timestamp_text(
                t,
            ),
            self.enable_hash_colors ==> {
                &&& m.colors.project_bg@ == spec_color_for(m.project_id@).0
                &&& m.colors.project_fg@ == spec_color_for(m.project_id@).1
                &&& m.colors.env_bg@ == spec_color_for(m.environment_name@).0
                &&& m.colors.env_fg@ == spec_color_for(m.environment_name@).1
                &&& m.colors.host_bg@ == spec_color_for(m.hostname@).0
                &&& m.colors.host_fg@ == spec_color_for(m.hostname@).1
            },
            !self.enable_hash_colors ==> {
                &&& m.colors.project_bg@ == "red-50"@
                &&& m.colors.project_fg@ == "red"@
                &&& m.colors.env_bg@ == "carmine-50"@
                &&& m.colors.env_fg@ == "carmine"@
                &&& m.colors.host_bg@ == "orange-50"@
                &&& m.colors.host_fg@ == "orange"@
            },
            exists|v: u64| m.element_ids.id_1@ == spec_hex(v),
            exists|v: u64| m.element_ids.id_2@ == spec_hex(v),
            exists|v: u64| m.element_ids.id_3@ == spec_hex(v),
    {
        let issue_identifier = if g.sections.len() == 0 {
            String::from_str("Unknown")
        } else {
            let subtitle = g.sections[0].activity_subtitle.as_str();
            let cleaned = match strip_prefix_str(subtitle, "View Issue ") {
                Some(rest) => rest,
                None => subtitle,
            };
            String::from_str(markdown_text(cleaned))
        };

        let (exception_class_name, full_error_message, issue_url) = if g.attachments.len() == 0 {
            (String::from_str("Unknown"), String::from_str("Unknown error"), String::from_str(""))
        } else {
            let title = g.attachments[0].title.as_str();
            let class = match find_char(title, ':') {
                Some(i) => String::from_str(title.substring_char(0, i)),
                None => g.attachments[0].title.clone(),
            };
            (class, g.attachments[0].title.clone(), g.attachments[0].title_link.clone())
        };

        let (project_id, environment_name, hostname, commit_hash) = if g.attachments.len() == 0 {
            (
                String::from_str("Unknown"),
                String::from_str("Unknown"),
                String::from_str("Unknown"),
                String::from_str("Unknown"),
            )
        } else {
            let fields = &g.attachments[0].fields;
            (
                field_value(fields, "Project"),
                field_value(fields, "Environment"),
                field_value(fields, "Server Name"),
                field_value(fields, "Release"),
            )
        };

        let colors = if self.enable_hash_colors {
            let project = hash_to_color(project_id.as_str());
            let env = hash_to_color(environment_name.as_str());
            let host = hash_to_color(hostname.as_str());
            ColorInfo {
                project_bg: project.0,
                project_fg: project.1,
                env_bg: env.0,
                env_fg: env.1,
                host_bg: host.0,
                host_fg: host.1,
            }
        } else {
            ColorInfo {
                project_bg: String::from_str("red-50"),
                project_fg: String::from_str("red"),
                env_bg: String::from_str("carmine-50"),
                env_fg: String::from_str("carmine"),
                host_bg: String::from_str("orange-50"),
                host_fg: String::from_str("orange"),
            }
        };

        let current = current_timestamp();
        let element_ids = ElementIds {
            id_1: fresh_element_id(),
            id_2: fresh_element_id(),
            id_3: fresh_element_id(),
        };

        WebhookMetadata {
            webhook_alias: String::from_str("GlitchTip"),
            issue_identifier,
            exception_class_name,
            full_error_message,
            issue_url,
            project_id,
            environment_name,
            hostname,
            commit_hash,
            current_timestamp: current,
            colors,
            element_ids,
        }
    }
}

// ---------------------------------------------------------------------------
// Rendering
// ---------------------------------------------------------------------------
impl Default for Converter {
    /// A converter with no template override and derived colors on.
    fn default() -> (r: Self)
        ensures
            r.template_override is None,
            r.enable_hash_colors,
    {
        Converter::new(None, true)
    }
}

/// The template a converter renders first: its override, or the embedded
/// default.
pub open spec fn spec_selected_template(c: Converter) -> Seq<char> {
    match c.template_override {
        Some(t) => t@,
        None => EMBEDDED_TEMPLATE@,
    }
}

/// The named bindings a metadata set is rendered with.
pub open spec fn spec_context_pairs(m: WebhookMetadata) -> Seq<(Seq<char>, Seq<char>)> {
    seq![
        ("webhook_alias"@, m.webhook_alias@),
        ("issue_identifier"@, m.issue_identifier@),
        ("exception_class_name"@, m.exception_class_name@),
        ("full_error_message"@, m.full_error_message@),
        ("issue_url"@, m.issue_url@),
        ("project_id"@, m.project_id@),
        ("environment_name"@, m.environment_name@),
        ("hostname"@, m.hostname@),
        ("commit_hash"@, m.commit_hash@),
        ("current_timestamp"@, m.current_timestamp@),
        ("project_bg_color"@, m.colors.project_bg@),
        ("project_fg_color"@, m.colors.project_fg@),
        ("env_bg_color"@, m.colors.env_bg@),
        ("env_fg_color"@, m.colors.env_fg@),
        ("host_bg_color"@, m.colors.host_bg@),
        ("host_fg_color"@, m.colors.host_fg@),
        ("element_id_1"@, m.element_ids.id_1@),
        ("element_id_2"@, m.element_ids.id_2@),
        ("element_id_3"@, m.element_ids.id_3@),
    ]
}

/// The card text the fallback chain settles on: the selected template's
/// rendering when it renders and parses as JSON, else the embedded
/// template's rendering under the same conditions, else nothing.
pub open spec fn spec_choose_card_text(c: Converter, m: WebhookMetadata) -> Option<Seq<char>> {
    let ctx = spec_context_pairs(m);
    match spec_rendered(spec_selected_template(c), ctx) {
        Some(s) => if spec_json_parses(s) {
            Some(s)
        } else {
            spec_embedded_card_text(ctx)
        },
        None => spec_embedded_card_text(ctx),
    }
}

/// The embedded template's rendering, when it renders and parses as JSON.
pub open spec fn spec_embedded_card_text(ctx: Seq<(Seq<char>, Seq<char>)>) -> Option<Seq<char>> {
    match spec_rendered(EMBEDDED_TEMPLATE@, ctx) {
        Some(s) => if spec_json_parses(s) {
            Some(s)
        } else {
            None
        },
        None => None,
    }
}

/// The minimal terminal-fallback card document, holding only the exception
/// class, the error message and the issue identifier.
pub open spec fn spec_minimal_card_text(class: Seq<char>, msg: Seq<char>, id: Seq<char>) -> Seq<
    char,
> {
    "{\"schema\":\"2.0\",\"body\":{\"elements\":[{\"tag\":\"div\",\"text\":{\"tag\":\"plain_text\",\"content\":\"Error: "@
        + spec_escape_json(class) + " - "@ + spec_escape_json(msg)
        + "\"}}]},\"header\":{\"title\":{\"tag\":\"plain_text\",\"content\":\"GlitchTip Alert - "@
        + spec_escape_json(id) + "\"},\"template\":\"red\"}}"@
}

/// Build the minimal terminal-fallback card text. Its construction cannot
/// fail: the attribute texts are escaped and spliced into a fixed document.
pub fn minimal_card_text(class: &str, msg: &str, id: &str) -> (r: String)
    ensures
        r@ == spec_minimal_card_text(class@, msg@, id@),
{
    let mut out = String::from_str(
        "{\"schema\":\"2.0\",\"body\":{\"elements\":[{\"tag\":\"div\",\"text\":{\"tag\":\"plain_text\",\"content\":\"Error: ",
    );
    let e = escape_json(class);
    out.append(e.as_str());
    out.append(" - ");
    let e = escape_json(msg);
    out.append(e.as_str());
    out.append(
        "\"}}]},\"header\":{\"title\":{\"tag\":\"plain_text\",\"content\":\"GlitchTip Alert - ",
    );
    let e = escape_json(id);
    out.append(e.as_str());
    out.append("\"},\"template\":\"red\"}}");
    proof {
        assert(out@ =~= spec_minimal_card_text(class@, msg@, id@));
    }
    out
}

/// Wrap a card document in the outbound message envelope.
fn card_envelope(card: serde_json::Value) -> (r: FeishuWebhook)
    ensures
        r.msg_type@ == "interactive"@,
        r.content is None,
        r.card is Some,
{
    FeishuWebhook { msg_type: String::from_str("interactive"), content: None, card: Some(card) }
}

impl Converter {
    /// The template rendered first: the configured override, or the embedded
    /// default.
    pub fn select_template(&self) -> (r: &str)
        ensures
            r@ == spec_selected_template(*self),
    {
        match &self.template_override {
            Some(t) => t.as_str(),
            None => EMBEDDED_TEMPLATE,
        }
    }

    /// The named bindings for a metadata set, in template-variable order.
    fn build_context(m: &WebhookMetadata) -> (r: Vec<(String, String)>)
        ensures
            spec_pairs_view(r@) == spec_context_pairs(*m),
    {
        let ctx: Vec<(String, String)> = vec![
            (String::from_str("webhook_alias"), m.webhook_alias.clone()),
            (String::from_str("issue_identifier"), m.issue_identifier.clone()),
            (String::from_str("exception_class_name"), m.exception_class_name.clone()),
            (String::from_str("full_error_message"), m.full_error_message.clone()),
            (String::from_str("issue_url"), m.issue_url.clone()),
            (String::from_str("project_id"), m.project_id.clone()),
            (String::from_str("environment_name"), m.environment_name.clone()),
            (String::from_str("hostname"), m.hostname.clone()),
            (String::from_str("commit_hash"), m.commit_hash.clone()),
            (String::from_str("current_timestamp"), m.current_timestamp.clone()),
            (String::from_str("project_bg_color"), m.colors.project_bg.clone()),
            (String::from_str("project_fg_color"), m.colors.project_fg.clone()),
            (String::from_str("env_bg_color"), m.colors.env_bg.clone()),
            (String::from_str("env_fg_color"), m.colors.env_fg.clone()),
            (String::from_str("host_bg_color"), m.colors.host_bg.clone()),
            (String::from_str("host_fg_color"), m.colors.host_fg.clone()),
            (String::from_str("element_id_1"), m.element_ids.id_1.clone()),
            (String::from_str("element_id_2"), m.element_ids.id_2.clone()),
            (String::from_str("element_id_3"), m.element_ids.id_3.clone()),
        ];
        proof {
            let sv = spec_pairs_view(ctx@);
            let sp = spec_context_pairs(*m);
            assert forall|i: int| 0 <= i < sp.len() implies sv[i] == sp[i] by {
                assert(sv[i] == (ctx@[i].0@, ctx@[i].1@));
            }
            assert(sv =~= sp);
        }
        ctx
    }

    /// Render a template against a metadata set.
    pub fn render_template(&self, template: &str, metadata: &WebhookMetadata) -> (r: Option<
        String,
    >)
        ensures
            match r {
                Some(s) => spec_rendered(template@, spec_context_pairs(*metadata)) == Some(s@),
                None => spec_rendered(template@, spec_context_pairs(*metadata)) is None,
            },
    {
        let ctx = Self::build_context(metadata);
        render_template_str(template, &ctx)
    }

    /// The card text the fallback chain settles on, when either template
    /// yields one that parses as JSON.
    pub fn choose_card_text(&self, metadata: &WebhookMetadata) -> (r: Option<String>)
        ensures
            match r {
                Some(s) => spec_choose_card_text(*self, *metadata) == Some(s@),
                None => spec_choose_card_text(*self, *metadata) is None,
            },
    {
        let primary = self.render_template(self.select_template(), metadata);
        match primary {
            Some(s) => {
                if parse_json(s.as_str()).is_some() {
                    return Some(s);
                }
                self.embedded_card_text(metadata)
            },
            None => self.embedded_card_text(metadata),
        }
    }

    /// The embedded template's card text, when it renders and parses.
    fn embedded_card_text(&self, metadata: &WebhookMetadata) -> (r: Option<String>)
        ensures
            match r {
                Some(s) => spec_embedded_card_text(spec_context_pairs(*metadata)) == Some(s@),
                None => spec_embedded_card_text(spec_context_pairs(*metadata)) is None,
            },
    {
        match self.render_template(EMBEDDED_TEMPLATE, metadata) {
            Some(s) => {
                if parse_json(s.as_str()).is_some() {
                    Some(s)
                } else {
                    None
                }
            },
            None => None,
        }
    }

    /// The terminal fallback: a minimal card built without rendering or
    /// parsing, so it always succeeds.
    pub fn create_emergency_fallback_webhook(&self, metadata: &WebhookMetadata) -> (r:
        FeishuWebhook)
        ensures
            r.msg_type@ == "interactive"@,
            r.content is None,
            r.card is Some,
    {
        let text = minimal_card_text(
            metadata.exception_class_name.as_str(),
            metadata.full_error_message.as_str(),
            metadata.issue_identifier.as_str(),
        );
        match parse_json(text.as_str()) {
            Some(v) => card_envelope(v),
            None => card_envelope(json_text_value(text.as_str())),
        }
    }

    /// Build the outbound card message for a metadata set: the fallback
    /// chain's card text parsed and unwrapped, or the terminal fallback.
    pub fn card_from_metadata(&self, metadata: &WebhookMetadata) -> (r: FeishuWebhook)
        ensures
            r.msg_type@ == "interactive"@,
            r.content is None,
            r.card is Some,
    {
        match self.choose_card_text(metadata) {
            Some(s) => match parse_json(s.as_str()) {
                Some(v) => card_envelope(crate::outside::unwrap_dsl(v)),
                None => {
                    proof {
                        assert(false);
                    }
                    self.create_emergency_fallback_webhook(metadata)
                },
            },
            None => self.create_emergency_fallback_webhook(metadata),
        }
    }

    /// Convert an inbound alert to the outbound card message. The envelope
    /// is always produced: rendering failures fall back internally, down to
    /// the terminal minimal card.
    pub fn glitchtip_to_feishu_card(&self, glitchtip: &GlitchTipSlackWebhook) -> (r: Option<
        FeishuWebhook,
    >)
        ensures
            r is Some,
            match r {
                Some(w) => w.msg_type@ == "interactive"@ && w.content is None && w.card is Some,
                None => false,
            },
    {
        let metadata = self.extract_metadata(glitchtip);
        Some(self.card_from_metadata(&metadata))
    }
}

} // verus!
