//! Data model of the reminder service: service settings, inactivity rules
//! with their attached actions, and the payload/entity types of the
//! messaging-platform API.
//!
//! Timestamps are Unix epoch seconds (`i64`); JSON documents that the core
//! only carries through are held as their serialized text.

use vstd::prelude::*;

verus! {

// ---------------------------------------------------------------------------
// Service settings
// ---------------------------------------------------------------------------

/// Settings for the email (SMTP) transport.
#[derive(Debug)]
pub struct EmailConfig {
    pub smtp_server: String,
    pub smtp_port: u16,
    pub smtp_user: String,
    pub smtp_password: String,
    pub from_address: String,
}

/// Settings for the messaging-platform API, including the mutable
/// credential state managed by the token lifecycle.
#[derive(Debug)]
pub struct WacraftConfig {
    pub base_url: String,
    pub email: String,
    pub password: String,
    pub access_token: Option<String>,
    pub refresh_token: Option<String>,
    /// Expiration timestamp (Unix epoch seconds) of the access token.
    pub token_expires_at: Option<i64>,
}

impl WacraftConfig {
    /// Credential invariant: a stored access token always carries its expiry.
    pub open spec fn wf(self) -> bool {
        self.access_token is Some ==> self.token_expires_at is Some
    }
}

/// Top level of the service settings.
#[derive(Debug)]
pub struct Settings {
    pub wacraft: WacraftConfig,
    pub email: EmailConfig,
}

// ---------------------------------------------------------------------------
// Inactivity rules and their actions
// ---------------------------------------------------------------------------

/// A single inactivity rule: after `inactive_for_hours` hours without
/// activity the optional action applies. A rule without an action is valid
/// and means "acknowledge inactivity, do nothing".
#[derive(Debug)]
pub struct ReminderRule {
    pub name: String,
    pub inactive_for_hours: u64,
    pub action: Option<Action>,
}

/// The action attached to a rule: one reminder transport per variant.
#[derive(Debug)]
pub enum Action {
    WacraftMessage(WacraftMessageAction),
    Email(EmailAction),
    HttpRequest(HttpRequestAction),
}

/// Details for sending a platform message: the message payload without the
/// recipient, which is resolved at dispatch time.
#[derive(Debug)]
pub struct WacraftMessageAction {
    pub sender_data: MessagePayloadBase,
}

/// Details for sending a reminder email.
#[derive(Debug)]
pub struct EmailAction {
    pub subject: String,
    /// Path to the email template file.
    pub template: String,
}

/// One HTTP header of a webhook action.
#[derive(Debug)]
pub struct Header {
    pub name: String,
    pub value: String,
}

/// Details for calling a generic webhook. The body is the serialized JSON
/// document; `None` stands for no body.
#[derive(Debug)]
pub struct HttpRequestAction {
    pub method: String,
    pub url: String,
    pub headers: Vec<Header>,
    pub body: Option<String>,
}

// ---------------------------------------------------------------------------
// Message payload components
// ---------------------------------------------------------------------------

/// A plain text message body.
#[derive(Debug)]
pub struct TextData {
    pub body: String,
    pub preview_url: Option<bool>,
}

/// Model of a text body: the characters plus the preview flag.
pub ghost struct TextDataModel {
    pub body: Seq<char>,
    pub preview_url: Option<bool>,
}

impl DeepView for TextData {
    type V = TextDataModel;

    open spec fn deep_view(&self) -> TextDataModel {
        TextDataModel { body: self.body@, preview_url: self.preview_url }
    }
}

/// A media object (image, video, document, ...), by id or by link.
#[derive(Debug)]
pub struct UseMedia {
    pub id: Option<String>,
    pub link: Option<String>,
    pub caption: Option<String>,
    pub filename: Option<String>,
}

/// Model of a media reference.
pub ghost struct UseMediaModel {
    pub id: Option<Seq<char>>,
    pub link: Option<Seq<char>>,
    pub caption: Option<Seq<char>>,
    pub filename: Option<Seq<char>>,
}

impl DeepView for UseMedia {
    type V = UseMediaModel;

    open spec fn deep_view(&self) -> UseMediaModel {
        UseMediaModel {
            id: self.id.deep_view(),
            link: self.link.deep_view(),
            caption: self.caption.deep_view(),
            filename: self.filename.deep_view(),
        }
    }
}

/// The language of a message template.
#[derive(Debug)]
pub struct Language {
    pub code: String,
}

/// Model of a template language.
pub ghost struct LanguageModel {
    pub code: Seq<char>,
}

impl DeepView for Language {
    type V = LanguageModel;

    open spec fn deep_view(&self) -> LanguageModel {
        LanguageModel { code: self.code@ }
    }
}

/// A parameter of a template component, for dynamic content.
#[derive(Debug)]
pub struct Parameter {
    pub parameter_type: String,
    pub text: Option<String>,
    pub image: Option<UseMedia>,
    pub document: Option<UseMedia>,
}

/// Model of a template parameter.
pub ghost struct ParameterModel {
    pub parameter_type: Seq<char>,
    pub text: Option<Seq<char>>,
    pub image: Option<UseMediaModel>,
    pub document: Option<UseMediaModel>,
}

impl DeepView for Parameter {
    type V = ParameterModel;

    open spec fn deep_view(&self) -> ParameterModel {
        ParameterModel {
            parameter_type: self.parameter_type@,
            text: self.text.deep_view(),
            image: self.image.deep_view(),
            document: self.document.deep_view(),
        }
    }
}

/// A component of a message template (header, body, buttons).
#[derive(Debug)]
pub struct Component {
    pub component_type: String,
    pub parameters: Option<Vec<Parameter>>,
}

/// Model of a template component.
pub ghost struct ComponentModel {
    pub component_type: Seq<char>,
    pub parameters: Option<Seq<ParameterModel>>,
}

impl DeepView for Component {
    type V = ComponentModel;

    open spec fn deep_view(&self) -> ComponentModel {
        ComponentModel {
            component_type: self.component_type@,
            parameters: self.parameters.deep_view(),
        }
    }
}

/// A message template reference with its components.
#[derive(Debug)]
pub struct UseTemplate {
    pub name: String,
    pub language: Language,
    pub components: Option<Vec<Component>>,
}

/// Model of a template reference.
pub ghost struct UseTemplateModel {
    pub name: Seq<char>,
    pub language: LanguageModel,
    pub components: Option<Seq<ComponentModel>>,
}

impl DeepView for UseTemplate {
    type V = UseTemplateModel;

    open spec fn deep_view(&self) -> UseTemplateModel {
        UseTemplateModel {
            name: self.name@,
            language: self.language.deep_view(),
            components: self.components.deep_view(),
        }
    }
}

/// An interactive message. Its action part is carried as serialized JSON.
#[derive(Debug)]
pub struct Interactive {
    pub action: String,
    pub body: TextData,
}

/// Model of an interactive message.
pub ghost struct InteractiveModel {
    pub action: Seq<char>,
    pub body: TextDataModel,
}

impl DeepView for Interactive {
    type V = InteractiveModel;

    open spec fn deep_view(&self) -> InteractiveModel {
        InteractiveModel { action: self.action@, body: self.body.deep_view() }
    }
}

// ---------------------------------------------------------------------------
// Message payloads
// ---------------------------------------------------------------------------

/// The message content without the recipient: exactly one of the typed
/// payload fields is meant to be populated, per `message_type`.
#[derive(Debug)]
pub struct MessagePayloadBase {
    pub messaging_product: String,
    pub recipient_type: String,
    pub message_type: String,
    pub text: Option<TextData>,
    pub image: Option<UseMedia>,
    pub document: Option<UseMedia>,
    pub audio: Option<UseMedia>,
    pub video: Option<UseMedia>,
    pub sticker: Option<UseMedia>,
    pub template: Option<UseTemplate>,
    pub interactive: Option<Interactive>,
}

/// Model of a message payload without its recipient.
pub ghost struct MessagePayloadBaseModel {
    pub messaging_product: Seq<char>,
    pub recipient_type: Seq<char>,
    pub message_type: Seq<char>,
    pub text: Option<TextDataModel>,
    pub image: Option<UseMediaModel>,
    pub document: Option<UseMediaModel>,
    pub audio: Option<UseMediaModel>,
    pub video: Option<UseMediaModel>,
    pub sticker: Option<UseMediaModel>,
    pub template: Option<UseTemplateModel>,
    pub interactive: Option<InteractiveModel>,
}

impl DeepView for MessagePayloadBase {
    type V = MessagePayloadBaseModel;

    open spec fn deep_view(&self) -> MessagePayloadBaseModel {
        MessagePayloadBaseModel {
            messaging_product: self.messaging_product@,
            recipient_type: self.recipient_type@,
            message_type: self.message_type@,
            text: self.text.deep_view(),
            image: self.image.deep_view(),
            document: self.document.deep_view(),
            audio: self.audio.deep_view(),
            video: self.video.deep_view(),
            sticker: self.sticker.deep_view(),
            template: self.template.deep_view(),
            interactive: self.interactive.deep_view(),
        }
    }
}

/// The full `sender_data` of an outbound message: content plus recipient.
#[derive(Debug)]
pub struct MessagePayload {
    pub base: MessagePayloadBase,
    pub to: String,
}

/// Model of a full message payload.
pub ghost struct MessagePayloadModel {
    pub base: MessagePayloadBaseModel,
    pub to: Seq<char>,
}

impl DeepView for MessagePayload {
    type V = MessagePayloadModel;

    open spec fn deep_view(&self) -> MessagePayloadModel {
        MessagePayloadModel { base: self.base.deep_view(), to: self.to@ }
    }
}

/// The top-level object of the message-send endpoint.
#[derive(Debug)]
pub struct SendWhatsAppMessage {
    pub to_id: String,
    pub sender_data: MessagePayload,
}

/// Model of an outbound message-send request.
pub ghost struct SendWhatsAppMessageModel {
    pub to_id: Seq<char>,
    pub sender_data: MessagePayloadModel,
}

impl DeepView for SendWhatsAppMessage {
    type V = SendWhatsAppMessageModel;

    open spec fn deep_view(&self) -> SendWhatsAppMessageModel {
        SendWhatsAppMessageModel {
            to_id: self.to_id@,
            sender_data: self.sender_data.deep_view(),
        }
    }
}

// ---------------------------------------------------------------------------
// Entities returned by the API
// ---------------------------------------------------------------------------

/// Core contact details.
#[derive(Debug)]
pub struct Contact {
    pub id: String,
    pub name: String,
    pub email: Option<String>,
    pub photo_path: Option<String>,
    pub created_at: i64,
    pub updated_at: i64,
}

/// Platform-specific addressing of a contact.
#[derive(Debug)]
pub struct WhatsAppProductDetails {
    pub wa_id: String,
    pub phone_number: String,
}

/// A contact as linked to a messaging product.
#[derive(Debug)]
pub struct MessagingProductContact {
    pub contact_id: Option<String>,
    pub messaging_product_id: Option<String>,
    pub blocked: Option<bool>,
    pub last_read_at: Option<i64>,
    pub contact: Option<Contact>,
    pub product_details: Option<WhatsAppProductDetails>,
    pub id: String,
    pub created_at: i64,
    pub updated_at: i64,
}

/// A conversation, with the contact snapshots of both sides where the API
/// embedded them. `receiver_data` is carried as serialized JSON.
#[derive(Debug)]
pub struct Conversation {
    pub id: String,
    pub from_id: Option<String>,
    pub to_id: Option<String>,
    pub from_contact: Option<MessagingProductContact>,
    pub to_contact: Option<MessagingProductContact>,
    pub created_at: i64,
    pub updated_at: i64,
    pub messaging_product_id: String,
    pub receiver_data: Option<String>,
    pub deleted_at: Option<i64>,
}

/// The content of a received message.
#[derive(Debug)]
pub struct ProductData {
    pub text: Option<TextData>,
    pub timestamp: String,
    pub message_type: String,
    pub image: Option<UseMedia>,
    pub video: Option<UseMedia>,
    pub audio: Option<UseMedia>,
    pub document: Option<UseMedia>,
    pub sticker: Option<UseMedia>,
}

// ---------------------------------------------------------------------------
// Token endpoint types
// ---------------------------------------------------------------------------

/// The request body of the OAuth token endpoint; `grant_type` is either
/// `"password"` or `"refresh_token"`, with the matching fields set.
#[derive(Debug)]
pub struct TokenRequest {
    pub grant_type: String,
    pub username: Option<String>,
    pub password: Option<String>,
    pub refresh_token: Option<String>,
}

/// The successful response of the OAuth token endpoint; `expires_in` is in
/// seconds.
#[derive(Debug)]
pub struct TokenResponse {
    pub access_token: String,
    pub refresh_token: String,
    pub expires_in: i64,
    pub token_type: String,
}

// ---------------------------------------------------------------------------
// Query ordering
// ---------------------------------------------------------------------------

/// Sort order of a timestamp filter in a list query.
#[derive(Debug, Clone, Copy, PartialEq, Eq, Structural)]
pub enum Order {
    Asc,
    Desc,
}

// ---------------------------------------------------------------------------
// Cloning of payload values
//
// Dispatch planning copies the payload of a matched rule into the outbound
// message, so the payload types implement `Clone` by hand, each with the
// guarantee that the clone has the same model.
// ---------------------------------------------------------------------------

impl Clone for TextData {
    fn clone(&self) -> (r: Self)
        ensures
            r.deep_view() == self.deep_view(),
    {
        TextData { body: self.body.clone(), preview_url: self.preview_url }
    }
}

fn clone_opt_string(o: &Option<String>) -> (r: Option<String>)
    ensures
        r == *o,
{
    match o {
        Some(s) => Some(s.clone()),
        None => None,
    }
}

fn clone_opt_media(o: &Option<UseMedia>) -> (r: Option<UseMedia>)
    ensures
        r.deep_view() == o.deep_view(),
{
    match o {
        Some(m) => Some(m.clone()),
        None => None,
    }
}

impl Clone for UseMedia {
    fn clone(&self) -> (r: Self)
        ensures
            r.deep_view() == self.deep_view(),
    {
        UseMedia {
            id: clone_opt_string(&self.id),
            link: clone_opt_string(&self.link),
            caption: clone_opt_string(&self.caption),
            filename: clone_opt_string(&self.filename),
        }
    }
}

impl Clone for Language {
    fn clone(&self) -> (r: Self)
        ensures
            r.deep_view() == self.deep_view(),
    {
        Language { code: self.code.clone() }
    }
}

impl Clone for Parameter {
    fn clone(&self) -> (r: Self)
        ensures
            r.deep_view() == self.deep_view(),
    {
        Parameter {
            parameter_type: self.parameter_type.clone(),
            text: clone_opt_string(&self.text),
            image: clone_opt_media(&self.image),
            document: clone_opt_media(&self.document),
        }
    }
}

fn clone_parameters(v: &Vec<Parameter>) -> (r: Vec<Parameter>)
    ensures
        r.deep_view() == v.deep_view(),
{
    let mut r: Vec<Parameter> = Vec::new();
    let mut i: usize = 0;
    while i < v.len()
        invariant
            i <= v.len(),
            r@.len() == i,
            forall|j: int| 0 <= j < i ==> r@[j].deep_view() == v@[j].deep_view(),
        decreases v.len() - i,
    {
        let c = v[i].clone();
        proof {
            assert(c.deep_view() == v@[i as int].deep_view());
        }
        r.push(c);
        i = i + 1;
    }
    proof {
        assert(r.deep_view() =~= v.deep_view());
    }
    r
}

impl Clone for Component {
    fn clone(&self) -> (r: Self)
        ensures
            r.deep_view() == self.deep_view(),
    {
        Component {
            component_type: self.component_type.clone(),
            parameters: match &self.parameters {
                Some(v) => Some(clone_parameters(v)),
                None => None,
            },
        }
    }
}

fn clone_components(v: &Vec<Component>) -> (r: Vec<Component>)
    ensures
        r.deep_view() == v.deep_view(),
{
    let mut r: Vec<Component> = Vec::new();
    let mut i: usize = 0;
    while i < v.len()
        invariant
            i <= v.len(),
            r@.len() == i,
            forall|j: int| 0 <= j < i ==> r@[j].deep_view() == v@[j].deep_view(),
        decreases v.len() - i,
    {
        let c = v[i].clone();
        proof {
            assert(c.deep_view() == v@[i as int].deep_view());
        }
        r.push(c);
        i = i + 1;
    }
    proof {
        assert(r.deep_view() =~= v.deep_view());
    }
    r
}

impl Clone for UseTemplate {
    fn clone(&self) -> (r: Self)
        ensures
            r.deep_view() == self.deep_view(),
    {
        UseTemplate {
            name: self.name.clone(),
            language: self.language.clone(),
            components: match &self.components {
                Some(v) => Some(clone_components(v)),
                None => None,
            },
        }
    }
}

impl Clone for Interactive {
    fn clone(&self) -> (r: Self)
        ensures
            r.deep_view() == self.deep_view(),
    {
        Interactive { action: self.action.clone(), body: self.body.clone() }
    }
}

impl Clone for MessagePayloadBase {
    fn clone(&self) -> (r: Self)
        ensures
            r.deep_view() == self.deep_view(),
    {
        MessagePayloadBase {
            messaging_product: self.messaging_product.clone(),
            recipient_type: self.recipient_type.clone(),
            message_type: self.message_type.clone(),
            text: match &self.text {
                Some(t) => Some(t.clone()),
                None => None,
            },
            image: clone_opt_media(&self.image),
            document: clone_opt_media(&self.document),
            audio: clone_opt_media(&self.audio),
            video: clone_opt_media(&self.video),
            sticker: clone_opt_media(&self.sticker),
            template: match &self.template {
                Some(t) => Some(t.clone()),
                None => None,
            },
            interactive: match &self.interactive {
                Some(t) => Some(t.clone()),
                None => None,
            },
        }
    }
}

impl Order {
    /// The query-parameter value of this order.
    pub fn as_str(&self) -> (r: &'static str)
        ensures
            *self == Order::Asc ==> r@ == "asc"@,
            *self == Order::Desc ==> r@ == "desc"@,
    {
        match self {
            Order::Asc => "asc",
            Order::Desc => "desc",
        }
    }
}

} // verus!
