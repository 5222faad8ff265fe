//! Domain types: plain decoded payloads and identifiers used across the API.

use vstd::prelude::*;

verus! {

/// A string whose contents must never end up in logs or debug output.
///
/// The type deliberately has no `Debug` or display support; code that
/// genuinely needs the contents must say so by calling [`Self::expose_secret`].
#[derive(Clone)]
pub struct SecretString(String);

impl View for SecretString {
    type V = Seq<char>;

    closed spec fn view(&self) -> Seq<char> {
        self.0@
    }
}

impl SecretString {
    pub fn new(value: String) -> (r: Self)
        ensures
            r@ == value@,
    {
        SecretString(value)
    }

    /// Deliberate access to the secret contents.
    pub fn expose_secret(&self) -> (r: &String)
        ensures
            r@ == self@,
    {
        &self.0
    }
}

/// Opaque per-session account identifier, echoed in the `X-Pm-Uid` header of
/// every authenticated request.
#[derive(Clone)]
pub struct UserUid(pub String);

impl View for UserUid {
    type V = Seq<char>;

    open spec fn view(&self) -> Seq<char> {
        self.0@
    }
}

/// Types of Two Factor Authentication.
#[derive(Debug, Eq, PartialEq, Copy, Clone, Structural)]
pub enum TwoFactorAuth {
    Disabled,
    TOTP,
    FIDO2,
}

impl TwoFactorAuth {
    /// Human-readable name of the method.
    pub fn as_str(&self) -> (r: &'static str)
        ensures
            self is Disabled ==> r@ == "None"@,
            self is TOTP ==> r@ == "TOTP"@,
            self is FIDO2 ==> r@ == "FIDO2"@,
    {
        match self {
            TwoFactorAuth::Disabled => "None",
            TwoFactorAuth::TOTP => "TOTP",
            TwoFactorAuth::FIDO2 => "FIDO2",
        }
    }
}

/// Id for an API Event.
#[derive(Debug, Eq, PartialEq, Hash, Clone)]
pub struct EventId(pub String);

impl View for EventId {
    type V = Seq<char>;

    open spec fn view(&self) -> Seq<char> {
        self.0@
    }
}

/// Whether more events follow the one just fetched.
#[derive(Debug, Eq, PartialEq, Copy, Clone, Structural)]
pub enum MoreEvents {
    No,
    Yes,
}

impl MoreEvents {
    /// Decodes the wire representation (`0` or `1`).
    pub fn from_code(code: u64) -> (r: Option<Self>)
        ensures
            code == 0 ==> r == Some(MoreEvents::No),
            code == 1 ==> r == Some(MoreEvents::Yes),
            code > 1 ==> r is None,
    {
        match code {
            0 => Some(MoreEvents::No),
            1 => Some(MoreEvents::Yes),
            _ => None,
        }
    }
}

/// An event feed entry.
#[derive(Debug)]
pub struct Event {
    pub event_id: EventId,
    pub more: MoreEvents,
    pub messages: Option<Vec<MessageEvent>>,
}

/// Kind of change a message event reports.
#[derive(Debug, Eq, PartialEq, Copy, Clone, Structural)]
pub enum MessageAction {
    Delete,
    Create,
    Update,
    UpdateFlags,
}

impl MessageAction {
    /// Decodes the wire representation (`0` through `3`).
    pub fn from_code(code: u64) -> (r: Option<Self>)
        ensures
            code == 0 ==> r == Some(MessageAction::Delete),
            code == 1 ==> r == Some(MessageAction::Create),
            code == 2 ==> r == Some(MessageAction::Update),
            code == 3 ==> r == Some(MessageAction::UpdateFlags),
            code > 3 ==> r is None,
    {
        match code {
            0 => Some(MessageAction::Delete),
            1 => Some(MessageAction::Create),
            2 => Some(MessageAction::Update),
            3 => Some(MessageAction::UpdateFlags),
            _ => None,
        }
    }
}

/// Message API ID.
#[derive(Debug, Eq, PartialEq, Hash, Clone)]
pub struct MessageId(pub String);

/// Labels API ID. Label IDs are used interchangeably between what we would
/// consider mail labels and mailboxes.
#[derive(Debug, Eq, PartialEq, Hash, Clone)]
pub struct LabelID(pub String);

impl View for LabelID {
    type V = Seq<char>;

    open spec fn view(&self) -> Seq<char> {
        self.0@
    }
}

/// System label identifiers that are constant for every account.
#[derive(Debug, Eq, PartialEq, Hash, Copy, Clone)]
pub struct SysLabelID(pub &'static str);

impl SysLabelID {
    /// The identifier as sent on the wire.
    pub fn as_str(&self) -> (r: &'static str)
        ensures
            r@ == self.0@,
    {
        self.0
    }
}

impl LabelID {
    pub fn inbox() -> (r: Self)
        ensures
            r@ == "0"@,
    {
        LabelID(String::from_str("0"))
    }

    pub fn all_drafts() -> (r: Self)
        ensures
            r@ == "1"@,
    {
        LabelID(String::from_str("1"))
    }

    pub fn all_sent() -> (r: Self)
        ensures
            r@ == "1"@,
    {
        LabelID(String::from_str("1"))
    }

    pub fn trash() -> (r: Self)
        ensures
            r@ == "3"@,
    {
        LabelID(String::from_str("3"))
    }

    pub fn spam() -> (r: Self)
        ensures
            r@ == "4"@,
    {
        LabelID(String::from_str("4"))
    }

    pub fn all_mail() -> (r: Self)
        ensures
            r@ == "5"@,
    {
        LabelID(String::from_str("5"))
    }

    pub fn archive() -> (r: Self)
        ensures
            r@ == "5"@,
    {
        LabelID(String::from_str("5"))
    }

    pub fn sent() -> (r: Self)
        ensures
            r@ == "7"@,
    {
        LabelID(String::from_str("7"))
    }

    pub fn drafts() -> (r: Self)
        ensures
            r@ == "8"@,
    {
        LabelID(String::from_str("8"))
    }

    pub fn outbox() -> (r: Self)
        ensures
            r@ == "9"@,
    {
        LabelID(String::from_str("9"))
    }

    pub fn starred() -> (r: Self)
        ensures
            r@ == "10"@,
    {
        LabelID(String::from_str("10"))
    }

    pub fn all_scheduled() -> (r: Self)
        ensures
            r@ == "12"@,
    {
        LabelID(String::from_str("12"))
    }
}

/// Event data related to a Message event.
#[derive(Debug)]
pub struct MessageEvent {
    pub id: MessageId,
    pub action: MessageAction,
    pub message: Option<Message>,
}

/// Represents an email message.
#[derive(Debug)]
pub struct Message {
    pub id: MessageId,
    pub labels: Vec<LabelID>,
    pub subject: String,
    pub sender_address: String,
    pub sender_name: Option<String>,
    pub unread: bool,
}

/// Id for a mail Label.
#[derive(Debug, Eq, PartialEq, Hash, Clone)]
pub struct LabelId(pub String);

/// Kind of a label record.
#[derive(Debug, Eq, PartialEq, Copy, Clone, Structural)]
pub enum LabelType {
    Label,
    ContactGroup,
    Folder,
    System,
}

impl LabelType {
    /// Decodes the wire representation (`0` through `3`).
    pub fn from_code(code: u64) -> (r: Option<Self>)
        ensures
            code == 0 ==> r == Some(LabelType::Label),
            code == 1 ==> r == Some(LabelType::ContactGroup),
            code == 2 ==> r == Some(LabelType::Folder),
            code == 3 ==> r == Some(LabelType::System),
            code > 3 ==> r is None,
    {
        match code {
            0 => Some(LabelType::Label),
            1 => Some(LabelType::ContactGroup),
            2 => Some(LabelType::Folder),
            3 => Some(LabelType::System),
            _ => None,
        }
    }
}

/// A mail label or mailbox record.
#[derive(Debug)]
pub struct Label {
    pub id: LabelId,
    pub parent_id: Option<LabelId>,
    pub name: String,
    pub path: String,
    pub color: String,
    pub label_type: LabelType,
    pub notify: bool,
    pub display: bool,
    pub sticky: bool,
    pub expanded: bool,
    pub order: i32,
}

/// Sort order assigned to a label record whose payload does not carry one.
pub fn default_label_order() -> (r: i32)
    ensures
        r == 0,
{
    0
}

/// Id for a user account.
#[derive(Debug, Eq, PartialEq, Hash, Clone)]
pub struct UserId(pub String);

impl UserId {
    pub fn as_ref(&self) -> (r: &String)
        ensures
            r == &self.0,
    {
        &self.0
    }
}

/// The logged-in user's account record.
#[derive(Debug)]
pub struct User {
    pub id: UserId,
    pub name: Option<String>,
    pub email: Option<String>,
}

/// Challenge descriptor returned when the service demands human verification.
#[derive(Debug, Clone)]
pub struct HumanVerification {
    /// Verification methods the server offers (e.g. `captcha`).
    pub methods: Vec<String>,
    /// Token identifying this verification challenge.
    pub token: String,
}

/// Kind of a human-verification token a caller supplies with a login.
#[derive(Debug, Eq, PartialEq, Copy, Clone, Structural)]
pub enum HumanVerificationType {
    Captcha,
    Sms,
    Email,
}

/// The wire name of a human-verification token type.
pub open spec fn hv_type_name(t: HumanVerificationType) -> Seq<char> {
    match t {
        HumanVerificationType::Captcha => "captcha"@,
        HumanVerificationType::Sms => "sms"@,
        HumanVerificationType::Email => "email"@,
    }
}

impl HumanVerificationType {
    /// The wire name of the token type.
    pub fn as_str(&self) -> (r: &'static str)
        ensures
            r@ == hv_type_name(*self),
    {
        match self {
            HumanVerificationType::Captcha => "captcha",
            HumanVerificationType::Sms => "sms",
            HumanVerificationType::Email => "email",
        }
    }
}

/// A caller-supplied human-verification token, attached as extra headers on
/// the proof-submission request only.
#[derive(Debug, Clone)]
pub struct HumanVerificationLoginData {
    pub hv_type: HumanVerificationType,
    pub token: String,
}

} // verus!
