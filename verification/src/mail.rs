//! Outgoing mail: who it goes to, where it is handed in, and what it looks like on the wire.

use crate::config::{Config, Credentials};
use crate::errors::{ConfigLoadError, IoError};
use vstd::prelude::*;

verus! {

/// The port at which mail is handed in.
pub const SUBMISSION_PORT: u16 = 465;

/// An email that is to be sent, and the account to send it from.
#[derive(Debug)]
pub struct Outgoing {
    pub to: String,
    pub from: String,
    pub subject: String,
    pub html: String,
    pub host: String,
    pub port: u16,
    pub credentials: Credentials,
}

/// Addresses an email: it goes to the first recipient, from the account's user, and is handed
/// in at the account's domain.
pub fn address_email(config: Config, subject: String, body: String) -> (outgoing: Outgoing)
    requires
        config.recipients@.len() > 0,
    ensures
        outgoing.to == config.recipients@[0],
        outgoing.from == config.credentials.username,
        outgoing.subject == subject,
        outgoing.html == body,
        outgoing.host == config.credentials.domain,
        outgoing.port == SUBMISSION_PORT,
        outgoing.credentials == config.credentials,
{
    Outgoing {
        to: config.recipients[0].clone(),
        from: config.credentials.username.clone(),
        subject,
        html: body,
        host: config.credentials.domain.clone(),
        port: SUBMISSION_PORT,
        credentials: config.credentials,
    }
}

/// An email as it goes over the wire: the envelope, an identifier and the message itself.
#[derive(Debug)]
pub struct Message {
    pub recipients: Vec<String>,
    pub sender: Option<String>,
    pub id: String,
    pub bytes: Vec<u8>,
}

/// The error of an email that cannot be built.
#[verifier::external_type_specification]
#[verifier::external_body]
pub struct ExEmailError(lettre_email::error::Error);

/// Whether `lettre` takes `text` for an email address.
pub uninterp spec fn is_address(text: Seq<char>) -> bool;

/// Whether `bytes` is a message, with the identifier `id`, that `lettre_email::EmailBuilder`
/// builds of these addresses, this subject and this HTML body.
pub uninterp spec fn is_message(
    bytes: Seq<u8>,
    id: Seq<char>,
    to: Seq<char>,
    from: Seq<char>,
    subject: Seq<char>,
    html: Seq<char>,
) -> bool;

/// `lettre_email::EmailBuilder`, with its `to`, `from`, `subject`, `html` and `build`.
///
/// Trusted: building fails on nothing but an address that is none, and the envelope holds the
/// two addresses. The message holds the date and random marks, so that no two are alike:
/// nothing is said of its bytes but what they were built of.
#[verifier::external_body]
fn build_email(to: &str, from: &str, subject: &str, html: &str) -> (message: Result<
    Message,
    lettre_email::error::Error,
>)
    ensures
        message is Ok <==> (is_address(to@) && is_address(from@)),
        message is Ok ==> message->Ok_0.recipients@.len() == 1,
        message is Ok ==> message->Ok_0.recipients@[0]@ == to@,
        message is Ok ==> message->Ok_0.sender is Some && message->Ok_0.sender->0@ == from@,
        message is Ok ==> is_message(
            message->Ok_0.bytes@,
            message->Ok_0.id@,
            to@,
            from@,
            subject@,
            html@,
        ),
{
    let builder = lettre_email::EmailBuilder::new().to(to).from(from).subject(subject).html(html);
    let email: lettre::SendableEmail = builder.build()?.into();
    Ok(Message {
        recipients: email.envelope().to().iter().map(|address| address.to_string()).collect(),
        sender: email.envelope().from().map(|address| address.to_string()),
        id: email.message_id().to_owned(),
        bytes: email.message_to_string().unwrap().into_bytes(),
    })
}

/// Why an email was not sent.
#[derive(Debug)]
pub enum SendEmailError {
    Io(IoError),
    Config(ConfigLoadError),
    /// The mail server refused the email, or could not be reached.
    Smtp(String),
    /// The email could not be built.
    Lettre(lettre_email::error::Error),
    /// No secure connection could be set up.
    Tls(String),
}

impl From<IoError> for SendEmailError {
    fn from(error: IoError) -> (wrapped: SendEmailError) {
        SendEmailError::Io(error)
    }
}

impl vstd::std_specs::convert::FromSpecImpl<IoError> for SendEmailError {
    open spec fn obeys_from_spec() -> bool {
        true
    }

    open spec fn from_spec(error: IoError) -> SendEmailError {
        SendEmailError::Io(error)
    }
}

impl From<ConfigLoadError> for SendEmailError {
    fn from(error: ConfigLoadError) -> (wrapped: SendEmailError) {
        SendEmailError::Config(error)
    }
}

impl vstd::std_specs::convert::FromSpecImpl<ConfigLoadError> for SendEmailError {
    open spec fn obeys_from_spec() -> bool {
        true
    }

    open spec fn from_spec(error: ConfigLoadError) -> SendEmailError {
        SendEmailError::Config(error)
    }
}

impl From<lettre_email::error::Error> for SendEmailError {
    fn from(error: lettre_email::error::Error) -> (wrapped: SendEmailError) {
        SendEmailError::Lettre(error)
    }
}

impl vstd::std_specs::convert::FromSpecImpl<lettre_email::error::Error> for SendEmailError {
    open spec fn obeys_from_spec() -> bool {
        true
    }

    open spec fn from_spec(error: lettre_email::error::Error) -> SendEmailError {
        SendEmailError::Lettre(error)
    }
}

/// Whether `message` is an email that was built of `outgoing`.
pub open spec fn carries(message: Message, outgoing: Outgoing) -> bool {
    &&& message.recipients@.len() == 1
    &&& message.recipients@[0]@ == outgoing.to@
    &&& message.sender is Some
    &&& message.sender->0@ == outgoing.from@
    &&& is_message(
        message.bytes@,
        message.id@,
        outgoing.to@,
        outgoing.from@,
        outgoing.subject@,
        outgoing.html@,
    )
}

/// Builds the message that is to be sent.
pub fn build_message(outgoing: &Outgoing) -> (message: Result<Message, SendEmailError>)
    ensures
        message is Ok <==> is_address(outgoing.to@) && is_address(outgoing.from@),
        message is Ok ==> carries(message->Ok_0, *outgoing),
        message is Err ==> message->Err_0 is Lettre,
{
    match build_email(
        outgoing.to.as_str(),
        outgoing.from.as_str(),
        outgoing.subject.as_str(),
        outgoing.html.as_str(),
    ) {
        Ok(message) => Ok(message),
        Err(error) => Err(SendEmailError::from(error)),
    }
}

/// Prepares an email for sending, with the configuration as it was loaded: what is to be sent,
/// and the message on the wire.
pub fn prepare_email(
    loaded: Result<Config, ConfigLoadError>,
    subject: String,
    body: String,
) -> (prepared: Result<(Outgoing, Message), SendEmailError>)
    requires
        loaded is Ok ==> loaded->Ok_0.recipients@.len() > 0,
    ensures
        loaded is Err ==> prepared == Err::<(Outgoing, Message), SendEmailError>(
            SendEmailError::Config(loaded->Err_0),
        ),
        loaded is Ok ==> (prepared is Ok <==> is_address(loaded->Ok_0.recipients@[0]@)
            && is_address(loaded->Ok_0.credentials.username@)),
        loaded is Ok && prepared is Err ==> prepared->Err_0 is Lettre,
        prepared is Ok ==> {
            &&& prepared->Ok_0.0.to == loaded->Ok_0.recipients@[0]
            &&& prepared->Ok_0.0.from == loaded->Ok_0.credentials.username
            &&& prepared->Ok_0.0.subject == subject
            &&& prepared->Ok_0.0.html == body
            &&& prepared->Ok_0.0.host == loaded->Ok_0.credentials.domain
            &&& prepared->Ok_0.0.port == SUBMISSION_PORT
            &&& prepared->Ok_0.0.credentials == loaded->Ok_0.credentials
            &&& carries(prepared->Ok_0.1, prepared->Ok_0.0)
        },
{
    match loaded {
        Err(error) => Err(SendEmailError::from(error)),
        Ok(config) => {
            let outgoing = address_email(config, subject, body);
            match build_message(&outgoing) {
                Ok(message) => Ok((outgoing, message)),
                Err(error) => Err(error),
            }
        },
    }
}

/// A protocol for secure connections.
#[derive(Debug, Clone, Copy, PartialEq, Eq, Structural)]
pub enum TlsProtocol {
    Sslv3,
    Tlsv10,
    Tlsv11,
    Tlsv12,
}

/// How a connection to the mail server is secured.
#[derive(Debug, Clone, Copy, PartialEq, Eq, Structural)]
pub enum Security {
    /// Not at all.
    Unencrypted,
    /// It begins in the clear, and is encrypted if the server offers that.
    Opportunistic,
    /// It begins in the clear, and goes on only once it is encrypted.
    Required,
    /// It is encrypted from the first byte.
    Wrapper,
}

/// How a client logs in at the mail server.
#[derive(Debug, Clone, Copy, PartialEq, Eq, Structural)]
pub enum Mechanism {
    Plain,
    Login,
    Xoauth2,
}

/// How often a connection is used again.
#[derive(Debug, Clone, Copy, PartialEq, Eq, Structural)]
pub enum ConnectionReuse {
    Unlimited,
    Limited(u16),
    Never,
}

/// The oldest protocol that connections to the mail server may use.
pub const MINIMUM_PROTOCOL: TlsProtocol = TlsProtocol::Tlsv10;

/// How the client for the mail server is set up.
#[derive(Debug)]
pub struct ClientSettings {
    pub host: String,
    pub port: u16,
    pub security: Security,
    /// The domain that the server's certificate must be for.
    pub tls_domain: String,
    pub mechanism: Mechanism,
    /// The user name and the password.
    pub login: (String, String),
    pub reuse: ConnectionReuse,
}

/// How the client is set up that sends `outgoing`: it talks to the account's domain, encrypted
/// from the first byte, and logs in there as the account's user.
pub open spec fn settings_for(outgoing: Outgoing) -> ClientSettings {
    ClientSettings {
        host: outgoing.host,
        port: outgoing.port,
        security: Security::Wrapper,
        tls_domain: outgoing.host,
        mechanism: Mechanism::Login,
        login: (outgoing.credentials.username, outgoing.credentials.password),
        reuse: ConnectionReuse::Unlimited,
    }
}

/// Chooses how the client is set up that sends `outgoing`.
pub fn client_settings(outgoing: Outgoing) -> (settings: ClientSettings)
    ensures
        settings == settings_for(outgoing),
{
    ClientSettings {
        host: outgoing.host.clone(),
        port: outgoing.port,
        security: Security::Wrapper,
        tls_domain: outgoing.host,
        mechanism: Mechanism::Login,
        login: outgoing.credentials.into(),
        reuse: ConnectionReuse::Unlimited,
    }
}

/// What is awaited while an email is sent.
#[derive(Debug)]
pub enum Delivery {
    /// That connections can be made secure.
    Securing(Outgoing, Message),
    /// That the client for the mail server is set up.
    Opening(Message),
    /// That the mail server takes the message.
    Submitting,
    /// That the connection is closed.
    Closing,
    /// Nothing any more.
    Ended,
}

/// What is to be done next to send an email.
#[derive(Debug)]
pub enum DeliveryAction {
    /// Prepare for secure connections that use this protocol or a newer one.
    Secure(TlsProtocol),
    /// Set up the client for the mail server, on top of what was prepared.
    Open(ClientSettings),
    /// Hand the message to the mail server.
    Submit(Message),
    /// Close the connection, which cannot fail.
    Close,
    /// Sending has ended so.
    Return(Result<(), SendEmailError>),
}

/// Sending ends with this error.
pub open spec fn gives_up(
    error: SendEmailError,
    next: Delivery,
    action: DeliveryAction,
) -> bool {
    next == Delivery::Ended && action == DeliveryAction::Return(Err(error))
}

/// What follows on what, while an email is sent: each step is taken if the one before it has
/// succeeded, and the first that fails ends the sending.
pub open spec fn delivery_follows(
    delivery: Delivery,
    outcome: Result<(), String>,
    next: Delivery,
    action: DeliveryAction,
) -> bool {
    match (delivery, outcome) {
        (Delivery::Securing(outgoing, message), Ok(())) => {
            &&& next == Delivery::Opening(message)
            &&& action == DeliveryAction::Open(settings_for(outgoing))
        },
        (Delivery::Securing(_, _), Err(error)) => gives_up(
            SendEmailError::Tls(error),
            next,
            action,
        ),
        (Delivery::Opening(message), Ok(())) => {
            &&& next == Delivery::Submitting
            &&& action == DeliveryAction::Submit(message)
        },
        (Delivery::Opening(_), Err(error)) => gives_up(SendEmailError::Smtp(error), next, action),
        (Delivery::Submitting, Ok(())) => {
            &&& next == Delivery::Closing
            &&& action == DeliveryAction::Close
        },
        (Delivery::Submitting, Err(error)) => gives_up(SendEmailError::Smtp(error), next, action),
        (Delivery::Closing, _) => {
            &&& next == Delivery::Ended
            &&& action == DeliveryAction::Return(Ok(()))
        },
        (Delivery::Ended, _) => false,
    }
}

/// Starts to send an email, with the configuration as it was loaded.
pub fn send_email(
    loaded: Result<Config, ConfigLoadError>,
    subject: String,
    body: String,
) -> (started: (Delivery, DeliveryAction))
    requires
        loaded is Ok ==> loaded->Ok_0.recipients@.len() > 0,
    ensures
        loaded is Err ==> gives_up(
            SendEmailError::Config(loaded->Err_0),
            started.0,
            started.1,
        ),
        loaded is Ok ==> if is_address(loaded->Ok_0.recipients@[0]@) && is_address(
            loaded->Ok_0.credentials.username@,
        ) {
            &&& started.0 is Securing
            &&& started.1 == DeliveryAction::Secure(MINIMUM_PROTOCOL)
            &&& started.0->Securing_0.to == loaded->Ok_0.recipients@[0]
            &&& started.0->Securing_0.from == loaded->Ok_0.credentials.username
            &&& started.0->Securing_0.subject == subject
            &&& started.0->Securing_0.html == body
            &&& started.0->Securing_0.host == loaded->Ok_0.credentials.domain
            &&& started.0->Securing_0.port == SUBMISSION_PORT
            &&& started.0->Securing_0.credentials == loaded->Ok_0.credentials
            &&& carries(started.0->Securing_1, started.0->Securing_0)
        } else {
            &&& started.0 is Ended
            &&& started.1 is Return
            &&& started.1->Return_0 is Err
            &&& started.1->Return_0->Err_0 is Lettre
        },
{
    match prepare_email(loaded, subject, body) {
        Ok((outgoing, message)) => (
            Delivery::Securing(outgoing, message),
            DeliveryAction::Secure(MINIMUM_PROTOCOL),
        ),
        Err(error) => (Delivery::Ended, DeliveryAction::Return(Err(error))),
    }
}

impl Delivery {
    /// Whether sending has ended.
    pub fn has_ended(&self) -> (answer: bool)
        ensures
            answer == (self is Ended),
    {
        match self {
            Delivery::Ended => true,
            _ => false,
        }
    }

    /// Tells how the last step of sending has ended: sending goes on, and says what is to be done
    /// next.
    pub fn step(self, outcome: Result<(), String>) -> (next: (Delivery, DeliveryAction))
        requires
            self !is Ended,
        ensures
            delivery_follows(self, outcome, next.0, next.1),
    {
        match (self, outcome) {
            (Delivery::Securing(outgoing, message), Ok(())) => (
                Delivery::Opening(message),
                DeliveryAction::Open(client_settings(outgoing)),
            ),
            (Delivery::Securing(_, _), Err(error)) => (
                Delivery::Ended,
                DeliveryAction::Return(Err(SendEmailError::Tls(error))),
            ),
            (Delivery::Opening(message), Ok(())) => (
                Delivery::Submitting,
                DeliveryAction::Submit(message),
            ),
            (Delivery::Submitting, Ok(())) => (Delivery::Closing, DeliveryAction::Close),
            (Delivery::Opening(_), Err(error)) | (Delivery::Submitting, Err(error)) => (
                Delivery::Ended,
                DeliveryAction::Return(Err(SendEmailError::Smtp(error))),
            ),
            (Delivery::Closing, _) | (Delivery::Ended, _) => (
                Delivery::Ended,
                DeliveryAction::Return(Ok(())),
            ),
        }
    }
}

} // verus!
