use rss_notifier::config::{Config, Credentials};
use rss_notifier::errors::{ConfigLoadError, IoError, IoErrorKind};
use rss_notifier::mail::{
    address_email, build_message, client_settings, prepare_email, send_email, ConnectionReuse,
    Delivery, DeliveryAction, Mechanism, Security, SendEmailError, TlsProtocol,
};

fn config(recipient: &str, username: &str) -> Config {
    Config {
        credentials: Credentials {
            username: username.to_string(),
            password: "pass".to_string(),
            domain: "mail.example.com".to_string(),
        },
        recipients: vec![recipient.to_string(), "other@example.com".to_string()],
        webserver_address: "127.0.0.1:8080".to_string(),
    }
}

fn good() -> Config {
    config("me@example.com", "user@example.com")
}

#[test]
fn email_goes_to_the_first_recipient() {
    let outgoing = address_email(good(), "S".to_string(), "<b>B</b>".to_string());
    assert_eq!(outgoing.to, "me@example.com");
    assert_eq!(outgoing.from, "user@example.com");
    assert_eq!(outgoing.subject, "S");
    assert_eq!(outgoing.html, "<b>B</b>");
    assert_eq!(outgoing.host, "mail.example.com");
    assert_eq!(outgoing.port, 465);
    assert_eq!(outgoing.credentials.password, "pass");
}

#[test]
fn message_carries_the_email() {
    let outgoing = address_email(good(), "Hello".to_string(), "<b>Body</b>".to_string());
    let message = build_message(&outgoing).unwrap();
    assert_eq!(message.recipients, ["me@example.com"]);
    assert_eq!(message.sender.as_deref(), Some("user@example.com"));
    let text = String::from_utf8(message.bytes).unwrap();
    assert!(text.contains("Subject: Hello\r\n"));
    assert!(text.contains("To: <me@example.com>\r\n"));
    assert!(text.contains("From: <user@example.com>\r\n"));
    assert!(text.contains("text/html"));
    assert!(text.contains("<b>Body</b>"));
    assert!(text.contains(&message.id));
}

#[test]
fn two_messages_are_not_alike() {
    let outgoing = address_email(good(), "S".to_string(), "B".to_string());
    let first = build_message(&outgoing).unwrap();
    let second = build_message(&outgoing).unwrap();
    assert_ne!(first.id, second.id);
}

#[test]
fn bad_addresses_are_refused() {
    for (to, from) in [("me", "user@example.com"), ("me@example.com", "user"), ("", "")] {
        let outgoing = address_email(config(to, from), "S".to_string(), "B".to_string());
        assert!(matches!(build_message(&outgoing), Err(SendEmailError::Lettre(_))));
    }
    let outgoing = address_email(config("a@localhost", "b@localhost"), String::new(), String::new());
    assert!(build_message(&outgoing).is_ok());
}

#[test]
fn email_is_prepared_with_the_loaded_configuration() {
    let (outgoing, message) =
        prepare_email(Ok(good()), "S".to_string(), "B".to_string()).unwrap();
    assert_eq!(outgoing.to, "me@example.com");
    assert_eq!(message.recipients, ["me@example.com"]);
}

#[test]
fn missing_configuration_is_reported() {
    let error = ConfigLoadError::Io(IoError {
        kind: IoErrorKind::NotFound,
        message: "m".to_string(),
    });
    let outcome = prepare_email(Err(error), "S".to_string(), "B".to_string());
    assert!(matches!(outcome, Err(SendEmailError::Config(ConfigLoadError::Io(_)))));
    let outcome = prepare_email(Ok(config("me", "you")), "S".to_string(), "B".to_string());
    assert!(matches!(outcome, Err(SendEmailError::Lettre(_))));
}

#[test]
fn send_errors_are_wrapped() {
    let io = IoError { kind: IoErrorKind::Other, message: "m".to_string() };
    assert!(matches!(SendEmailError::from(io), SendEmailError::Io(_)));
    let config = ConfigLoadError::Toml("m".to_string());
    assert!(matches!(SendEmailError::from(config), SendEmailError::Config(_)));
}

fn start() -> (Delivery, DeliveryAction) {
    send_email(Ok(good()), "Hello".to_string(), "B".to_string())
}

fn failed() -> Result<(), String> {
    Err("no".to_string())
}

#[test]
fn email_is_sent_step_by_step() {
    let (delivery, action) = start();
    assert!(matches!(action, DeliveryAction::Secure(TlsProtocol::Tlsv10)));
    let (delivery, action) = delivery.step(Ok(()));
    assert!(matches!(
        action,
        DeliveryAction::Open(settings)
            if settings.host == "mail.example.com" && settings.security == Security::Wrapper
    ));
    let (delivery, action) = delivery.step(Ok(()));
    assert!(matches!(
        action,
        DeliveryAction::Submit(message)
            if String::from_utf8(message.bytes.clone()).unwrap().contains("Subject: Hello\r\n")
    ));
    assert!(!delivery.has_ended());
    let (delivery, action) = delivery.step(Ok(()));
    assert!(matches!(action, DeliveryAction::Close));
    assert!(!delivery.has_ended());
    let (delivery, action) = delivery.step(Ok(()));
    assert!(matches!(action, DeliveryAction::Return(Ok(()))));
    assert!(delivery.has_ended());
}

#[test]
fn first_step_that_fails_ends_the_sending() {
    let (delivery, action) = start().0.step(failed());
    assert!(matches!(action, DeliveryAction::Return(Err(SendEmailError::Tls(m))) if m == "no"));
    assert!(delivery.has_ended());
    let (delivery, action) = start().0.step(Ok(())).0.step(failed());
    assert!(matches!(action, DeliveryAction::Return(Err(SendEmailError::Smtp(m))) if m == "no"));
    assert!(delivery.has_ended());
    let (delivery, action) = start().0.step(Ok(())).0.step(Ok(())).0.step(failed());
    assert!(matches!(action, DeliveryAction::Return(Err(SendEmailError::Smtp(m))) if m == "no"));
    assert!(delivery.has_ended());
}

#[test]
fn email_that_cannot_be_prepared_is_not_sent() {
    let error = ConfigLoadError::Toml("m".to_string());
    let (delivery, action) = send_email(Err(error), "S".to_string(), "B".to_string());
    assert!(delivery.has_ended());
    assert!(matches!(action, DeliveryAction::Return(Err(SendEmailError::Config(_)))));
    let bad = config("me", "user@example.com");
    let (delivery, action) = send_email(Ok(bad), "S".to_string(), "B".to_string());
    assert!(delivery.has_ended());
    assert!(matches!(action, DeliveryAction::Return(Err(SendEmailError::Lettre(_)))));
}

#[test]
fn client_talks_encrypted_from_the_first_byte() {
    let settings = client_settings(address_email(good(), "S".to_string(), "B".to_string()));
    assert_eq!(settings.host, "mail.example.com");
    assert_eq!(settings.port, 465);
    assert_eq!(settings.security, Security::Wrapper);
    assert_eq!(settings.tls_domain, "mail.example.com");
    assert_eq!(settings.mechanism, Mechanism::Login);
    assert_eq!(settings.login, ("user@example.com".to_string(), "pass".to_string()));
    assert_eq!(settings.reuse, ConnectionReuse::Unlimited);
}
