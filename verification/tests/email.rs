use notes_crud::config::Config;
use notes_crud::email::{Email, Outgoing, User};

fn config() -> Config {
    Config {
        smtp_host: "smtp.example.com".to_string(),
        smtp_port: 587,
        smtp_user: "mailer".to_string(),
        smtp_pass: "hunter2".to_string(),
        smtp_from: "noreply@example.com".to_string(),
        smtp_to: "ops@example.com".to_string(),
    }
}

fn email() -> Email {
    let user = User { name: "John Doe".to_string(), email: "john@example.com".to_string() };
    Email::new(user, "https://example.com/verify/123".to_string(), config())
}

#[test]
fn sender_is_the_configured_address_under_the_display_name() {
    let message = email().send_email("welcome", "Hello");
    assert_eq!(message.from, "RAprogramm <noreply@example.com>");
    assert_eq!(email().config(), &config());
}

#[test]
fn message_names_template_subject_and_recipient() {
    assert_eq!(
        email().send_email("welcome", "Hello"),
        Outgoing {
            template: "welcome".to_string(),
            template_path: "./templates/welcome.hbs".to_string(),
            subject: "Hello".to_string(),
            to: "John Doe <john@example.com>".to_string(),
            from: "RAprogramm <noreply@example.com>".to_string(),
            url: "https://example.com/verify/123".to_string(),
            first_name: "John".to_string(),
        }
    );
}

fn greeted(name: &str) -> String {
    let user = User { name: name.to_string(), email: "someone@example.com".to_string() };
    Email::new(user, String::new(), config()).first_name()
}

#[test]
fn first_name_is_the_first_word_of_the_name() {
    assert_eq!(greeted("John Doe"), "John");
    assert_eq!(greeted("Ann"), "Ann");
    assert_eq!(greeted("  \tAnn\u{a0}Lee Smith "), "Ann");
    assert_eq!(greeted("\u{3000}\u{e9}milie\nB."), "\u{e9}milie");
    assert_eq!(greeted(""), "");
    assert_eq!(greeted(" \t "), "");
}

#[test]
fn verification_code_message() {
    let message = email().send_verification_code();
    assert_eq!(message.template, "verification_code");
    assert_eq!(message.template_path, "./templates/verification_code.hbs");
    assert_eq!(message.subject, "Your account verification code");
    assert_eq!(message.to, "John Doe <john@example.com>");
}

#[test]
fn password_reset_message() {
    let message = email().send_password_reset_token();
    assert_eq!(message.template, "reset_password");
    assert_eq!(message.template_path, "./templates/reset_password.hbs");
    assert_eq!(message.subject, "Your password reset token (valid for only 10 minutes)");
    assert_eq!(message.url, "https://example.com/verify/123");
}
