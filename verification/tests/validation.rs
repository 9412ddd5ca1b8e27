use linkup::config::Webhook;
use linkup::config::token_is_valid;
use linkup::errors::SupervisorError;
use linkup::text::clean_url;
use linkup::text::contains_substr;
use linkup::text::decimal_string;
use linkup::text::str_eq;
use linkup::webhook::COLOR_ERROR;
use linkup::webhook::COLOR_RESTARTING;
use linkup::webhook::COLOR_STARTED;
use linkup::webhook::COLOR_STOPPED;
use linkup::tunnel::NgrokTunnel;
use linkup::tunnel::NgrokTunnelConfig;
use linkup::webhook::WebhookKind;
use linkup::webhook::discord_style;
use linkup::webhook::enabled_webhooks;
use linkup::webhook::generic_ready_message;
use linkup::webhook::webhook_kind;

fn hook(name: &str, kind: &str, enabled: bool) -> Webhook {
    Webhook {
        name: String::from(name),
        kind: String::from(kind),
        url: String::from("https://example.test/hook"),
        enabled,
    }
}

#[test]
fn token_validation() {
    assert!(!token_is_valid(&String::from("")));
    assert!(!token_is_valid(&String::from("your_token_here")));
    assert!(!token_is_valid(&String::from("abc_your_def")));
    assert!(token_is_valid(&String::from("2abcDEF_ghij")));
    assert!(token_is_valid(&String::from("yourtoken")));
}

#[test]
fn substring_search() {
    assert!(contains_substr("your_token_here", "your_"));
    assert!(contains_substr("abc", ""));
    assert!(!contains_substr("ab", "abc"));
    assert!(!contains_substr("token", "your_"));
    assert!(contains_substr("xxyour_", "your_"));
}

#[test]
fn string_equality() {
    assert!(str_eq("discord", "discord"));
    assert!(!str_eq("discord", "generic"));
    assert!(!str_eq("a", "ab"));
    assert!(str_eq("", ""));
}

#[test]
fn decimal_rendering() {
    assert_eq!(decimal_string(0), String::from("0"));
    assert_eq!(decimal_string(7), String::from("7"));
    assert_eq!(decimal_string(10), String::from("10"));
    assert_eq!(decimal_string(8080), String::from("8080"));
    assert_eq!(decimal_string(65535), String::from("65535"));
}

#[test]
fn url_cleaning() {
    assert_eq!(clean_url("https://abc.ngrok.app"), String::from("abc.ngrok.app"));
    assert_eq!(clean_url("tcp://0.tcp.ngrok.io:12345"), String::from("0.tcp.ngrok.io:12345"));
    assert_eq!(clean_url("no-scheme.example"), String::from("no-scheme.example"));
    assert_eq!(clean_url(""), String::from(""));
    // only the first separator is stripped
    assert_eq!(clean_url("a://b://c"), String::from("b://c"));
}

#[test]
fn error_messages() {
    assert_eq!(SupervisorError::NotFound.message(), "instance not found");
    assert_eq!(
        SupervisorError::ValidationError.message(),
        "invalid instance configuration"
    );
}

#[test]
fn only_enabled_webhooks_are_kept() {
    let hooks = vec![
        hook("a", "discord", true),
        hook("b", "generic", false),
        hook("c", "generic", true),
    ];
    let kept = enabled_webhooks(&hooks);
    assert_eq!(kept.len(), 2);
    assert_eq!(kept[0].name, String::from("a"));
    assert_eq!(kept[1].name, String::from("c"));
}

#[test]
fn webhook_kinds() {
    assert_eq!(webhook_kind(&hook("a", "discord", true)), WebhookKind::Discord);
    assert_eq!(webhook_kind(&hook("b", "generic", true)), WebhookKind::Generic);
    assert_eq!(webhook_kind(&hook("c", "slack", true)), WebhookKind::Unknown);
}

#[test]
fn ready_message_exact() {
    let tunnels = vec![
        NgrokTunnel {
            public_url: String::from("https://a.ngrok.app"),
            proto: String::from("https"),
            config: NgrokTunnelConfig { addr: String::from("localhost:80") },
        },
        NgrokTunnel {
            public_url: String::from("tcp://b.ngrok.io:1234"),
            proto: String::from("tcp"),
            config: NgrokTunnelConfig { addr: String::from("localhost:22") },
        },
    ];
    let message = generic_ready_message(&String::from("api"), &tunnels);
    assert_eq!(
        message,
        String::from(
            "Ngrok tunnels for 'api' are ready:\n\
             - https://a.ngrok.app -> localhost:80\n\
             - tcp://b.ngrok.io:1234 -> localhost:22\n"
        )
    );
}

#[test]
fn discord_styles() {
    let (t, c) = discord_style(&String::from("LinkUp Error: Instance 'x' - boom"));
    assert_eq!(t, "Error");
    assert_eq!(c, COLOR_ERROR);
    let (t, c) = discord_style(&String::from("LinkUp: Restarting instance 'x'"));
    assert_eq!(t, "Restarting");
    assert_eq!(c, COLOR_RESTARTING);
    let (t, c) = discord_style(&String::from("instance stopped"));
    assert_eq!(t, "Stopped");
    assert_eq!(c, COLOR_STOPPED);
    let (t, c) = discord_style(&String::from("tunnels are ready"));
    assert_eq!(t, "Started");
    assert_eq!(c, COLOR_STARTED);
}
