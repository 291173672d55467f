use qqbot_sdk::config::{AppConfig, CredentialConfig};
use qqbot_sdk::context::Context;
use qqbot_sdk::dispatch::{command_word, first_duplicate};
use qqbot_sdk::error::{redacted_body, status_for};
use qqbot_sdk::replying::{
    ReplyingArk, ReplyingArkKv, ReplyingKeyboard, ReplyingMarkdown, ReplyingMedia, ReplyingMessage,
};
use qqbot_sdk::webhook::{
    is_validation_request, path_kind, serves, signature_step, DataSource, EventSchema, PathKind,
    SignatureStep, SignatureVerificationMode, missing_verifier_error, webhook_action, HookOutcome,
    WebhookAction,
};
use qqbot_sdk::Error;

#[test]
fn config_builder_sets_fields() {
    let c = AppConfig::new();
    assert_eq!(c.listening.bind_addr, "0.0.0.0:3000");
    assert_eq!(c.listening.webhook_path, "/webhook");
    assert!(!c.ignore_checking);
    assert_eq!(c.prod_base_url(), "https://api.sgroup.qq.com");
    let c = c
        .bind_addr("127.0.0.1:8080")
        .webhook_path("/hook")
        .credential(CredentialConfig { app_id: "id".to_string(), secret: "s".to_string() })
        .prod_url_override("https://sandbox.api.sgroup.qq.com");
    assert_eq!(c.listening.bind_addr, "127.0.0.1:8080");
    assert_eq!(c.listening.webhook_path, "/hook");
    assert_eq!(c.credential.app_id, "id");
    assert_eq!(c.prod_base_url(), "https://sandbox.api.sgroup.qq.com");
}

#[test]
fn context_shares_one_value() {
    let ctx = Context::new(41u32);
    let other = ctx.clone();
    assert_eq!(*other, 41);
    let arc = ctx.as_arc();
    assert!(std::sync::Arc::ptr_eq(&arc, &other.into_inner()));
    assert_eq!(*Context::from_arc(arc).get(), 41);
}

#[test]
fn message_types_and_requests() {
    let text = ReplyingMessage::Text("hi".to_string());
    assert_eq!(text.to_msg_type(), 0);
    let r = text.to_request(Some("m".to_string()), None);
    assert_eq!(r.msg_type, 0);
    assert_eq!(r.content.as_deref(), Some("hi"));
    assert_eq!(r.msg_id.as_deref(), Some("m"));
    assert!(r.markdown.is_none() && r.ark.is_none() && r.embed.is_none() && r.media.is_none());

    let md = ReplyingMessage::Markdown(ReplyingMarkdown {
        content: Some("# t".to_string()),
        custom_template_id: None,
        params: None,
        keyboard: Some(ReplyingKeyboard { id: Some("kb1".to_string()), content: None }),
    });
    assert_eq!(md.to_msg_type(), 2);
    let r = md.to_request(None, Some(3));
    assert_eq!(r.keyboard.as_ref().unwrap().id.as_deref(), Some("kb1"));
    assert_eq!(r.markdown.unwrap().content.as_deref(), Some("# t"));
    assert_eq!(r.msg_seq, Some(3));
    assert!(r.content.is_none());
    assert!(text.to_request(None, None).keyboard.is_none());

    let ark = ReplyingMessage::Ark(ReplyingArk {
        template_id: 23,
        kv: vec![ReplyingArkKv { key: "k".to_string(), value: "v".to_string() }],
    });
    assert_eq!(ark.to_msg_type(), 3);
    let r = ark.to_request(None, None);
    let a = r.ark.unwrap();
    assert_eq!(a.template_id, 23);
    assert_eq!(a.kv[0].value, "v");

    let media = ReplyingMessage::Media(ReplyingMedia {
        file_type: 1,
        url: "u".to_string(),
        srv_send_msg: false,
        file_data: None,
    });
    assert_eq!(media.to_msg_type(), 7);
    assert_eq!(media.to_request(None, None).media.unwrap().url, "u");
}

#[test]
fn error_status_and_bodies() {
    assert_eq!(status_for(&Error::InvalidSignature), 401);
    assert_eq!(status_for(&Error::MissingHeader("x".to_string())), 401);
    assert_eq!(status_for(&Error::InvalidTimestamp("x".to_string())), 401);
    assert_eq!(status_for(&Error::Json("x".to_string())), 400);
    assert_eq!(status_for(&Error::InvalidHeader("x".to_string())), 400);
    assert_eq!(status_for(&Error::EventNameNotFound), 400);
    assert_eq!(status_for(&Error::Http("x".to_string())), 500);
    assert_eq!(status_for(&Error::Token("x".to_string())), 500);
    assert_eq!(status_for(&Error::Other("x".to_string())), 500);
    assert_eq!(redacted_body(401), "unauthorized");
    assert_eq!(redacted_body(400), "bad request");
    assert_eq!(redacted_body(500), "internal server error");
}

#[test]
fn signature_modes() {
    assert_eq!(signature_step(SignatureVerificationMode::Off, true, false), SignatureStep::Skip);
    assert_eq!(signature_step(SignatureVerificationMode::Monitor, true, false), SignatureStep::CheckAndLog);
    assert_eq!(signature_step(SignatureVerificationMode::Monitor, false, false), SignatureStep::WarnNoVerifier);
    assert_eq!(signature_step(SignatureVerificationMode::Monitor, false, true), SignatureStep::SkipQuietly);
    assert_eq!(signature_step(SignatureVerificationMode::Enforce, true, false), SignatureStep::CheckAndRefuse);
    assert_eq!(signature_step(SignatureVerificationMode::Enforce, false, false), SignatureStep::RefuseNoVerifier);
    assert!(serves(SignatureStep::CheckAndLog, false));
    assert!(!serves(SignatureStep::CheckAndRefuse, false));
    assert!(serves(SignatureStep::CheckAndRefuse, true));
    assert!(!serves(SignatureStep::RefuseNoVerifier, true));
    assert!(is_validation_request(Some(13)));
    assert!(!is_validation_request(Some(0)));
    assert!(!is_validation_request(None));
}

#[test]
fn event_schema_defaults() {
    let s = EventSchema::default();
    assert_eq!(s.name_path, "t");
    assert_eq!(s.data_source(false), DataSource::Payload);
    let s = EventSchema { data_path: Some("d".to_string()), ..EventSchema::default() };
    assert_eq!(s.data_source(true), DataSource::Found);
    assert_eq!(s.data_source(false), DataSource::Null);
    let s = EventSchema { data_required: true, ..s };
    assert_eq!(s.data_source(false), DataSource::Missing);
    assert_eq!(path_kind("/d/id"), PathKind::Pointer);
    assert_eq!(path_kind("t"), PathKind::Field);
}

#[test]
fn command_routing_words() {
    assert_eq!(command_word(Some("  /echo a b")).as_deref(), Some("/echo"));
    assert_eq!(command_word(Some("   ")), None);
    assert_eq!(command_word(None), None);
    let names = vec!["/a".to_string(), "/b".to_string(), "/a".to_string(), "/b".to_string()];
    assert_eq!(first_duplicate(&names), Some(2));
    assert_eq!(first_duplicate(&vec!["/a".to_string(), "/b".to_string()]), None);
}

#[test]
fn webhook_actions() {
    let (enforce, monitor, off) = (
        SignatureVerificationMode::Enforce,
        SignatureVerificationMode::Monitor,
        SignatureVerificationMode::Off,
    );
    let body = br#"{"op":13,"d":{}}"#;
    assert_eq!(webhook_action(b"not json", None, off, false, false), WebhookAction::MalformedBody);
    assert_eq!(
        webhook_action(b"{", Some(HookOutcome::Respond), off, false, false),
        WebhookAction::MalformedBody
    );
    assert_eq!(
        webhook_action(body, Some(HookOutcome::Respond), enforce, false, false),
        WebhookAction::HookResponse
    );
    assert_eq!(
        webhook_action(body, Some(HookOutcome::Fail), monitor, true, false),
        WebhookAction::HookFailure
    );
    assert_eq!(webhook_action(body, None, enforce, false, false), WebhookAction::RefuseNoVerifier);
    assert_eq!(
        webhook_action(body, Some(HookOutcome::Pass), enforce, true, false),
        WebhookAction::Serve(SignatureStep::CheckAndRefuse)
    );
    assert_eq!(
        webhook_action(body, None, monitor, false, false),
        WebhookAction::Serve(SignatureStep::WarnNoVerifier)
    );
    assert_eq!(webhook_action(b"[]", None, off, false, false), WebhookAction::Serve(SignatureStep::Skip));
    match missing_verifier_error() {
        Error::Other(m) => assert_eq!(m, "signature verifier is required in enforce mode"),
        other => panic!("unexpected error: {other:?}"),
    }
}
