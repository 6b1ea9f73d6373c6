use client_audit_logs::postgres::dto::{ClientAuditLogDto, ClientAuditLogTypeDto};
use client_audit_logs::postgres::serializable::{BrokerSerializable, TradingPlatformSerializable};
use client_audit_logs::postgres::utils::{
    _decrypt_field_optional, _encrypt_optional_field, decode_field_from_vec, decrypt_field,
    encrypt_field, needs_cipher, OpenOutcome,
};

fn record(new_context: &str, prev_context: &str) -> ClientAuditLogDto {
    ClientAuditLogDto {
        id: "id-1".to_string(),
        client_id: "client-7".to_string(),
        created_at: 1_700_000_000_000_000,
        user_id: "user-3".to_string(),
        new_context: new_context.to_string(),
        prev_context: prev_context.to_string(),
        log_type: ClientAuditLogTypeDto::Registered,
    }
}

/// A stand-in for the cipher in tests: "sealing" prefixes the text, "opening"
/// strips the prefix again.
fn seal(text: &str) -> String {
    format!("sealed:{}", text)
}

fn open(text: &str) -> OpenOutcome {
    match text.strip_prefix("sealed:") {
        Some(plain) => OpenOutcome::Opened(plain.to_string()),
        None => OpenOutcome::Base64Failed("Invalid symbol".to_string()),
    }
}

#[test]
fn trading_platform_codes() {
    assert_eq!(TradingPlatformSerializable::from_i32(0), TradingPlatformSerializable::MetaTrader4);
    assert_eq!(TradingPlatformSerializable::from_i32(1), TradingPlatformSerializable::MetaTrader5);
    assert_eq!(i32::from(TradingPlatformSerializable::MetaTrader4), 0);
    assert_eq!(i32::from(TradingPlatformSerializable::MetaTrader5), 1);
    assert_eq!(TradingPlatformSerializable::try_from_i32(2), None);
    assert_eq!(TradingPlatformSerializable::try_from_i32(-1), None);
    assert_eq!(TradingPlatformSerializable::try_from_i32(1), Some(TradingPlatformSerializable::MetaTrader5));
}

#[test]
fn broker_codes() {
    assert_eq!(BrokerSerializable::from_i32(0), BrokerSerializable::Welltrade);
    assert_eq!(i32::from(BrokerSerializable::Welltrade), 0);
    assert_eq!(BrokerSerializable::try_from_i32(0), Some(BrokerSerializable::Welltrade));
    assert_eq!(BrokerSerializable::try_from_i32(1), None);
}

#[test]
fn code_round_trips() {
    for p in [TradingPlatformSerializable::MetaTrader4, TradingPlatformSerializable::MetaTrader5] {
        assert_eq!(TradingPlatformSerializable::from_i32(i32::from(p)), p);
    }
    for t in [
        ClientAuditLogTypeDto::ChangedPersonalData,
        ClientAuditLogTypeDto::Registered,
        ClientAuditLogTypeDto::LoggedIn,
    ] {
        assert_eq!(ClientAuditLogTypeDto::from_db_value(t.to_db_value()), t);
        assert_eq!(i32::from(t), t.to_db_value());
    }
    for code in -3..6 {
        if let Some(t) = ClientAuditLogTypeDto::try_from_db_value(code) {
            assert_eq!(t.to_db_value(), code);
        }
    }
}

#[test]
fn log_type_codes() {
    assert_eq!(ClientAuditLogTypeDto::from_db_value(0), ClientAuditLogTypeDto::ChangedPersonalData);
    assert_eq!(ClientAuditLogTypeDto::from_db_value(1), ClientAuditLogTypeDto::Registered);
    assert_eq!(ClientAuditLogTypeDto::from_db_value(2), ClientAuditLogTypeDto::LoggedIn);
    assert_eq!(ClientAuditLogTypeDto::LoggedIn.to_db_value(), 2);
    assert_eq!(ClientAuditLogTypeDto::try_from_db_value(3), None);
    assert_eq!(ClientAuditLogTypeDto::try_from_db_value(-1), None);
}

#[test]
fn only_non_empty_text_needs_the_cipher() {
    assert!(!needs_cipher(""));
    assert!(needs_cipher("x"));
    assert!(needs_cipher(" "));
}

#[test]
fn encrypt_field_keeps_empty_text() {
    assert_eq!(encrypt_field(&String::new(), None), "");
    assert_eq!(encrypt_field(&String::new(), Some("ignored".to_string())), "");
}

#[test]
fn encrypt_field_stores_the_sealed_text() {
    let field = "{\"name\":\"Bob\"}".to_string();
    assert_eq!(encrypt_field(&field, Some(seal(&field))), "sealed:{\"name\":\"Bob\"}");
}

#[test]
fn encrypt_optional_field_cases() {
    assert_eq!(_encrypt_optional_field(None, None), None);
    let empty = String::new();
    assert_eq!(_encrypt_optional_field(Some(&empty), None), Some(String::new()));
    let text = "abc".to_string();
    assert_eq!(_encrypt_optional_field(Some(&text), Some(seal(&text))), Some("sealed:abc".to_string()));
}

#[test]
fn decode_field_from_vec_cases() {
    assert_eq!(decode_field_from_vec(Ok("plain".to_string())), Some("plain".to_string()));
    assert_eq!(decode_field_from_vec(Err("AesKey: decryption failed: empty result".to_string())), None);
    assert_eq!(decode_field_from_vec(Err("bad padding".to_string())), None);
}

#[test]
fn decrypt_field_cases() {
    assert_eq!(decrypt_field(&String::new(), None), "");
    let stored = "sealed:hello".to_string();
    assert_eq!(decrypt_field(&stored, Some(open(&stored))), "hello");
    assert_eq!(
        decrypt_field(&stored, Some(OpenOutcome::DecryptFailed("bad padding".to_string()))),
        ""
    );
}

#[test]
fn decrypt_field_optional_cases() {
    assert_eq!(_decrypt_field_optional(None, None), None);
    let empty = String::new();
    assert_eq!(_decrypt_field_optional(Some(&empty), None), Some(String::new()));
    let stored = "sealed:hi".to_string();
    assert_eq!(_decrypt_field_optional(Some(&stored), Some(open(&stored))), Some("hi".to_string()));
    assert_eq!(
        _decrypt_field_optional(
            Some(&stored),
            Some(OpenOutcome::DecryptFailed("AesKey: decryption failed: empty result".to_string()))
        ),
        None
    );
    let garbage = "%%%".to_string();
    assert_eq!(_decrypt_field_optional(Some(&garbage), Some(open(&garbage))), None);
}

#[test]
fn encrypt_fields_replaces_only_the_contexts() {
    let mut dto = record("new", "");
    let sealed_new = Some(seal(&dto.new_context));
    dto.encrypt_fields(sealed_new, None);
    assert_eq!(dto.new_context, "sealed:new");
    assert_eq!(dto.prev_context, "");
    assert_eq!(dto.id, "id-1");
    assert_eq!(dto.client_id, "client-7");
    assert_eq!(dto.user_id, "user-3");
    assert_eq!(dto.created_at, 1_700_000_000_000_000);
    assert_eq!(dto.log_type, ClientAuditLogTypeDto::Registered);
}

#[test]
fn decrypt_fields_always_answers_false() {
    let mut dto = record("sealed:a", "sealed:b");
    let on = Some(open(&dto.new_context));
    let op = Some(OpenOutcome::DecryptFailed("bad".to_string()));
    assert!(!dto.decrypt_fields(on, op));
    assert_eq!(dto.new_context, "a");
    assert_eq!(dto.prev_context, "");
    assert_eq!(dto.client_id, "client-7");
}

#[test]
fn encrypt_then_decrypt_restores_the_record() {
    let mut dto = record("{\"city\":\"Paris\"}", "{\"city\":\"Rome\"}");
    let sn = Some(seal(&dto.new_context));
    let sp = Some(seal(&dto.prev_context));
    dto.encrypt_fields(sn, sp);
    assert_ne!(dto.new_context, "{\"city\":\"Paris\"}");
    let on = Some(open(&dto.new_context));
    let op = Some(open(&dto.prev_context));
    dto.decrypt_fields(on, op);
    assert_eq!(dto.new_context, "{\"city\":\"Paris\"}");
    assert_eq!(dto.prev_context, "{\"city\":\"Rome\"}");
    assert_eq!(dto.id, "id-1");
}
