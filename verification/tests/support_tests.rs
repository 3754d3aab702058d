use monolith_server::admin::{moderate_product, moderate_user, moderated, ModerateProductInput, ModerateUserInput, Moderated};
use monolith_server::config::{AppConfig, ConfigError};
use monolith_server::error::{database_failure, fail, found_or, read_or_fail, written_or, ApiError, DbError, ErrorKind};
use monolith_server::health::{healthz, ping, readyz};
use monolith_server::ids::Id;
use monolith_server::notification::{create_notification, list_user_notifications, mark_read, NotificationCreated, NotificationItem};
use monolith_server::pagination::{cap_size, limit_window, page_window, LimitWindow, PageWindow};
use monolith_server::state::{err, notice, ok, respond, Envelope, Reply};
use monolith_server::text::{decimal, join2, join4, join_all, owned, strip_prefix, text_eq};
use monolith_server::time::Timestamp;
use uuid::Uuid;

fn failure(kind: ErrorKind, message: &str) -> ApiError {
    ApiError { kind, message: message.to_string() }
}

#[test]
fn identifiers_are_written_hyphenated_in_lower_case() {
    let bits = 0xa1a2a3a4_b1b2_c1c2_d1d2_d3d4d5d6d7d8u128;
    assert_eq!(Id::from_bits(bits).to_text(), "a1a2a3a4-b1b2-c1c2-d1d2-d3d4d5d6d7d8");
    assert_eq!(Id::from_bits(0).to_text(), "00000000-0000-0000-0000-000000000000");
    assert_eq!(Id::from_bits(u128::MAX).to_text(), "ffffffff-ffff-ffff-ffff-ffffffffffff");
    assert_eq!(Id::from_bits(0x0123456789abcdef_fedcba9876543210).to_text(), "01234567-89ab-cdef-fedc-ba9876543210");
}

#[test]
fn identifiers_are_read_from_every_form_of_a_uuid() {
    let id = Some(Id::from_bits(0x550e8400_e29b_41d4_a716_446655440000));
    assert_eq!(Id::parse("550e8400-e29b-41d4-a716-446655440000"), id);
    assert_eq!(Id::parse("550E8400-E29B-41D4-A716-446655440000"), id);
    assert_eq!(Id::parse("550e8400e29b41d4a716446655440000"), id);
    assert_eq!(Id::parse("{550e8400-e29b-41d4-a716-446655440000}"), id);
    assert_eq!(Id::parse("urn:uuid:550e8400-e29b-41d4-a716-446655440000"), id);
    assert_eq!(Id::parse(""), None);
    assert_eq!(Id::parse("550e8400-e29b-41d4-a716-44665544000"), None);
    assert_eq!(Id::parse("550e8400-e29b-41d4-a716-44665544000g"), None);
    let any = Id::from_bits(Uuid::new_v4().as_u128());
    assert_eq!(Id::parse(&any.to_text()), Some(any));
}

#[test]
fn random_identifiers_are_version_four() {
    let a = Id::random();
    let b = Id::random();
    assert_ne!(a, b);
    for id in [a, b] {
        assert_eq!(id.bits & 0x0000_0000_0000_f000_c000_0000_0000_0000, 0x0000_0000_0000_4000_8000_0000_0000_0000);
        assert_eq!(Uuid::from_u128(id.bits).get_version_num(), 4);
    }
}

#[test]
fn the_clock_is_within_the_range_of_dates() {
    let before = chrono::Utc::now().timestamp_micros();
    let now = Timestamp::now();
    let after = chrono::Utc::now().timestamp_micros();
    assert!(before <= now.micros && now.micros <= after);
    assert!(0 <= now.micros && now.micros <= 8_210_266_876_799_999_999);
    assert_eq!(chrono::DateTime::<chrono::Utc>::MAX_UTC.timestamp_micros(), 8_210_266_876_799_999_999);
}

#[test]
fn seconds_round_towards_the_past() {
    assert_eq!(Timestamp::from_micros(0).seconds(), 0);
    assert_eq!(Timestamp::from_micros(999_999).seconds(), 0);
    assert_eq!(Timestamp::from_micros(1_000_000).seconds(), 1);
    assert_eq!(Timestamp::from_micros(1_700_000_000_123_456).seconds(), 1_700_000_000);
    assert_eq!(Timestamp::from_micros(-1).seconds(), -1);
    assert_eq!(Timestamp::from_micros(-1_000_000).seconds(), -1);
    assert_eq!(Timestamp::from_micros(-1_000_001).seconds(), -2);
    assert_eq!(Timestamp::from_micros(i64::MIN).seconds(), -9_223_372_036_855);
    assert_eq!(Timestamp::from_micros(i64::MAX).seconds(), 9_223_372_036_854);
    let early = chrono::DateTime::from_timestamp(-5, 250_000_000).unwrap();
    assert_eq!(Timestamp::from_micros(early.timestamp_micros()).seconds(), early.timestamp());
}

#[test]
fn days_are_added_where_they_fit() {
    let t = Timestamp::from_micros(1_000);
    assert_eq!(t.plus_days(30), Some(Timestamp::from_micros(1_000 + 30 * 86_400_000_000)));
    assert_eq!(t.plus_days(-1), Some(Timestamp::from_micros(1_000 - 86_400_000_000)));
    assert_eq!(t.plus_days(0), Some(t));
    assert_eq!(t.plus_days(i64::MAX), None);
    assert_eq!(t.plus_days(i64::MIN), None);
    assert_eq!(Timestamp::from_micros(i64::MAX).plus_days(1), None);
    assert_eq!(Timestamp::from_micros(i64::MAX).plus_days(-1), Some(Timestamp::from_micros(i64::MAX - 86_400_000_000)));
    assert!(t.not_after(&t));
    assert!(t.not_after(&Timestamp::from_micros(1_001)));
    assert!(!t.not_after(&Timestamp::from_micros(999)));
}

#[test]
fn numbers_are_written_in_decimal() {
    assert_eq!(decimal(0), "0");
    assert_eq!(decimal(7), "7");
    assert_eq!(decimal(10), "10");
    assert_eq!(decimal(1234567890), "1234567890");
    assert_eq!(decimal(-1), "-1");
    assert_eq!(decimal(-905), "-905");
    assert_eq!(decimal(i64::MAX), "9223372036854775807");
    assert_eq!(decimal(i64::MIN), "-9223372036854775808");
}

#[test]
fn texts_are_compared_joined_and_stripped() {
    assert!(text_eq("active", "active"));
    assert!(!text_eq("active", "Active"));
    assert!(!text_eq("active", "activ"));
    assert!(text_eq("", ""));
    assert_eq!(owned("x"), "x");
    assert_eq!(join2("ab", "cd"), "abcd");
    assert_eq!(join4("a", "", "b", "c"), "abc");
    assert_eq!(join_all(&vec![], ", "), "");
    assert_eq!(join_all(&vec!["a".to_string()], ", "), "a");
    assert_eq!(join_all(&vec!["a".to_string(), "b".to_string(), "c".to_string()], ", "), "a, b, c");
    assert_eq!(strip_prefix("Bearer abc", "Bearer "), Some("abc"));
    assert_eq!(strip_prefix("Bearer ", "Bearer "), Some(""));
    assert_eq!(strip_prefix("Bearer", "Bearer "), None);
    assert_eq!(strip_prefix("bearer abc", "Bearer "), None);
    assert_eq!(strip_prefix("Bearer \u{e9}t\u{e9}", "Bearer "), Some("\u{e9}t\u{e9}"));
    assert_eq!(strip_prefix("\u{e9}\u{e9}\u{e9}\u{e9}\u{e9}\u{e9}\u{e9}x", "Bearer "), None);
}

#[test]
fn pages_and_limits_are_capped_at_a_hundred() {
    assert_eq!(cap_size(None, 20), 20);
    assert_eq!(cap_size(Some(100), 20), 100);
    assert_eq!(cap_size(Some(101), 20), 100);
    assert_eq!(cap_size(Some(0), 20), 0);
    assert_eq!(cap_size(Some(-4), 20), -4);
    assert_eq!(page_window(None, None), Some(PageWindow { page: 1, per_page: 20, offset: 0 }));
    assert_eq!(page_window(Some(2), None), Some(PageWindow { page: 2, per_page: 20, offset: 20 }));
    assert_eq!(page_window(Some(0), Some(10)), Some(PageWindow { page: 0, per_page: 10, offset: -10 }));
    assert_eq!(page_window(Some(-2), Some(-3)), Some(PageWindow { page: -2, per_page: -3, offset: 9 }));
    assert_eq!(page_window(Some(i64::MAX), Some(2)), None);
    assert_eq!(page_window(Some(i64::MIN), Some(1)), None);
    assert_eq!(page_window(Some(i64::MIN), Some(0)), Some(PageWindow { page: i64::MIN, per_page: 0, offset: 0 }));
    assert_eq!(
        page_window(Some(92_233_720_368_547_759), Some(100)),
        Some(PageWindow { page: 92_233_720_368_547_759, per_page: 100, offset: 9_223_372_036_854_775_800 })
    );
    assert_eq!(page_window(Some(92_233_720_368_547_760), Some(100)), None);
    assert_eq!(limit_window(None, None, 50), LimitWindow { limit: 50, offset: 0 });
    assert_eq!(limit_window(Some(500), Some(9), 50), LimitWindow { limit: 100, offset: 9 });
}

#[test]
fn every_response_is_wrapped_in_an_envelope() {
    assert_eq!(ok(5), Reply { status: 200, body: Envelope { data: Some(5), error: None } });
    assert_eq!(
        err::<()>(ErrorKind::Conflict, "taken"),
        Reply { status: 409, body: Envelope { data: None, error: Some("taken".to_string()) } }
    );
    assert_eq!(respond(Ok("x")), ok("x"));
    assert_eq!(respond::<i32>(Err(failure(ErrorKind::NotFound, "gone"))), err(ErrorKind::NotFound, "gone"));
    assert_eq!(notice("done").message, "done");
}

#[test]
fn each_kind_of_failure_has_its_status() {
    assert_eq!(ErrorKind::Unauthorized.status(), 401);
    assert_eq!(ErrorKind::Forbidden.status(), 403);
    assert_eq!(ErrorKind::NotFound.status(), 404);
    assert_eq!(ErrorKind::InvalidState.status(), 400);
    assert_eq!(ErrorKind::Conflict.status(), 409);
    assert_eq!(ErrorKind::Internal.status(), 500);
    assert_eq!(ErrorKind::Unavailable.status(), 503);
    assert_eq!(ApiError::new(ErrorKind::Conflict, "taken"), failure(ErrorKind::Conflict, "taken"));
    assert_eq!(fail::<i32>(ErrorKind::Forbidden, "no"), Err(failure(ErrorKind::Forbidden, "no")));
    assert_eq!(database_failure::<i32>(), Err(failure(ErrorKind::Internal, "Database error")));
    assert_eq!(found_or(Ok(Some(1)), ErrorKind::NotFound, "gone"), Ok(1));
    assert_eq!(found_or::<i32>(Ok(None), ErrorKind::NotFound, "gone"), Err(failure(ErrorKind::NotFound, "gone")));
    assert_eq!(
        found_or::<i32>(Err(DbError {}), ErrorKind::NotFound, "gone"),
        Err(failure(ErrorKind::Internal, "Database error"))
    );
    assert_eq!(written_or(Ok(2), "failed"), Ok(2));
    assert_eq!(written_or::<i32>(Err(DbError {}), "failed"), Err(failure(ErrorKind::Internal, "failed")));
    assert_eq!(read_or_fail(Ok(3)), Ok(3));
    assert_eq!(read_or_fail::<i32>(Err(DbError {})), Err(failure(ErrorKind::Internal, "Database error")));
}

#[test]
fn moderation_maps_actions_to_statuses() {
    let user = |action: &str| ModerateUserInput { user_id: Id::from_bits(1), action: action.to_string() };
    assert_eq!(moderate_user(&user("suspend")), Ok("suspended".to_string()));
    assert_eq!(moderate_user(&user("activate")), Ok("active".to_string()));
    assert_eq!(moderate_user(&user("delete")), Err(failure(ErrorKind::InvalidState, "invalid action")));
    assert_eq!(moderate_user(&user("")), Err(failure(ErrorKind::InvalidState, "invalid action")));
    let product = |action: &str| ModerateProductInput { product_id: Id::from_bits(1), action: action.to_string() };
    assert_eq!(moderate_product(&product("approve")), "active");
    assert_eq!(moderate_product(&product("reject")), "rejected");
    assert_eq!(moderate_product(&product("anything")), "rejected");
    assert_eq!(moderated("active".to_string(), Ok(())), Ok(Moderated { status: "active".to_string() }));
    assert_eq!(moderated("active".to_string(), Err(DbError {})), Err(failure(ErrorKind::Internal, "moderation failed")));
}

#[test]
fn notifications_are_listed_made_and_marked() {
    let item = NotificationItem::<String> {
        notification_id: Id::from_bits(1),
        user_id: Id::from_bits(2),
        title: "Hello".to_string(),
        message: "World".to_string(),
        category: None,
        data: None,
        is_read: Some(false),
    };
    assert_eq!(list_user_notifications(Ok(vec![item.clone()])), Ok(vec![item]));
    assert_eq!(
        list_user_notifications::<String>(Err(DbError {})),
        Err(failure(ErrorKind::Internal, "Database error"))
    );
    assert_eq!(create_notification(Ok(Id::from_bits(9))), Ok(NotificationCreated { notification_id: Id::from_bits(9) }));
    assert_eq!(create_notification(Err(DbError {})), Err(failure(ErrorKind::Internal, "failed to create notification")));
    assert_eq!(mark_read(Ok(())).unwrap().status, "ok");
    assert_eq!(mark_read(Err(DbError {})), Err(failure(ErrorKind::Internal, "failed to mark read")));
}

#[test]
fn readiness_follows_the_database() {
    assert_eq!(healthz().status, "ok");
    assert_eq!(readyz(Ok(())).unwrap().status, "ready");
    assert_eq!(readyz(Err(DbError {})), Err(failure(ErrorKind::Unavailable, "db not ready")));
    let pong = ping("rental");
    assert_eq!((pong.service.as_str(), pong.status.as_str()), ("rental", "ok"));
}

#[test]
fn settings_need_a_database() {
    let config = AppConfig::from_vars(None, Some("postgres://db".to_string())).unwrap();
    assert_eq!(config.bind_addr, "0.0.0.0:8000");
    assert_eq!(config.database_url, "postgres://db");
    let config = AppConfig::from_vars(Some("127.0.0.1:9".to_string()), Some("postgres://db".to_string())).unwrap();
    assert_eq!(config.bind_addr, "127.0.0.1:9");
    assert_eq!(AppConfig::from_vars(Some("127.0.0.1:9".to_string()), None), Err(ConfigError::DatabaseUrlMissing));
    assert_eq!(ConfigError::DatabaseUrlMissing.message(), "DATABASE_URL missing");
}
