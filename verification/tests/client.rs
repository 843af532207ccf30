use wacraft_reminders::client::classify_response;
use wacraft_reminders::client::contact_endpoint_url;
use wacraft_reminders::client::contact_query;
use wacraft_reminders::client::conversation_messages_endpoint_url;
use wacraft_reminders::client::conversation_messages_query;
use wacraft_reminders::client::conversations_endpoint_url;
use wacraft_reminders::client::conversations_query;
use wacraft_reminders::client::last_listed_contact;
use wacraft_reminders::client::message_endpoint_url;
use wacraft_reminders::client::status_is_success;
use wacraft_reminders::client::token_endpoint_url;
use wacraft_reminders::models::MessagingProductContact;
use wacraft_reminders::models::Order;
use wacraft_reminders::text::u32_decimal;

fn mpc(id: &str) -> MessagingProductContact {
    MessagingProductContact {
        contact_id: None,
        messaging_product_id: None,
        blocked: None,
        last_read_at: None,
        contact: None,
        product_details: None,
        id: id.to_string(),
        created_at: 0,
        updated_at: 0,
    }
}

#[test]
fn endpoint_urls_extend_the_base() {
    let base = "https://api.example.test";
    assert_eq!(token_endpoint_url(base), "https://api.example.test/user/oauth/token");
    assert_eq!(message_endpoint_url(base), "https://api.example.test/message/whatsapp");
    assert_eq!(conversations_endpoint_url(base), "https://api.example.test/message/conversation");
    assert_eq!(
        conversation_messages_endpoint_url(base, "c1"),
        "https://api.example.test/message/conversation/messaging-product-contact/c1"
    );
    assert_eq!(contact_endpoint_url(base), "https://api.example.test/messaging-product/contact");
}

#[test]
fn decimal_rendering_is_exact() {
    assert_eq!(u32_decimal(0), "0");
    assert_eq!(u32_decimal(7), "7");
    assert_eq!(u32_decimal(100), "100");
    assert_eq!(u32_decimal(4294967295), "4294967295");
}

#[test]
fn conversations_query_lists_limit_and_offset() {
    let q = conversations_query(100, 200, None);
    assert_eq!(q, vec![
        ("limit".to_string(), "100".to_string()),
        ("offset".to_string(), "200".to_string()),
    ]);
    let q = conversations_query(1, 0, Some("2024-01-01T00:00:00Z"));
    assert_eq!(q.len(), 3);
    assert_eq!(q[2], ("created_at_leq".to_string(), "2024-01-01T00:00:00Z".to_string()));
}

#[test]
fn messages_query_appends_the_orderings() {
    let q = conversation_messages_query(1, 0, None, Some(Order::Desc), None);
    assert_eq!(q, vec![
        ("limit".to_string(), "1".to_string()),
        ("offset".to_string(), "0".to_string()),
        ("created_at".to_string(), "desc".to_string()),
    ]);
    let q = conversation_messages_query(5, 10, None, Some(Order::Asc), Some(Order::Desc));
    assert_eq!(q[2], ("created_at".to_string(), "asc".to_string()));
    assert_eq!(q[3], ("updated_at".to_string(), "desc".to_string()));
}

#[test]
fn contact_query_asks_for_one_contact() {
    let q = contact_query("c1");
    assert_eq!(q, vec![
        ("id".to_string(), "c1".to_string()),
        ("limit".to_string(), "1".to_string()),
        ("offset".to_string(), "0".to_string()),
    ]);
}

#[test]
fn success_statuses_are_the_2xx_range() {
    assert!(status_is_success(200));
    assert!(status_is_success(204));
    assert!(status_is_success(299));
    assert!(!status_is_success(199));
    assert!(!status_is_success(300));
    assert!(!status_is_success(404));
    assert!(!status_is_success(500));
}

#[test]
fn failures_carry_status_and_body_verbatim() {
    match classify_response(502, "bad gateway".to_string()) {
        Err(f) => {
            assert_eq!(f.status, 502);
            assert_eq!(f.body, "bad gateway");
        }
        Ok(_) => panic!("502 is not a success"),
    }
    match classify_response(201, "created".to_string()) {
        Ok(b) => assert_eq!(b, "created"),
        Err(_) => panic!("201 is a success"),
    }
}

#[test]
fn contact_lookup_takes_the_last_listed() {
    assert!(last_listed_contact(Vec::new()).is_none());
    let found = last_listed_contact(vec![mpc("a"), mpc("b")]).expect("non-empty page");
    assert_eq!(found.id, "b");
}
