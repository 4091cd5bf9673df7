use syncinput::hub::{clients_message_text, content_message_text, Hub};

#[test]
fn content_message_escapes_like_serde_json() {
    assert_eq!(content_message_text("hi"), r#"{"data":"hi","type":"content"}"#);
    assert_eq!(
        content_message_text("a\"b\\c\nd\te\u{1}f\u{8}\u{c}\r"),
        r#"{"data":"a\"b\\c\nd\te\u0001f\b\f\r","type":"content"}"#
    );
    assert_eq!(content_message_text("ü / 日本"), "{\"data\":\"ü / 日本\",\"type\":\"content\"}");
    assert_eq!(content_message_text("\u{1f}\u{7f}"), "{\"data\":\"\\u001f\u{7f}\",\"type\":\"content\"}");
}

#[test]
fn clients_message_counts() {
    assert_eq!(clients_message_text(0), r#"{"count":0,"type":"clients"}"#);
    assert_eq!(clients_message_text(3), r#"{"count":3,"type":"clients"}"#);
    assert_eq!(clients_message_text(12), r#"{"count":12,"type":"clients"}"#);
}

#[test]
fn pages_join_with_fresh_numbers_and_the_count_goes_to_all() {
    let mut hub = Hub::new();
    let a = hub.connect();
    assert_eq!(a.id, 0);
    assert_eq!(a.greeting, r#"{"data":"","type":"content"}"#);
    assert_eq!(a.notice.recipients, vec![0]);
    assert_eq!(a.notice.message, r#"{"count":1,"type":"clients"}"#);
    let b = hub.connect();
    assert_eq!(b.id, 1);
    assert_eq!(b.notice.recipients, vec![0, 1]);
    assert_eq!(b.notice.message, r#"{"count":2,"type":"clients"}"#);
    assert_eq!(hub.clients, vec![0, 1]);
    assert_eq!(hub.next_id, 2);
}

#[test]
fn a_text_reaches_every_page_but_its_sender() {
    let mut hub = Hub::new();
    let a = hub.connect().id;
    let b = hub.connect().id;
    let c = hub.connect().id;
    let d = hub.receive(b, r#"{"type":"content","data":"hello"}"#).unwrap();
    assert_eq!(d.recipients, vec![a, c]);
    assert_eq!(d.message, r#"{"data":"hello","type":"content"}"#);
    assert_eq!(hub.content, "hello");
    let late = hub.connect();
    assert_eq!(late.greeting, r#"{"data":"hello","type":"content"}"#);
}

#[test]
fn messages_without_a_data_string_are_ignored() {
    let mut hub = Hub::new();
    let a = hub.connect().id;
    hub.publish(a, "kept");
    for text in ["not json", r#"{"data":5}"#, r#"{"other":"x"}"#, r#"["data"]"#, r#""data""#, ""] {
        assert!(hub.receive(a, text).is_none(), "{text:?}");
        assert_eq!(hub.content, "kept");
    }
}

#[test]
fn data_strings_are_unescaped() {
    let mut hub = Hub::new();
    let a = hub.connect().id;
    hub.receive(a, r#"{"data":"x\ny \"z\" \u00e9"}"#).unwrap();
    assert_eq!(hub.content, "x\ny \"z\" é");
}

#[test]
fn leaving_removes_the_page_and_tells_the_rest() {
    let mut hub = Hub::new();
    let a = hub.connect().id;
    let b = hub.connect().id;
    let c = hub.connect().id;
    let d = hub.disconnect(b);
    assert_eq!(hub.clients, vec![a, c]);
    assert_eq!(d.recipients, vec![a, c]);
    assert_eq!(d.message, r#"{"count":2,"type":"clients"}"#);
    let d = hub.disconnect(b);
    assert_eq!(hub.clients, vec![a, c]);
    assert_eq!(d.message, r#"{"count":2,"type":"clients"}"#);
}

#[test]
fn join_then_leave_restores_the_list() {
    let mut hub = Hub::new();
    hub.connect();
    hub.connect();
    let before = hub.clients.clone();
    let j = hub.connect();
    hub.disconnect(j.id);
    assert_eq!(hub.clients, before);
}

#[test]
fn numbers_wrap_after_the_largest() {
    let mut hub = Hub::new();
    hub.next_id = u64::MAX;
    assert_eq!(hub.connect().id, u64::MAX);
    assert_eq!(hub.next_id, 0);
}

#[test]
fn an_echoed_content_message_sets_the_same_text() {
    for text in ["", "plain", "quote \" back \\ slash", "line\nbreak\ttab\r", "\u{0}\u{1f}\u{7f}", "<b>html</b> & 日本語 😀"] {
        let mut hub = Hub::new();
        let a = hub.connect().id;
        let message = content_message_text(text);
        let d = hub.receive(a, &message).unwrap();
        assert_eq!(hub.content, text);
        assert_eq!(d.message, message);
    }
}

#[test]
fn joins_are_numbered_in_order_and_greeted_with_the_last_text() {
    let mut hub = Hub::new();
    let first = hub.connect();
    assert_eq!((first.id, first.greeting.as_str()), (0, r#"{"data":"","type":"content"}"#));
    hub.publish(0, "one");
    hub.publish(0, "two");
    let second = hub.connect();
    assert_eq!((second.id, second.greeting.as_str()), (1, r#"{"data":"two","type":"content"}"#));
    hub.disconnect(0);
    let third = hub.connect();
    assert_eq!((third.id, third.greeting.as_str()), (2, r#"{"data":"two","type":"content"}"#));
}

#[test]
fn a_page_that_joined_is_told_later_texts() {
    let mut hub = Hub::new();
    let a = hub.connect().id;
    let b = hub.connect().id;
    let d = hub.publish(a, "new");
    assert!(d.recipients.contains(&b));
    assert!(!d.recipients.contains(&a));
}
