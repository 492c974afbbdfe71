use queue_shift::filter::{do_attributes_match_filter, filter_messages, maybe_filter_messages};
use queue_shift::message::{AttributeValue, Message};

fn text(value: &str) -> AttributeValue {
    AttributeValue {
        data_type: "String".to_string(),
        string_value: Some(value.to_string()),
        binary_value: None,
        string_list_values: None,
        binary_list_values: None,
    }
}

fn binary(value: &[u8]) -> AttributeValue {
    AttributeValue {
        data_type: "Binary".to_string(),
        string_value: None,
        binary_value: Some(value.to_vec()),
        string_list_values: None,
        binary_list_values: None,
    }
}

fn plain(id: &str) -> Message {
    Message::new(id.to_string(), format!("receipt-{id}"), format!("body of {id}"))
}

fn typed(id: &str, kind: &str) -> Message {
    plain(id).with_attribute("type".to_string(), text(kind))
}

fn invoices() -> (String, String) {
    ("type".to_string(), "invoice".to_string())
}

fn ids(messages: &[Message]) -> Vec<&str> {
    messages.iter().map(|message| message.id().as_str()).collect()
}

#[test]
fn message_with_the_expected_value_matches() {
    assert!(do_attributes_match_filter(&invoices(), &typed("a", "invoice")));
}

#[test]
fn message_with_another_value_does_not_match() {
    assert!(!do_attributes_match_filter(&invoices(), &typed("a", "receipt")));
    assert!(!do_attributes_match_filter(&invoices(), &typed("a", "Invoice")));
    assert!(!do_attributes_match_filter(&invoices(), &typed("a", "")));
}

#[test]
fn message_without_the_attribute_does_not_match() {
    assert!(!do_attributes_match_filter(&invoices(), &plain("a")));
    let other = plain("a").with_attribute("kind".to_string(), text("invoice"));
    assert!(!do_attributes_match_filter(&invoices(), &other));
}

#[test]
fn attribute_without_text_does_not_match() {
    let message = plain("a").with_attribute("type".to_string(), binary(b"invoice"));
    assert!(!do_attributes_match_filter(&invoices(), &message));
}

#[test]
fn filter_parts_a_batch_in_order() {
    let batch = vec![
        typed("a", "invoice"),
        typed("b", "receipt"),
        plain("c"),
        typed("d", "invoice"),
        typed("e", "receipt"),
        typed("f", "invoice"),
    ];
    let (matched, rejected) = filter_messages(&invoices(), batch);
    assert_eq!(ids(&matched), ["a", "d", "f"]);
    assert_eq!(ids(&rejected), ["b", "c", "e"]);
    assert!(matched.iter().all(|message| do_attributes_match_filter(&invoices(), message)));
    assert!(!rejected.iter().any(|message| do_attributes_match_filter(&invoices(), message)));
}

#[test]
fn filter_keeps_equal_messages_apart() {
    let batch = vec![typed("a", "invoice"), typed("a", "invoice"), plain("a"), plain("a")];
    let (matched, rejected) = filter_messages(&invoices(), batch);
    assert_eq!(matched, vec![typed("a", "invoice"), typed("a", "invoice")]);
    assert_eq!(rejected, vec![plain("a"), plain("a")]);
}

#[test]
fn filter_of_an_empty_batch_is_empty() {
    let (matched, rejected) = filter_messages(&invoices(), Vec::new());
    assert!(matched.is_empty());
    assert!(rejected.is_empty());
}

#[test]
fn messages_without_the_attribute_are_all_rejected() {
    let batch = vec![plain("a"), plain("b"), plain("c")];
    let (matched, rejected) = maybe_filter_messages(&Some(invoices()), batch);
    assert!(matched.is_empty());
    assert_eq!(ids(&rejected), ["a", "b", "c"]);
}

#[test]
fn without_a_filter_the_batch_is_kept_whole() {
    let batch = vec![typed("a", "invoice"), plain("b"), typed("c", "receipt")];
    let (matched, rejected) = maybe_filter_messages(&None, batch);
    assert_eq!(matched, vec![typed("a", "invoice"), plain("b"), typed("c", "receipt")]);
    assert!(rejected.is_empty());
}
