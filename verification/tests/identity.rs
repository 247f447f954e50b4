use grimoire::identity::{color_attachment_index, depth_attachment_index, hash_name_attachment};

#[test]
fn identity_is_stable_across_calls() {
    let first = hash_name_attachment("feedback", 0);
    let second = hash_name_attachment("feedback", 0);
    assert_eq!(first, second);
    let from_owned = hash_name_attachment(String::from("feedback").as_str(), 0);
    assert_eq!(first, from_owned);
}

#[test]
fn identity_tells_attachments_and_names_apart() {
    assert_ne!(hash_name_attachment("B", 0), hash_name_attachment("B", 1));
    assert_ne!(hash_name_attachment("B", 0), hash_name_attachment("C", 0));
    assert_ne!(hash_name_attachment("ab", 0), hash_name_attachment("a", 0));
}

#[test]
fn attachment_indexing_of_a_feedback_buffer() {
    // two colour attachments and a depth attachment, two copies
    assert_eq!(color_attachment_index(2, 0, 0), 0);
    assert_eq!(color_attachment_index(2, 0, 1), 1);
    assert_eq!(depth_attachment_index(2, 0), 2);
    assert_eq!(color_attachment_index(2, 1, 0), 3);
    assert_eq!(color_attachment_index(2, 1, 1), 4);
    assert_eq!(depth_attachment_index(2, 1), 5);
}
