use thghosting_data_centers::text::same_text;

#[test]
fn equal_texts_are_the_same() {
    assert!(same_text("", ""));
    assert!(same_text("Ping/Trace Route", "Ping/Trace Route"));
    assert!(same_text("Zürich", "Zürich"));
}

#[test]
fn different_texts_are_not_the_same() {
    assert!(!same_text("", " "));
    assert!(!same_text("Ping/Trace Route", "ping/trace route"));
    assert!(!same_text("Ping/Trace Route", "Ping/Trace Route "));
    assert!(!same_text("Test Download", "Test Downloal"));
    assert!(!same_text("Zürich", "Zurich"));
    assert!(!same_text("ab", "ba"));
}
