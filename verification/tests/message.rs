use kyf_log::{
    error_label_tag_data, info_label, info_label_data, info_label_tag, msg_label, msg_label_data,
    msg_label_tag, msg_label_tag_data, substitute_tag,
};

#[test]
fn label_only_shape() {
    assert_eq!(msg_label("boom"), "\"msg\": \"boom\"");
    assert_eq!(msg_label(""), "\"msg\": \"\"");
}

#[test]
fn label_tag_shape_substitutes_placeholder() {
    assert_eq!(
        msg_label_tag("user {} logged in", "alice"),
        "\"msg\": \"user alice logged in\""
    );
}

#[test]
fn substitute_replaces_first_placeholder_only() {
    assert_eq!(substitute_tag("a {} b {}", "x"), "a x b {}");
    assert_eq!(substitute_tag("{} leads", "x"), "x leads");
    assert_eq!(substitute_tag("trails {}", "x"), "trails x");
    assert_eq!(substitute_tag("{}", "x"), "x");
}

#[test]
fn substitute_without_placeholder_keeps_label() {
    assert_eq!(substitute_tag("no slot here", "x"), "no slot here");
    assert_eq!(substitute_tag("", "x"), "");
    assert_eq!(substitute_tag("{", "x"), "{");
    assert_eq!(substitute_tag("}{", "x"), "}{");
}

#[test]
fn substitute_handles_wide_characters() {
    assert_eq!(substitute_tag("这个数据是{}？？？", "haha"), "这个数据是haha？？？");
    assert_eq!(
        msg_label_tag("这个是个错误：{}", "gas"),
        "\"msg\": \"这个是个错误：gas\""
    );
}

// Without an installed logger the facade drops the record, so the entry
// points can be exercised here for the fragment they build and return.
#[test]
fn entry_points_return_their_fragment() {
    assert_eq!(info_label("hello"), "\"msg\": \"hello\"");
    assert_eq!(info_label_tag("user {} here", "eve"), "\"msg\": \"user eve here\"");
    let data = serde_json::Value::from(10);
    assert_eq!(info_label_data("d", &data), "\"msg\": \"d\", \"data\": 10");
    assert_eq!(
        error_label_tag_data("u {} x", "b", &data),
        "\"msg\": \"u b x\", \"data\": 10"
    );
}

#[test]
fn label_data_shape_splices_payload_verbatim() {
    assert_eq!(
        msg_label_data("boom", "{\"n\":1}"),
        "\"msg\": \"boom\", \"data\": {\"n\":1}"
    );
}

#[test]
fn label_tag_data_shape_combines_both() {
    assert_eq!(
        msg_label_tag_data("user {} left", "bob", "{\"age\":10}"),
        "\"msg\": \"user bob left\", \"data\": {\"age\":10}"
    );
}
