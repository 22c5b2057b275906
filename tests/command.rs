use nor::command::{get_source_specifier, get_volume_args, modify_rel, modify_set, node_type_to_str, toggle};
use nor::NodeType;

fn set_volume(spec: &str, value: &str) -> Vec<String> {
    vec!["set-volume".to_string(), "-l".to_string(), "1.5".to_string(), spec.to_string(), value.to_string()]
}

#[test]
fn specifiers_and_names() {
    assert_eq!(get_source_specifier(&NodeType::Sink), "@DEFAULT_AUDIO_SINK@");
    assert_eq!(get_source_specifier(&NodeType::Source), "@DEFAULT_AUDIO_SOURCE@");
    assert_eq!(node_type_to_str(&NodeType::Sink), "sink");
    assert_eq!(node_type_to_str(&NodeType::Source), "source");
}

#[test]
fn relative_step_defaults_to_five() {
    assert_eq!(modify_rel(None, "+", &NodeType::Sink), set_volume("@DEFAULT_AUDIO_SINK@", "0.05+"));
    assert_eq!(modify_rel(None, "-", &NodeType::Source), set_volume("@DEFAULT_AUDIO_SOURCE@", "0.05-"));
}

#[test]
fn zero_step_is_floored_to_one_percent() {
    assert_eq!(modify_rel(Some(0), "-", &NodeType::Sink), set_volume("@DEFAULT_AUDIO_SINK@", "0.01-"));
    assert_eq!(modify_rel(Some(0), "+", &NodeType::Source), set_volume("@DEFAULT_AUDIO_SOURCE@", "0.01+"));
}

#[test]
fn relative_step_texts() {
    assert_eq!(modify_rel(Some(10), "+", &NodeType::Sink), set_volume("@DEFAULT_AUDIO_SINK@", "0.1+"));
    assert_eq!(modify_rel(Some(25), "+", &NodeType::Sink), set_volume("@DEFAULT_AUDIO_SINK@", "0.25+"));
    assert_eq!(modify_rel(Some(150), "-", &NodeType::Sink), set_volume("@DEFAULT_AUDIO_SINK@", "1.5-"));
}

#[test]
fn absolute_set_texts() {
    assert_eq!(modify_set(100, &NodeType::Sink), set_volume("@DEFAULT_AUDIO_SINK@", "1"));
    assert_eq!(modify_set(33, &NodeType::Sink), set_volume("@DEFAULT_AUDIO_SINK@", "0.33"));
    assert_eq!(modify_set(7, &NodeType::Source), set_volume("@DEFAULT_AUDIO_SOURCE@", "0.07"));
    assert_eq!(modify_set(0, &NodeType::Sink), set_volume("@DEFAULT_AUDIO_SINK@", "0"));
    assert_eq!(modify_set(1205, &NodeType::Sink), set_volume("@DEFAULT_AUDIO_SINK@", "12.05"));
}

#[test]
fn toggle_and_query_args() {
    assert_eq!(
        toggle("@DEFAULT_AUDIO_SINK@".to_string()),
        vec!["set-mute".to_string(), "@DEFAULT_AUDIO_SINK@".to_string(), "toggle".to_string()]
    );
    assert_eq!(
        get_volume_args(&NodeType::Source),
        vec!["get-volume".to_string(), "@DEFAULT_AUDIO_SOURCE@".to_string()]
    );
}
