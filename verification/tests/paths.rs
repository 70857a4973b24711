use privatewhisper::paths::{default_model_dir, join, model_dir_under};

#[test]
fn default_model_dir_uses_privatewhisper_parakeet_v3_leaf() {
    let path = default_model_dir();
    assert!(path.contains("privatewhisper"));
    assert!(path.ends_with("models/parakeet-v3"));
}

#[test]
fn model_dir_without_data_dir_is_relative() {
    assert_eq!(model_dir_under(None), "./models/parakeet-v3");
    assert_eq!(
        model_dir_under(Some("/home/a/.local/share".into())),
        "/home/a/.local/share/privatewhisper/models/parakeet-v3"
    );
}

#[test]
fn join_follows_path_join() {
    assert_eq!(join("a", "b"), "a/b");
    assert_eq!(join("a/", "b"), "a/b");
    assert_eq!(join("", "b"), "b");
    assert_eq!(join("a", "/b"), "/b");
}
