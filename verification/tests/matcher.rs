use sbsrf_update::im::check_file_item;

#[test]
fn universal_prefix_always_matches() {
    assert!(check_file_item("sbsrf-core.zip", "squirrel", false));
    assert!(check_file_item("sbsrf-core.zip", "weasel", true));
    assert!(check_file_item("sbsrf", "hamster", false));
    assert!(check_file_item("sbsrf-octagram.zip", "fcitx5", false));
}

#[test]
fn sentence_model_matches_only_in_sentence_mode() {
    assert!(check_file_item("octagram-cn.zip", "squirrel", true));
    assert!(!check_file_item("octagram-cn.zip", "squirrel", false));
    assert!(check_file_item("octagram", "weasel", true));
    assert!(!check_file_item("octagram", "weasel", false));
}

#[test]
fn variant_tag_matches_case_insensitively() {
    assert!(check_file_item("enginea-core.zip", "EngineA", false));
    assert!(check_file_item("enginea-core.zip", "enginea", false));
    assert!(check_file_item("weasel-installer.exe", "Weasel", false));
    assert!(check_file_item("squirrel-0.15.pkg", "Squirrel", true));
}

#[test]
fn unrelated_names_do_not_match() {
    assert!(!check_file_item("readme.txt", "squirrel", true));
    assert!(!check_file_item("weasel-installer.exe", "squirrel", false));
    assert!(!check_file_item("", "squirrel", true));
}

#[test]
fn empty_tag_matches_everything_without_other_prefixes() {
    assert!(check_file_item("anything", "", false));
}
