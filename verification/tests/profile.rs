use ai_usagebar::profile::popover_data_dir;
use std::path::Path;

#[test]
fn popover_profile_lives_under_the_cache_root() {
    let root = Path::new("cache-root");
    assert_eq!(
        popover_data_dir(root),
        root.join("ai-usagebar").join("popover")
    );
}

#[test]
fn popover_profile_never_depends_on_the_exe_dir() {
    let dir = popover_data_dir(Path::new("cache-root"));
    assert!(dir.starts_with("cache-root"));
    assert!(!dir.to_string_lossy().contains("WebView2"));
}
