use rmus::folders::FileExplorerWindow;
use rmus::settings::Settings;

#[test]
fn first_start_settings() {
    let settings = Settings::new();
    assert_eq!(settings.get_device(), 0);
    assert!(settings.get_lib_folders().is_empty());
}

#[test]
fn settings_from_parts() {
    let settings = Settings::from_parts(vec![String::from("/a"), String::from("/b")], 3);
    assert_eq!(settings.get_device(), 3);
    assert_eq!(settings.get_lib_folders(), &vec!["/a", "/b"]);
}

#[test]
fn device_can_be_changed() {
    let mut settings = Settings::from_parts(vec![String::from("/a")], 1);
    settings.set_device(4);
    assert_eq!(settings.get_device(), 4);
    assert_eq!(settings.get_lib_folders(), &vec!["/a"]);
}

#[test]
fn folders_are_added_at_the_end_and_removed_by_index() {
    let mut settings = Settings::new();
    settings.add_folder(String::from("/x"));
    settings.add_folder(String::from("/y"));
    settings.add_folder(String::from("/z"));
    assert_eq!(settings.get_lib_folders(), &vec!["/x", "/y", "/z"]);
    assert_eq!(settings.remove_folder(1), "/y");
    assert_eq!(settings.get_lib_folders(), &vec!["/x", "/z"]);
    assert_eq!(settings.get_device(), 0);
}

#[test]
fn explorer_opens_on_home_and_follows_cwd() {
    let mut explorer = FileExplorerWindow::new("/home/me");
    assert_eq!(explorer.get_title(), "/home/me");
    assert_eq!(explorer.get_cwd(), "/home/me");
    explorer.set_cwd("/home/me/Music");
    assert_eq!(explorer.get_cwd(), "/home/me/Music");
    assert_eq!(explorer.get_title(), "/home/me");
}
