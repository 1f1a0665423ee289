use clipoo::security::is_excluded_process_name;

#[test]
fn blocks_password_managers() {
    assert!(is_excluded_process_name("KeePass.exe"));
    assert!(is_excluded_process_name("KeePassXC.exe"));
    assert!(is_excluded_process_name("Bitwarden.exe"));
    assert!(is_excluded_process_name("1Password.exe"));
    assert!(is_excluded_process_name("1password.exe"));
}

#[test]
fn allows_ordinary_apps() {
    assert!(!is_excluded_process_name("chrome.exe"));
    assert!(!is_excluded_process_name("Code.exe"));
    assert!(!is_excluded_process_name("clipoo.exe"));
}

#[test]
fn marker_may_stand_anywhere_in_the_name() {
    assert!(is_excluded_process_name("my-BITWARDEN-helper"));
    assert!(!is_excluded_process_name("keepas.exe"));
    assert!(!is_excluded_process_name(""));
}
