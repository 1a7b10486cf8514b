use forge_installer::label::forge_version_label;
use forge_installer::InstallError;

#[test]
fn label_mid_generation_plain() {
    // Minor 7 with a loader outside the special set keeps the doubled form.
    let label = forge_version_label("1.7.10", "10.13.4.1614").unwrap();
    assert_eq!(label, "1.7.10-10.13.4.1614-1.7.10");
}

#[test]
fn label_special_set_with_patch_two() {
    let label = forge_version_label("1.7.2", "10.12.2.1154").unwrap();
    assert_eq!(label, "1.7.2-10.12.2.1154-mc172");
}

#[test]
fn label_special_set_other_member() {
    // 10.12.2.1161 belongs to the special set and 1.7.2 carries patch "2",
    // so the label takes the mc-suffixed form as well.
    let label = forge_version_label("1.7.2", "10.12.2.1161").unwrap();
    assert_eq!(label, "1.7.2-10.12.2.1161-mc172");
}

#[test]
fn label_modern_generation() {
    let label = forge_version_label("1.13.2", "25.0.160").unwrap();
    assert_eq!(label, "1.13.2-25.0.160");
}

#[test]
fn label_minor_outside_window_low() {
    let label = forge_version_label("1.6.4", "9.11.1.965").unwrap();
    assert_eq!(label, "1.6.4-9.11.1.965");
}

#[test]
fn label_no_patch_segment() {
    // Patch absent: the special set cannot apply, the doubled form stays.
    let label = forge_version_label("1.8", "11.14.4.1577").unwrap();
    assert_eq!(label, "1.8-11.14.4.1577-1.8");
}

#[test]
fn label_malformed_single_segment() {
    let err = forge_version_label("17", "1.2.3").unwrap_err();
    assert_eq!(err, InstallError::MalformedVersion);
}

#[test]
fn label_malformed_minor_not_numeric() {
    let err = forge_version_label("1.x.2", "1.2.3").unwrap_err();
    assert_eq!(err, InstallError::MalformedVersion);
}

#[test]
fn error_messages_name_each_failure() {
    assert_eq!(InstallError::MalformedVersion.message(), "malformed game version string");
    assert_eq!(InstallError::AmbiguousOrMissingLink.message(), "cannot find download link");
    assert_eq!(InstallError::DownloadFailure.message(), "download failed");
    assert_eq!(InstallError::BadInstallerArchive.message(), "bad forge installer jar");
    assert_eq!(InstallError::InconsistentArchive.message(), "installer archive is inconsistent");
    assert_eq!(InstallError::FilesystemFailure.message(), "filesystem operation failed");
}
