use forge_installer::fetch::forge_index_url;
use forge_installer::link::find_download_link;
use forge_installer::InstallError;

const GOOD_LINE: &str = "<a href=\"https://maven.minecraftforge.net/net/minecraftforge/forge/1.13.2-25.0.160/forge-1.13.2-25.0.160-installer.jar\">Download</a>";

#[test]
fn one_candidate_line_yields_its_href() {
    let document = format!("<html>\n{}\n<p>footer</p>\n</html>", GOOD_LINE);
    let link = find_download_link(&document, "25.0.160", "1.13.2").unwrap();
    assert_eq!(
        link,
        "https://maven.minecraftforge.net/net/minecraftforge/forge/1.13.2-25.0.160/forge-1.13.2-25.0.160-installer.jar"
    );
}

#[test]
fn crlf_line_endings_are_normalized() {
    let document = format!("<html>\r\n{}\r\n</html>", GOOD_LINE);
    let link = find_download_link(&document, "25.0.160", "1.13.2").unwrap();
    assert!(link.ends_with("-installer.jar"));
}

#[test]
fn zero_candidate_lines_fail() {
    let document = "<html>\nnothing here\n</html>".to_string();
    let err = find_download_link(&document, "25.0.160", "1.13.2").unwrap_err();
    assert_eq!(err, InstallError::AmbiguousOrMissingLink);
}

#[test]
fn two_candidate_lines_fail() {
    let document = format!("{}\n{}\n", GOOD_LINE, GOOD_LINE);
    let err = find_download_link(&document, "25.0.160", "1.13.2").unwrap_err();
    assert_eq!(err, InstallError::AmbiguousOrMissingLink);
}

#[test]
fn denylisted_lines_are_not_candidates() {
    // The second line matches the keyword and version but carries a
    // denylisted marker, so exactly one candidate remains.
    let noisy = "<a href=\"https://adfoc.us/serve/x-installer-25.0.160-\">ad</a>";
    let document = format!("{}\n{}\n", GOOD_LINE, noisy);
    let link = find_download_link(&document, "25.0.160", "1.13.2").unwrap();
    assert!(link.ends_with("-installer.jar"));
}

#[test]
fn universal_keyword_for_middle_minors() {
    let line = "<a href=\"https://maven.minecraftforge.net/forge-1.7.10-10.13.4.1614-universal.jar\">u</a>";
    let document = format!("{}\n", line);
    let link = find_download_link(&document, "10.13.4.1614", "1.7.10").unwrap();
    assert_eq!(
        link,
        "https://maven.minecraftforge.net/forge-1.7.10-10.13.4.1614-universal.jar"
    );
}

#[test]
fn malformed_game_version_fails_first() {
    let document = format!("{}\n", GOOD_LINE);
    let err = find_download_link(&document, "25.0.160", "bogus").unwrap_err();
    assert_eq!(err, InstallError::MalformedVersion);
}

#[test]
fn line_without_href_value_fails() {
    // The line passes every substring filter but its href never closes.
    let document = "<a href=\"unclosed installer 25.0.160-\n".to_string();
    let err = find_download_link(&document, "25.0.160", "1.13.2").unwrap_err();
    assert_eq!(err, InstallError::AmbiguousOrMissingLink);
}

#[test]
fn index_url_shape() {
    assert_eq!(
        forge_index_url("1.13.2"),
        "https://files.minecraftforge.net/net/minecraftforge/forge/index_1.13.2.html"
    );
}
