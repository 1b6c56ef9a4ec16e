use turnon::config::{
    cargo_pkg_version, is_development, is_development_app_id, license_text, locale_directory,
    release_notes_version, release_notes_version_of, Version, LICENSE_TRANSLATIONS_URL,
};
use turnon::i18n::gettext;

#[test]
fn release_notes_version_only_has_major_and_minor() {
    let version = release_notes_version().unwrap();
    assert_eq!(version.major, cargo_pkg_version().unwrap().major);
    assert_eq!(version.minor, cargo_pkg_version().unwrap().minor);
    assert_eq!(version.patch, 0);
    assert!(version.pre.is_empty());
    assert!(version.build.is_empty());
}

#[test]
fn package_version_is_parsed() {
    let version = cargo_pkg_version().unwrap();
    assert_eq!((version.major, version.minor, version.patch), (0, 1, 0));
    assert!(version.pre.is_empty());
}

#[test]
fn release_notes_version_drops_patch_pre_and_build() {
    let version = Version {
        major: 2,
        minor: 3,
        patch: 4,
        pre: "beta.1".to_string(),
        build: "g1234".to_string(),
    };
    let notes = release_notes_version_of(&version);
    assert_eq!((notes.major, notes.minor, notes.patch), (2, 3, 0));
    assert_eq!(notes.pre, "");
    assert_eq!(notes.build, "");
}

#[test]
fn development_builds_end_in_devel() {
    assert!(!is_development());
    assert!(is_development_app_id("de.swsnr.turnon.Devel"));
    assert!(!is_development_app_id("de.swsnr.turnon"));
    assert!(!is_development_app_id("Devel"));
    assert!(is_development_app_id(".Devel"));
}

#[test]
fn locale_directory_depends_on_sandbox() {
    assert_eq!(locale_directory(true), "/app/share/locale");
    assert_eq!(locale_directory(false), "/usr/share/locale");
}

#[test]
fn gettext_returns_message() {
    assert_eq!(gettext("Turn On"), "Turn On");
    assert_eq!(gettext(""), "");
}

#[test]
fn license_text_fills_template() {
    let text = license_text(
        "Copyright {copyright_name} &lt;{copyright_email}&gt; see {translations}\n\n{license_text}",
        "EUPL &amp; more",
    )
    .unwrap();
    assert_eq!(
        text,
        format!(
            "Copyright Sebastian Wiesner &lt;sebastian@swsnr.de&gt; see {LICENSE_TRANSLATIONS_URL}\n\nEUPL &amp; more"
        )
    );
    assert!(license_text("{unknown}", "x").is_none());
    assert!(license_text("{unclosed", "x").is_none());
}

#[test]
fn versions_display_like_semver() {
    let v = Version {
        major: 2,
        minor: 3,
        patch: 4,
        pre: "beta.1".to_string(),
        build: "g1234".to_string(),
    };
    assert_eq!(v.to_string(), "2.3.4-beta.1+g1234");
    assert_eq!(release_notes_version_of(&v).to_string(), "2.3.0");
    assert_eq!(release_notes_version().unwrap().to_string(), "0.1.0");
    let v = Version {
        major: 1,
        minor: 0,
        patch: 0,
        pre: String::new(),
        build: "b".to_string(),
    };
    assert_eq!(v.to_string(), "1.0.0+b");
}
