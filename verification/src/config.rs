//! Application configuration: the application ID, versions and directories.
use vstd::prelude::*;

use crate::text::{chars_of, dec_string, ends_with, ends_with_seq, push_decimal, push_str};

verus! {

/// The application ID.
pub const APP_ID: &'static str = "de.swsnr.turnon";

/// The package version.
pub const CARGO_PKG_VERSION: &'static str = "0.1.0";

/// The log domain.
pub const G_LOG_DOMAIN: &'static str = "TurnOn";

/// URL of the official translations of the EUPL 1.2.
pub const LICENSE_TRANSLATIONS_URL: &'static str =
    "https://interoperable-europe.ec.europa.eu/collection/eupl/eupl-text-eupl-12";

/// Whether `app_id` is the ID of a development build, i.e. ends with `.Devel`.
pub fn is_development_app_id(app_id: &str) -> (r: bool)
    ensures
        r == ends_with_seq(app_id@, ".Devel"@),
{
    ends_with(app_id, ".Devel")
}

/// Whether this is a development/nightly build.
pub fn is_development() -> (r: bool)
    ensures
        r == ends_with_seq(APP_ID@, ".Devel"@),
{
    is_development_app_id(APP_ID)
}

/// The directory of message catalogs: inside the flatpak sandbox the
/// application's own prefix, otherwise the system prefix.
pub fn locale_directory(in_flatpak: bool) -> (r: &'static str)
    ensures
        in_flatpak ==> r@ == "/app/share/locale"@,
        !in_flatpak ==> r@ == "/usr/share/locale"@,
{
    if in_flatpak {
        "/app/share/locale"
    } else {
        "/usr/share/locale"
    }
}

/// A semantic version.
#[derive(Debug)]
pub struct Version {
    pub major: u64,
    pub minor: u64,
    pub patch: u64,
    /// The pre-release part, empty if there is none.
    pub pre: String,
    /// The build metadata, empty if there is none.
    pub build: String,
}

/// The fields of a version, in order.
pub open spec fn version_fields(v: Version) -> (u64, u64, u64, Seq<char>, Seq<char>) {
    (v.major, v.minor, v.patch, v.pre@, v.build@)
}

/// The fields of an optional version.
pub open spec fn optional_version_fields(v: Option<Version>) -> Option<
    (u64, u64, u64, Seq<char>, Seq<char>),
> {
    match v {
        Some(v) => Some(version_fields(v)),
        None => None,
    }
}

/// The fields of the version `semver::Version::parse` reads from `text`, or
/// `None` where it refuses `text`.
pub uninterp spec fn spec_semver_parse(text: Seq<char>) -> Option<
    (u64, u64, u64, Seq<char>, Seq<char>),
>;

/// Parse a semantic version with `semver::Version::parse`; the fields of the
/// result are named by `spec_semver_parse`.
#[verifier::external_body]
fn parse_version(text: &str) -> (r: Option<Version>)
    ensures
        optional_version_fields(r) == spec_semver_parse(text@),
{
    match semver::Version::parse(text) {
        Ok(v) => Some(
            Version {
                major: v.major,
                minor: v.minor,
                patch: v.patch,
                pre: v.pre.as_str().to_string(),
                build: v.build.as_str().to_string(),
            },
        ),
        Err(_) => None,
    }
}

/// The text of a version: `major.minor.patch`, then `-` and the pre-release
/// part and `+` and the build metadata, each where it is not empty.
pub open spec fn version_text(v: Version) -> Seq<char> {
    dec_string(v.major as nat) + "."@ + dec_string(v.minor as nat) + "."@ + dec_string(
        v.patch as nat,
    ) + (if v.pre@.len() > 0 {
        "-"@ + v.pre@
    } else {
        Seq::<char>::empty()
    }) + (if v.build@.len() > 0 {
        "+"@ + v.build@
    } else {
        Seq::<char>::empty()
    })
}

impl Version {
    /// The text of the version, as `semver` displays it.
    pub fn to_string(&self) -> (r: String)
        ensures
            r@ == version_text(*self),
    {
        let mut r = String::new();
        push_decimal(&mut r, self.major);
        push_str(&mut r, ".");
        push_decimal(&mut r, self.minor);
        push_str(&mut r, ".");
        push_decimal(&mut r, self.patch);
        if chars_of(self.pre.as_str()).len() > 0 {
            push_str(&mut r, "-");
            push_str(&mut r, self.pre.as_str());
        }
        if chars_of(self.build.as_str()).len() > 0 {
            push_str(&mut r, "+");
            push_str(&mut r, self.build.as_str());
        }
        assert(r@ =~= version_text(*self));
        r
    }
}

/// The package version, parsed; `None` where it is no semantic version.
pub fn cargo_pkg_version() -> (r: Option<Version>)
    ensures
        optional_version_fields(r) == spec_semver_parse(CARGO_PKG_VERSION@),
{
    parse_version(CARGO_PKG_VERSION)
}

/// The version whose release notes describe `version`: the same major and
/// minor version, patch 0 and neither pre-release nor build metadata.  Patch
/// releases only update translations.
pub fn release_notes_version_of(version: &Version) -> (r: Version)
    ensures
        r.major == version.major,
        r.minor == version.minor,
        r.patch == 0,
        r.pre@ == Seq::<char>::empty(),
        r.build@ == Seq::<char>::empty(),
{
    Version {
        major: version.major,
        minor: version.minor,
        patch: 0,
        pre: String::new(),
        build: String::new(),
    }
}

/// The version of the release notes of this package.
pub fn release_notes_version() -> (r: Option<Version>)
    ensures
        match spec_semver_parse(CARGO_PKG_VERSION@) {
            Some((major, minor, _, _, _)) => r matches Some(v) && version_fields(v) == (
                major,
                minor,
                0u64,
                Seq::<char>::empty(),
                Seq::<char>::empty(),
            ),
            None => r is None,
        },
{
    match cargo_pkg_version() {
        Some(v) => Some(release_notes_version_of(&v)),
        None => None,
    }
}

/// What `formatx` renders from `template` with the named arguments
/// `copyright_name`, `copyright_email`, `translations` and `license_text`, or
/// `None` where it refuses the template or a placeholder has no argument.
pub uninterp spec fn spec_render_license(
    template: Seq<char>,
    copyright_name: Seq<char>,
    copyright_email: Seq<char>,
    translations: Seq<char>,
    license_text: Seq<char>,
) -> Option<Seq<char>>;

/// The text of an optional string.
pub open spec fn optional_text(s: Option<String>) -> Option<Seq<char>> {
    match s {
        Some(s) => Some(s@),
        None => None,
    }
}

/// Fill the license template with `formatx::Template`; the result is named by
/// `spec_render_license`.
#[verifier::external_body]
fn render_license(
    template: &str,
    copyright_name: &str,
    copyright_email: &str,
    translations: &str,
    license_text: &str,
) -> (r: Option<String>)
    ensures
        optional_text(r) == spec_render_license(
            template@,
            copyright_name@,
            copyright_email@,
            translations@,
            license_text@,
        ),
{
    match formatx::Template::new(template) {
        Ok(t) => {
            let mut renderer = t.render();
            renderer.named("copyright_name", copyright_name);
            renderer.named("copyright_email", copyright_email);
            renderer.named("translations", translations);
            renderer.named("license_text", license_text);
            renderer.finish().ok()
        },
        Err(_) => None,
    }
}

/// The license text of the about dialog: the translated `template` (Pango
/// markup) filled with the copyright holder, the URL of the official
/// translations and the license text, already escaped for markup.
pub fn license_text(template: &str, escaped_license_text: &str) -> (r: Option<String>)
    ensures
        optional_text(r) == spec_render_license(
            template@,
            "Sebastian Wiesner"@,
            "sebastian@swsnr.de"@,
            LICENSE_TRANSLATIONS_URL@,
            escaped_license_text@,
        ),
{
    render_license(
        template,
        "Sebastian Wiesner",
        "sebastian@swsnr.de",
        LICENSE_TRANSLATIONS_URL,
        escaped_license_text,
    )
}

} // verus!
