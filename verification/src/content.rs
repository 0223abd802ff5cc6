//! Content generators: pure builders for the text of every file that goes
//! into the package, parameterized by the identifier and the request fields.

use vstd::prelude::*;
use vstd::string::*;

verus! {

/// The package's machine name as it appears in the control file:
/// the identifier followed by `.webber`.
pub open spec fn control_package_of(appname: Seq<char>) -> Seq<char> {
    appname + ".webber"@
}

/// The key of the manifest's `hooks` table: the identifier followed by
/// `.webber`.
pub open spec fn manifest_hooks_key_of(appname: Seq<char>) -> Seq<char> {
    appname + ".webber"@
}

/// The manifest's hooks key always equals the control file's `Package:`
/// value: both are the identifier followed by `.webber`.
pub proof fn lemma_hooks_key_matches_control(appname: Seq<char>)
    ensures
        manifest_hooks_key_of(appname) == control_package_of(appname),
        manifest_hooks_key_of(appname) == appname + ".webber"@,
{
}

/// In the generated control file the package name stands right after
/// `Package: `: the text at that fixed offset is exactly the identifier
/// followed by `.webber`.
pub proof fn lemma_control_package_position(appname: Seq<char>)
    ensures
        control_content_of(appname).subrange(
            9,
            9 + control_package_of(appname).len() as int,
        ) == control_package_of(appname),
{
    reveal_strlit("Package: ");
    let key = control_package_of(appname);
    assert("Package: "@.len() == 9);
    assert(control_content_of(appname).subrange(9, 9 + key.len() as int) =~= key);
}

/// The hooks key appears verbatim in the generated manifest: some offset of
/// the manifest text carries exactly the identifier followed by `.webber`.
pub proof fn lemma_manifest_holds_hooks_key(appname: Seq<char>, title: Seq<char>)
    ensures
        exists|i: int|
            0 <= i && i + manifest_hooks_key_of(appname).len() <= manifest_content_of(
                appname,
                title,
            ).len() && #[trigger] manifest_content_of(appname, title).subrange(
                i,
                i + manifest_hooks_key_of(appname).len() as int,
            ) == manifest_hooks_key_of(appname),
{
    let pre =
        "{\n    \"architecture\": \"all\",\n    \"description\": \"Shortcut\",\n    \"framework\": \"ubuntu-sdk-16.04\",\n    \"hooks\": {\n        \""@;
    let key = manifest_hooks_key_of(appname);
    let text = manifest_content_of(appname, title);
    let at: int = pre.len() as int;
    assert(text.subrange(at, at + key.len() as int) =~= key);
    assert(0 <= at && at + key.len() <= text.len() && text.subrange(at, at + key.len() as int)
        == key);
}

/// The full text of the Debian-style control file for a given identifier.
pub open spec fn control_content_of(appname: Seq<char>) -> Seq<char> {
    "Package: "@ + control_package_of(appname)
        + "\nVersion: 1.0.0\nClick-Version: 0.4\nArchitecture: all\nMaintainer: Webber <noreply@ubports.com>\nDescription: Shortcut\n"@
}

/// Builds the control file: package name, fixed version, click format
/// version, architecture, maintainer and description.
pub fn control_control_content(appname: &str) -> (r: String)
    ensures
        r@ == control_content_of(appname@),
{
    let mut r = "Package: ".to_owned();
    r.append(appname);
    r.append(".webber");
    r.append(
        "\nVersion: 1.0.0\nClick-Version: 0.4\nArchitecture: all\nMaintainer: Webber <noreply@ubports.com>\nDescription: Shortcut\n",
    );
    proof {
        assert(r@ =~= control_content_of(appname@));
    }
    r
}

/// The full text of the JSON manifest for a given identifier and display
/// title.
pub open spec fn manifest_content_of(appname: Seq<char>, title: Seq<char>) -> Seq<char> {
    "{\n    \"architecture\": \"all\",\n    \"description\": \"Shortcut\",\n    \"framework\": \"ubuntu-sdk-16.04\",\n    \"hooks\": {\n        \""@
        + manifest_hooks_key_of(appname)
        + "\": {\n            \"apparmor\": \"shortcut.apparmor\",\n            \"desktop\": \"shortcut.desktop\"\n        }\n    },\n    \"installed-size\": \"30\",\n    \"maintainer\": \"Webber <noreply@ubports.com>\",\n    \"name\": \""@
        + control_package_of(appname) + "\",\n    \"title\": \""@ + title
        + "\",\n    \"version\": \"1.0.0\"\n}\n"@
}

/// Builds the JSON manifest: architecture, description, target framework,
/// the hooks table keyed by the package name, nominal installed size,
/// maintainer, package name, display title and version.
pub fn control_manifest_content(appname: &str, title: &str) -> (r: String)
    ensures
        r@ == manifest_content_of(appname@, title@),
{
    let mut r =
        "{\n    \"architecture\": \"all\",\n    \"description\": \"Shortcut\",\n    \"framework\": \"ubuntu-sdk-16.04\",\n    \"hooks\": {\n        \"".to_owned();
    r.append(appname);
    r.append(".webber");
    r.append(
        "\": {\n            \"apparmor\": \"shortcut.apparmor\",\n            \"desktop\": \"shortcut.desktop\"\n        }\n    },\n    \"installed-size\": \"30\",\n    \"maintainer\": \"Webber <noreply@ubports.com>\",\n    \"name\": \"",
    );
    r.append(appname);
    r.append(".webber");
    r.append("\",\n    \"title\": \"");
    r.append(title);
    r.append("\",\n    \"version\": \"1.0.0\"\n}\n");
    proof {
        assert(r@ =~= manifest_content_of(appname@, title@));
    }
    r
}

/// The fixed text of the pre-install guard script.
pub open spec fn preinst_content_of() -> Seq<char> {
    "#! /bin/sh\necho \"Click packages may not be installed directly using dpkg.\"\necho \"Use 'click install' instead.\"\nexit 1"@
}

/// The pre-install guard script: refuses direct installation and exits
/// non-zero, pointing at the dedicated installer instead.
pub fn control_preinst_content() -> (r: &'static str)
    ensures
        r@ == preinst_content_of(),
{
    "#! /bin/sh\necho \"Click packages may not be installed directly using dpkg.\"\necho \"Use 'click install' instead.\"\nexit 1"
}

/// The fixed text of the JSON confinement policy profile.
pub open spec fn apparmor_content_of() -> Seq<char> {
    "{\n    \"template\": \"ubuntu-webapp\",\n    \"policy_groups\": [\n        \"networking\",\n        \"webview\"\n    ],\n    \"policy_version\": 16.04\n}\n"@
}

/// The confinement policy profile: fixed template, the `networking` and
/// `webview` policy groups, and the fixed policy version.
pub fn data_apparmor_content() -> (r: &'static str)
    ensures
        r@ == apparmor_content_of(),
{
    "{\n    \"template\": \"ubuntu-webapp\",\n    \"policy_groups\": [\n        \"networking\",\n        \"webview\"\n    ],\n    \"policy_version\": 16.04\n}\n"
}

/// The full text of the desktop entry for the given title, site URL,
/// URL-pattern expression, icon file name and theme color.
pub open spec fn desktop_content_of(
    title: Seq<char>,
    url: Seq<char>,
    url_patterns: Seq<char>,
    icon_fname: Seq<char>,
    theme_color: Seq<char>,
) -> Seq<char> {
    "[Desktop Entry]\nName="@ + title + "\nExec=webapp-container --webappUrlPatterns="@
        + url_patterns + " --store-session-cookies "@ + url + "\nIcon="@ + icon_fname
        + "\nTerminal=false\nType=Application\nX-Ubuntu-Touch=true\nX-Ubuntu-Splash-Color="@
        + theme_color + "\n"@
}

/// Builds the desktop entry: display name, the launcher invocation with the
/// URL-pattern expression and the original URL as arguments, the icon file
/// reference, fixed terminal/type flags and the splash color.
pub fn data_desktop_content(
    title: &str,
    url: &str,
    url_patterns: &str,
    icon_fname: &str,
    theme_color: &str,
) -> (r: String)
    ensures
        r@ == desktop_content_of(title@, url@, url_patterns@, icon_fname@, theme_color@),
{
    let mut r = "[Desktop Entry]\nName=".to_owned();
    r.append(title);
    r.append("\nExec=webapp-container --webappUrlPatterns=");
    r.append(url_patterns);
    r.append(" --store-session-cookies ");
    r.append(url);
    r.append("\nIcon=");
    r.append(icon_fname);
    r.append("\nTerminal=false\nType=Application\nX-Ubuntu-Touch=true\nX-Ubuntu-Splash-Color=");
    r.append(theme_color);
    r.append("\n");
    proof {
        assert(r@ =~= desktop_content_of(title@, url@, url_patterns@, icon_fname@, theme_color@));
    }
    r
}

} // verus!
