use std::io::Read;

use webber::click::{
    container_members, create_package_bytes, control_entries, data_entries, BuildError, Package,
};
use webber::content::{
    control_control_content, control_manifest_content, control_preinst_content,
    data_apparmor_content, data_desktop_content,
};
use webber::icon::{icon_plan, load, IconPlan};

fn request(url: &str, name: &str, icon_url: &str) -> Package {
    Package {
        url: url.to_string(),
        name: name.to_string(),
        theme_color: "#ffffff".to_string(),
        icon_url: icon_url.to_string(),
        url_patterns: "https://example.com/*".to_string(),
    }
}

#[test]
fn appname_from_host_is_sanitized() {
    let pkg = request("https://Example.COM/path", "Example", "");
    assert_eq!(pkg.appname(), "webapp-example-com");
}

#[test]
fn appname_twice_is_identical() {
    let pkg = request("https://Example.COM/path", "Example", "");
    assert_eq!(pkg.appname(), pkg.appname());
}

#[test]
fn appname_falls_back_to_raw_string() {
    let pkg = request("not a url", "X", "");
    assert_eq!(pkg.appname(), "webapp-notaurl");
}

#[test]
fn appname_drops_the_letter_z() {
    // The sanitizer's kept range excludes `z` itself.
    let pkg = request("https://zebra.zoo", "X", "");
    assert_eq!(pkg.appname(), "webapp-ebra-oo");
}

#[test]
fn appname_maps_underscore_and_dot_to_hyphen() {
    let pkg = request("some_site.example", "X", "");
    assert_eq!(pkg.appname(), "webapp-some-site-example");
}

#[test]
fn appname_chars_are_lowercase_digits_or_hyphen() {
    for url in [
        "https://Example.COM/path",
        "HTTP://WEIRD_Host.example:8080/x?y=1",
        "ftp://user@127.0.0.1/dir",
        "no scheme at all &%$",
    ] {
        let pkg = request(url, "X", "");
        let appname = pkg.appname();
        assert!(appname.starts_with("webapp-"));
        assert!(appname
            .chars()
            .all(|c| c.is_ascii_lowercase() || c.is_ascii_digit() || c == '-'));
    }
}

#[test]
fn control_content_exact() {
    let text = control_control_content("webapp-example-com");
    assert_eq!(
        text,
        "Package: webapp-example-com.webber\nVersion: 1.0.0\nClick-Version: 0.4\nArchitecture: all\nMaintainer: Webber <noreply@ubports.com>\nDescription: Shortcut\n"
    );
}

#[test]
fn manifest_content_exact() {
    let text = control_manifest_content("webapp-example-com", "My App");
    assert_eq!(
        text,
        "{\n    \"architecture\": \"all\",\n    \"description\": \"Shortcut\",\n    \"framework\": \"ubuntu-sdk-16.04\",\n    \"hooks\": {\n        \"webapp-example-com.webber\": {\n            \"apparmor\": \"shortcut.apparmor\",\n            \"desktop\": \"shortcut.desktop\"\n        }\n    },\n    \"installed-size\": \"30\",\n    \"maintainer\": \"Webber <noreply@ubports.com>\",\n    \"name\": \"webapp-example-com.webber\",\n    \"title\": \"My App\",\n    \"version\": \"1.0.0\"\n}\n"
    );
}

#[test]
fn manifest_hooks_key_matches_control_package_value() {
    let appname = "webapp-example-com";
    let control = control_control_content(appname);
    let manifest = control_manifest_content(appname, "My App");
    let key = format!("{}.webber", appname);
    assert!(control.contains(&format!("Package: {}\n", key)));
    assert!(manifest.contains(&format!("\"{}\": {{", key)));
    assert!(manifest.contains(&format!("\"name\": \"{}\"", key)));
}

#[test]
fn preinst_content_exact() {
    assert_eq!(
        control_preinst_content(),
        "#! /bin/sh\necho \"Click packages may not be installed directly using dpkg.\"\necho \"Use 'click install' instead.\"\nexit 1"
    );
}

#[test]
fn apparmor_content_exact() {
    assert_eq!(
        data_apparmor_content(),
        "{\n    \"template\": \"ubuntu-webapp\",\n    \"policy_groups\": [\n        \"networking\",\n        \"webview\"\n    ],\n    \"policy_version\": 16.04\n}\n"
    );
}

#[test]
fn desktop_content_exact() {
    let text = data_desktop_content(
        "My App",
        "https://example.com",
        "https://example.com/*",
        "icon.png",
        "#aabbcc",
    );
    assert_eq!(
        text,
        "[Desktop Entry]\nName=My App\nExec=webapp-container --webappUrlPatterns=https://example.com/* --store-session-cookies https://example.com\nIcon=icon.png\nTerminal=false\nType=Application\nX-Ubuntu-Touch=true\nX-Ubuntu-Splash-Color=#aabbcc\n"
    );
}

#[test]
fn icon_plan_fetches_png() {
    match icon_plan("https://example.com/assets/logo.png") {
        IconPlan::Fetch { file_name } => assert_eq!(file_name, "icon.png"),
        IconPlan::Bundled { .. } => panic!("expected a fetch plan"),
    }
}

#[test]
fn icon_plan_takes_last_suffix() {
    match icon_plan("https://example.com/logo.tar.gz") {
        IconPlan::Fetch { file_name } => assert_eq!(file_name, "icon.gz"),
        IconPlan::Bundled { .. } => panic!("expected a fetch plan"),
    }
}

#[test]
fn icon_plan_keeps_empty_suffix_after_trailing_dot() {
    match icon_plan("https://example.com/file.") {
        IconPlan::Fetch { file_name } => assert_eq!(file_name, "icon."),
        IconPlan::Bundled { .. } => panic!("expected a fetch plan"),
    }
}

#[test]
fn icon_plan_defaults_without_suffix() {
    match icon_plan("https://example.com/icon") {
        IconPlan::Bundled { file_name } => assert_eq!(file_name, "icon.svg"),
        IconPlan::Fetch { .. } => panic!("expected the bundled fallback"),
    }
}

#[test]
fn icon_plan_defaults_without_path_segments() {
    match icon_plan("not a url") {
        IconPlan::Bundled { file_name } => assert_eq!(file_name, "icon.svg"),
        IconPlan::Fetch { .. } => panic!("expected the bundled fallback"),
    }
}

#[test]
fn icon_plan_defaults_on_empty_segment() {
    match icon_plan("https://example.com/") {
        IconPlan::Bundled { file_name } => assert_eq!(file_name, "icon.svg"),
        IconPlan::Fetch { .. } => panic!("expected the bundled fallback"),
    }
}

#[test]
fn bundled_icon_is_svg_text() {
    let bytes = load();
    let text = String::from_utf8(bytes).unwrap();
    assert!(text.starts_with("<?xml"));
    assert!(text.contains("<svg"));
}

fn read_ar_members(bytes: &[u8]) -> Vec<(String, Vec<u8>)> {
    let mut archive = ar::Archive::new(bytes);
    let mut members = Vec::new();
    while let Some(entry) = archive.next_entry() {
        let mut entry = entry.unwrap();
        let name = String::from_utf8(entry.header().identifier().to_vec()).unwrap();
        let mut content = Vec::new();
        entry.read_to_end(&mut content).unwrap();
        members.push((name, content));
    }
    members
}

fn read_tar_gz(bytes: &[u8]) -> Vec<(String, Vec<u8>)> {
    let mut archive = tar::Archive::new(flate2::read::GzDecoder::new(bytes));
    let mut entries = Vec::new();
    for entry in archive.entries().unwrap() {
        let mut entry = entry.unwrap();
        let name = entry.path().unwrap().to_str().unwrap().to_string();
        let mut content = Vec::new();
        entry.read_to_end(&mut content).unwrap();
        entries.push((name, content));
    }
    entries
}

#[test]
fn container_has_four_members_in_fixed_order() {
    let pkg = request("https://example.com", "My App", "");
    let bytes = create_package_bytes(&pkg, "icon.svg", load()).unwrap();
    let members = read_ar_members(&bytes);
    let names: Vec<&str> = members.iter().map(|m| m.0.as_str()).collect();
    assert_eq!(
        names,
        ["debian-binary", "control.tar.gz", "data.tar.gz", "_click-binary"]
    );
    assert_eq!(members[0].1, b"2.0\n");
    assert_eq!(members[3].1, b"0.4\n");
}

#[test]
fn tarballs_unpack_at_the_archive_root() {
    let pkg = request("https://example.com", "My App", "");
    let icon = vec![1u8, 2, 3];
    let bytes = create_package_bytes(&pkg, "icon.png", icon).unwrap();
    let members = read_ar_members(&bytes);

    let control = read_tar_gz(&members[1].1);
    let control_names: Vec<&str> = control.iter().map(|e| e.0.as_str()).collect();
    assert_eq!(control_names, ["control", "manifest"]);

    let data = read_tar_gz(&members[2].1);
    let data_names: Vec<&str> = data.iter().map(|e| e.0.as_str()).collect();
    assert_eq!(
        data_names,
        ["preinst", "shortcut.apparmor", "icon.png", "shortcut.desktop"]
    );
}

#[test]
fn staged_files_hold_the_generated_contents() {
    let pkg = request("https://example.com", "My App", "");
    let icon = vec![9u8, 8, 7, 6];
    let bytes = create_package_bytes(&pkg, "icon.png", icon.clone()).unwrap();
    let members = read_ar_members(&bytes);

    let appname = pkg.appname();
    let control = read_tar_gz(&members[1].1);
    assert_eq!(control[0].1, control_control_content(&appname).into_bytes());
    assert_eq!(
        control[1].1,
        control_manifest_content(&appname, &pkg.name).into_bytes()
    );

    let data = read_tar_gz(&members[2].1);
    assert_eq!(data[0].1, control_preinst_content().as_bytes());
    assert_eq!(data[1].1, data_apparmor_content().as_bytes());
    assert_eq!(data[2].1, icon, "the staged icon bytes equal the fetched bytes");
    assert_eq!(
        data[3].1,
        data_desktop_content(
            &pkg.name,
            &pkg.url,
            &pkg.url_patterns,
            "icon.png",
            &pkg.theme_color
        )
        .into_bytes()
    );
}

#[test]
fn entry_lists_match_their_contents() {
    let control = control_entries("webapp-example-com", "My App");
    assert_eq!(control.len(), 2);
    assert_eq!(control[0].0, "control");
    assert_eq!(
        control[0].1,
        control_control_content("webapp-example-com").into_bytes()
    );

    let pkg = request("https://example.com", "My App", "");
    let data = data_entries(&pkg, "icon.svg", load());
    assert_eq!(data.len(), 4);
    assert_eq!(data[2].0, "icon.svg");
    assert_eq!(data[2].1, load());
}

#[test]
fn member_list_is_fixed_whatever_the_tarballs_hold() {
    let members = container_members(vec![0xde, 0xad], vec![0xbe, 0xef]);
    assert_eq!(members.len(), 4);
    assert_eq!(members[0].0, "debian-binary");
    assert_eq!(members[0].1, b"2.0\n");
    assert_eq!(members[1].0, "control.tar.gz");
    assert_eq!(members[1].1, vec![0xde, 0xad]);
    assert_eq!(members[2].0, "data.tar.gz");
    assert_eq!(members[2].1, vec![0xbe, 0xef]);
    assert_eq!(members[3].0, "_click-binary");
    assert_eq!(members[3].1, b"0.4\n");
}

#[test]
fn back_to_back_builds_are_independent() {
    let first = request("https://first.example", "First", "");
    let second = request("https://second.example", "Second", "");

    let first_bytes = create_package_bytes(&first, "icon.svg", load()).unwrap();
    let second_bytes = create_package_bytes(&second, "icon.png", vec![5u8, 5]).unwrap();

    // Each output equals a fresh, independent build of the same request.
    assert_eq!(
        first_bytes,
        create_package_bytes(&first, "icon.svg", load()).unwrap()
    );
    assert_eq!(
        second_bytes,
        create_package_bytes(&second, "icon.png", vec![5u8, 5]).unwrap()
    );
    assert_ne!(first_bytes, second_bytes);

    // The second build carries no residue of the first.
    let members = read_ar_members(&second_bytes);
    let control = read_tar_gz(&members[1].1);
    let text = String::from_utf8(control[0].1.clone()).unwrap();
    assert!(text.contains("webapp-second-example"));
    assert!(!text.contains("webapp-first-example"));
}

#[test]
fn build_error_messages_name_the_step_and_cause() {
    let control = BuildError::ControlTarball {
        cause: "stream closed".to_string(),
    };
    assert_eq!(
        control.message(),
        "could not build control.tar.gz: stream closed"
    );
    let data = BuildError::DataTarball {
        cause: "stream closed".to_string(),
    };
    assert_eq!(data.message(), "could not build data.tar.gz: stream closed");
    let container = BuildError::Container {
        cause: "stream closed".to_string(),
    };
    assert_eq!(
        container.message(),
        "could not assemble the package container: stream closed"
    );
}
