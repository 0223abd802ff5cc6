//! The package request and the pipeline that turns it into the bytes of the
//! finished package: staged file lists, the two tarballs, and the final
//! four-member container.

use vstd::prelude::*;
use vstd::string::*;
use vstd::utf8::encode_utf8;
use crate::archive::{
    ar_archive, ar_of, entries_view, io_error_message, tar_gz, targz_of, valid_entry_name,
};
use crate::content::{
    apparmor_content_of, control_content_of, control_control_content, control_manifest_content,
    control_preinst_content, data_apparmor_content, data_desktop_content, desktop_content_of,
    manifest_content_of, preinst_content_of,
};
use crate::ident::{allowed_ident_char, lemma_sanitize_chars_allowed, sanitize, sanitized_ident};
use crate::urlinfo::{url_host, url_host_of};

verus! {

/// One request to build a package: the web site's address, the display
/// title, a theme color token, the icon source, and a URL-pattern
/// expression. All fields are taken verbatim from the caller.
#[derive(Debug)]
pub struct Package {
    pub url: String,
    pub name: String,
    pub theme_color: String,
    pub icon_url: String,
    pub url_patterns: String,
}

/// The string the identifier is derived from: the URL's host if it has one,
/// otherwise the raw URL.
pub open spec fn base_of(url: Seq<char>) -> Seq<char> {
    match url_host_of(url) {
        Some(h) => h,
        None => url,
    }
}

/// The package identifier derived from a URL: `webapp-` followed by the
/// sanitized host (or sanitized raw URL, if no host can be extracted).
pub open spec fn appname_of(url: Seq<char>) -> Seq<char> {
    "webapp-"@ + sanitize(base_of(url))
}

impl Package {
    /// Derives the package identifier from this request's URL. Never fails:
    /// a URL without an extractable host degrades to sanitizing the raw
    /// string.
    pub fn appname(&self) -> (r: String)
        ensures
            r@ == appname_of(self.url@),
    {
        let base: String = match url_host(self.url.as_str()) {
            Some(h) => h,
            None => self.url.clone(),
        };
        sanitized_ident(base.as_str())
    }
}

/// The identifier is a pure function of the URL: deriving it twice from the
/// same URL yields the same string.
pub proof fn lemma_appname_deterministic(u1: Seq<char>, u2: Seq<char>)
    requires
        u1 == u2,
    ensures
        appname_of(u1) == appname_of(u2),
{
}

/// Every derived identifier starts with `webapp-`, and every one of its
/// characters is a lowercase letter, a digit, or a hyphen.
pub proof fn lemma_appname_shape(url: Seq<char>)
    ensures
        appname_of(url).len() >= 7,
        appname_of(url).subrange(0, 7) == "webapp-"@,
        forall|i: int|
            0 <= i < appname_of(url).len() ==> #[trigger] allowed_ident_char(appname_of(url)[i]),
{
    reveal_strlit("webapp-");
    let p = "webapp-"@;
    let t = sanitize(base_of(url));
    lemma_sanitize_chars_allowed(base_of(url));
    assert(appname_of(url).subrange(0, 7) =~= p);
    assert forall|i: int| 0 <= i < appname_of(url).len() implies #[trigger] allowed_ident_char(
        appname_of(url)[i],
    ) by {
        if i < 7 {
            assert(appname_of(url)[i] == p[i]);
        } else {
            assert(appname_of(url)[i] == t[i - 7]);
            assert(allowed_ident_char(t[i - 7]));
        }
    }
}

/// A fatal failure of an archive-writing step: the variant names the step
/// that failed, and `cause` carries the underlying error's own description,
/// unchanged. Filesystem and network failures happen outside this core and
/// are reported by the caller.
#[derive(Debug)]
pub enum BuildError {
    ControlTarball { cause: String },
    DataTarball { cause: String },
    Container { cause: String },
}

impl BuildError {
    /// The diagnostic text for this failure: the failed step, then the
    /// underlying cause.
    pub open spec fn spec_message(&self) -> Seq<char> {
        match self {
            BuildError::ControlTarball { cause } => "could not build control.tar.gz: "@ + cause@,
            BuildError::DataTarball { cause } => "could not build data.tar.gz: "@ + cause@,
            BuildError::Container { cause } => "could not assemble the package container: "@
                + cause@,
        }
    }

    /// Returns the diagnostic text for this failure.
    pub fn message(&self) -> (r: String)
        ensures
            r@ == self.spec_message(),
    {
        match self {
            BuildError::ControlTarball { cause } => {
                let mut r = "could not build control.tar.gz: ".to_owned();
                r.append(cause.as_str());
                r
            },
            BuildError::DataTarball { cause } => {
                let mut r = "could not build data.tar.gz: ".to_owned();
                r.append(cause.as_str());
                r
            },
            BuildError::Container { cause } => {
                let mut r = "could not assemble the package container: ".to_owned();
                r.append(cause.as_str());
                r
            },
        }
    }
}

/// The named files of the control subtree: the control file and the
/// manifest, in that order.
pub open spec fn control_files_of(appname: Seq<char>, title: Seq<char>) -> Seq<
    (Seq<char>, Seq<u8>),
> {
    seq![
        ("control"@, encode_utf8(control_content_of(appname))),
        ("manifest"@, encode_utf8(manifest_content_of(appname, title))),
    ]
}

/// The named files of the data subtree: the pre-install guard, the
/// confinement profile, the icon, and the desktop entry, in that order.
pub open spec fn data_files_of(pkg: Package, icon_fname: Seq<char>, icon_bytes: Seq<u8>) -> Seq<
    (Seq<char>, Seq<u8>),
> {
    seq![
        ("preinst"@, encode_utf8(preinst_content_of())),
        ("shortcut.apparmor"@, encode_utf8(apparmor_content_of())),
        (icon_fname, icon_bytes),
        (
            "shortcut.desktop"@,
            encode_utf8(
                desktop_content_of(
                    pkg.name@,
                    pkg.url@,
                    pkg.url_patterns@,
                    icon_fname,
                    pkg.theme_color@,
                ),
            ),
        ),
    ]
}

/// Builds the control subtree's files for the given identifier and title.
pub fn control_entries(appname: &str, title: &str) -> (r: Vec<(String, Vec<u8>)>)
    ensures
        entries_view(r@) == control_files_of(appname@, title@),
{
    let mut v: Vec<(String, Vec<u8>)> = Vec::new();
    let control = control_control_content(appname);
    v.push(("control".to_owned(), control.as_str().as_bytes_vec()));
    let manifest = control_manifest_content(appname, title);
    v.push(("manifest".to_owned(), manifest.as_str().as_bytes_vec()));
    proof {
        assert(entries_view(v@) =~~= control_files_of(appname@, title@));
    }
    v
}

/// Builds the data subtree's files for the given request, staging the icon
/// bytes verbatim under the given icon file name.
pub fn data_entries(pkg: &Package, icon_fname: &str, icon_bytes: Vec<u8>) -> (r: Vec<
    (String, Vec<u8>),
>)
    ensures
        entries_view(r@) == data_files_of(*pkg, icon_fname@, icon_bytes@),
{
    let mut v: Vec<(String, Vec<u8>)> = Vec::new();
    v.push(("preinst".to_owned(), control_preinst_content().as_bytes_vec()));
    v.push(("shortcut.apparmor".to_owned(), data_apparmor_content().as_bytes_vec()));
    let ghost staged_icon = icon_bytes@;
    v.push((icon_fname.to_owned(), icon_bytes));
    let desktop = data_desktop_content(
        pkg.name.as_str(),
        pkg.url.as_str(),
        pkg.url_patterns.as_str(),
        icon_fname,
        pkg.theme_color.as_str(),
    );
    v.push(("shortcut.desktop".to_owned(), desktop.as_str().as_bytes_vec()));
    proof {
        assert(entries_view(v@) =~~= data_files_of(*pkg, icon_fname@, staged_icon));
    }
    v
}

/// The four members of the finished container, in their fixed order: the
/// format marker, the control tarball, the data tarball, and the click
/// format marker.
pub open spec fn members_of(control_tgz: Seq<u8>, data_tgz: Seq<u8>) -> Seq<(Seq<char>, Seq<u8>)> {
    seq![
        ("debian-binary"@, encode_utf8("2.0\n"@)),
        ("control.tar.gz"@, control_tgz),
        ("data.tar.gz"@, data_tgz),
        ("_click-binary"@, encode_utf8("0.4\n"@)),
    ]
}

/// Assembles the container's member list: always exactly four members,
/// named `debian-binary`, `control.tar.gz`, `data.tar.gz` and
/// `_click-binary`, in that order, whatever the tarballs hold.
pub fn container_members(control_tgz: Vec<u8>, data_tgz: Vec<u8>) -> (r: Vec<(String, Vec<u8>)>)
    ensures
        entries_view(r@) == members_of(control_tgz@, data_tgz@),
        r@.len() == 4,
{
    let mut v: Vec<(String, Vec<u8>)> = Vec::new();
    v.push(("debian-binary".to_owned(), "2.0\n".as_bytes_vec()));
    v.push(("control.tar.gz".to_owned(), control_tgz));
    v.push(("data.tar.gz".to_owned(), data_tgz));
    v.push(("_click-binary".to_owned(), "0.4\n".as_bytes_vec()));
    proof {
        assert(entries_view(v@) =~~= members_of(control_tgz@, data_tgz@));
    }
    v
}

/// The bytes of the finished package for a request and a resolved icon: an
/// ar-style container of exactly four members in fixed order, the two
/// middle ones the gzip-compressed tarballs of the staged subtrees.
pub open spec fn click_bytes_of(pkg: Package, icon_fname: Seq<char>, icon_bytes: Seq<u8>) -> Seq<
    u8,
> {
    ar_of(
        members_of(
            targz_of(control_files_of(appname_of(pkg.url@), pkg.name@)),
            targz_of(data_files_of(pkg, icon_fname, icon_bytes)),
        ),
    )
}

/// Every fixed staging file name is one the tar writer accepts.
proof fn lemma_fixed_names_valid()
    ensures
        valid_entry_name("control"@),
        valid_entry_name("manifest"@),
        valid_entry_name("preinst"@),
        valid_entry_name("shortcut.apparmor"@),
        valid_entry_name("shortcut.desktop"@),
{
    reveal_strlit("control");
    reveal_strlit("manifest");
    reveal_strlit("preinst");
    reveal_strlit("shortcut.apparmor");
    reveal_strlit("shortcut.desktop");
    reveal_strlit("..");
    assert(forall|i: int|
        0 <= i < "control"@.len() ==> (#[trigger] "control"@[i]) != '/' && "control"@[i] as u32
            != 0);
    assert(forall|i: int|
        0 <= i < "manifest"@.len() ==> (#[trigger] "manifest"@[i]) != '/' && "manifest"@[i] as u32
            != 0);
    assert(forall|i: int|
        0 <= i < "preinst"@.len() ==> (#[trigger] "preinst"@[i]) != '/' && "preinst"@[i] as u32
            != 0);
    assert(forall|i: int|
        0 <= i < "shortcut.apparmor"@.len() ==> (#[trigger] "shortcut.apparmor"@[i]) != '/'
            && "shortcut.apparmor"@[i] as u32 != 0);
    assert(forall|i: int|
        0 <= i < "shortcut.desktop"@.len() ==> (#[trigger] "shortcut.desktop"@[i]) != '/'
            && "shortcut.desktop"@[i] as u32 != 0);
}

/// Builds the finished package bytes from a request and the resolved icon.
/// On success the result is exactly the four-member container over the two
/// tarballs of the staged files. Success is owed whenever the icon file
/// name is one the tar writer accepts — every name `icon_plan` produces is
/// — since all other staged names are fixed valid literals and the archives
/// are written in memory; a failure of an archive-writing step is reported
/// as that step, carrying the underlying cause's description.
pub fn create_package_bytes(pkg: &Package, icon_fname: &str, icon_bytes: Vec<u8>) -> (r: Result<
    Vec<u8>,
    BuildError,
>)
    ensures
        r matches Ok(b) ==> b@ == click_bytes_of(*pkg, icon_fname@, icon_bytes@),
        valid_entry_name(icon_fname@) ==> r is Ok,
{
    proof {
        lemma_fixed_names_valid();
    }
    let appname = pkg.appname();
    let control = control_entries(appname.as_str(), pkg.name.as_str());
    let ghost staged_icon = icon_bytes@;
    let data = data_entries(pkg, icon_fname, icon_bytes);
    proof {
        lemma_fixed_names_valid();
        let cf = entries_view(control@);
        assert forall|i: int| 0 <= i < cf.len() implies valid_entry_name(
            #[trigger] cf[i].0,
        ) by {
            if i == 0 {
                assert(cf[0].0 == "control"@);
            } else {
                assert(cf[1].0 == "manifest"@);
            }
        }
        if valid_entry_name(icon_fname@) {
            let df = entries_view(data@);
            assert forall|i: int| 0 <= i < df.len() implies valid_entry_name(
                #[trigger] df[i].0,
            ) by {
                if i == 0 {
                    assert(df[0].0 == "preinst"@);
                } else if i == 1 {
                    assert(df[1].0 == "shortcut.apparmor"@);
                } else if i == 2 {
                    assert(df[2].0 == icon_fname@);
                } else {
                    assert(df[3].0 == "shortcut.desktop"@);
                }
            }
        }
    }
    let control_tgz = match tar_gz(&control) {
        Ok(b) => b,
        Err(e) => {
            return Err(BuildError::ControlTarball { cause: io_error_message(&e) });
        },
    };
    let data_tgz = match tar_gz(&data) {
        Ok(b) => b,
        Err(e) => {
            return Err(BuildError::DataTarball { cause: io_error_message(&e) });
        },
    };
    let members = container_members(control_tgz, data_tgz);
    match ar_archive(&members) {
        Ok(b) => Ok(b),
        Err(e) => Err(BuildError::Container { cause: io_error_message(&e) }),
    }
}

/// A name with no directory separator in it.
pub open spec fn bare_name(s: Seq<char>) -> bool {
    forall|i: int| 0 <= i < s.len() ==> s[i] != '/'
}

/// Every entry of the list is stored under a bare file name.
pub open spec fn entries_rooted(es: Seq<(Seq<char>, Seq<u8>)>) -> bool {
    forall|e: int| 0 <= e < es.len() ==> bare_name(#[trigger] es[e].0)
}

/// Both tarballs unpack directly at the archive root: every entry of the
/// control tarball and of the data tarball is stored under a bare file
/// name, never under a subtree-name prefix.
pub proof fn lemma_tarball_entries_rooted(
    appname: Seq<char>,
    title: Seq<char>,
    pkg: Package,
    icon_fname: Seq<char>,
    icon_bytes: Seq<u8>,
)
    requires
        bare_name(icon_fname),
    ensures
        entries_rooted(control_files_of(appname, title)),
        entries_rooted(data_files_of(pkg, icon_fname, icon_bytes)),
{
    reveal_strlit("control");
    reveal_strlit("manifest");
    reveal_strlit("preinst");
    reveal_strlit("shortcut.apparmor");
    reveal_strlit("shortcut.desktop");
    assert(bare_name("control"@));
    assert(bare_name("manifest"@));
    assert(bare_name("preinst"@));
    assert(bare_name("shortcut.apparmor"@));
    assert(bare_name("shortcut.desktop"@));
}

/// A build depends on its own request and resolved icon alone: two builds
/// from equal inputs yield byte-identical packages, and what an earlier
/// build did cannot show up in a later one.
pub proof fn lemma_build_independent(
    p1: Package,
    p2: Package,
    f1: Seq<char>,
    f2: Seq<char>,
    b1: Seq<u8>,
    b2: Seq<u8>,
)
    requires
        p1.url@ == p2.url@,
        p1.name@ == p2.name@,
        p1.theme_color@ == p2.theme_color@,
        p1.url_patterns@ == p2.url_patterns@,
        f1 == f2,
        b1 == b2,
    ensures
        click_bytes_of(p1, f1, b1) == click_bytes_of(p2, f2, b2),
{
    assert(control_files_of(appname_of(p1.url@), p1.name@) =~~= control_files_of(
        appname_of(p2.url@),
        p2.name@,
    ));
    assert(data_files_of(p1, f1, b1) =~~= data_files_of(p2, f2, b2));
}

} // verus!
