//! Verified core of a web-app packager: it turns a description of a web site
//! (URL, display name, theme color, icon source, URL patterns) into the bytes
//! of an installable `.click` package, an ar-style container holding two
//! gzip-compressed tarballs and two format-marker members.

pub mod archive;
pub mod click;
pub mod content;
pub mod icon;
pub mod ident;
pub mod urlinfo;
