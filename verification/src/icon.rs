//! Icon resolution: decides, from the icon URL alone, whether the icon is
//! fetched from the network or taken from the bundled fallback image, and
//! under which file name it is staged.

use vstd::prelude::*;
use vstd::string::*;
use vstd::utf8::encode_utf8;
use crate::archive::valid_entry_name;
use crate::urlinfo::{url_last_segment, url_last_segment_of};

verus! {

/// The index of the last `.` in `s`, or `-1` if `s` has none.
pub open spec fn last_dot(s: Seq<char>) -> int
    decreases s.len(),
{
    if s.len() == 0 {
        -1
    } else if s[s.len() - 1] == '.' {
        s.len() - 1
    } else {
        last_dot(s.drop_last())
    }
}

/// The dot-delimited suffix of `s`: everything after the last `.`.
pub open spec fn suffix_after_dot(s: Seq<char>) -> Seq<char> {
    s.subrange(last_dot(s) + 1, s.len() as int)
}

/// The last dot sits inside the string.
pub proof fn lemma_last_dot_in_range(s: Seq<char>)
    ensures
        -1 <= last_dot(s) < s.len(),
    decreases s.len(),
{
    if s.len() > 0 && s[s.len() - 1] != '.' {
        lemma_last_dot_in_range(s.drop_last());
    }
}

/// The icon is fetched exactly when the icon URL has a last path segment
/// with a dot-delimited suffix.
pub open spec fn icon_is_fetched(icon_url: Seq<char>) -> bool {
    match url_last_segment_of(icon_url) {
        Some(seg) => last_dot(seg) >= 0,
        None => false,
    }
}

/// The staged icon's file name: `icon.<suffix>` for a fetched icon,
/// `icon.svg` for the bundled fallback.
pub open spec fn icon_file_name_of(icon_url: Seq<char>) -> Seq<char> {
    if icon_is_fetched(icon_url) {
        "icon."@ + suffix_after_dot(url_last_segment_of(icon_url)->Some_0)
    } else {
        "icon.svg"@
    }
}

/// How the icon is obtained: fetched from the icon URL, or written from the
/// bundled fallback image. Either way the chosen staging file name is
/// carried along.
pub enum IconPlan {
    Fetch { file_name: String },
    Bundled { file_name: String },
}

impl IconPlan {
    /// The staging file name this plan chose.
    pub open spec fn spec_file_name(&self) -> Seq<char> {
        match self {
            IconPlan::Fetch { file_name } => file_name@,
            IconPlan::Bundled { file_name } => file_name@,
        }
    }

    /// Returns the staging file name this plan chose.
    pub fn file_name(&self) -> (r: &String)
        ensures
            r@ == self.spec_file_name(),
    {
        match self {
            IconPlan::Fetch { file_name } => file_name,
            IconPlan::Bundled { file_name } => file_name,
        }
    }
}

/// Finds the position of the last `.` in `s`, if any.
fn find_last_dot(s: &str) -> (r: Option<usize>)
    ensures
        r matches Some(k) ==> last_dot(s@) == k as int,
        r is None ==> last_dot(s@) == -1,
{
    let n: usize = s.unicode_len();
    let mut r: Option<usize> = None;
    let mut i: usize = 0;
    while i < n
        invariant
            n == s@.len(),
            i <= n,
            match r {
                Some(k) => last_dot(s@.subrange(0, i as int)) == k as int && k < i,
                None => last_dot(s@.subrange(0, i as int)) == -1,
            },
        decreases n - i,
    {
        let c = s.get_char(i);
        proof {
            assert(s@.subrange(0, i + 1).drop_last() =~= s@.subrange(0, i as int));
            assert(s@.subrange(0, i + 1)[i as int] == s@[i as int]);
        }
        if c == '.' {
            r = Some(i);
        }
        i = i + 1;
    }
    proof {
        assert(s@.subrange(0, n as int) =~= s@);
    }
    r
}

/// Decides how the icon is obtained. If the icon URL has a last path
/// segment with a dot-delimited suffix, the icon is to be fetched and
/// staged as `icon.<suffix>`; otherwise the bundled fallback is staged as
/// `icon.svg`. Never fails: a malformed icon URL degrades to the fallback.
pub fn icon_plan(icon_url: &str) -> (r: IconPlan)
    ensures
        r is Fetch <==> icon_is_fetched(icon_url@),
        r.spec_file_name() == icon_file_name_of(icon_url@),
        valid_entry_name(r.spec_file_name()),
{
    proof {
        reveal_strlit("icon.");
        reveal_strlit("icon.svg");
        reveal_strlit("..");
    }
    match url_last_segment(icon_url) {
        Some(seg) => {
            match find_last_dot(seg.as_str()) {
                Some(k) => {
                    let n: usize = seg.as_str().unicode_len();
                    proof {
                        lemma_last_dot_in_range(seg@);
                    }
                    let ext = seg.as_str().substring_char(k + 1, n);
                    let mut fname = "icon.".to_owned();
                    fname.append(ext);
                    proof {
                        assert forall|i: int| 0 <= i < fname@.len() implies (#[trigger] fname@[i])
                            != '/' && fname@[i] as u32 != 0 by {
                            if i >= 5 {
                                assert(fname@[i] == seg@[last_dot(seg@) + 1 + i - 5]);
                            }
                        }
                        assert(fname@ != ".."@) by {
                            assert(fname@.len() >= 5);
                        }
                    }
                    IconPlan::Fetch { file_name: fname }
                },
                None => IconPlan::Bundled { file_name: "icon.svg".to_owned() },
            }
        },
        None => IconPlan::Bundled { file_name: "icon.svg".to_owned() },
    }
}

/// The characters of the bundled fallback icon, a small neutral vector
/// image used when no icon can be fetched.
pub open spec fn bundled_icon_of() -> Seq<char> {
    "<?xml version=\"1.0\" encoding=\"UTF-8\"?>\n<svg xmlns=\"http://www.w3.org/2000/svg\" width=\"256\" height=\"256\" viewBox=\"0 0 256 256\"><rect width=\"256\" height=\"256\" rx=\"32\" fill=\"#808080\"/><circle cx=\"128\" cy=\"128\" r=\"72\" fill=\"#ffffff\"/></svg>\n"@
}

/// The bytes of the bundled fallback icon.
pub open spec fn bundled_icon_bytes() -> Seq<u8> {
    encode_utf8(bundled_icon_of())
}

/// Loads the bundled fallback icon image.
pub fn load() -> (r: Vec<u8>)
    ensures
        r@ == bundled_icon_bytes(),
{
    "<?xml version=\"1.0\" encoding=\"UTF-8\"?>\n<svg xmlns=\"http://www.w3.org/2000/svg\" width=\"256\" height=\"256\" viewBox=\"0 0 256 256\"><rect width=\"256\" height=\"256\" rx=\"32\" fill=\"#808080\"/><circle cx=\"128\" cy=\"128\" r=\"72\" fill=\"#ffffff\"/></svg>\n".as_bytes_vec()
}

} // verus!
