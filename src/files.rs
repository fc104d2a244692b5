//! Selecting configuration files by extension.
use vstd::prelude::*;

use crate::text::{str_eq, string_views};

verus! {

/// The extension of the file name of a path: what follows its last dot,
/// unless the name starts with that dot or has none.
pub uninterp spec fn extension_of(path: Seq<char>) -> Option<Seq<char>>;

/// Relies on std's `Path::extension`; an extension that is not UTF-8 is
/// treated as none.
#[verifier::external_body]
fn path_extension(path: &str) -> (r: Option<String>)
    ensures
        match r {
            Some(e) => extension_of(path@) == Some(e@),
            None => extension_of(path@) is None,
        },
{
    std::path::Path::new(path).extension().and_then(|e| e.to_str()).map(|e| e.to_owned())
}

/// The paths of `paths` whose extension is `suffix`, in their order; all of
/// them when there is no suffix.
pub open spec fn with_extension(paths: Seq<Seq<char>>, suffix: Option<Seq<char>>) -> Seq<Seq<char>>
    decreases paths.len(),
{
    if paths.len() == 0 {
        Seq::empty()
    } else {
        let rest = with_extension(paths.drop_last(), suffix);
        match suffix {
            Some(x) => if extension_of(paths.last()) == Some(x) {
                rest.push(paths.last())
            } else {
                rest
            },
            None => rest.push(paths.last()),
        }
    }
}

/// Keeps the paths with extension `suffix`, in order.
pub fn select_by_extension(paths: &Vec<String>, suffix: Option<&str>) -> (r: Vec<String>)
    ensures
        string_views(r@) == with_extension(
            string_views(paths@),
            match suffix {
                Some(x) => Some(x@),
                None => None,
            },
        ),
{
    let ghost want = match suffix {
        Some(x) => Some(x@),
        None => None,
    };
    let mut out: Vec<String> = Vec::new();
    let mut i: usize = 0;
    while i < paths.len()
        invariant
            i <= paths.len(),
            want == match suffix {
                Some(x) => Some(x@),
                None => None::<Seq<char>>,
            },
            string_views(out@) == with_extension(string_views(paths@).take(i as int), want),
        decreases paths.len() - i,
    {
        let p = &paths[i];
        let keep: bool = match suffix {
            Some(x) => match path_extension(p.as_str()) {
                Some(e) => str_eq(e.as_str(), x),
                None => false,
            },
            None => true,
        };
        let ghost before = string_views(out@);
        let ghost pre = string_views(paths@).take(i as int);
        let ghost next = string_views(paths@).take(i + 1);
        assert(next.drop_last() =~= pre);
        assert(next.last() == p@);
        if keep {
            out.push(p.clone());
            assert(string_views(out@) =~= before.push(p@));
        }
        i = i + 1;
    }
    assert(string_views(paths@).take(paths.len() as int) =~= string_views(paths@));
    out
}

} // verus!
