//! Where the media tools are looked for.
//!
//! A release carries its own ffmpeg and ffprobe, next to the executable or in
//! a `bin` folder beside it; Windows names them with `.exe`.
use vstd::prelude::*;
use crate::decode::Platform;
use crate::paths::{join_path, path_join};
use crate::text::{copy_str, str_eq, views};

verus! {

/// The file name a tool has on a platform.
pub open spec fn platform_name(name: Seq<char>, platform: Platform) -> Seq<char> {
    if platform == Platform::Windows && name == "ffmpeg"@ {
        "ffmpeg.exe"@
    } else if platform == Platform::Windows && name == "ffprobe"@ {
        "ffprobe.exe"@
    } else {
        name
    }
}

/// The file name a tool has on a platform.
pub fn platform_binary_name(name: &str, platform: Platform) -> (r: String)
    ensures
        r@ == platform_name(name@, platform),
{
    match platform {
        Platform::Windows => {
            if str_eq(name, "ffmpeg") {
                copy_str("ffmpeg.exe")
            } else if str_eq(name, "ffprobe") {
                copy_str("ffprobe.exe")
            } else {
                copy_str(name)
            }
        },
        _ => copy_str(name),
    }
}

/// The names a bundled tool may have: its platform name first, then the
/// plain name when that differs.
pub fn bundled_binary_names(name: &str, platform: Platform) -> (r: Vec<String>)
    ensures
        views(r@) == (if platform_name(name@, platform) == name@ {
            seq![name@]
        } else {
            seq![platform_name(name@, platform), name@]
        }),
{
    let platform_name_text = platform_binary_name(name, platform);
    let mut r: Vec<String> = Vec::new();
    if str_eq(platform_name_text.as_str(), name) {
        r.push(copy_str(name));
        assert(views(r@) =~= seq![name@]);
    } else {
        let ghost p = platform_name_text@;
        r.push(platform_name_text);
        r.push(copy_str(name));
        assert(views(r@) =~= seq![p, name@]);
    }
    r
}

/// The places a bundled tool is looked for in one directory: each name in
/// the directory itself, then in its `bin` folder.
pub open spec fn candidates_in(dir: Seq<char>, names: Seq<Seq<char>>) -> Seq<Seq<char>>
    decreases names.len(),
{
    if names.len() == 0 {
        Seq::empty()
    } else {
        candidates_in(dir, names.drop_last()) + seq![
            path_join(dir, names.last()),
            path_join(path_join(dir, "bin"@), names.last()),
        ]
    }
}

/// Adds the places a bundled tool is looked for in one directory.
pub fn push_binary_candidates(candidates: &mut Vec<String>, dir: &str, names: &Vec<String>)
    ensures
        views(final(candidates)@) == views(old(candidates)@) + candidates_in(dir@, views(names@)),
{
    let ghost start = views(candidates@);
    let mut i: usize = 0;
    assert(views(names@).subrange(0, 0) =~= Seq::<Seq<char>>::empty());
    assert(start + candidates_in(dir@, Seq::empty()) =~= start);
    while i < names.len()
        invariant
            i <= names@.len(),
            views(candidates@) == start + candidates_in(dir@, views(names@).subrange(0, i as int)),
        decreases names.len() - i,
    {
        let ghost prev = views(names@).subrange(0, i as int);
        let ghost next = views(names@).subrange(0, i + 1);
        assert(next.drop_last() =~= prev);
        assert(next.last() == names@[i as int]@);
        let ghost before = views(candidates@);
        let direct = join_path(dir, names[i].as_str());
        let bin = join_path(dir, "bin");
        let nested = join_path(bin.as_str(), names[i].as_str());
        let ghost a = direct@;
        let ghost b = nested@;
        candidates.push(direct);
        candidates.push(nested);
        assert(views(candidates@) =~= before + seq![a, b]);
        i = i + 1;
    }
    assert(views(names@).subrange(0, names@.len() as int) =~= views(names@));
}

} // verus!
