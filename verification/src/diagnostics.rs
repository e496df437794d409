//! Reading what went wrong when ffprobe failed on a file.
use vstd::prelude::*;
use crate::metadata::{contains_any_ic, contains_any_ignore_case};
use crate::text::{copy_str, lines, lower, lowered, split_lines, str_views, trim, trimmed};

verus! {

/// Diagnostics that mean the tool itself is broken or cannot run, rather
/// than that one file is unreadable.
pub open spec fn tool_failure_markers() -> Seq<Seq<char>> {
    seq![
        "unrecognized option"@,
        "option not found"@,
        "error while loading shared libraries"@,
        "failed to load"@,
        "could not load"@,
        "bad cpu type"@,
        "exec format"@,
        "access is denied"@,
        "access denied"@,
        "not a valid win32 application"@,
        "entry point"@,
    ]
}

/// Whether an ffprobe failure is the tool's fault rather than the file's:
/// it printed nothing, it was killed or exited with a negative code, or it
/// printed one of `tool_failure_markers`. `exit_code` is `None` when the
/// process ended without one.
pub open spec fn tool_failure(exit_code: Option<i32>, stderr: Seq<char>) -> bool {
    trim(lower(stderr)).len() == 0 || match exit_code {
        None => true,
        Some(c) => c < 0,
    } || contains_any_ic(stderr, tool_failure_markers())
}

/// Tells a broken ffprobe apart from an unreadable file; see `tool_failure`.
pub fn ffprobe_failure_is_infrastructure(exit_code: Option<i32>, stderr: &str) -> (r: bool)
    ensures
        r == tool_failure(exit_code, stderr@),
{
    let low = lowered(stderr);
    let stripped = trimmed(low.as_str());
    if stripped.as_str().unicode_len() == 0 {
        return true;
    }
    match exit_code {
        None => return true,
        Some(c) => {
            if c < 0 {
                return true;
            }
        },
    }
    let markers = vec![
        "unrecognized option",
        "option not found",
        "error while loading shared libraries",
        "failed to load",
        "could not load",
        "bad cpu type",
        "exec format",
        "access is denied",
        "access denied",
        "not a valid win32 application",
        "entry point",
    ];
    assert(str_views(markers@) =~= tool_failure_markers());
    contains_any_ignore_case(stderr, &markers)
}

/// The first line of `ls` with something on it, trimmed.
pub open spec fn first_nonblank(ls: Seq<Seq<char>>) -> Option<Seq<char>>
    decreases ls.len(),
{
    if ls.len() == 0 {
        None
    } else if trim(ls[0]).len() > 0 {
        Some(trim(ls[0]))
    } else {
        first_nonblank(ls.drop_first())
    }
}

/// `"<action> <path> with status <status>: <first line>"`, or without the
/// line when ffprobe printed nothing. `status` is the exit status as the
/// caller prints it.
pub open spec fn probe_failure_text(
    action: Seq<char>,
    path: Seq<char>,
    status: Seq<char>,
    stderr: Seq<char>,
) -> Seq<char> {
    match first_nonblank(lines(stderr)) {
        Some(detail) => action + " "@ + path + " with status "@ + status + ": "@ + detail,
        None => action + " "@ + path + " with status "@ + status,
    }
}

/// Describes a failed ffprobe run; see `probe_failure_text`.
pub fn probe_failure_message(action: &str, path: &str, status: &str, stderr: &str) -> (r: String)
    ensures
        r@ == probe_failure_text(action@, path@, status@, stderr@),
{
    let all = split_lines(stderr);
    let ghost ls = lines(stderr@);
    let mut detail: Option<String> = None;
    let mut i: usize = 0;
    assert(ls.subrange(0, ls.len() as int) =~= ls);
    while i < all.len() && detail.is_none()
        invariant
            i <= all.len(),
            all@.len() == ls.len(),
            forall|k: int| 0 <= k < all@.len() ==> (#[trigger] all@[k])@ == ls[k],
            detail is None ==> first_nonblank(ls) == first_nonblank(ls.subrange(i as int, ls.len() as int)),
            detail matches Some(d) ==> first_nonblank(ls) == Some(d@),
        decreases all.len() - i,
    {
        let t = trimmed(all[i].as_str());
        assert(ls.subrange(i as int, ls.len() as int).drop_first() =~= ls.subrange(
            i as int + 1,
            ls.len() as int,
        ));
        assert(ls.subrange(i as int, ls.len() as int)[0] == ls[i as int]);
        if t.as_str().unicode_len() > 0 {
            detail = Some(t);
        }
        i += 1;
    }
    proof {
        if detail is None {
            assert(ls.subrange(i as int, ls.len() as int) =~= Seq::<Seq<char>>::empty());
        }
    }
    let mut out = copy_str(action);
    out.append(" ");
    out.append(path);
    out.append(" with status ");
    out.append(status);
    match detail {
        Some(d) => {
            out.append(": ");
            out.append(d.as_str());
        },
        None => {},
    }
    out
}

} // verus!
