//! File names and extensions of `/`-separated paths.
use vstd::prelude::*;

use crate::scan::{extension, extension_exec};
use crate::text::{chars_of, copy_str, push_str, split, split_chars, vec_views};

verus! {

/// A path segment that names something: not empty and not `.`.
pub open spec fn is_normal_segment(s: Seq<char>) -> bool {
    s.len() > 0 && s != "."@
}

/// The path's named segments, in order (`Path::components` without the
/// root and the `.` segments).
pub open spec fn named_segments(p: Seq<char>) -> Seq<Seq<char>> {
    split(p, '/').filter(|s: Seq<char>| is_normal_segment(s))
}

/// `Path::file_name`: the last named segment, none when there is none or it
/// is `..`.
pub open spec fn file_name(p: Seq<char>) -> Option<Seq<char>> {
    let segs = named_segments(p);
    if segs.len() == 0 || segs.last() == ".."@ {
        None
    } else {
        Some(segs.last())
    }
}

/// `Path::extension`: the extension of the file name.
pub open spec fn path_extension(p: Seq<char>) -> Option<Seq<char>> {
    match file_name(p) {
        Some(n) => extension(n),
        None => None,
    }
}

/// The file name of a path.
pub fn file_name_exec(p: &str) -> (r: Option<Vec<char>>)
    ensures
        match r {
            Some(n) => file_name(p@) == Some(n@),
            None => file_name(p@) is None,
        },
{
    let pv = chars_of(p);
    let parts = split_chars(&pv, '/');
    let dot = chars_of(".");
    let dotdot = chars_of("..");
    let ghost pred = |s: Seq<char>| is_normal_segment(s);
    let ghost pv_parts = vec_views(parts@);
    let mut last: Option<usize> = None;
    let mut i: usize = 0;
    while i < parts.len()
        invariant
            0 <= i <= parts.len(),
            pv_parts == vec_views(parts@),
            pv_parts == split(p@, '/'),
            dot@ == "."@,
            pred == (|s: Seq<char>| is_normal_segment(s)),
            match last {
                Some(j) => j < i && pv_parts.take(i as int).filter(pred).len() > 0
                    && pv_parts.take(i as int).filter(pred).last() == parts@[j as int]@,
                None => pv_parts.take(i as int).filter(pred).len() == 0,
            },
        decreases parts.len() - i,
    {
        proof {
            reveal(Seq::filter);
        }
        assert(pv_parts.take(i + 1).drop_last() =~= pv_parts.take(i as int));
        assert(pv_parts.take(i + 1).last() == parts@[i as int]@);
        if parts[i].len() > 0 && !crate::text::chars_eq(&parts[i], &dot) {
            assert(pred(parts@[i as int]@));
            last = Some(i);
        } else {
            assert(!pred(parts@[i as int]@));
        }
        i = i + 1;
    }
    assert(pv_parts.take(parts.len() as int) =~= pv_parts);
    match last {
        Some(j) => {
            if crate::text::chars_eq(&parts[j], &dotdot) {
                None
            } else {
                Some(crate::text::sub_chars(&parts[j], 0, parts[j].len()))
            }
        },
        None => None,
    }
}

/// The extension of a path's file name.
pub fn path_extension_exec(p: &str) -> (r: Option<Vec<char>>)
    ensures
        match r {
            Some(e) => path_extension(p@) == Some(e@),
            None => path_extension(p@) is None,
        },
{
    match file_name_exec(p) {
        Some(n) => extension_exec(&n),
        None => None,
    }
}

/// `PathBuf::join` of a relative path onto a directory.
pub open spec fn path_join(dir: Seq<char>, rel: Seq<char>) -> Seq<char> {
    if dir.len() == 0 {
        rel
    } else if dir.last() == '/' {
        dir + rel
    } else {
        dir + "/"@ + rel
    }
}

/// A relative path joined onto a directory.
pub fn join_path(dir: &str, rel: &str) -> (r: String)
    ensures
        r@ == path_join(dir@, rel@),
{
    let dv = crate::text::chars_of(dir);
    if dv.len() == 0 {
        copy_str(rel)
    } else if dv[dv.len() - 1] == '/' {
        let mut s = copy_str(dir);
        push_str(&mut s, rel);
        s
    } else {
        let mut s = copy_str(dir);
        push_str(&mut s, "/");
        push_str(&mut s, rel);
        s
    }
}


} // verus!
