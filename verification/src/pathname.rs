//! Extracting the extension of an output path.
//!
//! A path's file name is the part after the last path separator (`/` or
//! `\`). Its extension is the part after the last dot of the file name,
//! provided that dot is not the file name's first character; a file name
//! without such a dot has the empty extension.

use vstd::prelude::*;

verus! {

/// Whether `c` is a path separator.
pub open spec fn is_sep(c: char) -> bool {
    c == '/' || c == '\\'
}

/// The index at which the file name of `p` starts: one past the last
/// separator, or `0` when `p` holds none.
pub open spec fn name_start(p: Seq<char>) -> int
    decreases p.len(),
{
    if p.len() == 0 {
        0
    } else if is_sep(p.last()) {
        p.len() as int
    } else {
        name_start(p.drop_last())
    }
}

/// The index of the last dot within the file name of `p`, or `-1` when
/// the file name holds no dot.
pub open spec fn last_dot(p: Seq<char>) -> int
    decreases p.len(),
{
    if p.len() == 0 {
        -1
    } else if is_sep(p.last()) {
        -1
    } else if p.last() == '.' {
        p.len() - 1
    } else {
        last_dot(p.drop_last())
    }
}

/// The extension of `p`: what follows the last dot of the file name,
/// empty when the file name has no dot after its first character.
pub open spec fn spec_extension(p: Seq<char>) -> Seq<char> {
    let d = last_dot(p);
    if d >= name_start(p) + 1 {
        p.subrange(d + 1, p.len() as int)
    } else {
        Seq::empty()
    }
}

proof fn lemma_name_start_bounds(p: Seq<char>)
    ensures
        0 <= name_start(p) <= p.len(),
    decreases p.len(),
{
    if p.len() > 0 && !is_sep(p.last()) {
        lemma_name_start_bounds(p.drop_last());
    }
}

/// Characters that are neither dots nor separators at the right end of
/// `p` change neither the file name's start nor its last dot.
proof fn lemma_scan_skip(p: Seq<char>, i: int)
    requires
        0 <= i <= p.len(),
        forall|k: int| i <= k < p.len() ==> p[k] != '.' && !is_sep(p[k]),
    ensures
        last_dot(p) == last_dot(p.subrange(0, i)),
        name_start(p) == name_start(p.subrange(0, i)),
    decreases p.len() - i,
{
    if i == p.len() {
        assert(p.subrange(0, i) =~= p);
    } else {
        assert(!is_sep(p.last()) && p.last() != '.');
        assert(p.drop_last() =~= p.subrange(0, p.len() - 1));
        lemma_scan_skip(p.subrange(0, p.len() - 1), i);
        assert(p.subrange(0, p.len() - 1).subrange(0, i) =~= p.subrange(0, i));
    }
}

/// Extracts the extension of `path`, empty when there is none.
pub fn output_extension(path: &str) -> (r: String)
    ensures
        r@ == spec_extension(path@),
{
    let len = path.unicode_len();
    let mut i: usize = len;
    while i > 0
        invariant
            len == path@.len(),
            i <= len,
            forall|k: int| i <= k < len ==> path@[k] != '.' && !is_sep(path@[k]),
        decreases i,
    {
        let c = path.get_char(i - 1);
        proof {
            lemma_scan_skip(path@, i as int);
            lemma_name_start_bounds(path@.subrange(0, i as int));
        }
        if c == '/' || c == '\\' {
            // the file name holds no dot
            proof {
                assert(last_dot(path@.subrange(0, i as int)) == -1);
            }
            return String::new();
        }
        if c == '.' {
            let d = i - 1;
            proof {
                assert(path@.subrange(0, i as int).last() == '.');
                assert(last_dot(path@) == d);
            }
            if d == 0 {
                proof {
                    lemma_name_start_bounds(path@);
                }
                return String::new();
            }
            let prev = path.get_char(d - 1);
            proof {
                let pfx = path@.subrange(0, i as int);
                assert(pfx.drop_last() =~= path@.subrange(0, d as int));
                assert(name_start(path@) == name_start(path@.subrange(0, d as int)));
            }
            if prev == '/' || prev == '\\' {
                // the dot is the file name's first character
                proof {
                    let q = path@.subrange(0, d as int);
                    assert(q.last() == path@[d - 1]);
                    assert(name_start(q) == d);
                }
                return String::new();
            }
            proof {
                let q = path@.subrange(0, d as int);
                assert(q.drop_last() =~= path@.subrange(0, d - 1));
                assert(name_start(q) == name_start(path@.subrange(0, d - 1)));
                lemma_name_start_bounds(path@.subrange(0, d - 1));
                assert(name_start(path@) <= d - 1);
            }
            let ext = path.substring_char(d + 1, len);
            return ext.to_owned();
        }
        i = i - 1;
    }
    proof {
        lemma_scan_skip(path@, 0);
        assert(last_dot(path@.subrange(0, 0)) == -1);
        lemma_name_start_bounds(path@);
    }
    String::new()
}

} // verus!
