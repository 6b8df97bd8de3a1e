//! Parsing the frontmost-application probe.  The platform query
//! itself (a scripting call that cannot run under the library) lives
//! outside and hands back one line, `name|||title`; splitting it and
//! dropping empty parts is proved here.

use vstd::prelude::*;
use vstd::string::StringExecFns;
use crate::session::opt_view;

verus! {

/// Index of the first occurrence of `pat` in `s`, or -1.
pub open spec fn find_sub(s: Seq<char>, pat: Seq<char>) -> int
    recommends
        pat.len() >= 1,
    decreases s.len(),
{
    if pat.len() == 0 || s.len() < pat.len() {
        -1
    } else if s.subrange(0, pat.len() as int) == pat {
        0
    } else if find_sub(s.skip(1), pat) == -1 {
        -1
    } else {
        find_sub(s.skip(1), pat) + 1
    }
}

/// No occurrence of `pat` starts at position `k` of `s`.
pub open spec fn no_match_at(s: Seq<char>, pat: Seq<char>, k: int) -> bool {
    !(k + pat.len() <= s.len() && s.subrange(k, k + pat.len() as int) == pat)
}

/// An empty part means the probe learned nothing.
pub open spec fn nonempty_part(s: Seq<char>) -> Option<Seq<char>> {
    if s.len() == 0 {
        None
    } else {
        Some(s)
    }
}

/// The two parts of the probe line: the text before the first `|||`
/// marker and the text after it (no marker: the whole line is the
/// name and there is no title).
pub open spec fn frontmost_parts(raw: Seq<char>) -> (Option<Seq<char>>, Option<Seq<char>>) {
    let d = find_sub(raw, "|||"@);
    if d == -1 {
        (nonempty_part(raw), None)
    } else {
        (nonempty_part(raw.subrange(0, d)), nonempty_part(raw.skip(d + 3)))
    }
}

proof fn lemma_find_sub_bounds(s: Seq<char>, pat: Seq<char>)
    ensures
        find_sub(s, pat) >= -1,
    decreases s.len(),
{
    if !(pat.len() == 0 || s.len() < pat.len()) && s.subrange(0, pat.len() as int) != pat {
        lemma_find_sub_bounds(s.skip(1), pat);
    }
}

proof fn lemma_find_sub_skip(s: Seq<char>, pat: Seq<char>, i: int)
    requires
        pat.len() >= 1,
        0 <= i <= s.len(),
        forall|k: int| 0 <= k < i ==> #[trigger] no_match_at(s, pat, k),
    ensures
        find_sub(s, pat) == (if find_sub(s.skip(i), pat) == -1 {
            -1
        } else {
            find_sub(s.skip(i), pat) + i
        }),
    decreases i,
{
    if i == 0 {
        assert(s.skip(0) =~= s);
    } else if s.len() < pat.len() {
        assert(s.skip(i).len() < pat.len());
    } else {
        assert(no_match_at(s, pat, 0));
        assert(s.subrange(0, pat.len() as int) != pat);
        assert forall|k: int| 0 <= k < i - 1
            implies #[trigger] no_match_at(s.skip(1), pat, k) by {
            assert(no_match_at(s, pat, k + 1));
            if k + pat.len() <= s.skip(1).len() {
                assert(s.skip(1).subrange(k, k + pat.len() as int)
                    =~= s.subrange(k + 1, k + 1 + pat.len() as int));
            }
        }
        lemma_find_sub_skip(s.skip(1), pat, i - 1);
        assert(s.skip(1).skip(i - 1) =~= s.skip(i));
        lemma_find_sub_bounds(s.skip(i), pat);
        let r1 = find_sub(s.skip(1), pat);
        let ri = find_sub(s.skip(i), pat);
        assert(r1 == (if ri == -1 { -1int } else { ri + i - 1 }));
        assert(find_sub(s, pat) == (if r1 == -1 { -1int } else { r1 + 1 }));
    }
}

/// Split the probe line at the first `|||` marker and drop empty
/// parts: the frontmost application's name and window title.
pub fn parse_frontmost(raw: &str) -> (r: (Option<String>, Option<String>))
    ensures
        opt_view(r.0) == frontmost_parts(raw@).0,
        opt_view(r.1) == frontmost_parts(raw@).1,
{
    proof {
        reveal_strlit("|||");
    }
    let n: usize = raw.unicode_len();
    let mut i: usize = 0;
    let mut marker: Option<usize> = None;
    while marker.is_none() && i < n && n - i >= 3
        invariant
            n == raw@.len(),
            n <= usize::MAX,
            i <= n,
            match marker {
                Option::None => forall|k: int| 0 <= k < i
                    ==> #[trigger] no_match_at(raw@, "|||"@, k),
                Option::Some(d) => {
                    &&& d + 3 <= n
                    &&& raw@.subrange(d as int, d as int + 3) == "|||"@
                    &&& forall|k: int| 0 <= k < d
                        ==> #[trigger] no_match_at(raw@, "|||"@, k)
                },
            },
        decreases n - i,
    {
        proof {
            reveal_strlit("|||");
        }
        if raw.get_char(i) == '|' && raw.get_char(i + 1) == '|' && raw.get_char(i + 2) == '|' {
            proof {
                assert(raw@.subrange(i as int, i as int + 3) =~= "|||"@);
            }
            marker = Some(i);
            i = i + 1;
        } else {
            proof {
                if raw@.subrange(i as int, i as int + 3) == "|||"@ {
                    assert(raw@.subrange(i as int, i as int + 3)[0] == '|'
                        && raw@.subrange(i as int, i as int + 3)[1] == '|'
                        && raw@.subrange(i as int, i as int + 3)[2] == '|');
                }
                assert(no_match_at(raw@, "|||"@, i as int));
            }
            i = i + 1;
        }
    }
    match marker {
        Some(d) => {
            proof {
                lemma_find_sub_skip(raw@, "|||"@, d as int);
                assert(raw@.skip(d as int).subrange(0, 3) =~= raw@.subrange(d as int, d + 3));
                assert(find_sub(raw@.skip(d as int), "|||"@) == 0);
            }
            let name = raw.substring_char(0, d);
            let title = raw.substring_char(d + 3, n);
            let name_opt = if name.unicode_len() == 0 {
                None
            } else {
                Some(String::from_str(name))
            };
            let title_opt = if title.unicode_len() == 0 {
                None
            } else {
                Some(String::from_str(title))
            };
            (name_opt, title_opt)
        },
        None => {
            proof {
                lemma_find_sub_skip(raw@, "|||"@, i as int);
                assert(raw@.skip(i as int).len() < 3);
                assert(find_sub(raw@, "|||"@) == -1);
            }
            let name_opt = if n == 0 {
                None
            } else {
                proof {
                    assert(raw@.subrange(0, n as int) =~= raw@);
                }
                Some(String::from_str(raw))
            };
            (name_opt, None)
        },
    }
}

} // verus!
