//! Which files of the input directory the pipeline ingests.

use vstd::prelude::*;
use vstd::string::*;

verus! {

/// The characters after the last `'.'` of `s`, or all of `s` when it
/// holds no `'.'` (a bare name such as `txt` therefore counts as its
/// own extension).
pub open spec fn after_last_dot(s: Seq<char>) -> Seq<char>
    decreases s.len(),
{
    if s.len() == 0 {
        s
    } else if s.last() == '.' {
        Seq::empty()
    } else {
        after_last_dot(s.drop_last()).push(s.last())
    }
}

/// A file is ingested exactly when its extension is `txt` or `md`.
pub open spec fn spec_is_supported_file(s: Seq<char>) -> bool {
    after_last_dot(s) == seq!['t', 'x', 't'] || after_last_dot(s) == seq!['m', 'd']
}

/// When every character from position `j` on differs from `'.'` and,
/// unless `j` is zero, a `'.'` stands just before `j`, the extension is
/// the suffix starting at `j`.
proof fn lemma_after_last_dot_suffix(s: Seq<char>, j: int)
    requires
        0 <= j <= s.len(),
        forall|k: int| j <= k < s.len() ==> s[k] != '.',
        j > 0 ==> s[j - 1] == '.',
    ensures
        after_last_dot(s) =~= s.subrange(j, s.len() as int),
    decreases s.len(),
{
    if s.len() == 0 {
    } else if j == s.len() {
        if j > 0 {
            assert(s.last() == '.');
        }
    } else {
        assert(s[s.len() - 1] != '.');
        lemma_after_last_dot_suffix(s.drop_last(), j);
        assert(after_last_dot(s) =~= s.drop_last().subrange(j, s.len() - 1).push(s.last()));
    }
}

/// Whether `file_name` carries one of the recognized plain-text
/// extensions, `txt` or `md`.
pub fn is_supported_file(file_name: &str) -> (r: bool)
    ensures
        r == spec_is_supported_file(file_name@),
{
    let n: usize = file_name.unicode_len();
    // Scan from the end for the last '.'; the extension starts at `j`.
    let mut j: usize = n;
    while j > 0 && file_name.get_char(j - 1) != '.'
        invariant
            0 <= j <= n,
            n == file_name@.len(),
            forall|k: int| j <= k < n ==> file_name@[k] != '.',
        decreases j,
    {
        j = j - 1;
    }
    proof {
        lemma_after_last_dot_suffix(file_name@, j as int);
    }
    let ext_len = n - j;
    if ext_len == 3 {
        let r = file_name.get_char(j) == 't' && file_name.get_char(j + 1) == 'x'
            && file_name.get_char(j + 2) == 't';
        proof {
            let ext = file_name@.subrange(j as int, n as int);
            if r {
                assert(ext =~= seq!['t', 'x', 't']);
            } else {
                assert(ext != seq!['t', 'x', 't']);
                assert(ext.len() != 2);
                assert(ext != seq!['m', 'd']);
            }
        }
        r
    } else if ext_len == 2 {
        let r = file_name.get_char(j) == 'm' && file_name.get_char(j + 1) == 'd';
        proof {
            let ext = file_name@.subrange(j as int, n as int);
            if r {
                assert(ext =~= seq!['m', 'd']);
            } else {
                assert(ext != seq!['m', 'd']);
                assert(ext.len() != 3);
                assert(ext != seq!['t', 'x', 't']);
            }
        }
        r
    } else {
        proof {
            let ext = file_name@.subrange(j as int, n as int);
            assert(ext.len() != 3 && ext.len() != 2);
            assert(ext != seq!['t', 'x', 't'] && ext != seq!['m', 'd']);
        }
        false
    }
}

} // verus!
