//! Verified text helpers.
//!
//! The tutor's decisions hinge on three pieces of text logic: whether an
//! exercise's source still carries the "not yet attempted" sentinel marker,
//! how a module path such as `exercises::two_sum::two_sum_v1` maps to the
//! file path `src/exercises/two_sum/two_sum_v1.rs`, and how buffered output
//! chunks are stitched back together in arrival order.

use vstd::prelude::*;
use vstd::seq_lib::lemma_seq_skip_of_skip;

verus! {

/// `needle` occurs in `hay` starting at character position `i`.
pub open spec fn occurs_at(hay: Seq<char>, needle: Seq<char>, i: int) -> bool {
    0 <= i && i + needle.len() <= hay.len() && hay.subrange(i, i + needle.len()) == needle
}

/// `needle` occurs somewhere in `hay`.
pub open spec fn contains_seq(hay: Seq<char>, needle: Seq<char>) -> bool {
    exists|i: int| occurs_at(hay, needle, i)
}

/// The sentinel marker whose presence in a source file means the exercise
/// has not been attempted yet.
pub open spec fn not_done_marker() -> Seq<char> {
    "I AM NOT DONE"@
}

/// A source file with this content still marks its exercise as incomplete.
pub open spec fn marks_incomplete(content: Seq<char>) -> bool {
    contains_seq(content, not_done_marker())
}

/// Character-wise string equality.
pub fn str_eq(a: &str, b: &str) -> (r: bool)
    ensures
        r == (a@ == b@),
{
    let la = a.unicode_len();
    let lb = b.unicode_len();
    if la != lb {
        return false;
    }
    let mut i: usize = 0;
    while i < la
        invariant
            la == a@.len(),
            la == b@.len(),
            i <= la,
            forall|j: int| 0 <= j < i ==> a@[j] == b@[j],
        decreases la - i,
    {
        if a.get_char(i) != b.get_char(i) {
            return false;
        }
        i = i + 1;
    }
    proof {
        assert(a@ =~= b@);
    }
    true
}

/// Whether `needle` occurs in `hay`, by a direct character scan.
pub fn str_contains(hay: &str, needle: &str) -> (r: bool)
    ensures
        r == contains_seq(hay@, needle@),
{
    let h = hay.unicode_len();
    let n = needle.unicode_len();
    if n > h {
        return false;
    }
    if n == 0 {
        proof {
            assert(hay@.subrange(0, 0) =~= needle@);
            assert(occurs_at(hay@, needle@, 0));
        }
        return true;
    }
    let mut i: usize = 0;
    while i <= h - n
        invariant
            h == hay@.len(),
            n == needle@.len(),
            1 <= n <= h,
            i <= h - n + 1,
            forall|k: int| 0 <= k < i ==> !occurs_at(hay@, needle@, k),
        decreases h - n + 1 - i,
    {
        let mut j: usize = 0;
        let mut matched = true;
        while j < n
            invariant
                h == hay@.len(),
                n == needle@.len(),
                i + n <= h,
                j <= n,
                matched ==> forall|t: int| 0 <= t < j ==> hay@[i + t] == needle@[t],
                !matched ==> !occurs_at(hay@, needle@, i as int),
            decreases n - j,
        {
            if hay.get_char(i + j) != needle.get_char(j) {
                proof {
                    assert(hay@.subrange(i as int, i + needle@.len())[j as int] == hay@[i + j]);
                }
                matched = false;
                j = n;
            } else {
                j = j + 1;
            }
        }
        if matched {
            proof {
                assert(hay@.subrange(i as int, i + needle@.len()) =~= needle@);
                assert(occurs_at(hay@, needle@, i as int));
            }
            return true;
        }
        i = i + 1;
    }
    proof {
        assert(forall|k: int| #![auto] occurs_at(hay@, needle@, k) ==> 0 <= k <= h - n);
    }
    false
}

/// `::` separators replaced by `/`, all other characters kept.
pub open spec fn replace_sep(s: Seq<char>) -> Seq<char>
    decreases s.len(),
{
    if s.len() == 0 {
        Seq::empty()
    } else if s.len() >= 2 && s[0] == ':' && s[1] == ':' {
        seq!['/'] + replace_sep(s.skip(2))
    } else {
        seq![s[0]] + replace_sep(s.skip(1))
    }
}

/// The file that backs an exercise: `src/<module path with :: as />.rs`.
pub open spec fn source_path_spec(module_name: Seq<char>) -> Seq<char> {
    "src/"@ + replace_sep(module_name) + ".rs"@
}

/// Derive the backing source file path from a module path.
pub fn source_file_path(module_name: &str) -> (r: String)
    ensures
        r@ == source_path_spec(module_name@),
{
    let len = module_name.unicode_len();
    let mut r = String::from_str("src/");
    proof {
        assert(module_name@.skip(0) =~= module_name@);
    }
    let mut i: usize = 0;
    while i < len
        invariant
            len == module_name@.len(),
            i <= len,
            r@ + replace_sep(module_name@.skip(i as int)) == "src/"@ + replace_sep(module_name@),
        decreases len - i,
    {
        let c = module_name.get_char(i);
        if c == ':' && i + 1 < len && module_name.get_char(i + 1) == ':' {
            proof {
                reveal_strlit("/");
                lemma_seq_skip_of_skip(module_name@, 2, i as int);
                assert(module_name@.skip(i as int).skip(2) =~= module_name@.skip(i + 2));
                assert("/"@ =~= seq!['/']);
            }
            r.append("/");
            i = i + 2;
            proof {
                assert(r@ + replace_sep(module_name@.skip(i as int)) =~= "src/"@ + replace_sep(
                    module_name@,
                ));
            }
        } else {
            let piece = module_name.substring_char(i, i + 1);
            proof {
                lemma_seq_skip_of_skip(module_name@, 1, i as int);
                assert(module_name@.skip(i as int).skip(1) =~= module_name@.skip(i + 1));
                assert(piece@ =~= seq![module_name@[i as int]]);
            }
            r.append(piece);
            i = i + 1;
            proof {
                assert(r@ + replace_sep(module_name@.skip(i as int)) =~= "src/"@ + replace_sep(
                    module_name@,
                ));
            }
        }
    }
    proof {
        assert(module_name@.skip(len as int) =~= Seq::<char>::empty());
        assert(r@ =~= "src/"@ + replace_sep(module_name@));
    }
    r.append(".rs");
    proof {
        assert(r@ =~= source_path_spec(module_name@));
    }
    r
}

/// All chunks joined in order.
pub open spec fn joined(chunks: Seq<Seq<char>>) -> Seq<char>
    decreases chunks.len(),
{
    if chunks.len() == 0 {
        Seq::empty()
    } else {
        joined(chunks.drop_last()) + chunks.last()
    }
}

/// Concatenate buffered output chunks in arrival order.
pub fn concat_chunks(chunks: &Vec<String>) -> (r: String)
    ensures
        r@ == joined(chunks.deep_view()),
{
    let mut r = String::new();
    let mut i: usize = 0;
    while i < chunks.len()
        invariant
            i <= chunks@.len(),
            r@ == joined(chunks.deep_view().take(i as int)),
        decreases chunks@.len() - i,
    {
        proof {
            let dv = chunks.deep_view();
            assert(dv.take(i + 1).drop_last() =~= dv.take(i as int));
            assert(dv.take(i + 1).last() == dv[i as int]);
        }
        r.append(chunks[i].as_str());
        i = i + 1;
    }
    proof {
        assert(chunks.deep_view().take(chunks@.len() as int) =~= chunks.deep_view());
    }
    r
}

} // verus!
