//! Merge two words by taking letters in alternating order, starting with
//! the first word; whatever remains of the longer word is appended.

use vstd::prelude::*;
use vstd::seq_lib::lemma_seq_skip_of_skip;

verus! {

/// The alternating merge: one letter of each word in turn while both
/// last, then the rest of the longer word.
pub open spec fn merged(s1: Seq<char>, s2: Seq<char>) -> Seq<char>
    decreases s1.len() + s2.len(),
{
    if s1.len() == 0 {
        s2
    } else if s2.len() == 0 {
        s1
    } else {
        seq![s1[0], s2[0]] + merged(s1.skip(1), s2.skip(1))
    }
}

/// Merge the words by adding letters in alternating order, starting with
/// `word1`; the extra letters of a longer word end up appended.
pub fn merge_alternately(word1: String, word2: String) -> (r: String)
    ensures
        r@ == merged(word1@, word2@),
{
    let len1 = word1.as_str().unicode_len();
    let len2 = word2.as_str().unicode_len();
    let mut r = String::new();
    let mut i: usize = 0;
    proof {
        assert(word1@.skip(0) =~= word1@);
        assert(word2@.skip(0) =~= word2@);
    }
    while i < len1 || i < len2
        invariant
            len1 == word1@.len(),
            len2 == word2@.len(),
            r@ + merged(
                word1@.skip(if i < len1 { i as int } else { len1 as int }),
                word2@.skip(if i < len2 { i as int } else { len2 as int }),
            ) == merged(word1@, word2@),
        decreases (if i < len1 { len1 - i } else { 0int }) + (if i < len2 { len2 - i } else { 0int }),
    {
        proof {
            if i < len1 {
                lemma_seq_skip_of_skip(word1@, 1, i as int);
                assert(word1@.skip(i as int).skip(1) =~= word1@.skip(i + 1));
                assert(word1@.skip(i as int) =~= seq![word1@[i as int]] + word1@.skip(i + 1));
            }
            if i < len2 {
                lemma_seq_skip_of_skip(word2@, 1, i as int);
                assert(word2@.skip(i as int).skip(1) =~= word2@.skip(i + 1));
                assert(word2@.skip(i as int) =~= seq![word2@[i as int]] + word2@.skip(i + 1));
            }
            assert(word1@.skip(len1 as int) =~= Seq::<char>::empty());
            assert(word2@.skip(len2 as int) =~= Seq::<char>::empty());
        }
        if i < len1 {
            let piece = word1.as_str().substring_char(i, i + 1);
            proof {
                assert(piece@ =~= seq![word1@[i as int]]);
            }
            r.append(piece);
        }
        if i < len2 {
            let piece = word2.as_str().substring_char(i, i + 1);
            proof {
                assert(piece@ =~= seq![word2@[i as int]]);
            }
            r.append(piece);
        }
        i = i + 1;
        proof {
            assert(r@ + merged(
                word1@.skip(if i < len1 { i as int } else { len1 as int }),
                word2@.skip(if i < len2 { i as int } else { len2 as int }),
            ) =~= merged(word1@, word2@));
        }
    }
    r
}

} // verus!
