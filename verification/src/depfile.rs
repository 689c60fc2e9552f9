//! Dependency files: the make-style rule that the compiler writes beside
//! each object file, naming every file the translation unit read.
//!
//! The rule has the shape `target: dep dep \` and may run over several
//! lines. Its words are taken apart at whitespace; a lone backslash
//! continues a line and a word that ends in a colon is a target. Every other
//! word is the path of a dependency. No text is refused: one that is no rule
//! at all simply names what its words name.

use crate::text::{split_words, to_chars, words};
use vstd::prelude::*;

verus! {

/// Whether a word of a dependency file names a dependency: it is neither a
/// continuation marker nor a target.
pub open spec fn is_dependency_word(word: Seq<char>) -> bool {
    word != seq!['\\'] && !(word.len() > 0 && word.last() == ':')
}

/// The dependency paths that a dependency file records, in file order.
pub open spec fn dependencies(content: Seq<char>) -> Seq<Seq<char>> {
    words(content).filter(|word: Seq<char>| is_dependency_word(word))
}

/// Tells whether a word of a dependency file names a dependency.
pub fn names_dependency(word: &str) -> (yes: bool)
    ensures
        yes == is_dependency_word(word@),
{
    let v = to_chars(word);
    if v.len() == 0 {
        return true;
    }
    if v.len() == 1 && v[0] == '\\' {
        assert(v@ =~= seq!['\\']);
        return false;
    }
    assert(v@ != seq!['\\']) by {
        if v@.len() == 1 {
            assert(v@[0] != seq!['\\'][0]);
        }
    }
    v[v.len() - 1] != ':'
}

/// Reads the dependency paths out of the text of a dependency file.
pub fn parse_depfile(content: &str) -> (paths: Vec<String>)
    ensures
        paths.deep_view() == dependencies(content@),
{
    let all = split_words(content);
    let ghost list = all.deep_view();
    let ghost keep = |word: Seq<char>| is_dependency_word(word);
    let mut paths: Vec<String> = Vec::new();
    let mut i: usize = 0;
    proof {
        assert(list.take(0) =~= Seq::<Seq<char>>::empty());
        assert(list.take(0).filter(keep) =~= Seq::<Seq<char>>::empty()) by {
            reveal(Seq::filter);
        }
    }
    while i < all.len()
        invariant
            i <= all.len(),
            list == all.deep_view(),
            list == words(content@),
            keep == |word: Seq<char>| is_dependency_word(word),
            paths.deep_view() == list.take(i as int).filter(keep),
        decreases all.len() - i,
    {
        let ghost before = paths.deep_view();
        proof {
            assert(list.take(i + 1) =~= list.take(i as int).push(list[i as int]));
            list.take(i as int).lemma_filter_push(list[i as int], keep);
            assert(list[i as int] == all[i as int]@);
        }
        if names_dependency(all[i].as_str()) {
            paths.push(all[i].clone());
            assert(paths.deep_view() =~= before.push(all[i as int]@));
        }
        i += 1;
    }
    assert(list.take(i as int) =~= list);
    paths
}

} // verus!
