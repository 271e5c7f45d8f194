//! A set of words, kept letter by letter in a tree.

use vstd::prelude::*;
use vstd::string::StrSliceExecFns;

verus! {

/// A place in the tree: the letters that lead further, each with the place it
/// leads to, and whether the letters that led here spell a word of the set.
pub struct TrieNode {
    pub children: Vec<(char, TrieNode)>,
    pub is_word: bool,
}

/// A set of words.
pub struct Trie {
    pub root: TrieNode,
}

impl TrieNode {
    /// Whether the letters `word` lead from here to the end of a word.
    pub open spec fn holds(&self, word: Seq<char>) -> bool
        decreases word.len(),
    {
        if word.len() == 0 {
            self.is_word
        } else {
            exists|i: int|
                0 <= i < self.children@.len() && (#[trigger] self.children@[i]).0 == word[0]
                    && self.children@[i].1.holds(word.skip(1))
        }
    }

    /// Whether the letters `prefix` lead from here to any place at all.
    pub open spec fn has_path(&self, prefix: Seq<char>) -> bool
        decreases prefix.len(),
    {
        if prefix.len() == 0 {
            true
        } else {
            exists|i: int|
                0 <= i < self.children@.len() && (#[trigger] self.children@[i]).0 == prefix[0]
                    && self.children@[i].1.has_path(prefix.skip(1))
        }
    }

    /// Whether a word ends here or letters lead further.
    pub open spec fn live(&self) -> bool {
        self.is_word || self.children@.len() > 0
    }

    /// No letter leads further twice, and every place below is well formed
    /// and is no dead end.
    pub open spec fn wf(&self) -> bool
        decreases self,
    {
        &&& forall|i: int, j: int|
            0 <= i < j < self.children@.len() ==> (#[trigger] self.children@[i]).0 != (
            #[trigger] self.children@[j]).0
        &&& forall|i: int|
            0 <= i < self.children@.len() ==> (#[trigger] self.children@[i]).1.wf()
                && self.children@[i].1.live()
    }

    /// A place where no word ends and from which no letter leads further.
    pub fn new() -> (node: TrieNode)
        ensures
            node.children@.len() == 0,
            !node.is_word,
            node.wf(),
            forall|word: Seq<char>| !node.holds(word),
    {
        let node = TrieNode { children: Vec::new(), is_word: false };
        assert forall|word: Seq<char>| !node.holds(word) by {}
        node
    }

    /// Which way the letter `letter` leads, if it leads further.
    fn child(&self, letter: char) -> (place: Option<usize>)
        ensures
            match place {
                Some(i) => i < self.children@.len() && self.children@[i as int].0 == letter,
                None => forall|i: int|
                    0 <= i < self.children@.len() ==> (#[trigger] self.children@[i]).0 != letter,
            },
    {
        let mut i: usize = 0;
        while i < self.children.len()
            invariant
                i <= self.children@.len(),
                forall|j: int| 0 <= j < i ==> (#[trigger] self.children@[j]).0 != letter,
            decreases self.children@.len() - i,
        {
            if self.children[i].0 == letter {
                return Some(i);
            }
            i = i + 1;
        }
        None
    }
}

/// Where letters lead on from a well-formed place, they lead through the one
/// child that has the first letter.
pub proof fn lemma_step(node: TrieNode, i: int, word: Seq<char>)
    requires
        node.wf(),
        0 <= i < node.children@.len(),
        word.len() > 0,
        node.children@[i].0 == word[0],
    ensures
        node.holds(word) == node.children@[i].1.holds(word.skip(1)),
        node.has_path(word) == node.children@[i].1.has_path(word.skip(1)),
{
    if node.holds(word) {
        let j = choose|j: int|
            0 <= j < node.children@.len() && (#[trigger] node.children@[j]).0 == word[0]
                && node.children@[j].1.holds(word.skip(1));
        if j < i {
            assert(node.children@[j].0 != node.children@[i].0);
        }
        if i < j {
            assert(node.children@[i].0 != node.children@[j].0);
        }
    }
    if node.has_path(word) {
        let j = choose|j: int|
            0 <= j < node.children@.len() && (#[trigger] node.children@[j]).0 == word[0]
                && node.children@[j].1.has_path(word.skip(1));
        if j < i {
            assert(node.children@[j].0 != node.children@[i].0);
        }
        if i < j {
            assert(node.children@[i].0 != node.children@[j].0);
        }
    }
}

/// From a place that is well formed and no dead end, some letters lead to
/// the end of a word.
pub proof fn lemma_live_place_holds_a_word(node: TrieNode) -> (word: Seq<char>)
    requires
        node.wf(),
        node.live(),
    ensures
        node.holds(word),
    decreases node,
{
    if node.is_word {
        Seq::empty()
    } else {
        let child = node.children@[0];
        let rest = lemma_live_place_holds_a_word(child.1);
        let word = seq![child.0] + rest;
        assert(word[0] == child.0);
        assert(word.skip(1) =~= rest);
        word
    }
}

/// Letters lead somewhere exactly if they begin a word; the empty run of
/// letters leads somewhere in any case.
pub proof fn lemma_path_is_prefix(node: TrieNode, prefix: Seq<char>)
    requires
        node.wf(),
    ensures
        node.has_path(prefix) <==> prefix.len() == 0 || exists|word: Seq<char>|
            #[trigger] node.holds(word) && prefix.is_prefix_of(word),
    decreases prefix.len(),
{
    if prefix.len() > 0 {
        if node.has_path(prefix) {
            let i = choose|i: int|
                0 <= i < node.children@.len() && (#[trigger] node.children@[i]).0 == prefix[0]
                    && node.children@[i].1.has_path(prefix.skip(1));
            let child = node.children@[i].1;
            lemma_path_is_prefix(child, prefix.skip(1));
            let rest = if prefix.len() == 1 {
                lemma_live_place_holds_a_word(child)
            } else {
                choose|word: Seq<char>|
                    #[trigger] child.holds(word) && prefix.skip(1).is_prefix_of(word)
            };
            if prefix.len() == 1 {
                assert(prefix.skip(1) =~= Seq::<char>::empty());
            }
            let word = seq![prefix[0]] + rest;
            assert(word.skip(1) =~= rest);
            assert(word[0] == prefix[0]);
            lemma_step(node, i, word);
            assert(prefix.is_prefix_of(word)) by {
                assert(prefix =~= seq![prefix[0]] + prefix.skip(1));
                assert(word.subrange(0, prefix.len() as int) =~= prefix);
            }
            assert(node.holds(word) && prefix.is_prefix_of(word));
        }
        if exists|word: Seq<char>| #[trigger] node.holds(word) && prefix.is_prefix_of(word) {
            let word = choose|word: Seq<char>|
                #[trigger] node.holds(word) && prefix.is_prefix_of(word);
            assert(word.len() >= prefix.len());
            let i = choose|i: int|
                0 <= i < node.children@.len() && (#[trigger] node.children@[i]).0 == word[0]
                    && node.children@[i].1.holds(word.skip(1));
            let child = node.children@[i].1;
            assert(prefix[0] == word[0]) by {
                assert(word.subrange(0, prefix.len() as int)[0] == word[0]);
            }
            assert(prefix.skip(1).is_prefix_of(word.skip(1))) by {
                assert(word.skip(1).subrange(0, prefix.len() - 1) =~= word.subrange(
                    0,
                    prefix.len() as int,
                ).skip(1));
            }
            lemma_path_is_prefix(child, prefix.skip(1));
            assert(child.has_path(prefix.skip(1)));
        }
    }
}

impl View for Trie {
    type V = Set<Seq<char>>;

    open spec fn view(&self) -> Set<Seq<char>> {
        Set::new(|word: Seq<char>| self.root.holds(word))
    }
}

/// Puts the letters of `word` from the `from`-th on into the tree below
/// `node`.
fn insert_from(node: &mut TrieNode, word: &str, from: usize)
    requires
        old(node).wf(),
        from <= word@.len(),
    ensures
        final(node).wf(),
        final(node).live(),
        forall|other: Seq<char>|
            #[trigger] final(node).holds(other) <==> old(node).holds(other) || other
                == word@.skip(from as int),
    decreases word@.len() - from,
{
    let ghost rest = word@.skip(from as int);
    if from == word.unicode_len() {
        node.is_word = true;
        proof {
            assert(rest =~= Seq::<char>::empty());
            assert forall|other: Seq<char>| #[trigger]
                node.holds(other) <==> old(node).holds(other) || other == rest by {
                if other.len() == 0 {
                    assert(other =~= rest);
                }
            }
        }
        return ;
    }
    let letter = word.get_char(from);
    assert(rest[0] == letter);
    assert(rest.skip(1) =~= word@.skip(from as int + 1));
    match node.child(letter) {
        Some(i) => {
            let ghost before = *node;
            insert_from(&mut node.children[i].1, word, from + 1);
            proof {
                assert forall|k: int| 0 <= k < node.children@.len() && k != i implies (
                #[trigger] node.children@[k]) == before.children@[k] by {}
                assert(node.children@[i as int].0 == letter);
                assert(node.wf());
                assert forall|other: Seq<char>| #[trigger]
                    node.holds(other) <==> before.holds(other) || other == rest by {
                    if other.len() > 0 {
                        if other[0] == letter {
                            lemma_step(*node, i as int, other);
                            lemma_step(before, i as int, other);
                            if other.skip(1) == rest.skip(1) {
                                assert(other =~= seq![other[0]] + other.skip(1));
                                assert(rest =~= seq![rest[0]] + rest.skip(1));
                            }
                        } else {
                            if node.holds(other) {
                                let k = choose|k: int|
                                    0 <= k < node.children@.len() && (
                                    #[trigger] node.children@[k]).0 == other[0]
                                        && node.children@[k].1.holds(other.skip(1));
                                assert(before.children@[k] == node.children@[k]);
                            }
                            if before.holds(other) {
                                let k = choose|k: int|
                                    0 <= k < before.children@.len() && (
                                    #[trigger] before.children@[k]).0 == other[0]
                                        && before.children@[k].1.holds(other.skip(1));
                                assert(before.children@[k] == node.children@[k]);
                            }
                        }
                    }
                }
            }
        },
        None => {
            let ghost before = *node;
            let mut next = TrieNode::new();
            insert_from(&mut next, word, from + 1);
            node.children.push((letter, next));
            proof {
                let last = before.children@.len() as int;
                assert forall|k: int| 0 <= k < last implies (#[trigger] node.children@[k])
                    == before.children@[k] by {}
                assert(node.children@[last] == (letter, next));
                assert(node.wf());
                assert forall|other: Seq<char>| #[trigger]
                    node.holds(other) <==> before.holds(other) || other == rest by {
                    if other.len() > 0 {
                        if other[0] == letter {
                            lemma_step(*node, last, other);
                            if other.skip(1) == rest.skip(1) {
                                assert(other =~= seq![other[0]] + other.skip(1));
                                assert(rest =~= seq![rest[0]] + rest.skip(1));
                            }
                            if before.holds(other) {
                                let k = choose|k: int|
                                    0 <= k < before.children@.len() && (
                                    #[trigger] before.children@[k]).0 == other[0]
                                        && before.children@[k].1.holds(other.skip(1));
                                assert(false);
                            }
                        } else {
                            if node.holds(other) {
                                let k = choose|k: int|
                                    0 <= k < node.children@.len() && (
                                    #[trigger] node.children@[k]).0 == other[0]
                                        && node.children@[k].1.holds(other.skip(1));
                                assert(before.children@[k] == node.children@[k]);
                            }
                            if before.holds(other) {
                                let k = choose|k: int|
                                    0 <= k < before.children@.len() && (
                                    #[trigger] before.children@[k]).0 == other[0]
                                        && before.children@[k].1.holds(other.skip(1));
                                assert(before.children@[k] == node.children@[k]);
                            }
                        }
                    }
                }
            }
        },
    }
}

impl Trie {
    /// Every place of the tree is well formed.
    pub open spec fn wf(&self) -> bool {
        self.root.wf()
    }

    /// The empty set of words.
    pub fn new() -> (trie: Trie)
        ensures
            trie.wf(),
            trie@ == Set::<Seq<char>>::empty(),
    {
        let trie = Trie { root: TrieNode::new() };
        assert(trie@ =~= Set::<Seq<char>>::empty());
        trie
    }

    /// Adds `word` to the set.
    pub fn insert(&mut self, word: String)
        requires
            old(self).wf(),
        ensures
            final(self).wf(),
            final(self)@ == old(self)@.insert(word@),
    {
        insert_from(&mut self.root, word.as_str(), 0);
        assert(word@.skip(0) =~= word@);
        assert(final(self)@ =~= old(self)@.insert(word@));
    }

    /// Follows the letters of `word` from the root, as far as they lead.
    fn follow(&self, word: &str) -> (end: Option<&TrieNode>)
        requires
            self.wf(),
        ensures
            end is Some == self.root.has_path(word@),
            end matches Some(node) ==> node.is_word == self.root.holds(word@),
            end is None ==> !self.root.holds(word@),
    {
        let len: usize = word.unicode_len();
        let mut node = &self.root;
        let mut i: usize = 0;
        assert(word@.skip(0) =~= word@);
        while i < len
            invariant
                i <= len,
                len == word@.len(),
                node.wf(),
                self.root.holds(word@) == node.holds(word@.skip(i as int)),
                self.root.has_path(word@) == node.has_path(word@.skip(i as int)),
            decreases len - i,
        {
            let letter = word.get_char(i);
            let ghost rest = word@.skip(i as int);
            assert(rest[0] == letter);
            assert(rest.skip(1) =~= word@.skip(i as int + 1));
            match node.child(letter) {
                Some(next) => {
                    proof {
                        lemma_step(*node, next as int, rest);
                    }
                    node = &node.children[next].1;
                },
                None => {
                    return None;
                },
            }
            i = i + 1;
        }
        assert(word@.skip(len as int) =~= Seq::<char>::empty());
        Some(node)
    }

    /// Whether `word` is in the set.
    pub fn search(&self, word: String) -> (found: bool)
        requires
            self.wf(),
        ensures
            found == self@.contains(word@),
    {
        match self.follow(word.as_str()) {
            Some(node) => node.is_word,
            None => false,
        }
    }

    /// Whether some word of the set begins with `prefix`. The empty prefix
    /// begins everything, even where the set is empty.
    pub fn starts_with(&self, prefix: String) -> (found: bool)
        requires
            self.wf(),
        ensures
            found == (prefix@.len() == 0 || exists|word: Seq<char>|
                #[trigger] self@.contains(word) && prefix@.is_prefix_of(word)),
    {
        proof {
            lemma_path_is_prefix(self.root, prefix@);
            if exists|word: Seq<char>|
                #[trigger] self.root.holds(word) && prefix@.is_prefix_of(word) {
                let word = choose|word: Seq<char>|
                    #[trigger] self.root.holds(word) && prefix@.is_prefix_of(word);
                assert(self@.contains(word) && prefix@.is_prefix_of(word));
            }
            if exists|word: Seq<char>|
                #[trigger] self@.contains(word) && prefix@.is_prefix_of(word) {
                let word = choose|word: Seq<char>|
                    #[trigger] self@.contains(word) && prefix@.is_prefix_of(word);
                assert(self.root.holds(word) && prefix@.is_prefix_of(word));
            }
        }
        match self.follow(prefix.as_str()) {
            Some(_) => true,
            None => false,
        }
    }
}

} // verus!
