use video_player::trie::Trie;
use video_player::trie::TrieNode;

#[test]
fn trie_finds_whole_words_only() {
    let mut trie = Trie::new();
    trie.insert("apple".to_string());
    assert!(trie.search("apple".to_string()));
    assert!(!trie.search("app".to_string()));
    assert!(trie.starts_with("app".to_string()));
    trie.insert("app".to_string());
    assert!(trie.search("app".to_string()));
    assert!(trie.search("apple".to_string()));
}

#[test]
fn empty_trie_holds_nothing() {
    let trie = Trie::new();
    assert!(!trie.search("".to_string()));
    assert!(!trie.search("a".to_string()));
    assert!(trie.starts_with("".to_string()));
    assert!(!trie.starts_with("a".to_string()));
    let node = TrieNode::new();
    assert!(node.children.is_empty());
    assert!(!node.is_word);
}

#[test]
fn trie_tells_prefixes_from_other_beginnings() {
    let mut trie = Trie::new();
    for word in ["tea", "ten", "to", "inn", "", "t\u{e9}"].iter() {
        trie.insert(word.to_string());
    }
    assert!(trie.search("".to_string()));
    assert!(trie.search("to".to_string()));
    assert!(trie.search("t\u{e9}".to_string()));
    assert!(!trie.search("t".to_string()));
    assert!(!trie.search("te".to_string()));
    assert!(!trie.search("tens".to_string()));
    assert!(trie.starts_with("t".to_string()));
    assert!(trie.starts_with("te".to_string()));
    assert!(trie.starts_with("inn".to_string()));
    assert!(!trie.starts_with("inns".to_string()));
    assert!(!trie.starts_with("x".to_string()));
    assert!(!trie.starts_with("ta".to_string()));
    assert_eq!(trie.root.children.len(), 2);
}

#[test]
fn word_inserted_twice_is_held_once() {
    let mut trie = Trie::new();
    trie.insert("go".to_string());
    trie.insert("go".to_string());
    assert!(trie.search("go".to_string()));
    assert_eq!(trie.root.children.len(), 1);
    assert_eq!(trie.root.children[0].1.children.len(), 1);
}
