use ccfront::utils::id_util::IncIDFactory;
use ccfront::utils::str_util::{default_cvt, new_line_ident, option_cvt, push_count, string_cvt, vec_to_code};
use ccfront::utils::to_btree::{to_btree_map, to_btree_set};
use ccfront::utils::unique_id_factory::UniqueIDFactory;
use std::collections::{BTreeMap, BTreeSet, HashMap, HashSet};

#[test]
fn ordered_copies() {
    let mut m = HashMap::new();
    m.insert(3usize, 'c');
    m.insert(1usize, 'a');
    m.insert(2usize, 'b');
    let b: BTreeMap<usize, char> = to_btree_map(m);
    assert_eq!(b.into_iter().collect::<Vec<_>>(), vec![(1, 'a'), (2, 'b'), (3, 'c')]);

    let s: HashSet<u32> = [9, 4, 7].into_iter().collect();
    let t: BTreeSet<u32> = to_btree_set(s);
    assert_eq!(t.into_iter().collect::<Vec<_>>(), vec![4, 7, 9]);

    let empty: HashMap<u8, u8> = HashMap::new();
    assert!(to_btree_map(empty).is_empty());
}

/// Ids that follow one another differ by one and never repeat.
#[test]
fn ids_are_unique() {
    let mut f = IncIDFactory::new(0);
    let a = f.next_id();
    let b = f.next_id();
    assert_eq!((a, b), (0, 1));
    assert_ne!(a, b);
    f.skip_id(5);
    assert_eq!(f.peek(), 7);
    assert_eq!(f.next(), Some(7));
}

#[test]
fn code_printing() {
    let mut s = String::from("ab");
    assert_eq!(push_count(&mut s, "çd".to_string()), 2);
    assert_eq!(s, "abçd");

    let (code, n) = vec_to_code(vec!["1".to_string(), "22".to_string()]);
    assert_eq!(n, 2);
    assert_eq!(code, "[\n    1, 22, \n]");

    // a line breaks before an item that would take it past the width
    let items: Vec<String> = (0..40).map(|_| "abc".to_string()).collect();
    let (code, n) = vec_to_code(items);
    assert_eq!(n, 40);
    let lines: Vec<&str> = code.lines().collect();
    assert_eq!(lines.len(), 5);
    assert_eq!(lines[0], "[");
    assert_eq!(lines[1].len(), 4 + 19 * 5);
    assert!(lines[1].starts_with("    abc, abc"));
    assert_eq!(lines[2], lines[1]);
    assert_eq!(lines[3], "    abc, abc, ");
    assert_eq!(lines[4], "]");
    assert!(lines.iter().all(|l| l.len() <= 100));

    // two items of 48 characters do not share a line
    let wide: Vec<String> = (0..2).map(|_| "x".repeat(48)).collect();
    let (code, _) = vec_to_code(wide);
    let lines: Vec<&str> = code.lines().collect();
    assert_eq!(lines.len(), 4);
    assert_eq!(lines[1].len(), 54);
    assert_eq!(lines[2].len(), 54);

    // a line break inside an item only shortens the lines
    let items: Vec<String> = (0..4).map(|_| format!("{}\n{}", "y".repeat(40), "z".repeat(40))).collect();
    let (code, _) = vec_to_code(items);
    assert!(code.lines().all(|l| l.len() <= 100));

    let (code, n) = vec_to_code(vec![]);
    assert_eq!((code.as_str(), n), ("[\n    \n]", 0));

    assert_eq!(option_cvt(None), "None");
    assert_eq!(option_cvt(Some(120)), "Some(120)");
    assert_eq!(string_cvt("x y".to_string()), "\"x y\"");
    assert_eq!(default_cvt(0), "0");
    assert_eq!(default_cvt(9075), "9075");
    assert_eq!(new_line_ident(true), "\n    ");
    assert_eq!(new_line_ident(false), "");
}
