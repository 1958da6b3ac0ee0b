use libgit::refs::get_ref;
use libgit::repo::force_refspec;
use libgit::text::{concat_str, contains_str};

#[test]
fn get_ref_works() {
    let branches = [
        ("master", "refs/heads/master"),
        ("refs/heads/master", "refs/heads/master"),
    ];
    for (name, ref_) in branches.iter() {
        assert_eq!(get_ref(name), *ref_);
    }
}

#[test]
fn get_ref_keeps_a_name_holding_the_prefix_anywhere() {
    assert_eq!(get_ref("origin/refs/heads/x"), "origin/refs/heads/x");
    assert_eq!(get_ref(""), "refs/heads/");
    assert_eq!(get_ref("refs/tags/v1"), "refs/heads/refs/tags/v1");
}

#[test]
fn force_refspec_names_the_branch_on_both_sides() {
    assert_eq!(force_refspec("main"), "+refs/heads/main:refs/heads/main");
    assert_eq!(force_refspec("refs/heads/x"), "+refs/heads/x:refs/heads/x");
}

#[test]
fn contains_str_finds_infixes() {
    assert!(contains_str("abcdef", "cde"));
    assert!(contains_str("abc", ""));
    assert!(contains_str("", ""));
    assert!(!contains_str("abc", "abcd"));
    assert!(!contains_str("abcabd", "abe"));
    assert!(contains_str("abcabd", "abd"));
    assert!(contains_str("héllo wörld", "ö"));
}

#[test]
fn concat_str_joins_text() {
    assert_eq!(concat_str("ab", "cd"), "abcd");
    assert_eq!(concat_str("", "x"), "x");
    assert_eq!(concat_str("é", ""), "é");
}
