use tp::shard::{index_probe_url, is_index_mirror, sparse_index_path};
use tp::text::lower;

#[test]
fn one_character_names_go_under_1() {
    assert_eq!(sparse_index_path("a"), "1/a");
}

#[test]
fn two_character_names_go_under_2() {
    assert_eq!(sparse_index_path("ab"), "2/ab");
}

#[test]
fn three_character_names_go_under_3_and_their_first_character() {
    assert_eq!(sparse_index_path("abc"), "3/a/abc");
}

#[test]
fn longer_names_go_under_their_first_four_characters() {
    assert_eq!(sparse_index_path("abcd"), "ab/cd/abcd");
    assert_eq!(sparse_index_path("rust"), "ru/st/rust");
    assert_eq!(sparse_index_path("serde_json"), "se/rd/serde_json");
}

#[test]
fn case_plays_no_part_in_the_path() {
    assert_eq!(sparse_index_path("AB"), "2/ab");
    assert_eq!(sparse_index_path("AB"), sparse_index_path("ab"));
    assert_eq!(sparse_index_path("Rust"), "ru/st/rust");
    assert_eq!(sparse_index_path("TokIO"), sparse_index_path("tokio"));
}

#[test]
fn the_path_is_the_same_every_time() {
    assert_eq!(sparse_index_path("facet-json"), sparse_index_path("facet-json"));
    assert_eq!(sparse_index_path("facet-json"), "fa/ce/facet-json");
}

#[test]
fn folding_keeps_what_is_no_upper_case_letter() {
    assert_eq!(lower("A-b_C9"), "a-b_c9");
    assert_eq!(lower("@[`{"), "@[`{");
    assert_eq!(lower(""), "");
}

#[test]
fn the_probe_goes_to_the_index() {
    assert_eq!(index_probe_url("Serde"), "https://index.crates.io/se/rd/serde");
    assert_eq!(index_probe_url("a"), "https://index.crates.io/1/a");
}

#[test]
fn index_mirrors_are_known_by_their_name() {
    assert!(is_index_mirror("index.crates.io-6f17d22bba15001f"));
    assert!(is_index_mirror("index.crates.io-"));
    assert!(!is_index_mirror("index.crates.io"));
    assert!(!is_index_mirror("github.com-1ecc6299db9ec823"));
    assert!(!is_index_mirror(""));
}
