use pkgs::system::System;

#[test]
fn system_names() {
    assert_eq!(System::x86_64_linux.to_string(), "x86_64-linux");
    assert_eq!(System::i686_linux.to_string(), "i686-linux");
    assert_eq!(System::aarch64_linux.to_string(), "aarch64-linux");
    assert_eq!(System::x86_64_darwin.to_string(), "x86_64-darwin");
    assert_eq!(System::aarch64_darwin.to_string(), "aarch64-darwin");
}

#[test]
fn hash_keeps_its_text() {
    let h = pkgs::hash::Hash::new("sha256:abc");
    assert_eq!(h.text, "sha256:abc");
    assert_eq!(h.clone(), h);
}

#[test]
fn base_name_is_the_last_component() {
    assert_eq!(pkgs::text::base_name("https://www.zlib.net/fossils/zlib-1.3.1.tar.gz"), "zlib-1.3.1.tar.gz");
    assert_eq!(pkgs::text::base_name("mirror://gnu/hello/hello-2.12.1.tar.gz"), "hello-2.12.1.tar.gz");
}

#[test]
fn base_name_without_a_slash_is_the_whole() {
    assert_eq!(pkgs::text::base_name("archive.tar"), "archive.tar");
    assert_eq!(pkgs::text::base_name(""), "");
}

#[test]
fn base_name_after_a_trailing_slash_is_empty() {
    assert_eq!(pkgs::text::base_name("https://example.org/dir/"), "");
    assert_eq!(pkgs::text::base_name("/"), "");
}

#[test]
fn base_name_counts_characters_not_bytes() {
    assert_eq!(pkgs::text::base_name("héllo/wörld"), "wörld");
    assert_eq!(pkgs::text::base_name("日本/語"), "語");
}

#[test]
fn join_puts_the_separator_between() {
    assert_eq!(pkgs::text::join(&vec!["a", "b", "c"], " "), "a b c");
    assert_eq!(pkgs::text::join(&vec!["a", "b"], ", "), "a, b");
}

#[test]
fn join_of_one_or_none() {
    assert_eq!(pkgs::text::join(&vec!["only"], " "), "only");
    assert_eq!(pkgs::text::join(&Vec::new(), " "), "");
}

#[test]
fn join_keeps_empty_items() {
    assert_eq!(pkgs::text::join(&vec!["", "x", ""], "-"), "-x-");
}

#[test]
fn only_if_gives_text_or_nothing() {
    assert_eq!(pkgs::text::only_if(true, "--static"), "--static");
    assert_eq!(pkgs::text::only_if(false, "--static"), "");
}
