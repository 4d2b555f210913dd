use zork::paths::{
    get_extension_of_name, get_file_details, get_file_name, get_parent, get_stem_of_name, join_path, make_path,
    set_extension,
};

#[test]
fn joining_paths() {
    assert_eq!(join_path("/a", "b"), "/a/b");
    assert_eq!(join_path("/a/", "b"), "/a/b");
    assert_eq!(join_path("/a", "/b"), "/b");
    assert_eq!(join_path("", "b"), "b");
    assert_eq!(join_path("/a", ""), "/a");
    assert_eq!(make_path("base", "file.cpp"), "base/file.cpp");
}

#[test]
fn parts_of_a_path() {
    assert_eq!(get_file_name("/a/b.tar.gz"), "b.tar.gz");
    assert_eq!(get_stem_of_name("b.tar.gz"), "b.tar");
    assert_eq!(get_extension_of_name("b.tar.gz"), "gz");
    assert_eq!(get_stem_of_name(".hidden"), ".hidden");
    assert_eq!(get_extension_of_name(".hidden"), "");
    assert_eq!(get_parent("/a/b"), "/a");
    assert_eq!(get_parent("/b"), "/");
    assert_eq!(get_parent("b"), "");
    assert_eq!(set_extension("/a/b.cpp", "o"), "/a/b.o");
    assert_eq!(set_extension("/a/b", ""), "/a/b");
    assert_eq!(set_extension("/a/..", "o"), "/a/..");
    assert_eq!(
        get_file_details("/p/src/math.cpp"),
        Some((String::from("/p/src"), String::from("math"), String::from("cpp")))
    );
    assert_eq!(
        get_file_details("math.cpp"),
        Some((String::new(), String::from("math"), String::from("cpp")))
    );
    assert_eq!(get_file_details("/p/.."), None);
}

#[test]
fn separators_and_dot_components_at_the_end_are_not_components() {
    assert_eq!(get_parent("/p/ifcs/sub//m.cppm"), "/p/ifcs/sub");
    assert_eq!(get_parent("/p/ifcs/./m.cppm"), "/p/ifcs");
    assert_eq!(get_parent("./m.cppm"), ".");
    assert_eq!(get_parent("//m"), "/");
    assert_eq!(get_file_name("/p/m.cppm/"), "m.cppm");
    assert_eq!(get_file_name("/p/x/."), "x");
    assert_eq!(get_file_name("."), ".");
    assert_eq!(get_file_name("/"), "");
    assert_eq!(get_parent("/p/x/."), "/p");
    assert_eq!(set_extension("/a/b.c/", "o"), "/a/b.o");
    assert_eq!(
        get_file_details("/p/m.cppm/"),
        Some((String::from("/p"), String::from("m"), String::from("cppm")))
    );
    assert_eq!(get_file_details("/p/x/."), Some((String::from("/p"), String::from("x"), String::new())));
    assert_eq!(get_file_details("/p/a/.."), None);
}
