use fallible::basics::{
    basic_operations, disambiguating_overlaping_traits, learn_add_two, raii, supertraits, traits,
    Empty, Form, Graduate, Null,
};

#[test]
fn adds_two() {
    assert_eq!(learn_add_two(4, 5), 9);
    assert_eq!(learn_add_two(-4, 4), 0);
}

#[test]
fn bindings() {
    assert_eq!(basic_operations(), (true, 5, 4294967296, 21));
}

#[test]
fn boxes_are_counted() {
    assert_eq!(raii(), 1002);
}

#[test]
fn double_drop_consumes_both() {
    traits(Empty, Null);
}

#[test]
fn greeting_from_supertraits() {
    let g = Graduate {
        name: "Ada".to_string(),
        university: "Cambridge".to_string(),
        fav_language: "Rust".to_string(),
        git_username: "ada".to_string(),
    };
    assert_eq!(
        supertraits(&g),
        "My name is Ada and I attend Cambridge. My favorite language is Rust. My Git username is ada"
    );
}

#[test]
fn overlapping_getters() {
    let form = Form { username: "rustacean".to_owned(), age: 28 };
    let (username, age) = disambiguating_overlaping_traits(&form);
    assert_eq!("rustacean".to_owned(), username);
    assert_eq!(28, age);
}
