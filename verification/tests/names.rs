use aida::names::normalize_class_name;

fn dotted(signature: &str) -> Option<String> {
    normalize_class_name(signature)
}

#[test]
fn descriptor_becomes_dotted_name() {
    assert_eq!(dotted("Lcom/example/Foo;"), Some("com.example.Foo".to_string()));
}

#[test]
fn class_in_default_package_keeps_its_name() {
    assert_eq!(dotted("LFoo;"), Some("Foo".to_string()));
}

#[test]
fn nested_class_keeps_its_dollar() {
    assert_eq!(
        dotted("Lcom/example/Outer$Inner;"),
        Some("com.example.Outer$Inner".to_string())
    );
}

#[test]
fn bare_sigils_give_the_empty_name() {
    assert_eq!(dotted("L;"), Some(String::new()));
}

#[test]
fn only_the_outer_sigils_are_stripped() {
    assert_eq!(dotted("LLa/b;;"), Some("La.b;".to_string()));
}

#[test]
fn characters_beyond_ascii_pass_through() {
    assert_eq!(dotted("Lpaket/Größe;"), Some("paket.Größe".to_string()));
}

#[test]
fn empty_text_names_no_class() {
    assert_eq!(dotted(""), None);
}

#[test]
fn lone_sigil_names_no_class() {
    assert_eq!(dotted("L"), None);
    assert_eq!(dotted(";"), None);
}

#[test]
fn array_and_primitive_descriptors_name_no_class() {
    assert_eq!(dotted("[I"), None);
    assert_eq!(dotted("I"), None);
    assert_eq!(dotted("[Ljava/lang/String;"), None);
}

#[test]
fn descriptor_cut_short_names_no_class() {
    assert_eq!(dotted("Lcom/example/Foo"), None);
    assert_eq!(dotted("com/example/Foo;"), None);
}

#[test]
fn dotted_name_holds_no_slash() {
    let name = dotted("La/b/c/d/E;").unwrap();
    assert_eq!(name, "a.b.c.d.E");
    assert!(!name.contains('/'));
    assert_eq!(name.chars().count(), "La/b/c/d/E;".chars().count() - 2);
}
