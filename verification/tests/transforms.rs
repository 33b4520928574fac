use oflike_gen::utils::{generate_bundle_id, to_pascal_case};

#[test]
fn pascal_case_kebab() {
    assert_eq!(to_pascal_case("my-cool-app"), "MyCoolApp");
}

#[test]
fn pascal_case_snake() {
    assert_eq!(to_pascal_case("my_app"), "MyApp");
    assert_eq!(to_pascal_case("my_cool-app"), "MyCoolApp");
}

#[test]
fn pascal_case_single_word() {
    assert_eq!(to_pascal_case("demo"), "Demo");
    assert_eq!(to_pascal_case("Demo"), "Demo");
}

#[test]
fn pascal_case_empty_segments_contribute_nothing() {
    assert_eq!(to_pascal_case("my--app"), "MyApp");
    assert_eq!(to_pascal_case("-app-"), "App");
    assert_eq!(to_pascal_case("my-_app"), "MyApp");
    assert_eq!(to_pascal_case(""), "");
    assert_eq!(to_pascal_case("--"), "");
}

#[test]
fn bundle_id_lowercases_and_strips_underscores() {
    assert_eq!(generate_bundle_id("My_App", "com.example"), "com.example.myapp");
    assert_eq!(generate_bundle_id("DemoApp", "org.test"), "org.test.demoapp");
}

#[test]
fn bundle_id_keeps_hyphens() {
    assert_eq!(generate_bundle_id("demo-app", "com.example"), "com.example.demo-app");
}

#[test]
fn bundle_id_is_deterministic() {
    let a = generate_bundle_id("Mixed_Case-Name", "com.example");
    let b = generate_bundle_id("Mixed_Case-Name", "com.example");
    assert_eq!(a, b);
    assert_eq!(a, "com.example.mixedcase-name");
}
