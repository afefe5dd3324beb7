use weather_report::city::resolve_city;

fn words(items: &[&str]) -> Vec<String> {
    items.iter().map(|s| s.to_string()).collect()
}

#[test]
fn arguments_override_the_default_city() {
    assert_eq!(resolve_city(&words(&["New", "York"]), "London"), "New York");
}

#[test]
fn one_argument_is_the_city() {
    assert_eq!(resolve_city(&words(&["Paris"]), "London"), "Paris");
    assert_eq!(resolve_city(&words(&["Paris"]), ""), "Paris");
}

#[test]
fn no_argument_gives_the_default_city() {
    assert_eq!(resolve_city(&words(&[]), "London"), "London");
    assert_eq!(resolve_city(&words(&[]), ""), "");
    assert_eq!(resolve_city(&words(&[]), " São Paulo "), " São Paulo ");
}

#[test]
fn arguments_are_joined_without_trimming() {
    assert_eq!(resolve_city(&words(&[" a ", "", "b"]), "London"), " a   b");
    assert_eq!(resolve_city(&words(&[""]), "London"), "");
}

#[test]
fn joined_arguments_agree_with_std_join() {
    let cases: [&[&str]; 4] = [&["x"], &["x", "y"], &["Stoke", "on", "Trent"], &["", ""]];
    for case in cases {
        let args = words(case);
        assert_eq!(resolve_city(&args, "unused"), args.join(" "));
    }
}
