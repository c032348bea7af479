use daleth::presets::{collect_presets, failure_message, loaded_message};

#[test]
fn all_presets_parse() {
    let outcomes: Vec<Result<u32, String>> = vec![Ok(3), Ok(1), Ok(2)];
    assert_eq!(collect_presets(outcomes), Ok(vec![3, 1, 2]));
    let none: Vec<Result<u32, String>> = Vec::new();
    assert_eq!(collect_presets(none), Ok(vec![]));
}

#[test]
fn first_failure_is_reported() {
    let outcomes: Vec<Result<u32, &str>> = vec![Ok(3), Err("first"), Ok(2), Err("second")];
    assert_eq!(collect_presets(outcomes), Err((1, "first")));
    let outcomes: Vec<Result<u32, &str>> = vec![Err("only")];
    assert_eq!(collect_presets(outcomes), Err((0, "only")));
}

#[test]
fn status_messages() {
    assert_eq!(loaded_message(), "✔");
    assert_eq!(failure_message(0, "unknown function"), "in tb № 0 unknown function");
    assert_eq!(failure_message(12, "x"), "in tb № 12 x");
    assert_eq!(failure_message(1907, ""), "in tb № 1907 ");
    assert_eq!(failure_message(usize::MAX, "e"), format!("in tb № {} e", usize::MAX));
}
