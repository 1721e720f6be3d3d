use squri::commands::{get_app_info, greet};

#[test]
fn greet_formats_the_template() {
    assert_eq!(greet("World"), "Hello, World! Welcome to Squri!");
}

#[test]
fn greet_accepts_the_empty_string() {
    assert_eq!(greet(""), "Hello, ! Welcome to Squri!");
}

#[test]
fn greet_echoes_the_name_verbatim() {
    let name = "\u{c5}sa \u{65e5}\u{672c}";
    let g = greet(name);
    assert!(g.contains(name));
    assert!(g.starts_with("Hello, "));
    assert!(g.ends_with("! Welcome to Squri!"));
}

#[test]
fn app_info_is_the_constant_record() {
    let info = get_app_info();
    assert_eq!(info.name, "Squri");
    assert_eq!(info.version, "0.1.0");
    assert_eq!(
        info.description,
        "A unified codebase framework for desktop and mobile apps"
    );
}

#[test]
fn app_info_is_idempotent() {
    let a = get_app_info();
    let b = get_app_info();
    assert_eq!(a.name, b.name);
    assert_eq!(a.version, b.version);
    assert_eq!(a.description, b.description);
}
