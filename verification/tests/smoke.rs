use covalent::DisplayHints;

#[test]
fn it_works() {
    assert_eq!(2 + 2, 4);
}

#[test]
fn lib_it_works() {
    assert_eq!(2 + 2, 4);
}

#[test]
fn display_hints_defaults() {
    let hints = DisplayHints::new();
    assert_eq!(hints.title, "Covalent");
    assert_eq!(hints.width, 1024);
    assert_eq!(hints.height, 768);
}
