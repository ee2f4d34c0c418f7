//! Basic harness smoke test.

#[test]
fn test() {
    println!("library works");
}
