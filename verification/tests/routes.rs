use rust_zola::routes::rust_handler;

#[test]
fn greeting_route_payload() {
    assert_eq!(rust_handler(), "Hello, World!");
}
