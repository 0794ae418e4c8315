#[test]
fn it_works() {
    assert_eq!(2, 2);
}
