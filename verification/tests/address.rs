use tower_dns::single_address;

#[derive(Clone, Copy, Debug, PartialEq, Eq)]
enum Addr {
    V4([u8; 4]),
    V6([u16; 8]),
}

#[derive(Debug, PartialEq, Eq)]
struct NoAddress(&'static str);

const A: Addr = Addr::V4([192, 0, 2, 1]);
const B: Addr = Addr::V4([192, 0, 2, 2]);
const C: Addr = Addr::V6([0x2001, 0xdb8, 0, 0, 0, 0, 0, 1]);

#[test]
fn single_address_of_one_is_that_one() {
    assert_eq!(single_address(&[C], NoAddress("example.com")), Ok(C));
}

#[test]
fn single_address_of_several_is_the_first() {
    assert_eq!(single_address(&[B, A, C], NoAddress("example.com")), Ok(B));
    assert_eq!(single_address(&[A, B, C], NoAddress("example.com")), Ok(A));
    assert_eq!(single_address(&[C, C, A], NoAddress("example.com")), Ok(C));
}

#[test]
fn single_address_of_none_is_the_error_given() {
    let found: [Addr; 0] = [];
    assert_eq!(
        single_address(&found, NoAddress("nxdomain.invalid")),
        Err(NoAddress("nxdomain.invalid"))
    );
}

#[test]
fn single_address_leaves_the_answer_alone() {
    let found = vec![A, B];
    assert_eq!(single_address(&found, ()), Ok(A));
    assert_eq!(found, vec![A, B]);
    assert_eq!(single_address(&found[1..], ()), Ok(B));
    assert_eq!(single_address(&found[2..], ()), Err(()));
}
