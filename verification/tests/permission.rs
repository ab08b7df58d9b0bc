use xenstore_async::decimal::{parse_decimal, push_decimal};
use xenstore_async::error::XsError;
use xenstore_async::permission::{XsAccess, XsPermission};

fn perm(access: XsAccess, domid: u32) -> XsPermission {
    XsPermission { access, domid }
}

#[test]
fn permission_texts() {
    assert_eq!(perm(XsAccess::Nothing, 0).to_string(), "n0");
    assert_eq!(perm(XsAccess::Read, 12).to_string(), "r12");
    assert_eq!(perm(XsAccess::Write, 305).to_string(), "w305");
    assert_eq!(perm(XsAccess::ReadWrite, u32::MAX).to_string(), "b4294967295");
}

#[test]
fn permissions_come_back() {
    for access in [XsAccess::Nothing, XsAccess::Read, XsAccess::Write, XsAccess::ReadWrite] {
        for domid in [0, 1, 9, 10, 32752, u32::MAX] {
            let p = perm(access, domid);
            assert_eq!(XsPermission::from_str(&p.to_string()).unwrap(), p);
        }
    }
    assert_eq!(XsPermission::from_str("r007").unwrap(), perm(XsAccess::Read, 7));
}

#[test]
fn texts_that_are_no_permission() {
    for text in ["", "n", "0", "x0", "n-1", "n+1", "n1 ", "N1", "b4294967296", "r1\u{663}"] {
        match XsPermission::from_str(text) {
            Err(XsError::InvalidPermission(t)) => assert_eq!(t, text),
            other => panic!("{:?}", other),
        }
    }
}

#[test]
fn decimal_texts() {
    for (n, text) in [(0, "0"), (10, "10"), (99, "99"), (4294967295, "4294967295")] {
        let mut out = String::from("#");
        push_decimal(&mut out, n);
        assert_eq!(out, format!("#{}", text));
        let chars: Vec<char> = out.chars().collect();
        assert_eq!(parse_decimal(&chars, 1), Some(n));
        assert_eq!(parse_decimal(&chars, 0), None);
    }
    let big: Vec<char> = "99999999999".chars().collect();
    assert_eq!(parse_decimal(&big, 0), None);
    assert_eq!(parse_decimal(&big, big.len()), None);
    assert_eq!(parse_decimal(&big, 2), Some(999999999));
}
