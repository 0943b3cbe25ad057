use kontroll::text::{push_signed, push_unsigned};

#[test]
fn decimal_text_of_integers() {
    let text = |v: i64| {
        let mut s = String::from("n=");
        push_signed(&mut s, v);
        s
    };
    assert_eq!(text(0), "n=0");
    assert_eq!(text(7), "n=7");
    assert_eq!(text(10), "n=10");
    assert_eq!(text(-105), "n=-105");
    assert_eq!(text(i64::MIN), "n=-9223372036854775808");
    assert_eq!(text(i64::MAX), "n=9223372036854775807");
    let mut s = String::new();
    push_unsigned(&mut s, u64::MAX);
    assert_eq!(s, "18446744073709551615");
}
