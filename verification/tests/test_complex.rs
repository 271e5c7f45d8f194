use video_player::complex::Complex;

#[test]
fn text_complex() {
    let first = Complex::new(4, 6);
    let second: Complex<i32> = Complex::default();
    assert_eq!(first.re + first.im, 10);
    assert_eq!(second.re + second.im, 0);
    assert_ne!(first, second);
}

#[test]
fn complex_addition() {
    let a = Complex::new(1, -2);
    let b = Complex::default();
    assert_eq!(a + b, a);
}

#[test]
fn complex_from() {
    let a = (123, 234);
    let complex = Complex::from(a);

    assert_eq!(complex.re, 123);
    assert_eq!(complex.im, 234);
}

#[test]
fn complex_deiplay() {
    let my_imagination = Complex::new(123, 234);
    println!("{}", my_imagination.to_text());
}

#[test]
fn complex_text_is_real_plus_imaginary_i() {
    assert_eq!(Complex::new(123, 234).to_text(), "123 + 234i");
    assert_eq!(Complex::new(-1, 0).to_text(), "-1 + 0i");
}

#[test]
fn complex_addition_adds_part_by_part() {
    let sum = Complex::new(1_i64, -2) + Complex::new(10, 20);
    assert_eq!(sum.re, 11);
    assert_eq!(sum.im, 18);
    assert_eq!(Complex::from((3_u8, 4_u8)) + Complex::new(1, 1), Complex::new(4, 5));
}
