use fifo_queue::complex::{complex_text, Complex};

#[test]
fn test_complex_add() {
    let a = Complex { re: 1, im: 1 };
    let b = Complex { re: 2, im: 2 };
    let c = b + a;
    let d = Complex { re: 3, im: 3 };

    assert_eq!(c.re, d.re);
    assert_eq!(c.im, d.im);
}

#[test]
fn test_complex_negation() {
    let a = Complex { re: 1, im: 1 };
    let b = !a;
    let c = -a;
    assert_eq!(!a.re, b.re);
    assert_eq!(!a.im, b.im);
    assert_eq!(-a.re, c.re);
    assert_eq!(-a.im, c.im);
}

#[test]
fn test_add_assign() {
    let mut a = Complex { re: 1, im: 1 };
    let b = Complex { re: 2, im: 2 };
    a.add_assign(b);
    assert_eq!(a.re, 3);
    assert_eq!(a.im, 3);
}

#[test]
fn test_eq() {
    let x = Complex { re: 5, im: 2 };
    let y = Complex { re: 2, im: 5 };
    assert_eq!(x * y, Complex { re: 0, im: 29 });
}

/// Writes a complex number of floats: the parts are put into writing here,
/// the library lays them out.
fn written(z: &Complex<f64>) -> String {
    let negative = z.im < f64::default();
    let magnitude = num::Signed::abs(&z.im);
    complex_text(&z.re.to_string(), negative, &magnitude.to_string())
}

#[test]
fn test_fmt_display() {
    let one_twenty = Complex { re: -0.5, im: 0.866 };
    assert_eq!(written(&one_twenty), "-0.5 + 0.866i");

    let two_forty = Complex { re: -0.5, im: -0.866 };
    assert_eq!(written(&two_forty), "-0.5 - 0.866i");
}

#[test]
fn whole_numbers_in_writing() {
    assert_eq!(Complex { re: 3, im: -4 }.to_text(), "3 - 4i");
    assert_eq!(Complex { re: 3, im: 4 }.to_text(), "3 + 4i");
    assert_eq!(Complex { re: -12, im: 0 }.to_text(), "-12 + 0i");
    assert_eq!(Complex { re: 0, im: -1 }.to_text(), "0 - 1i");
    assert_eq!(
        Complex { re: i32::MIN, im: i32::MAX }.to_text(),
        "-2147483648 + 2147483647i"
    );
    assert_eq!(
        Complex { re: i32::MAX, im: i32::MIN + 1 }.to_text(),
        "2147483647 - 2147483647i"
    );
}

#[test]
fn parts_are_laid_out_as_given() {
    assert_eq!(complex_text("1", false, "2"), "1 + 2i");
    assert_eq!(complex_text("1", true, "2"), "1 - 2i");
    assert_eq!(complex_text("", false, ""), " + i");
}

#[test]
fn equality_is_by_both_parts() {
    assert!(Complex { re: 1, im: 2 } == Complex { re: 1, im: 2 });
    assert!(Complex { re: 1, im: 2 } != Complex { re: 1, im: 3 });
    assert!(Complex { re: 1, im: 2 } != Complex { re: 0, im: 2 });
}

#[test]
fn product_of_complex_numbers() {
    // (1 + 2i)(3 + 4i) = 3 + 4i + 6i - 8 = -5 + 10i
    assert_eq!(Complex { re: 1, im: 2 } * Complex { re: 3, im: 4 }, Complex { re: -5, im: 10 });
    // i * i = -1
    assert_eq!(Complex { re: 0, im: 1 } * Complex { re: 0, im: 1 }, Complex { re: -1, im: 0 });
}

#[test]
fn sum_and_negation_by_parts() {
    let sum = Complex { re: -7, im: 9 } + Complex { re: 7, im: 1 };
    assert_eq!(sum, Complex { re: 0, im: 10 });
    assert_eq!(-Complex { re: 4, im: -6 }, Complex { re: -4, im: 6 });
    assert_eq!(!Complex { re: 0u8, im: 255u8 }, Complex { re: 255u8, im: 0u8 });
    assert_eq!(!Complex { re: true, im: false }, Complex { re: false, im: true });
}
