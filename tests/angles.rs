use unitrix::{Degrees, Gradians};

#[test]
fn test_degrees_new() {
    let angle = Degrees::new(45.0);
    assert_eq!(angle.into_inner(), 45.0);
}

#[test]
fn test_gradians_new() {
    let angle = Gradians::new(50.0);
    assert_eq!(angle.into_inner(), 50.0);
}
