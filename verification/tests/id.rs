use bg_maker::id::IdGenerator;

#[test]
fn identifiers_start_at_zero_and_grow() {
    let mut generator = IdGenerator::new();
    let a = generator.generate();
    let b = generator.generate();
    let c = generator.generate();
    assert_eq!(a.value(), 0);
    assert_eq!(b.value(), 1);
    assert_eq!(c.value(), 2);
    assert!(a < b && b < c);
    assert_ne!(a, b);
    assert!(!generator.is_exhausted());
}
