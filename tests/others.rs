use mz_cluster::fusion::Fusion;
use mz_cluster::generator::{as_generator, AnyGenerator, Generator, LoadGenerator};

#[test]
fn generator_of_each_kind() {
    let a = as_generator(&LoadGenerator::Auction);
    assert_eq!(a.kind(), LoadGenerator::Auction);
    assert!(matches!(a, AnyGenerator::Auction(_)));
    let c = as_generator(&LoadGenerator::Counter);
    assert_eq!(c.kind(), LoadGenerator::Counter);
    assert!(matches!(c, AnyGenerator::Counter(_)));
}

#[test]
fn fusion_name() {
    assert_eq!(Fusion.name(), "Fusion");
}
