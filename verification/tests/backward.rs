use fuze::DoubleEndedProducer;
use fuze::Fused;
use fuze::IteratorExt;
use fuze::Producer;
use fuze::VecProducer;

#[test]
fn lib_no_panic_until_first_none() {
    let mut i = VecProducer::new("foo".chars().collect()).fuze();
    assert_eq!(i.next_back(), Some('o'));
    assert_eq!(i.next_back(), Some('o'));
    assert_eq!(i.next_back(), Some('f'));
    assert_eq!(i.next_back(), None);
}

#[test]
fn lib_no_panic_if_fused() {
    let mut i = Fused::new(VecProducer::new("foo".chars().collect()).fuze());
    while let Some(_) = i.next_back() {}
    assert_eq!(i.next_back(), None);
}

#[test]
fn both_ends_share_one_producer() {
    let mut i = VecProducer::new("foo".chars().collect()).fuze();
    assert_eq!(i.next(), Some('f'));
    assert_eq!(i.next_back(), Some('o'));
    assert_eq!(i.next(), Some('o'));
    assert_eq!(i.next_back(), None);
    assert_eq!(i.size_hint(), (0, Some(0)));
}

#[test]
fn backward_release_zeroes_estimates() {
    let mut i = VecProducer::new(vec![4, 5]).fuze();
    assert_eq!(i.next_back(), Some(5));
    assert_eq!(i.size_hint(), (1, Some(1)));
    assert_eq!(i.next_back(), Some(4));
    assert_eq!(i.next_back(), None);
    assert_eq!(i.size_hint(), (0, Some(0)));
}

#[test]
#[should_panic = "called `Fuze::next_back` after it returned `None`"]
fn panic_on_another_next_back_after_none() {
    let mut i = VecProducer::new("foo".chars().collect()).fuze();
    while let Some(_) = i.next_back() {}
    i.next_back();
}
