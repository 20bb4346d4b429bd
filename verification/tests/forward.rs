use fuze::Fused;
use fuze::IteratorExt;
use fuze::Producer;
use fuze::VecProducer;

#[test]
fn no_panic_until_first_none() {
    let mut i = VecProducer::new("foo".chars().collect()).fuze();
    assert_eq!(i.next(), Some('f'));
    assert_eq!(i.next(), Some('o'));
    assert_eq!(i.next(), Some('o'));
    assert_eq!(i.next(), None);
}

#[test]
fn no_panic_if_fused() {
    let mut i = Fused::new(VecProducer::new("foo".chars().collect()).fuze());
    while let Some(_) = i.next() {}
    assert_eq!(i.next(), None);
}

#[test]
fn size_hint() {
    let mut i = VecProducer::new(vec![1, 2, 3]).fuze();
    assert_eq!(i.size_hint(), (3, Some(3)));
    i.next();
    assert_eq!(i.size_hint(), (2, Some(2)));
    i.next();
    assert_eq!(i.size_hint(), (1, Some(1)));
    i.next();
    assert_eq!(i.size_hint(), (0, Some(0)));
    i.next();
    assert_eq!(i.size_hint(), (0, Some(0)));
}

#[test]
fn size_hint_stays_zero_after_release() {
    let mut i = VecProducer::new(vec![9]).fuze();
    assert_eq!(i.next(), Some(9));
    assert_eq!(i.next(), None);
    assert_eq!(i.size_hint(), (0, Some(0)));
    assert_eq!(i.size_hint(), (0, Some(0)));
    assert_eq!(i.size_hint(), (0, Some(0)));
}

#[test]
fn empty_producer_releases_at_once() {
    let mut i = VecProducer::<u8>::new(Vec::new()).fuze();
    assert_eq!(i.size_hint(), (0, Some(0)));
    assert_eq!(i.next(), None);
    assert_eq!(i.size_hint(), (0, Some(0)));
}

#[test]
fn fused_keeps_answering_none() {
    let mut i = Fused::new(VecProducer::new(vec![1, 2]).fuze());
    assert_eq!(i.next(), Some(1));
    assert_eq!(i.next(), Some(2));
    assert_eq!(i.next(), None);
    assert_eq!(i.next(), None);
    assert_eq!(i.next(), None);
    assert_eq!(i.size_hint(), (0, Some(0)));
}

#[test]
fn drain_yields_everything_and_releases() {
    let mut i = VecProducer::new("foo".chars().collect()).fuze();
    let all = fuze::drain(&mut i);
    assert_eq!(all, vec!['f', 'o', 'o']);
    assert_eq!(i.size_hint(), (0, Some(0)));
}

#[test]
#[should_panic = "called `Fuze::next` after it returned `None`"]
fn panic_on_another_next_after_none() {
    let mut i = VecProducer::new("foo".chars().collect()).fuze();
    while let Some(_) = i.next() {}
    i.next();
}
