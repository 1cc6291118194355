use peepable::Peepable;
use peepable::producer::{Producer, VecProducer};

#[test]
fn basic_peeping() {
    let vec = vec![1, 2, 3];

    let peeper: Peepable<_> = Peepable::new(VecProducer::new(vec));

    assert_eq!(peeper.peep(), Some(&1));

    let mut peeper = peeper;

    assert_eq!(peeper.peep(), Some(&1));
    assert_eq!(peeper.peep(), Some(&1));
    assert_eq!(peeper.next(), Some(1));

    assert_eq!(peeper.peep(), Some(&2));
    assert_eq!(peeper.next(), Some(2));

    assert_eq!(peeper.next(), Some(3));

    assert_eq!(peeper.next(), None);
    assert_eq!(peeper.peep(), None);
}

#[test]
fn basic_iterator() {
    let vec = vec![1, 2, 3];

    let mut peepable = Peepable::new(VecProducer::new(vec));

    assert_eq!(peepable.next(), Some(1));
    assert_eq!(peepable.next(), Some(2));
    assert_eq!(peepable.next(), Some(3));
    assert_eq!(peepable.next(), None);
    assert_eq!(peepable.next(), None);
}

#[test]
fn has_iterator_tools() {
    let iter = Peepable::new(VecProducer::new(vec![0, 1, 2, 3]));

    let sum: u8 = iter.into_vec().into_iter().filter(|x| x > &1).map(|x| x * x).sum();

    assert_eq!(sum, 13);
}

#[test]
fn peep_correctly() {
    let iter = VecProducer::new(vec![1, 2, 3, 4]);

    let peeper = Peepable::new(iter);

    // Peeping multiple times does not advance.
    // Can peep on an immutable variable.
    assert_eq!(peeper.peep(), Some(&1));
    assert_eq!(peeper.peep(), Some(&1));

    let mut peeper = peeper;

    // Sweet, now it should work as any other iterator.
    assert_eq!(peeper.peep(), Some(&1));
    assert_eq!(peeper.next(), Some(1));

    assert_eq!(peeper.next(), Some(2));

    assert_eq!(peeper.peep(), Some(&3));
    assert_eq!(peeper.next(), Some(3));

    assert_eq!(peeper.peep(), Some(&4));
    assert_eq!(peeper.next(), Some(4));

    assert_eq!(peeper.peep(), None);
    assert_eq!(peeper.peep(), None);
    assert_eq!(peeper.next(), None);
}

#[test]
fn empty_producer() {
    let peeper = Peepable::new(VecProducer::new(Vec::<u32>::new()));

    assert_eq!(peeper.peep(), None);

    let mut peeper = peeper;

    assert_eq!(peeper.next(), None);
    assert_eq!(peeper.peep(), None);
}

#[test]
fn exhaustion_is_terminal() {
    let mut peeper = Peepable::new(VecProducer::new(vec![42]));

    assert_eq!(peeper.next(), Some(42));

    for _ in 0..5 {
        assert_eq!(peeper.peep(), None);
        assert_eq!(peeper.next(), None);
    }
}

#[test]
fn producer_pulls_in_order() {
    let mut producer = VecProducer::new(vec![10, 20, 30]);

    assert_eq!(producer.pull(), Some(10));
    assert_eq!(producer.pull(), Some(20));
    assert_eq!(producer.pull(), Some(30));
    assert_eq!(producer.pull(), None);
    assert_eq!(producer.pull(), None);
}

#[test]
fn drain_after_advance() {
    let mut peeper = Peepable::new(VecProducer::new(vec![5, 6, 7]));

    assert_eq!(peeper.peep(), Some(&5));
    assert_eq!(peeper.next(), Some(5));

    assert_eq!(peeper.into_vec(), vec![6, 7]);
}

#[test]
fn drain_whole_sequence() {
    let peeper = Peepable::new(VecProducer::new(vec![1, 2, 3]));

    assert_eq!(peeper.into_vec(), vec![1, 2, 3]);
}

#[test]
fn peeps_owned_items() {
    let words = vec![String::from("peep"), String::from("able")];

    let peeper = Peepable::new(VecProducer::new(words));

    assert_eq!(peeper.peep(), Some(&String::from("peep")));

    let mut peeper = peeper;

    assert_eq!(peeper.next(), Some(String::from("peep")));
    assert_eq!(peeper.peep(), Some(&String::from("able")));
    assert_eq!(peeper.next(), Some(String::from("able")));
    assert_eq!(peeper.next(), None);
}
