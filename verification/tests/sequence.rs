use dyn_ptr::{DoubleEndedSequence, Dyn, ExactSizeSequence, PointerLike, Sequence, Span};

fn erased(lo: u16, hi: u16) -> Dyn<Span> {
    Span { lo, hi }.pack().do_dyn()
}

#[test]
fn span_packs_into_one_word() {
    assert_eq!(Span { lo: 3, hi: 6 }.pack(), 0x0006_0003);
    assert_eq!(Span { lo: 0, hi: 0 }.pack(), 0);
    assert_eq!(Span { lo: 0xFFFF, hi: 0xFFFF }.pack(), 0xFFFF_FFFF);
    let span = Span::unpack(0x0006_0003);
    assert_eq!((span.lo, span.hi), (3, 6));
    let span = Span::unpack(Span { lo: 65535, hi: 1 }.pack());
    assert_eq!((span.lo, span.hi), (65535, 1));
}

#[test]
fn erased_producer_yields_the_same_items_in_order() {
    let mut plain = Span { lo: 3, hi: 6 };
    let mut handle = erased(3, 6);
    assert_eq!(handle.size_hint(), (3, Some(3)));
    assert_eq!(handle.size_hint(), plain.size_hint());
    assert_eq!(handle.len(), 3);
    assert!(!handle.is_empty());

    let mut seen: Vec<u16> = Vec::new();
    while let Some(item) = handle.next() {
        assert_eq!(Some(item), plain.next());
        assert_eq!(handle.size_hint(), plain.size_hint());
        assert_eq!(handle.len(), plain.len());
        seen.push(item);
    }
    assert_eq!(seen, vec![3, 4, 5]);
    assert_eq!(plain.next(), None);
    assert!(handle.is_empty());
    assert_eq!(handle.size_hint(), (0, Some(0)));
    handle.drop(&mut ());
}

#[test]
fn exhaustion_is_permanent() {
    let mut handle = erased(7, 8);
    assert_eq!(handle.next(), Some(7));
    assert_eq!(handle.next(), None);
    assert_eq!(handle.next(), None);
    assert_eq!(handle.next_back(), None);
    assert_eq!(handle.nth(0), None);
    assert_eq!(handle.len(), 0);
    handle.drop(&mut ());
}

#[test]
fn empty_and_reversed_spans_produce_nothing() {
    let mut handle = erased(5, 5);
    assert!(handle.is_empty());
    assert_eq!(handle.next(), None);
    handle.drop(&mut ());
    let mut handle = erased(9, 2);
    assert_eq!(handle.len(), 0);
    assert_eq!(handle.next_back(), None);
    assert_eq!(handle.last(&mut ()), None);
}

#[test]
fn last_is_the_item_produced_last() {
    assert_eq!(erased(3, 6).last(&mut ()), Some(5));
    assert_eq!(erased(3, 4).last(&mut ()), Some(3));
    assert_eq!(erased(4, 4).last(&mut ()), None);
    let mut handle = erased(10, 20);
    assert_eq!(handle.next(), Some(10));
    assert_eq!(handle.next_back(), Some(19));
    assert_eq!(handle.last(&mut ()), Some(18));
}

#[test]
fn nth_skips_from_the_front() {
    let mut handle = erased(10, 20);
    assert_eq!(handle.nth(0), Some(10));
    assert_eq!(handle.nth(2), Some(13));
    assert_eq!(handle.len(), 6);
    assert_eq!(handle.nth(5), Some(19));
    assert_eq!(handle.nth(0), None);
    handle.drop(&mut ());
    let mut handle = erased(10, 20);
    assert_eq!(handle.nth(10), None);
    assert_eq!(handle.len(), 0);
    handle.drop(&mut ());
}

#[test]
fn items_come_from_the_back_too() {
    let mut handle = erased(3, 6);
    assert_eq!(handle.next_back(), Some(5));
    assert_eq!(handle.next(), Some(3));
    assert_eq!(handle.next_back(), Some(4));
    assert_eq!(handle.next_back(), None);
    assert_eq!(handle.next(), None);
    handle.drop(&mut ());
}

#[test]
fn nth_back_skips_from_the_back() {
    let mut handle = erased(10, 20);
    assert_eq!(handle.nth_back(0), Some(19));
    assert_eq!(handle.nth_back(2), Some(16));
    assert_eq!(handle.len(), 6);
    assert_eq!(handle.nth_back(6), None);
    assert_eq!(handle.len(), 0);
    handle.drop(&mut ());
}

#[test]
fn plain_span_behaves_as_its_handle_does() {
    let mut plain = Span { lo: 100, hi: 104 };
    let mut handle = erased(100, 104);
    assert_eq!(plain.nth(1), handle.nth(1));
    assert_eq!(plain.next_back(), handle.next_back());
    assert_eq!(plain.nth_back(0), handle.nth_back(0));
    assert_eq!(plain.is_empty(), handle.is_empty());
    assert_eq!(plain.next(), handle.next());
    let lent = handle.deref();
    assert_eq!((plain.lo, plain.hi), (lent.lo, lent.hi));
    handle.drop(&mut ());
}
