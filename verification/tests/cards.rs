use event_relay::random::sort_cards;

#[test]
fn drawn_pairs_come_from_the_deck() {
    let original: Vec<u8> = (1..=10).collect();
    let mut deck = original.clone();
    let pairs = sort_cards(&mut deck);
    assert_eq!(deck.len(), original.len() - 3);
    for card in pairs {
        assert!(original.contains(&card));
    }
    // The deck plus the three removed cards is exactly the original deck.
    let mut rebuilt: Vec<u8> = deck.clone();
    rebuilt.extend_from_slice(&pairs[0..3]);
    rebuilt.sort();
    assert_eq!(rebuilt, original);
}

#[test]
fn smallest_deck_that_can_be_drawn_from() {
    let mut deck: Vec<u8> = vec![9, 9, 9, 9, 9];
    let pairs = sort_cards(&mut deck);
    assert_eq!(pairs, [9, 9, 9, 9]);
    assert_eq!(deck, vec![9, 9]);
}
