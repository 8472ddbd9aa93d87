use lessons::deck::Deck;

#[test]
fn new_deck_has_every_card() {
    let deck = Deck::new();
    assert_eq!(deck.cards.len(), 12);
    assert_eq!(deck.cards[0], "Ace of Hearts");
    assert_eq!(deck.cards[1], "Two of Hearts");
    assert_eq!(deck.cards[2], "Three of Hearts");
    assert_eq!(deck.cards[3], "Ace of Diamonds");
    assert_eq!(deck.cards[11], "Three of Spades");
}

#[test]
fn deal_takes_from_the_top() {
    let mut deck = Deck::new();
    let hand = deck.deal(3);
    assert_eq!(
        hand,
        vec![
            String::from("Ace of Spades"),
            String::from("Two of Spades"),
            String::from("Three of Spades"),
        ]
    );
    assert_eq!(deck.cards.len(), 9);
    assert_eq!(deck.cards[8], "Three of Clubs");
}

#[test]
fn deal_everything_and_nothing() {
    let mut deck = Deck::new();
    let none = deck.deal(0);
    assert!(none.is_empty());
    let all = deck.deal(12);
    assert_eq!(all.len(), 12);
    assert!(deck.cards.is_empty());
}

#[test]
fn shuffle_keeps_the_same_cards() {
    let mut deck = Deck::new();
    let mut before = deck.cards.clone();
    deck.shuffle();
    assert_eq!(deck.cards.len(), 12);
    let mut after = deck.cards.clone();
    before.sort();
    after.sort();
    assert_eq!(before, after);
}
