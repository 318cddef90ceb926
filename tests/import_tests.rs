use rashcard::import::{extract_flash_cards, extract_yomu_flashcards, extract_yomu_title_author};

#[test]
pub fn test_extract_flash_cards() {
    let text = r"Test title
            test author
this is test line one.
This is test line two.
*****
      second flascard line one.
  second Flashcard line two.
Second flashcard line 3..
*****
Third flashcard, foomy,
Foombletoning
Fumbleturning
Sevenslurring
Underscarring
--"
    .to_string();
    let flashcards = extract_flash_cards(text).unwrap();
    assert_eq!(3, flashcards.len());
    println!("flashcards! {:?}", flashcards);
}

#[test]
fn read_era_cards_share_title_and_author() {
    let text = "Book\nWriter\nfirst note\nmore\n*****second note\n*****third".to_string();
    let cards = extract_flash_cards(text).unwrap();
    assert_eq!(cards.len(), 3);
    for c in &cards {
        assert_eq!(c.title, "Book\nWriter");
        assert_eq!(c.id, 0);
    }
    assert_eq!(cards[0].body, "first note\nmore\n\n");
    assert_eq!(cards[1].body, "second note\n");
    assert_eq!(cards[2].body, "third");
}

#[test]
fn read_era_without_separator_is_one_card() {
    let cards = extract_flash_cards("Only title".to_string()).unwrap();
    assert_eq!(cards.len(), 1);
    assert_eq!(cards[0].title, "Only title\n");
    assert_eq!(cards[0].body, "");
}

#[test]
fn read_era_empty_text() {
    let cards = extract_flash_cards(String::new()).unwrap();
    assert_eq!(cards.len(), 1);
    assert_eq!(cards[0].title, "\n");
    assert_eq!(cards[0].body, "");
}

#[test]
fn yomu_heading_title_and_author() {
    let (title, author) = extract_yomu_title_author(
        "# An Inquiry into the Nature and Causes of the Wealth of Nations (Adam Smith)\n",
    );
    assert_eq!(title, "An Inquiry into the Nature and Causes of the Wealth of Nations");
    assert_eq!(author, "Adam Smith");
}

#[test]
fn yomu_heading_without_author() {
    let (title, author) = extract_yomu_title_author("## Just a title  ");
    assert_eq!(title, "Just a title");
    assert_eq!(author, "");
}

#[test]
fn yomu_heading_last_parenthesis_wins() {
    let (title, author) = extract_yomu_title_author("# T (a) (b)");
    assert_eq!(title, "T");
    assert_eq!(author, "b");
}

#[test]
fn yomu_entries_keep_quoted_lines() {
    let contents = "> first quote\nnot quoted\n>> second\r\n---\nplain\n---\n>only\n".to_string();
    let cards = extract_yomu_flashcards("Wealth", contents).unwrap();
    assert_eq!(cards.len(), 3);
    assert_eq!(cards[0].title, "Wealth");
    assert_eq!(cards[0].body, " first quote\n second");
    assert_eq!(cards[1].body, "");
    assert_eq!(cards[2].body, "only");
    assert_eq!(cards[2].id, 0);
}
