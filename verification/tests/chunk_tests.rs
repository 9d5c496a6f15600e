use pastel_hn::chunk::{chunk_text, MAX_CHUNK_SIZE};

#[test]
fn limit_is_five_hundred_characters() {
    assert_eq!(MAX_CHUNK_SIZE, 500);
}

#[test]
fn one_sentence_of_exactly_the_limit_is_one_chunk() {
    let text = format!("{}.", "a".repeat(499));
    assert_eq!(text.chars().count(), 500);
    let chunks = chunk_text(&text);
    assert_eq!(chunks, vec![text]);
}

#[test]
fn two_sentences_of_501_characters_are_two_chunks() {
    let first = format!("{}.", "a".repeat(249));
    let second = format!("{}.", "b".repeat(249));
    let text = format!("{} {}", first, second);
    assert_eq!(text.chars().count(), 501);
    let chunks = chunk_text(&text);
    assert_eq!(chunks, vec![first, second]);
}

#[test]
fn two_sentences_of_500_characters_are_one_chunk() {
    let first = format!("{}.", "a".repeat(249));
    let second = format!("{}.", "b".repeat(248));
    let text = format!("{} {}", first, second);
    assert_eq!(text.chars().count(), 500);
    let chunks = chunk_text(&text);
    assert_eq!(chunks, vec![text]);
}

#[test]
fn a_sentence_over_the_limit_stands_alone_and_whole() {
    let long = format!("{}.", "a".repeat(600));
    let text = format!("Hi. {} Bye.", long);
    let chunks = chunk_text(&text);
    assert_eq!(chunks, vec!["Hi.".to_string(), long, "Bye.".to_string()]);
}

#[test]
fn every_terminator_becomes_a_full_stop() {
    let text = "First sentence. Second sentence! Third sentence? Fourth sentence here.";
    let chunks = chunk_text(text);
    assert_eq!(
        chunks,
        vec!["First sentence. Second sentence. Third sentence. Fourth sentence here.".to_string()]
    );
}

#[test]
fn text_without_a_sentence_is_its_own_chunk() {
    assert_eq!(chunk_text("   "), vec!["   ".to_string()]);
    assert_eq!(chunk_text("?!."), vec!["?!.".to_string()]);
    assert_eq!(chunk_text(""), Vec::<String>::new());
}

#[test]
fn a_missing_terminator_is_supplied() {
    assert_eq!(chunk_text("no end"), vec!["no end.".to_string()]);
    assert_eq!(chunk_text("  one  .  two  "), vec!["one. two.".to_string()]);
    assert_eq!(chunk_text("a..b"), vec!["a. b.".to_string()]);
}

#[test]
fn length_counts_characters() {
    // 300 characters of two bytes each, and the full stop
    let accented = format!("{}.", "é".repeat(300));
    let text = format!("{} Hi.", accented);
    assert_eq!(text.chars().count(), 305);
    assert_eq!(chunk_text(&text), vec![text.clone()]);

    let both = format!("{} {}", accented, accented);
    assert_eq!(chunk_text(&both), vec![accented.clone(), accented]);
}

#[test]
fn chunks_are_packed_greedily() {
    // sentences of 100 characters: four fit with their spaces (403), five do not (504)
    let sentence = format!("{}.", "x".repeat(99));
    let text = vec![sentence.clone(); 9].join(" ");
    let chunks = chunk_text(&text);
    assert_eq!(chunks.len(), 3);
    assert_eq!(chunks[0], vec![sentence.clone(); 4].join(" "));
    assert_eq!(chunks[1], vec![sentence.clone(); 4].join(" "));
    assert_eq!(chunks[2], sentence);
    for chunk in &chunks {
        assert!(chunk.chars().count() <= 500);
    }
}
