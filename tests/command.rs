use tcg_rules::command::{command_from_words, parse_command, parse_u32, EventType, ParseError};

#[test]
fn end_in_any_case() {
    assert_eq!(parse_command("end"), Ok(EventType::End));
    assert_eq!(parse_command("  EnD \n"), Ok(EventType::End));
}

#[test]
fn play_with_and_without_target() {
    assert_eq!(parse_command("2 play 0 3"), Ok(EventType::PlayCard { hero: 2, card: 0, target: Some(3) }));
    assert_eq!(parse_command(" 2 PLAY 5\n"), Ok(EventType::PlayCard { hero: 2, card: 5, target: None }));
    assert_eq!(parse_command("2 play"), Err(ParseError::NoCard));
    assert_eq!(parse_command("2 play x"), Err(ParseError::CardNotInt));
    assert_eq!(parse_command("2 play 1 y"), Err(ParseError::TargetNotInt));
}

#[test]
fn pass_pitch_and_block() {
    assert_eq!(parse_command("3 Pass"), Ok(EventType::PassPriority { hero: 3 }));
    assert_eq!(parse_command("2 pitch 1"), Ok(EventType::PitchCard { hero: 2, card: 1 }));
    assert_eq!(parse_command("2 pitch"), Err(ParseError::NoCard));
    assert_eq!(parse_command("3 block 4 5"), Ok(EventType::DeclareBlocks { hero: 3, blocks: vec![4, 5] }));
    assert_eq!(parse_command("3 block"), Ok(EventType::DeclareBlocks { hero: 3, blocks: vec![] }));
    assert_eq!(parse_command("3 block 4 z"), Err(ParseError::CardNotInt));
}

#[test]
fn malformed_commands() {
    assert_eq!(parse_command(""), Err(ParseError::HeroNotInt));
    assert_eq!(parse_command("ann pass"), Err(ParseError::HeroNotInt));
    assert_eq!(parse_command("2"), Err(ParseError::NoEvent));
    assert_eq!(parse_command("2 dance"), Err(ParseError::NoMatch));
    // Two spaces make an empty keyword.
    assert_eq!(parse_command("2  pass"), Err(ParseError::NoMatch));
}

#[test]
fn numbers_in_decimal() {
    let w = |s: &str| s.chars().collect::<Vec<char>>();
    assert_eq!(parse_u32(&w("0")), Some(0));
    assert_eq!(parse_u32(&w("+17")), Some(17));
    assert_eq!(parse_u32(&w("4294967295")), Some(u32::MAX));
    assert_eq!(parse_u32(&w("4294967296")), None);
    assert_eq!(parse_u32(&w("-1")), None);
    assert_eq!(parse_u32(&w("+")), None);
    assert_eq!(parse_u32(&w("")), None);
    assert_eq!(parse_u32(&w("1a")), None);
}

#[test]
fn commands_from_words() {
    let w = |s: &str| s.chars().collect::<Vec<char>>();
    let ws = vec![w("2"), w("PLAY"), w("0")];
    assert_eq!(
        command_from_words(&ws, &w("2 play 0"), &w("play")),
        Ok(EventType::PlayCard { hero: 2, card: 0, target: None })
    );
    assert_eq!(command_from_words(&vec![], &w("end"), &w("")), Ok(EventType::End));
    assert_eq!(command_from_words(&vec![], &w("x"), &w("")), Err(ParseError::HeroNotInt));
    assert_eq!(command_from_words(&vec![w("3"), w("x")], &w("3 x"), &w("block")), Ok(EventType::DeclareBlocks { hero: 3, blocks: vec![] }));
}
