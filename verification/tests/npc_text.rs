use benilla::npc_text::{parse_gender_branch, player_identity, substitute};

#[test]
fn macros_substitute() {
    assert_eq!(substitute("Greetings $N", "Thrall", 0), "Greetings Thrall");
    assert_eq!(substitute("Hail,$Bfriend", "X", 0), "Hail,\nfriend");
    assert_eq!(substitute("$N,$Bwelcome", "Jaina", 0), "Jaina,\nwelcome");
    assert_eq!(substitute("Well met, $Glad:lass;.", "X", 0), "Well met, lad.");
    assert_eq!(substitute("Well met, $Glad:lass;.", "X", 1), "Well met, lass.");
    assert_eq!(substitute("A $C of $R", "X", 0), "A $C of $R");
    assert_eq!(substitute("Broken $Gbranch", "X", 0), "Broken $Gbranch");
    assert_eq!(substitute("Cost: 5$", "X", 0), "Cost: 5$");
}

#[test]
fn macros_are_read_in_either_case() {
    assert_eq!(substitute("$n$b$gking:queen;", "X", 1), "X\nqueen");
}

#[test]
fn only_the_second_gender_takes_the_second_arm() {
    assert_eq!(substitute("$Ga:b;", "X", 2), "a");
    assert_eq!(substitute("$Ga:b;", "X", 1), "b");
}

#[test]
fn an_unfinished_choice_stays_as_it_is_written() {
    assert_eq!(substitute("$Ga:b", "X", 1), "$Ga:b");
    assert_eq!(substitute("$Ga;b", "X", 1), "$Ga;b");
    assert_eq!(substitute("$G:;", "X", 0), "");
}

#[test]
fn plain_text_is_the_same_for_everyone() {
    assert_eq!(substitute("Ä plain Grüß", "X", 0), "Ä plain Grüß");
    assert_eq!(substitute("Ä plain Grüß", "Y", 1), "Ä plain Grüß");
}

#[test]
fn a_branch_is_found_by_its_colon_and_its_semicolon() {
    let chars: Vec<char> = "lad:lass;.".chars().collect();
    let branch = parse_gender_branch(&chars, 0).expect("a branch");
    assert_eq!((branch.colon, branch.semicolon), (3, 8));
    let open: Vec<char> = "lad:lass".chars().collect();
    assert!(parse_gender_branch(&open, 0).is_none());
    assert!(parse_gender_branch(&chars, chars.len()).is_none());
    assert!(parse_gender_branch(&chars, chars.len() + 1).is_none());
    assert!(parse_gender_branch(&chars, usize::MAX).is_none());
}

#[test]
fn an_unknown_reader_has_a_name_all_the_same() {
    let known = player_identity(Some((Some("Thrall".to_string()), Some(1))));
    assert_eq!((known.name.as_str(), known.gender), ("Thrall", 1));
    let half = player_identity(Some((Some("Thrall".to_string()), None)));
    assert_eq!(half.gender, 0);
}
