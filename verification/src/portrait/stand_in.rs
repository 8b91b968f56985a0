//! The flat picture that stands in for a unit whose model is still loading.
use vstd::prelude::*;

verus! {

/// What is known of a player's body.
#[derive(Clone, Copy, Debug, PartialEq, Eq, Structural)]
pub struct BodyFacts {
    pub gender: Option<u8>,
    pub race: Option<u8>,
}

/// What the picture goes by: whether the unit is a player, and what is known of its body.
#[derive(Clone, Copy, Debug, PartialEq, Eq, Structural)]
pub struct StandIn {
    pub player: bool,
    pub body: Option<BodyFacts>,
}

/// The name of a race in the pictures' files.
pub open spec fn race_name(race: Option<u8>) -> Option<Seq<char>> {
    match race {
        Some(1) => Some("Human"@),
        Some(2) => Some("Orc"@),
        Some(3) => Some("Dwarf"@),
        Some(4) => Some("NightElf"@),
        Some(5) => Some("Scourge"@),
        Some(6) => Some("Tauren"@),
        Some(7) => Some("Gnome"@),
        Some(8) => Some("Troll"@),
        _ => None,
    }
}

/// The file of the picture: by sex and race for a player whose race is known, the bare one for another
/// player, and the monster's for everything else.
pub open spec fn portrait_file(unit: StandIn) -> Seq<char> {
    let base = "Interface\\CharacterFrame\\TemporaryPortrait"@;
    if !unit.player {
        base + "-Monster"@ + ".blp"@
    } else {
        match unit.body {
            Some(body) => match race_name(body.race) {
                Some(race) => base + (if body.gender == Some(1u8) {
                    "-Female-"@
                } else {
                    "-Male-"@
                }) + race + ".blp"@,
                None => base + ".blp"@,
            },
            None => base + ".blp"@,
        }
    }
}

fn race_of(race: Option<u8>) -> (name: Option<&'static str>)
    ensures
        name is Some <==> race_name(race) is Some,
        name matches Some(n) ==> race_name(race) == Some(n@),
{
    match race {
        Some(1) => Some("Human"),
        Some(2) => Some("Orc"),
        Some(3) => Some("Dwarf"),
        Some(4) => Some("NightElf"),
        Some(5) => Some("Scourge"),
        Some(6) => Some("Tauren"),
        Some(7) => Some("Gnome"),
        Some(8) => Some("Troll"),
        _ => None,
    }
}

/// The file of the picture that stands in for a unit.
pub fn temporary_portrait(unit: StandIn) -> (file: String)
    ensures
        file@ == portrait_file(unit),
{
    let mut file = "Interface\\CharacterFrame\\TemporaryPortrait".to_string();
    if !unit.player {
        file.append("-Monster");
    } else if let Some(body) = unit.body {
        if let Some(race) = race_of(body.race) {
            let female = match body.gender {
                Some(g) => g == 1,
                None => false,
            };
            file.append(
                if female {
                    "-Female-"
                } else {
                    "-Male-"
                },
            );
            file.append(race);
        }
    }
    file.append(".blp");
    file
}

/// A unit that is no player has the monster's picture, whatever is known of its body.
pub proof fn monsters_share_a_picture(unit: StandIn)
    requires
        !unit.player,
    ensures
        portrait_file(unit) == "Interface\\CharacterFrame\\TemporaryPortrait"@ + "-Monster"@
            + ".blp"@,
{
}

/// A player has the picture of their race and sex, and is taken for a man unless known for a woman; one
/// whose race is not known, or of whom nothing is, has the bare picture.
pub proof fn players_go_by_race_and_sex(gender: Option<u8>, race: Option<u8>, named: Seq<char>)
    requires
        match race {
            Some(1) => named == "Human"@,
            Some(2) => named == "Orc"@,
            Some(3) => named == "Dwarf"@,
            Some(4) => named == "NightElf"@,
            Some(5) => named == "Scourge"@,
            Some(6) => named == "Tauren"@,
            Some(7) => named == "Gnome"@,
            Some(8) => named == "Troll"@,
            _ => true,
        },
    ensures
        ({
            let base = "Interface\\CharacterFrame\\TemporaryPortrait"@;
            let unit = StandIn { player: true, body: Some(BodyFacts { gender, race }) };
            let known = race matches Some(r) && 1 <= r <= 8;
            &&& known && gender == Some(1u8) ==> portrait_file(unit) == base + "-Female-"@ + named
                + ".blp"@
            &&& known && gender != Some(1u8) ==> portrait_file(unit) == base + "-Male-"@ + named
                + ".blp"@
            &&& !known ==> portrait_file(unit) == base + ".blp"@
            &&& portrait_file(StandIn { player: true, body: None }) == base + ".blp"@
        }),
{
}

} // verus!
