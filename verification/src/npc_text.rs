//! The macros in text that characters of the world speak: `$N` is the reader's name, `$B` a line
//! break, and `$G` a choice by the reader's gender. What is none of these, or is not well formed,
//! stays as it is written.
use vstd::prelude::*;

use crate::text::chars_of;

verus! {

/// The place of the first of two characters at or after `from`, or the length where there is none.
pub open spec fn first_of(text: Seq<char>, from: int, a: char, b: char) -> int
    decreases text.len() - from,
{
    if from >= text.len() {
        text.len() as int
    } else if text[from] == a || text[from] == b {
        from
    } else {
        first_of(text, from + 1, a, b)
    }
}

/// A gender choice: its two arms, and the place just after it.
pub struct Choice {
    pub male: Seq<char>,
    pub female: Seq<char>,
    pub end: int,
}

/// The choice `male:female;` that begins at `start`, if one does: a colon comes before any semicolon,
/// and a semicolon after it.
pub open spec fn choice_at(text: Seq<char>, start: int) -> Option<Choice> {
    let colon = first_of(text, start, ':', ';');
    if colon >= text.len() || text[colon] != ':' {
        None
    } else {
        let semicolon = first_of(text, colon + 1, ';', ';');
        if semicolon >= text.len() {
            None
        } else {
            Some(
                Choice {
                    male: text.subrange(start, colon),
                    female: text.subrange(colon + 1, semicolon),
                    end: semicolon + 1,
                },
            )
        }
    }
}

/// What stands at a place: what to write for it, and where to go on.
pub open spec fn expansion_at(text: Seq<char>, name: Seq<char>, female: bool, at: int) -> (
    Seq<char>,
    int,
) {
    let plain = (seq![text[at]], at + 1);
    if text[at] == '$' && at + 1 < text.len() {
        let macro_char = text[at + 1];
        if macro_char == 'N' || macro_char == 'n' {
            (name, at + 2)
        } else if macro_char == 'B' || macro_char == 'b' {
            (seq!['\n'], at + 2)
        } else if macro_char == 'G' || macro_char == 'g' {
            match choice_at(text, at + 2) {
                Some(choice) => (
                    if female {
                        choice.female
                    } else {
                        choice.male
                    },
                    choice.end,
                ),
                None => plain,
            }
        } else {
            plain
        }
    } else {
        plain
    }
}

/// The text from a place on, with its macros written out.
pub open spec fn expanded(text: Seq<char>, name: Seq<char>, female: bool, at: int) -> Seq<char>
    decreases text.len() - at,
    when 0 <= at
    via expanded_goes_on
{
    if at >= text.len() {
        seq![]
    } else {
        let (written, next) = expansion_at(text, name, female, at);
        written + expanded(text, name, female, next)
    }
}

proof fn first_of_is_ahead(text: Seq<char>, from: int, a: char, b: char)
    requires
        0 <= from <= text.len(),
    ensures
        from <= first_of(text, from, a, b) <= text.len(),
        first_of(text, from, a, b) < text.len() ==> {
            let c = text[first_of(text, from, a, b)];
            c == a || c == b
        },
        forall|k: int|
            from <= k < first_of(text, from, a, b) ==> #[trigger] text[k] != a && text[k] != b,
    decreases text.len() - from,
{
    if from < text.len() && text[from] != a && text[from] != b {
        first_of_is_ahead(text, from + 1, a, b);
    }
}

proof fn choices_end_ahead(text: Seq<char>, start: int)
    requires
        0 <= start <= text.len(),
    ensures
        choice_at(text, start) matches Some(choice) ==> start < choice.end <= text.len(),
{
    first_of_is_ahead(text, start, ':', ';');
    let colon = first_of(text, start, ':', ';');
    if colon < text.len() {
        first_of_is_ahead(text, colon + 1, ';', ';');
    }
}

#[via_fn]
proof fn expanded_goes_on(text: Seq<char>, name: Seq<char>, female: bool, at: int) {
    if at < text.len() && at + 2 <= text.len() {
        choices_end_ahead(text, at + 2);
    }
}

/// The reader: a name, and a gender as the descriptor has it (1 is female, everything else male).
pub struct Identity {
    pub name: String,
    pub gender: u8,
}

/// The reader's name, where it is known.
pub open spec fn name_of(known: Option<(Option<String>, Option<u8>)>) -> Seq<char> {
    match known {
        Some((Some(name), _)) => name@,
        _ => Seq::empty(),
    }
}

/// The reader's gender, where it is known.
pub open spec fn gender_of(known: Option<(Option<String>, Option<u8>)>) -> u8 {
    match known {
        Some((_, Some(gender))) => gender,
        _ => 0,
    }
}

/// Who reads: the name where it is known and the gender where it is, and else no name and male.
pub fn player_identity(known: Option<(Option<String>, Option<u8>)>) -> (identity: Identity)
    ensures
        identity.name@ == name_of(known),
        identity.gender == gender_of(known),
{
    match known {
        Some((name, gender)) => Identity {
            name: match name {
                Some(name) => name,
                None => String::new(),
            },
            gender: match gender {
                Some(gender) => gender,
                None => 0,
            },
        },
        None => Identity { name: String::new(), gender: 0 },
    }
}

fn find(chars: &Vec<char>, from: usize, a: char, b: char) -> (at: usize)
    requires
        from <= chars.len(),
    ensures
        at == first_of(chars@, from as int, a, b),
        from <= at <= chars.len(),
{
    let mut i: usize = from;
    while i < chars.len() && chars[i] != a && chars[i] != b
        invariant
            from <= i <= chars.len(),
            first_of(chars@, from as int, a, b) == first_of(chars@, i as int, a, b),
        decreases chars.len() - i,
    {
        i += 1;
    }
    i
}

/// The arms of a gender choice in the text, as places: where each begins and ends, and the place
/// after it.
#[derive(Clone, Copy, Debug, PartialEq, Eq, Structural)]
pub struct Branch {
    pub colon: usize,
    pub semicolon: usize,
}

/// The gender choice that begins at `start`: the male arm up to the colon, the female arm up to the
/// semicolon. None begins past the end.
pub fn parse_gender_branch(chars: &Vec<char>, start: usize) -> (branch: Option<Branch>)
    ensures
        match choice_at(chars@, start as int) {
            None => branch is None,
            Some(choice) => branch matches Some(b) && start <= b.colon < b.semicolon < chars.len()
                && choice.male == chars@.subrange(start as int, b.colon as int) && choice.female
                == chars@.subrange(b.colon + 1, b.semicolon as int) && choice.end == b.semicolon
                + 1,
        },
{
    if start > chars.len() {
        return None;
    }
    let colon: usize = find(chars, start, ':', ';');
    if colon >= chars.len() || chars[colon] != ':' {
        return None;
    }
    let semicolon: usize = find(chars, colon + 1, ';', ';');
    if semicolon >= chars.len() {
        return None;
    }
    Some(Branch { colon, semicolon })
}

fn push_range(out: &mut String, chars: &Vec<char>, from: usize, to: usize)
    requires
        from <= to <= chars.len(),
    ensures
        final(out)@ == old(out)@ + chars@.subrange(from as int, to as int),
{
    let ghost start = out@;
    let mut i: usize = from;
    while i < to
        invariant
            from <= i <= to <= chars.len(),
            out@ == start + chars@.subrange(from as int, i as int),
        decreases to - i,
    {
        out.push(chars[i]);
        assert(chars@.subrange(from as int, i + 1) == chars@.subrange(from as int, i as int).push(
            chars@[i as int],
        ));
        i += 1;
    }
}

/// A text with its macros written out for a reader.
pub open spec fn read_by(text: Seq<char>, name: Seq<char>, gender: u8) -> Seq<char> {
    expanded(text, name, gender == 1, 0)
}

/// Write the macros of a text out for a reader; only gender 1 takes the second arm of a choice.
pub fn substitute(text: &str, name: &str, gender: u8) -> (out: String)
    ensures
        out@ == read_by(text@, name@, gender),
{
    let chars = chars_of(text);
    let female = gender == 1;
    let mut out: String = String::new();
    let mut i: usize = 0;
    while i < chars.len()
        invariant
            i <= chars.len(),
            chars@ == text@,
            out@ + expanded(text@, name@, female, i as int) == expanded(text@, name@, female, 0),
        decreases chars.len() - i,
    {
        let ghost before = out@;
        let ghost at = i as int;
        if chars[i] == '$' && i + 1 < chars.len() {
            let c: char = chars[i + 1];
            if c == 'N' || c == 'n' {
                out.append(name);
                i += 2;
            } else if c == 'B' || c == 'b' {
                out.push('\n');
                i += 2;
            } else if c == 'G' || c == 'g' {
                match parse_gender_branch(&chars, i + 2) {
                    Some(branch) => {
                        if female {
                            push_range(&mut out, &chars, branch.colon + 1, branch.semicolon);
                        } else {
                            push_range(&mut out, &chars, i + 2, branch.colon);
                        }
                        i = branch.semicolon + 1;
                    },
                    None => {
                        out.push(chars[i]);
                        i += 1;
                    },
                }
            } else {
                out.push(chars[i]);
                i += 1;
            }
        } else {
            out.push(chars[i]);
            i += 1;
        }
        assert(out@ == before + expansion_at(text@, name@, female, at).0);
        assert(i == expansion_at(text@, name@, female, at).1);
        assert(expanded(text@, name@, female, at) == expansion_at(text@, name@, female, at).0
            + expanded(text@, name@, female, i as int));
        assert(out@ + expanded(text@, name@, female, i as int) == before + expanded(
            text@,
            name@,
            female,
            at,
        ));
    }
    assert(out@ == out@ + expanded(text@, name@, female, i as int));
    out
}

/// Text without macros comes out as it went in, for every reader.
pub proof fn plain_text_is_kept(text: Seq<char>, name: Seq<char>, female: bool, at: int)
    requires
        0 <= at <= text.len(),
        forall|k: int| at <= k < text.len() ==> #[trigger] text[k] != '$',
    ensures
        expanded(text, name, female, at) == text.skip(at),
    decreases text.len() - at,
{
    if at < text.len() {
        plain_text_is_kept(text, name, female, at + 1);
        assert(expansion_at(text, name, female, at) == (seq![text[at]], at + 1));
        assert(seq![text[at]] + text.skip(at + 1) == text.skip(at));
    } else {
        assert(text.skip(at) == Seq::<char>::empty());
    }
}

/// What stands before the first macro comes out as it went in, whatever follows it.
pub proof fn a_plain_beginning_is_kept(
    text: Seq<char>,
    name: Seq<char>,
    female: bool,
    at: int,
    end: int,
)
    requires
        0 <= at <= end <= text.len(),
        forall|k: int| at <= k < end ==> #[trigger] text[k] != '$',
    ensures
        expanded(text, name, female, at) == text.subrange(at, end) + expanded(
            text,
            name,
            female,
            end,
        ),
    decreases end - at,
{
    if at < end {
        a_plain_beginning_is_kept(text, name, female, at + 1, end);
        assert(expansion_at(text, name, female, at) == (seq![text[at]], at + 1));
        assert(seq![text[at]] + text.subrange(at + 1, end) == text.subrange(at, end));
        assert(seq![text[at]] + (text.subrange(at + 1, end) + expanded(text, name, female, end))
            == text.subrange(at, end) + expanded(text, name, female, end));
    } else {
        assert(text.subrange(at, end) + expanded(text, name, female, end) == expanded(
            text,
            name,
            female,
            at,
        ));
    }
}

/// A gender choice that no semicolon ends is kept as it is written: nothing is ever eaten.
pub proof fn an_unfinished_choice_is_kept(text: Seq<char>, name: Seq<char>, female: bool, at: int)
    requires
        0 <= at,
        at + 1 < text.len(),
        text[at] == '$',
        text[at + 1] == 'G' || text[at + 1] == 'g',
        forall|k: int| at < k < text.len() ==> #[trigger] text[k] != ';',
    ensures
        expansion_at(text, name, female, at) == (seq!['$'], at + 1),
{
    first_of_is_ahead(text, at + 2, ':', ';');
    let colon = first_of(text, at + 2, ':', ';');
    if colon < text.len() {
        first_of_is_ahead(text, colon + 1, ';', ';');
    }
}

/// What has no choice in it reads the same to everyone.
pub proof fn only_choices_tell_readers_apart(
    text: Seq<char>,
    name: Seq<char>,
    at: int,
)
    requires
        0 <= at <= text.len(),
        forall|k: int| at <= k < text.len() ==> #[trigger] text[k] != ';',
    ensures
        expanded(text, name, true, at) == expanded(text, name, false, at),
    decreases text.len() - at,
{
    if at < text.len() {
        if at + 1 < text.len() && text[at] == '$' {
            if text[at + 1] == 'G' || text[at + 1] == 'g' {
                an_unfinished_choice_is_kept(text, name, true, at);
                an_unfinished_choice_is_kept(text, name, false, at);
                only_choices_tell_readers_apart(text, name, at + 1);
            } else {
                only_choices_tell_readers_apart(text, name, at + 1);
                only_choices_tell_readers_apart(text, name, at + 2);
            }
        } else {
            only_choices_tell_readers_apart(text, name, at + 1);
        }
    }
}

/// The reader's name stands for its macro and a line break for its own, in either case of the letter,
/// wherever they are; the text goes on behind them.
pub proof fn names_and_breaks_are_written(text: Seq<char>, name: Seq<char>, female: bool, at: int)
    requires
        0 <= at,
        at + 1 < text.len(),
        text[at] == '$',
    ensures
        text[at + 1] == 'N' || text[at + 1] == 'n' ==> expanded(text, name, female, at) == name
            + expanded(text, name, female, at + 2),
        text[at + 1] == 'B' || text[at + 1] == 'b' ==> expanded(text, name, female, at) == seq![
            '\n',
        ] + expanded(text, name, female, at + 2),
{
}

/// A choice is written by the reader's gender: what stands before its colon for a man and what stands
/// behind it for a woman; the text goes on behind its semicolon.
pub proof fn a_choice_goes_by_gender(
    text: Seq<char>,
    name: Seq<char>,
    female: bool,
    at: int,
    colon: int,
    semicolon: int,
)
    requires
        0 <= at,
        at + 2 <= colon < semicolon < text.len(),
        text[at] == '$',
        text[at + 1] == 'G' || text[at + 1] == 'g',
        text[colon] == ':',
        text[semicolon] == ';',
        forall|k: int| at + 2 <= k < colon ==> #[trigger] text[k] != ':' && text[k] != ';',
        forall|k: int| colon < k < semicolon ==> #[trigger] text[k] != ';',
    ensures
        expanded(text, name, female, at) == (if female {
            text.subrange(colon + 1, semicolon)
        } else {
            text.subrange(at + 2, colon)
        }) + expanded(text, name, female, semicolon + 1),
{
    first_of_is_ahead(text, at + 2, ':', ';');
    assert(first_of(text, at + 2, ':', ';') == colon);
    first_of_is_ahead(text, colon + 1, ';', ';');
    assert(first_of(text, colon + 1, ';', ';') == semicolon);
}

/// A dollar that begins nothing stands for itself: before any other letter, and at the end.
pub proof fn a_lone_dollar_is_kept(text: Seq<char>, name: Seq<char>, female: bool, at: int)
    requires
        0 <= at < text.len(),
        at + 1 < text.len() ==> {
            let c = text[at + 1];
            c != 'N' && c != 'n' && c != 'B' && c != 'b' && c != 'G' && c != 'g'
        },
    ensures
        expanded(text, name, female, at) == seq![text[at]] + expanded(text, name, female, at + 1),
{
}

/// A semicolon before the colon is no choice: the dollar stands for itself.
pub proof fn a_choice_without_a_colon_is_kept(
    text: Seq<char>,
    name: Seq<char>,
    female: bool,
    at: int,
    semicolon: int,
)
    requires
        0 <= at,
        at + 2 <= semicolon < text.len(),
        text[at] == '$',
        text[at + 1] == 'G' || text[at + 1] == 'g',
        text[semicolon] == ';',
        forall|k: int| at + 2 <= k < semicolon ==> #[trigger] text[k] != ':' && text[k] != ';',
    ensures
        expanded(text, name, female, at) == seq!['$'] + expanded(text, name, female, at + 1),
{
    first_of_is_ahead(text, at + 2, ':', ';');
    assert(first_of(text, at + 2, ':', ';') == semicolon);
}

/// A text is read from its beginning to its end, and only gender one reads as a woman.
pub proof fn only_one_gender_reads_as_a_woman(text: Seq<char>, name: Seq<char>, gender: u8)
    ensures
        gender == 1 ==> read_by(text, name, gender) == expanded(text, name, true, 0),
        gender != 1 ==> read_by(text, name, gender) == expanded(text, name, false, 0),
        expanded(text, name, true, text.len() as int).len() == 0,
        expanded(text, name, false, text.len() as int).len() == 0,
{
}

/// A reader has the name and the gender that are known of them, each whether or not the other is; and
/// no name, and gender nought, where they are not.
pub proof fn a_reader_is_who_is_known(name: Option<String>, gender: Option<u8>)
    ensures
        name matches Some(called) ==> name_of(Some((name, gender))) == called@,
        name is None ==> name_of(Some((name, gender))).len() == 0,
        gender matches Some(g) ==> gender_of(Some((name, gender))) == g,
        gender is None ==> gender_of(Some((name, gender))) == 0,
        name_of(None).len() == 0 && gender_of(None) == 0,
{
}

} // verus!
