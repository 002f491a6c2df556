//! The gallows picture: a fixed lookup from the remaining-lives count to
//! seven rows of ASCII art. Pure presentation data; printing it is the
//! caller's business.

use vstd::prelude::*;
use vstd::string::StringExecFns;

verus! {

/// The seven rows of the picture for a remaining-lives count: the figure
/// is complete at zero and loses one piece of scaffolding per life, with
/// one full-health picture for five lives or more (and for any count
/// outside the drawn range).
pub open spec fn picture_rows(lives: int) -> Seq<Seq<char>> {
    if lives == 0 {
        seq![
            " _________   "@,
            "|         |  "@,
            "|         XO "@,
            "|        /|\\ "@,
            "|        / \\ "@,
            "|            "@,
            "|            "@,
        ]
    } else if lives == 1 {
        seq![
            " _________   "@,
            "|         |  "@,
            "|         O  "@,
            "|        /|\\ "@,
            "|        / \\ "@,
            "|        ||| "@,
            "|        ||| "@,
        ]
    } else if lives == 2 {
        seq![
            " _________   "@,
            "|            "@,
            "|         O  "@,
            "|        /|\\ "@,
            "|        / \\ "@,
            "|        ||| "@,
            "|        ||| "@,
        ]
    } else if lives == 3 {
        seq![
            " _________   "@,
            "|            "@,
            "|            "@,
            "|         O  "@,
            "|        /|\\ "@,
            "|        / \\ "@,
            "|        ||| "@,
        ]
    } else if lives == 4 {
        seq![
            " _________   "@,
            "|            "@,
            "|            "@,
            "|            "@,
            "|         O  "@,
            "|        /|\\ "@,
            "|        / \\ "@,
        ]
    } else {
        seq![
            "             "@,
            "             "@,
            "             "@,
            "             "@,
            "          O  "@,
            "         /|\\ "@,
            "         / \\ "@,
        ]
    }
}

/// The picture for the given remaining-lives count, row by row: exactly
/// the rows of [`picture_rows`].
pub fn hangman_picture(lives: i32) -> (r: Vec<String>)
    ensures
        r@.len() == 7,
        forall|i: int| 0 <= i < 7 ==> r@[i]@ == picture_rows(lives as int)[i],
{
    let mut rows: Vec<String> = Vec::new();
    if lives == 0 {
        rows.push(String::from_str(" _________   "));
        rows.push(String::from_str("|         |  "));
        rows.push(String::from_str("|         XO "));
        rows.push(String::from_str("|        /|\\ "));
        rows.push(String::from_str("|        / \\ "));
        rows.push(String::from_str("|            "));
        rows.push(String::from_str("|            "));
    } else if lives == 1 {
        rows.push(String::from_str(" _________   "));
        rows.push(String::from_str("|         |  "));
        rows.push(String::from_str("|         O  "));
        rows.push(String::from_str("|        /|\\ "));
        rows.push(String::from_str("|        / \\ "));
        rows.push(String::from_str("|        ||| "));
        rows.push(String::from_str("|        ||| "));
    } else if lives == 2 {
        rows.push(String::from_str(" _________   "));
        rows.push(String::from_str("|            "));
        rows.push(String::from_str("|         O  "));
        rows.push(String::from_str("|        /|\\ "));
        rows.push(String::from_str("|        / \\ "));
        rows.push(String::from_str("|        ||| "));
        rows.push(String::from_str("|        ||| "));
    } else if lives == 3 {
        rows.push(String::from_str(" _________   "));
        rows.push(String::from_str("|            "));
        rows.push(String::from_str("|            "));
        rows.push(String::from_str("|         O  "));
        rows.push(String::from_str("|        /|\\ "));
        rows.push(String::from_str("|        / \\ "));
        rows.push(String::from_str("|        ||| "));
    } else if lives == 4 {
        rows.push(String::from_str(" _________   "));
        rows.push(String::from_str("|            "));
        rows.push(String::from_str("|            "));
        rows.push(String::from_str("|            "));
        rows.push(String::from_str("|         O  "));
        rows.push(String::from_str("|        /|\\ "));
        rows.push(String::from_str("|        / \\ "));
    } else {
        rows.push(String::from_str("             "));
        rows.push(String::from_str("             "));
        rows.push(String::from_str("             "));
        rows.push(String::from_str("             "));
        rows.push(String::from_str("          O  "));
        rows.push(String::from_str("         /|\\ "));
        rows.push(String::from_str("         / \\ "));
    }
    rows
}

} // verus!
