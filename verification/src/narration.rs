//! The texts that are handed to the narration services: lists of names,
//! announcements, and the prompts for the text generator.

use vstd::prelude::*;

verus! {

/// The text of one decimal digit.
pub open spec fn digit_text(d: nat) -> Seq<char> {
    if d == 0 {
        "0"@
    } else if d == 1 {
        "1"@
    } else if d == 2 {
        "2"@
    } else if d == 3 {
        "3"@
    } else if d == 4 {
        "4"@
    } else if d == 5 {
        "5"@
    } else if d == 6 {
        "6"@
    } else if d == 7 {
        "7"@
    } else if d == 8 {
        "8"@
    } else {
        "9"@
    }
}

/// A number written in decimal, without leading zeros.
pub open spec fn decimal_text(n: nat) -> Seq<char>
    decreases n,
{
    if n < 10 {
        digit_text(n)
    } else {
        decimal_text(n / 10) + digit_text(n % 10)
    }
}

/// An integer written in decimal, with a minus sign where it is negative.
pub open spec fn signed_decimal_text(i: int) -> Seq<char> {
    if i < 0 {
        "-"@ + decimal_text((-i) as nat)
    } else {
        decimal_text(i as nat)
    }
}

fn digit(d: u64) -> (r: &'static str)
    requires
        d < 10,
    ensures
        r@ == digit_text(d as nat),
{
    if d == 0 {
        "0"
    } else if d == 1 {
        "1"
    } else if d == 2 {
        "2"
    } else if d == 3 {
        "3"
    } else if d == 4 {
        "4"
    } else if d == 5 {
        "5"
    } else if d == 6 {
        "6"
    } else if d == 7 {
        "7"
    } else if d == 8 {
        "8"
    } else {
        "9"
    }
}

/// Writes a number in decimal.
pub fn decimal(n: u64) -> (r: String)
    ensures
        r@ == decimal_text(n as nat),
    decreases n,
{
    if n < 10 {
        String::from_str(digit(n))
    } else {
        let mut text = decimal(n / 10);
        text.append(digit(n % 10));
        text
    }
}

/// Writes an integer in decimal.
pub fn signed_decimal(i: i64) -> (r: String)
    ensures
        r@ == signed_decimal_text(i as int),
{
    if i < 0 {
        let magnitude: u64 = ((-(i + 1)) as u64) + 1;
        let digits = decimal(magnitude);
        String::from_str("-").concat(digits.as_str())
    } else {
        decimal(i as u64)
    }
}

/// The first `n` names, separated by commas.
pub open spec fn listed(players: Seq<String>, n: nat) -> Seq<char>
    decreases n,
{
    if n == 0 {
        Seq::empty()
    } else if n == 1 {
        players[0]@
    } else {
        listed(players, (n - 1) as nat) + ", "@ + players[n - 1]@
    }
}

/// The names as they are read out: separated by commas, with " ja " before
/// the last one.
pub open spec fn names_for_tts(players: Seq<String>) -> Seq<char> {
    if players.len() == 0 {
        Seq::empty()
    } else if players.len() == 1 {
        players[0]@
    } else {
        listed(players, (players.len() - 1) as nat) + " ja "@ + players[players.len() - 1]@
    }
}

/// Joins the players' names into one phrase to be read out.
pub fn get_player_names_for_tts(players: Vec<String>) -> (r: String)
    ensures
        r@ == names_for_tts(players@),
{
    if players.len() == 0 {
        return String::new();
    }
    let mut output = players[0].clone();
    let mut n: usize = 1;
    while n < players.len()
        invariant
            1 <= n <= players.len(),
            n < players.len() ==> output@ == listed(players@, n as nat),
            n == players.len() ==> output@ == names_for_tts(players@),
        decreases players.len() - n,
    {
        if n < players.len() - 1 {
            output.append(", ");
        } else {
            output.append(" ja ");
        }
        output.append(players[n].as_str());
        n += 1;
    }
    output
}

/// The announcement that closes a question: the correct answer, a space,
/// and the context.
pub open spec fn announcement_text(correct: Seq<char>, context: Seq<char>) -> Seq<char> {
    correct + " "@ + context
}

/// The announcement that closes a question.
pub fn correct_answer_and_context_announcement(correct: &String, context: &String) -> (r: String)
    ensures
        r@ == announcement_text(correct@, context@),
{
    let mut text = correct.clone();
    text.append(" ");
    text.append(context.as_str());
    text
}

/// What the introduction prompt says before the players' names.
pub open spec fn introduction_opening() -> Seq<char> {
    "Olet tietovisaisäntä. Tietovisa on nimeltään Pub I Q, ja se on juuri alkamassa. Esittele pelaajat "@
}

/// What the introduction prompt says after the players' names.
pub open spec fn introduction_closing() -> Seq<char> {
    ". Toivota heille hyvää onnea. Vastaus voi olla korkeintaan neljä lausetta pitkä."@
}

/// The prompt that asks the text generator to introduce the players.
pub fn prompt_for_player_introduction(players: String) -> (r: String)
    ensures
        r@ == introduction_opening() + players@ + introduction_closing(),
{
    let mut text = String::from_str(
        "Olet tietovisaisäntä. Tietovisa on nimeltään Pub I Q, ja se on juuri alkamassa. Esittele pelaajat ",
    );
    text.append(players.as_str());
    text.append(". Toivota heille hyvää onnea. Vastaus voi olla korkeintaan neljä lausetta pitkä.");
    text
}

/// What the winner prompt says before the winner's name.
pub open spec fn winner_opening() -> Seq<char> {
    "Olet tietovisaisäntä. Tietovisa on juuri päättynyt ja voittajaksi on selviytynyt pelaaja nimeltä "@
}

/// What the winner prompt says between the name and the points.
pub open spec fn winner_middle() -> Seq<char> {
    ". Hän keräsi "@
}

/// What the winner prompt says after the points.
pub open spec fn winner_closing() -> Seq<char> {
    " pistettä! Onnittele voittajaa sekä kiitä kaikkia osallistujia pelistä. Käytä ylitsevuotavaista hehkutusta, jos mahdollista. Vastaus voi olla enintään neljä lausetta pitkä."@
}

/// The text of the winner prompt for a name and a number of points.
pub open spec fn winner_prompt_text(winner: Seq<char>, num_points: Seq<char>) -> Seq<char> {
    winner_opening() + winner + winner_middle() + num_points + winner_closing()
}

/// The prompt that asks the text generator to congratulate the winner.
pub fn prompt_for_winner_announcement(winner: String, num_points: String) -> (r: String)
    ensures
        r@ == winner_prompt_text(winner@, num_points@),
{
    let mut text = String::from_str(
        "Olet tietovisaisäntä. Tietovisa on juuri päättynyt ja voittajaksi on selviytynyt pelaaja nimeltä ",
    );
    text.append(winner.as_str());
    text.append(". Hän keräsi ");
    text.append(num_points.as_str());
    text.append(
        " pistettä! Onnittele voittajaa sekä kiitä kaikkia osallistujia pelistä. Käytä ylitsevuotavaista hehkutusta, jos mahdollista. Vastaus voi olla enintään neljä lausetta pitkä.",
    );
    text
}

} // verus!
