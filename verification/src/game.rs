//! The game state and its turn-by-turn state machine.
//!
//! [`GameData`] holds the secret line, the letters guessed so far, the
//! remaining lives and the last status message. One accepted guess moves
//! the state forward through [`GameData::process_guess`], whose whole
//! effect is pinned down by the specification function [`step`].

use vstd::prelude::*;
use vstd::string::StrSliceExecFns;
use vstd::string::StringExecFns;
use crate::text::char_is_alphabetic;
use crate::text::is_alphabetic_char;
use crate::text::lower_char;
use crate::text::lowercase_char;
use crate::text::push_char;
use crate::text::string_contains_char;

verus! {

/// How one guessed character relates to the current state: a repeat, a
/// letter of the secret not seen before, or a wrong letter.
#[derive(Clone, Copy, PartialEq, Eq, Structural, Debug)]
pub enum UserInputStatus {
    AlreadyDiscovered,
    LetterGuessed,
    LetterMissed,
}

/// The semantic weight of a status message. Styling (colors, emphasis)
/// belongs to the presentation layer, which maps each tag to a look.
#[derive(Clone, Copy, PartialEq, Eq, Structural, Debug)]
pub enum StatusKind {
    Info,
    Success,
    Warning,
    Error,
}

/// Where the game stands after a turn: still playing, won, or lost.
#[derive(Clone, Copy, PartialEq, Eq, Structural, Debug)]
pub enum GamePhase {
    Playing,
    Won,
    Lost,
}

/// The full game state: the secret line (lowercase, may include spaces),
/// every letter guessed so far (hits and misses alike), the remaining
/// lives, and the last status message with its semantic tag.
pub struct GameData {
    pub secret_line: String,
    pub discovered_letters: String,
    pub lives: i32,
    pub status: String,
    pub status_kind: StatusKind,
}

/// The game state as mathematical values: character sequences and an
/// unbounded integer.
#[verifier::ext_equal]
pub struct GameView {
    pub secret: Seq<char>,
    pub discovered: Seq<char>,
    pub lives: int,
    pub status: Seq<char>,
    pub status_kind: StatusKind,
}

impl View for GameData {
    type V = GameView;

    open spec fn view(&self) -> GameView {
        GameView {
            secret: self.secret_line@,
            discovered: self.discovered_letters@,
            lives: self.lives as int,
            status: self.status@,
            status_kind: self.status_kind,
        }
    }
}

/// What the mask shows for one character of the secret: the character
/// itself if it is a space or has been discovered, else the placeholder.
pub open spec fn mask_char(c: char, discovered: Seq<char>) -> char {
    if c == ' ' {
        c
    } else if discovered.contains(c) {
        c
    } else {
        '_'
    }
}

/// Whether the mask of the secret shows no placeholder, which is the win
/// condition the loop checks at the start of a turn.
pub open spec fn revealed(secret: Seq<char>, discovered: Seq<char>) -> bool {
    forall|i: int| 0 <= i < secret.len() ==> mask_char(secret[i], discovered) != '_'
}

/// Classification of a guessed character against the secret and the
/// letters discovered so far; a function of those three values alone.
pub open spec fn classify(secret: Seq<char>, discovered: Seq<char>, guess: char) -> UserInputStatus {
    if discovered.contains(guess) {
        UserInputStatus::AlreadyDiscovered
    } else if secret.contains(guess) {
        UserInputStatus::LetterGuessed
    } else {
        UserInputStatus::LetterMissed
    }
}

/// An accepted guess holds a character, and that character is alphabetic;
/// empty input or anything else is rejected without consuming the turn.
pub open spec fn valid_guess(guess: Option<char>) -> bool {
    match guess {
        Option::Some(c) => is_alphabetic_char(c),
        Option::None => false,
    }
}

/// One turn of the state machine, as a mathematical function from the
/// state and the raw guess to the next state and the phase the loop sees.
///
/// An invalid guess only sets a warning. Otherwise the win condition is
/// checked first, on the reveal state the previous turn left behind, then
/// exhaustion of lives; only then is the guess folded to lowercase and
/// classified. A hit and a miss both record the letter; a miss costs one
/// life, and the very miss that spends the last life leaves the status
/// untouched, the loss being announced on the following turn.
pub open spec fn step(g: GameView, guess: Option<char>) -> (GameView, GamePhase) {
    if !valid_guess(guess) {
        (
            GameView { status: "It is not a letter!"@, status_kind: StatusKind::Warning, ..g },
            GamePhase::Playing,
        )
    } else if revealed(g.secret, g.discovered) {
        (
            GameView { status: "You won!"@, status_kind: StatusKind::Success, ..g },
            GamePhase::Won,
        )
    } else if g.lives == 0 {
        (
            GameView { status: "You lost!"@, status_kind: StatusKind::Error, ..g },
            GamePhase::Lost,
        )
    } else {
        let c = lower_char(guess->Some_0);
        match classify(g.secret, g.discovered, c) {
            UserInputStatus::AlreadyDiscovered => (
                GameView {
                    status: seq![c] + " is already discovered!"@,
                    status_kind: StatusKind::Warning,
                    ..g
                },
                GamePhase::Playing,
            ),
            UserInputStatus::LetterGuessed => (
                GameView {
                    discovered: g.discovered.push(c),
                    status: "You discovered "@.push(c),
                    status_kind: StatusKind::Success,
                    ..g
                },
                GamePhase::Playing,
            ),
            UserInputStatus::LetterMissed => if g.lives - 1 > 0 {
                (
                    GameView {
                        discovered: g.discovered.push(c),
                        lives: g.lives - 1,
                        status: "Unfortunately, no "@.push(c),
                        status_kind: StatusKind::Error,
                        ..g
                    },
                    GamePhase::Playing,
                )
            } else {
                (
                    GameView { discovered: g.discovered.push(c), lives: g.lives - 1, ..g },
                    GamePhase::Playing,
                )
            },
        }
    }
}

/// What the mask shows for `c` given the discovered letters, executably.
fn mask_char_exec(c: char, discovered: &str) -> (r: char)
    ensures
        r == mask_char(c, discovered@),
{
    if c == ' ' {
        c
    } else if string_contains_char(discovered, c) {
        c
    } else {
        '_'
    }
}

impl GameData {
    /// The state invariant: lives never go below zero.
    pub open spec fn wf(&self) -> bool {
        self.lives >= 0
    }

    /// A fresh game on the given secret, with no letter discovered, full
    /// lives and an empty status.
    pub fn new(secret: &str, lives: i32) -> (g: GameData)
        requires
            lives >= 0,
        ensures
            g.secret_line@ == secret@,
            g.discovered_letters@ == Seq::<char>::empty(),
            g.lives == lives,
            g.status@ == Seq::<char>::empty(),
            g.status_kind == StatusKind::Info,
            g.wf(),
    {
        GameData {
            lives,
            secret_line: String::from_str(secret),
            discovered_letters: String::new(),
            status: String::new(),
            status_kind: StatusKind::Info,
        }
    }

    /// The masked display of the secret: each character of the secret,
    /// shown or hidden by [`mask_char`], followed by one separating space.
    pub fn format_masked_string(&self) -> (r: String)
        ensures
            r@.len() == 2 * self.secret_line@.len(),
            forall|i: int|
                0 <= i < self.secret_line@.len() ==> r@[2 * i] == mask_char(
                    self.secret_line@[i],
                    self.discovered_letters@,
                ) && r@[2 * i + 1] == ' ',
    {
        let n: usize = self.secret_line.as_str().unicode_len();
        let mut result = String::new();
        let mut i: usize = 0;
        while i < n
            invariant
                n == self.secret_line@.len(),
                i <= n,
                result@.len() == 2 * i,
                forall|j: int|
                    0 <= j < i ==> result@[2 * j] == mask_char(
                        self.secret_line@[j],
                        self.discovered_letters@,
                    ) && result@[2 * j + 1] == ' ',
            decreases n - i,
        {
            let c = self.secret_line.as_str().get_char(i);
            let m = mask_char_exec(c, self.discovered_letters.as_str());
            push_char(&mut result, m);
            push_char(&mut result, ' ');
            i = i + 1;
        }
        proof {
            assert(i == n);
        }
        result
    }

    /// Classifies a guessed character against this state, changing
    /// nothing.
    pub fn check_user_guess(&self, user_guess: char) -> (r: UserInputStatus)
        ensures
            r == classify(self.secret_line@, self.discovered_letters@, user_guess),
    {
        if string_contains_char(self.discovered_letters.as_str(), user_guess) {
            return UserInputStatus::AlreadyDiscovered;
        }
        if !string_contains_char(self.secret_line.as_str(), user_guess) {
            return UserInputStatus::LetterMissed;
        }
        UserInputStatus::LetterGuessed
    }

    /// Whether the mask currently shows no placeholder.
    pub fn is_revealed(&self) -> (r: bool)
        ensures
            r == revealed(self.secret_line@, self.discovered_letters@),
    {
        let n: usize = self.secret_line.as_str().unicode_len();
        let mut i: usize = 0;
        while i < n
            invariant
                n == self.secret_line@.len(),
                i <= n,
                forall|j: int|
                    0 <= j < i ==> mask_char(self.secret_line@[j], self.discovered_letters@)
                        != '_',
            decreases n - i,
        {
            let c = self.secret_line.as_str().get_char(i);
            let m = mask_char_exec(c, self.discovered_letters.as_str());
            if m == '_' {
                return false;
            }
            i = i + 1;
        }
        true
    }

    /// Runs one turn of the game on this state: exactly the transition
    /// that [`step`] describes.
    pub fn process_guess(&mut self, guess: Option<char>) -> (phase: GamePhase)
        requires
            old(self).wf(),
        ensures
            final(self).wf(),
            final(self)@ == step(old(self)@, guess).0,
            phase == step(old(self)@, guess).1,
    {
        if !validate_user_guess(guess) {
            self.status = String::from_str("It is not a letter!");
            self.status_kind = StatusKind::Warning;
            proof {
                assert(self@ =~= step(old(self)@, guess).0);
            }
            return GamePhase::Playing;
        }
        if self.is_revealed() {
            self.status = String::from_str("You won!");
            self.status_kind = StatusKind::Success;
            proof {
                assert(self@ =~= step(old(self)@, guess).0);
            }
            return GamePhase::Won;
        }
        if self.lives == 0 {
            self.status = String::from_str("You lost!");
            self.status_kind = StatusKind::Error;
            proof {
                assert(self@ =~= step(old(self)@, guess).0);
            }
            return GamePhase::Lost;
        }
        let raw = guess.unwrap();
        let c = lowercase_char(raw);
        match self.check_user_guess(c) {
            UserInputStatus::LetterGuessed => {
                push_char(&mut self.discovered_letters, c);
                let mut msg = String::from_str("You discovered ");
                push_char(&mut msg, c);
                self.status = msg;
                self.status_kind = StatusKind::Success;
                proof {
                    assert(self@ =~= step(old(self)@, guess).0);
                }
            },
            UserInputStatus::LetterMissed => {
                push_char(&mut self.discovered_letters, c);
                self.lives = self.lives - 1;
                if self.lives > 0 {
                    let mut msg = String::from_str("Unfortunately, no ");
                    push_char(&mut msg, c);
                    self.status = msg;
                    self.status_kind = StatusKind::Error;
                }
                proof {
                    assert(self@ =~= step(old(self)@, guess).0);
                }
            },
            UserInputStatus::AlreadyDiscovered => {
                let mut msg = String::new();
                push_char(&mut msg, c);
                msg.append(" is already discovered!");
                self.status = msg;
                self.status_kind = StatusKind::Warning;
                proof {
                    assert(seq![c] =~= Seq::<char>::empty().push(c));
                    assert(self@ =~= step(old(self)@, guess).0);
                }
            },
        }
        GamePhase::Playing
    }
}

/// Classification is deterministic: any two results that classification
/// of the same secret, discovered letters and guess can yield are equal,
/// so asking twice with the same inputs gives the same answer.
pub proof fn lemma_classify_deterministic(
    secret: Seq<char>,
    discovered: Seq<char>,
    guess: char,
    r1: UserInputStatus,
    r2: UserInputStatus,
)
    ensures
        r1 == classify(secret, discovered, guess) && r2 == classify(secret, discovered, guess)
            ==> r1 == r2,
{
}

/// A character that is among the discovered letters always classifies as
/// a repeat, whatever the secret.
pub proof fn lemma_rediscovered(secret: Seq<char>, discovered: Seq<char>, guess: char)
    ensures
        discovered.contains(guess) ==> classify(secret, discovered, guess)
            is AlreadyDiscovered,
{
}

/// A turn never forgets a discovered letter: the old discovered sequence
/// is a prefix of the new one.
pub proof fn lemma_discovered_monotone(g: GameView, guess: Option<char>)
    ensures
        g.discovered.is_prefix_of(step(g, guess).0.discovered),
{
    let d = step(g, guess).0.discovered;
    assert(g.discovered =~= d.subrange(0, g.discovered.len() as int));
}

/// Once a character is discovered it stays discovered, and classifying it
/// after any turn still yields a repeat.
pub proof fn lemma_once_discovered_stays_discovered(g: GameView, guess: Option<char>, c: char)
    ensures
        g.discovered.contains(c) ==> step(g, guess).0.discovered.contains(c),
        g.discovered.contains(c) ==> classify(
            step(g, guess).0.secret,
            step(g, guess).0.discovered,
            c,
        ) is AlreadyDiscovered,
{
    if g.discovered.contains(c) {
        let i = choose|i: int| 0 <= i < g.discovered.len() && g.discovered[i] == c;
        assert(step(g, guess).0.discovered[i] == c);
    }
}

/// The win check and the display agree: a mask string shaped as
/// [`GameData::format_masked_string`] builds it shows no placeholder
/// exactly when the secret counts as revealed. The loop may therefore
/// scan either the state or the last rendered frame.
pub proof fn lemma_revealed_matches_mask(secret: Seq<char>, discovered: Seq<char>, mask: Seq<char>)
    requires
        mask.len() == 2 * secret.len(),
        forall|i: int|
            0 <= i < secret.len() ==> mask[2 * i] == mask_char(secret[i], discovered) && mask[2
                * i + 1] == ' ',
    ensures
        revealed(secret, discovered) <==> !mask.contains('_'),
{
    if revealed(secret, discovered) {
        assert forall|k: int| 0 <= k < mask.len() implies mask[k] != '_' by {
            let i = k / 2;
            if k % 2 == 0 {
                assert(k == 2 * i);
                assert(mask[2 * i] == mask_char(secret[i], discovered));
            } else {
                assert(k == 2 * i + 1);
                assert(0 <= i < secret.len());
                assert(mask[2 * i] == mask_char(secret[i], discovered));
                assert(mask[2 * i + 1] == ' ');
            }
        }
        assert(!mask.contains('_'));
    } else {
        let i = choose|i: int|
            0 <= i < secret.len() && mask_char(secret[i], discovered) == '_';
        assert(mask[2 * i] == '_');
        assert(mask.contains('_'));
    }
}

/// When the game ends: a turn yields `Won` exactly on a valid guess made
/// after the secret was fully uncovered, `Lost` exactly on a valid guess
/// made with no life left before the reveal, and `Playing` otherwise.
pub proof fn lemma_phase_characterization(g: GameView, guess: Option<char>)
    ensures
        step(g, guess).1 is Won <==> valid_guess(guess) && revealed(g.secret, g.discovered),
        step(g, guess).1 is Lost <==> valid_guess(guess) && !revealed(g.secret, g.discovered)
            && g.lives == 0,
{
}

/// Lives never increase, and a turn taken with a non-negative count of
/// lives leaves it non-negative: the count never goes below zero.
pub proof fn lemma_lives_monotone(g: GameView, guess: Option<char>)
    ensures
        step(g, guess).0.lives <= g.lives,
        g.lives >= 0 ==> step(g, guess).0.lives >= 0,
{
}

/// Guessing is case-insensitive: two valid guesses with the same
/// lowercase folding drive the state machine exactly alike.
pub proof fn lemma_guess_case_insensitive(g: GameView, c1: char, c2: char)
    ensures
        is_alphabetic_char(c1) && is_alphabetic_char(c2) && lower_char(c1) == lower_char(c2)
            ==> step(g, Some(c1)) == step(g, Some(c2)),
{
}

/// Whether a line of input carries an acceptable guess: it must hold a
/// first character and that character must be alphabetic.
pub fn validate_user_guess(user_guess: Option<char>) -> (r: bool)
    ensures
        r == valid_guess(user_guess),
{
    match user_guess {
        Option::Some(guess) => char_is_alphabetic(guess),
        Option::None => false,
    }
}

} // verus!
