//! Commands typed on the console, or bound to keys: the first word decides.
use vstd::prelude::*;

use crate::events::PlayerEvent;

verus! {

/// Health a revived player gets.
pub const REVIVE_HEALTH: u32 = 5;

/// The characters with the Unicode White_Space property.
pub open spec fn is_white_space(c: char) -> bool {
    let n = c as u32;
    ||| 0x9 <= n <= 0xd
    ||| n == 0x20
    ||| n == 0x85
    ||| n == 0xa0
    ||| n == 0x1680
    ||| 0x2000 <= n <= 0x200a
    ||| n == 0x2028
    ||| n == 0x2029
    ||| n == 0x202f
    ||| n == 0x205f
    ||| n == 0x3000
}

/// Whether `c` has the Unicode White_Space property, the test that
/// `char::is_whitespace` makes and that splitting a line into words uses.
fn char_is_whitespace(c: char) -> (r: bool)
    ensures
        r == is_white_space(c),
{
    let n = c as u32;
    (0x9 <= n && n <= 0xd) || n == 0x20 || n == 0x85 || n == 0xa0 || n == 0x1680 || (0x2000 <= n
        && n <= 0x200a) || n == 0x2028 || n == 0x2029 || n == 0x202f || n == 0x205f || n == 0x3000
}

/// The text without its leading white space.
pub open spec fn skip_white_space(s: Seq<char>) -> Seq<char>
    decreases s.len(),
{
    if s.len() > 0 && is_white_space(s[0]) {
        skip_white_space(s.drop_first())
    } else {
        s
    }
}

/// The characters before the first white space.
pub open spec fn take_word(s: Seq<char>) -> Seq<char>
    decreases s.len(),
{
    if s.len() == 0 || is_white_space(s[0]) {
        Seq::empty()
    } else {
        seq![s[0]] + take_word(s.drop_first())
    }
}

/// The first white-space-separated word of a text (empty when there is none).
pub open spec fn first_word(s: Seq<char>) -> Seq<char> {
    take_word(skip_white_space(s))
}

/// What a console command asks for.
#[derive(Clone, Copy, Debug, PartialEq, Eq, Structural)]
pub enum ConsoleCommand {
    /// Reset the level.
    Reset,
    /// An event for the player.
    Player(PlayerEvent),
}

/// The command a line asks for: `reset` resets the level, `revive` revives the
/// player; anything else asks for nothing.
pub open spec fn spec_parse_command(line: Seq<char>) -> Option<ConsoleCommand> {
    let word = first_word(line);
    if word == "reset"@ {
        Some(ConsoleCommand::Reset)
    } else if word == "revive"@ {
        Some(ConsoleCommand::Player(PlayerEvent::Revive(REVIVE_HEALTH)))
    } else {
        None
    }
}

proof fn lemma_skip_white_space_step(s: Seq<char>, i: int)
    requires
        0 <= i < s.len(),
        is_white_space(s[i]),
    ensures
        skip_white_space(s.subrange(i, s.len() as int)) == skip_white_space(s.subrange(i + 1, s.len() as int)),
{
    assert(s.subrange(i, s.len() as int).drop_first() =~= s.subrange(i + 1, s.len() as int));
}

proof fn lemma_take_word_step(s: Seq<char>, j: int)
    requires
        0 <= j < s.len(),
        !is_white_space(s[j]),
    ensures
        take_word(s.subrange(j, s.len() as int)) == seq![s[j]] + take_word(s.subrange(j + 1, s.len() as int)),
{
    assert(s.subrange(j, s.len() as int).drop_first() =~= s.subrange(j + 1, s.len() as int));
}

/// Reads console input and turns it into events.
pub struct ConsoleInputSystem;

impl ConsoleInputSystem {
    /// The first word of a line.
    pub fn first_word(line: &str) -> (r: String)
        ensures
            r@ == first_word(line@),
    {
        let n = line.unicode_len();
        let ghost s = line@;
        let mut i: usize = 0;
        proof {
            assert(s.subrange(0, s.len() as int) =~= s);
        }
        while i < n && char_is_whitespace(line.get_char(i))
            invariant
                n == s.len(),
                s == line@,
                i <= n,
                skip_white_space(s) == skip_white_space(s.subrange(i as int, n as int)),
            decreases n - i,
        {
            proof {
                lemma_skip_white_space_step(s, i as int);
            }
            i = i + 1;
        }
        proof {
            assert(skip_white_space(s.subrange(i as int, n as int)) == s.subrange(i as int, n as int));
            assert(s.subrange(i as int, n as int).subrange(0, (n - i) as int) =~= s.subrange(i as int, n as int));
        }
        let mut j: usize = i;
        while j < n && !char_is_whitespace(line.get_char(j))
            invariant
                n == s.len(),
                s == line@,
                i <= j <= n,
                take_word(s.subrange(i as int, n as int)) == s.subrange(i as int, j as int) + take_word(
                    s.subrange(j as int, n as int),
                ),
            decreases n - j,
        {
            proof {
                lemma_take_word_step(s, j as int);
                assert(s.subrange(i as int, j as int) + seq![s[j as int]] =~= s.subrange(i as int, j + 1));
            }
            j = j + 1;
        }
        proof {
            assert(take_word(s.subrange(j as int, n as int)) == Seq::<char>::empty());
            assert(s.subrange(i as int, j as int) + Seq::<char>::empty() =~= s.subrange(i as int, j as int));
        }
        line.substring_char(i, j).to_owned()
    }

    /// The command a line asks for.
    pub fn parse_command(line: &str) -> (r: Option<ConsoleCommand>)
        ensures
            r == spec_parse_command(line@),
    {
        let word = Self::first_word(line);
        if word == "reset".to_owned() {
            Some(ConsoleCommand::Reset)
        } else if word == "revive".to_owned() {
            Some(ConsoleCommand::Player(PlayerEvent::Revive(REVIVE_HEALTH)))
        } else {
            None
        }
    }

    /// The command of a frame: the line typed on the console if the console
    /// key was pressed (`console_line`), else `reset` if the reset key was, else
    /// `revive` if the revive key was, else nothing.
    pub fn frame_command(console_line: Option<&str>, reset_pressed: bool, revive_pressed: bool) -> (r: Option<ConsoleCommand>)
        ensures
            r == match console_line {
                Some(line) => spec_parse_command(line@),
                None => if reset_pressed {
                    Some(ConsoleCommand::Reset)
                } else if revive_pressed {
                    Some(ConsoleCommand::Player(PlayerEvent::Revive(REVIVE_HEALTH)))
                } else {
                    None
                },
            },
    {
        match console_line {
            Some(line) => Self::parse_command(line),
            None => {
                if reset_pressed {
                    Some(ConsoleCommand::Reset)
                } else if revive_pressed {
                    Some(ConsoleCommand::Player(PlayerEvent::Revive(REVIVE_HEALTH)))
                } else {
                    None
                }
            },
        }
    }
}

/// The words bound to keys parse to the commands the keys give.
pub proof fn lemma_bound_words_parse()
    ensures
        spec_parse_command("reset"@) == Some(ConsoleCommand::Reset),
        spec_parse_command("revive"@) == Some(ConsoleCommand::Player(PlayerEvent::Revive(REVIVE_HEALTH))),
{
    reveal_strlit("reset");
    reveal_strlit("revive");
    reveal_with_fuel(skip_white_space, 2);
    reveal_with_fuel(take_word, 7);
    assert(first_word("reset"@) =~= "reset"@);
    assert(first_word("revive"@) =~= "revive"@);
}

} // verus!
