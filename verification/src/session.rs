//! A session with the pet: which prompt is open, and what each line typed
//! at it leads to.

use crate::command::{command_of, line_is, parse_command, Command};
use crate::guessing::{GuessOutcome, GuessingGame};
use crate::pet::Pet;
use crate::random::Draws;
use crate::text::trimmed;
use vstd::prelude::*;

verus! {

/// The two temperature scales.
#[derive(Debug, Clone, Copy, PartialEq, Eq, Structural)]
pub enum Scale {
    Fahrenheit,
    Celsius,
}

/// The prompt that is open, which decides how the next line is read.
/// Feeding the pet and reporting its status take no line of their own: they
/// are answers to a line typed at the main menu, which is open again at
/// once.
#[derive(Debug, Clone, Copy, PartialEq, Eq, Structural)]
pub enum Stage {
    /// The main menu.
    Menu,
    /// A guessing game, waiting for a guess.
    Guessing(GuessingGame),
    /// The list of tools.
    Tools,
    /// The temperature converter, asking which scale the temperature is in.
    Scales,
    /// The temperature converter, waiting for a temperature in this scale.
    Temperature(Scale),
    /// The session is over: no prompt is open.
    Terminated,
}

/// What the pet answers to a line, before the next prompt is shown.
#[derive(Debug, Clone, Copy, PartialEq, Eq, Structural)]
pub enum Reply {
    /// The pet was fed and says so.
    Fed,
    /// A game begins: the pet has thought of a number.
    GameStarted,
    /// The tools open.
    ToolsOpened,
    /// The pet's happiness, and its fullness in percent.
    Status { happiness: i32, stomach_percent: u32 },
    /// Goodbye.
    Farewell,
    /// The line was not understood: it is repeated with an apology.
    Unrecognized,
    /// The answer to a line typed in the game.
    Guess(GuessOutcome),
    /// The temperature converter opens.
    ConverterOpened,
    /// A temperature in this scale is asked for.
    TemperatureAsked(Scale),
    /// The line is a temperature in this scale, to be converted to the other.
    Convert(Scale),
    /// Nothing: the session was over already.
    Nothing,
}

/// A pet and the prompt that is open.
#[derive(Debug, Clone)]
pub struct Session {
    pub pet: Pet,
    pub stage: Stage,
}

impl Reply {
    /// Whether a congratulation in the reply, if there is one, is one that
    /// there is a text for.
    pub open spec fn valid(self) -> bool {
        self matches Reply::Guess(GuessOutcome::Won(_, message)) ==> message.valid()
    }
}

impl Session {
    /// Whether a game that is open has a secret number from 1 to 100.
    pub open spec fn wf(self) -> bool {
        self.stage matches Stage::Guessing(game) ==> game.wf()
    }

    /// Whether the line `line` can be taken as things stand. A meal needs
    /// room in the pet's counters, a guess in the game's.
    pub open spec fn accepts(self, line: Seq<char>) -> bool {
        match self.stage {
            Stage::Menu => command_of(line) == Command::Feed ==> self.pet.can_eat(),
            Stage::Guessing(game) => game.takes(line),
            _ => true,
        }
    }

    /// The session and the reply after `line` was typed at the main menu.
    /// `secret` is the number of the game that may start.
    pub open spec fn at_menu(self, line: Seq<char>, secret: u32) -> (Session, Reply) {
        match command_of(line) {
            Command::Feed => (Session { pet: self.pet.fed(), stage: Stage::Menu }, Reply::Fed),
            Command::Game => (
                Session {
                    pet: self.pet,
                    stage: Stage::Guessing(GuessingGame { secret, guesses: 0 }),
                },
                Reply::GameStarted,
            ),
            Command::Tools => (Session { pet: self.pet, stage: Stage::Tools }, Reply::ToolsOpened),
            Command::Status => (
                Session { pet: self.pet, stage: Stage::Menu },
                Reply::Status { happiness: self.pet.happiness, stomach_percent: self.pet.stomach },
            ),
            Command::Quit => (
                Session { pet: self.pet, stage: Stage::Terminated },
                Reply::Farewell,
            ),
            Command::Unknown => (
                Session { pet: self.pet, stage: Stage::Menu },
                Reply::Unrecognized,
            ),
        }
    }

    /// The session and the reply after `line` was typed in the game `game`.
    /// A win leads back to the main menu; anything else leaves the game
    /// open.
    pub open spec fn in_game(self, game: GuessingGame, line: Seq<char>, pick: u32) -> (
        Session,
        Reply,
    ) {
        let outcome = game.outcome(line, pick);
        let stage = if outcome is Won {
            Stage::Menu
        } else {
            Stage::Guessing(game.after(line))
        };
        (Session { pet: self.pet, stage }, Reply::Guess(outcome))
    }

    /// The session and the reply after `line` was typed at the list of
    /// tools. Anything but the number of a tool leads back to the main menu.
    pub open spec fn at_tools(self, line: Seq<char>) -> (Session, Reply) {
        if trimmed(line) == "1"@ {
            (Session { pet: self.pet, stage: Stage::Scales }, Reply::ConverterOpened)
        } else {
            (Session { pet: self.pet, stage: Stage::Menu }, Reply::Unrecognized)
        }
    }

    /// The session and the reply after `line` was typed where the converter
    /// asks for the scale. Anything but the number of a scale leads back to
    /// the main menu.
    pub open spec fn at_scales(self, line: Seq<char>) -> (Session, Reply) {
        let word = trimmed(line);
        if word == "1"@ {
            (
                Session { pet: self.pet, stage: Stage::Temperature(Scale::Fahrenheit) },
                Reply::TemperatureAsked(Scale::Fahrenheit),
            )
        } else if word == "2"@ {
            (
                Session { pet: self.pet, stage: Stage::Temperature(Scale::Celsius) },
                Reply::TemperatureAsked(Scale::Celsius),
            )
        } else {
            (Session { pet: self.pet, stage: Stage::Menu }, Reply::Unrecognized)
        }
    }

    /// The session and the reply after a temperature in `scale` was typed:
    /// whatever the line holds, it is converted, and the list of tools
    /// opens again.
    pub open spec fn at_temperature(self, scale: Scale) -> (Session, Reply) {
        (Session { pet: self.pet, stage: Stage::Tools }, Reply::Convert(scale))
    }

    /// The session and the reply after `line` was typed at whatever prompt
    /// is open, with `draws` for what chance decides.
    pub open spec fn next(self, line: Seq<char>, draws: Draws) -> (Session, Reply) {
        match self.stage {
            Stage::Menu => self.at_menu(line, draws.secret),
            Stage::Guessing(game) => self.in_game(game, line, draws.pick),
            Stage::Tools => self.at_tools(line),
            Stage::Scales => self.at_scales(line),
            Stage::Temperature(scale) => self.at_temperature(scale),
            Stage::Terminated => (self, Reply::Nothing),
        }
    }

    /// The session after the lines `lines` were typed one after the other,
    /// with `draws[i]` for what chance decides at line `i`.
    pub open spec fn run(self, lines: Seq<Seq<char>>, draws: Seq<Draws>) -> Session
        recommends
            draws.len() == lines.len(),
        decreases lines.len(),
    {
        if lines.len() == 0 {
            self
        } else {
            self.run(lines.drop_last(), draws.drop_last()).next(lines.last(), draws.last()).0
        }
    }

    /// A session that opens at the main menu.
    pub fn new(pet: Pet) -> (session: Session)
        ensures
            session == (Session { pet, stage: Stage::Menu }),
            session.wf(),
    {
        Session { pet, stage: Stage::Menu }
    }

    /// Whether the session is over, so that no further line is read.
    pub fn is_over(&self) -> (over: bool)
        ensures
            over == (self.stage == Stage::Terminated),
    {
        match self.stage {
            Stage::Terminated => true,
            _ => false,
        }
    }

    /// The pet is fed and the main menu opens again.
    pub fn feeding(&mut self) -> (reply: Reply)
        requires
            old(self).pet.can_eat(),
        ensures
            *final(self) == (Session { pet: old(self).pet.fed(), stage: Stage::Menu }),
            reply == Reply::Fed,
    {
        self.pet.feed();
        self.stage = Stage::Menu;
        Reply::Fed
    }

    /// The pet's condition is reported and the main menu opens again.
    pub fn show_status(&mut self) -> (reply: Reply)
        ensures
            *final(self) == (Session { pet: old(self).pet, stage: Stage::Menu }),
            reply == (Reply::Status {
                happiness: old(self).pet.happiness,
                stomach_percent: old(self).pet.stomach,
            }),
    {
        self.stage = Stage::Menu;
        Reply::Status { happiness: self.pet.happiness, stomach_percent: self.pet.stomach_percent() }
    }

    /// The session ends.
    pub fn quit(&mut self) -> (reply: Reply)
        ensures
            *final(self) == (Session { pet: old(self).pet, stage: Stage::Terminated }),
            reply == Reply::Farewell,
    {
        self.stage = Stage::Terminated;
        Reply::Farewell
    }

    /// A line that was not understood leads back to the main menu, from
    /// wherever it was typed.
    pub fn undefined_choice(&mut self) -> (reply: Reply)
        ensures
            *final(self) == (Session { pet: old(self).pet, stage: Stage::Menu }),
            reply == Reply::Unrecognized,
    {
        self.stage = Stage::Menu;
        Reply::Unrecognized
    }

    /// Takes a line typed at the main menu and does what it asks for.
    pub fn start_interaction(&mut self, line: &str, secret: u32) -> (reply: Reply)
        requires
            command_of(line@) == Command::Feed ==> old(self).pet.can_eat(),
        ensures
            (*final(self), reply) == old(self).at_menu(line@, secret),
    {
        match parse_command(line) {
            Command::Feed => self.feeding(),
            Command::Game => {
                self.stage = Stage::Guessing(GuessingGame { secret, guesses: 0 });
                Reply::GameStarted
            },
            Command::Tools => {
                self.stage = Stage::Tools;
                Reply::ToolsOpened
            },
            Command::Status => self.show_status(),
            Command::Quit => self.quit(),
            Command::Unknown => self.undefined_choice(),
        }
    }

    /// Takes a line typed in the game `game`.
    pub fn games(&mut self, game: GuessingGame, line: &str, pick: u32) -> (reply: Reply)
        requires
            game.takes(line@),
        ensures
            (*final(self), reply) == old(self).in_game(game, line@, pick),
    {
        let mut game = game;
        let outcome = game.guess(line, pick);
        match outcome {
            GuessOutcome::Won(_, _) => {
                self.stage = Stage::Menu;
            },
            _ => {
                self.stage = Stage::Guessing(game);
            },
        }
        Reply::Guess(outcome)
    }

    /// Takes a line typed at the list of tools.
    pub fn tools(&mut self, line: &str) -> (reply: Reply)
        ensures
            (*final(self), reply) == old(self).at_tools(line@),
    {
        if line_is(line, "1") {
            self.stage = Stage::Scales;
            Reply::ConverterOpened
        } else {
            self.undefined_choice()
        }
    }

    /// Takes a line typed where the converter asks for the scale.
    pub fn convert_temperatures(&mut self, line: &str) -> (reply: Reply)
        ensures
            (*final(self), reply) == old(self).at_scales(line@),
    {
        if line_is(line, "1") {
            self.stage = Stage::Temperature(Scale::Fahrenheit);
            Reply::TemperatureAsked(Scale::Fahrenheit)
        } else if line_is(line, "2") {
            self.stage = Stage::Temperature(Scale::Celsius);
            Reply::TemperatureAsked(Scale::Celsius)
        } else {
            self.undefined_choice()
        }
    }

    /// Takes the line typed where a temperature in `scale` was asked for.
    pub fn temperature_entered(&mut self, scale: Scale) -> (reply: Reply)
        ensures
            (*final(self), reply) == old(self).at_temperature(scale),
    {
        self.stage = Stage::Tools;
        Reply::Convert(scale)
    }

    /// Whether `line` can be taken as things stand.
    pub fn can_take(&self, line: &str) -> (ok: bool)
        ensures
            ok == self.accepts(line@),
    {
        match self.stage {
            Stage::Menu => match parse_command(line) {
                Command::Feed => self.pet.has_room(),
                _ => true,
            },
            Stage::Guessing(game) => game.can_take(line),
            _ => true,
        }
    }

    /// Takes one line at whatever prompt is open, with `draws` for what
    /// chance decides.
    pub fn advance(&mut self, line: &str, draws: Draws) -> (reply: Reply)
        requires
            old(self).accepts(line@),
        ensures
            (*final(self), reply) == old(self).next(line@, draws),
            old(self).wf() && draws.valid() ==> final(self).wf() && reply.valid(),
    {
        match self.stage {
            Stage::Menu => self.start_interaction(line, draws.secret),
            Stage::Guessing(game) => self.games(game, line, draws.pick),
            Stage::Tools => self.tools(line),
            Stage::Scales => self.convert_temperatures(line),
            Stage::Temperature(scale) => self.temperature_entered(scale),
            Stage::Terminated => Reply::Nothing,
        }
    }

    /// Takes one line at whatever prompt is open, and lets chance decide
    /// the secret number of a new game and the congratulation for a win.
    pub fn step(&mut self, line: &str) -> (reply: Reply)
        requires
            old(self).accepts(line@),
        ensures
            exists|draws: Draws|
                draws.valid() && (*final(self), reply) == #[trigger] old(self).next(line@, draws),
            old(self).wf() ==> final(self).wf() && reply.valid(),
    {
        let draws = Draws::roll();
        self.advance(line, draws)
    }
}

/// The status an exiting process reports: zero where the session ran to its
/// end, one where it failed.
pub fn exit_code(outcome: Result<(), ()>) -> (code: i32)
    ensures
        code == if outcome is Ok {
            0i32
        } else {
            1i32
        },
{
    match outcome {
        Ok(_) => 0,
        Err(_) => 1,
    }
}

/// A step keeps an open game's secret number within 1 to 100, and a
/// congratulation it hands out is one that there is a text for.
pub proof fn lemma_step_keeps_well_formed(session: Session, line: Seq<char>, draws: Draws)
    requires
        session.wf(),
        draws.valid(),
    ensures
        session.next(line, draws).0.wf(),
        session.next(line, draws).1.valid(),
{
}

/// However many times in a row the pet is fed from the main menu, each meal
/// adds ten to its happiness and five hundredths to its fullness, nothing
/// caps either, and the main menu is open again afterwards. The counters
/// have to be able to hold the sums.
pub proof fn lemma_feeding_adds_up(session: Session, lines: Seq<Seq<char>>, draws: Seq<Draws>)
    requires
        session.stage == Stage::Menu,
        draws.len() == lines.len(),
        forall|i: int| 0 <= i < lines.len() ==> command_of(#[trigger] lines[i]) == Command::Feed,
        session.pet.happiness + 10 * lines.len() <= i32::MAX,
        session.pet.stomach + 5 * lines.len() <= u32::MAX,
    ensures
        session.run(lines, draws).stage == Stage::Menu,
        session.run(lines, draws).pet == session.pet.fed_times(lines.len()),
        session.run(lines, draws).pet.happiness == session.pet.happiness + 10 * lines.len(),
        session.run(lines, draws).pet.stomach == session.pet.stomach + 5 * lines.len(),
        lines.len() > 0 ==> session.run(lines.drop_last(), draws.drop_last()).accepts(lines.last()),
    decreases lines.len(),
{
    crate::pet::lemma_meals_add_up(session.pet, lines.len());
    if lines.len() > 0 {
        let front = lines.drop_last();
        assert forall|i: int| 0 <= i < front.len() implies command_of(#[trigger] front[i])
            == Command::Feed by {
            assert(front[i] == lines[i]);
        }
        lemma_feeding_adds_up(session, front, draws.drop_last());
        crate::pet::lemma_meals_add_up(session.pet, front.len());
    }
}

/// Asking for the status changes nothing: the reply holds the pet's
/// happiness and its fullness in percent, and the main menu is open again.
pub proof fn lemma_status_returns_to_menu(session: Session, line: Seq<char>, draws: Draws)
    requires
        session.stage == Stage::Menu,
        command_of(line) == Command::Status,
    ensures
        session.next(line, draws).0 == session,
        session.next(line, draws).1 == (Reply::Status {
            happiness: session.pet.happiness,
            stomach_percent: session.pet.stomach,
        }),
{
}

/// `quit` and `q`, typed at the main menu with or without white space
/// around them, end the session: the pet says goodbye, and from then on no
/// line is answered and no prompt opens.
pub proof fn lemma_quit_ends_session(
    session: Session,
    line: Seq<char>,
    draws: Draws,
    later: Seq<char>,
    later_draws: Draws,
)
    requires
        session.stage == Stage::Menu,
        trimmed(line) == "quit"@ || trimmed(line) == "q"@,
    ensures
        command_of(line) == Command::Quit,
        session.next(line, draws).0.stage == Stage::Terminated,
        session.next(line, draws).0.pet == session.pet,
        session.next(line, draws).1 == Reply::Farewell,
        session.next(line, draws).0.next(later, later_draws) == (
            session.next(line, draws).0,
            Reply::Nothing,
        ),
{
    reveal_strlit("feed");
    reveal_strlit("game");
    reveal_strlit("play");
    reveal_strlit("tools");
    reveal_strlit("status");
    reveal_strlit("quit");
    reveal_strlit("q");
    let word = trimmed(line);
    if word == "quit"@ {
        assert(word.len() == 4 && word[0] == 'q');
    } else {
        assert(word.len() == 1);
    }
}

/// The session ends in one way only: by a step from the main menu on a line
/// that asks to quit. Once it is over it stays so.
pub proof fn lemma_only_quit_terminates(session: Session, line: Seq<char>, draws: Draws)
    ensures
        session.next(line, draws).0.stage == Stage::Terminated <==> session.stage
            == Stage::Terminated || (session.stage == Stage::Menu && command_of(line)
            == Command::Quit),
{
}

/// Only a meal changes the pet: after any other step it is as it was.
pub proof fn lemma_only_feeding_changes_pet(session: Session, line: Seq<char>, draws: Draws)
    requires
        !(session.stage == Stage::Menu && command_of(line) == Command::Feed),
    ensures
        session.next(line, draws).0.pet == session.pet,
{
}

/// Every prompt leads back to the main menu. From the menu itself a meal,
/// the status and a line that is not understood do so at once. A game does
/// so on the guess that names its secret number. The list of tools and the
/// question for the scale do so on any line that is not one of their
/// numbers, and a temperature leads to the list of tools, which is one such
/// line away from the menu.
pub proof fn lemma_every_prompt_returns_to_menu(
    session: Session,
    line: Seq<char>,
    draws: Draws,
    second: Seq<char>,
    second_draws: Draws,
)
    ensures
        session.stage == Stage::Menu && (command_of(line) == Command::Feed || command_of(line)
            == Command::Status || command_of(line) == Command::Unknown) ==> session.next(
            line,
            draws,
        ).0.stage == Stage::Menu,
        session.stage matches Stage::Guessing(game) && crate::text::parsed_u32(trimmed(line))
            == Some(game.secret) ==> session.next(line, draws).0.stage == Stage::Menu,
        session.stage == Stage::Tools && trimmed(line) != "1"@ ==> session.next(
            line,
            draws,
        ).0.stage == Stage::Menu,
        session.stage == Stage::Scales && trimmed(line) != "1"@ && trimmed(line) != "2"@
            ==> session.next(line, draws).0.stage == Stage::Menu,
        session.stage is Temperature && trimmed(second) != "1"@ ==> session.next(
            line,
            draws,
        ).0.next(second, second_draws).0.stage == Stage::Menu,
{
}

} // verus!
