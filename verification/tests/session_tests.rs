use virtual_pet::guessing::{GuessOutcome, GuessingGame, WinMessage};
use virtual_pet::pet::Pet;
use virtual_pet::random::Draws;
use virtual_pet::session::{exit_code, Reply, Scale, Session, Stage};

fn billy() -> Session {
    Session::new(Pet::new(String::from("Billy")))
}

const DRAWS: Draws = Draws { secret: 42, pick: 3 };

#[test]
fn session_opens_at_the_main_menu() {
    let session = billy();
    assert_eq!(session.stage, Stage::Menu);
    assert!(!session.is_over());
    assert_eq!(session.pet.happiness, 50);
    assert_eq!(session.pet.stomach, 50);
}

#[test]
fn feed_feeds_and_returns_to_the_menu() {
    let mut session = billy();
    assert_eq!(session.advance("feed\n", DRAWS), Reply::Fed);
    assert_eq!(session.stage, Stage::Menu);
    assert_eq!(session.pet.happiness, 60);
    assert_eq!(session.pet.stomach, 55);
}

#[test]
fn every_feed_in_a_row_counts() {
    let mut session = billy();
    let mut meals: i32 = 0;
    while meals < 250 {
        assert!(session.can_take("feed\n"));
        assert_eq!(session.advance("feed\n", DRAWS), Reply::Fed);
        meals += 1;
        assert_eq!(session.pet.happiness, 50 + 10 * meals);
        assert_eq!(session.pet.stomach as i32, 50 + 5 * meals);
        assert_eq!(session.stage, Stage::Menu);
    }
    assert_eq!(
        session.advance("status\n", DRAWS),
        Reply::Status { happiness: 2550, stomach_percent: 1300 }
    );
}

#[test]
fn status_reports_and_returns_to_the_menu() {
    let mut session = billy();
    assert_eq!(
        session.advance("status\n", DRAWS),
        Reply::Status { happiness: 50, stomach_percent: 50 }
    );
    assert_eq!(session.stage, Stage::Menu);
    assert!(!session.is_over());
    assert_eq!(session.advance("feed\n", DRAWS), Reply::Fed);
    assert_eq!(
        session.advance("status\n", DRAWS),
        Reply::Status { happiness: 60, stomach_percent: 55 }
    );
    assert_eq!(session.stage, Stage::Menu);
    assert_eq!(session.pet.happiness, 60);
}

#[test]
fn quit_ends_the_session() {
    let mut session = billy();
    assert_eq!(session.advance("quit\n", DRAWS), Reply::Farewell);
    assert_eq!(session.stage, Stage::Terminated);
    assert!(session.is_over());
}

#[test]
fn q_ends_the_session() {
    let mut session = billy();
    assert_eq!(session.advance("q\n", DRAWS), Reply::Farewell);
    assert_eq!(session.stage, Stage::Terminated);
    assert!(session.is_over());
}

#[test]
fn nothing_is_answered_once_the_session_is_over() {
    let mut session = billy();
    session.advance("q\n", DRAWS);
    assert_eq!(session.advance("feed\n", DRAWS), Reply::Nothing);
    assert_eq!(session.advance("status\n", DRAWS), Reply::Nothing);
    assert_eq!(session.advance("game\n", DRAWS), Reply::Nothing);
    assert_eq!(session.step("tools\n"), Reply::Nothing);
    assert_eq!(session.stage, Stage::Terminated);
    assert_eq!(session.pet.happiness, 50);
}

#[test]
fn unknown_line_at_the_menu_returns_to_the_menu() {
    let mut session = billy();
    assert_eq!(session.advance("dance\n", DRAWS), Reply::Unrecognized);
    assert_eq!(session.stage, Stage::Menu);
    assert_eq!(session.advance("\n", DRAWS), Reply::Unrecognized);
    assert_eq!(session.advance("FEED\n", DRAWS), Reply::Unrecognized);
    assert_eq!(session.stage, Stage::Menu);
    assert_eq!(session.pet.happiness, 50);
}

#[test]
fn game_and_play_start_a_game_with_the_secret_drawn() {
    let mut session = billy();
    assert_eq!(session.advance("game\n", DRAWS), Reply::GameStarted);
    assert_eq!(session.stage, Stage::Guessing(GuessingGame { secret: 42, guesses: 0 }));
    let mut session = billy();
    assert_eq!(session.advance("play\n", Draws { secret: 7, pick: 0 }), Reply::GameStarted);
    assert_eq!(session.stage, Stage::Guessing(GuessingGame { secret: 7, guesses: 0 }));
}

#[test]
fn game_runs_until_the_secret_is_guessed() {
    let mut session = billy();
    session.advance("game\n", DRAWS);
    assert_eq!(session.advance("50\n", DRAWS), Reply::Guess(GuessOutcome::TooBig(50)));
    assert_eq!(session.stage, Stage::Guessing(GuessingGame { secret: 42, guesses: 1 }));
    assert_eq!(session.advance("what?\n", DRAWS), Reply::Guess(GuessOutcome::Ignored));
    assert_eq!(session.stage, Stage::Guessing(GuessingGame { secret: 42, guesses: 1 }));
    assert_eq!(session.advance("quit\n", DRAWS), Reply::Guess(GuessOutcome::Ignored));
    assert_eq!(session.stage, Stage::Guessing(GuessingGame { secret: 42, guesses: 1 }));
    assert_eq!(session.advance("25\n", DRAWS), Reply::Guess(GuessOutcome::TooSmall(25)));
    assert_eq!(session.stage, Stage::Guessing(GuessingGame { secret: 42, guesses: 2 }));
    assert_eq!(
        session.advance(" 42 \n", DRAWS),
        Reply::Guess(GuessOutcome::Won(42, WinMessage::Congratulations(3)))
    );
    assert_eq!(session.stage, Stage::Menu);
    assert_eq!(session.pet.happiness, 50);
}

#[test]
fn game_won_at_once_is_got_it_in_one() {
    let mut session = billy();
    session.advance("play\n", Draws { secret: 13, pick: 1 });
    assert_eq!(
        session.advance("13\n", Draws { secret: 99, pick: 1 }),
        Reply::Guess(GuessOutcome::Won(13, WinMessage::GotItInOne))
    );
    assert_eq!(session.stage, Stage::Menu);
}

#[test]
fn game_on_thirteen_won_late_is_spooky() {
    let mut session = billy();
    session.advance("play\n", Draws { secret: 13, pick: 1 });
    session.advance("14\n", DRAWS);
    assert_eq!(
        session.advance("13\n", DRAWS),
        Reply::Guess(GuessOutcome::Won(13, WinMessage::Spooky))
    );
}

#[test]
fn each_game_has_its_own_secret_and_count() {
    let mut session = billy();
    session.advance("game\n", Draws { secret: 10, pick: 0 });
    session.advance("1\n", DRAWS);
    session.advance("10\n", DRAWS);
    assert_eq!(session.stage, Stage::Menu);
    session.advance("game\n", Draws { secret: 20, pick: 0 });
    assert_eq!(session.stage, Stage::Guessing(GuessingGame { secret: 20, guesses: 0 }));
    assert_eq!(
        session.advance("20\n", DRAWS),
        Reply::Guess(GuessOutcome::Won(20, WinMessage::GotItInOne))
    );
}

#[test]
fn tools_lead_to_the_converter_and_back_to_the_tools() {
    let mut session = billy();
    assert_eq!(session.advance("tools\n", DRAWS), Reply::ToolsOpened);
    assert_eq!(session.stage, Stage::Tools);
    assert_eq!(session.advance("1\n", DRAWS), Reply::ConverterOpened);
    assert_eq!(session.stage, Stage::Scales);
    assert_eq!(session.advance("1\n", DRAWS), Reply::TemperatureAsked(Scale::Fahrenheit));
    assert_eq!(session.stage, Stage::Temperature(Scale::Fahrenheit));
    assert_eq!(session.advance("98.6\n", DRAWS), Reply::Convert(Scale::Fahrenheit));
    assert_eq!(session.stage, Stage::Tools);
    assert_eq!(session.advance("1\n", DRAWS), Reply::ConverterOpened);
    assert_eq!(session.advance("2\n", DRAWS), Reply::TemperatureAsked(Scale::Celsius));
    assert_eq!(session.stage, Stage::Temperature(Scale::Celsius));
    assert_eq!(session.advance("100\n", DRAWS), Reply::Convert(Scale::Celsius));
    assert_eq!(session.stage, Stage::Tools);
}

#[test]
fn temperature_that_is_no_number_is_converted_all_the_same() {
    let mut session = billy();
    session.advance("tools\n", DRAWS);
    session.advance("1\n", DRAWS);
    session.advance("2\n", DRAWS);
    assert_eq!(session.advance("warm\n", DRAWS), Reply::Convert(Scale::Celsius));
    assert_eq!(session.stage, Stage::Tools);
    session.advance("1\n", DRAWS);
    session.advance("1\n", DRAWS);
    assert_eq!(session.advance("\n", DRAWS), Reply::Convert(Scale::Fahrenheit));
    assert_eq!(session.stage, Stage::Tools);
}

#[test]
fn unknown_tool_leads_to_the_main_menu() {
    let mut session = billy();
    session.advance("tools\n", DRAWS);
    assert_eq!(session.advance("2\n", DRAWS), Reply::Unrecognized);
    assert_eq!(session.stage, Stage::Menu);
    session.advance("tools\n", DRAWS);
    assert_eq!(session.advance("quit\n", DRAWS), Reply::Unrecognized);
    assert_eq!(session.stage, Stage::Menu);
    assert!(!session.is_over());
}

#[test]
fn unknown_scale_leads_to_the_main_menu() {
    let mut session = billy();
    session.advance("tools\n", DRAWS);
    session.advance("1\n", DRAWS);
    assert_eq!(session.advance("3\n", DRAWS), Reply::Unrecognized);
    assert_eq!(session.stage, Stage::Menu);
    session.advance("tools\n", DRAWS);
    session.advance("1\n", DRAWS);
    assert_eq!(session.advance("fahrenheit\n", DRAWS), Reply::Unrecognized);
    assert_eq!(session.stage, Stage::Menu);
}

#[test]
fn menu_words_mean_nothing_at_the_tools() {
    let mut session = billy();
    session.advance("tools\n", DRAWS);
    assert_eq!(session.advance("feed\n", DRAWS), Reply::Unrecognized);
    assert_eq!(session.pet.happiness, 50);
    assert_eq!(session.stage, Stage::Menu);
}

#[test]
fn handlers_can_be_called_one_by_one() {
    let mut session = billy();
    assert_eq!(session.start_interaction("feed", 9), Reply::Fed);
    assert_eq!(session.feeding(), Reply::Fed);
    assert_eq!(session.pet.happiness, 70);
    assert_eq!(session.show_status(), Reply::Status { happiness: 70, stomach_percent: 60 });
    assert_eq!(session.start_interaction("game", 9), Reply::GameStarted);
    assert_eq!(session.stage, Stage::Guessing(GuessingGame { secret: 9, guesses: 0 }));
    let game = GuessingGame { secret: 9, guesses: 4 };
    assert_eq!(session.games(game, "8", 0), Reply::Guess(GuessOutcome::TooSmall(8)));
    assert_eq!(session.stage, Stage::Guessing(GuessingGame { secret: 9, guesses: 5 }));
    assert_eq!(session.tools("1"), Reply::ConverterOpened);
    assert_eq!(session.convert_temperatures("2"), Reply::TemperatureAsked(Scale::Celsius));
    assert_eq!(session.temperature_entered(Scale::Celsius), Reply::Convert(Scale::Celsius));
    assert_eq!(session.stage, Stage::Tools);
    assert_eq!(session.undefined_choice(), Reply::Unrecognized);
    assert_eq!(session.stage, Stage::Menu);
    assert_eq!(session.quit(), Reply::Farewell);
    assert!(session.is_over());
}

#[test]
fn step_draws_a_secret_between_one_and_a_hundred() {
    let mut round: u32 = 0;
    let mut distinct = false;
    let mut first: u32 = 0;
    while round < 300 {
        let mut session = billy();
        assert_eq!(session.step("game\n"), Reply::GameStarted);
        match session.stage {
            Stage::Guessing(game) => {
                assert!(game.secret >= 1 && game.secret <= 100);
                assert_eq!(game.guesses, 0);
                if round == 0 {
                    first = game.secret;
                } else if game.secret != first {
                    distinct = true;
                }
            }
            other => panic!("no game was started: {:?}", other),
        }
        round += 1;
    }
    assert!(distinct);
}

#[test]
fn step_picks_a_congratulation_that_has_a_text() {
    let mut seen = [false; 5];
    let mut round: u32 = 0;
    while round < 500 {
        let mut session = billy();
        session.stage = Stage::Guessing(GuessingGame { secret: 30, guesses: 1 });
        match session.step("30\n") {
            Reply::Guess(GuessOutcome::Won(30, WinMessage::Congratulations(pick))) => {
                assert!(pick < 5);
                assert!(!WinMessage::Congratulations(pick).text().is_empty());
                seen[pick as usize] = true;
            }
            other => panic!("unexpected reply {:?}", other),
        }
        assert_eq!(session.stage, Stage::Menu);
        round += 1;
    }
    assert_eq!(seen, [true; 5]);
}

#[test]
fn step_plays_a_whole_session() {
    let mut session = billy();
    assert_eq!(session.step("feed\n"), Reply::Fed);
    assert_eq!(session.step("status\n"), Reply::Status { happiness: 60, stomach_percent: 55 });
    assert_eq!(session.step("play\n"), Reply::GameStarted);
    let mut low: u32 = 1;
    let mut high: u32 = 100;
    let mut guesses: u32 = 0;
    loop {
        let number = low + (high - low) / 2;
        guesses += 1;
        assert!(guesses <= 7);
        match session.step(&format!("{}\n", number)) {
            Reply::Guess(GuessOutcome::TooSmall(_)) => low = number + 1,
            Reply::Guess(GuessOutcome::TooBig(_)) => high = number - 1,
            Reply::Guess(GuessOutcome::Won(n, _)) => {
                assert_eq!(n, number);
                break;
            }
            other => panic!("unexpected reply {:?}", other),
        }
    }
    assert_eq!(session.stage, Stage::Menu);
    assert_eq!(session.step("q\n"), Reply::Farewell);
    assert!(session.is_over());
}

#[test]
fn can_take_refuses_a_meal_that_would_run_a_counter_over() {
    let mut session = billy();
    session.pet.happiness = i32::MAX - 5;
    assert!(!session.can_take("feed\n"));
    assert!(session.can_take("status\n"));
    assert!(session.can_take("quit\n"));
    session.stage = Stage::Tools;
    assert!(session.can_take("feed\n"));
    session.stage = Stage::Guessing(GuessingGame { secret: 3, guesses: u32::MAX });
    assert!(!session.can_take("3\n"));
    assert!(session.can_take("three\n"));
}

#[test]
fn exit_code_is_zero_for_success_and_one_for_failure() {
    assert_eq!(exit_code(Ok(())), 0);
    assert_eq!(exit_code(Err(())), 1);
}
