use libmm::cli::args::RunMode;
use libmm::cli::command::{
    select_index, AddMovieCommand, Command, CommandParser, ListMoviesCommand, MovieIndex,
};
use libmm::cli::config::Config;
use libmm::cli::error::AppError;
use libmm::cli::input::parse_confirmation;

fn strings(words: Vec<&str>) -> Vec<String> {
    words.into_iter().map(String::from).collect()
}

#[test]
pub fn try_parse_args() {
    let args = [vec!["-i"], vec!["-h"], vec![], vec!["-a"]];

    let results = [
        Ok(RunMode::Interactive),
        Ok(RunMode::SingleCommand(Command::PrintHelp)),
        Ok(RunMode::SingleCommand(Command::PrintHelp)),
        Err(AppError::ArgsParse("".to_owned())),
    ];

    for (args, result) in args.into_iter().zip(results) {
        assert_eq!(RunMode::try_from_arr(&strings(args)), result);
    }
}

#[test]
fn commands_parse_word_by_word() {
    assert_eq!(
        CommandParser::try_from_arr(&strings(vec!["list-movies"])),
        Ok(Command::ListMovies(ListMoviesCommand { with_metadata: false }))
    );
    assert_eq!(
        CommandParser::try_from_arr(&strings(vec!["list-movies", "--with-metadata"])),
        Ok(Command::ListMovies(ListMoviesCommand { with_metadata: true }))
    );
    assert_eq!(
        CommandParser::try_from_arr(&strings(vec!["add-movie", "/media/matrix.mkv"])),
        Ok(Command::AddMovie(AddMovieCommand { path: String::from("/media/matrix.mkv") }))
    );
    assert_eq!(
        CommandParser::try_from_arr(&strings(vec!["help"])),
        Ok(Command::PrintHelp)
    );
    assert_eq!(
        CommandParser::try_from_arr(&strings(vec!["exit"])),
        Ok(Command::Exit)
    );
}

#[test]
fn bad_command_words_are_parse_errors() {
    assert!(matches!(
        CommandParser::try_from_arr(&strings(vec![])),
        Err(AppError::ArgsParse(m)) if m == "Empty argument list"
    ));
    assert!(matches!(
        CommandParser::try_from_arr(&strings(vec!["add-movie"])),
        Err(AppError::ArgsParse(m)) if m == "No path to movie provided"
    ));
    assert!(matches!(
        CommandParser::try_from_arr(&strings(vec!["dance"])),
        Err(AppError::ArgsParse(m)) if m == "Unknown command"
    ));
}

#[test]
fn indexes_classify_as_answers() {
    assert_eq!(select_index("0", 3), Ok(MovieIndex::NotChosen));
    assert_eq!(select_index("1", 3), Ok(MovieIndex::Valid(0)));
    assert_eq!(select_index("3", 3), Ok(MovieIndex::Valid(2)));
    assert_eq!(select_index("4", 3), Ok(MovieIndex::Invalid));
    assert!(matches!(
        select_index("many", 3),
        Err(AppError::Input(m)) if m == "Input is not a number"
    ));
    assert!(matches!(select_index("", 3), Err(AppError::Input(_))));
}

#[test]
fn confirmations_accept_y_or_n_only() {
    assert_eq!(parse_confirmation("y"), Ok(true));
    assert_eq!(parse_confirmation("n"), Ok(false));
    assert!(matches!(
        parse_confirmation("maybe"),
        Err(AppError::Input(m)) if m == "Invalid input, write y/n"
    ));
}

#[test]
fn config_comes_only_from_a_text_token() {
    let config = Config::from_token(Some(Some(String::from("token-value")))).unwrap();
    assert_eq!(config.tmdb_token, "token-value");
    assert!(matches!(
        Config::from_token(Some(None)),
        Err(AppError::Config(m)) if m == "Invalid data type of `tmdb_token`"
    ));
    assert!(matches!(
        Config::from_token(None),
        Err(AppError::Config(m)) if m == "Missing value `tmdb_token`"
    ));
}

#[test]
fn invalid_input_keeps_its_message() {
    assert!(matches!(
        AppError::invalid_input("No movie was found"),
        AppError::Input(m) if m == "No movie was found"
    ));
}
