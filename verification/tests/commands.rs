use tasklist::action::Action;
use tasklist::action::Effect;
use tasklist::action::ParseError;
use tasklist::task::ListError;
use tasklist::task::Task;
use tasklist::task::TaskList;
use tasklist::text::split;

fn filled(texts: &[&str]) -> TaskList {
    let mut list = TaskList::create();
    for text in texts {
        list.add(Task { description: text.to_string() });
    }
    list
}

fn shown(list: &TaskList) -> Vec<String> {
    list.tasks.iter().map(|t| t.description.clone()).collect()
}

fn tokens(texts: &[&str]) -> Vec<String> {
    texts.iter().map(|t| t.to_string()).collect()
}

#[test]
fn add_buy_milk_on_an_empty_list() {
    let mut list = TaskList::create();
    let (action, diagnostic) = Action::interpret("add buy milk");
    assert_eq!(action, Action::ADD("buy milk".to_string()));
    assert_eq!(diagnostic, None);
    assert_eq!(action.execute(&mut list), Ok(Effect::Persist));
    assert_eq!(shown(&list), vec!["buy milk"]);
}

#[test]
fn add_from_a_line_that_ends_in_a_newline() {
    let (action, diagnostic) = Action::interpret("add buy milk\n");
    assert_eq!(action, Action::ADD("buy milk".to_string()));
    assert_eq!(diagnostic, None);
}

#[test]
fn remove_one_of_three() {
    let mut list = filled(&["a", "b", "c"]);
    let (action, diagnostic) = Action::interpret("remove 1\n");
    assert_eq!(action, Action::REMOVE(1));
    assert_eq!(diagnostic, None);
    assert_eq!(action.execute(&mut list), Ok(Effect::Persist));
    assert_eq!(shown(&list), vec!["a", "c"]);
}

#[test]
fn list_prints_index_and_description() {
    let mut list = filled(&["x"]);
    let (action, diagnostic) = Action::interpret("list\n");
    assert_eq!(action, Action::LIST);
    assert_eq!(diagnostic, None);
    assert_eq!(action.execute(&mut list), Ok(Effect::Print(vec!["0 | x".to_string()])));
    assert_eq!(shown(&list), vec!["x"]);
}

#[test]
fn list_of_an_empty_list_prints_nothing() {
    let mut list = TaskList::create();
    assert_eq!(Action::LIST.execute(&mut list), Ok(Effect::Print(vec![])));
    assert_eq!(list.len(), 0);
}

#[test]
fn list_counts_in_decimal_and_in_ascending_order() {
    let mut list = filled(&["a", "b", "c", "d", "e", "f", "g", "h", "i", "j", "k", ""]);
    let before = list.clone();
    let expected: Vec<String> = vec![
        "0 | a", "1 | b", "2 | c", "3 | d", "4 | e", "5 | f", "6 | g", "7 | h", "8 | i", "9 | j",
        "10 | k", "11 | ",
    ]
    .into_iter()
    .map(String::from)
    .collect();
    assert_eq!(Action::LIST.execute(&mut list), Ok(Effect::Print(expected)));
    assert_eq!(list, before);
}

#[test]
fn list_twice_gives_the_same_and_never_asks_to_persist() {
    let mut list = filled(&["one", "two"]);
    let first = Action::LIST.execute(&mut list);
    let second = Action::LIST.execute(&mut list);
    assert_eq!(first, second);
    assert_ne!(first, Ok(Effect::Persist));
    assert_eq!(shown(&list), vec!["one", "two"]);
}

#[test]
fn empty_line_is_reported_and_changes_nothing() {
    let mut list = filled(&["keep"]);
    let (action, diagnostic) = Action::interpret("");
    assert_eq!(action, Action::PASS);
    assert_eq!(diagnostic, Some("Invalid arg:  is not a defined action.".to_string()));
    assert_eq!(action.execute(&mut list), Ok(Effect::Nothing));
    assert_eq!(shown(&list), vec!["keep"]);
}

#[test]
fn line_of_a_newline_alone_is_reported() {
    let (action, diagnostic) = Action::interpret("\n");
    assert_eq!(action, Action::PASS);
    assert_eq!(diagnostic, Some("Invalid arg:  is not a defined action.".to_string()));
}

#[test]
fn unknown_first_token_is_named_in_the_message() {
    let mut list = filled(&["keep"]);
    let result = Action::build(&tokens(&["frobnicate"]));
    assert_eq!(result, Err(ParseError::UnknownAction("frobnicate".to_string())));
    let message = result.unwrap_err().message();
    assert!(message.contains("frobnicate"));
    assert_eq!(message, "frobnicate is not a defined action.");
    let (action, diagnostic) = Action::interpret("frobnicate now\n");
    assert_eq!(action, Action::PASS);
    assert_eq!(diagnostic, Some("Invalid arg: frobnicate is not a defined action.".to_string()));
    assert_eq!(action.execute(&mut list), Ok(Effect::Nothing));
    assert_eq!(shown(&list), vec!["keep"]);
}

#[test]
fn unknown_first_token_is_reported_in_lowercase_and_trimmed() {
    let result = Action::build(&tokens(&["\tFrobNicate\n"]));
    assert_eq!(result, Err(ParseError::UnknownAction("frobnicate".to_string())));
}

#[test]
fn no_token_at_all_is_a_missing_action() {
    let result = Action::build(&tokens(&[]));
    assert_eq!(result, Err(ParseError::MissingAction));
    assert_eq!(ParseError::MissingAction.message(), "could not get action");
}

#[test]
fn add_without_text_gives_an_empty_description() {
    assert_eq!(Action::build(&tokens(&["add"])), Ok(Action::ADD(String::new())));
    let (action, diagnostic) = Action::interpret("add\n");
    assert_eq!(action, Action::ADD(String::new()));
    assert_eq!(diagnostic, None);
    let mut list = TaskList::create();
    assert_eq!(action.execute(&mut list), Ok(Effect::Persist));
    assert_eq!(shown(&list), vec![""]);
}

#[test]
fn add_trims_each_token_and_joins_with_single_spaces() {
    assert_eq!(
        Action::build(&tokens(&["add", "\tbuy\t", "milk\r\n"])),
        Ok(Action::ADD("buy milk".to_string()))
    );
    assert_eq!(
        Action::build(&tokens(&["add", "a", "", "b"])),
        Ok(Action::ADD("a  b".to_string()))
    );
    assert_eq!(Action::build(&tokens(&["add", "", "x"])), Ok(Action::ADD(" x".to_string())));
    assert_eq!(Action::build(&tokens(&["add", "x", ""])), Ok(Action::ADD("x ".to_string())));
    assert_eq!(Action::build(&tokens(&["add", ""])), Ok(Action::ADD(String::new())));
}

#[test]
fn command_word_is_read_without_regard_to_case() {
    assert_eq!(Action::build(&tokens(&["ADD", "Milk"])), Ok(Action::ADD("Milk".to_string())));
    assert_eq!(Action::build(&tokens(&["LiSt\n"])), Ok(Action::LIST));
    assert_eq!(Action::build(&tokens(&["Remove", "0"])), Ok(Action::REMOVE(0)));
}

#[test]
fn classify_takes_the_word_as_it_is() {
    assert_eq!(Action::classify("list", &tokens(&[])), Ok(Action::LIST));
    assert_eq!(
        Action::classify("LIST", &tokens(&[])),
        Err(ParseError::UnknownAction("LIST".to_string()))
    );
    assert_eq!(
        Action::classify(" add", &tokens(&["x"])),
        Err(ParseError::UnknownAction(" add".to_string()))
    );
    assert_eq!(Action::classify("add", &tokens(&["x", "y"])), Ok(Action::ADD("x y".to_string())));
    assert_eq!(Action::classify("remove", &tokens(&[" 3\n", "4"])), Ok(Action::REMOVE(3)));
}

#[test]
fn list_looks_at_no_further_token() {
    assert_eq!(Action::build(&tokens(&["list", "everything", "now"])), Ok(Action::LIST));
}

#[test]
fn remove_reads_the_next_token_as_index() {
    assert_eq!(Action::build(&tokens(&["remove", "12\n"])), Ok(Action::REMOVE(12)));
    assert_eq!(Action::build(&tokens(&["remove", "3", "4"])), Ok(Action::REMOVE(3)));
    assert_eq!(Action::build(&tokens(&["remove", "+5"])), Ok(Action::REMOVE(5)));
    assert_eq!(Action::build(&tokens(&["remove", "2147483647"])), Ok(Action::REMOVE(2147483647)));
    assert_eq!(Action::build(&tokens(&["remove", "2147483648"])), Ok(Action::REMOVE(2147483648)));
    assert_eq!(
        Action::build(&tokens(&["remove", usize::MAX.to_string().as_str()])),
        Ok(Action::REMOVE(usize::MAX))
    );
}

#[test]
fn remove_without_index_is_an_invalid_index() {
    let result = Action::build(&tokens(&["remove"]));
    assert_eq!(result, Err(ParseError::InvalidIndex(String::new())));
    assert_eq!(result.unwrap_err().message(), "failed to convert  to i32!");
    let (action, diagnostic) = Action::interpret("remove\n");
    assert_eq!(action, Action::PASS);
    assert_eq!(diagnostic, Some("Invalid arg: failed to convert  to i32!".to_string()));
}

#[test]
fn remove_with_text_that_is_no_index_carries_the_text() {
    let result = Action::build(&tokens(&["remove", " abc\n"]));
    assert_eq!(result, Err(ParseError::InvalidIndex("abc".to_string())));
    assert_eq!(result.unwrap_err().message(), "failed to convert abc to i32!");
    assert_eq!(
        Action::build(&tokens(&["remove", "-1"])),
        Err(ParseError::InvalidIndex("-1".to_string()))
    );
    let beyond = (usize::MAX as u128 + 1).to_string();
    assert_eq!(
        Action::build(&tokens(&["remove", beyond.as_str()])),
        Err(ParseError::InvalidIndex(beyond.clone()))
    );
    assert_eq!(
        Action::build(&tokens(&["remove", "", "1"])),
        Err(ParseError::InvalidIndex(String::new()))
    );
}

#[test]
fn build_agrees_with_interpret_on_split_lines() {
    for line in ["add a b", "remove 0", "list", "remove x", "nothing", "", "add"] {
        let (action, diagnostic) = Action::interpret(line);
        match Action::build(&split(line)) {
            Ok(built) => {
                assert_eq!(action, built);
                assert_eq!(diagnostic, None);
            }
            Err(error) => {
                assert_eq!(action, Action::PASS);
                assert_eq!(diagnostic, Some(format!("Invalid arg: {}", error.message())));
            }
        }
    }
}

#[test]
fn remove_out_of_range_is_refused_and_changes_nothing() {
    let mut list = filled(&["a", "b"]);
    assert_eq!(
        Action::REMOVE(2).execute(&mut list),
        Err(ListError::IndexOutOfRange { index: 2, len: 2 })
    );
    assert_eq!(shown(&list), vec!["a", "b"]);
    assert_eq!(
        Action::REMOVE(usize::MAX).execute(&mut list),
        Err(ListError::IndexOutOfRange { index: usize::MAX, len: 2 })
    );
    assert_eq!(shown(&list), vec!["a", "b"]);
}

#[test]
fn pass_does_nothing() {
    let mut list = filled(&["a"]);
    assert_eq!(Action::PASS.execute(&mut list), Ok(Effect::Nothing));
    assert_eq!(shown(&list), vec!["a"]);
}

#[test]
fn order_is_insertion_order_without_the_removed_positions() {
    let mut list = TaskList::create();
    let lines = [
        "add one", "add two", "list", "add three", "remove 0", "add four", "list", "remove 1",
        "add five", "remove 2", "add six",
    ];
    for line in lines {
        let (action, diagnostic) = Action::interpret(line);
        assert_eq!(diagnostic, None);
        assert!(action.execute(&mut list).is_ok());
    }
    assert_eq!(shown(&list), vec!["two", "four", "six"]);
}

#[test]
fn step_carries_out_a_command_without_diagnostic() {
    let mut list = TaskList::create();
    assert_eq!(tasklist::action::step("add buy milk\n", &mut list), (None, Ok(Effect::Persist)));
    assert_eq!(shown(&list), vec!["buy milk"]);
    assert_eq!(
        tasklist::action::step("list\n", &mut list),
        (None, Ok(Effect::Print(vec!["0 | buy milk".to_string()])))
    );
    assert_eq!(tasklist::action::step("remove 0\n", &mut list), (None, Ok(Effect::Persist)));
    assert_eq!(list.len(), 0);
}

#[test]
fn step_reports_what_is_no_command_and_goes_on() {
    let mut list = filled(&["keep"]);
    assert_eq!(
        tasklist::action::step("\n", &mut list),
        (Some("Invalid arg:  is not a defined action.".to_string()), Ok(Effect::Nothing))
    );
    assert_eq!(
        tasklist::action::step("frobnicate\n", &mut list),
        (Some("Invalid arg: frobnicate is not a defined action.".to_string()), Ok(Effect::Nothing))
    );
    assert_eq!(
        tasklist::action::step("remove one\n", &mut list),
        (Some("Invalid arg: failed to convert one to i32!".to_string()), Ok(Effect::Nothing))
    );
    assert_eq!(shown(&list), vec!["keep"]);
    assert_eq!(tasklist::action::step("add more\n", &mut list), (None, Ok(Effect::Persist)));
    assert_eq!(shown(&list), vec!["keep", "more"]);
}

#[test]
fn step_refuses_a_removal_out_of_range() {
    let mut list = filled(&["a", "b", "c"]);
    assert_eq!(
        tasklist::action::step("remove 3\n", &mut list),
        (None, Err(ListError::IndexOutOfRange { index: 3, len: 3 }))
    );
    assert_eq!(shown(&list), vec!["a", "b", "c"]);
}

#[test]
fn a_large_index_is_a_command_that_is_refused_when_carried_out() {
    let mut list = filled(&["a", "b"]);
    assert_eq!(
        tasklist::action::step("remove 2147483648\n", &mut list),
        (None, Err(ListError::IndexOutOfRange { index: 2147483648, len: 2 }))
    );
    assert_eq!(shown(&list), vec!["a", "b"]);
}

#[test]
fn command_word_may_be_wrapped_in_ascii_white_space() {
    assert_eq!(Action::build(&tokens(&["\t\u{b}\u{c}\r\nLIST\n"])), Ok(Action::LIST));
    assert_eq!(
        Action::build(&tokens(&["\u{1c}list"])),
        Err(ParseError::UnknownAction("\u{1c}list".to_string()))
    );
}

#[test]
fn command_word_is_lowered_letter_by_letter() {
    assert_eq!(
        Action::build(&tokens(&["AZ[@`{az09"])),
        Err(ParseError::UnknownAction("az[@`{az09".to_string()))
    );
}
