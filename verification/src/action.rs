use crate::number::decimal;
use crate::number::index_of;
use crate::number::parse_index;
use crate::number::render_decimal;
use crate::task::ListError;
use crate::task::Task;
use crate::task::TaskList;
use crate::text::lowercase_of;
use crate::text::split;
use crate::text::split_on_space;
use crate::text::texts;
use crate::text::trim;
use crate::text::trimmed;
use vstd::prelude::*;
use vstd::string::StringExecFns;

verus! {

/// One parsed command, made from one line of input and consumed by
/// `execute`.
#[allow(non_camel_case_types)]
#[derive(Debug, Clone, PartialEq, Eq)]
pub enum Action {
    /// Append a task with this description.
    ADD(String),
    /// Remove the task at this position.
    REMOVE(usize),
    /// Show every task with its position.
    LIST,
    /// Do nothing.
    PASS,
}

/// What an `Action` stands for.
pub enum ActionView {
    Add(Seq<char>),
    Remove(nat),
    List,
    Pass,
}

impl View for Action {
    type V = ActionView;

    open spec fn view(&self) -> ActionView {
        match self {
            Action::ADD(text) => ActionView::Add(text@),
            Action::REMOVE(index) => ActionView::Remove(*index as nat),
            Action::LIST => ActionView::List,
            Action::PASS => ActionView::Pass,
        }
    }
}

/// Why a line of input is no command.
#[derive(Debug, Clone, PartialEq, Eq)]
pub enum ParseError {
    /// There was no first token.
    MissingAction,
    /// The text after `remove` writes no index; the text is carried along.
    InvalidIndex(String),
    /// The first token names no command; the token is carried along,
    /// lowercased and trimmed.
    UnknownAction(String),
}

/// What a `ParseError` stands for.
pub enum ParseErrorView {
    MissingAction,
    InvalidIndex(Seq<char>),
    UnknownAction(Seq<char>),
}

impl View for ParseError {
    type V = ParseErrorView;

    open spec fn view(&self) -> ParseErrorView {
        match self {
            ParseError::MissingAction => ParseErrorView::MissingAction,
            ParseError::InvalidIndex(text) => ParseErrorView::InvalidIndex(text@),
            ParseError::UnknownAction(text) => ParseErrorView::UnknownAction(text@),
        }
    }
}

/// What the caller has to do after a command was carried out.
#[derive(Debug, Clone, PartialEq, Eq)]
pub enum Effect {
    /// The list changed: write it to storage.
    Persist,
    /// Write these lines to the output, in order.
    Print(Vec<String>),
    /// Nothing is left to do.
    Nothing,
}

/// What an `Effect` stands for.
pub enum EffectView {
    Persist,
    Print(Seq<Seq<char>>),
    Nothing,
}

impl View for Effect {
    type V = EffectView;

    open spec fn view(&self) -> EffectView {
        match self {
            Effect::Persist => EffectView::Persist,
            Effect::Print(lines) => EffectView::Print(texts(lines@)),
            Effect::Nothing => EffectView::Nothing,
        }
    }
}

/// The parts, with one space between each two neighbours.
pub open spec fn join(parts: Seq<Seq<char>>) -> Seq<char>
    decreases parts.len(),
{
    if parts.len() == 0 {
        Seq::empty()
    } else if parts.len() == 1 {
        parts[0]
    } else {
        join(parts.drop_last()) + seq![' '] + parts.last()
    }
}

/// Each text without its leading and trailing white space.
pub open spec fn each_trimmed(parts: Seq<Seq<char>>) -> Seq<Seq<char>> {
    parts.map_values(|t: Seq<char>| trimmed(t))
}

/// The description that the tokens after `add` make: each one trimmed, then
/// all joined with single spaces.
pub open spec fn description_of(args: Seq<Seq<char>>) -> Seq<char> {
    join(each_trimmed(args))
}

/// The text after `remove` that is read as the index: the first argument,
/// trimmed, or the empty text where there is none.
pub open spec fn index_text(args: Seq<Seq<char>>) -> Seq<char> {
    if args.len() > 0 {
        trimmed(args[0])
    } else {
        Seq::empty()
    }
}

/// The command that a normalised command word and the tokens after it make.
pub open spec fn classify_spec(word: Seq<char>, args: Seq<Seq<char>>) -> Result<
    ActionView,
    ParseErrorView,
> {
    if word == "add"@ {
        Ok(ActionView::Add(description_of(args)))
    } else if word == "remove"@ {
        match index_of(index_text(args)) {
            Some(index) => Ok(ActionView::Remove(index)),
            None => Err(ParseErrorView::InvalidIndex(index_text(args))),
        }
    } else if word == "list"@ {
        Ok(ActionView::List)
    } else {
        Err(ParseErrorView::UnknownAction(word))
    }
}

/// The command word that a first token writes: the token in lowercase,
/// without leading and trailing white space.
pub open spec fn command_word(token: Seq<char>) -> Seq<char> {
    trimmed(lowercase_of(token))
}

/// The command that a sequence of tokens makes.
pub open spec fn parse_tokens(tokens: Seq<Seq<char>>) -> Result<ActionView, ParseErrorView> {
    if tokens.len() == 0 {
        Err(ParseErrorView::MissingAction)
    } else {
        classify_spec(command_word(tokens[0]), tokens.skip(1))
    }
}

/// The outcome of parsing, with action and error taken by their views.
pub open spec fn parsed(r: Result<Action, ParseError>) -> Result<ActionView, ParseErrorView> {
    match r {
        Ok(action) => Ok(action@),
        Err(error) => Err(error@),
    }
}

/// The message that reports a parse error.
pub open spec fn message_of(error: ParseErrorView) -> Seq<char> {
    match error {
        ParseErrorView::MissingAction => "could not get action"@,
        ParseErrorView::InvalidIndex(text) => "failed to convert "@ + text + " to i32!"@,
        ParseErrorView::UnknownAction(text) => text + " is not a defined action."@,
    }
}

/// The diagnostic for a line that is no command.
pub open spec fn rejection_of(error: ParseErrorView) -> Seq<char> {
    "Invalid arg: "@ + message_of(error)
}

/// The action that a line of input stands for: the command it writes, or
/// `Pass` where it writes none.
pub open spec fn action_of(line: Seq<char>) -> ActionView {
    match parse_tokens(split_on_space(line)) {
        Ok(action) => action,
        Err(_) => ActionView::Pass,
    }
}

/// The diagnostic that a line of input calls for: none for a command, the
/// rejection for anything else.
pub open spec fn diagnostic_of(line: Seq<char>) -> Option<Seq<char>> {
    match parse_tokens(split_on_space(line)) {
        Ok(_) => None,
        Err(error) => Some(rejection_of(error)),
    }
}

/// The text of a diagnostic, if there is one.
pub open spec fn diagnostic_text(diagnostic: Option<String>) -> Option<Seq<char>> {
    match diagnostic {
        Some(text) => Some(text@),
        None => None,
    }
}

/// The line that shows the task at `index`.
pub open spec fn line_text(index: nat, description: Seq<char>) -> Seq<char> {
    decimal(index) + " | "@ + description
}

/// The lines that show a list: one per task, in ascending order of index.
pub open spec fn listing(list: Seq<Seq<char>>) -> Seq<Seq<char>> {
    Seq::new(list.len(), |i: int| line_text(i as nat, list[i]))
}

/// Whether an action can be carried out on a list: a removal needs an index
/// below the number of tasks, everything else always can.
pub open spec fn applies(list: Seq<Seq<char>>, action: ActionView) -> bool {
    match action {
        ActionView::Remove(index) => index < list.len(),
        _ => true,
    }
}

/// The list after an action; an action that cannot be carried out leaves it
/// as it is.
pub open spec fn apply(list: Seq<Seq<char>>, action: ActionView) -> Seq<Seq<char>> {
    match action {
        ActionView::Add(text) => list.push(text),
        ActionView::Remove(index) => if index < list.len() {
            list.remove(index as int)
        } else {
            list
        },
        ActionView::List => list,
        ActionView::Pass => list,
    }
}

/// What is left to the caller after an action was carried out on `list`.
pub open spec fn effect_of(list: Seq<Seq<char>>, action: ActionView) -> EffectView {
    match action {
        ActionView::Add(_) => EffectView::Persist,
        ActionView::Remove(_) => EffectView::Persist,
        ActionView::List => EffectView::Print(listing(list)),
        ActionView::Pass => EffectView::Nothing,
    }
}

/// Whether two texts hold the same characters.
fn same_text(a: &str, b: &str) -> (r: bool)
    ensures
        r == (a@ == b@),
{
    String::from_str(a) == String::from_str(b)
}

/// Makes the description of a new task from the tokens after the command
/// word.
fn describe(args: &Vec<String>) -> (r: String)
    ensures
        r@ == description_of(texts(args@)),
{
    let ghost parts = each_trimmed(texts(args@));
    let mut out = String::new();
    let mut i: usize = 0;
    while i < args.len()
        invariant
            i <= args@.len(),
            parts == each_trimmed(texts(args@)),
            out@ == join(parts.subrange(0, i as int)),
        decreases args@.len() - i,
    {
        proof {
            reveal_strlit(" ");
            let upto = parts.subrange(0, i + 1);
            assert(upto.drop_last() =~= parts.subrange(0, i as int));
            assert(upto.last() == trimmed(args@[i as int]@));
            assert(seq![' '] =~= " "@);
        }
        if i > 0 {
            out.append(" ");
        }
        out.append(trim(args[i].as_str()));
        proof {
            if i == 0 {
                assert(out@ =~= trimmed(args@[0]@));
            }
        }
        i += 1;
    }
    assert(parts.subrange(0, i as int) =~= parts);
    out
}

/// The tokens after the first one.
fn rest_of(tokens: &Vec<String>) -> (rest: Vec<String>)
    requires
        tokens@.len() >= 1,
    ensures
        texts(rest@) == texts(tokens@).skip(1),
{
    let mut rest: Vec<String> = Vec::new();
    let mut i: usize = 1;
    while i < tokens.len()
        invariant
            1 <= i <= tokens@.len(),
            rest@.len() == i - 1,
            forall|k: int| 0 <= k < rest@.len() ==> (#[trigger] rest@[k])@ == tokens@[k + 1]@,
        decreases tokens@.len() - i,
    {
        rest.push(tokens[i].clone());
        i += 1;
    }
    assert(texts(rest@) =~= texts(tokens@).skip(1));
    rest
}

/// Writes one line for each task, in the order of the list.
fn show(list: &TaskList) -> (lines: Vec<String>)
    ensures
        texts(lines@) == listing(list@),
{
    let mut lines: Vec<String> = Vec::new();
    let mut i: usize = 0;
    while i < list.tasks.len()
        invariant
            i <= list.tasks@.len(),
            lines@.len() == i,
            forall|k: int| 0 <= k < i ==> (#[trigger] lines@[k])@ == line_text(k as nat, list@[k]),
        decreases list.tasks@.len() - i,
    {
        let mut line = render_decimal(i);
        line.append(" | ");
        line.append(list.tasks[i].description.as_str());
        lines.push(line);
        i += 1;
    }
    assert(texts(lines@) =~= listing(list@));
    lines
}

impl ParseError {
    /// The message that reports this error.
    pub fn message(&self) -> (r: String)
        ensures
            r@ == message_of(self@),
    {
        match self {
            ParseError::MissingAction => String::from_str("could not get action"),
            ParseError::InvalidIndex(text) => {
                String::from_str("failed to convert ").concat(text.as_str()).concat(" to i32!")
            },
            ParseError::UnknownAction(text) => {
                String::from_str(text.as_str()).concat(" is not a defined action.")
            },
        }
    }
}

impl Action {
    /// Makes the command that a command word and its arguments stand for.
    /// The word is taken as it is: already in lowercase and trimmed.
    pub fn classify(word: &str, args: &Vec<String>) -> (r: Result<Action, ParseError>)
        ensures
            parsed(r) == classify_spec(word@, texts(args@)),
    {
        if same_text(word, "add") {
            Ok(Action::ADD(describe(args)))
        } else if same_text(word, "remove") {
            let text = if args.len() > 0 {
                trim(args[0].as_str())
            } else {
                let empty = "";
                proof {
                    reveal_strlit("");
                    assert(empty@ =~= Seq::<char>::empty());
                }
                empty
            };
            match parse_index(text) {
                Some(index) => Ok(Action::REMOVE(index)),
                None => Err(ParseError::InvalidIndex(String::from_str(text))),
            }
        } else if same_text(word, "list") {
            Ok(Action::LIST)
        } else {
            Err(ParseError::UnknownAction(String::from_str(word)))
        }
    }

    /// Parses the tokens of one line. The first token, in lowercase and
    /// trimmed, is the command word; the tokens after it are its arguments.
    /// Nothing is read or changed besides the tokens.
    pub fn build(tokens: &Vec<String>) -> (r: Result<Action, ParseError>)
        ensures
            parsed(r) == parse_tokens(texts(tokens@)),
    {
        if tokens.len() == 0 {
            return Err(ParseError::MissingAction);
        }
        let lowered = tokens[0].as_str().to_lowercase();
        let word = trim(lowered.as_str());
        let args = rest_of(tokens);
        Action::classify(word, &args)
    }

    /// Reads one line of input as a command. A line that is no command
    /// stands for `PASS`, and comes with the diagnostic to report.
    pub fn interpret(line: &str) -> (r: (Action, Option<String>))
        ensures
            r.0@ == action_of(line@),
            diagnostic_text(r.1) == diagnostic_of(line@),
    {
        let tokens = split(line);
        match Action::build(&tokens) {
            Ok(action) => (action, None),
            Err(error) => {
                let report = String::from_str("Invalid arg: ").concat(error.message().as_str());
                (Action::PASS, Some(report))
            },
        }
    }

    /// Carries the command out on `task_list` and says what is left to the
    /// caller. Adding and removing change the list and ask for it to be
    /// persisted; listing and passing leave the list as it is. A removal
    /// whose index names no task is refused, and the list stays as it was.
    pub fn execute(&self, task_list: &mut TaskList) -> (r: Result<Effect, ListError>)
        ensures
            final(task_list)@ == apply(old(task_list)@, self@),
            applies(old(task_list)@, self@) ==> r is Ok && r->Ok_0@ == effect_of(
                old(task_list)@,
                self@,
            ),
            !applies(old(task_list)@, self@) ==> *final(task_list) == *old(task_list) && r == Err::<
                Effect,
                ListError,
            >(
                ListError::IndexOutOfRange {
                    index: self->REMOVE_0,
                    len: old(task_list).tasks.len(),
                },
            ),
            self is LIST || self is PASS ==> *final(task_list) == *old(task_list),
    {
        match self {
            Action::ADD(text) => {
                task_list.add(Task { description: text.clone() });
                Ok(Effect::Persist)
            },
            Action::REMOVE(index) => {
                match task_list.remove(*index) {
                    Ok(()) => Ok(Effect::Persist),
                    Err(error) => Err(error),
                }
            },
            Action::LIST => Ok(Effect::Print(show(task_list))),
            Action::PASS => Ok(Effect::Nothing),
        }
    }
}

/// One turn of the command loop: reads `line` as a command and carries it
/// out on `task_list`. The first part of the result is the diagnostic to
/// report for a line that is no command; such a line leaves the list as it
/// is and asks for nothing. The second part is what `execute` gives for the
/// command.
pub fn step(line: &str, task_list: &mut TaskList) -> (r: (Option<String>, Result<Effect, ListError>))
    ensures
        diagnostic_text(r.0) == diagnostic_of(line@),
        final(task_list)@ == apply(old(task_list)@, action_of(line@)),
        applies(old(task_list)@, action_of(line@)) ==> r.1 is Ok && r.1->Ok_0@ == effect_of(
            old(task_list)@,
            action_of(line@),
        ),
        !applies(old(task_list)@, action_of(line@)) ==> *final(task_list) == *old(task_list)
            && r.1 is Err && r.1->Err_0->index as nat == action_of(line@)->Remove_0
            && r.1->Err_0->len == old(task_list).tasks.len(),
        !(action_of(line@) is Add) && !(action_of(line@) is Remove) ==> *final(task_list) == *old(
            task_list,
        ),
{
    let (action, diagnostic) = Action::interpret(line);
    let outcome = action.execute(task_list);
    (diagnostic, outcome)
}

} // verus!
