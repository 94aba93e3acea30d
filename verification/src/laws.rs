use crate::action::action_of;
use crate::action::applies;
use crate::action::apply;
use crate::action::classify_spec;
use crate::action::command_word;
use crate::action::description_of;
use crate::action::diagnostic_of;
use crate::action::each_trimmed;
use crate::action::effect_of;
use crate::action::listing;
use crate::action::message_of;
use crate::action::parse_tokens;
use crate::action::rejection_of;
use crate::action::ActionView;
use crate::action::EffectView;
use crate::action::ParseErrorView;
use crate::text::split_on_space;
use vstd::prelude::*;

verus! {

/// The list after a sequence of actions, carried out in order.
pub open spec fn run(list: Seq<Seq<char>>, actions: Seq<ActionView>) -> Seq<Seq<char>>
    decreases actions.len(),
{
    if actions.len() == 0 {
        list
    } else {
        apply(run(list, actions.drop_last()), actions.last())
    }
}

/// The descriptions that the actions add, in the order of the actions.
pub open spec fn added(actions: Seq<ActionView>) -> Seq<Seq<char>>
    decreases actions.len(),
{
    if actions.len() == 0 {
        Seq::empty()
    } else {
        match actions.last() {
            ActionView::Add(text) => added(actions.drop_last()).push(text),
            _ => added(actions.drop_last()),
        }
    }
}

/// `picks` names positions of `whole` in ascending order, and `part` is what
/// stands at them.
pub open spec fn selects(picks: Seq<int>, part: Seq<Seq<char>>, whole: Seq<Seq<char>>) -> bool {
    &&& picks.len() == part.len()
    &&& forall|i: int|
        0 <= i < picks.len() ==> 0 <= #[trigger] picks[i] < whole.len() && whole[picks[i]]
            == part[i]
    &&& forall|i: int, j: int|
        #![trigger picks[i], picks[j]]
        0 <= i < j < picks.len() ==> picks[i] < picks[j]
}

/// `part` is `whole` with some positions left out, the rest in its order.
pub open spec fn keeps_order_of(part: Seq<Seq<char>>, whole: Seq<Seq<char>>) -> bool {
    exists|picks: Seq<int>| selects(picks, part, whole)
}

/// Whatever actions are carried out, the list holds its tasks in insertion
/// order: it is the first list followed by everything added since, with the
/// removed positions left out and nothing moved past anything else.
pub proof fn law_insertion_order(list: Seq<Seq<char>>, actions: Seq<ActionView>)
    ensures
        keeps_order_of(run(list, actions), list + added(actions)),
    decreases actions.len(),
{
    let whole = list + added(actions);
    if actions.len() == 0 {
        let picks = Seq::new(list.len(), |i: int| i);
        assert(whole =~= list);
        assert(selects(picks, run(list, actions), whole));
    } else {
        let earlier = actions.drop_last();
        let before = run(list, earlier);
        let whole_before = list + added(earlier);
        law_insertion_order(list, earlier);
        let picks = choose|picks: Seq<int>| selects(picks, before, whole_before);
        match actions.last() {
            ActionView::Add(text) => {
                let longer = picks.push(whole_before.len() as int);
                assert(whole =~= whole_before.push(text));
                assert forall|i: int| 0 <= i < longer.len() implies 0 <= #[trigger] longer[i]
                    < whole.len() && whole[longer[i]] == before.push(text)[i] by {
                    if i < picks.len() {
                        assert(longer[i] == picks[i]);
                    }
                }
                assert forall|i: int, j: int|
                    #![trigger longer[i], longer[j]]
                    0 <= i < j < longer.len() implies longer[i] < longer[j] by {
                    assert(longer[i] == picks[i]);
                    if j < picks.len() {
                        assert(longer[j] == picks[j]);
                    }
                }
                assert(selects(longer, before.push(text), whole));
            },
            ActionView::Remove(index) => {
                assert(whole == whole_before);
                if index < before.len() {
                    let shorter = picks.remove(index as int);
                    let after = before.remove(index as int);
                    assert forall|i: int| 0 <= i < shorter.len() implies 0 <= #[trigger] shorter[i]
                        < whole.len() && whole[shorter[i]] == after[i] by {
                        if i < index {
                            assert(shorter[i] == picks[i]);
                        } else {
                            assert(shorter[i] == picks[i + 1]);
                        }
                    }
                    assert forall|i: int, j: int|
                        #![trigger shorter[i], shorter[j]]
                        0 <= i < j < shorter.len() implies shorter[i] < shorter[j] by {
                        let from_i = if i < index {
                            i
                        } else {
                            i + 1
                        };
                        let from_j = if j < index {
                            j
                        } else {
                            j + 1
                        };
                        assert(shorter[i] == picks[from_i]);
                        assert(shorter[j] == picks[from_j]);
                    }
                    assert(selects(shorter, after, whole));
                } else {
                    assert(selects(picks, before, whole));
                }
            },
            ActionView::List => {
                assert(selects(picks, before, whole));
            },
            ActionView::Pass => {
                assert(selects(picks, before, whole));
            },
        }
    }
}

/// Adding puts the new task last and leaves every other task at its place.
pub proof fn law_add_appends(list: Seq<Seq<char>>, text: Seq<char>)
    ensures
        apply(list, ActionView::Add(text)).len() == list.len() + 1,
        apply(list, ActionView::Add(text)).last() == text,
        forall|k: int| 0 <= k < list.len() ==> apply(list, ActionView::Add(text))[k] == list[k],
{
}

/// Removing shifts left: the tasks before the removed position stay where
/// they are, and each task behind it moves one position forward.
pub proof fn law_remove_shifts_left(list: Seq<Seq<char>>, index: nat)
    requires
        index < list.len(),
    ensures
        apply(list, ActionView::Remove(index)).len() == list.len() - 1,
        forall|k: int| 0 <= k < index ==> apply(list, ActionView::Remove(index))[k] == list[k],
        forall|k: int|
            index <= k < list.len() - 1 ==> apply(list, ActionView::Remove(index))[k] == list[k
                + 1],
{
}

/// A removal whose index is the number of tasks or more cannot be carried
/// out, and changes nothing.
pub proof fn law_remove_out_of_range(list: Seq<Seq<char>>, index: nat)
    requires
        index >= list.len(),
    ensures
        !applies(list, ActionView::Remove(index)),
        apply(list, ActionView::Remove(index)) == list,
{
}

/// Listing leaves the list as it is and asks for output only, never for the
/// list to be persisted; carried out again on its own result it gives the
/// same.
pub proof fn law_listing_changes_nothing(list: Seq<Seq<char>>)
    ensures
        applies(list, ActionView::List),
        apply(list, ActionView::List) == list,
        effect_of(list, ActionView::List) == EffectView::Print(listing(list)),
        effect_of(apply(list, ActionView::List), ActionView::List) == effect_of(
            list,
            ActionView::List,
        ),
{
}

/// A line that holds the command word `add` and nothing after it is a
/// command: it adds a task with an empty description.
pub proof fn law_add_without_text(tokens: Seq<Seq<char>>)
    requires
        tokens.len() == 1,
        command_word(tokens[0]) == "add"@,
    ensures
        parse_tokens(tokens) == Ok::<ActionView, ParseErrorView>(
            ActionView::Add(Seq::<char>::empty()),
        ),
{
    assert(each_trimmed(tokens.skip(1)) =~= Seq::<Seq<char>>::empty());
    assert(description_of(tokens.skip(1)) =~= Seq::<char>::empty());
}

/// A line that is no command, whatever is wrong with it, stands for `Pass`:
/// it calls for a diagnostic, can always be carried out, leaves the list as
/// it is and asks for nothing.
pub proof fn law_rejected_line_changes_nothing(list: Seq<Seq<char>>, line: Seq<char>)
    requires
        parse_tokens(split_on_space(line)) is Err,
    ensures
        action_of(line) == ActionView::Pass,
        diagnostic_of(line) == Some(rejection_of(parse_tokens(split_on_space(line))->Err_0)),
        applies(list, action_of(line)),
        apply(list, action_of(line)) == list,
        effect_of(list, action_of(line)) == EffectView::Nothing,
{
}

/// A command word other than `add`, `remove` and `list` is refused whatever
/// follows it, and the message that reports it begins with the word itself.
pub proof fn law_unknown_word_is_named(word: Seq<char>, args: Seq<Seq<char>>)
    requires
        word != "add"@,
        word != "remove"@,
        word != "list"@,
    ensures
        classify_spec(word, args) == Err::<ActionView, ParseErrorView>(
            ParseErrorView::UnknownAction(word),
        ),
        message_of(ParseErrorView::UnknownAction(word)).len() >= word.len(),
        message_of(ParseErrorView::UnknownAction(word)).subrange(0, word.len() as int) == word,
{
    let message = message_of(ParseErrorView::UnknownAction(word));
    assert(message.subrange(0, word.len() as int) =~= word);
}

} // verus!
