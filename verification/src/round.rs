//! Per-round interaction state: five selectable options, disabled flags,
//! and the resolution rule.

use vstd::prelude::*;
use crate::dictionary::{DictEntry, NLevel, levels_ascending, some_reading_has_level, str_eq};
use crate::ids::{component_id, custom_id_ok, digit_char, digit_val, parse_custom_id};
use crate::question::Question;

verus! {

/// One selectable option of a round: a unique identifier, the display
/// text, and whether it has been disabled.
#[derive(Debug)]
pub struct QuestionComponent {
    /// The component's unique identifier.
    pub id: String,
    /// Possible translation text.
    pub text: String,
    /// Whether this option should be disabled.
    pub disabled: bool,
}

/// How a selection was resolved: ignored as stale, wrong (the chosen
/// option index is disabled), or correct (the round is over).
#[derive(Debug, Clone, Copy, PartialEq, Eq, Structural)]
pub enum SelectionOutcome {
    /// The event belongs to another round and is dropped.
    Stale,
    /// The chosen option is wrong; only it becomes disabled.
    Incorrect(usize),
    /// The chosen option is right; every option becomes disabled.
    Correct,
}

/// The state of one round: its identifier, the prompt, the five option
/// components, the index of the correct one, and the entry's levels for
/// the answer reveal.
#[derive(Debug)]
pub struct Menu {
    pub id: String,
    pub prompt: String,
    pub questions: Vec<QuestionComponent>,
    pub answer: usize,
    pub levels: Vec<NLevel>,
}

impl Menu {
    /// A well-formed round has five options whose identifiers append the
    /// choice digit to the round identifier.
    pub open spec fn wf(self) -> bool {
        &&& self.questions@.len() == 5
        &&& self.answer < 5
        &&& forall|i: int| 0 <= i < 5 ==> (#[trigger] self.questions@[i].id@)
                == self.id@ + seq![','] + seq![digit_char(i)]
    }

    /// Whether an event identifier belongs to this round: it has the
    /// choice shape and its prefix is this round's identifier.
    pub open spec fn owns_event(self, s: Seq<char>) -> bool {
        custom_id_ok(s) && s.subrange(0, s.len() - 2) == self.id@
    }

    /// Builds the round state for a question: one component per option,
    /// all enabled, with the entry's levels recorded for display.
    pub fn new(id: String, question: Question, entry: &DictEntry) -> (r: Menu)
        requires
            question.options@.len() == 5,
            question.answer < 5,
        ensures
            r.wf(),
            r.id@ == id@,
            r.prompt@ == question.prompt@,
            r.answer == question.answer,
            forall|i: int| 0 <= i < 5 ==> (#[trigger] r.questions@[i].text@)
                == question.options@[i]@,
            forall|i: int| 0 <= i < 5 ==> !(#[trigger] r.questions@[i].disabled),
            levels_ascending(r.levels@),
            forall|l: NLevel| r.levels@.contains(l) <==> some_reading_has_level(entry.readings@, l),
    {
        let mut components: Vec<QuestionComponent> = Vec::new();
        let mut i: usize = 0;
        while i < 5
            invariant
                i <= 5,
                question.options@.len() == 5,
                components@.len() == i,
                forall|j: int| 0 <= j < i ==> (#[trigger] components@[j].id@)
                    == id@ + seq![','] + seq![digit_char(j)],
                forall|j: int| 0 <= j < i ==> (#[trigger] components@[j].text@)
                    == question.options@[j]@,
                forall|j: int| 0 <= j < i ==> !(#[trigger] components@[j].disabled),
            decreases 5 - i,
        {
            components.push(QuestionComponent {
                id: component_id(id.as_str(), i),
                text: question.options[i].clone(),
                disabled: false,
            });
            i += 1;
        }
        Menu {
            id,
            prompt: question.prompt,
            questions: components,
            answer: question.answer,
            levels: entry.levels(),
        }
    }

    /// The identifier of the correct option.
    pub fn answer_id(&self) -> (r: &str)
        requires
            self.wf(),
        ensures
            r@ == self.questions@[self.answer as int].id@,
    {
        self.questions[self.answer].id.as_str()
    }

    /// Resolves one selection event. Events of another round are
    /// ignored. A wrong choice disables only the chosen option and
    /// leaves the round active; the right choice disables every option
    /// and ends the round.
    pub fn handle_event(&mut self, custom_id: &str) -> (r: SelectionOutcome)
        requires
            old(self).wf(),
        ensures
            final(self).wf(),
            final(self).id@ == old(self).id@,
            final(self).prompt@ == old(self).prompt@,
            final(self).answer == old(self).answer,
            final(self).levels@ == old(self).levels@,
            forall|i: int| 0 <= i < 5 ==> (#[trigger] final(self).questions@[i].text@)
                == old(self).questions@[i].text@,
            !old(self).owns_event(custom_id@) ==> r == SelectionOutcome::Stale
                && *final(self) == *old(self),
            old(self).owns_event(custom_id@)
                && digit_val(custom_id@[custom_id@.len() - 1]) == old(self).answer
                ==> r == SelectionOutcome::Correct
                    && forall|i: int| 0 <= i < 5 ==> (#[trigger] final(self).questions@[i].disabled),
            old(self).owns_event(custom_id@)
                && digit_val(custom_id@[custom_id@.len() - 1]) != old(self).answer
                ==> r == SelectionOutcome::Incorrect(
                        digit_val(custom_id@[custom_id@.len() - 1]) as usize)
                    && final(self).questions@[digit_val(custom_id@[custom_id@.len() - 1]) as int]
                        .disabled
                    && forall|i: int| 0 <= i < 5
                        && i != digit_val(custom_id@[custom_id@.len() - 1])
                        ==> (#[trigger] final(self).questions@[i].disabled)
                            == old(self).questions@[i].disabled,
    {
        let ghost pre = *self;
        let (menu_id, choice) = match parse_custom_id(custom_id) {
            Some(p) => p,
            None => {
                return SelectionOutcome::Stale;
            },
        };
        if !str_eq(menu_id, self.id.as_str()) {
            return SelectionOutcome::Stale;
        }
        proof {
            assert(pre.owns_event(custom_id@));
            assert(choice == digit_val(custom_id@[custom_id@.len() - 1]));
            assert(choice <= 4);
        }
        let correct = str_eq(self.questions[choice].id.as_str(), self.answer_id());
        proof {
            let ca = pre.questions@[choice as int].id@;
            let cb = pre.questions@[pre.answer as int].id@;
            if choice == pre.answer {
                assert(ca == cb);
            } else {
                assert(ca[ca.len() - 1] == digit_char(choice as int));
                assert(cb[cb.len() - 1] == digit_char(pre.answer as int));
                assert(digit_char(choice as int) != digit_char(pre.answer as int));
                assert(ca != cb);
            }
            assert(correct == (choice == pre.answer));
        }
        if correct {
            let mut j: usize = 0;
            while j < 5
                invariant
                    j <= 5,
                    pre.wf(),
                    self.id@ == pre.id@,
                    self.prompt@ == pre.prompt@,
                    self.answer == pre.answer,
                    self.levels@ == pre.levels@,
                    self.questions@.len() == 5,
                    forall|i: int| 0 <= i < 5 ==> (#[trigger] self.questions@[i].id@)
                        == pre.questions@[i].id@,
                    forall|i: int| 0 <= i < 5 ==> (#[trigger] self.questions@[i].text@)
                        == pre.questions@[i].text@,
                    forall|i: int| 0 <= i < j ==> (#[trigger] self.questions@[i].disabled),
                decreases 5 - j,
            {
                let ghost snap = self.questions@;
                let mut c = self.questions.remove(j);
                c.disabled = true;
                self.questions.insert(j, c);
                proof {
                    assert(self.questions@ =~= snap.update(j as int, self.questions@[j as int]));
                }
                j += 1;
            }
            proof {
                assert(self.wf());
            }
            SelectionOutcome::Correct
        } else {
            let ghost snap = self.questions@;
            let mut c = self.questions.remove(choice);
            c.disabled = true;
            self.questions.insert(choice, c);
            proof {
                assert(self.questions@ =~= snap.update(choice as int, self.questions@[choice as int]));
                assert(self.wf());
            }
            SelectionOutcome::Incorrect(choice)
        }
    }
}

} // verus!
