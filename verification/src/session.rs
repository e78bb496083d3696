//! Per-session decisions: choosing the next question, sorting control
//! messages, and the final status texts.

use vstd::prelude::*;
use crate::dictionary::Pos;
use crate::ids::{dec_digits, u64_to_string};
use crate::lexicon::Dictionary;
use crate::manager::{GameMessage, InteractionEvent};
use crate::question::{ModeChoice, Question, question_buildable, question_post};
use crate::rng::{pick_index, shuffle};

verus! {

broadcast use vstd::seq_lib::group_to_multiset_ensures;

/// Why a session stops listening for interactions.
#[derive(Debug, Clone, Copy, PartialEq, Eq, Structural)]
pub enum InteractionExitReason {
    /// There are no more words left in the pool.
    PoolExhausted,
    /// The sender took too long to send a message.
    Timeout,
    /// Delivering data to the platform failed.
    NetworkError,
    /// The session was asked to close.
    CloseRequest,
}

/// How long a round waits for a qualifying event, in seconds.
pub const ROUND_TIMEOUT_SECS: u64 = 120;

/// Sorts one control-channel poll result: no message within the window
/// is a timeout, a close message ends the session, and an interaction
/// is handed on.
pub fn classify_message(msg: Option<GameMessage>) -> (r: Result<
    InteractionEvent,
    InteractionExitReason,
>)
    ensures
        msg is None ==> r == Result::<InteractionEvent, InteractionExitReason>::Err(
            InteractionExitReason::Timeout,
        ),
        msg matches Some(GameMessage::Close) ==> r == Result::<
            InteractionEvent,
            InteractionExitReason,
        >::Err(InteractionExitReason::CloseRequest),
        msg matches Some(GameMessage::Interaction(e)) ==> r == Result::<
            InteractionEvent,
            InteractionExitReason,
        >::Ok(e),
{
    match msg {
        None => Err(InteractionExitReason::Timeout),
        Some(GameMessage::Close) => Err(InteractionExitReason::CloseRequest),
        Some(GameMessage::Interaction(e)) => Ok(e),
    }
}

/// The final status text for an exit reason; a requested close ends the
/// session silently.
pub fn exit_message(reason: InteractionExitReason) -> (r: Option<String>)
    ensures
        reason == InteractionExitReason::PoolExhausted ==> (r matches Some(m)
            && m@ == "There are no more words left in the pool"@),
        reason == InteractionExitReason::Timeout ==> (r matches Some(m)
            && m@ == "Stopping game due to inactivity..."@),
        reason == InteractionExitReason::NetworkError ==> (r matches Some(m)
            && m@ == "Stopping game due to network error..."@),
        reason == InteractionExitReason::CloseRequest ==> r is None,
{
    match reason {
        InteractionExitReason::PoolExhausted => Some(
            "There are no more words left in the pool".to_owned(),
        ),
        InteractionExitReason::Timeout => Some("Stopping game due to inactivity...".to_owned()),
        InteractionExitReason::NetworkError => Some(
            "Stopping game due to network error...".to_owned(),
        ),
        InteractionExitReason::CloseRequest => None,
    }
}

/// Shuffles the allowed tags and tries each in turn until one yields a
/// question for the entry; nothing when no tag does.
pub fn next_question(
    dictionary: &Dictionary,
    entry_idx: usize,
    mode: ModeChoice,
    pos: &mut Vec<Pos>,
) -> (r: Option<Question>)
    requires
        entry_idx < dictionary.entries@.len(),
    ensures
        final(pos)@.to_multiset() == old(pos)@.to_multiset(),
        r matches Some(q) ==> exists|p: Pos| #[trigger] final(pos)@.contains(p)
            && question_post(dictionary.entries@[entry_idx as int], *dictionary, mode, p, r),
        r is None ==> forall|p: Pos| final(pos)@.contains(p)
            ==> !question_buildable(dictionary.entries@[entry_idx as int], mode, p),
{
    shuffle(pos);
    let entry = &dictionary.entries[entry_idx];
    let mut i: usize = 0;
    while i < pos.len()
        invariant
            i <= pos@.len(),
            pos@.to_multiset() == old(pos)@.to_multiset(),
            entry_idx < dictionary.entries@.len(),
            *entry == dictionary.entries@[entry_idx as int],
            forall|j: int| 0 <= j < i
                ==> !question_buildable(dictionary.entries@[entry_idx as int], mode,
                    #[trigger] pos@[j]),
        decreases pos@.len() - i,
    {
        let r = Question::new(entry, mode, pos[i], dictionary);
        if r.is_some() {
            proof {
                assert(pos@.contains(pos@[i as int]));
            }
            return r;
        }
        i += 1;
    }
    proof {
        assert forall|p: Pos| pos@.contains(p) implies !question_buildable(
            dictionary.entries@[entry_idx as int], mode, p) by {
            let j = choose|j: int| 0 <= j < pos@.len() && pos@[j] == p;
        }
    }
    None
}

/// The text of one taunt template, picked by index: most decorate the
/// main emote with a phrase, the last four are other emotes alone.
pub open spec fn taunt_text(
    k: int,
    wat: Seq<char>,
    fubu_laugh: Seq<char>,
    scrajj: Seq<char>,
    anw: Seq<char>,
) -> Seq<char> {
    if k == 0 {
        wat + " noob"@
    } else if k == 1 {
        wat + " nuh-uh"@
    } else if k == 2 {
        wat + " what is he cooking"@
    } else if k == 3 {
        wat + " refund nitro"@
    } else if k == 4 {
        wat + " trolling are we?"@
    } else if k == 5 {
        wat + " nt bro"@
    } else if k == 6 {
        wat + " smooth brain"@
    } else if k == 7 {
        wat + " stop"@
    } else if k == 8 {
        wat + " ?"@
    } else if k == 9 {
        wat + " so bad"@
    } else if k == 10 {
        wat + " meow"@
    } else if k == 11 {
        wat + " imagine"@
    } else if k == 12 {
        wat + " no"@
    } else if k == 13 {
        wat + " wrong"@
    } else if k == 14 {
        wat + " ぴえん"@
    } else if k == 15 {
        wat + " あほ"@
    } else if k == 16 {
        wat
    } else if k == 17 {
        fubu_laugh
    } else if k == 18 {
        scrajj
    } else {
        anw
    }
}

/// What a taunt message looks like: one of the twenty templates, then a
/// mention of the user and the chosen text in parentheses.
pub open spec fn taunt_shape(
    r: Seq<char>,
    wat: Seq<char>,
    fubu_laugh: Seq<char>,
    scrajj: Seq<char>,
    anw: Seq<char>,
    user_id: u64,
    choice: Seq<char>,
) -> bool {
    exists|k: int| 0 <= k < 20 && r == #[trigger] taunt_text(k, wat, fubu_laugh, scrajj, anw)
        + " <@"@ + dec_digits(user_id as nat) + ">"@ + " ("@ + choice + ")"@
}

fn taunt_template(
    k: usize,
    wat: &str,
    fubu_laugh: &str,
    scrajj: &str,
    anw: &str,
) -> (r: String)
    requires
        k < 20,
    ensures
        r@ == taunt_text(k as int, wat@, fubu_laugh@, scrajj@, anw@),
{
    if k == 16 {
        return wat.to_owned();
    }
    if k == 17 {
        return fubu_laugh.to_owned();
    }
    if k == 18 {
        return scrajj.to_owned();
    }
    if k == 19 {
        return anw.to_owned();
    }
    let mut s = wat.to_owned();
    if k == 0 {
        s.append(" noob");
    } else if k == 1 {
        s.append(" nuh-uh");
    } else if k == 2 {
        s.append(" what is he cooking");
    } else if k == 3 {
        s.append(" refund nitro");
    } else if k == 4 {
        s.append(" trolling are we?");
    } else if k == 5 {
        s.append(" nt bro");
    } else if k == 6 {
        s.append(" smooth brain");
    } else if k == 7 {
        s.append(" stop");
    } else if k == 8 {
        s.append(" ?");
    } else if k == 9 {
        s.append(" so bad");
    } else if k == 10 {
        s.append(" meow");
    } else if k == 11 {
        s.append(" imagine");
    } else if k == 12 {
        s.append(" no");
    } else if k == 13 {
        s.append(" wrong");
    } else if k == 14 {
        s.append(" ぴえん");
    } else {
        s.append(" あほ");
    }
    s
}

/// Builds a randomized taunt for a wrong answer: one of twenty fixed
/// templates, a mention of the user, and the text they chose.
pub fn taunt_message(
    wat: &str,
    fubu_laugh: &str,
    scrajj: &str,
    anw: &str,
    user_id: u64,
    choice: &str,
) -> (r: String)
    ensures
        taunt_shape(r@, wat@, fubu_laugh@, scrajj@, anw@, user_id, choice@),
{
    let k = pick_index(20);
    let mut s = taunt_template(k, wat, fubu_laugh, scrajj, anw);
    s.append(" <@");
    let id = u64_to_string(user_id);
    s.append(id.as_str());
    s.append(">");
    s.append(" (");
    s.append(choice);
    s.append(")");
    proof {
        assert(s@ == taunt_text(k as int, wat@, fubu_laugh@, scrajj@, anw@) + " <@"@
            + dec_digits(user_id as nat) + ">"@ + " ("@ + choice@ + ")"@);
    }
    s
}

} // verus!
