//! The per-channel question lifecycle: a state record, the reader's step
//! function that paces the reveal and reacts to transitions, the message
//! handler that turns user messages into transitions, the verdict
//! application, and the channel table that serialises one question per
//! channel.
//!
//! The reader and the handler run outside this module; both work on the
//! state through these functions, one call per held lock. A step returns
//! the chat effects to perform and the bounded wait to enter next; the
//! caller reports back whether that wait timed out or the wake latch fired.

use vstd::prelude::*;

use std::collections::HashMap;

use crate::grade::{Response, RespModel};
use crate::qb::Tossup;
use crate::text::{
    contains_str, has_sub, lower, replace_str, spec_dec, spec_join, spec_replace, spec_split,
    split_chars, str_chars, str_eq, string_of, u64_dec,
};
use crate::utils::{format_question, render_html, spec_format_question, spec_render_html};

verus! {

broadcast use vstd::std_specs::hash::group_hash_axioms;

/// The phase of a question in one channel.
#[derive(Debug)]
pub enum QuestionState {
    /// The reveal coroutine is extending the shown prefix.
    Reading,
    /// A user has buzzed at the given timestamp; the clock runs.
    Buzzed(u64, i64),
    /// The same user must answer a follow-up question, once.
    Prompt(u64, String, i64),
    /// The grader is running; no input may advance the state.
    Judging,
    /// The buzz timed out without an answer.
    Invalid(u64),
    /// The user answered wrongly.
    Incorrect(u64),
    /// The question is answered; the round ends.
    Correct,
}

/// The state of one channel's active question.
pub struct ChannelState {
    /// The current phase.
    pub phase: QuestionState,
    /// True while power may still be earned.
    pub powered: bool,
    /// Users who may no longer buzz on this question.
    pub blocklist: Vec<u64>,
    /// The active tossup.
    pub tossup: Tossup,
    /// The question's words, escaped for display.
    pub words: Vec<String>,
    /// How many words have been revealed.
    pub next_word: usize,
    /// The shown message text, markers included.
    pub display: String,
    /// The revealed words alone: the question read so far.
    pub revealed: String,
}

impl ChannelState {
    /// The reveal position lies within the question.
    pub open spec fn wf(&self) -> bool {
        self.next_word <= self.words@.len()
    }
}

/// Whether the question carries the power marker at all.
pub open spec fn has_power_mark(st: ChannelState) -> bool {
    has_sub(st.tossup.question_sanitized@, "(*)"@)
}

/// Whether the power marker has appeared in the shown text (in its escaped
/// form).
pub open spec fn marker_revealed(st: ChannelState) -> bool {
    has_sub(st.display@, "(\\*)"@)
}

/// The bounded wait the reader enters after a step.
#[derive(Debug, Clone, Copy, PartialEq, Eq, Structural)]
pub enum ReaderWait {
    /// The inter-chunk pacing wait (750 ms).
    Pause,
    /// The answer window after a buzz (10 s).
    BuzzWindow,
    /// The answer window after a prompt (5 s).
    PromptWindow,
    /// The grace wait after the last word (5 s).
    Grace,
    /// An unbounded wait on the wake latch.
    Latch,
    /// No wait: step again at once.
    Now,
    /// The question is over: remove the channel entry and stop.
    Done,
}

/// A chat effect the caller performs after a step.
#[derive(Debug)]
pub enum Effect {
    /// Edit the question message to this text.
    Edit(String),
    /// Send this text to the channel.
    Say(String),
    /// Post this text as the new question message.
    NewMessage(String),
}

/// The shape of an effect.
#[verifier::ext_equal]
pub enum EffModel {
    Edit(Seq<char>),
    Say(Seq<char>),
    NewMessage(Seq<char>),
}

impl View for Effect {
    type V = EffModel;

    open spec fn view(&self) -> EffModel {
        match self {
            Effect::Edit(t) => EffModel::Edit(t@),
            Effect::Say(t) => EffModel::Say(t@),
            Effect::NewMessage(t) => EffModel::NewMessage(t@),
        }
    }
}

/// The views of a list of effects.
pub open spec fn effect_views(s: Seq<Effect>) -> Seq<EffModel> {
    s.map_values(|e: Effect| e@)
}

/// What one reader step returns: the effects to perform, then the wait to
/// enter.
pub struct ReaderOutcome {
    pub effects: Vec<Effect>,
    pub wait: ReaderWait,
}

/// `u` added to the blocklist unless already there.
pub open spec fn add_once(s: Seq<u64>, u: u64) -> Seq<u64> {
    if s.contains(u) {
        s
    } else {
        s.push(u)
    }
}

/// The rendering of a user mention.
pub open spec fn spec_mention(u: u64) -> Seq<char> {
    "<@"@ + spec_dec(u as nat) + ">"@
}

/// What a fresh channel state is for a tossup: phase Reading, power still
/// earnable, nobody blocked, and the first three words of the escaped
/// question revealed.
pub open spec fn is_start_state(st: ChannelState, t: Tossup) -> bool {
    let ws = spec_split(spec_format_question(t.question_sanitized@), ' ');
    &&& st.phase is Reading
    &&& st.powered == true
    &&& st.blocklist@ == Seq::<u64>::empty()
    &&& st.tossup == t
    &&& st.words.deep_view() == ws
    &&& st.next_word == (if ws.len() < 3 {
        ws.len() as int
    } else {
        3
    })
    &&& st.display@ == spec_join(ws.take(st.next_word as int), " "@)
    &&& st.revealed@ == st.display@
}

/// The state after the entry bookkeeping of a reader step: once the power
/// marker stands revealed and reading goes on, power can no longer be
/// earned.
pub open spec fn after_power_clear(st: ChannelState) -> ChannelState {
    if st.phase is Reading && marker_revealed(st) {
        ChannelState { powered: false, ..st }
    } else {
        st
    }
}

/// The reset a terminal-for-user phase performs: the offender joins the
/// blocklist, reading resumes, power is restored only for questions
/// without a marker, and the bell marker flips to a no-bell marker on a
/// reposted message.
pub open spec fn reset_post(
    s0: ChannelState,
    s1: ChannelState,
    u: u64,
    effs: Seq<EffModel>,
    wait: ReaderWait,
    note: Seq<char>,
) -> bool {
    &&& s1.phase is Reading
    &&& s1.powered == !has_power_mark(s0)
    &&& s1.blocklist@ == add_once(s0.blocklist@, u)
    &&& s1.display@ == spec_replace(s0.display@, ":bell:"@, ":no_bell:"@)
    &&& s1 == ChannelState {
        phase: s1.phase,
        powered: s1.powered,
        blocklist: s1.blocklist,
        display: s1.display,
        ..s0
    }
    &&& effs == seq![EffModel::Say(note), EffModel::NewMessage(s1.display@)]
    &&& wait == ReaderWait::Now
}

/// What one reader step does, given the state after the entry power
/// bookkeeping: the dispatch on the phase described in the module
/// documentation.
pub open spec fn reader_post(
    s0: ChannelState,
    s1: ChannelState,
    effs: Seq<EffModel>,
    wait: ReaderWait,
    prev: ReaderWait,
    timed_out: bool,
) -> bool {
    match s0.phase {
        QuestionState::Reading => {
            if s0.next_word < s0.words@.len() {
                let k = if s0.next_word + 5 <= s0.words@.len() {
                    s0.next_word + 5
                } else {
                    s0.words@.len() as int
                };
                let chunk = spec_join(s0.words.deep_view().subrange(s0.next_word as int, k), " "@);
                &&& s1.display@ == s0.display@ + " "@ + chunk
                &&& s1.revealed@ == s0.revealed@ + " "@ + chunk
                &&& s1.next_word == k
                &&& s1 == ChannelState {
                    display: s1.display,
                    revealed: s1.revealed,
                    next_word: s1.next_word,
                    ..s0
                }
                &&& effs == seq![EffModel::Edit(s1.display@)]
                &&& wait == ReaderWait::Pause
            } else if prev == ReaderWait::Grace && timed_out {
                &&& s1 == s0
                &&& effs == seq![
                    EffModel::Say("Time's up!"@),
                    EffModel::Say(spec_render_html(s0.tossup.answer@)),
                ]
                &&& wait == ReaderWait::Done
            } else {
                &&& s1 == s0
                &&& effs == Seq::<EffModel>::empty()
                &&& wait == ReaderWait::Grace
            }
        },
        QuestionState::Buzzed(u, t) => {
            if prev == ReaderWait::BuzzWindow && timed_out {
                &&& s1 == ChannelState { phase: QuestionState::Invalid(u), ..s0 }
                &&& effs == Seq::<EffModel>::empty()
                &&& wait == ReaderWait::Now
            } else {
                &&& s1.display@ == s0.display@ + ":bell:"@
                &&& s1 == ChannelState { display: s1.display, ..s0 }
                &&& effs == seq![
                    EffModel::Edit(s1.display@),
                    EffModel::Say("buzz from "@ + spec_mention(u) + "! 10 seconds to answer"@),
                ]
                &&& wait == ReaderWait::BuzzWindow
            }
        },
        QuestionState::Prompt(u, txt, t) => {
            if prev == ReaderWait::PromptWindow && timed_out {
                &&& s1 == ChannelState { phase: QuestionState::Invalid(u), ..s0 }
                &&& effs == Seq::<EffModel>::empty()
                &&& wait == ReaderWait::Now
            } else {
                &&& s1 == s0
                &&& effs == seq![EffModel::Say(txt@ + " "@ + spec_mention(u))]
                &&& wait == ReaderWait::PromptWindow
            }
        },
        QuestionState::Judging => {
            &&& s1 == s0
            &&& effs == Seq::<EffModel>::empty()
            &&& wait == ReaderWait::Latch
        },
        QuestionState::Invalid(u) => reset_post(s0, s1, u, effs, wait, "No answer!"@),
        QuestionState::Incorrect(u) => reset_post(s0, s1, u, effs, wait, "incorrect!"@),
        QuestionState::Correct => {
            let power = s0.powered && has_power_mark(s0) && !marker_revealed(s0);
            let msg: Seq<char> = if power {
                "Correct - power!"@
            } else {
                "Correct"@
            };
            let rest = spec_join(
                s0.words.deep_view().subrange(s0.next_word as int, s0.words@.len() as int),
                " "@,
            );
            &&& s1.display@ == s0.display@ + " "@ + rest
            &&& s1.next_word == s0.words@.len()
            &&& s1 == ChannelState { display: s1.display, next_word: s1.next_word, ..s0 }
            &&& effs == seq![
                EffModel::Say(msg),
                EffModel::Edit(s1.display@),
                EffModel::Say(spec_render_html(s0.tossup.answer@)),
            ]
            &&& wait == ReaderWait::Done
        },
    }
}

/// A fresh channel state for a tossup, revealing the first three words.
pub fn start_state(t: Tossup) -> (st: ChannelState)
    ensures
        is_start_state(st, t),
        st.wf(),
{
    let formatted = format_question(t.question_sanitized.as_str());
    let chars = str_chars(formatted.as_str());
    let pieces = split_chars(&chars, ' ');
    let mut words: Vec<String> = Vec::new();
    let mut i: usize = 0;
    proof {
        assert(words.deep_view() =~= pieces.deep_view().take(0));
    }
    while i < pieces.len()
        invariant
            i <= pieces@.len(),
            words.deep_view() == pieces.deep_view().take(i as int),
        decreases pieces@.len() - i,
    {
        let ghost pre = words.deep_view();
        words.push(string_of(&pieces[i]));
        i += 1;
        proof {
            assert(pieces.deep_view()[i - 1] == pieces@[i - 1]@);
            assert(words.deep_view() =~~= pre.push(pieces.deep_view()[i - 1]));
            assert(words.deep_view() =~= pieces.deep_view().take(i as int));
        }
    }
    proof {
        assert(pieces.deep_view().take(pieces@.len() as int) =~= pieces.deep_view());
    }
    let k = if words.len() < 3 {
        words.len()
    } else {
        3
    };
    let display = crate::text::join_range(&words, " ", 0, k);
    let revealed = display.clone();
    proof {
        assert(words.deep_view().subrange(0, k as int) =~= words.deep_view().take(k as int));
    }
    ChannelState {
        phase: QuestionState::Reading,
        powered: true,
        blocklist: Vec::new(),
        tossup: t,
        words,
        next_word: k,
        display,
        revealed,
    }
}

/// Whether `u` stands in the list.
fn contains_u64(v: &Vec<u64>, u: u64) -> (r: bool)
    ensures
        r == v@.contains(u),
{
    let mut i: usize = 0;
    while i < v.len()
        invariant
            i <= v@.len(),
            forall|k: int| 0 <= k < i ==> v@[k] != u,
        decreases v@.len() - i,
    {
        if v[i] == u {
            return true;
        }
        i += 1;
    }
    false
}

/// Add `u` to the blocklist unless already there.
fn block_user(v: &mut Vec<u64>, u: u64)
    ensures
        final(v)@ == add_once(old(v)@, u),
{
    if !contains_u64(v, u) {
        v.push(u);
    }
}

/// The rendering of a user mention.
fn mention(u: u64) -> (r: String)
    ensures
        r@ == spec_mention(u),
{
    let mut s = String::from_str("<@");
    s.append(u64_dec(u).as_str());
    s.append(">");
    proof {
        assert(s@ =~= spec_mention(u));
    }
    s
}

/// One step of the reader: dispatch on the phase, perform the entry power
/// bookkeeping, mutate the state, and say what to do and how long to wait.
/// `prev` is the wait the previous step asked for and `timed_out` whether
/// it ended by timeout rather than a latch wake.
#[verifier::loop_isolation(false)]
pub fn reader_step(st: &mut ChannelState, prev: ReaderWait, timed_out: bool) -> (out: ReaderOutcome)
    requires
        old(st).wf(),
    ensures
        final(st).wf(),
        reader_post(
            after_power_clear(*old(st)),
            *final(st),
            effect_views(out.effects@),
            out.wait,
            prev,
            timed_out,
        ),
{
    let is_reading = match &st.phase {
        QuestionState::Reading => true,
        _ => false,
    };
    if is_reading && contains_str(st.display.as_str(), "(\\*)") {
        st.powered = false;
    }
    let ghost s0 = *st;
    proof {
        assert(s0 == after_power_clear(*old(st)));
    }
    let mut effects: Vec<Effect> = Vec::new();
    proof {
        assert(effect_views(effects@) =~= Seq::<EffModel>::empty());
    }
    match &st.phase {
        QuestionState::Reading => {
            if st.next_word < st.words.len() {
                let rem = st.words.len() - st.next_word;
                let step = if rem < 5 {
                    rem
                } else {
                    5
                };
                let k = st.next_word + step;
                let chunk = crate::text::join_range(&st.words, " ", st.next_word, k);
                st.display.append(" ");
                st.display.append(chunk.as_str());
                st.revealed.append(" ");
                st.revealed.append(chunk.as_str());
                st.next_word = k;
                effects.push(Effect::Edit(st.display.clone()));
                proof {
                    assert(effect_views(effects@) =~= seq![EffModel::Edit(st.display@)]);
                    assert(st.display@ =~= s0.display@ + " "@ + chunk@);
                    assert(st.revealed@ =~= s0.revealed@ + " "@ + chunk@);
                }
                ReaderOutcome { effects, wait: ReaderWait::Pause }
            } else if prev == ReaderWait::Grace && timed_out {
                effects.push(Effect::Say(String::from_str("Time's up!")));
                effects.push(Effect::Say(render_html(st.tossup.answer.as_str())));
                proof {
                    assert(effect_views(effects@) =~= seq![
                        EffModel::Say("Time's up!"@),
                        EffModel::Say(spec_render_html(s0.tossup.answer@)),
                    ]);
                }
                ReaderOutcome { effects, wait: ReaderWait::Done }
            } else {
                ReaderOutcome { effects, wait: ReaderWait::Grace }
            }
        },
        QuestionState::Buzzed(u, _) => {
            let u = *u;
            if prev == ReaderWait::BuzzWindow && timed_out {
                st.phase = QuestionState::Invalid(u);
                ReaderOutcome { effects, wait: ReaderWait::Now }
            } else {
                st.display.append(":bell:");
                let mut announce = String::from_str("buzz from ");
                announce.append(mention(u).as_str());
                announce.append("! 10 seconds to answer");
                effects.push(Effect::Edit(st.display.clone()));
                effects.push(Effect::Say(announce));
                proof {
                    assert(effect_views(effects@) =~= seq![
                        EffModel::Edit(st.display@),
                        EffModel::Say(
                            "buzz from "@ + spec_mention(u) + "! 10 seconds to answer"@,
                        ),
                    ]);
                }
                ReaderOutcome { effects, wait: ReaderWait::BuzzWindow }
            }
        },
        QuestionState::Prompt(u, txt, _) => {
            let u = *u;
            if prev == ReaderWait::PromptWindow && timed_out {
                st.phase = QuestionState::Invalid(u);
                ReaderOutcome { effects, wait: ReaderWait::Now }
            } else {
                let mut line = txt.clone();
                line.append(" ");
                line.append(mention(u).as_str());
                effects.push(Effect::Say(line));
                proof {
                    assert(effect_views(effects@) =~= seq![
                        EffModel::Say(s0.phase->Prompt_1@ + " "@ + spec_mention(u)),
                    ]);
                }
                ReaderOutcome { effects, wait: ReaderWait::PromptWindow }
            }
        },
        QuestionState::Judging => ReaderOutcome { effects, wait: ReaderWait::Latch },
        QuestionState::Invalid(u) => {
            let u = *u;
            let note = String::from_str("No answer!");
            finish_reset(st, u, note, effects)
        },
        QuestionState::Incorrect(u) => {
            let u = *u;
            let note = String::from_str("incorrect!");
            finish_reset(st, u, note, effects)
        },
        QuestionState::Correct => {
            let power = st.powered && contains_str(st.tossup.question_sanitized.as_str(), "(*)")
                && !contains_str(st.display.as_str(), "(\\*)");
            let msg = if power {
                String::from_str("Correct - power!")
            } else {
                String::from_str("Correct")
            };
            let rest = crate::text::join_range(&st.words, " ", st.next_word, st.words.len());
            st.display.append(" ");
            st.display.append(rest.as_str());
            st.next_word = st.words.len();
            effects.push(Effect::Say(msg));
            effects.push(Effect::Edit(st.display.clone()));
            effects.push(Effect::Say(render_html(st.tossup.answer.as_str())));
            proof {
                let pm = if s0.powered && has_power_mark(s0) && !marker_revealed(s0) {
                    "Correct - power!"@
                } else {
                    "Correct"@
                };
                assert(st.display@ =~= s0.display@ + " "@ + spec_join(
                    s0.words.deep_view().subrange(s0.next_word as int, s0.words@.len() as int),
                    " "@,
                ));
                assert(effect_views(effects@) =~= seq![
                    EffModel::Say(pm),
                    EffModel::Edit(st.display@),
                    EffModel::Say(spec_render_html(s0.tossup.answer@)),
                ]);
            }
            ReaderOutcome { effects, wait: ReaderWait::Done }
        },
    }
}

/// The common tail of the Invalid and Incorrect branches.
fn finish_reset(st: &mut ChannelState, u: u64, note: String, effects: Vec<Effect>) -> (out:
    ReaderOutcome)
    requires
        old(st).wf(),
        effects@.len() == 0,
    ensures
        final(st).wf(),
        reset_post(
            *old(st),
            *final(st),
            u,
            effect_views(out.effects@),
            out.wait,
            note@,
        ),
{
    let ghost s0 = *st;
    let mut effects = effects;
    st.phase = QuestionState::Reading;
    st.powered = !contains_str(st.tossup.question_sanitized.as_str(), "(*)");
    block_user(&mut st.blocklist, u);
    proof {
        reveal_strlit(":bell:");
    }
    st.display = replace_str(st.display.as_str(), ":bell:", ":no_bell:");
    effects.push(Effect::Say(note));
    effects.push(Effect::NewMessage(st.display.clone()));
    proof {
        assert(effect_views(effects@) =~= seq![
            EffModel::Say(note@),
            EffModel::NewMessage(st.display@),
        ]);
    }
    ReaderOutcome { effects, wait: ReaderWait::Now }
}

/// What the handler does with one inbound message.
#[derive(Debug)]
pub enum HandlerAction {
    /// Nothing: a bot message, a non-buzz while reading, a stranger's or
    /// late message.
    Ignored,
    /// A blocked user tried to buzz: react with a cross and drop.
    RejectedBuzz,
    /// The buzz took: the reader will announce it.
    BuzzAccepted,
    /// The message is the answer: reply that judging is under way, grade
    /// it, then apply the verdict. Carries the question read so far, the
    /// answer text, and whether this was a prompted answer.
    Judge(String, String, bool),
}

/// The shape of a handler action.
#[verifier::ext_equal]
pub enum ActModel {
    Ignored,
    RejectedBuzz,
    BuzzAccepted,
    Judge(Seq<char>, Seq<char>, bool),
}

impl View for HandlerAction {
    type V = ActModel;

    open spec fn view(&self) -> ActModel {
        match self {
            HandlerAction::Ignored => ActModel::Ignored,
            HandlerAction::RejectedBuzz => ActModel::RejectedBuzz,
            HandlerAction::BuzzAccepted => ActModel::BuzzAccepted,
            HandlerAction::Judge(q, a, p) => ActModel::Judge(q@, a@, *p),
        }
    }
}

/// What the handler does: bots are ignored; while reading, only the word
/// `buzz` (in any case) from an unblocked user buzzes; while buzzed or
/// prompted, only the buzzer's message within ten seconds of the buzz is
/// the answer and moves the state to judging.
pub open spec fn handler_post(
    s0: ChannelState,
    s1: ChannelState,
    author: u64,
    content: Seq<char>,
    ts: i64,
    is_bot: bool,
    act: ActModel,
) -> bool {
    if is_bot {
        s1 == s0 && act == ActModel::Ignored
    } else {
        match s0.phase {
            QuestionState::Reading => {
                if lower(content) != "buzz"@ {
                    s1 == s0 && act == ActModel::Ignored
                } else if s0.blocklist@.contains(author) {
                    s1 == s0 && act == ActModel::RejectedBuzz
                } else {
                    &&& s1 == ChannelState { phase: QuestionState::Buzzed(author, ts), ..s0 }
                    &&& act == ActModel::BuzzAccepted
                }
            },
            QuestionState::Buzzed(u, t) => {
                if author != u || ts - t > 10 {
                    s1 == s0 && act == ActModel::Ignored
                } else {
                    &&& s1 == ChannelState { phase: QuestionState::Judging, ..s0 }
                    &&& act == ActModel::Judge(s0.revealed@, content, false)
                }
            },
            QuestionState::Prompt(u, _, t) => {
                if author != u || ts - t > 10 {
                    s1 == s0 && act == ActModel::Ignored
                } else {
                    &&& s1 == ChannelState { phase: QuestionState::Judging, ..s0 }
                    &&& act == ActModel::Judge(s0.revealed@, content, true)
                }
            },
            _ => s1 == s0 && act == ActModel::Ignored,
        }
    }
}

/// Handle one inbound message against the channel state.
pub fn handle_message(
    st: &mut ChannelState,
    author: u64,
    content: &str,
    timestamp: i64,
    is_bot: bool,
) -> (act: HandlerAction)
    requires
        old(st).wf(),
    ensures
        final(st).wf(),
        handler_post(*old(st), *final(st), author, content@, timestamp, is_bot, act@),
{
    if is_bot {
        return HandlerAction::Ignored;
    }
    match &st.phase {
        QuestionState::Reading => {
            let low = string_of(&crate::text::lower_chars(&str_chars(content)));
            if !str_eq(low.as_str(), "buzz") {
                HandlerAction::Ignored
            } else if contains_u64(&st.blocklist, author) {
                HandlerAction::RejectedBuzz
            } else {
                st.phase = QuestionState::Buzzed(author, timestamp);
                HandlerAction::BuzzAccepted
            }
        },
        QuestionState::Buzzed(u, t) => {
            let u = *u;
            let t = *t;
            if author != u || (timestamp as i128) - (t as i128) > 10 {
                HandlerAction::Ignored
            } else {
                let question_so_far = st.revealed.clone();
                st.phase = QuestionState::Judging;
                HandlerAction::Judge(question_so_far, String::from_str(content), false)
            }
        },
        QuestionState::Prompt(u, _, t) => {
            let u = *u;
            let t = *t;
            if author != u || (timestamp as i128) - (t as i128) > 10 {
                HandlerAction::Ignored
            } else {
                let question_so_far = st.revealed.clone();
                st.phase = QuestionState::Judging;
                HandlerAction::Judge(question_so_far, String::from_str(content), true)
            }
        },
        _ => HandlerAction::Ignored,
    }
}

/// What applying a verdict does: a correct answer ends the round; a wrong
/// one blocks the user and hands the reader an incorrect phase; a prompt
/// gives the same user a follow-up turn, but never twice.
pub open spec fn verdict_post(
    s0: ChannelState,
    s1: ChannelState,
    user: u64,
    ts: i64,
    prompted: bool,
    v: RespModel,
) -> bool {
    match v {
        RespModel::Correct => s1 == ChannelState { phase: QuestionState::Correct, ..s0 },
        RespModel::Incorrect(_) => {
            &&& s1.phase is Incorrect && s1.phase->Incorrect_0 == user
            &&& s1.blocklist@ == add_once(s0.blocklist@, user)
            &&& s1 == ChannelState { phase: s1.phase, blocklist: s1.blocklist, ..s0 }
        },
        RespModel::Prompt(txt) => {
            if prompted {
                &&& s1.phase is Incorrect && s1.phase->Incorrect_0 == user
                &&& s1.blocklist@ == add_once(s0.blocklist@, user)
                &&& s1 == ChannelState { phase: s1.phase, blocklist: s1.blocklist, ..s0 }
            } else {
                &&& s1.phase is Prompt
                &&& s1.phase->Prompt_0 == user
                &&& s1.phase->Prompt_1@ == txt
                &&& s1.phase->Prompt_2 == ts
                &&& s1 == ChannelState { phase: s1.phase, ..s0 }
            }
        },
    }
}

/// Apply the grader's verdict to the state, for an answer given at
/// `timestamp` by `user`; `prompted` says whether it was a prompted
/// answer, in which case a further prompt counts as incorrect.
pub fn apply_verdict(
    st: &mut ChannelState,
    user: u64,
    timestamp: i64,
    prompted: bool,
    verdict: &Response,
)
    requires
        old(st).wf(),
    ensures
        final(st).wf(),
        verdict_post(*old(st), *final(st), user, timestamp, prompted, verdict@),
{
    match verdict {
        Response::Correct => {
            st.phase = QuestionState::Correct;
        },
        Response::Incorrect(_) => {
            block_user(&mut st.blocklist, user);
            st.phase = QuestionState::Incorrect(user);
        },
        Response::Prompt(txt) => {
            if prompted {
                block_user(&mut st.blocklist, user);
                st.phase = QuestionState::Incorrect(user);
            } else {
                st.phase = QuestionState::Prompt(user, txt.clone(), timestamp);
            }
        },
    }
}

/// The channel table: at most one active question per channel, all access
/// under the caller's lock. The reader takes the state out for a step and
/// puts it back, so a vanished entry ends the reader.
pub struct GameTable {
    states: HashMap<u64, ChannelState>,
}

impl GameTable {
    /// The channels with an active question and their states.
    pub closed spec fn view(&self) -> Map<u64, ChannelState> {
        self.states@
    }

    /// An empty table.
    pub fn new() -> (r: GameTable)
        ensures
            r@ == Map::<u64, ChannelState>::empty(),
    {
        GameTable { states: HashMap::new() }
    }

    /// Whether a question is active in the channel.
    pub fn is_reading(&self, channel: u64) -> (r: bool)
        ensures
            r == self@.contains_key(channel),
    {
        self.states.contains_key(&channel)
    }

    /// Start a question in the channel: rejected, with the table
    /// unchanged, exactly when one is already active there.
    pub fn try_start(&mut self, channel: u64, t: Tossup) -> (started: bool)
        ensures
            old(self)@.contains_key(channel) ==> !started && final(self)@ == old(self)@,
            !old(self)@.contains_key(channel) ==> started && final(self)@.contains_key(channel)
                && is_start_state(final(self)@[channel], t) && final(self)@[channel].wf()
                && final(self)@ == old(self)@.insert(channel, final(self)@[channel]),
    {
        if self.states.contains_key(&channel) {
            return false;
        }
        let st = start_state(t);
        self.states.insert(channel, st);
        true
    }

    /// Take the channel's state out for a step, leaving the entry absent
    /// while the caller works on it.
    pub fn take_state(&mut self, channel: u64) -> (r: Option<ChannelState>)
        ensures
            match r {
                Some(st) => old(self)@.contains_key(channel) && st == old(self)@[channel]
                    && final(self)@ == old(self)@.remove(channel),
                None => !old(self)@.contains_key(channel) && final(self)@ == old(self)@,
            },
    {
        self.states.remove(&channel)
    }

    /// Put a state back after a step.
    pub fn put_state(&mut self, channel: u64, st: ChannelState)
        ensures
            final(self)@ == old(self)@.insert(channel, st),
    {
        self.states.insert(channel, st);
    }

    /// Remove the channel's entry: the question is over.
    pub fn finish(&mut self, channel: u64)
        ensures
            final(self)@ == old(self)@.remove(channel),
    {
        self.states.remove(&channel);
    }
}

} // verus!
