//! The synthetic input injector.
//!
//! Replaying a captured location and typing into whatever gains focus there
//! is a strictly ordered sequence of primitive input steps. This module
//! computes that sequence as data — a plan — from the stored cursor pair and
//! the text to type; the host program performs the steps one by one. It also
//! fixes, per step, what a failure of that step means for the rest of the
//! sequence, and maps symbolic key names to key codes.

use vstd::prelude::*;
use vstd::string::StringExecFns;
use vstd::string::StrSliceExecFns;
use crate::resolver::str_eq;

verus! {

/// Delay after invocation, before anything else, so that a UI-hide animation
/// still in flight can finish (milliseconds).
pub const PRE_TYPE_SETTLE_MS: u64 = 500;

/// Delay after the focus-restoring click, before typing starts (milliseconds).
pub const CLICK_SETTLE_MS: u64 = 200;

/// Delay between consecutive characters, emulating human typing cadence
/// (milliseconds).
pub const KEYSTROKE_PACING_MS: u64 = 30;

/// Delay before a simulated key press (milliseconds).
pub const KEY_PRESS_LEAD_MS: u64 = 100;

/// Time a simulated key is held down before release (milliseconds).
pub const KEY_HOLD_MS: u64 = 50;

/// Key code of the commit/newline key ("Return"/"Enter").
pub const RETURN_KEY_CODE: u16 = 0x0D;

/// One primitive step of a synthetic input sequence.
#[derive(Clone, Copy, Debug, PartialEq, Eq, Structural)]
pub enum InputStep {
    /// Sleep for the given number of milliseconds.
    Wait(u64),
    /// Move the OS cursor to the given screen point.
    MoveCursor(i32, i32),
    /// Press and release the primary button at the given screen point.
    ClickAt(i32, i32),
    /// Issue the dedicated commit/newline key action.
    PressReturn,
    /// Inject the literal character as text input.
    TypeChar(char),
    /// Press (and hold) the key with the given code.
    KeyDown(u16),
    /// Release the key with the given code.
    KeyUp(u16),
}

/// What the executor must do when a step fails.
#[derive(Clone, Copy, Debug, PartialEq, Eq, Structural)]
pub enum FailurePolicy {
    /// Best-effort step: log the failure and carry on with the sequence.
    LogAndContinue,
    /// Injection step: abort the remaining sequence and propagate the error.
    AbortSequence,
}

/// The failure policy of each step: cursor positioning and the click are
/// best-effort, while character and key injection failures abort the
/// sequence. Waiting cannot fail.
pub open spec fn spec_failure_policy(step: InputStep) -> FailurePolicy {
    match step {
        InputStep::Wait(_) => FailurePolicy::LogAndContinue,
        InputStep::MoveCursor(_, _) => FailurePolicy::LogAndContinue,
        InputStep::ClickAt(_, _) => FailurePolicy::LogAndContinue,
        InputStep::PressReturn => FailurePolicy::AbortSequence,
        InputStep::TypeChar(_) => FailurePolicy::AbortSequence,
        InputStep::KeyDown(_) => FailurePolicy::AbortSequence,
        InputStep::KeyUp(_) => FailurePolicy::AbortSequence,
    }
}

/// How the executor must react when this step fails.
pub fn failure_policy(step: &InputStep) -> (p: FailurePolicy)
    ensures
        p == spec_failure_policy(*step),
{
    match step {
        InputStep::Wait(_) => FailurePolicy::LogAndContinue,
        InputStep::MoveCursor(_, _) => FailurePolicy::LogAndContinue,
        InputStep::ClickAt(_, _) => FailurePolicy::LogAndContinue,
        InputStep::PressReturn => FailurePolicy::AbortSequence,
        InputStep::TypeChar(_) => FailurePolicy::AbortSequence,
        InputStep::KeyDown(_) => FailurePolicy::AbortSequence,
        InputStep::KeyUp(_) => FailurePolicy::AbortSequence,
    }
}

/// The key action a single character maps to: a line break becomes the
/// dedicated commit action, everything else is typed literally.
pub open spec fn spec_key_action(c: char) -> InputStep {
    if c == '\n' {
        InputStep::PressReturn
    } else {
        InputStep::TypeChar(c)
    }
}

/// The two steps a single character contributes: its key action, then the
/// pacing delay.
pub open spec fn spec_char_action(c: char) -> Seq<InputStep> {
    Seq::empty().push(spec_key_action(c)).push(InputStep::Wait(KEYSTROKE_PACING_MS))
}

/// The steps that type the given text, character by character, in order.
pub open spec fn spec_char_steps(text: Seq<char>) -> Seq<InputStep>
    decreases text.len(),
{
    if text.len() == 0 {
        Seq::empty()
    } else {
        spec_char_action(text[0]) + spec_char_steps(text.drop_first())
    }
}

/// The steps that restore focus at the captured point: settle, move, click,
/// settle again. Without a captured point only the initial settle remains and
/// typing goes to whatever currently has focus.
pub open spec fn spec_focus_prefix(slot: Option<(i32, i32)>) -> Seq<InputStep> {
    match slot {
        Some(p) => seq![
            InputStep::Wait(PRE_TYPE_SETTLE_MS),
            InputStep::MoveCursor(p.0, p.1),
            InputStep::ClickAt(p.0, p.1),
            InputStep::Wait(CLICK_SETTLE_MS),
        ],
        None => seq![InputStep::Wait(PRE_TYPE_SETTLE_MS)],
    }
}

/// The full text-input sequence: focus restoration, then the characters.
pub open spec fn spec_text_input_plan(slot: Option<(i32, i32)>, text: Seq<char>) -> Seq<InputStep> {
    spec_focus_prefix(slot) + spec_char_steps(text)
}

/// The plan of a "simulate key press": lead delay, press, hold, release.
pub open spec fn spec_key_press_plan(code: u16) -> Seq<InputStep> {
    seq![
        InputStep::Wait(KEY_PRESS_LEAD_MS),
        InputStep::KeyDown(code),
        InputStep::Wait(KEY_HOLD_MS),
        InputStep::KeyUp(code),
    ]
}

proof fn lemma_char_steps_snoc(text: Seq<char>, c: char)
    ensures
        spec_char_steps(text.push(c)) == spec_char_steps(text) + spec_char_action(c),
    decreases text.len(),
{
    if text.len() == 0 {
        assert(text.push(c).drop_first() =~= Seq::<char>::empty());
        assert(text.push(c)[0] == c);
        assert(spec_char_steps(text.push(c))
            == spec_char_action(c) + spec_char_steps(Seq::<char>::empty()));
        assert(spec_char_action(c) + Seq::<InputStep>::empty() =~= spec_char_action(c));
        assert(spec_char_steps(text) + spec_char_action(c) =~= spec_char_action(c));
    } else {
        lemma_char_steps_snoc(text.drop_first(), c);
        assert(text.push(c).drop_first() =~= text.drop_first().push(c));
        assert(text.push(c)[0] == text[0]);
        assert(spec_char_steps(text.push(c))
            == spec_char_action(text[0]) + spec_char_steps(text.drop_first().push(c)));
        assert(spec_char_steps(text.push(c))
            == spec_char_action(text[0])
                + (spec_char_steps(text.drop_first()) + spec_char_action(c)));
        assert(spec_char_action(text[0])
                + (spec_char_steps(text.drop_first()) + spec_char_action(c))
            =~= (spec_char_action(text[0]) + spec_char_steps(text.drop_first()))
                + spec_char_action(c));
        assert(spec_char_steps(text)
            == spec_char_action(text[0]) + spec_char_steps(text.drop_first()));
    }
}

/// Computes the synthetic input sequence that replays the captured location
/// (if one is stored) and then types `text` with natural pacing.
pub fn text_input_plan(slot: Option<(i32, i32)>, text: &str) -> (plan: Vec<InputStep>)
    ensures
        plan@ == spec_text_input_plan(slot, text@),
{
    let mut plan: Vec<InputStep> = Vec::new();
    plan.push(InputStep::Wait(PRE_TYPE_SETTLE_MS));
    if let Some((x, y)) = slot {
        plan.push(InputStep::MoveCursor(x, y));
        plan.push(InputStep::ClickAt(x, y));
        plan.push(InputStep::Wait(CLICK_SETTLE_MS));
    }
    proof {
        assert(plan@ =~= spec_focus_prefix(slot));
    }
    let n = text.unicode_len();
    for i in 0..n
        invariant
            n == text@.len(),
            plan@ == spec_focus_prefix(slot) + spec_char_steps(text@.subrange(0, i as int)),
    {
        let c = text.get_char(i);
        if c == '\n' {
            plan.push(InputStep::PressReturn);
        } else {
            plan.push(InputStep::TypeChar(c));
        }
        plan.push(InputStep::Wait(KEYSTROKE_PACING_MS));
        proof {
            lemma_char_steps_snoc(text@.subrange(0, i as int), text@[i as int]);
            assert(text@.subrange(0, i as int).push(text@[i as int])
                =~= text@.subrange(0, i + 1 as int));
            assert(plan@ =~= spec_focus_prefix(slot)
                + spec_char_steps(text@.subrange(0, i + 1 as int)));
        }
    }
    proof {
        assert(text@.subrange(0, n as int) =~= text@);
    }
    plan
}

/// The text a plan types, in order: each literal character as itself and
/// each commit/newline action as a line break.
pub open spec fn spec_typed_text(plan: Seq<InputStep>) -> Seq<char>
    decreases plan.len(),
{
    if plan.len() == 0 {
        Seq::empty()
    } else {
        let rest = spec_typed_text(plan.drop_first());
        match plan[0] {
            InputStep::TypeChar(c) => Seq::empty().push(c) + rest,
            InputStep::PressReturn => Seq::empty().push('\n') + rest,
            _ => rest,
        }
    }
}

/// Whether a step moves the cursor or clicks.
pub open spec fn spec_is_positioning(step: InputStep) -> bool {
    step is MoveCursor || step is ClickAt
}

proof fn lemma_typed_text_concat(a: Seq<InputStep>, b: Seq<InputStep>)
    ensures
        spec_typed_text(a + b) == spec_typed_text(a) + spec_typed_text(b),
    decreases a.len(),
{
    if a.len() == 0 {
        assert(a + b =~= b);
        assert(spec_typed_text(a) + spec_typed_text(b) =~= spec_typed_text(b));
    } else {
        assert((a + b).drop_first() =~= a.drop_first() + b);
        lemma_typed_text_concat(a.drop_first(), b);
        assert(spec_typed_text(a + b) =~= spec_typed_text(a) + spec_typed_text(b));
    }
}

proof fn lemma_typed_text_of_char_steps(text: Seq<char>)
    ensures
        spec_typed_text(spec_char_steps(text)) == text,
    decreases text.len(),
{
    if text.len() == 0 {
        assert(spec_typed_text(spec_char_steps(text)) =~= text);
    } else {
        reveal_with_fuel(spec_typed_text, 4);
        let action = spec_char_action(text[0]);
        assert(action.drop_first() =~= Seq::empty().push(InputStep::Wait(KEYSTROKE_PACING_MS)));
        assert(action.drop_first().drop_first() =~= Seq::<InputStep>::empty());
        assert(spec_typed_text(action.drop_first()) =~= Seq::<char>::empty());
        assert(spec_typed_text(action) =~= Seq::empty().push(text[0]));
        lemma_typed_text_concat(action, spec_char_steps(text.drop_first()));
        lemma_typed_text_of_char_steps(text.drop_first());
        assert(spec_typed_text(spec_char_steps(text)) =~= text);
    }
}

proof fn lemma_typed_text_of_focus_prefix(slot: Option<(i32, i32)>)
    ensures
        spec_typed_text(spec_focus_prefix(slot)) == Seq::<char>::empty(),
{
    reveal_with_fuel(spec_typed_text, 6);
    let prefix = spec_focus_prefix(slot);
    match slot {
        Some(p) => {
            assert(prefix.drop_first() =~= seq![
                InputStep::MoveCursor(p.0, p.1),
                InputStep::ClickAt(p.0, p.1),
                InputStep::Wait(CLICK_SETTLE_MS),
            ]);
            assert(prefix.drop_first().drop_first() =~= seq![
                InputStep::ClickAt(p.0, p.1),
                InputStep::Wait(CLICK_SETTLE_MS),
            ]);
            assert(prefix.drop_first().drop_first().drop_first() =~= seq![
                InputStep::Wait(CLICK_SETTLE_MS),
            ]);
            assert(prefix.drop_first().drop_first().drop_first().drop_first()
                =~= Seq::<InputStep>::empty());
            assert(spec_typed_text(prefix) =~= Seq::<char>::empty());
        },
        None => {
            assert(prefix.drop_first() =~= Seq::<InputStep>::empty());
            assert(spec_typed_text(prefix) =~= Seq::<char>::empty());
        },
    }
}

/// Law: whatever the cursor slot holds, the text-input plan types exactly the
/// supplied text — no character is dropped, reordered, or added, and each
/// line break becomes the dedicated commit action.
pub proof fn lemma_plan_types_exact_text(slot: Option<(i32, i32)>, text: Seq<char>)
    ensures
        spec_typed_text(spec_text_input_plan(slot, text)) == text,
{
    lemma_typed_text_concat(spec_focus_prefix(slot), spec_char_steps(text));
    lemma_typed_text_of_focus_prefix(slot);
    lemma_typed_text_of_char_steps(text);
    assert(spec_typed_text(spec_text_input_plan(slot, text)) =~= text);
}

proof fn lemma_char_steps_not_positioning(text: Seq<char>)
    ensures
        forall|i: int| 0 <= i < spec_char_steps(text).len()
            ==> !spec_is_positioning(#[trigger] spec_char_steps(text)[i]),
    decreases text.len(),
{
    if text.len() == 0 {
    } else {
        lemma_char_steps_not_positioning(text.drop_first());
        let action = spec_char_action(text[0]);
        assert forall|i: int| 0 <= i < spec_char_steps(text).len()
            implies !spec_is_positioning(#[trigger] spec_char_steps(text)[i]) by {
            if i < action.len() {
                assert(spec_char_steps(text)[i] == action[i]);
            } else {
                assert(spec_char_steps(text)[i]
                    == spec_char_steps(text.drop_first())[i - action.len()]);
            }
        }
    }
}

/// Law: with no stored cursor position, the text-input plan performs no
/// cursor move and no click — it skips straight to typing at whatever
/// currently has focus.
pub proof fn lemma_plan_without_capture_skips_positioning(text: Seq<char>)
    ensures
        forall|i: int| 0 <= i < spec_text_input_plan(None, text).len()
            ==> !spec_is_positioning(#[trigger] spec_text_input_plan(None, text)[i]),
{
    let plan = spec_text_input_plan(None, text);
    let prefix = spec_focus_prefix(None::<(i32, i32)>);
    lemma_char_steps_not_positioning(text);
    assert forall|i: int| 0 <= i < plan.len()
        implies !spec_is_positioning(#[trigger] plan[i]) by {
        if i < prefix.len() {
            assert(plan[i] == prefix[i]);
        } else {
            assert(plan[i] == spec_char_steps(text)[i - prefix.len()]);
        }
    }
}

/// Maps a symbolic key name to its key code. Only the commit/newline key
/// ("Return" or "Enter") is supported; any other name is rejected with a
/// descriptive error.
pub fn key_code_for_name(key: &str) -> (r: Result<u16, String>)
    ensures
        r is Ok <==> (key@ == "Return"@ || key@ == "Enter"@),
        r matches Ok(code) ==> code == RETURN_KEY_CODE,
        r matches Err(m) ==> m@ == "Unsupported key: "@ + key@,
{
    if str_eq(key, "Return") || str_eq(key, "Enter") {
        Ok(RETURN_KEY_CODE)
    } else {
        let mut message = String::from_str("Unsupported key: ");
        message.append(key);
        Err(message)
    }
}

/// Computes the key-press sequence for a symbolic key name, or rejects the
/// name. On rejection no input step is produced at all, so no synthetic input
/// reaches the OS.
pub fn key_press_plan(key: &str) -> (r: Result<Vec<InputStep>, String>)
    ensures
        r is Ok <==> (key@ == "Return"@ || key@ == "Enter"@),
        r matches Ok(plan) ==> plan@ == spec_key_press_plan(RETURN_KEY_CODE),
        r matches Err(m) ==> m@ == "Unsupported key: "@ + key@,
{
    let code = match key_code_for_name(key) {
        Ok(code) => code,
        Err(m) => {
            return Err(m);
        },
    };
    let mut plan: Vec<InputStep> = Vec::new();
    plan.push(InputStep::Wait(KEY_PRESS_LEAD_MS));
    plan.push(InputStep::KeyDown(code));
    plan.push(InputStep::Wait(KEY_HOLD_MS));
    plan.push(InputStep::KeyUp(code));
    proof {
        assert(plan@ =~= spec_key_press_plan(RETURN_KEY_CODE));
    }
    Ok(plan)
}

} // verus!
