//! How a moderator's words, the guild's defaults and the daemon's levels decide.

use crate::actions::{action_named, method_named, EnforcementAction, NotificationMethod};
use crate::clock::{rfc3339_text, Moment};
use crate::issue::due_text;
use crate::levels::{Score, THRESHOLD_WARNINGS, WARNING_THRESHOLD};
use vstd::arithmetic::power2::{lemma2_to64_rest, lemma_pow2_unfold, pow2};
use vstd::prelude::*;

verus! {

/// A moderator's word for a notification method decides alone or not at all: either the guild's
/// default does not matter, or it is what is used.
pub proof fn method_word_decides_alone(word: Option<Seq<char>>)
    ensures
        (forall|a: NotificationMethod, b: NotificationMethod|
            #![trigger method_named(word, a), method_named(word, b)]
            method_named(word, a) == method_named(word, b)) || (forall|a: NotificationMethod|
            #[trigger] method_named(word, a) == a),
        word is None ==> forall|a: NotificationMethod| #[trigger] method_named(word, a) == a,
{
}

/// A moderator's word for an action decides alone or not at all: either the guild's default does
/// not matter, and the action bears the time that was given, or the default is what is used, with
/// its own time.
pub proof fn action_word_decides_alone(word: Option<Seq<char>>, timing: Option<u64>)
    ensures
        (forall|a: Option<EnforcementAction>|
            (#[trigger] action_named(word, timing, a)) is Some && action_named(
                word,
                timing,
                a,
            ).unwrap().timing() == timing && action_named(word, timing, a) == action_named(
                word,
                timing,
                None,
            )) || (forall|a: Option<EnforcementAction>| #[trigger]
            action_named(word, timing, a) == a),
        word is None ==> forall|a: Option<EnforcementAction>| #[trigger]
            action_named(word, timing, a) == a,
{
}

/// No word asks for the action that does nothing, nor for a haunting. The action that does nothing
/// goes with a warning only where it is the guild's default and no known word was given.
pub proof fn words_name_six_actions(word: Option<Seq<char>>, timing: Option<u64>)
    ensures
        action_named(word, timing, None) matches Some(action) ==> action !is NoAction
            && action !is VoiceChannelHaunt,
        forall|default: Option<EnforcementAction>|
            (#[trigger] action_named(word, timing, default)) == Some(EnforcementAction::NoAction)
                <==> default == Some(EnforcementAction::NoAction) && action_named(
                word,
                timing,
                None,
            ) is None,
{
}

/// An action is carried out at once where it falls due at the moment from which its delay counts,
/// and only there; the action that does nothing is never carried out at once.
pub proof fn immediate_means_due_now(action: EnforcementAction, scheduled: Moment)
    ensures
        action.immediate() <==> action !is NoAction && action.delay() == 0,
        action.immediate() ==> due_text(action, scheduled) == rfc3339_text(
            scheduled.secs,
            scheduled.nanos,
        ),
{
}

/// The threshold on scores is the whole number of warnings that messages speak of: three times
/// the double-precision number one.
pub proof fn threshold_is_whole()
    ensures
        (Score { bits: WARNING_THRESHOLD }).value() == THRESHOLD_WARNINGS * (Score {
            bits: 0x3ff0_0000_0000_0000,
        }).value(),
{
    let one = Score { bits: 0x3ff0_0000_0000_0000 };
    let threshold = Score { bits: WARNING_THRESHOLD };
    lemma2_to64_rest();
    assert(one.exponent() == 1023 && one.fraction() == 0);
    assert(threshold.exponent() == 1024 && threshold.fraction() == 0x8_0000_0000_0000);
    lemma_pow2_unfold(1023);
    let scale = pow2(1022);
    assert((pow2(52) + 0x8_0000_0000_0000) * (2 * scale) == 3 * (pow2(52) * scale))
        by (nonlinear_arith)
        requires
            pow2(52) == 0x10_0000_0000_0000,
    ;
}

/// A score at least as high as one that calls for enforcement calls for it too.
pub proof fn higher_scores_exceed(lower: Score, higher: Score)
    requires
        lower.exceeds(),
        !higher.is_nan(),
        higher.value() >= lower.value(),
    ensures
        higher.exceeds(),
{
}

} // verus!
