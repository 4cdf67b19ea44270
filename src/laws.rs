//! Facts about sequences of messages, proved over the screen's model.

use vstd::prelude::*;

use crate::screen::{
    effect_of, login_line, next_model, EffectModel, MessageModel, ScreenModel,
    INVALID_SEED_LINE, PLACEHOLDER_SEED,
};
use crate::seed::{word_count, SEED_WORDS};

verus! {

/// Typing a seed whose word count is not the required one and then pressing
/// Login keeps that seed and reports the seed as invalid.
pub proof fn login_refuses_wrong_word_count(s: ScreenModel, text: Seq<char>)
    requires
        word_count(text) != SEED_WORDS,
    ensures
        ({
            let typed = next_model(s, MessageModel::SeedChanged(text));
            &&& typed.seed == text
            &&& next_model(typed, MessageModel::LoginPressed) == typed
            &&& effect_of(typed, MessageModel::LoginPressed) == EffectModel::Log(INVALID_SEED_LINE@)
        }),
{
}

/// Pressing Login on a seed with the required word count reports the login
/// with that seed and leaves the state as it was.
pub proof fn login_accepts_right_word_count(s: ScreenModel)
    requires
        word_count(s.seed) == SEED_WORDS,
    ensures
        next_model(s, MessageModel::LoginPressed) == s,
        effect_of(s, MessageModel::LoginPressed) == EffectModel::Log(login_line(s.seed)),
{
}

/// Toggling the theme twice gives back the state toggled from.
pub proof fn toggle_theme_twice_restores(s: ScreenModel)
    ensures
        next_model(next_model(s, MessageModel::ToggleTheme), MessageModel::ToggleTheme) == s,
{
}

/// Generating a key fills in the fixed placeholder seed, and generating again
/// leaves that seed as it is.
pub proof fn generate_key_is_idempotent(s: ScreenModel)
    ensures
        ({
            let once = next_model(s, MessageModel::GenerateKeyPressed);
            let twice = next_model(once, MessageModel::GenerateKeyPressed);
            &&& once.seed == PLACEHOLDER_SEED@
            &&& twice == once
        }),
{
}

/// Pressing Close, in any state, asks for exactly one window close and
/// changes nothing.
pub proof fn close_requests_one_close(s: ScreenModel)
    ensures
        effect_of(s, MessageModel::ClosePressed) == EffectModel::CloseWindow,
        next_model(s, MessageModel::ClosePressed) == s,
{
}

} // verus!
