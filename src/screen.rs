//! The login screen's state and how each user interaction changes it.

use vstd::prelude::*;
use vstd::string::StringExecFns;

use crate::seed::{has_seed_word_count, word_count, SEED_WORDS};

verus! {

/// The seed phrase that "Generate Key" fills in: twelve fixed words.
pub const PLACEHOLDER_SEED: &'static str = "word1 word2 word3 word4 word5 word6 word7 word8 word9 word10 word11 word12";

/// Start of the line reported when a login goes ahead; the seed follows it.
pub const LOGIN_PREFIX: &'static str = "Logging in with seed: ";

/// The line reported when a login is refused.
pub const INVALID_SEED_LINE: &'static str = "Invalid seed: Please enter exactly 12 words.";

/// Start of the line reported when a seed is generated; the seed follows it.
pub const GENERATED_PREFIX: &'static str = "Generated new seed: ";

/// Title of the window.
pub const WINDOW_TITLE: &'static str = "Mostro Desktop - Login";

/// State of the login screen.
pub struct MostroLogin {
    /// The text of the seed-phrase field, as typed.
    pub seed_input: String,
    /// Whether the dark palette is in use.
    pub is_dark_mode: bool,
}

/// A user interaction with the screen.
#[derive(Clone, Debug, PartialEq, Eq)]
pub enum Message {
    /// The seed-phrase field now holds this text.
    SeedChanged(String),
    LoginPressed,
    GenerateKeyPressed,
    ToggleTheme,
    ClosePressed,
}

/// What the host is asked to do after a message has been handled.
#[derive(Clone, Debug, PartialEq, Eq)]
pub enum Effect {
    /// Nothing.
    Nothing,
    /// Print this diagnostic line.
    Log(String),
    /// Close the window.
    CloseWindow,
}

/// Mathematical model of [`MostroLogin`].
pub struct ScreenModel {
    pub seed: Seq<char>,
    pub dark: bool,
}

/// Mathematical model of [`Message`].
pub enum MessageModel {
    SeedChanged(Seq<char>),
    LoginPressed,
    GenerateKeyPressed,
    ToggleTheme,
    ClosePressed,
}

/// Mathematical model of [`Effect`].
pub enum EffectModel {
    Nothing,
    Log(Seq<char>),
    CloseWindow,
}

impl MostroLogin {
    /// The state as a [`ScreenModel`].
    pub open spec fn model(&self) -> ScreenModel {
        ScreenModel { seed: self.seed_input@, dark: self.is_dark_mode }
    }
}

impl View for Message {
    type V = MessageModel;

    open spec fn view(&self) -> MessageModel {
        match self {
            Message::SeedChanged(s) => MessageModel::SeedChanged(s@),
            Message::LoginPressed => MessageModel::LoginPressed,
            Message::GenerateKeyPressed => MessageModel::GenerateKeyPressed,
            Message::ToggleTheme => MessageModel::ToggleTheme,
            Message::ClosePressed => MessageModel::ClosePressed,
        }
    }
}

impl View for Effect {
    type V = EffectModel;

    open spec fn view(&self) -> EffectModel {
        match self {
            Effect::Nothing => EffectModel::Nothing,
            Effect::Log(s) => EffectModel::Log(s@),
            Effect::CloseWindow => EffectModel::CloseWindow,
        }
    }
}

/// The state the screen starts in: an empty seed, dark palette.
pub open spec fn initial_model() -> ScreenModel {
    ScreenModel { seed: Seq::empty(), dark: true }
}

/// Whether `seed` may be used to log in.
pub open spec fn seed_accepted(seed: Seq<char>) -> bool {
    word_count(seed) == SEED_WORDS
}

/// The line reported when a login with `seed` goes ahead.
pub open spec fn login_line(seed: Seq<char>) -> Seq<char> {
    LOGIN_PREFIX@ + seed
}

/// The line reported when a seed is generated.
pub open spec fn generated_line() -> Seq<char> {
    GENERATED_PREFIX@ + PLACEHOLDER_SEED@
}

/// The state after `m` is handled in state `s`.
pub open spec fn next_model(s: ScreenModel, m: MessageModel) -> ScreenModel {
    match m {
        MessageModel::SeedChanged(text) => ScreenModel { seed: text, ..s },
        MessageModel::GenerateKeyPressed => ScreenModel { seed: PLACEHOLDER_SEED@, ..s },
        MessageModel::ToggleTheme => ScreenModel { dark: !s.dark, ..s },
        MessageModel::LoginPressed | MessageModel::ClosePressed => s,
    }
}

/// What the host is asked to do when `m` is handled in state `s`.
pub open spec fn effect_of(s: ScreenModel, m: MessageModel) -> EffectModel {
    match m {
        MessageModel::LoginPressed => if seed_accepted(s.seed) {
            EffectModel::Log(login_line(s.seed))
        } else {
            EffectModel::Log(INVALID_SEED_LINE@)
        },
        MessageModel::GenerateKeyPressed => EffectModel::Log(generated_line()),
        MessageModel::ClosePressed => EffectModel::CloseWindow,
        MessageModel::SeedChanged(_) | MessageModel::ToggleTheme => EffectModel::Nothing,
    }
}

impl MostroLogin {
    /// The screen as it starts: an empty seed, dark palette.
    pub fn new() -> (r: MostroLogin)
        ensures
            r.model() == initial_model(),
    {
        MostroLogin { seed_input: String::new(), is_dark_mode: true }
    }

    /// Title of the window.
    pub fn title(&self) -> (r: String)
        ensures
            r@ == WINDOW_TITLE@,
    {
        WINDOW_TITLE.to_owned()
    }

    /// Handles one message: updates the state and says what the host is to do.
    pub fn update(&mut self, message: Message) -> (effect: Effect)
        ensures
            final(self).model() == next_model(old(self).model(), message@),
            effect@ == effect_of(old(self).model(), message@),
    {
        match message {
            Message::SeedChanged(seed) => {
                self.seed_input = seed;
                Effect::Nothing
            },
            Message::LoginPressed => {
                if has_seed_word_count(self.seed_input.as_str()) {
                    let line = LOGIN_PREFIX.to_owned().concat(self.seed_input.as_str());
                    Effect::Log(line)
                } else {
                    Effect::Log(INVALID_SEED_LINE.to_owned())
                }
            },
            Message::GenerateKeyPressed => {
                self.seed_input = PLACEHOLDER_SEED.to_owned();
                Effect::Log(GENERATED_PREFIX.to_owned().concat(self.seed_input.as_str()))
            },
            Message::ToggleTheme => {
                self.is_dark_mode = !self.is_dark_mode;
                Effect::Nothing
            },
            Message::ClosePressed => Effect::CloseWindow,
        }
    }
}

} // verus!
