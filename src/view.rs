//! What the screen shows: a description of the widget tree, rebuilt from the
//! state on every change and handed to the host to draw.

use vstd::prelude::*;

use crate::screen::{Message, MessageModel, MostroLogin};
use crate::style::{ButtonStyle, ContainerStyle};

verus! {

/// Width of the window, in logical pixels.
pub const WINDOW_WIDTH: u32 = 400;

/// Height of the window, in logical pixels.
pub const WINDOW_HEIGHT: u32 = 600;

/// Path of the logo image.
pub const LOGO_PATH: &'static str = "assets/word-logo.png";

/// Size the logo is drawn at, in logical pixels.
pub const LOGO_WIDTH: u16 = 200;

pub const LOGO_HEIGHT: u16 = 50;

/// Hint shown in the seed-phrase field while it is empty.
pub const SEED_PLACEHOLDER: &'static str = "Enter your 12 seed phrases...";

/// Width of the seed-phrase field, in logical pixels.
pub const SEED_FIELD_WIDTH: u16 = 300;

/// Padding inside the seed-phrase field and inside each button.
pub const WIDGET_PADDING: u16 = 10;

/// Vertical space between two widgets of the column.
pub const SPACING: u16 = 20;

pub const LOGIN_LABEL: &'static str = "Login";

pub const GENERATE_KEY_LABEL: &'static str = "Generate Key";

pub const TOGGLE_THEME_LABEL: &'static str = "Toggle Theme";

pub const CLOSE_LABEL: &'static str = "Close";

/// Number of buttons, top to bottom: Login, Generate Key, Toggle Theme, Close.
pub const BUTTON_COUNT: usize = 4;

/// A button: its label and the message a press sends.
pub struct ButtonWidget {
    pub label: String,
    pub on_press: Message,
    pub padding: u16,
}

/// The widget tree of the screen: a centred column holding the logo, the
/// seed-phrase field and the buttons, in a container filling the window.
pub struct RenderTree {
    pub logo_path: String,
    pub logo_width: u16,
    pub logo_height: u16,
    pub seed_placeholder: String,
    /// What the seed-phrase field shows; editing it sends `SeedChanged`.
    pub seed_value: String,
    pub seed_padding: u16,
    pub seed_width: u16,
    pub buttons: Vec<ButtonWidget>,
    pub spacing: u16,
    pub container_style: ContainerStyle,
    pub button_style: ButtonStyle,
}

/// Label of the button at position `i`, counted from the top.
pub open spec fn button_label(i: int) -> Seq<char> {
    if i == 0 {
        LOGIN_LABEL@
    } else if i == 1 {
        GENERATE_KEY_LABEL@
    } else if i == 2 {
        TOGGLE_THEME_LABEL@
    } else {
        CLOSE_LABEL@
    }
}

/// Message sent by the button at position `i`, counted from the top.
pub open spec fn button_message(i: int) -> MessageModel {
    if i == 0 {
        MessageModel::LoginPressed
    } else if i == 1 {
        MessageModel::GenerateKeyPressed
    } else if i == 2 {
        MessageModel::ToggleTheme
    } else {
        MessageModel::ClosePressed
    }
}

fn button(label: &str, on_press: Message) -> (r: ButtonWidget)
    ensures
        r.label@ == label@,
        r.on_press@ == on_press@,
        r.padding == WIDGET_PADDING,
{
    ButtonWidget { label: label.to_owned(), on_press, padding: WIDGET_PADDING }
}

impl MostroLogin {
    /// Describes the screen for the current state.
    pub fn view(&self) -> (tree: RenderTree)
        ensures
            tree.logo_path@ == LOGO_PATH@,
            tree.logo_width == LOGO_WIDTH,
            tree.logo_height == LOGO_HEIGHT,
            tree.seed_placeholder@ == SEED_PLACEHOLDER@,
            tree.seed_value@ == self.seed_input@,
            tree.seed_padding == WIDGET_PADDING,
            tree.seed_width == SEED_FIELD_WIDTH,
            tree.buttons@.len() == BUTTON_COUNT,
            forall|i: int|
                0 <= i < BUTTON_COUNT ==> {
                    &&& #[trigger] tree.buttons@[i].label@ == button_label(i)
                    &&& tree.buttons@[i].on_press@ == button_message(i)
                    &&& tree.buttons@[i].padding == WIDGET_PADDING
                },
            tree.spacing == SPACING,
            tree.container_style == (ContainerStyle { is_dark_mode: self.is_dark_mode }),
            tree.button_style == ButtonStyle,
    {
        let mut buttons: Vec<ButtonWidget> = Vec::new();
        buttons.push(button(LOGIN_LABEL, Message::LoginPressed));
        buttons.push(button(GENERATE_KEY_LABEL, Message::GenerateKeyPressed));
        buttons.push(button(TOGGLE_THEME_LABEL, Message::ToggleTheme));
        buttons.push(button(CLOSE_LABEL, Message::ClosePressed));
        RenderTree {
            logo_path: LOGO_PATH.to_owned(),
            logo_width: LOGO_WIDTH,
            logo_height: LOGO_HEIGHT,
            seed_placeholder: SEED_PLACEHOLDER.to_owned(),
            seed_value: self.seed_input.clone(),
            seed_padding: WIDGET_PADDING,
            seed_width: SEED_FIELD_WIDTH,
            buttons,
            spacing: SPACING,
            container_style: ContainerStyle { is_dark_mode: self.is_dark_mode },
            button_style: ButtonStyle,
        }
    }
}

} // verus!
