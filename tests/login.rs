use mostro_login::screen::{GENERATED_PREFIX, INVALID_SEED_LINE, LOGIN_PREFIX, PLACEHOLDER_SEED};
use mostro_login::seed::has_seed_word_count;
use mostro_login::style::{ButtonStyle, ContainerStyle, Rgb, ThemeChoice, BUTTON_CORNER_RADIUS};
use mostro_login::{Effect, Message, MostroLogin};

const INVALID: &str = "Invalid seed: Please enter exactly 12 words.";

fn with_seed(seed: &str) -> MostroLogin {
    let mut screen = MostroLogin::new();
    assert_eq!(screen.update(Message::SeedChanged(seed.to_string())), Effect::Nothing);
    screen
}

#[test]
fn starts_empty_and_dark() {
    let screen = MostroLogin::new();
    assert_eq!(screen.seed_input, "");
    assert!(screen.is_dark_mode);
    assert_eq!(screen.title(), "Mostro Desktop - Login");
}

#[test]
fn seed_changed_replaces_text() {
    let mut screen = with_seed("first");
    assert_eq!(screen.update(Message::SeedChanged("second text".to_string())), Effect::Nothing);
    assert_eq!(screen.seed_input, "second text");
    assert!(screen.is_dark_mode);
}

#[test]
fn login_with_twelve_words_reports_login() {
    let mut screen = with_seed("a b c d e f g h i j k l");
    let effect = screen.update(Message::LoginPressed);
    assert_eq!(
        effect,
        Effect::Log("Logging in with seed: a b c d e f g h i j k l".to_string())
    );
    assert_eq!(screen.seed_input, "a b c d e f g h i j k l");
    assert!(screen.is_dark_mode);
}

#[test]
fn login_counts_words_across_whitespace_runs() {
    let seed = "  a\tb\n\nc   d e f g h i j k l  ";
    let mut screen = with_seed(seed);
    assert_eq!(screen.update(Message::LoginPressed), Effect::Log(format!("{}{}", LOGIN_PREFIX, seed)));
    assert_eq!(screen.seed_input, seed);
}

#[test]
fn login_splits_on_unicode_whitespace() {
    let seed = "a\u{3000}b\u{00A0}c\u{2003}d e f g h i j k l";
    assert!(has_seed_word_count(seed));
    let mut screen = with_seed(seed);
    assert_eq!(screen.update(Message::LoginPressed), Effect::Log(format!("Logging in with seed: {}", seed)));
}

#[test]
fn login_with_eleven_words_is_refused() {
    let mut screen = with_seed("a b c d e f g h i j k");
    assert_eq!(screen.update(Message::LoginPressed), Effect::Log(INVALID.to_string()));
    assert_eq!(screen.seed_input, "a b c d e f g h i j k");
}

#[test]
fn login_with_thirteen_words_is_refused() {
    let mut screen = with_seed("a b c d e f g h i j k l m");
    assert_eq!(screen.update(Message::LoginPressed), Effect::Log(INVALID.to_string()));
    assert_eq!(screen.seed_input, "a b c d e f g h i j k l m");
}

#[test]
fn login_with_empty_seed_is_refused() {
    let mut screen = MostroLogin::new();
    assert_eq!(screen.update(Message::LoginPressed), Effect::Log(INVALID_SEED_LINE.to_string()));
    assert_eq!(screen.seed_input, "");
    assert!(screen.is_dark_mode);
}

#[test]
fn word_count_rule() {
    assert!(!has_seed_word_count(""));
    assert!(!has_seed_word_count("    \t\n "));
    assert!(!has_seed_word_count("abcdefghijkl"));
    assert!(has_seed_word_count("one two three four five six seven eight nine ten eleven twelve"));
    assert!(has_seed_word_count("\n1 2 3 4 5 6 7 8 9 10 11 12\n"));
    assert!(!has_seed_word_count("1 2 3 4 5 6 7 8 9 10 11 12 13 14 15 16 17 18 19 20"));
    assert!(!has_seed_word_count("a_b c d e f g h i j k l"));
}

#[test]
fn toggle_theme_twice_restores_mode() {
    let mut screen = with_seed("kept");
    assert_eq!(screen.update(Message::ToggleTheme), Effect::Nothing);
    assert!(!screen.is_dark_mode);
    assert_eq!(screen.update(Message::ToggleTheme), Effect::Nothing);
    assert!(screen.is_dark_mode);
    assert_eq!(screen.seed_input, "kept");
}

#[test]
fn toggle_theme_switches_to_light_palette() {
    let mut screen = MostroLogin::new();
    screen.update(Message::ToggleTheme);
    assert!(!screen.is_dark_mode);
    assert_eq!(screen.theme(), ThemeChoice::Light);
    let tree = screen.view();
    assert_eq!(tree.container_style, ContainerStyle { is_dark_mode: false });
    assert_eq!(tree.container_style.appearance().background, Rgb { r: 255, g: 255, b: 255 });
}

#[test]
fn dark_palette_uses_near_black_background() {
    let screen = MostroLogin::new();
    assert_eq!(screen.theme(), ThemeChoice::Dark);
    let tree = screen.view();
    assert_eq!(tree.container_style.appearance().background, Rgb { r: 8, g: 8, b: 8 });
}

#[test]
fn buttons_are_black_on_white_with_rounded_corners() {
    let look = ButtonStyle.active();
    assert_eq!(look.background, Rgb { r: 255, g: 255, b: 255 });
    assert_eq!(look.text_color, Rgb { r: 0, g: 0, b: 0 });
    assert_eq!(look.corner_radius, 7);
    assert_eq!(BUTTON_CORNER_RADIUS, 7);
}

#[test]
fn generate_key_fills_placeholder_and_is_idempotent() {
    let mut screen = with_seed("something else");
    let first = screen.update(Message::GenerateKeyPressed);
    let seed = "word1 word2 word3 word4 word5 word6 word7 word8 word9 word10 word11 word12";
    assert_eq!(screen.seed_input, seed);
    assert_eq!(first, Effect::Log(format!("Generated new seed: {}", seed)));
    let second = screen.update(Message::GenerateKeyPressed);
    assert_eq!(screen.seed_input, seed);
    assert_eq!(second, first);
    assert_eq!(PLACEHOLDER_SEED, seed);
    assert_eq!(GENERATED_PREFIX, "Generated new seed: ");
    assert!(has_seed_word_count(&screen.seed_input));
}

#[test]
fn generated_seed_logs_in() {
    let mut screen = MostroLogin::new();
    screen.update(Message::GenerateKeyPressed);
    assert_eq!(
        screen.update(Message::LoginPressed),
        Effect::Log(format!("Logging in with seed: {}", PLACEHOLDER_SEED))
    );
}

#[test]
fn close_requests_close_in_any_state() {
    let mut dark = with_seed("x y");
    assert_eq!(dark.update(Message::ClosePressed), Effect::CloseWindow);
    assert_eq!(dark.seed_input, "x y");
    assert!(dark.is_dark_mode);

    let mut light = MostroLogin::new();
    light.update(Message::ToggleTheme);
    assert_eq!(light.update(Message::ClosePressed), Effect::CloseWindow);
    assert!(!light.is_dark_mode);
    assert_eq!(light.seed_input, "");
}

#[test]
fn view_describes_the_screen() {
    let screen = with_seed("typed words");
    let tree = screen.view();
    assert_eq!(tree.logo_path, "assets/word-logo.png");
    assert_eq!((tree.logo_width, tree.logo_height), (200, 50));
    assert_eq!(tree.seed_placeholder, "Enter your 12 seed phrases...");
    assert_eq!(tree.seed_value, "typed words");
    assert_eq!((tree.seed_padding, tree.seed_width), (10, 300));
    assert_eq!(tree.spacing, 20);
    assert_eq!(tree.button_style, ButtonStyle);
    let labels: Vec<&str> = tree.buttons.iter().map(|b| b.label.as_str()).collect();
    assert_eq!(labels, vec!["Login", "Generate Key", "Toggle Theme", "Close"]);
    let messages: Vec<Message> = tree.buttons.iter().map(|b| b.on_press.clone()).collect();
    assert_eq!(
        messages,
        vec![
            Message::LoginPressed,
            Message::GenerateKeyPressed,
            Message::ToggleTheme,
            Message::ClosePressed
        ]
    );
    assert!(tree.buttons.iter().all(|b| b.padding == 10));
}
