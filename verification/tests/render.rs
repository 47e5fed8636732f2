use terminal_color_builder::color::COLORS;
use terminal_color_builder::hex::HexError;
use terminal_color_builder::OutputFormatter;

#[test]
fn an_empty_builder_renders_the_reset_alone() {
    assert_eq!(OutputFormatter::new().print(), "\u{1b}[39;49m");
}

#[test]
fn text_without_color_gets_the_bare_wrapper() {
    let c = OutputFormatter::new().text("hello".to_string());
    assert_eq!(c.print(), "\u{1b}[mhello\u{1b}[39;49m");
    let c = OutputFormatter::new().text_str("");
    assert_eq!(c.print(), "\u{1b}[m\u{1b}[39;49m");
}

#[test]
fn rendering_twice_gives_the_same_text() {
    let c = OutputFormatter::new()
        .fg()
        .hex("#cc33ff")
        .unwrap()
        .text_str("R")
        .fg()
        .blue()
        .text_str("I");
    let first = c.print();
    let second = c.print();
    assert_eq!(first, second);
    assert_eq!(
        first,
        "\u{1b}[38;2;204;51;255mR\u{1b}[34mI\u{1b}[39;49m"
    );
}

#[test]
fn colors_after_the_last_text_do_not_show() {
    let plain = OutputFormatter::new().fg().red().text_str("x");
    let dangling = OutputFormatter::new()
        .fg()
        .red()
        .text_str("x")
        .fg()
        .green()
        .bg()
        .hex("#123")
        .unwrap()
        .custom(COLORS::Blue, COLORS::Yellow)
        .unwrap();
    assert_eq!(plain.print(), "\u{1b}[31mx\u{1b}[39;49m");
    assert_eq!(dangling.print(), plain.print());
}

#[test]
fn colors_without_any_text_render_the_reset_alone() {
    let c = OutputFormatter::new().fg().red().bg().white();
    assert_eq!(c.print(), "\u{1b}[39;49m");
}

#[test]
fn color_calls_add_up_until_a_text() {
    let c = OutputFormatter::new()
        .fg()
        .red()
        .fg()
        .green()
        .bg()
        .blue()
        .text_str("x")
        .text_str("y");
    assert_eq!(c.print(), "\u{1b}[31;32;44mx\u{1b}[my\u{1b}[39;49m");
}

#[test]
fn each_named_color_on_each_channel() {
    let c = OutputFormatter::new()
        .fg()
        .black()
        .fg()
        .red()
        .fg()
        .green()
        .fg()
        .yellow()
        .fg()
        .blue()
        .fg()
        .magenta()
        .fg()
        .cyan()
        .fg()
        .white()
        .text_str("f")
        .bg()
        .black()
        .bg()
        .red()
        .bg()
        .green()
        .bg()
        .yellow()
        .bg()
        .blue()
        .bg()
        .magenta()
        .bg()
        .cyan()
        .bg()
        .white()
        .text_str("b");
    assert_eq!(
        c.print(),
        "\u{1b}[30;31;32;33;34;35;36;37mf\u{1b}[40;41;42;43;44;45;46;47mb\u{1b}[39;49m"
    );
}

#[test]
fn hex_on_the_background() {
    let c = OutputFormatter::new()
        .bg()
        .hex("ab1346")
        .unwrap()
        .text_str("x");
    assert_eq!(c.print(), "\u{1b}[48;2;171;19;70mx\u{1b}[39;49m");
}

#[test]
fn white_on_red_warning() {
    let c = OutputFormatter::new()
        .fg()
        .hex("#fff")
        .unwrap()
        .bg()
        .red()
        .text_str("A text in white with a red background.");
    assert_eq!(
        c.print(),
        "\u{1b}[38;2;255;255;255;41mA text in white with a red background.\u{1b}[39;49m"
    );
}

#[test]
fn custom_takes_hex_colors_on_both_channels() {
    let c = OutputFormatter::new()
        .custom(
            COLORS::HEX("#102030".to_string()),
            COLORS::HEX("fff".to_string()),
        )
        .unwrap()
        .text_str("x");
    assert_eq!(
        c.print(),
        "\u{1b}[38;2;16;32;48;48;2;255;255;255mx\u{1b}[39;49m"
    );
}

#[test]
fn custom_without_colors_adds_nothing() {
    let c = OutputFormatter::new()
        .custom(COLORS::Unset, COLORS::Unset)
        .unwrap()
        .text_str("x");
    assert_eq!(c.print(), "\u{1b}[mx\u{1b}[39;49m");
    let c = OutputFormatter::new()
        .fg()
        .red()
        .custom(COLORS::Unset, COLORS::Unset)
        .unwrap()
        .text_str("x");
    assert_eq!(c.print(), "\u{1b}[31mx\u{1b}[39;49m");
}

#[test]
fn custom_in_a_context_follows_the_context() {
    let c = OutputFormatter::new()
        .fg()
        .custom(COLORS::Red, COLORS::Blue)
        .unwrap()
        .text_str("x");
    assert_eq!(c.print(), "\u{1b}[31;44mx\u{1b}[39;49m");
    let c = OutputFormatter::new()
        .bg()
        .custom(COLORS::Red, COLORS::Blue)
        .unwrap()
        .text_str("x");
    assert_eq!(c.print(), "\u{1b}[34;41mx\u{1b}[39;49m");
    let c = OutputFormatter::new()
        .bg()
        .custom(COLORS::Red, COLORS::Unset)
        .unwrap()
        .text_str("x");
    assert_eq!(c.print(), "\u{1b}[41mx\u{1b}[39;49m");
}

#[test]
fn a_rejected_hex_color_is_reported() {
    let r = OutputFormatter::new().fg().hex("12345");
    assert!(matches!(r, Err(HexError::InvalidHexLength)));
    let r = OutputFormatter::new().bg().hex("12g");
    assert!(matches!(r, Err(HexError::InvalidHexDigit)));
    let r = OutputFormatter::new().custom(COLORS::Red, COLORS::HEX("xyz".to_string()));
    assert!(matches!(r, Err(HexError::InvalidHexDigit)));
    let r = OutputFormatter::new().custom(
        COLORS::HEX("1".to_string()),
        COLORS::HEX("xyz".to_string()),
    );
    assert!(matches!(r, Err(HexError::InvalidHexLength)));
    let r = OutputFormatter::new()
        .bg()
        .custom(COLORS::HEX("1".to_string()), COLORS::HEX("xyz".to_string()));
    assert!(matches!(r, Err(HexError::InvalidHexDigit)));
}

#[test]
fn a_rejected_hex_color_leaves_the_builder_as_it_was() {
    let mut context = OutputFormatter::new().fg().red().text_str("a").fg();
    assert!(context.hex("12g").is_err());
    let c = context.green().text_str("b");
    assert_eq!(c.print(), "\u{1b}[31ma\u{1b}[32mb\u{1b}[39;49m");
}

#[test]
fn a_context_keeps_what_its_calls_added() {
    let mut context = OutputFormatter::new().fg();
    let first = context.red().text_str("x");
    let second = context.green().text_str("x");
    assert_eq!(first.print(), "\u{1b}[31mx\u{1b}[39;49m");
    assert_eq!(second.print(), "\u{1b}[31;32mx\u{1b}[39;49m");
}

#[test]
fn rainbow_has_one_reset_at_the_end() {
    let c = OutputFormatter::new()
        .fg()
        .hex("#cc33ff")
        .unwrap()
        .text_str("R")
        .fg()
        .hex("#6633ff")
        .unwrap()
        .text_str("A")
        .fg()
        .blue()
        .text_str("I")
        .fg()
        .green()
        .text_str("N")
        .fg()
        .yellow()
        .text_str("B")
        .fg()
        .hex("#ff6633")
        .unwrap()
        .text_str("O")
        .fg()
        .red()
        .text_str("W");
    let out = c.print();
    assert_eq!(
        out,
        "\u{1b}[38;2;204;51;255mR\u{1b}[38;2;102;51;255mA\u{1b}[34mI\u{1b}[32mN\u{1b}[33mB\u{1b}[38;2;255;102;51mO\u{1b}[31mW\u{1b}[39;49m"
    );
    assert_eq!(out.matches("\u{1b}[39;49m").count(), 1);
    assert!(out.ends_with("\u{1b}[39;49m"));
}

#[test]
fn text_and_text_str_agree() {
    let a = OutputFormatter::new().fg().cyan().text("same".to_string());
    let b = OutputFormatter::new().fg().cyan().text_str("same");
    assert_eq!(a.print(), b.print());
    assert_eq!(a.print(), "\u{1b}[36msame\u{1b}[39;49m");
}
