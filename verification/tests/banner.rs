use lucard::banner::{
    banner_lines, banner_row, color_logo_line, fits_layout, named_color, BannerInfo, Span, Style,
};

fn text(line: &[Span]) -> String {
    line.iter().map(|s| s.text.as_str()).collect()
}

fn info(session: &str, model: &str, provider: &str) -> BannerInfo {
    BannerInfo {
        model: model.to_string(),
        provider: provider.to_string(),
        version: "1.0.0".to_string(),
        conversation_id: session.to_string(),
    }
}

const LOGO: [&str; 4] = ["ABCDEFGHIJK", "abc", "", "xyz"];

#[test]
fn logo_lines_take_magenta_then_purple() {
    let s = color_logo_line("abc", 0);
    assert_eq!(s.text, "abc");
    assert_eq!(s.style, Style::BrightMagentaBold);
    assert_eq!(color_logo_line("abc", 2).style, Style::BrightMagentaBold);
    assert_eq!(color_logo_line("abc", 3).style, Style::BrightPurpleBold);
    assert_eq!(color_logo_line("abc", 7).style, Style::BrightPurpleBold);
}

#[test]
fn colour_names_map_to_styles() {
    assert_eq!(named_color("magenta1"), Style::BrightMagentaBold);
    assert_eq!(named_color("purple"), Style::BrightPurpleBold);
    assert_eq!(named_color("magenta"), Style::BrightMagenta);
    assert_eq!(named_color("violet"), Style::Purple);
    assert_eq!(named_color("teal"), Style::Plain);
}

#[test]
fn row_pads_value_to_content_width() {
    let row = banner_row(0, &LOGO, " ● Session: ", "abc123", "magenta1", 11, 80);
    assert_eq!(
        text(&row),
        format!("│ ABCDEFGHIJK │    ● Session: abc123{}│", " ".repeat(61))
    );
    assert_eq!(text(&row).chars().count(), 98);
    assert_eq!(row[2].style, Style::BrightMagentaBold);
    assert_eq!(row[6].text, "abc123");
    assert_eq!(row[6].style, Style::BrightMagentaBold);
}

#[test]
fn row_without_value_has_no_spacer() {
    let row = banner_row(1, &LOGO, " ● Model:   ", "", "purple", 11, 40);
    assert_eq!(
        text(&row),
        format!("│ abc         │   ● Model:   {}│", " ".repeat(28))
    );
}

#[test]
fn row_past_the_logo_uses_a_blank_logo_line() {
    let row = banner_row(5, &LOGO, "", "x", "violet", 11, 40);
    assert_eq!(text(&row), format!("│ {} │   x{}│", " ".repeat(11), " ".repeat(38)));
    assert_eq!(row[2].style, Style::BrightPurpleBold);
    assert_eq!(row[6].style, Style::Purple);
}

#[test]
fn wide_terminal_gets_horizontal_banner() {
    let lines = banner_lines(&info("abc123", "gpt", "openai"), &LOGO, 100);
    assert_eq!(lines.len(), 7);
    let rule = |n: usize| "─".repeat(n);
    assert_eq!(text(&lines[0]), format!("╭{}┬{}╮", rule(13), rule(82)));
    assert_eq!(
        text(&lines[1]),
        format!("│ ABCDEFGHIJK │    ● Session: abc123{}│", " ".repeat(61))
    );
    assert_eq!(
        text(&lines[2]),
        format!("│ abc         │    ● Model:   gpt{}│", " ".repeat(64))
    );
    assert_eq!(
        text(&lines[3]),
        format!("│             │    ● Provider:openai{}│", " ".repeat(61))
    );
    assert_eq!(
        text(&lines[4]),
        format!("│ xyz         │   Type /help for commands{}│", " ".repeat(56))
    );
    assert_eq!(text(&lines[5]), format!("╰{}┴{}╯", rule(13), rule(82)));
    assert!(lines[6].is_empty());
    for line in &lines[..6] {
        assert_eq!(text(line).chars().count(), 98);
    }
    assert_eq!(lines[2][6].style, Style::BrightPurpleBold);
    assert_eq!(lines[3][6].style, Style::BrightMagenta);
    assert_eq!(lines[4][6].style, Style::Purple);
}

#[test]
fn horizontal_banner_shortens_model_and_provider() {
    let long = "m".repeat(100);
    let lines = banner_lines(&info("s", &long, &long), &LOGO, 80);
    // 80 columns: the content column is 62 wide, values get 49 characters.
    let shown = format!("{}...", "m".repeat(46));
    assert_eq!(lines[2][6].text, shown);
    assert_eq!(lines[3][6].text, shown);
    assert_eq!(text(&lines[2]).chars().count(), 80);
    assert_eq!(text(&lines[0]).chars().count(), 80);
}

#[test]
fn content_column_is_clamped_between_40_and_80() {
    let lines = banner_lines(&info("s", "m", "p"), &LOGO, 500);
    assert_eq!(text(&lines[0]).chars().count(), 98);
    let lines = banner_lines(&info("s", "m", "p"), &LOGO, 85);
    assert_eq!(text(&lines[0]).chars().count(), 85);
}

#[test]
fn narrow_terminal_gets_vertical_banner() {
    let lines = banner_lines(&info("abc123", "gpt", "openai"), &LOGO, 60);
    assert_eq!(lines.len(), LOGO.len() + 9);
    let rule = "─".repeat(46);
    assert_eq!(text(&lines[0]), format!("╭{}╮", rule));
    assert_eq!(
        text(&lines[1]),
        format!("│ {} ABCDEFGHIJK{} │", " ".repeat(17), " ".repeat(18))
    );
    assert_eq!(text(&lines[2]), format!("│ {} abc{} │", " ".repeat(17), " ".repeat(18)));
    assert_eq!(text(&lines[5]), format!("│{}│", " ".repeat(46)));
    assert_eq!(
        text(&lines[6]),
        format!("│  ● Session: abc123{}│", " ".repeat(28))
    );
    assert_eq!(text(&lines[7]), format!("│  ● Model:   gpt{}│", " ".repeat(31)));
    assert_eq!(
        text(&lines[8]),
        format!("│  ● Provider:openai{}│", " ".repeat(28))
    );
    assert_eq!(text(&lines[9]), format!("│{}│", " ".repeat(46)));
    assert_eq!(
        text(&lines[10]),
        format!("│ {}Type /help for commands{} │", " ".repeat(11), " ".repeat(12))
    );
    assert_eq!(text(&lines[11]), format!("╰{}╯", rule));
    assert!(lines[12].is_empty());
    assert_eq!(lines[6][2].style, Style::BrightMagentaBold);
    assert_eq!(lines[7][2].style, Style::BrightPurpleBold);
    assert_eq!(lines[8][2].style, Style::PurpleBold);
    assert_eq!(lines[10][2].style, Style::BrightPurple);
    assert_eq!(lines[4][2].style, Style::BrightPurpleBold);
}

#[test]
fn vertical_banner_shortens_every_value() {
    let long = "x".repeat(60);
    let lines = banner_lines(&info(&long, &long, &long), &[], 40);
    // 40 columns: inner width 36, values get 24 characters.
    let shown = format!("{}...", "x".repeat(21));
    assert_eq!(lines[2][2].text, shown);
    assert_eq!(lines[3][2].text, shown);
    assert_eq!(lines[4][2].text, shown);
    assert_eq!(text(&lines[0]).chars().count(), 38);
    assert_eq!(text(&lines[2]).chars().count(), 39);
    assert_eq!(text(&lines[6]).chars().count(), 40);
}

#[test]
fn vertical_logo_line_overflows_a_fifty_column_terminal() {
    let lines = banner_lines(&info("a", "b", "c"), &LOGO, 50);
    assert_eq!(text(&lines[1]).chars().count(), 51);
    let lines = banner_lines(&info("a", "b", "c"), &LOGO, 51);
    assert_eq!(text(&lines[1]).chars().count(), 51);
}

#[test]
fn layout_refuses_values_with_no_room_for_dots() {
    assert!(fits_layout(&info("abc", "gpt", "openai"), 100));
    assert!(fits_layout(&info("abc", "gpt", "openai"), 40));
    assert!(!fits_layout(&info("abc", "", ""), 10));
    assert!(fits_layout(&info("", "", ""), 10));
    assert!(!fits_layout(&info("abc", "def", "ghi"), 18));
    assert!(fits_layout(&info("ab", "de", "gh"), 18));
    assert!(fits_layout(&info("abcdefg", "def", "ghi"), 19));
}

#[test]
fn tiny_terminal_with_empty_values() {
    let lines = banner_lines(&info("", "", ""), &[], 3);
    assert_eq!(text(&lines[0]), "╭╮");
    assert_eq!(text(&lines[1]), "││");
    assert_eq!(text(&lines[2]), "│  ● Session: │");
}
