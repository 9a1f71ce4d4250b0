use vstd::prelude::*;
use crate::layout_laws::{
    lemma_narrow_banner_values, lemma_wide_banner_values, lemma_when_layout_is_possible,
};
use crate::text::{
    chars_eq, pad_right, pad_right_str, repeat, repeat_str, sat_sub, spaces, spaces_str,
    spec_truncate, truncatable, truncate,
};

verus! {

/// How a piece of the banner is coloured when the terminal shows colours.
#[derive(Clone, Copy, Debug, PartialEq, Eq, Structural)]
pub enum Style {
    Plain,
    BrightMagentaBold,
    BrightPurpleBold,
    PurpleBold,
    BrightMagenta,
    BrightPurple,
    Purple,
}

/// A piece of text in one style.
#[derive(Debug)]
pub struct Span {
    pub text: String,
    pub style: Style,
}

impl DeepView for Span {
    type V = (Seq<char>, Style);

    open spec fn deep_view(&self) -> (Seq<char>, Style) {
        (self.text@, self.style)
    }
}

/// What the banner shows besides the logo.
pub struct BannerInfo {
    pub model: String,
    pub provider: String,
    pub version: String,
    pub conversation_id: String,
}

/// A line of the banner, as pieces of text with their styles.
pub type LineView = Seq<(Seq<char>, Style)>;

/// The width of the logo, in characters.
pub const LOGO_WIDTH: usize = 11;

/// Below this many columns the banner is stacked vertically.
pub const WIDE_TERMINAL: usize = 80;

pub open spec fn bar() -> Seq<char> {
    "│"@
}

pub open spec fn blank() -> Seq<char> {
    " "@
}

pub open spec fn rule() -> Seq<char> {
    "─"@
}

pub open spec fn session_label() -> Seq<char> {
    " ● Session: "@
}

pub open spec fn model_label() -> Seq<char> {
    " ● Model:   "@
}

pub open spec fn provider_label() -> Seq<char> {
    " ● Provider:"@
}

pub open spec fn help_text() -> Seq<char> {
    "Type /help for commands"@
}

/// The style of logo line `idx`: the first three lines bright magenta, the rest bright purple.
pub open spec fn logo_style(idx: int) -> Style {
    if idx < 3 {
        Style::BrightMagentaBold
    } else {
        Style::BrightPurpleBold
    }
}

/// The style that a colour name of a horizontal row stands for.
pub open spec fn named_style(color: Seq<char>) -> Style {
    if color == "magenta1"@ {
        Style::BrightMagentaBold
    } else if color == "purple"@ {
        Style::BrightPurpleBold
    } else if color == "magenta"@ {
        Style::BrightMagenta
    } else if color == "violet"@ {
        Style::Purple
    } else {
        Style::Plain
    }
}

/// Row `idx` of the horizontal banner: logo line `idx` (blank where the logo has no such
/// line) padded to `logo_width`, then the label and the value, padded to `content_width`.
pub open spec fn row_view(
    idx: int,
    logo: Seq<Seq<char>>,
    label: Seq<char>,
    value: Seq<char>,
    color: Seq<char>,
    logo_width: nat,
    content_width: nat,
) -> LineView {
    let logo_line = if 0 <= idx < logo.len() {
        logo[idx]
    } else {
        Seq::empty()
    };
    let spacer = if value.len() > 0 {
        blank()
    } else {
        Seq::empty()
    };
    let padding = sat_sub(content_width as int, (label.len() + spacer.len() + value.len()) as int);
    seq![
        (bar(), Style::BrightMagentaBold),
        (blank(), Style::Plain),
        (pad_right(logo_line, logo_width), logo_style(idx)),
        (blank(), Style::Plain),
        (bar(), Style::BrightMagentaBold),
        (blank() + spacer + blank() + label, Style::Plain),
        (value, named_style(color)),
        (spaces(padding), Style::Plain),
        (bar(), Style::BrightMagentaBold),
    ]
}

/// A border of the horizontal banner: `left`, a rule over the logo column, `mid`, a rule over
/// the content column, `right`.
pub open spec fn frame_view(
    left: Seq<char>,
    mid: Seq<char>,
    right: Seq<char>,
    logo_width: nat,
    content_width: nat,
) -> LineView {
    seq![
        (left + repeat(rule(), logo_width + 2) + mid + repeat(rule(), content_width + 2) + right,
        Style::BrightMagentaBold),
    ]
}

/// A border of the vertical banner.
pub open spec fn border_view(left: Seq<char>, right: Seq<char>, inner: nat) -> LineView {
    seq![(left + repeat(rule(), inner) + right, Style::BrightMagentaBold)]
}

/// An empty line inside the vertical box.
pub open spec fn separator_view(inner: nat) -> LineView {
    seq![(bar() + spaces(inner) + bar(), Style::BrightMagentaBold)]
}

/// Logo line `idx` centred in the vertical box.
pub open spec fn centred_logo_view(line: Seq<char>, idx: int, inner: nat) -> LineView {
    let room = sat_sub(inner as int, LOGO_WIDTH as int);
    let left = room / 2;
    let right = sat_sub(room as int, left as int);
    seq![
        (bar(), Style::BrightMagentaBold),
        (blank() + spaces(left) + blank(), Style::Plain),
        (line, logo_style(idx)),
        (spaces(right) + blank(), Style::Plain),
        (bar(), Style::BrightMagentaBold),
    ]
}

/// A label and its value, shortened to the room left by the label, in the vertical box.
pub open spec fn info_view(label: Seq<char>, value: Seq<char>, style: Style, inner: nat) -> LineView {
    let shown = spec_truncate(value, sat_sub(inner as int, 12));
    let padding = sat_sub(inner as int, (label.len() + shown.len()) as int);
    seq![
        (bar(), Style::BrightMagentaBold),
        (blank() + label, Style::Plain),
        (shown, style),
        (spaces(padding), Style::Plain),
        (bar(), Style::BrightMagentaBold),
    ]
}

/// The help hint centred in the vertical box.
pub open spec fn help_view(inner: nat) -> LineView {
    let room = sat_sub(inner as int, help_text().len() as int);
    let left = room / 2;
    let right = sat_sub(room as int, left as int);
    seq![
        (bar(), Style::BrightMagentaBold),
        (blank() + spaces(left), Style::Plain),
        (help_text(), Style::BrightPurple),
        (spaces(right) + blank(), Style::Plain),
        (bar(), Style::BrightMagentaBold),
    ]
}

/// The width inside the vertical box on a terminal `term_width` columns wide.
pub open spec fn inner_width(term_width: nat) -> nat {
    let box_width = sat_sub(if term_width < 50 { term_width as int } else { 50 }, 2);
    sat_sub(box_width as int, 2)
}

/// The width of the content column of the horizontal banner.
pub open spec fn content_width(term_width: nat) -> nat {
    let available = sat_sub(term_width as int, 18);
    if available < 40 {
        40
    } else if available > 80 {
        80
    } else {
        available
    }
}

/// The vertical banner, for terminals narrower than 80 columns.
pub open spec fn vertical_view(
    session: Seq<char>,
    model: Seq<char>,
    provider: Seq<char>,
    logo: Seq<Seq<char>>,
    term_width: nat,
) -> Seq<LineView> {
    let inner = inner_width(term_width);
    seq![border_view("╭"@, "╮"@, inner)] + Seq::new(
        logo.len(),
        |i: int| centred_logo_view(logo[i], i, inner),
    ) + seq![
        separator_view(inner),
        info_view(session_label(), session, Style::BrightMagentaBold, inner),
        info_view(model_label(), model, Style::BrightPurpleBold, inner),
        info_view(provider_label(), provider, Style::PurpleBold, inner),
        separator_view(inner),
        help_view(inner),
        border_view("╰"@, "╯"@, inner),
        Seq::empty(),
    ]
}

/// The horizontal banner, for terminals of 80 columns or more.
pub open spec fn horizontal_view(
    session: Seq<char>,
    model: Seq<char>,
    provider: Seq<char>,
    logo: Seq<Seq<char>>,
    term_width: nat,
) -> Seq<LineView> {
    let cw = content_width(term_width);
    let max_value = sat_sub(cw as int, 13);
    let lw = LOGO_WIDTH as nat;
    seq![
        frame_view("╭"@, "┬"@, "╮"@, lw, cw),
        row_view(0, logo, session_label(), session, "magenta1"@, lw, cw),
        row_view(1, logo, model_label(), spec_truncate(model, max_value), "purple"@, lw, cw),
        row_view(2, logo, provider_label(), spec_truncate(provider, max_value), "magenta"@, lw, cw),
        row_view(3, logo, Seq::empty(), help_text(), "violet"@, lw, cw),
        frame_view("╰"@, "┴"@, "╯"@, lw, cw),
        Seq::empty(),
    ]
}

/// The whole banner on a terminal `term_width` columns wide.
pub open spec fn banner_view(
    session: Seq<char>,
    model: Seq<char>,
    provider: Seq<char>,
    logo: Seq<Seq<char>>,
    term_width: nat,
) -> Seq<LineView> {
    if term_width < WIDE_TERMINAL {
        vertical_view(session, model, provider, logo, term_width)
    } else {
        horizontal_view(session, model, provider, logo, term_width)
    }
}

/// The logo lines as character sequences.
pub open spec fn logo_view(logo_lines: Seq<&str>) -> Seq<Seq<char>> {
    logo_lines.map_values(|l: &str| l@)
}

fn span(text: String, style: Style) -> (r: Span)
    ensures
        r.deep_view() == (text@, style),
{
    Span { text, style }
}

fn bar_span() -> (r: Span)
    ensures
        r.deep_view() == (bar(), Style::BrightMagentaBold),
{
    span("│".to_owned(), Style::BrightMagentaBold)
}

/// Logo line `idx` in its style: the first three lines bright magenta, the rest bright purple.
pub fn color_logo_line(line: &str, idx: usize) -> (r: Span)
    ensures
        r.deep_view() == (line@, logo_style(idx as int)),
        r.text@ == line@,
        idx < 3 ==> r.style == Style::BrightMagentaBold,
        idx >= 3 ==> r.style == Style::BrightPurpleBold,
{
    if idx < 3 {
        span(line.to_owned(), Style::BrightMagentaBold)
    } else {
        span(line.to_owned(), Style::BrightPurpleBold)
    }
}

/// The style that a colour name of a horizontal row stands for; unknown names are plain.
pub fn named_color(color: &str) -> (r: Style)
    ensures
        r == named_style(color@),
{
    if chars_eq(color, "magenta1") {
        Style::BrightMagentaBold
    } else if chars_eq(color, "purple") {
        Style::BrightPurpleBold
    } else if chars_eq(color, "magenta") {
        Style::BrightMagenta
    } else if chars_eq(color, "violet") {
        Style::Purple
    } else {
        Style::Plain
    }
}


/// A border of the horizontal banner.
fn frame_line(left: &str, mid: &str, right: &str, logo_width: usize, content_width: usize) -> (r: Vec<Span>)
    requires
        logo_width <= 1000,
        content_width <= 1000,
    ensures
        r.deep_view() == frame_view(left@, mid@, right@, logo_width as nat, content_width as nat),
{
    let mut t = left.to_owned();
    let a = repeat_str("─", logo_width + 2);
    t.append(a.as_str());
    t.append(mid);
    let b = repeat_str("─", content_width + 2);
    t.append(b.as_str());
    t.append(right);
    let mut r: Vec<Span> = Vec::new();
    r.push(span(t, Style::BrightMagentaBold));
    assert(r.deep_view() =~= frame_view(left@, mid@, right@, logo_width as nat, content_width as nat));
    r
}

/// Row `row_idx` of the horizontal banner: the logo line (blank where the logo has none)
/// padded to `logo_width`, the label, the value in the style that `color` names, and blanks up
/// to `content_width`.
pub fn banner_row(
    row_idx: usize,
    logo_lines: &[&str],
    label: &str,
    value: &str,
    color: &str,
    logo_width: usize,
    content_width: usize,
) -> (r: Vec<Span>)
    ensures
        r.deep_view() == row_view(
            row_idx as int,
            logo_view(logo_lines@),
            label@,
            value@,
            color@,
            logo_width as nat,
            content_width as nat,
        ),
{
    let logo_line: &str = if row_idx < logo_lines.len() {
        logo_lines[row_idx]
    } else {
        ""
    };
    proof {
        reveal_strlit("");
        reveal_strlit(" ");
    }
    let logo_styled = color_logo_line(pad_right_str(logo_line, logo_width).as_str(), row_idx);
    let value_style = named_color(color);
    let label_len = label.unicode_len();
    let value_len = value.unicode_len();
    let space_len: usize = if value_len > 0 {
        1
    } else {
        0
    };
    let total_len = label_len.saturating_add(space_len).saturating_add(value_len);
    let padding = content_width.saturating_sub(total_len);

    let mut head = " ".to_owned();
    if value_len > 0 {
        head.append(" ");
    }
    head.append(" ");
    head.append(label);

    let mut r: Vec<Span> = Vec::new();
    r.push(bar_span());
    r.push(span(" ".to_owned(), Style::Plain));
    r.push(logo_styled);
    r.push(span(" ".to_owned(), Style::Plain));
    r.push(bar_span());
    r.push(span(head, Style::Plain));
    r.push(span(value.to_owned(), value_style));
    r.push(span(spaces_str(padding), Style::Plain));
    r.push(bar_span());
    proof {
        let logo = logo_view(logo_lines@);
        if row_idx < logo_lines@.len() {
            assert(logo[row_idx as int] == logo_line@);
        } else {
            assert(logo_line@ =~= Seq::<char>::empty());
        }
        let spacer = if value@.len() > 0 { blank() } else { Seq::<char>::empty() };
        assert(head@ =~= blank() + spacer + blank() + label@);
    }
    assert(r.deep_view() =~= row_view(
        row_idx as int,
        logo_view(logo_lines@),
        label@,
        value@,
        color@,
        logo_width as nat,
        content_width as nat,
    ));
    r
}

/// A border of the vertical banner.
fn border_line(left: &str, right: &str, inner: usize) -> (r: Vec<Span>)
    ensures
        r.deep_view() == border_view(left@, right@, inner as nat),
{
    let mut t = left.to_owned();
    let a = repeat_str("─", inner);
    t.append(a.as_str());
    t.append(right);
    let mut r: Vec<Span> = Vec::new();
    r.push(span(t, Style::BrightMagentaBold));
    assert(r.deep_view() =~= border_view(left@, right@, inner as nat));
    r
}

/// An empty line inside the vertical box.
fn separator_line(inner: usize) -> (r: Vec<Span>)
    ensures
        r.deep_view() == separator_view(inner as nat),
{
    let mut t = "│".to_owned();
    let a = spaces_str(inner);
    t.append(a.as_str());
    t.append("│");
    let mut r: Vec<Span> = Vec::new();
    r.push(span(t, Style::BrightMagentaBold));
    assert(r.deep_view() =~= separator_view(inner as nat));
    r
}

/// Logo line `idx` centred in the vertical box.
fn centred_logo_line(line: &str, idx: usize, inner: usize) -> (r: Vec<Span>)
    ensures
        r.deep_view() == centred_logo_view(line@, idx as int, inner as nat),
{
    let room = inner.saturating_sub(LOGO_WIDTH);
    let left = room / 2;
    let right = room.saturating_sub(left);
    let mut l = " ".to_owned();
    let ls = spaces_str(left);
    l.append(ls.as_str());
    l.append(" ");
    let mut rt = spaces_str(right);
    rt.append(" ");
    let mut r: Vec<Span> = Vec::new();
    r.push(bar_span());
    r.push(span(l, Style::Plain));
    r.push(color_logo_line(line, idx));
    r.push(span(rt, Style::Plain));
    r.push(bar_span());
    assert(r.deep_view() =~= centred_logo_view(line@, idx as int, inner as nat));
    r
}

/// A label and its value, shortened to the room the label leaves, in the vertical box.
fn info_line(label: &str, value: &str, style: Style, inner: usize) -> (r: Vec<Span>)
    requires
        label@.len() == 12,
        truncatable(value@, sat_sub(inner as int, 12)),
    ensures
        r.deep_view() == info_view(label@, value@, style, inner as nat),
{
    let max_val_len = inner.saturating_sub(12);
    let shown = truncate(value, max_val_len);
    let total = label.unicode_len().saturating_add(shown.as_str().unicode_len());
    let padding = inner.saturating_sub(total);
    let mut l = " ".to_owned();
    l.append(label);
    let mut r: Vec<Span> = Vec::new();
    r.push(bar_span());
    r.push(span(l, Style::Plain));
    r.push(span(shown, style));
    r.push(span(spaces_str(padding), Style::Plain));
    r.push(bar_span());
    assert(r.deep_view() =~= info_view(label@, value@, style, inner as nat));
    r
}

/// The help hint centred in the vertical box.
fn help_line(inner: usize) -> (r: Vec<Span>)
    ensures
        r.deep_view() == help_view(inner as nat),
{
    let help = "Type /help for commands";
    let help_len = help.unicode_len();
    let room = inner.saturating_sub(help_len);
    let left = room / 2;
    let right = room.saturating_sub(left);
    let mut l = " ".to_owned();
    let ls = spaces_str(left);
    l.append(ls.as_str());
    let mut rt = spaces_str(right);
    rt.append(" ");
    let mut r: Vec<Span> = Vec::new();
    r.push(bar_span());
    r.push(span(l, Style::Plain));
    r.push(span(help.to_owned(), Style::BrightPurple));
    r.push(span(rt, Style::Plain));
    r.push(bar_span());
    assert(r.deep_view() =~= help_view(inner as nat));
    r
}

/// The inputs on which the banner can be laid out: on a narrow terminal, every value either
/// fits its line or leaves room for the three dots that shorten it.
pub open spec fn can_lay_out(
    session: Seq<char>,
    model: Seq<char>,
    provider: Seq<char>,
    term_width: nat,
) -> bool {
    term_width < WIDE_TERMINAL ==> {
        let room = sat_sub(inner_width(term_width) as int, 12);
        &&& truncatable(session, room)
        &&& truncatable(model, room)
        &&& truncatable(provider, room)
    }
}

/// The banner for a terminal `term_width` columns wide, line by line: a box stacked around the
/// centred logo, the session, model and provider and a help hint on terminals narrower than 80
/// columns; otherwise the logo beside those rows. The last line is empty.
pub fn banner_lines(info: &BannerInfo, logo_lines: &[&str], term_width: usize) -> (r: Vec<
    Vec<Span>,
>)
    requires
        can_lay_out(info.conversation_id@, info.model@, info.provider@, term_width as nat),
    ensures
        r.deep_view() == banner_view(
            info.conversation_id@,
            info.model@,
            info.provider@,
            logo_view(logo_lines@),
            term_width as nat,
        ),
        term_width >= WIDE_TERMINAL ==> r.deep_view()[1][6] == (
            info.conversation_id@,
            Style::BrightMagentaBold,
        ),
        term_width >= WIDE_TERMINAL ==> ({
            let room = (if term_width - 18 > 80 { 80 } else { term_width - 18 }) - 13;
            &&& r.deep_view()[2][6].0 == if info.model@.len() <= room {
                info.model@
            } else {
                info.model@.take(room - 3) + seq!['.', '.', '.']
            }
            &&& r.deep_view()[3][6].0 == if info.provider@.len() <= room {
                info.provider@
            } else {
                info.provider@.take(room - 3) + seq!['.', '.', '.']
            }
        }),
        term_width < WIDE_TERMINAL ==> ({
            let n = logo_lines@.len() as int;
            let room = sat_sub(if term_width < 50 { term_width as int } else { 50 }, 16);
            &&& r.deep_view()[n + 2][2].0 == if info.conversation_id@.len() <= room {
                info.conversation_id@
            } else {
                info.conversation_id@.take(room - 3) + seq!['.', '.', '.']
            }
            &&& r.deep_view()[n + 3][2].0 == if info.model@.len() <= room {
                info.model@
            } else {
                info.model@.take(room - 3) + seq!['.', '.', '.']
            }
            &&& r.deep_view()[n + 4][2].0 == if info.provider@.len() <= room {
                info.provider@
            } else {
                info.provider@.take(room - 3) + seq!['.', '.', '.']
            }
        }),
{
    let ghost logo = logo_view(logo_lines@);
    let mut lines: Vec<Vec<Span>> = Vec::new();
    proof {
        reveal_strlit(" ● Session: ");
        reveal_strlit(" ● Model:   ");
        reveal_strlit(" ● Provider:");
        reveal_strlit("");
    }
    if term_width < WIDE_TERMINAL {
        let box_width = term_width.min(50).saturating_sub(2);
        let inner = box_width.saturating_sub(2);
        assert(inner == inner_width(term_width as nat));
        lines.push(border_line("╭", "╮", inner));
        let mut i: usize = 0;
        while i < logo_lines.len()
            invariant
                i <= logo_lines@.len(),
                logo == logo_view(logo_lines@),
                inner == inner_width(term_width as nat),
                lines.deep_view() == seq![border_view("╭"@, "╮"@, inner as nat)] + Seq::new(
                    i as nat,
                    |k: int| centred_logo_view(logo[k], k, inner as nat),
                ),
            decreases logo_lines@.len() - i,
        {
            let ghost before = lines.deep_view();
            lines.push(centred_logo_line(logo_lines[i], i, inner));
            assert(lines.deep_view() =~~= seq![border_view("╭"@, "╮"@, inner as nat)] + Seq::new(
                (i + 1) as nat,
                |k: int| centred_logo_view(logo[k], k, inner as nat),
            )) by {
                assert(lines.deep_view() =~~= before.push(centred_logo_view(logo[i as int], i as int, inner as nat)));
            }
            i = i + 1;
        }
        let ghost head = lines.deep_view();
        lines.push(separator_line(inner));
        lines.push(info_line(" ● Session: ", info.conversation_id.as_str(), Style::BrightMagentaBold, inner));
        lines.push(info_line(" ● Model:   ", info.model.as_str(), Style::BrightPurpleBold, inner));
        lines.push(info_line(" ● Provider:", info.provider.as_str(), Style::PurpleBold, inner));
        lines.push(separator_line(inner));
        lines.push(help_line(inner));
        lines.push(border_line("╰", "╯", inner));
        lines.push(Vec::new());
        assert(lines.deep_view() =~~= head + seq![
            separator_view(inner as nat),
            info_view(session_label(), info.conversation_id@, Style::BrightMagentaBold, inner as nat),
            info_view(model_label(), info.model@, Style::BrightPurpleBold, inner as nat),
            info_view(provider_label(), info.provider@, Style::PurpleBold, inner as nat),
            separator_view(inner as nat),
            help_view(inner as nat),
            border_view("╰"@, "╯"@, inner as nat),
            Seq::empty(),
        ]);
        assert(logo_lines@.len() == logo.len());
        assert(lines.deep_view() =~~= vertical_view(
            info.conversation_id@,
            info.model@,
            info.provider@,
            logo,
            term_width as nat,
        ));
        proof {
            lemma_narrow_banner_values(
                info.conversation_id@,
                info.model@,
                info.provider@,
                logo,
                term_width as nat,
            );
        }
        return lines;
    }
    let available = term_width.saturating_sub(18);
    let cw: usize = if available < 40 {
        40
    } else if available > 80 {
        80
    } else {
        available
    };
    assert(cw == content_width(term_width as nat));
    let max_value_len = cw.saturating_sub(13);
    let model_display = truncate(info.model.as_str(), max_value_len);
    let provider_display = truncate(info.provider.as_str(), max_value_len);
    lines.push(frame_line("╭", "┬", "╮", LOGO_WIDTH, cw));
    lines.push(banner_row(0, logo_lines, " ● Session: ", info.conversation_id.as_str(), "magenta1", LOGO_WIDTH, cw));
    lines.push(banner_row(1, logo_lines, " ● Model:   ", model_display.as_str(), "purple", LOGO_WIDTH, cw));
    lines.push(banner_row(2, logo_lines, " ● Provider:", provider_display.as_str(), "magenta", LOGO_WIDTH, cw));
    proof {
        reveal_strlit("Type /help for commands");
    }
    lines.push(banner_row(3, logo_lines, "", "Type /help for commands", "violet", LOGO_WIDTH, cw));
    lines.push(frame_line("╰", "┴", "╯", LOGO_WIDTH, cw));
    lines.push(Vec::new());
    assert(lines.deep_view() =~~= horizontal_view(
        info.conversation_id@,
        info.model@,
        info.provider@,
        logo,
        term_width as nat,
    ));
    proof {
        lemma_wide_banner_values(
            info.conversation_id@,
            info.model@,
            info.provider@,
            logo,
            term_width as nat,
        );
    }
    lines
}

/// Whether `banner_lines` can lay out `info` on a terminal `term_width` columns wide (see
/// `can_lay_out`); where it cannot, a value would have to be shortened to fewer than three
/// characters.
pub fn fits_layout(info: &BannerInfo, term_width: usize) -> (r: bool)
    ensures
        r == can_lay_out(info.conversation_id@, info.model@, info.provider@, term_width as nat),
        r == (term_width >= WIDE_TERMINAL || sat_sub(
            if term_width < 50 { term_width as int } else { 50 },
            16,
        ) >= 3 || ({
            let room = sat_sub(if term_width < 50 { term_width as int } else { 50 }, 16);
            &&& info.conversation_id@.len() <= room
            &&& info.model@.len() <= room
            &&& info.provider@.len() <= room
        })),
{
    proof {
        lemma_when_layout_is_possible(
            info.conversation_id@,
            info.model@,
            info.provider@,
            term_width as nat,
        );
    }
    let session_len = info.conversation_id.as_str().unicode_len();
    let model_len = info.model.as_str().unicode_len();
    let provider_len = info.provider.as_str().unicode_len();
    if term_width < WIDE_TERMINAL {
        let room = term_width.min(50).saturating_sub(2).saturating_sub(2).saturating_sub(12);
        if room < 3 {
            return session_len <= room && model_len <= room && provider_len <= room;
        }
    }
    true
}

} // verus!
