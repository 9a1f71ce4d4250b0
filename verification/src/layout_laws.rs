use vstd::prelude::*;
use crate::banner::{
    banner_view, bar, blank, content_width, help_text, logo_style, model_label, named_style,
    provider_label, rule, row_view, frame_view, session_label, LineView, Style, LOGO_WIDTH,
    WIDE_TERMINAL, border_view, separator_view, centred_logo_view, info_view, help_view,
    inner_width, vertical_view,
};
use crate::banner::can_lay_out;
use crate::text::{lemma_truncate_shape, lemma_repeat_len, pad_right, repeat, sat_sub, spaces, spec_truncate, truncatable};

verus! {

/// How many characters a line of the banner takes on the screen.
pub open spec fn line_width(line: LineView) -> nat
    decreases line.len(),
{
    if line.len() == 0 {
        0
    } else {
        line[0].0.len() + line_width(line.drop_first())
    }
}

proof fn lemma_width_1(a: (Seq<char>, Style))
    ensures
        line_width(seq![a]) == a.0.len(),
{
    assert(seq![a].drop_first() =~= Seq::<(Seq<char>, Style)>::empty());
    assert(line_width(seq![a].drop_first()) == 0);
}

proof fn lemma_width_step(line: LineView)
    requires
        line.len() > 0,
    ensures
        line_width(line) == line[0].0.len() + line_width(line.drop_first()),
{
}

proof fn lemma_width_5(
    a: (Seq<char>, Style),
    b: (Seq<char>, Style),
    c: (Seq<char>, Style),
    d: (Seq<char>, Style),
    e: (Seq<char>, Style),
)
    ensures
        line_width(seq![a, b, c, d, e]) == a.0.len() + b.0.len() + c.0.len() + d.0.len() + e.0.len(),
{
    assert(seq![a, b, c, d, e].drop_first() =~= seq![b, c, d, e]);
    assert(seq![b, c, d, e].drop_first() =~= seq![c, d, e]);
    assert(seq![c, d, e].drop_first() =~= seq![d, e]);
    assert(seq![d, e].drop_first() =~= seq![e]);
    lemma_width_1(e);
    lemma_width_step(seq![d, e]);
    lemma_width_step(seq![c, d, e]);
    lemma_width_step(seq![b, c, d, e]);
    lemma_width_step(seq![a, b, c, d, e]);
}

proof fn lemma_width_9(
    a: (Seq<char>, Style),
    b: (Seq<char>, Style),
    c: (Seq<char>, Style),
    d: (Seq<char>, Style),
    e: (Seq<char>, Style),
    f: (Seq<char>, Style),
    g: (Seq<char>, Style),
    h: (Seq<char>, Style),
    i: (Seq<char>, Style),
)
    ensures
        line_width(seq![a, b, c, d, e, f, g, h, i]) == a.0.len() + b.0.len() + c.0.len() + d.0.len()
            + e.0.len() + f.0.len() + g.0.len() + h.0.len() + i.0.len(),
{
    assert(seq![a, b, c, d, e, f, g, h, i].drop_first() =~= seq![b, c, d, e, f, g, h, i]);
    assert(seq![b, c, d, e, f, g, h, i].drop_first() =~= seq![c, d, e, f, g, h, i]);
    assert(seq![c, d, e, f, g, h, i].drop_first() =~= seq![d, e, f, g, h, i]);
    assert(seq![d, e, f, g, h, i].drop_first() =~= seq![e, f, g, h, i]);
    lemma_width_5(e, f, g, h, i);
    lemma_width_step(seq![d, e, f, g, h, i]);
    lemma_width_step(seq![c, d, e, f, g, h, i]);
    lemma_width_step(seq![b, c, d, e, f, g, h, i]);
    lemma_width_step(seq![a, b, c, d, e, f, g, h, i]);
}

proof fn lemma_glyph_lengths()
    ensures
        bar().len() == 1,
        blank().len() == 1,
        rule().len() == 1,
        "╭"@.len() == 1,
        "╮"@.len() == 1,
        "╰"@.len() == 1,
        "╯"@.len() == 1,
        "┬"@.len() == 1,
        "┴"@.len() == 1,
        session_label().len() == 12,
        model_label().len() == 12,
        provider_label().len() == 12,
        help_text().len() == 23,
{
    reveal_strlit("│");
    reveal_strlit(" ");
    reveal_strlit("─");
    reveal_strlit("╭");
    reveal_strlit("╮");
    reveal_strlit("╰");
    reveal_strlit("╯");
    reveal_strlit("┬");
    reveal_strlit("┴");
    reveal_strlit(" ● Session: ");
    reveal_strlit(" ● Model:   ");
    reveal_strlit(" ● Provider:");
    reveal_strlit("Type /help for commands");
}

proof fn lemma_spaces_len(n: nat)
    ensures
        spaces(n).len() == n,
{
    lemma_repeat_len(seq![' '], n);
}

proof fn lemma_rule_len(n: nat)
    ensures
        repeat(rule(), n).len() == n,
{
    lemma_glyph_lengths();
    lemma_repeat_len(rule(), n);
}

proof fn lemma_row_width(
    idx: int,
    logo: Seq<Seq<char>>,
    label: Seq<char>,
    value: Seq<char>,
    color: Seq<char>,
    cw: nat,
)
    requires
        forall|k: int| 0 <= k < logo.len() ==> #[trigger] logo[k].len() <= LOGO_WIDTH,
        label.len() + 1 + value.len() <= cw,
    ensures
        line_width(row_view(idx, logo, label, value, color, LOGO_WIDTH as nat, cw)) == cw + 18,
{
    lemma_glyph_lengths();
    let logo_line = if 0 <= idx < logo.len() {
        logo[idx]
    } else {
        Seq::empty()
    };
    let spacer = if value.len() > 0 {
        blank()
    } else {
        Seq::<char>::empty()
    };
    let padding = sat_sub(cw as int, (label.len() + spacer.len() + value.len()) as int);
    lemma_spaces_len(padding);
    lemma_spaces_len((LOGO_WIDTH - logo_line.len()) as nat);
    assert(pad_right(logo_line, LOGO_WIDTH as nat).len() == LOGO_WIDTH);
    lemma_width_9(
        (bar(), Style::BrightMagentaBold),
        (blank(), Style::Plain),
        (pad_right(logo_line, LOGO_WIDTH as nat), logo_style(idx)),
        (blank(), Style::Plain),
        (bar(), Style::BrightMagentaBold),
        (blank() + spacer + blank() + label, Style::Plain),
        (value, named_style(color)),
        (spaces(padding), Style::Plain),
        (bar(), Style::BrightMagentaBold),
    );
}

proof fn lemma_frame_width(left: Seq<char>, mid: Seq<char>, right: Seq<char>, cw: nat)
    requires
        left.len() == 1,
        mid.len() == 1,
        right.len() == 1,
    ensures
        line_width(frame_view(left, mid, right, LOGO_WIDTH as nat, cw)) == cw + 18,
{
    lemma_rule_len(LOGO_WIDTH as nat + 2);
    lemma_rule_len(cw + 2);
    lemma_width_1(
        (left + repeat(rule(), LOGO_WIDTH as nat + 2) + mid + repeat(rule(), cw + 2) + right,
        Style::BrightMagentaBold),
    );
}

/// On a terminal of 80 columns or more the banner is a closed rectangle: every line but the
/// trailing empty one is as wide as the frame, `content_width + 18` characters, and that
/// width never exceeds the terminal, provided the logo lines are at most 11 characters and
/// the session id (which is not shortened) fits the content column.
pub proof fn lemma_wide_banner_is_rectangle(
    session: Seq<char>,
    model: Seq<char>,
    provider: Seq<char>,
    logo: Seq<Seq<char>>,
    term_width: nat,
)
    requires
        term_width >= WIDE_TERMINAL,
        forall|k: int| 0 <= k < logo.len() ==> #[trigger] logo[k].len() <= LOGO_WIDTH,
        session.len() + 13 <= content_width(term_width),
    ensures
        ({
            let lines = banner_view(session, model, provider, logo, term_width);
            &&& lines.len() == 7
            &&& forall|i: int|
                0 <= i < 6 ==> #[trigger] line_width(lines[i]) == content_width(term_width) + 18
            &&& content_width(term_width) + 18 <= term_width
            &&& lines[6].len() == 0
        }),
{
    lemma_glyph_lengths();
    let cw = content_width(term_width);
    let max_value = sat_sub(cw as int, 13);
    let lines = banner_view(session, model, provider, logo, term_width);
    let shown_model = spec_truncate(model, max_value);
    let shown_provider = spec_truncate(provider, max_value);
    assert(shown_model.len() <= max_value);
    assert(shown_provider.len() <= max_value);
    lemma_frame_width("╭"@, "┬"@, "╮"@, cw);
    lemma_frame_width("╰"@, "┴"@, "╯"@, cw);
    lemma_row_width(0, logo, session_label(), session, "magenta1"@, cw);
    lemma_row_width(1, logo, model_label(), shown_model, "purple"@, cw);
    lemma_row_width(2, logo, provider_label(), shown_provider, "magenta"@, cw);
    lemma_row_width(3, logo, Seq::empty(), help_text(), "violet"@, cw);
    assert forall|i: int| 0 <= i < 6 implies #[trigger] line_width(lines[i]) == cw + 18 by {
        if i == 0 {
        } else if i == 1 {
        } else if i == 2 {
        } else if i == 3 {
        } else if i == 4 {
        } else {
        }
    }
}

proof fn lemma_border_width(left: Seq<char>, right: Seq<char>, inner: nat)
    requires
        left.len() == 1,
        right.len() == 1,
    ensures
        line_width(border_view(left, right, inner)) == inner + 2,
{
    lemma_rule_len(inner);
    lemma_width_1((left + repeat(rule(), inner) + right, Style::BrightMagentaBold));
}

proof fn lemma_separator_width(inner: nat)
    ensures
        line_width(separator_view(inner)) == inner + 2,
{
    lemma_glyph_lengths();
    lemma_spaces_len(inner);
    lemma_width_1((bar() + spaces(inner) + bar(), Style::BrightMagentaBold));
}

proof fn lemma_centred_logo_width(line: Seq<char>, idx: int, inner: nat)
    requires
        inner >= LOGO_WIDTH,
    ensures
        line_width(centred_logo_view(line, idx, inner)) + 6 == inner + line.len(),
{
    lemma_glyph_lengths();
    let room = sat_sub(inner as int, LOGO_WIDTH as int);
    let left = room / 2;
    let right = sat_sub(room as int, left as int);
    lemma_spaces_len(left);
    lemma_spaces_len(right);
    lemma_width_5(
        (bar(), Style::BrightMagentaBold),
        (blank() + spaces(left) + blank(), Style::Plain),
        (line, logo_style(idx)),
        (spaces(right) + blank(), Style::Plain),
        (bar(), Style::BrightMagentaBold),
    );
}

proof fn lemma_info_width(label: Seq<char>, value: Seq<char>, style: Style, inner: nat)
    requires
        label.len() == 12,
        inner >= 12,
        truncatable(value, sat_sub(inner as int, 12)),
    ensures
        line_width(info_view(label, value, style, inner)) == inner + 3,
{
    lemma_glyph_lengths();
    let shown = spec_truncate(value, sat_sub(inner as int, 12));
    let padding = sat_sub(inner as int, (label.len() + shown.len()) as int);
    lemma_spaces_len(padding);
    lemma_width_5(
        (bar(), Style::BrightMagentaBold),
        (blank() + label, Style::Plain),
        (shown, style),
        (spaces(padding), Style::Plain),
        (bar(), Style::BrightMagentaBold),
    );
}

proof fn lemma_help_width(inner: nat)
    requires
        inner >= 23,
    ensures
        line_width(help_view(inner)) == inner + 4,
{
    lemma_glyph_lengths();
    let room = sat_sub(inner as int, help_text().len() as int);
    let left = room / 2;
    let right = sat_sub(room as int, left as int);
    lemma_spaces_len(left);
    lemma_spaces_len(right);
    lemma_width_5(
        (bar(), Style::BrightMagentaBold),
        (blank() + spaces(left), Style::Plain),
        (help_text(), Style::BrightPurple),
        (spaces(right) + blank(), Style::Plain),
        (bar(), Style::BrightMagentaBold),
    );
}

/// On a terminal from 27 to 79 columns wide the banner is stacked in a box `inner + 2`
/// characters wide, where `inner` is `min(term_width, 50) - 4`: the borders and separators are
/// exactly that wide, the info lines one more, the help line two more, and logo line `k`
/// `logo[k].len() - 6` more than `inner`. So every line fits the terminal except a logo line
/// that is too long for it (an 11-character logo line overflows by one column on terminals of
/// 50 columns or fewer).
pub proof fn lemma_narrow_banner_widths(
    session: Seq<char>,
    model: Seq<char>,
    provider: Seq<char>,
    logo: Seq<Seq<char>>,
    term_width: nat,
)
    requires
        27 <= term_width < WIDE_TERMINAL,
        can_lay_out(session, model, provider, term_width),
    ensures
        ({
            let lines = banner_view(session, model, provider, logo, term_width);
            let inner = inner_width(term_width);
            let n = logo.len() as int;
            &&& inner + 4 == if term_width < 50 { term_width } else { 50 }
            &&& lines.len() == n + 9
            &&& line_width(lines[0]) == inner + 2
            &&& forall|k: int| 0 <= k < n ==> #[trigger] line_width(lines[k + 1]) + 6 == inner + logo[k].len()
            &&& line_width(lines[n + 1]) == inner + 2
            &&& line_width(lines[n + 2]) == inner + 3
            &&& line_width(lines[n + 3]) == inner + 3
            &&& line_width(lines[n + 4]) == inner + 3
            &&& line_width(lines[n + 5]) == inner + 2
            &&& line_width(lines[n + 6]) == inner + 4
            &&& line_width(lines[n + 7]) == inner + 2
            &&& lines[n + 8].len() == 0
            &&& (forall|k: int| 0 <= k < n ==> #[trigger] logo[k].len() + inner <= term_width + 6)
                ==> forall|i: int| 0 <= i < lines.len() ==> #[trigger] line_width(lines[i]) <= term_width
        }),
{
    lemma_glyph_lengths();
    let lines = banner_view(session, model, provider, logo, term_width);
    let inner = inner_width(term_width);
    let n = logo.len() as int;
    let rows = Seq::new(logo.len(), |i: int| centred_logo_view(logo[i], i, inner));
    let tail = seq![
        separator_view(inner),
        info_view(session_label(), session, Style::BrightMagentaBold, inner),
        info_view(model_label(), model, Style::BrightPurpleBold, inner),
        info_view(provider_label(), provider, Style::PurpleBold, inner),
        separator_view(inner),
        help_view(inner),
        border_view("╰"@, "╯"@, inner),
        Seq::<(Seq<char>, Style)>::empty(),
    ];
    assert(lines == seq![border_view("╭"@, "╮"@, inner)] + rows + tail);
    lemma_border_width("╭"@, "╮"@, inner);
    lemma_border_width("╰"@, "╯"@, inner);
    lemma_separator_width(inner);
    lemma_info_width(session_label(), session, Style::BrightMagentaBold, inner);
    lemma_info_width(model_label(), model, Style::BrightPurpleBold, inner);
    lemma_info_width(provider_label(), provider, Style::PurpleBold, inner);
    lemma_help_width(inner);
    assert forall|k: int| 0 <= k < n implies #[trigger] line_width(lines[k + 1]) + 6 == inner + logo[k].len() by {
        assert(lines[k + 1] == rows[k]);
        lemma_centred_logo_width(logo[k], k, inner);
    }
    assert(lines[n + 1] == tail[0]);
    assert(lines[n + 2] == tail[1]);
    assert(lines[n + 3] == tail[2]);
    assert(lines[n + 4] == tail[3]);
    assert(lines[n + 5] == tail[4]);
    assert(lines[n + 6] == tail[5]);
    assert(lines[n + 7] == tail[6]);
    assert(lines[n + 8] == tail[7]);
    if forall|k: int| 0 <= k < n ==> #[trigger] logo[k].len() + inner <= term_width + 6 {
        assert forall|i: int| 0 <= i < lines.len() implies #[trigger] line_width(lines[i]) <= term_width by {
            if 1 <= i <= n {
                assert(line_width(lines[(i - 1) + 1]) + 6 == inner + logo[i - 1].len());
            } else if i == n + 8 {
                assert(line_width(lines[i]) == 0);
            }
        }
    }
}

proof fn lemma_colour_names()
    ensures
        named_style("magenta1"@) == Style::BrightMagentaBold,
        named_style("purple"@) == Style::BrightPurpleBold,
        named_style("magenta"@) == Style::BrightMagenta,
        named_style("violet"@) == Style::Purple,
{
    reveal_strlit("magenta1");
    reveal_strlit("purple");
    reveal_strlit("magenta");
    reveal_strlit("violet");
    assert("magenta1"@.len() == 8);
    assert("purple"@.len() == 6);
    assert("magenta"@.len() == 7);
    assert("violet"@.len() == 6);
    assert("purple"@ != "magenta1"@);
    assert("magenta"@ != "magenta1"@);
    assert("magenta"@ != "purple"@);
    assert("violet"@ != "magenta1"@);
    assert("violet"@[0] != "purple"@[0]);
    assert("violet"@ != "purple"@);
    assert("violet"@ != "magenta"@);
}

/// Logo lines 0 to 2 are bright magenta, every later one bright purple.
pub proof fn lemma_logo_line_styles(idx: int)
    requires
        idx >= 0,
    ensures
        idx < 3 ==> logo_style(idx) == Style::BrightMagentaBold,
        idx >= 3 ==> logo_style(idx) == Style::BrightPurpleBold,
{
}

/// The values shown on a terminal of 80 columns or more: the session id whole, in bright
/// magenta; the model (bright purple) and the provider (bright magenta) whole where they fit the
/// `content_width - 13` columns left beside their labels, and otherwise cut to that many
/// characters, their first `content_width - 16` followed by three dots; the help hint in purple.
/// The logo column shows logo lines 0 to 3, the first three bright magenta, the fourth bright
/// purple.
pub proof fn lemma_wide_banner_values(
    session: Seq<char>,
    model: Seq<char>,
    provider: Seq<char>,
    logo: Seq<Seq<char>>,
    term_width: nat,
)
    requires
        term_width >= WIDE_TERMINAL,
    ensures
        ({
            let lines = banner_view(session, model, provider, logo, term_width);
            let room = content_width(term_width) - 13;
            &&& room >= 27
            &&& lines[1][6] == (session, Style::BrightMagentaBold)
            &&& lines[2][6] == (
                if model.len() <= room {
                    model
                } else {
                    model.take(room - 3) + seq!['.', '.', '.']
                },
                Style::BrightPurpleBold,
            )
            &&& lines[3][6] == (
                if provider.len() <= room {
                    provider
                } else {
                    provider.take(room - 3) + seq!['.', '.', '.']
                },
                Style::BrightMagenta,
            )
            &&& lines[4][6] == (help_text(), Style::Purple)
            &&& forall|k: int| 0 <= k < 3 ==> #[trigger] lines[k + 1][2].1 == Style::BrightMagentaBold
            &&& lines[4][2].1 == Style::BrightPurpleBold
            &&& forall|k: int|
                0 <= k < 4 && k < logo.len() && logo[k].len() >= LOGO_WIDTH ==> #[trigger] lines[k
                    + 1][2].0 == logo[k]
        }),
{
    let cw = content_width(term_width);
    let room = sat_sub(cw as int, 13);
    lemma_truncate_shape(model, room);
    lemma_truncate_shape(provider, room);
    let lines = banner_view(session, model, provider, logo, term_width);
    if model.len() > room {
        assert(spec_truncate(model, room) =~= model.take(room - 3) + seq!['.', '.', '.']);
    }
    if provider.len() > room {
        assert(spec_truncate(provider, room) =~= provider.take(room - 3) + seq!['.', '.', '.']);
    }
    lemma_colour_names();
    assert(room >= 27);
    assert(lines[1][6] == (session, Style::BrightMagentaBold));
    assert(lines[2][6].1 == Style::BrightPurpleBold);
    assert(lines[2][6].0 == spec_truncate(model, room));
    assert(lines[3][6].0 == spec_truncate(provider, room));
    assert(lines[4][6] == (help_text(), Style::Purple));
    assert(lines[4][2].1 == Style::BrightPurpleBold);
    assert forall|k: int| 0 <= k < 3 implies #[trigger] lines[k + 1][2].1 == Style::BrightMagentaBold by {
        if k == 0 {
        } else if k == 1 {
        } else {
        }
    }
    assert forall|k: int|
        0 <= k < 4 && k < logo.len() && logo[k].len() >= LOGO_WIDTH implies #[trigger] lines[k
            + 1][2].0 == logo[k] by {
        if k == 0 {
        } else if k == 1 {
        } else if k == 2 {
        } else {
        }
    }
}

/// The values shown on a terminal narrower than 80 columns, with `n` logo lines: lines
/// `n + 2`, `n + 3` and `n + 4` show the session (bright magenta), the model (bright purple
/// bold) and the provider (purple bold), each whole where it fits the room that its label leaves,
/// `min(term_width, 50) - 16` columns, and otherwise cut to exactly that many characters, its
/// first `room - 3` followed by three dots. Logo line `k` is shown whole on line `k + 1`, bright
/// magenta for the first three lines and bright purple after.
#[verifier::rlimit(40)]
pub proof fn lemma_narrow_banner_values(
    session: Seq<char>,
    model: Seq<char>,
    provider: Seq<char>,
    logo: Seq<Seq<char>>,
    term_width: nat,
)
    requires
        term_width < WIDE_TERMINAL,
        can_lay_out(session, model, provider, term_width),
    ensures
        ({
            let lines = banner_view(session, model, provider, logo, term_width);
            let n = logo.len() as int;
            let room = sat_sub(if term_width < 50 { term_width as int } else { 50 }, 16);
            &&& lines[n + 2][2] == (
                if session.len() <= room {
                    session
                } else {
                    session.take(room - 3) + seq!['.', '.', '.']
                },
                Style::BrightMagentaBold,
            )
            &&& lines[n + 3][2] == (
                if model.len() <= room {
                    model
                } else {
                    model.take(room - 3) + seq!['.', '.', '.']
                },
                Style::BrightPurpleBold,
            )
            &&& lines[n + 4][2] == (
                if provider.len() <= room {
                    provider
                } else {
                    provider.take(room - 3) + seq!['.', '.', '.']
                },
                Style::PurpleBold,
            )
            &&& forall|k: int| 0 <= k < n ==> #[trigger] lines[k + 1][2] == (
                logo[k],
                if k < 3 {
                    Style::BrightMagentaBold
                } else {
                    Style::BrightPurpleBold
                },
            )
        }),
{
    let inner = inner_width(term_width);
    let room = sat_sub(inner as int, 12);
    assert(room == sat_sub(if term_width < 50 { term_width as int } else { 50 }, 16));
    lemma_truncate_shape(session, room);
    lemma_truncate_shape(model, room);
    lemma_truncate_shape(provider, room);
    if session.len() > room {
        assert(spec_truncate(session, room) =~= session.take(room - 3) + seq!['.', '.', '.']);
    }
    if model.len() > room {
        assert(spec_truncate(model, room) =~= model.take(room - 3) + seq!['.', '.', '.']);
    }
    if provider.len() > room {
        assert(spec_truncate(provider, room) =~= provider.take(room - 3) + seq!['.', '.', '.']);
    }
    let lines = banner_view(session, model, provider, logo, term_width);
    let n = logo.len() as int;
    let rows = Seq::new(logo.len(), |i: int| centred_logo_view(logo[i], i, inner));
    let tail = seq![
        separator_view(inner),
        info_view(session_label(), session, Style::BrightMagentaBold, inner),
        info_view(model_label(), model, Style::BrightPurpleBold, inner),
        info_view(provider_label(), provider, Style::PurpleBold, inner),
        separator_view(inner),
        help_view(inner),
        border_view("╰"@, "╯"@, inner),
        Seq::<(Seq<char>, Style)>::empty(),
    ];
    assert(lines == seq![border_view("╭"@, "╮"@, inner)] + rows + tail);
    assert(lines[n + 2] == tail[1]);
    assert(lines[n + 3] == tail[2]);
    assert(lines[n + 4] == tail[3]);
    assert forall|k: int| 0 <= k < n implies #[trigger] lines[k + 1][2] == (
        logo[k],
        if k < 3 {
            Style::BrightMagentaBold
        } else {
            Style::BrightPurpleBold
        },
    ) by {
        assert(lines[k + 1] == rows[k]);
    }
}

/// When the banner can be laid out: always on a terminal of 80 columns or more, and on a
/// narrower one whenever the room beside the labels, `min(term_width, 50) - 16` columns, leaves
/// space for the three dots; with less room, only when every value fits it whole.
pub proof fn lemma_when_layout_is_possible(
    session: Seq<char>,
    model: Seq<char>,
    provider: Seq<char>,
    term_width: nat,
)
    ensures
        ({
            let room = sat_sub(if term_width < 50 { term_width as int } else { 50 }, 16);
            can_lay_out(session, model, provider, term_width) <==> (term_width >= WIDE_TERMINAL
                || room >= 3 || (session.len() <= room && model.len() <= room && provider.len()
                <= room))
        }),
{
}

} // verus!
