//! Scenes: what stands where on the screen, overlay by overlay.
use vstd::prelude::*;

use crate::render::dialogs::{
    conflict_lines, conflict_scene, help_scene, quit_lines, quit_scene, skill_lines, skill_scene,
    PlacesView,
};
use crate::render::frame::{
    breadcrumb, divided, footer_centre, hint_spans, modal_scene, skill_hint, Division,
};
use crate::render::glyphs::{host_label, toast_color};
use crate::render::layout::inside;
use crate::render::notices::{
    notice_draw, notice_offset, notices_scene, notices_shown, toast_card, toast_cards, toast_line,
    toast_rect, toasts_scene,
};
use crate::render::paint::{DrawView, Ink, Rect};
use crate::render::panels::{info_scene, setting_rows, settings_scene, StackInfoView};
use crate::render::sidebar::{more_draw, says_more, stack_draws, stacks_scroll, stacks_shown};
use crate::render::viewport::{logs_scene, no_logs_text, styled_logs};
use crate::protocol::StateView;
use crate::state::scroll::{page, window};
use crate::state::settings::setting;
use crate::state::{
    ConflictView, NoticesView, SettingsView, SkillPrompt, SkillView, ToastView, TuiView,
};
use crate::text::laws::{free_of, pieces_stand_between_separators};
use crate::text::{decimal, pieces};
use crate::theme::{truncated, Palette};

verus! {

// ── what is on top ──────────────────────────────────────────────────────

/// Law: one overlay is drawn over the dashboard, the first of these that is up: the
/// port conflict, the skill prompt, the question whether to quit, the settings,
/// the stack's details, the notices, the help. Nothing is drawn where none is.
pub proof fn one_overlay_is_drawn(
    v: TuiView,
    area: Rect,
    info: Option<StackInfoView>,
    places: PlacesView,
    ages: Seq<u64>,
)
    ensures
        ({
            let scene = modal_scene(v, area, info, places, ages);
            let m = v.modals;
            let p = v.session.palette;
            let conflict = m.port_conflict is Some;
            let skill = conflict || m.skill_dialog is Some;
            let quit = skill || m.quit_confirm;
            let settings = quit || m.settings is Some;
            let details = settings || info is Some;
            let notices = details || v.notices.visible;
            &&& conflict ==> scene == conflict_scene(area, m.port_conflict->0)
            &&& skill && !conflict ==> scene == skill_scene(area, m.skill_dialog->0, places)
            &&& quit && !skill ==> scene == quit_scene(area, p)
            &&& settings && !quit ==> scene == settings_scene(
                area,
                p,
                m.settings->0,
            )
            &&& details && !settings ==> scene == info_scene(area, p, info->0)
            &&& notices && !details ==> scene == notices_scene(area, p, v.notices, ages)
            &&& !notices && m.help_visible ==> scene == help_scene(area)
            &&& !notices && !m.help_visible ==> scene.len() == 0
        }),
{
}

/// Law: copy mode and the zoomed logs fill the screen; otherwise the stopped screen
/// does while everything is stopped, and else the dashboard is shown.
pub proof fn the_screen_is_one_of_three(v: TuiView, area: Rect, d: Division)
    requires
        divided(v, area, d),
    ensures
        d is Full <==> v.layout.copy_mode || v.layout.zoom,
        d is Whole <==> !v.layout.copy_mode && !v.layout.zoom && v.session.stopped,
        d is Dashboard <==> !v.layout.copy_mode && !v.layout.zoom && !v.session.stopped,
{
}

/// Law: the footer names the stack, or the shared row, and behind it the selected
/// service, or a dash.
pub proof fn the_footer_says_where(v: TuiView)
    ensures
        ({
            let place = if v.stacks.shared_selected {
                "shared"@
            } else {
                match v.stacks.current() {
                    Some(row) => row.info.label,
                    None => Seq::empty(),
                }
            };
            let service = match v.stacks.selected() {
                Some(s) => s.name,
                None => "—"@,
            };
            breadcrumb(v) == " "@ + place + " › "@ + service + " "@
        }),
{
}

/// Law: the middle of the footer holds the key hints, each key before what it does,
/// or the hint on the skill in their place.
pub proof fn the_footer_hints(p: Palette, hints: Seq<(Seq<char>, Seq<char>)>, i: int)
    requires
        0 <= i < hints.len(),
    ensures
        footer_centre(p, true) == skill_hint(),
        hint_spans(p, hints, hints.len()).len() == 2 * hints.len(),
        hint_spans(p, hints, hints.len())[2 * i].text == hints[i].0 + " "@,
        hint_spans(p, hints, hints.len())[2 * i + 1].text == hints[i].1 + if i + 1 < hints.len() {
            "  "@
        } else {
            ""@
        },
{
    hints_stand_in_pairs(p, hints, hints.len(), i);
}

proof fn hints_stand_in_pairs(p: Palette, hints: Seq<(Seq<char>, Seq<char>)>, n: nat, i: int)
    requires
        n <= hints.len(),
    ensures
        hint_spans(p, hints, n).len() == 2 * n,
        0 <= i < n ==> hint_spans(p, hints, n)[2 * i].text == hints[i].0 + " "@,
        0 <= i < n ==> hint_spans(p, hints, n)[2 * i + 1].text == hints[i].1 + if i + 1
            < hints.len() {
            "  "@
        } else {
            ""@
        },
    decreases n,
{
    if n > 0 {
        hints_stand_in_pairs(p, hints, (n - 1) as nat, i);
    }
}

// ── logs ────────────────────────────────────────────────────────────────

/// Law: a service without lines says why: it is stopped, it is starting, or it has
/// printed nothing yet.
pub proof fn empty_logs_say_why(s: StateView)
    ensures
        s is Stopped ==> no_logs_text(s) == "stopped — press S to start"@,
        s is Starting ==> no_logs_text(s) == "starting…"@,
        !(s is Stopped) && !(s is Starting) ==> no_logs_text(s) == "no output yet"@,
{
}

/// Law: the logs that are drawn are the lines that the offset counts back to; they
/// are marked as paused, with how far behind they are, exactly while scrolled
/// back and where the mark fits.
pub proof fn logs_are_drawn_where_they_are(
    logs: Seq<Seq<char>>,
    offset: int,
    text: Rect,
    bar: Option<Rect>,
)
    requires
        0 <= offset < logs.len(),
        text.height > 0,
    ensures
        ({
            let scene = logs_scene(logs, offset, text, bar);
            let end = logs.len() - offset;
            let from = if end > text.height {
                end - text.height
            } else {
                0
            };
            let mark = " PAUSED · "@ + decimal(offset as nat) + " behind · G to follow "@;
            &&& scene[0] == (DrawView::Logs {
                area: text,
                lines: styled_logs(logs.subrange(from, end)),
            })
            &&& bar is Some ==> (scene[1] matches DrawView::Scrollbar { paused, .. } && paused == (
            offset > 0))
            &&& scene.len() == 1 + (if bar is Some {
                1int
            } else {
                0
            }) + (if offset > 0 && mark.len() <= text.width {
                1int
            } else {
                0
            })
            &&& offset > 0 && mark.len() <= text.width ==> scene.last()->Text_lines[0][0].text
                == mark
        }),
{
    let end = logs.len() - offset;
    let rows = page(text.height as usize);
    let from = if end > text.height {
        end - text.height
    } else {
        0
    };
    assert(window(logs, offset, rows) =~= logs.subrange(from, end));
}

// ── toasts and notices ──────────────────────────────────────────────────

/// Law: a toast shows its title and its words behind a dot in the colour of its
/// kind, cut to the card.
pub proof fn toasts_show_their_words(p: Palette, t: ToastView, width: int)
    ensures
        ({
            let line = toast_line(p, t, width);
            &&& line.len() == 3
            &&& line[0].text == "● "@ && line[0].style.fg == Some(Ink::Theme(toast_color(&p, t.kind)))
            &&& line[1].text == truncated(t.title, 14)
            &&& t.body.len() + truncated(t.title, 14).len() + 3 <= width ==> line[2].text == " "@
                + t.body
        }),
{
}

proof fn cards_stand(area: Rect, p: Palette, toasts: Seq<ToastView>, n: nat, i: int)
    ensures
        toast_cards(area, p, toasts, n).len() == 3 * n,
        0 <= i < n ==> toast_cards(area, p, toasts, n).subrange(3 * i, 3 * i + 3) == toast_card(
            area,
            p,
            toasts,
            i,
        ),
    decreases n,
{
    if n > 0 {
        cards_stand(area, p, toasts, (n - 1) as nat, i);
        let before = toast_cards(area, p, toasts, (n - 1) as nat);
        let all = toast_cards(area, p, toasts, n);
        if 0 <= i < n {
            if i == n - 1 {
                assert(all.subrange(3 * i, 3 * i + 3) =~= toast_card(area, p, toasts, i));
            } else {
                assert(all.subrange(3 * i, 3 * i + 3) =~= before.subrange(3 * i, 3 * i + 3));
            }
        }
    }
}

/// Law: toasts stack up from the lower right corner, the newest lowest, each three
/// rows above the one before, as many as fit and no more than there are.
pub proof fn toasts_stack_up(area: Rect, p: Palette, toasts: Seq<ToastView>, i: int)
    requires
        area.width >= 24,
        area.height >= 4,
        area.fits(),
    ensures
        ({
            let scene = toasts_scene(area, p, toasts);
            let fit = (area.height - 2) / 3;
            let n = if toasts.len() < fit {
                toasts.len() as int
            } else {
                fit
            };
            let newest = toast_rect(area, 0);
            &&& scene.len() == 3 * n
            &&& 0 <= i < n ==> {
                &&& scene[3 * i] == DrawView::Clear(toast_rect(area, i))
                &&& scene[3 * i + 2]->Text_lines[0] == toast_line(
                    p,
                    toasts[toasts.len() - 1 - i],
                    inside(toast_rect(area, i)).width as int,
                )
                &&& toast_rect(area, i).y == newest.y - 3 * i
                &&& toast_rect(area, i).x == newest.x && toast_rect(area, i).height == 3
            }
        }),
{
    let fit = (area.height - 2) / 3;
    let n = if toasts.len() < fit {
        toasts.len() as int
    } else {
        fit
    };
    cards_stand(area, p, toasts, n as nat, i);
    if 0 <= i < n {
        let all = toast_cards(area, p, toasts, n as nat);
        let card = toast_card(area, p, toasts, i);
        assert(all.subrange(3 * i, 3 * i + 3)[0] == all[3 * i]);
        assert(all.subrange(3 * i, 3 * i + 3)[2] == all[3 * i + 2]);
        assert(card[0] == DrawView::Clear(toast_rect(area, i)));
    }
}

/// Law: a row of the history shows the notice's age, title and words, and the
/// selected one is filled.
pub proof fn notices_show_their_words(
    p: Palette,
    n: NoticesView,
    ages: Seq<u64>,
    inner: Rect,
    i: int,
)
    requires
        n.cursor < n.history.len(),
        0 <= i < notices_shown(n, inner),
    ensures
        ({
            let d = notice_offset(n, inner) + i;
            let t = n.history[n.history.len() - 1 - d];
            let row = notice_draw(p, n, ages, inner, i);
            &&& row->Text_lines[0][0].style.fg == Some(Ink::Theme(toast_color(&p, t.kind)))
            &&& row->Text_lines[0][2].text == truncated(t.title, 12)
            &&& (row->Text_fill.bg is Some <==> d == n.cursor)
        }),
{
}

// ── dialogs ─────────────────────────────────────────────────────────────

/// Law: a port conflict says which service could not have which port and who holds
/// it, and then lists every remedy, the highlighted one marked and no other.
pub proof fn conflicts_are_laid_out(d: ConflictView, i: int)
    requires
        0 <= i < d.options.len(),
    ensures
        ({
            let lines = conflict_lines(d);
            &&& lines.len() == d.options.len() + 5
            &&& lines[0][0].text == d.service + " couldn't bind port "@
            &&& lines[0][1].text == decimal(d.port as nat)
            &&& lines[1][0].text == "held by "@ + d.holder_desc
            &&& lines[3 + i][1].text == d.options[i].label
            &&& (lines[3 + i][0].text == " ● "@ <==> i == d.selected)
        }),
{
    reveal_strlit(" ● ");
    reveal_strlit(" ○ ");
    assert(" ● "@[1] == '●' && " ○ "@[1] == '○');
}

/// Law: the question whether to quit names its keys before what they do.
pub proof fn the_quit_question_names_its_keys(p: Palette)
    ensures
        ({
            let lines = quit_lines(p);
            &&& lines[2][0].text == " q "@ && lines[2][1].text == "stop all & quit"@
            &&& lines[3][0].text == " d "@ && lines[3][1].text
                == "detach — leave services running"@
            &&& lines[4][0].text == " Esc "@ && lines[4][1].text == "cancel"@
        }),
{
}

/// Law: the skill prompt names its keys, and where the skill would go or from which
/// version to which it would be brought.
pub proof fn the_skill_prompt_names_its_keys(d: SkillView, at: PlacesView)
    ensures
        ({
            let lines = skill_lines(d, at);
            &&& d.kind == SkillPrompt::Install ==> {
                &&& lines[3][0].text == " "@ + "i"@ + " "@ && lines[3][1].text == " install ("@
                    + at.project + ")"@
                &&& lines[4][0].text == " "@ + "g"@ + " "@ && lines[4][1].text
                    == " install globally ("@ + at.global + ")"@
                &&& lines[5][0].text == " "@ + "n"@ + " "@
            }
            &&& d.kind == SkillPrompt::Update ==> {
                &&& lines[0][0].text == "devme's AI skill is out of date (v"@ + d.from + " → v"@
                    + d.to + ")."@
                &&& d.count > 1 ==> lines[1][0].text == "Refresh "@ + (decimal(d.count as nat)
                    + " installs"@) + " from this binary?"@
                &&& d.count <= 1 ==> lines[1][0].text == "Refresh "@ + "this project"@
                    + " from this binary?"@
                &&& lines[3][0].text == " "@ + "u"@ + " "@
                &&& lines[4][0].text == " "@ + "a"@ + " "@
                &&& lines[5][0].text == " "@ + "n"@ + " "@
            }
        }),
{
}

/// Law: a switch shows as on exactly where its value is true; a setting with several
/// values shows the one it has; the highlighted one is filled and no other.
pub proof fn settings_show_their_values(p: Palette, s: SettingsView, room: Rect, i: int)
    requires
        0 <= i < 7,
        s.values.len() == 7,
    ensures
        ({
            let rows = setting_rows(p, s, room, i);
            let line = rows[0]->Text_lines[0];
            &&& line[0].text == " "@ + setting(i).label
            &&& 1 <= i <= 5 ==> line[2].text == if s.values[i] == "true"@ {
                "● on"@
            } else {
                "○ off"@
            }
            &&& i == 0 || i == 6 ==> line[3].text == s.values[i]
            &&& rows[1]->Text_lines[0][0].text == "   "@ + setting(i).desc
            &&& (rows[0]->Text_fill.bg is Some <==> i == s.cursor)
            &&& (rows[1]->Text_fill.bg is Some <==> i == s.cursor)
        }),
{
}

// ── the sidebar ─────────────────────────────────────────────────────────

/// Law: a stack's row shows its label, cut to the sidebar; the selected one, and no
/// other, is filled.
pub proof fn rows_show_their_labels(p: Palette, v: TuiView, area: Rect, k: int)
    requires
        0 <= k < stacks_shown(v, area),
        0 <= stacks_scroll(v, area),
        stacks_scroll(v, area) + k < v.stacks.instances.len() <= usize::MAX,
        area.width >= 3,
    ensures
        ({
            let i = stacks_scroll(v, area) + k;
            let rows = stack_draws(p, v, area, k);
            &&& rows.len() == 2
            &&& rows[0]->Text_lines[0][3].text == truncated(
                v.stacks.instances[i].info.label,
                (area.width - 3) as nat,
            )
            &&& (rows[0]->Text_fill.bg is Some <==> !v.stacks.shared_selected
                && v.stacks.selected_instance == Some(i as usize))
            &&& rows[0]->Text_area.y == (area.y + 1 + 2 * k) as u16
            &&& rows[1]->Text_area.y == (area.y + 2 + 2 * k) as u16
        }),
{
}

/// Law: where not all stacks fit, how many stand below is said.
pub proof fn hidden_stacks_are_counted(p: Palette, v: TuiView, area: Rect)
    requires
        says_more(v, area),
    ensures
        more_draw(p, v, area)->Text_lines[0][0].text == "  ▾ "@ + decimal(
            (v.stacks.instances.len() - stacks_scroll(v, area) - stacks_shown(v, area)) as nat,
        ) + " more"@,
        v.stacks.instances.len() > stacks_scroll(v, area) + stacks_shown(v, area),
{
}

/// Law: a remote host is named in the header: without its user and without its
/// domain, cut to fourteen columns.
pub proof fn hosts_are_named_briefly(user: Seq<char>, name: Seq<char>, domain: Seq<char>)
    requires
        free_of(user, '@'),
        free_of(name, '@'),
        free_of(name, '.'),
        free_of(domain, '@'),
    ensures
        host_label(name) == truncated(name, 14),
        host_label(name + seq!['.'] + domain) == truncated(name, 14),
        host_label(user + seq!['@'] + (name + seq!['.'] + domain)) == truncated(name, 14),
{
    let full = name + seq!['.'] + domain;
    assert(free_of(full, '@')) by {
        assert forall|i: int| 0 <= i < full.len() implies #[trigger] full[i] != '@' by {
            if i < name.len() {
                assert(full[i] == name[i]);
            } else if i > name.len() {
                assert(full[i] == domain[i - name.len() - 1]);
            }
        }
    }
    pieces_stand_between_separators(name, '@', Seq::empty());
    pieces_stand_between_separators(name, '.', domain);
    pieces_stand_between_separators(full, '@', Seq::empty());
    pieces_stand_between_separators(user, '@', full);
    assert(pieces(user + seq!['@'] + full, '@') =~= seq![user, full]);
    assert(pieces(full, '.')[0] == name);
}

/// Law: the history scrolls so that the selected notice is shown, and from the newest
/// on as long as it is.
pub proof fn the_selected_notice_is_shown(n: NoticesView, inner: Rect)
    requires
        n.cursor < n.history.len(),
        inner.height >= 2,
    ensures
        ({
            let first = notice_offset(n, inner);
            &&& 0 <= first <= n.cursor < first + (inner.height - 1)
            &&& n.cursor < inner.height - 1 ==> first == 0
            &&& n.cursor < first + notices_shown(n, inner)
            &&& notices_shown(n, inner) <= inner.height - 1
            &&& notices_shown(n, inner) <= n.history.len() - first
        }),
{
}

/// Law: the newest toast stands two cells from the right edge and two rows above the
/// lower one, thirty-six columns wide where there is room.
pub proof fn the_newest_toast_stands_in_the_corner(area: Rect)
    requires
        area.width >= 24,
        area.height >= 5,
        area.fits(),
    ensures
        ({
            let card = toast_rect(area, 0);
            &&& card.x + card.width + 2 == area.x + area.width
            &&& card.y + card.height + 2 == area.y + area.height
            &&& card.width == if area.width >= 40 {
                36int
            } else {
                area.width - 4
            }
        }),
{
}

/// Law: the scrollbar stands at its end while the newest lines are shown, and goes up
/// by as many steps as the logs are scrolled back.
pub proof fn the_scrollbar_follows_the_offset(
    logs: Seq<Seq<char>>,
    offset: int,
    text: Rect,
    bar: Rect,
)
    requires
        0 <= offset,
        text.height > 0,
        offset + text.height <= logs.len() <= usize::MAX,
    ensures
        logs_scene(logs, offset, text, Some(bar))[1] == (DrawView::Scrollbar {
            area: bar,
            steps: (logs.len() - text.height) as usize,
            position: (logs.len() - text.height - offset) as usize,
            paused: offset > 0,
        }),
{
}

} // verus!
