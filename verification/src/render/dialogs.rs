//! The small modals: the skill prompt, port conflicts, the quit confirmation
//! and the help overlay.
use vstd::prelude::*;

use crate::keymap::{
    binding_table, bindings, mouse_notes, mouse_table, Binding, BindingView, Section,
};
use crate::lists::views;
use crate::state::{
    ConflictView, OptionView, PortConflictDialog, PortConflictOption, SkillDialog, SkillPrompt,
    SkillView,
};
use crate::text::{
    begins, components, decimal, is_absolute, join, joined, number, path_components, same, texts,
};
use crate::theme::Palette;

use super::layout::{inner, inside, modal, modal_in};
use super::paint::{
    badge, blank, bold, chip, coloured, draw_lines, inked, joined2, joined3, lines_at, one, pad,
    padded, sp, span, span_of, strong, two, Draw, DrawView, Ink, Line, LineView, Rect, Span,
    SpanView, Style,
};

verus! {

/// A modal's frame: what is behind it is erased first.
pub open spec fn framed(
    area: Rect,
    title: Seq<char>,
    style: Style,
    border: Ink,
    background: Option<Ink>,
) -> Seq<DrawView> {
    seq![
        DrawView::Clear(area),
        DrawView::Frame { area, title: seq![sp(title, style)], border, background },
    ]
}

pub(crate) fn frame(
    area: Rect,
    title: &str,
    style: Style,
    border: Ink,
    background: Option<Ink>,
) -> (r: Vec<Draw>)
    ensures
        views(r@) == framed(area, title@, style, border, background),
{
    let mut r: Vec<Draw> = Vec::new();
    r.push(Draw::Clear(area));
    r.push(Draw::Frame { area, title: one(title, style), border, background });
    assert(views(r@) =~= framed(area, title@, style, border, background));
    r
}

/// A key of a modal.
pub open spec fn key_span(k: Seq<char>, ink: Ink) -> SpanView {
    sp(" "@ + k + " "@, strong(ink))
}

fn key(k: &str, ink: Ink) -> (r: Span)
    ensures
        r@ == key_span(k@, ink),
{
    span_of(joined3(" ", k, " "), strong(ink))
}

pub open spec fn skill_title(kind: SkillPrompt) -> Seq<char> {
    match kind {
        SkillPrompt::Install => " AI skill "@,
        SkillPrompt::Update => " AI skill update "@,
    }
}

/// Where the skill can be installed, as the prompt names the places.
#[derive(Debug, Clone, Copy, PartialEq, Eq)]
pub struct SkillPlaces<'a> {
    /// For this repo.
    pub project: &'a str,
    /// For the user.
    pub global: &'a str,
}

#[verifier::ext_equal]
pub ghost struct PlacesView {
    pub project: Seq<char>,
    pub global: Seq<char>,
}

impl<'a> View for SkillPlaces<'a> {
    type V = PlacesView;

    open spec fn view(&self) -> PlacesView {
        PlacesView { project: self.project@, global: self.global@ }
    }
}

/// The components of `file` below `root`; none where it is not below it.
pub open spec fn below(file: Seq<char>, root: Seq<char>) -> Seq<Seq<char>> {
    let (all, up) = (components(file), components(root));
    if is_absolute(file) == is_absolute(root) && up.len() <= all.len() && all.take(up.len() as int)
        == up {
        all.skip(up.len() as int)
    } else {
        Seq::empty()
    }
}

/// How the prompt names the directory of a skill file of a project: as seen
/// from the project.
pub open spec fn project_place(file: Seq<char>, root: Seq<char>) -> Seq<char> {
    let path = below(file, root);
    if path.len() == 0 {
        file
    } else {
        joined(path.drop_last(), "/"@)
    }
}

/// How the prompt names the place of a skill file of the user: by the directory
/// of the home directory that it is in.
pub open spec fn global_place(file: Seq<char>, home: Seq<char>) -> Seq<char> {
    let path = below(file, home);
    if path.len() == 0 {
        file
    } else {
        "~/"@ + path[0] + "/..."@
    }
}

fn path_below(file: &str, root: &str) -> (r: Vec<String>)
    ensures
        texts(r@) == below(file@, root@),
{
    let all = path_components(file);
    let up = path_components(root);
    let ghost a = texts(all@);
    let ghost u = texts(up@);
    let mut r: Vec<String> = Vec::new();
    assert(texts(r@) =~= Seq::empty());
    if begins(file, "/") != begins(root, "/") || up.len() > all.len() {
        return r;
    }
    let mut i: usize = 0;
    while i < up.len()
        invariant
            i <= up.len() <= all.len(),
            a == texts(all@),
            u == texts(up@),
            forall|j: int| 0 <= j < i ==> a[j] == u[j],
            texts(r@) == Seq::<Seq<char>>::empty(),
            u == components(root@),
            a == components(file@),
        ensures
            i == up.len(),
            forall|j: int| 0 <= j < u.len() ==> a[j] == u[j],
        decreases up.len() - i,
    {
        assert(a[i as int] == all@[i as int]@);
        assert(u[i as int] == up@[i as int]@);
        if !same(all[i].as_str(), up[i].as_str()) {
            assert(a.take(u.len() as int)[i as int] != u[i as int]);
            return r;
        }
        i = i + 1;
    }
    assert(a.take(u.len() as int) =~= u);
    let ghost rest = a.skip(u.len() as int);
    assert(texts(r@) =~= rest.take(0));
    while i < all.len()
        invariant
            up.len() <= i <= all.len(),
            a == texts(all@),
            rest == a.skip(up.len() as int),
            texts(r@) == rest.take(i - up.len()),
        decreases all.len() - i,
    {
        let ghost before = texts(r@);
        r.push(all[i].clone());
        assert(a[i as int] == all@[i as int]@);
        assert(texts(r@) =~= before.push(a[i as int]));
        i = i + 1;
        assert(texts(r@) =~= rest.take(i - up.len()));
    }
    assert(rest.take(i - up.len()) =~= rest);
    r
}

/// How the prompt names the two places, given the skill file of the project at
/// `root` and that of the user with the home directory `home`.
pub fn skill_places(project: &str, root: &str, global: &str, home: &str) -> (r: (String, String))
    ensures
        r.0@ == project_place(project@, root@),
        r.1@ == global_place(global@, home@),
{
    let mut here = path_below(project, root);
    let first: String = if here.len() == 0 {
        project.to_owned()
    } else {
        let ghost whole = texts(here@);
        let _file = here.pop();
        assert(texts(here@) =~= whole.drop_last());
        join(&here, "/")
    };
    let there = path_below(global, home);
    assert(texts(there@).len() == there@.len());
    let second: String = if there.len() == 0 {
        global.to_owned()
    } else {
        assert(texts(there@)[0] == there@[0]@);
        joined3("~/", there[0].as_str(), "/...")
    };
    (first, second)
}

/// What the skill prompt says.
pub open spec fn skill_lines(d: SkillView, at: PlacesView) -> Seq<LineView> {
    let gray = coloured(Ink::Gray);
    match d.kind {
        SkillPrompt::Install => seq![
            seq![sp("devme ships an AI coding skill that teaches agents"@, gray)],
            seq![sp("to drive it. Install it for this repo?"@, gray)],
            Seq::empty(),
            seq![key_span("i"@, Ink::Yellow), sp(" install ("@ + at.project + ")"@, gray)],
            seq![key_span("g"@, Ink::Yellow), sp(" install globally ("@ + at.global + ")"@, gray)],
            seq![key_span("n"@, Ink::Yellow), sp(" not now"@, coloured(Ink::DarkGray))],
        ],
        SkillPrompt::Update => seq![
            seq![
                sp(
                    "devme's AI skill is out of date (v"@ + d.from + " → v"@ + d.to + ")."@,
                    gray,
                ),
            ],
            seq![
                sp(
                    "Refresh "@ + (if d.count > 1 {
                        decimal(d.count as nat) + " installs"@
                    } else {
                        "this project"@
                    }) + " from this binary?"@,
                    gray,
                ),
            ],
            Seq::empty(),
            seq![key_span("u"@, Ink::Yellow), sp(" update now"@, gray)],
            seq![key_span("a"@, Ink::Yellow), sp(" always (auto-update from now on)"@, gray)],
            seq![key_span("n"@, Ink::Yellow), sp(" not now"@, coloured(Ink::DarkGray))],
        ],
    }
}

/// The skill prompt.
pub open spec fn skill_scene(area: Rect, d: SkillView, at: PlacesView) -> Seq<DrawView> {
    let m = modal_in(area, 56, 9, 4, 4);
    framed(m, skill_title(d.kind), badge(Ink::Yellow), Ink::Yellow, None).push(
        lines_at(inside(m), skill_lines(d, at)),
    )
}

fn skill_text(d: &SkillDialog, at: SkillPlaces<'_>) -> (r: Vec<Line>)
    ensures
        views(r@) == skill_lines(d@, at@),
{
    let gray = coloured(Ink::Gray);
    let mut r: Vec<Line> = Vec::new();
    match d.kind {
        SkillPrompt::Install => {
            r.push(one("devme ships an AI coding skill that teaches agents", gray));
            r.push(one("to drive it. Install it for this repo?", gray));
            r.push(blank());
            let here = joined3(" install (", at.project, ")");
            r.push(two(key("i", Ink::Yellow), span_of(here, gray)));
            let everywhere = joined3(" install globally (", at.global, ")");
            r.push(two(key("g", Ink::Yellow), span_of(everywhere, gray)));
        },
        SkillPrompt::Update => {
            let mut outdated = joined3(
                "devme's AI skill is out of date (v",
                d.from.as_str(),
                " → v",
            );
            outdated.append(d.to.as_str());
            outdated.append(").");
            r.push(one(outdated.as_str(), gray));
            let place: String = if d.count > 1 {
                joined2(number(d.count as u64).as_str(), " installs")
            } else {
                "this project".to_owned()
            };
            let refresh = joined3("Refresh ", place.as_str(), " from this binary?");
            r.push(one(refresh.as_str(), gray));
            r.push(blank());
            r.push(two(key("u", Ink::Yellow), span(" update now", gray)));
            r.push(two(key("a", Ink::Yellow), span(" always (auto-update from now on)", gray)));
        },
    }
    r.push(two(key("n", Ink::Yellow), span(" not now", coloured(Ink::DarkGray))));
    assert(views(r@) =~~= skill_lines(d@, at@));
    r
}

/// Draws the modal that asks to install the skill, or to refresh an outdated
/// one.
pub fn render_skill_dialog(area: Rect, d: &SkillDialog, at: SkillPlaces<'_>) -> (r: Vec<Draw>)
    requires
        area.fits(),
    ensures
        views(r@) == skill_scene(area, d@, at@),
{
    let m = modal(area, 56, 9, 4, 4);
    let title = match d.kind {
        SkillPrompt::Install => " AI skill ",
        SkillPrompt::Update => " AI skill update ",
    };
    let mut r = frame(m, title, badge(Ink::Yellow), Ink::Yellow, None);
    let ghost head = views(r@);
    r.push(draw_lines(inner(m), skill_text(d, at)));
    assert(views(r@) =~= head.push(lines_at(inside(m), skill_lines(d@, at@))));
    r
}

/// One remediation of a port conflict, as a radio button.
pub open spec fn option_line(o: OptionView, selected: bool) -> LineView {
    if selected {
        seq![sp(" ● "@, strong(Ink::Red)), sp(o.label, strong(Ink::White))]
    } else {
        seq![sp(" ○ "@, coloured(Ink::DarkGray)), sp(o.label, coloured(Ink::Gray))]
    }
}

/// What the port-conflict modal says.
pub open spec fn conflict_lines(d: ConflictView) -> Seq<LineView> {
    let gray = coloured(Ink::Gray);
    seq![
        seq![
            sp(d.service + " couldn't bind port "@, gray),
            sp(decimal(d.port as nat), strong(Ink::White)),
        ],
        seq![sp("held by "@ + d.holder_desc, gray)],
        Seq::empty(),
    ] + Seq::new(
        d.options.len(),
        |i: int| option_line(d.options[i], i == d.selected),
    ) + seq![
        Seq::empty(),
        seq![sp(" ↑↓ move · enter choose · esc skip"@, coloured(Ink::DarkGray))],
    ]
}

/// The port-conflict modal.
pub open spec fn conflict_scene(area: Rect, d: ConflictView) -> Seq<DrawView> {
    let m = modal_in(area, 60, 7 + d.options.len() as int, 4, 4);
    framed(m, " Port conflict "@, badge(Ink::Red), Ink::Red, None).push(
        lines_at(inside(m), conflict_lines(d)),
    )
}

fn option_text(o: &PortConflictOption, selected: bool) -> (r: Line)
    ensures
        r@ == option_line(o@, selected),
{
    if selected {
        two(span(" ● ", strong(Ink::Red)), span(o.label.as_str(), strong(Ink::White)))
    } else {
        two(
            span(" ○ ", coloured(Ink::DarkGray)),
            span(o.label.as_str(), coloured(Ink::Gray)),
        )
    }
}

fn conflict_text(d: &PortConflictDialog) -> (r: Vec<Line>)
    ensures
        views(r@) == conflict_lines(d@),
{
    let gray = coloured(Ink::Gray);
    let ghost head = conflict_lines(d@).take(3);
    let ghost rows = Seq::new(
        d@.options.len(),
        |i: int| option_line(d@.options[i], i == d@.selected),
    );
    let mut r: Vec<Line> = Vec::new();
    r.push(
        two(
            span_of(joined2(d.service.as_str(), " couldn't bind port "), gray),
            span_of(number(d.port as u64), strong(Ink::White)),
        ),
    );
    r.push(one(joined2("held by ", d.holder_desc.as_str()).as_str(), gray));
    r.push(blank());
    assert(views(r@) =~~= head);
    assert(views(r@) =~= head + rows.take(0));
    let mut i: usize = 0;
    while i < d.options.len()
        invariant
            i <= d.options.len(),
            d.options@.len() == rows.len(),
            rows == Seq::new(
                d@.options.len(),
                |i: int| option_line(d@.options[i], i == d@.selected),
            ),
            views(r@) == head + rows.take(i as int),
        decreases d.options.len() - i,
    {
        let ghost before = views(r@);
        assert(d@.options[i as int] == d.options@[i as int]@);
        r.push(option_text(&d.options[i], i == d.selected));
        assert(views(r@) =~= before.push(rows[i as int]));
        i = i + 1;
        assert(views(r@) =~= head + rows.take(i as int));
    }
    assert(rows.take(i as int) =~= rows);
    let ghost before = views(r@);
    r.push(blank());
    r.push(one(" ↑↓ move · enter choose · esc skip", coloured(Ink::DarkGray)));
    assert(views(r@) =~~= before + seq![
        Seq::empty(),
        seq![sp(" ↑↓ move · enter choose · esc skip"@, coloured(Ink::DarkGray))],
    ]);
    assert(views(r@) =~= conflict_lines(d@));
    r
}

/// Draws the modal shown when a running service crash-loops on `address
/// already in use`: a radio list of remediations.
pub fn render_port_conflict_dialog(area: Rect, d: &PortConflictDialog) -> (r: Vec<Draw>)
    requires
        area.fits(),
        d@.wf(),
    ensures
        views(r@) == conflict_scene(area, d@),
{
    let n: usize = d.options.len();
    assert(n == d@.options.len());
    let m = modal(area, 60, 7 + n as u16, 4, 4);
    let mut r = frame(m, " Port conflict ", badge(Ink::Red), Ink::Red, None);
    let ghost head = views(r@);
    r.push(draw_lines(inner(m), conflict_text(d)));
    assert(views(r@) =~= head.push(lines_at(inside(m), conflict_lines(d@))));
    r
}

/// What the quit confirmation says.
pub open spec fn quit_lines(p: Palette) -> Seq<LineView> {
    seq![
        seq![sp("Quit the TUI — and the services?"@, inked(p.text))],
        Seq::empty(),
        seq![sp(" q "@, bold(p.red)), sp("stop all & quit"@, inked(p.overlay0))],
        seq![sp(" d "@, bold(p.accent)), sp("detach — leave services running"@, inked(p.overlay0))],
        seq![sp(" Esc "@, bold(p.accent)), sp("cancel"@, inked(p.overlay0))],
    ]
}

/// The quit confirmation.
pub open spec fn quit_scene(area: Rect, p: Palette) -> Seq<DrawView> {
    let m = modal_in(area, 52, 7, 4, 2);
    framed(
        m,
        " quit "@,
        chip(p.panel_bg, p.red),
        Ink::Theme(p.red),
        Some(Ink::Theme(p.panel_bg)),
    ).push(lines_at(inside(m), quit_lines(p)))
}

/// Draws the modal that offers to stop every service and quit, or to detach.
pub fn render_quit_confirm(area: Rect, p: &Palette) -> (r: Vec<Draw>)
    requires
        area.fits(),
    ensures
        views(r@) == quit_scene(area, *p),
{
    let m = modal(area, 52, 7, 4, 2);
    let mut r = frame(
        m,
        " quit ",
        chip(p.panel_bg, p.red),
        Ink::Theme(p.red),
        Some(Ink::Theme(p.panel_bg)),
    );
    let ghost head = views(r@);
    let mut lines: Vec<Line> = Vec::new();
    lines.push(one("Quit the TUI — and the services?", inked(p.text)));
    lines.push(blank());
    lines.push(two(span(" q ", bold(p.red)), span("stop all & quit", inked(p.overlay0))));
    lines.push(
        two(
            span(" d ", bold(p.accent)),
            span("detach — leave services running", inked(p.overlay0)),
        ),
    );
    lines.push(two(span(" Esc ", bold(p.accent)), span("cancel", inked(p.overlay0))));
    assert(views(lines@) =~~= quit_lines(*p));
    r.push(draw_lines(inner(m), lines));
    assert(views(r@) =~= head.push(lines_at(inside(m), quit_lines(*p))));
    r
}

/// A key and what it does.
pub open spec fn help_line(keys: Seq<char>, desc: Seq<char>) -> LineView {
    seq![sp(" "@ + padded(keys, 13), strong(Ink::Cyan)), sp(desc, coloured(Ink::Gray))]
}

pub open spec fn help_heading(title: Seq<char>) -> LineView {
    seq![sp(title, strong(Ink::DarkGray))]
}

/// The help lines of the bindings of a section.
pub open spec fn section_lines(table: Seq<BindingView>, s: Section) -> Seq<LineView>
    decreases table.len(),
{
    if table.len() == 0 {
        Seq::empty()
    } else {
        let before = section_lines(table.drop_last(), s);
        if table.last().section == s {
            before.push(help_line(table.last().keys, table.last().desc))
        } else {
            before
        }
    }
}

/// The help lines of the first `n` sections, a blank line between them where
/// they are spaced.
pub open spec fn sections_lines(n: nat, spaced: bool) -> Seq<LineView>
    decreases n,
{
    if n == 0 {
        Seq::empty()
    } else {
        let s = Section::ordered()[n - 1];
        let before = sections_lines((n - 1) as nat, spaced);
        (if n == 1 || !spaced {
            before
        } else {
            before.push(Seq::empty())
        }).push(help_heading(s.title_text())) + section_lines(binding_table(), s)
    }
}

/// Everything the help overlay lists: the bindings by section, then the mouse.
pub open spec fn help_lines(spaced: bool) -> Seq<LineView> {
    (if spaced {
        sections_lines(5, spaced).push(Seq::empty())
    } else {
        sections_lines(5, spaced)
    }).push(help_heading("mouse"@)) + Seq::new(
        mouse_table().len(),
        |i: int| help_line(mouse_table()[i].0, mouse_table()[i].1),
    )
}

/// The sections are spaced where the screen is tall enough for all of it.
pub open spec fn help_spaced(area: Rect) -> bool {
    help_lines(true).len() + 2 <= area.height
}

/// The help overlay, sized to its content.
pub open spec fn help_scene(area: Rect) -> Seq<DrawView> {
    let lines = help_lines(help_spaced(area));
    let m = modal_in(area, 56, lines.len() as int + 2, 4, 0);
    framed(m, " help "@, badge(Ink::Cyan), Ink::Cyan, None).push(lines_at(inside(m), lines))
}

fn help_row(keys: &str, desc: &str) -> (r: Line)
    ensures
        r@ == help_line(keys@, desc@),
{
    two(
        span_of(joined2(" ", pad(keys, 13).as_str()), strong(Ink::Cyan)),
        span(desc, coloured(Ink::Gray)),
    )
}

fn add_section(r: &mut Vec<Line>, table: &Vec<Binding>, s: Section)
    ensures
        views(final(r)@) == views(old(r)@) + section_lines(views(table@), s),
{
    let ghost start = views(r@);
    let ghost all = views(table@);
    let mut i: usize = 0;
    assert(views(r@) =~= start + section_lines(all.take(0), s));
    while i < table.len()
        invariant
            i <= table.len(),
            all == views(table@),
            views(r@) == start + section_lines(all.take(i as int), s),
        decreases table.len() - i,
    {
        let ghost before = views(r@);
        assert(all.take(i + 1).drop_last() =~= all.take(i as int));
        assert(all.take(i + 1).last() == table@[i as int]@);
        if table[i].section == s {
            let row = help_row(table[i].keys, table[i].desc);
            r.push(row);
            assert(views(r@) =~= before.push(row@));
        }
        i = i + 1;
        assert(views(r@) =~= start + section_lines(all.take(i as int), s));
    }
    assert(all.take(i as int) =~= all);
}

fn help_text(spaced: bool) -> (r: Vec<Line>)
    ensures
        views(r@) == help_lines(spaced),
{
    let table = bindings();
    let order = Section::order();
    let mut r: Vec<Line> = Vec::new();
    assert(views(r@) =~= sections_lines(0, spaced));
    let mut i: usize = 0;
    while i < order.len()
        invariant
            i <= order@.len() == 5,
            order@ == Section::ordered(),
            views(table@) == binding_table(),
            views(r@) == sections_lines(i as nat, spaced),
        decreases order.len() - i,
    {
        let ghost before = views(r@);
        if spaced && i > 0 {
            r.push(blank());
            assert(views(r@) =~= before.push(Seq::empty()));
        }
        let ghost spread = views(r@);
        let heading = one(order[i].title(), strong(Ink::DarkGray));
        r.push(heading);
        assert(views(r@) =~= spread.push(heading@));
        add_section(&mut r, &table, order[i]);
        i = i + 1;
    }
    let ghost head = views(r@);
    if spaced {
        r.push(blank());
        assert(views(r@) =~= head.push(Seq::empty()));
    }
    let ghost spread = views(r@);
    let heading = one("mouse", strong(Ink::DarkGray));
    r.push(heading);
    assert(views(r@) =~= spread.push(help_heading("mouse"@)));
    let ghost start = views(r@);
    let notes = mouse_notes();
    let ghost rows = Seq::new(
        mouse_table().len(),
        |i: int| help_line(mouse_table()[i].0, mouse_table()[i].1),
    );
    assert(views(notes@) == mouse_table());
    assert(views(r@) =~= start + rows.take(0));
    let mut j: usize = 0;
    while j < notes.len()
        invariant
            j <= notes.len(),
            views(notes@) == mouse_table(),
            rows == Seq::new(
                mouse_table().len(),
                |i: int| help_line(mouse_table()[i].0, mouse_table()[i].1),
            ),
            views(r@) == start + rows.take(j as int),
        decreases notes.len() - j,
    {
        let ghost before = views(r@);
        assert(mouse_table()[j as int] == notes@[j as int]@);
        let row = help_row(notes[j].label, notes[j].desc);
        r.push(row);
        assert(views(r@) =~= before.push(rows[j as int]));
        j = j + 1;
        assert(views(r@) =~= start + rows.take(j as int));
    }
    assert(rows.take(j as int) =~= rows);
    r
}

proof fn section_is_short(table: Seq<BindingView>, s: Section)
    ensures
        section_lines(table, s).len() <= table.len(),
    decreases table.len(),
{
    if table.len() > 0 {
        section_is_short(table.drop_last(), s);
    }
}

proof fn sections_are_short(n: nat, spaced: bool)
    ensures
        sections_lines(n, spaced).len() <= n * 24,
    decreases n,
{
    if n > 0 {
        sections_are_short((n - 1) as nat, spaced);
        section_is_short(binding_table(), Section::ordered()[n - 1]);
    }
}

/// Draws the help overlay. It is generated from the keymap, so that every bound
/// action is documented. It keeps no margin on a short screen, and gives up the
/// blank lines between its sections before it cuts off a row.
pub fn render_help_overlay(area: Rect) -> (r: Vec<Draw>)
    requires
        area.fits(),
    ensures
        views(r@) == help_scene(area),
{
    let mut lines = help_text(true);
    proof {
        assert(lines@.len() == help_lines(true).len());
        sections_are_short(5, true);
        sections_are_short(5, false);
    }
    if lines.len() + 2 > area.height as usize {
        lines = help_text(false);
    }
    let ghost text = help_lines(help_spaced(area));
    assert(views(lines@) == text);
    let n: usize = lines.len();
    assert(n == text.len());
    let m = modal(area, 56, n as u16 + 2, 4, 0);
    let mut r = frame(m, " help ", badge(Ink::Cyan), Ink::Cyan, None);
    let ghost head = views(r@);
    r.push(draw_lines(inner(m), lines));
    assert(views(r@) =~= head.push(lines_at(inside(m), text)));
    r
}

} // verus!
