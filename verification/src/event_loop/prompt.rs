//! The debug prompt: a description of the selected stack, to be pasted into a
//! conversation that helps to diagnose it.
use std::collections::VecDeque;

use vstd::prelude::*;

use crate::lists::views;
use crate::protocol::{
    ServiceSnapshot, ServiceState, ServiceView, StateView, StepSnapshot, StepState, StepView,
};
use crate::state::tabs::{is_named_in, not_among};
use crate::state::{StacksView, TuiState};
use crate::text::{
    decimal, join, joined, number, opt_str, signed_decimal, signed_number, texts,
};

verus! {

/// A string as `Debug` writes it: in double quotes, with its quotes,
/// backslashes, control characters and unprintable characters escaped.
pub uninterp spec fn quoted(s: Seq<char>) -> Seq<char>;

/// `Debug` of `str` through `format!`: the result is a function of the
/// characters alone. Which characters it escapes is left unsaid.
#[verifier::external_body]
fn quote(s: &str) -> (r: String)
    ensures
        r@ == quoted(s@),
{
    format!("{:?}", s)
}

/// A list of strings as `Debug` writes it.
pub open spec fn quoted_list(s: Seq<Seq<char>>) -> Seq<char> {
    "["@ + joined(Seq::new(s.len(), |i: int| quoted(s[i])), ", "@) + "]"@
}

fn quote_list(v: &Vec<String>) -> (r: String)
    ensures
        r@ == quoted_list(texts(v@)),
{
    let ghost all = Seq::new(v@.len(), |i: int| quoted(v@[i]@));
    let mut parts: Vec<String> = Vec::new();
    let mut i: usize = 0;
    while i < v.len()
        invariant
            i <= v.len(),
            all == Seq::new(v@.len(), |i: int| quoted(v@[i]@)),
            texts(parts@) == all.take(i as int),
        decreases v.len() - i,
    {
        let ghost before = texts(parts@);
        parts.push(quote(v[i].as_str()));
        assert(texts(parts@) =~= before.push(all[i as int]));
        assert(all.take(i + 1) =~= before.push(all[i as int]));
        i = i + 1;
    }
    assert(all.take(i as int) =~= all);
    assert(all =~= Seq::new(texts(v@).len(), |i: int| quoted(texts(v@)[i])));
    let mut r = "[".to_owned();
    r.append(join(&parts, ", ").as_str());
    r.append("]");
    r
}

pub open spec fn truth(b: bool) -> Seq<char> {
    if b {
        "true"@
    } else {
        "false"@
    }
}

fn truth_text(b: bool) -> (r: &'static str)
    ensures
        r@ == truth(b),
{
    if b {
        "true"
    } else {
        "false"
    }
}

/// A service's state as `Debug` writes it.
pub open spec fn state_debug(s: StateView) -> Seq<char> {
    match s {
        StateView::Stopped => "Stopped"@,
        StateView::Starting => "Starting"@,
        StateView::Running { degraded, started_without } => "Running { degraded: "@ + truth(
            degraded,
        ) + ", started_without: "@ + quoted_list(started_without) + " }"@,
        StateView::WaitingOnDependency { waiting_on } => "WaitingOnDependency { waiting_on: "@
            + quoted_list(waiting_on) + " }"@,
        StateView::Restarting { attempt } => "Restarting { attempt: "@ + decimal(attempt as nat)
            + " }"@,
        StateView::CrashLoop { restarts } => "CrashLoop { restarts: "@ + decimal(restarts as nat)
            + " }"@,
        StateView::Failed { exit_code } => "Failed { exit_code: "@ + (match exit_code {
            Some(code) => "Some("@ + signed_decimal(code as int) + ")"@,
            None => "None"@,
        }) + " }"@,
        StateView::External { healthy } => "External { healthy: "@ + truth(healthy) + " }"@,
    }
}

fn state_text(s: &ServiceState) -> (r: String)
    ensures
        r@ == state_debug(s@),
{
    match s {
        ServiceState::Stopped => "Stopped".to_owned(),
        ServiceState::Starting => "Starting".to_owned(),
        ServiceState::Running { degraded, started_without } => {
            let mut r = "Running { degraded: ".to_owned();
            r.append(truth_text(*degraded));
            r.append(", started_without: ");
            r.append(quote_list(started_without).as_str());
            r.append(" }");
            r
        },
        ServiceState::WaitingOnDependency { waiting_on } => {
            let mut r = "WaitingOnDependency { waiting_on: ".to_owned();
            r.append(quote_list(waiting_on).as_str());
            r.append(" }");
            r
        },
        ServiceState::Restarting { attempt } => {
            let mut r = "Restarting { attempt: ".to_owned();
            r.append(number(*attempt as u64).as_str());
            r.append(" }");
            r
        },
        ServiceState::CrashLoop { restarts } => {
            let mut r = "CrashLoop { restarts: ".to_owned();
            r.append(number(*restarts as u64).as_str());
            r.append(" }");
            r
        },
        ServiceState::Failed { exit_code } => {
            let mut r = "Failed { exit_code: ".to_owned();
            let code: String = match exit_code {
                Some(code) => {
                    let mut c = "Some(".to_owned();
                    c.append(signed_number(*code).as_str());
                    c.append(")");
                    c
                },
                None => "None".to_owned(),
            };
            r.append(code.as_str());
            r.append(" }");
            r
        },
        ServiceState::External { healthy } => {
            let mut r = "External { healthy: ".to_owned();
            r.append(truth_text(*healthy));
            r.append(" }");
            r
        },
    }
}

/// Marks a repo-scoped service.
pub open spec fn shared_tag(shared: bool) -> Seq<char> {
    if shared {
        " (shared)"@
    } else {
        ""@
    }
}

fn tag(shared: bool) -> (r: &'static str)
    ensures
        r@ == shared_tag(shared),
{
    if shared {
        " (shared)"
    } else {
        ""
    }
}

/// One line of the state list.
pub open spec fn state_line(s: ServiceView, shared: bool) -> Seq<char> {
    "- **"@ + s.name + "**"@ + shared_tag(shared) + ": "@ + state_debug(s.state) + (match s.pid {
        Some(pid) => " (pid "@ + decimal(pid as nat) + ")"@,
        None => ""@,
    }) + (match s.port {
        Some(port) => " (port "@ + decimal(port as nat) + ")"@,
        None => ""@,
    }) + (if s.restart_count > 0 {
        " ("@ + decimal(s.restart_count as nat) + " restarts)"@
    } else {
        ""@
    }) + "\n"@
}

/// The state list of `services`.
pub open spec fn state_lines(services: Seq<ServiceView>, shared: bool) -> Seq<char>
    decreases services.len(),
{
    if services.len() == 0 {
        Seq::empty()
    } else {
        state_lines(services.drop_last(), shared) + state_line(services.last(), shared)
    }
}

fn parenthesised(before: &str, n: u64, after: &str) -> (r: String)
    ensures
        r@ == before@ + decimal(n as nat) + after@,
{
    let mut r = before.to_owned();
    r.append(number(n).as_str());
    r.append(after);
    r
}

fn state_line_text(s: &ServiceSnapshot, shared: bool) -> (r: String)
    ensures
        r@ == state_line(s@, shared),
{
    let mut r = "- **".to_owned();
    r.append(s.name.as_str());
    r.append("**");
    r.append(tag(shared));
    r.append(": ");
    r.append(state_text(&s.state).as_str());
    let pid: String = match s.pid {
        Some(pid) => parenthesised(" (pid ", pid as u64, ")"),
        None => "".to_owned(),
    };
    r.append(pid.as_str());
    let port: String = match s.port {
        Some(port) => parenthesised(" (port ", port as u64, ")"),
        None => "".to_owned(),
    };
    r.append(port.as_str());
    let restarts: String = if s.restart_count > 0 {
        parenthesised(" (", s.restart_count as u64, " restarts)")
    } else {
        "".to_owned()
    };
    r.append(restarts.as_str());
    r.append("\n");
    r
}

fn append_states(out: &mut String, services: &Vec<ServiceSnapshot>, shared: bool)
    ensures
        final(out)@ == old(out)@ + state_lines(views(services@), shared),
{
    let ghost start = out@;
    let ghost all = views(services@);
    let mut i: usize = 0;
    assert(out@ =~= start + state_lines(all.take(0), shared));
    while i < services.len()
        invariant
            i <= services.len(),
            all == views(services@),
            out@ == start + state_lines(all.take(i as int), shared),
        decreases services.len() - i,
    {
        assert(all.take(i + 1).drop_last() =~= all.take(i as int));
        assert(all.take(i + 1).last() == services@[i as int]@);
        out.append(state_line_text(&services[i], shared).as_str());
        i = i + 1;
        assert(out@ =~= start + state_lines(all.take(i as int), shared));
    }
    assert(all.take(i as int) =~= all);
}

/// Lines, each ended by a newline.
pub open spec fn ended(lines: Seq<Seq<char>>) -> Seq<char>
    decreases lines.len(),
{
    if lines.len() == 0 {
        Seq::empty()
    } else {
        ended(lines.drop_last()) + lines.last() + "\n"@
    }
}

fn append_ended(out: &mut String, lines: &VecDeque<String>, from: usize)
    requires
        from <= lines@.len(),
    ensures
        final(out)@ == old(out)@ + ended(texts(lines@).skip(from as int)),
{
    let ghost start = out@;
    let ghost all = texts(lines@).skip(from as int);
    let mut i: usize = from;
    assert(out@ =~= start + ended(all.take(0)));
    while i < lines.len()
        invariant
            from <= i <= lines@.len(),
            all == texts(lines@).skip(from as int),
            out@ == start + ended(all.take(i - from)),
        decreases lines@.len() - i,
    {
        let ghost k = i - from;
        assert(all.take(k + 1).drop_last() =~= all.take(k));
        assert(all.take(k + 1).last() == lines@[i as int]@);
        out.append(lines[i].as_str());
        out.append("\n");
        i = i + 1;
        assert(out@ =~= start + ended(all.take(k + 1)));
    }
    assert(all.take(i - from) =~= all);
}

/// How many log lines of a service the prompt shows.
pub const PROMPT_LINES: usize = 30;

/// The last lines of a log.
pub open spec fn log_tail(lines: Seq<Seq<char>>) -> Seq<Seq<char>> {
    if lines.len() > PROMPT_LINES {
        lines.skip(lines.len() - PROMPT_LINES)
    } else {
        lines
    }
}

/// A service's log section; none where it has no lines.
pub open spec fn log_section(name: Seq<char>, shared: bool, lines: Seq<Seq<char>>) -> Seq<char> {
    if lines.len() == 0 {
        Seq::empty()
    } else {
        "## "@ + name + shared_tag(shared) + " logs (last "@ + decimal(log_tail(lines).len())
            + ")\n\n```\n"@ + ended(log_tail(lines)) + "```\n\n"@
    }
}

/// The log sections of `services`.
pub open spec fn log_sections(v: StacksView, services: Seq<ServiceView>, shared: bool) -> Seq<char>
    decreases services.len(),
{
    if services.len() == 0 {
        Seq::empty()
    } else {
        log_sections(v, services.drop_last(), shared) + log_section(
            services.last().name,
            shared,
            v.lines(services.last().name),
        )
    }
}

fn log_section_text(name: &str, shared: bool, lines: &VecDeque<String>) -> (r: String)
    ensures
        r@ == log_section(name@, shared, texts(lines@)),
{
    let mut r = String::new();
    let n: usize = lines.len();
    if n == 0 {
        assert(r@ =~= Seq::empty());
        return r;
    }
    let from: usize = if n > PROMPT_LINES {
        n - PROMPT_LINES
    } else {
        0
    };
    assert(texts(lines@).skip(from as int) =~= log_tail(texts(lines@)));
    r.append("## ");
    r.append(name);
    r.append(tag(shared));
    r.append(" logs (last ");
    r.append(number((n - from) as u64).as_str());
    r.append(")\n\n```\n");
    append_ended(&mut r, lines, from);
    r.append("```\n\n");
    assert(r@ =~= log_section(name@, shared, texts(lines@)));
    r
}

fn append_logs(out: &mut String, state: &TuiState, services: &Vec<ServiceSnapshot>, shared: bool)
    requires
        state.wf(),
    ensures
        final(out)@ == old(out)@ + log_sections(state@.stacks, views(services@), shared),
{
    let ghost start = out@;
    let ghost all = views(services@);
    let mut i: usize = 0;
    assert(out@ =~= start + log_sections(state@.stacks, all.take(0), shared));
    while i < services.len()
        invariant
            state.wf(),
            i <= services.len(),
            all == views(services@),
            out@ == start + log_sections(state@.stacks, all.take(i as int), shared),
        decreases services.len() - i,
    {
        assert(all.take(i + 1).drop_last() =~= all.take(i as int));
        assert(all.take(i + 1).last() == services@[i as int]@);
        let logs = state.service_logs(services[i].name.as_str());
        let section = log_section_text(services[i].name.as_str(), shared, logs);
        out.append(section.as_str());
        i = i + 1;
        assert(out@ =~= start + log_sections(state@.stacks, all.take(i as int), shared));
    }
    assert(all.take(i as int) =~= all);
}

/// A dependency check that failed.
pub open spec fn step_failed(s: StepState) -> bool {
    s == StepState::Failed || s == StepState::ProvisionFailed
}

/// What the prompt says of a dependency check: nothing unless it failed.
pub open spec fn step_section(s: StepView, lines: Seq<Seq<char>>) -> Seq<char> {
    if !step_failed(s.state) {
        Seq::empty()
    } else {
        "Step `"@ + s.name + "` is "@ + (if s.state == StepState::Failed {
            "Failed"@
        } else {
            "ProvisionFailed"@
        }) + ".\n"@ + (if lines.len() == 0 {
            ""@
        } else {
            "\n```\n"@ + ended(lines) + "```\n\n"@
        })
    }
}

/// What the prompt says of the dependency checks.
pub open spec fn step_sections(v: StacksView, steps: Seq<StepView>) -> Seq<char>
    decreases steps.len(),
{
    if steps.len() == 0 {
        Seq::empty()
    } else {
        step_sections(v, steps.drop_last()) + step_section(
            steps.last(),
            v.lines(steps.last().name),
        )
    }
}

fn step_section_text(s: &StepSnapshot, lines: &VecDeque<String>) -> (r: String)
    ensures
        r@ == step_section(s@, texts(lines@)),
{
    let mut r = String::new();
    let word = match s.state {
        StepState::Failed => "Failed",
        StepState::ProvisionFailed => "ProvisionFailed",
        _ => {
            assert(r@ =~= Seq::empty());
            return r;
        },
    };
    r.append("Step `");
    r.append(s.name.as_str());
    r.append("` is ");
    r.append(word);
    r.append(".\n");
    let mut fence = "".to_owned();
    if lines.len() > 0 {
        fence = "\n```\n".to_owned();
        append_ended(&mut fence, lines, 0);
        fence.append("```\n\n");
        assert(texts(lines@).skip(0) =~= texts(lines@));
    }
    r.append(fence.as_str());
    assert(r@ =~= step_section(s@, texts(lines@)));
    r
}

fn append_steps(out: &mut String, state: &TuiState, steps: &Vec<StepSnapshot>)
    requires
        state.wf(),
    ensures
        final(out)@ == old(out)@ + step_sections(state@.stacks, views(steps@)),
{
    let ghost start = out@;
    let ghost all = views(steps@);
    let mut i: usize = 0;
    assert(out@ =~= start + step_sections(state@.stacks, all.take(0)));
    while i < steps.len()
        invariant
            state.wf(),
            i <= steps.len(),
            all == views(steps@),
            out@ == start + step_sections(state@.stacks, all.take(i as int)),
        decreases steps.len() - i,
    {
        assert(all.take(i + 1).drop_last() =~= all.take(i as int));
        assert(all.take(i + 1).last() == steps@[i as int]@);
        let logs = state.service_logs(steps[i].name.as_str());
        out.append(step_section_text(&steps[i], logs).as_str());
        i = i + 1;
        assert(out@ =~= start + step_sections(state@.stacks, all.take(i as int)));
    }
    assert(all.take(i as int) =~= all);
}

impl StacksView {
    /// On a stack, the shared services that it does not own: a broken shared
    /// dependency is often the real cause.
    pub open spec fn shared_extras(self) -> Seq<ServiceView> {
        if self.shared_selected {
            Seq::empty()
        } else {
            self.shared.services.filter(not_among(self.services()))
        }
    }

    pub open spec fn prompt_label(self) -> Seq<char> {
        if self.shared_selected {
            "shared"@
        } else {
            match self.current() {
                Some(i) => i.info.label,
                None => Seq::empty(),
            }
        }
    }

    /// The services' part of the prompt.
    pub open spec fn services_part(self) -> Seq<char> {
        let owned = self.services();
        let extras = self.shared_extras();
        if owned.len() == 0 && extras.len() == 0 {
            ""@
        } else {
            "## Service states\n\n"@ + state_lines(owned, false) + state_lines(extras, true) + "\n"@
                + log_sections(self, owned, false) + log_sections(self, extras, true)
        }
    }

    /// The debug prompt, with the contents of the stack's `devme.toml` where it
    /// could be read.
    pub open spec fn debug_prompt(self, toml_exists: bool, toml: Option<Seq<char>>) -> Seq<char> {
        "My devme dev environment ("@ + self.prompt_label() + ").\n\nWorking directory: "@
            + self.current_cwd() + "\n\n"@ + (if self.services().len() > 0 {
            ""@
        } else if toml_exists {
            "devme.toml exists but no services are running (daemon may not have started yet).\n\n"@
        } else {
            "No devme.toml found in this directory.\n\n"@
        }) + self.services_part() + step_sections(self, self.steps()) + (match toml {
            Some(text) => "## devme.toml\n\n```toml\n"@ + text + "```\n\n"@,
            None => ""@,
        }) + "Inspect the environment and help me diagnose any issues."@
    }
}

fn shared_extras(state: &TuiState, owned: &Vec<ServiceSnapshot>) -> (r: Vec<ServiceSnapshot>)
    requires
        views(owned@) == state@.stacks.services(),
    ensures
        views(r@) == state@.stacks.shared_extras(),
{
    let mut r: Vec<ServiceSnapshot> = Vec::new();
    if state.shared_selected() {
        assert(views(r@) =~= Seq::empty());
        return r;
    }
    let shared = state.shared_services();
    let ghost all = views(shared@);
    let ghost p = not_among(views(owned@));
    let mut i: usize = 0;
    proof {
        reveal(Seq::filter);
        assert(views(r@) =~= all.take(0).filter(p));
    }
    while i < shared.len()
        invariant
            i <= shared.len(),
            all == views(shared@),
            p == not_among(views(owned@)),
            views(r@) == all.take(i as int).filter(p),
        decreases shared.len() - i,
    {
        let ghost before = views(r@);
        proof {
            reveal(Seq::filter);
            assert(all.take(i + 1).drop_last() =~= all.take(i as int));
            assert(all.take(i + 1).last() == shared@[i as int]@);
        }
        if !is_named_in(owned, shared[i].name.as_str()) {
            r.push(shared[i].clone());
            assert(views(r@) =~= before.push(all[i as int]));
        }
        i = i + 1;
    }
    assert(all.take(i as int) =~= all);
    r
}

fn services_part_text(
    state: &TuiState,
    owned: &Vec<ServiceSnapshot>,
    extras: &Vec<ServiceSnapshot>,
) -> (r: String)
    requires
        state.wf(),
        views(owned@) == state@.stacks.services(),
        views(extras@) == state@.stacks.shared_extras(),
    ensures
        r@ == state@.stacks.services_part(),
{
    if owned.len() == 0 && extras.len() == 0 {
        return "".to_owned();
    }
    let mut r = "## Service states\n\n".to_owned();
    append_states(&mut r, owned, false);
    append_states(&mut r, extras, true);
    r.append("\n");
    append_logs(&mut r, state, owned, false);
    append_logs(&mut r, state, extras, true);
    r
}

/// Builds the debug prompt. `toml_exists` says whether the stack has a
/// `devme.toml`, `toml` holds its contents where they could be read.
pub fn build_debug_prompt(state: &TuiState, toml_exists: bool, toml: Option<&str>) -> (r: String)
    requires
        state.wf(),
    ensures
        r@ == state@.stacks.debug_prompt(toml_exists, opt_str(toml)),
{
    let owned = state.services();
    let extras = shared_extras(state, &owned);
    let steps = state.steps();
    let mut r = "My devme dev environment (".to_owned();
    r.append(
        if state.shared_selected() {
            "shared"
        } else {
            state.instance_label()
        },
    );
    r.append(").\n\nWorking directory: ");
    r.append(state.current_instance_cwd());
    r.append("\n\n");
    r.append(
        if owned.len() > 0 {
            ""
        } else if toml_exists {
            "devme.toml exists but no services are running (daemon may not have started yet).\n\n"
        } else {
            "No devme.toml found in this directory.\n\n"
        },
    );
    r.append(services_part_text(state, &owned, &extras).as_str());
    append_steps(&mut r, state, &steps);
    let contents: String = match toml {
        Some(text) => {
            let mut t = "## devme.toml\n\n```toml\n".to_owned();
            t.append(text);
            t.append("```\n\n");
            t
        },
        None => "".to_owned(),
    };
    r.append(contents.as_str());
    r.append("Inspect the environment and help me diagnose any issues.");
    r
}

} // verus!
