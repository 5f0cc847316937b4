//! The clipboard: when the terminal carries a copy rather than the operating
//! system, and how.
use vstd::prelude::*;

use crate::codec::{base64_encoded, encode_payload, payload_text};
use crate::text::{contains, has, lowered, opt_str, to_lower};

verus! {

/// A Linux under Windows, by what its environment and its kernel release say.
pub open spec fn wsl(distro: bool, interop: bool, osrelease: Option<Seq<char>>) -> bool {
    distro || interop || match osrelease {
        Some(s) => contains(lowered(s), "microsoft"@) || contains(lowered(s), "wsl"@),
        None => false,
    }
}

/// Whether this is a Linux under Windows. `distro` and `interop` say whether
/// the variables of that name are set.
pub fn is_wsl(distro: bool, interop: bool, osrelease: Option<&str>) -> (r: bool)
    ensures
        r == wsl(distro, interop, opt_str(osrelease)),
{
    if distro || interop {
        return true;
    }
    match osrelease {
        Some(s) => {
            let l = to_lower(s);
            has(l.as_str(), "microsoft") || has(l.as_str(), "wsl")
        },
        None => false,
    }
}

/// Whether to skip the native clipboard: in SSH and WSL sessions it isn't the
/// user's.
#[verifier::allow_in_spec]
pub fn prefer_osc52(ssh_connection: bool, ssh_tty: bool, wsl: bool) -> (r: bool)
    ensures
        r == (ssh_connection || ssh_tty || wsl),
    returns
        ssh_connection || ssh_tty || wsl,
{
    ssh_connection || ssh_tty || wsl
}

/// The escape sequence that has the terminal put `text` on the clipboard. Its
/// payload decodes to the text.
pub fn osc52(text: &str) -> (r: String)
    ensures
        ({
            let payload = base64_encoded(vstd::utf8::encode_utf8(text@));
            &&& r@ == "\x1b]52;c;"@ + payload + "\x07"@
            &&& payload_text(payload) == Some(text@)
        }),
{
    let mut r = "\x1b]52;c;".to_owned();
    let payload = encode_payload(text);
    r.append(payload.as_str());
    r.append("\x07");
    r
}

/// A program that takes the clipboard's text on its input.
pub struct ClipboardTool {
    pub program: &'static str,
    pub args: Vec<&'static str>,
}

#[verifier::ext_equal]
pub ghost struct ToolView {
    pub program: Seq<char>,
    pub args: Seq<Seq<char>>,
}

impl View for ClipboardTool {
    type V = ToolView;

    open spec fn view(&self) -> ToolView {
        ToolView { program: self.program@, args: crate::lists::views(self.args@) }
    }
}

/// The programs to try, in order: the system's own on macOS, elsewhere
/// Wayland's and then the X11 helpers.
pub open spec fn tools(macos: bool) -> Seq<ToolView> {
    if macos {
        seq![ToolView { program: "pbcopy"@, args: Seq::empty() }]
    } else {
        seq![
            ToolView { program: "wl-copy"@, args: Seq::empty() },
            ToolView { program: "xclip"@, args: seq!["-selection"@, "clipboard"@] },
            ToolView { program: "xsel"@, args: seq!["--clipboard"@, "--input"@] },
        ]
    }
}

/// The programs to try for the native clipboard, in order.
pub fn copy_native(macos: bool) -> (r: Vec<ClipboardTool>)
    ensures
        crate::lists::views(r@) == tools(macos),
{
    let mut r: Vec<ClipboardTool> = Vec::new();
    if macos {
        r.push(ClipboardTool { program: "pbcopy", args: Vec::new() });
        assert(crate::lists::views(r@) =~~= tools(macos));
        return r;
    }
    r.push(ClipboardTool { program: "wl-copy", args: Vec::new() });
    r.push(ClipboardTool { program: "xclip", args: vec!["-selection", "clipboard"] });
    r.push(ClipboardTool { program: "xsel", args: vec!["--clipboard", "--input"] });
    assert(crate::lists::views(r@) =~~= tools(macos));
    r
}

/// What copying comes to next.
#[derive(Debug, PartialEq, Eq)]
pub enum CopyStep {
    /// Nothing (more) is to be done.
    Done,
    /// Try the native clipboard.
    Native,
    /// Write this sequence to the terminal.
    Terminal(String),
}

/// The next step of a copy: the native clipboard first, unless the terminal is
/// preferred, and the terminal where that failed. `native` says how the native
/// attempt went, once it was made.
pub fn copy_to_clipboard(text: Option<&str>, prefer_terminal: bool, native: Option<bool>) -> (r:
    CopyStep)
    ensures
        match r {
            CopyStep::Done => text is None || (!prefer_terminal && native == Some(true)),
            CopyStep::Native => text is Some && !prefer_terminal && native is None,
            CopyStep::Terminal(s) => text is Some && (prefer_terminal || native == Some(false))
                && s@ == "\x1b]52;c;"@ + base64_encoded(vstd::utf8::encode_utf8(text->0@))
                + "\x07"@,
        },
{
    match text {
        None => CopyStep::Done,
        Some(text) => {
            if prefer_terminal {
                return CopyStep::Terminal(osc52(text));
            }
            match native {
                None => CopyStep::Native,
                Some(true) => CopyStep::Done,
                Some(false) => CopyStep::Terminal(osc52(text)),
            }
        },
    }
}

} // verus!
