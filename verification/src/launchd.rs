//! The launchd agent that starts the daemon at login: its property list, where
//! it is stored, which binary it starts, and the `launchctl` calls that load
//! and unload it.

use vstd::prelude::*;

use crate::paths::{home_dir, join, join_path, lemma_join_ends_with};
use crate::text::{contains, contains_str, ends_with, lemma_occurs_in_middle, lemma_occurs_whole, starts_with};

verus! {

/// Where the agent's property list lies below the home directory.
pub open spec fn plist_relative_path() -> Seq<char> {
    "Library/LaunchAgents/com.termpop.daemon.plist"@
}

/// The agent's property list below the home directory `home`, or below `~`
/// where there is none.
pub open spec fn plist_path_in(home: Option<Seq<char>>) -> Seq<char> {
    let dir = match home {
        Some(h) => h,
        None => "~"@,
    };
    join(dir, plist_relative_path())
}

/// The agent's property list below the home directory `home`, or below `~`
/// where there is none.
pub fn plist_path_under(home: Option<String>) -> (p: String)
    ensures
        p@ == plist_path_in(crate::text::opt_view(home)),
        ends_with(p@, plist_relative_path()),
{
    let dir = match &home {
        Some(h) => h.as_str(),
        None => "~",
    };
    let p = join_path(dir, "Library/LaunchAgents/com.termpop.daemon.plist");
    proof {
        lemma_join_ends_with(dir@, plist_relative_path());
    }
    p
}

/// The agent's property list:
/// `Library/LaunchAgents/com.termpop.daemon.plist` below the user's home
/// directory, or below `~` where the platform reports none.
pub fn plist_path() -> (p: String)
    ensures
        exists|dir: Option<Seq<char>>| p@ == plist_path_in(dir),
        ends_with(p@, plist_relative_path()),
{
    let dir = home_dir();
    let ghost found = crate::text::opt_view(dir);
    let p = plist_path_under(dir);
    assert(p@ == plist_path_in(found));
    p
}

/// The property list up to the place of the binary's path.
pub open spec fn plist_head() -> Seq<char> {
    "<?xml version=\"1.0\" encoding=\"UTF-8\"?>\n<!DOCTYPE plist PUBLIC \"-//Apple//DTD PLIST 1.0//EN\" \"http://www.apple.com/DTDs/PropertyList-1.0.dtd\">\n"@
        + "<plist version=\"1.0\">"@
        + "\n<dict>\n    <key>Label</key>\n    "@
        + "<string>com.termpop.daemon</string>"@
        + "\n    <key>ProgramArguments</key>\n    <array>\n        "@
        + "<string>"@
}

/// The property list after the binary's path.
pub open spec fn plist_tail() -> Seq<char> {
    "</string>"@
        + "\n        "@
        + "<string>daemon</string>"@
        + "\n    </array>\n    "@
        + "<key>RunAtLoad</key>"@
        + "\n    "@
        + "<true/>"@
        + "\n    <key>KeepAlive</key>\n    <false/>\n    <key>StandardOutPath</key>\n    <string>/tmp/termpop.out.log</string>\n    <key>StandardErrorPath</key>\n    <string>/tmp/termpop.err.log</string>\n</dict>\n"@
        + "</plist>"@
        + "\n"@
}

/// The property list of the agent that starts `binary_path daemon` at login:
/// label `com.termpop.daemon`, run at load, not kept alive, output logged to
/// `/tmp/termpop.out.log` and `/tmp/termpop.err.log`.  The path is written
/// into the document as it is.
pub fn generate_plist(binary_path: &str) -> (plist: String)
    ensures
        plist@ == plist_head() + binary_path@ + plist_tail(),
        starts_with(plist@, "<?xml version="@),
        contains(plist@, "<plist version=\"1.0\">"@),
        contains(plist@, "<string>com.termpop.daemon</string>"@),
        contains(plist@, "<string>"@ + binary_path@ + "</string>"@),
        contains(plist@, "<string>daemon</string>"@),
        contains(plist@, "<key>RunAtLoad</key>"@),
        contains(plist@, "<true/>"@),
        contains(plist@, "</plist>"@),
{
    let mut s = String::from_str(
        "<?xml version=\"1.0\" encoding=\"UTF-8\"?>\n<!DOCTYPE plist PUBLIC \"-//Apple//DTD PLIST 1.0//EN\" \"http://www.apple.com/DTDs/PropertyList-1.0.dtd\">\n",
    );
    s.append("<plist version=\"1.0\">");
    s.append("\n<dict>\n    <key>Label</key>\n    ");
    s.append("<string>com.termpop.daemon</string>");
    s.append("\n    <key>ProgramArguments</key>\n    <array>\n        ");
    s.append("<string>");
    let ghost head = s@;
    s.append(binary_path);
    s.append("</string>");
    s.append("\n        ");
    s.append("<string>daemon</string>");
    s.append("\n    </array>\n    ");
    s.append("<key>RunAtLoad</key>");
    s.append("\n    ");
    s.append("<true/>");
    s.append(
        "\n    <key>KeepAlive</key>\n    <false/>\n    <key>StandardOutPath</key>\n    <string>/tmp/termpop.out.log</string>\n    <key>StandardErrorPath</key>\n    <string>/tmp/termpop.err.log</string>\n</dict>\n",
    );
    s.append("</plist>");
    s.append("\n");
    proof {
        assert(s@ =~= plist_head() + binary_path@ + plist_tail());
        lemma_plist_starts_with_xml(binary_path@);
        lemma_plist_head_parts(binary_path@);
        lemma_plist_argument(binary_path@);
        lemma_plist_tail_parts(binary_path@);
    }
    s
}

/// The property list opens with the XML declaration.
proof fn lemma_plist_starts_with_xml(p: Seq<char>)
    ensures
        starts_with(plist_head() + p + plist_tail(), "<?xml version="@),
{
    let x0 = "<?xml version=\"1.0\" encoding=\"UTF-8\"?>\n<!DOCTYPE plist PUBLIC \"-//Apple//DTD PLIST 1.0//EN\" \"http://www.apple.com/DTDs/PropertyList-1.0.dtd\">\n"@;
    let whole = plist_head() + p + plist_tail();
    reveal_strlit("<?xml version=");
    reveal_strlit("<?xml version=\"1.0\" encoding=\"UTF-8\"?>\n<!DOCTYPE plist PUBLIC \"-//Apple//DTD PLIST 1.0//EN\" \"http://www.apple.com/DTDs/PropertyList-1.0.dtd\">\n");
    assert(whole.subrange(0, 14) =~= x0.subrange(0, 14));
    assert(x0.subrange(0, 14) =~= "<?xml version="@);
}

/// The property list holds its root element and its label.
proof fn lemma_plist_head_parts(p: Seq<char>)
    ensures
        contains(plist_head() + p + plist_tail(), "<plist version=\"1.0\">"@),
        contains(plist_head() + p + plist_tail(), "<string>com.termpop.daemon</string>"@),
{
    let x0 = "<?xml version=\"1.0\" encoding=\"UTF-8\"?>\n<!DOCTYPE plist PUBLIC \"-//Apple//DTD PLIST 1.0//EN\" \"http://www.apple.com/DTDs/PropertyList-1.0.dtd\">\n"@;
    let x1 = "<plist version=\"1.0\">"@;
    let x2 = "\n<dict>\n    <key>Label</key>\n    "@;
    let x3 = "<string>com.termpop.daemon</string>"@;
    let x4 = "\n    <key>ProgramArguments</key>\n    <array>\n        "@;
    let x5 = "<string>"@;
    let whole = plist_head() + p + plist_tail();
    lemma_contains_piece(x0, x1, x2 + x3 + x4 + x5 + p + plist_tail());
    assert(whole =~= x0 + x1 + (x2 + x3 + x4 + x5 + p + plist_tail()));
    lemma_contains_piece(x0 + x1 + x2, x3, x4 + x5 + p + plist_tail());
    assert(whole =~= (x0 + x1 + x2) + x3 + (x4 + x5 + p + plist_tail()));
}

/// The property list names the binary as the program to run.
proof fn lemma_plist_argument(p: Seq<char>)
    ensures
        contains(plist_head() + p + plist_tail(), "<string>"@ + p + "</string>"@),
{
    let x0 = "<?xml version=\"1.0\" encoding=\"UTF-8\"?>\n<!DOCTYPE plist PUBLIC \"-//Apple//DTD PLIST 1.0//EN\" \"http://www.apple.com/DTDs/PropertyList-1.0.dtd\">\n"@;
    let x1 = "<plist version=\"1.0\">"@;
    let x2 = "\n<dict>\n    <key>Label</key>\n    "@;
    let x3 = "<string>com.termpop.daemon</string>"@;
    let x4 = "\n    <key>ProgramArguments</key>\n    <array>\n        "@;
    let x5 = "<string>"@;
    let y0 = "</string>"@;
    let rest = plist_tail().subrange(y0.len() as int, plist_tail().len() as int);
    assert(plist_tail() =~= y0 + rest);
    let whole = plist_head() + p + plist_tail();
    lemma_contains_piece(x0 + x1 + x2 + x3 + x4, x5 + p + y0, rest);
    assert(whole =~= (x0 + x1 + x2 + x3 + x4) + (x5 + p + y0) + rest);
}

/// The property list runs the daemon, at load.
proof fn lemma_plist_tail_parts(p: Seq<char>)
    ensures
        contains(plist_head() + p + plist_tail(), "<string>daemon</string>"@),
        contains(plist_head() + p + plist_tail(), "<key>RunAtLoad</key>"@),
        contains(plist_head() + p + plist_tail(), "<true/>"@),
        contains(plist_head() + p + plist_tail(), "</plist>"@),
{
    let y0 = "</string>"@;
    let y1 = "\n        "@;
    let y2 = "<string>daemon</string>"@;
    let y3 = "\n    </array>\n    "@;
    let y4 = "<key>RunAtLoad</key>"@;
    let y5 = "\n    "@;
    let y6 = "<true/>"@;
    let y7 = "\n    <key>KeepAlive</key>\n    <false/>\n    <key>StandardOutPath</key>\n    <string>/tmp/termpop.out.log</string>\n    <key>StandardErrorPath</key>\n    <string>/tmp/termpop.err.log</string>\n</dict>\n"@;
    let y8 = "</plist>"@;
    let y9 = "\n"@;
    let whole = plist_head() + p + plist_tail();
    let pre_y2 = plist_head() + p + y0 + y1;
    lemma_contains_piece(pre_y2, y2, y3 + y4 + y5 + y6 + y7 + y8 + y9);
    assert(whole =~= pre_y2 + y2 + (y3 + y4 + y5 + y6 + y7 + y8 + y9));
    let pre_y4 = pre_y2 + y2 + y3;
    lemma_contains_piece(pre_y4, y4, y5 + y6 + y7 + y8 + y9);
    assert(whole =~= pre_y4 + y4 + (y5 + y6 + y7 + y8 + y9));
    let pre_y6 = pre_y4 + y4 + y5;
    lemma_contains_piece(pre_y6, y6, y7 + y8 + y9);
    assert(whole =~= pre_y6 + y6 + (y7 + y8 + y9));
    let pre_y8 = pre_y6 + y6 + y7;
    lemma_contains_piece(pre_y8, y8, y9);
    assert(whole =~= pre_y8 + y8 + y9);
}

/// The binary inside the application bundle installed in `/Applications`.
pub open spec fn app_bundle_binary() -> Seq<char> {
    "/Applications/TermPop.app/Contents/MacOS/termpop"@
}

/// The mark of a binary that runs from inside an application bundle.
pub open spec fn app_bundle_marker() -> Seq<char> {
    ".app/Contents/MacOS/"@
}

/// The binary that the agent starts, given the path of the running binary
/// and whether the application bundle is installed in `/Applications`: the
/// running binary where it lies inside an application bundle, else the
/// installed bundle's binary where there is one, else the running binary.
pub open spec fn binary_path_for(exe: Seq<char>, bundle_installed: bool) -> Seq<char> {
    if contains(exe, app_bundle_marker()) {
        exe
    } else if bundle_installed {
        app_bundle_binary()
    } else {
        exe
    }
}

/// Whether the binary at `exe` runs from inside an application bundle.
pub fn runs_from_app_bundle(exe: &str) -> (b: bool)
    ensures
        b == contains(exe@, app_bundle_marker()),
{
    contains_str(exe, ".app/Contents/MacOS/")
}

/// The binary that the agent starts (see [`binary_path_for`]).
pub fn resolve_binary_path_from(exe: &str, bundle_installed: bool) -> (path: String)
    ensures
        path@ == binary_path_for(exe@, bundle_installed),
{
    if runs_from_app_bundle(exe) {
        String::from_str(exe)
    } else if bundle_installed {
        String::from_str("/Applications/TermPop.app/Contents/MacOS/termpop")
    } else {
        String::from_str(exe)
    }
}

/// The decimal digit of `d`, for `d` below ten.
pub open spec fn digit_char(d: nat) -> char {
    ((d + 48) as u32) as char
}

/// The decimal numeral of `n`, without leading zeros.
pub open spec fn decimal(n: nat) -> Seq<char>
    decreases n,
{
    if n < 10 {
        seq![digit_char(n)]
    } else {
        decimal(n / 10).push(digit_char(n % 10))
    }
}

/// The one-character text of the decimal digit `d`.
fn digit_str(d: u32) -> (s: &'static str)
    requires
        d < 10,
    ensures
        s@ == seq![digit_char(d as nat)],
{
    proof {
        reveal_strlit("0");
        reveal_strlit("1");
        reveal_strlit("2");
        reveal_strlit("3");
        reveal_strlit("4");
        reveal_strlit("5");
        reveal_strlit("6");
        reveal_strlit("7");
        reveal_strlit("8");
        reveal_strlit("9");
    }
    if d == 0 { "0" }
    else if d == 1 { "1" }
    else if d == 2 { "2" }
    else if d == 3 { "3" }
    else if d == 4 { "4" }
    else if d == 5 { "5" }
    else if d == 6 { "6" }
    else if d == 7 { "7" }
    else if d == 8 { "8" }
    else { "9" }
}

/// Appends the decimal numeral of `n` to `out`.
fn push_decimal(out: &mut String, n: u32)
    ensures
        final(out)@ == old(out)@ + decimal(n as nat),
    decreases n,
{
    if n >= 10 {
        push_decimal(out, n / 10);
    }
    out.append(digit_str(n % 10));
    proof {
        if n >= 10 {
            assert(decimal(n as nat) == decimal((n / 10) as nat).push(digit_char((n % 10) as nat)));
        }
    }
}

/// The launchd domain of the GUI session of the user `uid`: `gui/<uid>`.
pub fn launchctl_domain(uid: u32) -> (domain: String)
    ensures
        domain@ == "gui/"@ + decimal(uid as nat),
{
    let mut domain = String::from_str("gui/");
    push_decimal(&mut domain, uid);
    domain
}

/// A call of `launchctl` that loads or unloads the agent.
#[derive(Debug, Clone, Copy, PartialEq, Eq, Structural)]
pub enum LaunchctlCall {
    /// `launchctl bootstrap <domain> <plist>`: load and start the agent.
    Bootstrap,
    /// `launchctl load <plist>`: the older way to load it.
    Load,
    /// `launchctl bootout <domain> <plist>`: stop and unload the agent.
    Bootout,
    /// `launchctl unload <plist>`: the older way to unload it.
    Unload,
}

/// The texts of a list of strings.
pub open spec fn texts(v: Seq<String>) -> Seq<Seq<char>> {
    v.map_values(|s: String| s@)
}

/// The arguments that `launchctl` is given for a call, in the domain
/// `domain`, on the property list at `plist`.
pub open spec fn launchctl_args_of(call: LaunchctlCall, domain: Seq<char>, plist: Seq<char>) -> Seq<Seq<char>> {
    match call {
        LaunchctlCall::Bootstrap => seq!["bootstrap"@, domain, plist],
        LaunchctlCall::Load => seq!["load"@, plist],
        LaunchctlCall::Bootout => seq!["bootout"@, domain, plist],
        LaunchctlCall::Unload => seq!["unload"@, plist],
    }
}

/// The arguments of a call of `launchctl` (see [`launchctl_args_of`]).
pub fn launchctl_args(call: LaunchctlCall, domain: &str, plist: &str) -> (args: Vec<String>)
    ensures
        texts(args@) == launchctl_args_of(call, domain@, plist@),
{
    let mut args: Vec<String> = Vec::new();
    match call {
        LaunchctlCall::Bootstrap => {
            args.push(String::from_str("bootstrap"));
            args.push(String::from_str(domain));
        },
        LaunchctlCall::Load => {
            args.push(String::from_str("load"));
        },
        LaunchctlCall::Bootout => {
            args.push(String::from_str("bootout"));
            args.push(String::from_str(domain));
        },
        LaunchctlCall::Unload => {
            args.push(String::from_str("unload"));
        },
    }
    args.push(String::from_str(plist));
    assert(texts(args@) =~= launchctl_args_of(call, domain@, plist@));
    args
}

/// Loading the agent starts with `bootstrap`; unloading starts with `bootout`.
pub fn first_call(install: bool) -> (call: LaunchctlCall)
    ensures
        call == if install { LaunchctlCall::Bootstrap } else { LaunchctlCall::Bootout },
{
    if install { LaunchctlCall::Bootstrap } else { LaunchctlCall::Bootout }
}

/// The call that follows `call` given whether it succeeded, or `None` where
/// the sequence is over: a failed `bootstrap` is followed by the older
/// `load`; `bootout` is followed by `unload` whatever its outcome; `load`
/// and `unload` end the sequence, as does a successful `bootstrap`.
pub fn next_call(call: LaunchctlCall, succeeded: bool) -> (next: Option<LaunchctlCall>)
    ensures
        next == match call {
            LaunchctlCall::Bootstrap => if succeeded { None } else { Some(LaunchctlCall::Load) },
            LaunchctlCall::Bootout => Some(LaunchctlCall::Unload),
            _ => None,
        },
{
    match call {
        LaunchctlCall::Bootstrap => if succeeded {
            None
        } else {
            Some(LaunchctlCall::Load)
        },
        LaunchctlCall::Bootout => Some(LaunchctlCall::Unload),
        _ => None,
    }
}

/// A text made of pieces contains each of its pieces.
proof fn lemma_contains_piece(pre: Seq<char>, part: Seq<char>, post: Seq<char>)
    ensures
        contains(pre + part + post, part),
{
    lemma_occurs_whole(part);
    lemma_occurs_in_middle(pre, part, post, part, 0);
}

} // verus!
