//! The invocation of the worker binary, for each of the three hosts.
use vstd::prelude::*;

use crate::escape::{escaped, shell_escape};

verus! {

/// Facts about the host that decide how the worker binary is started.
#[derive(Debug)]
pub struct Host {
    /// The host runs Windows.
    pub windows: bool,
    /// On Windows, the worker is started inside the Linux compatibility bridge.
    pub bridge_enabled: bool,
    /// The running application's version, as text.
    pub app_version: String,
    /// The application's local data directory.
    pub state_dir: String,
    /// The bundled worker binary next to the application's executable.
    pub sidecar_path: String,
    /// The user's login shell.
    pub shell: String,
}

/// What is started: a bundled binary by name, or a program by path.
#[derive(Debug)]
pub enum Program {
    Sidecar(String),
    Path(String),
}

/// A fully specified invocation: program, arguments, and environment variables.
#[derive(Debug)]
pub struct Invocation {
    pub program: Program,
    pub args: Vec<String>,
    pub envs: Vec<(String, String)>,
}

/// Text pairs as pairs of character sequences.
pub open spec fn pairs_view(v: Seq<(String, String)>) -> Seq<(Seq<char>, Seq<char>)> {
    v.map_values(|p: (String, String)| (p.0@, p.1@))
}

/// Texts as character sequences.
pub open spec fn texts_view(v: Seq<String>) -> Seq<Seq<char>> {
    v.map_values(|s: String| s@)
}

impl Invocation {
    /// Whether the program is a bundled binary, and its name or path.
    pub open spec fn program_view(&self) -> (bool, Seq<char>) {
        match self.program {
            Program::Sidecar(name) => (true, name@),
            Program::Path(path) => (false, path@),
        }
    }

    pub open spec fn args_view(&self) -> Seq<Seq<char>> {
        texts_view(self.args@)
    }

    pub open spec fn envs_view(&self) -> Seq<(Seq<char>, Seq<char>)> {
        pairs_view(self.envs@)
    }
}

/// The variables that every invocation of the worker receives.
pub open spec fn default_envs(state_dir: Seq<char>) -> Seq<(Seq<char>, Seq<char>)> {
    seq![
        ("OPENCODE_EXPERIMENTAL_ICON_DISCOVERY"@, "true"@),
        ("OPENCODE_EXPERIMENTAL_FILEWATCHER"@, "true"@),
        ("OPENCODE_CLIENT"@, "desktop"@),
        ("XDG_STATE_HOME"@, state_dir),
    ]
}

/// The defaults followed by the caller's extra variables.
pub open spec fn merged_envs(
    state_dir: Seq<char>,
    extra: Seq<(Seq<char>, Seq<char>)>,
) -> Seq<(Seq<char>, Seq<char>)> {
    default_envs(state_dir) + extra
}

/// The four names that the bridge script sets itself.
pub open spec fn is_reserved(k: Seq<char>) -> bool {
    k == "OPENCODE_EXPERIMENTAL_ICON_DISCOVERY"@ || k == "OPENCODE_EXPERIMENTAL_FILEWATCHER"@ || k
        == "OPENCODE_CLIENT"@ || k == "XDG_STATE_HOME"@
}

/// The assignments that open every bridge script's export list.
pub open spec fn fixed_exports() -> Seq<(Seq<char>, Seq<char>)> {
    seq![
        ("OPENCODE_EXPERIMENTAL_ICON_DISCOVERY"@, "true"@),
        ("OPENCODE_EXPERIMENTAL_FILEWATCHER"@, "true"@),
        ("OPENCODE_CLIENT"@, "desktop"@),
        ("XDG_STATE_HOME"@, "\"$HOME/.local/state\""@),
    ]
}

/// The entries of `l` not named `k`, in order.
pub open spec fn without_name(l: Seq<(Seq<char>, Seq<char>)>, k: Seq<char>) -> Seq<
    (Seq<char>, Seq<char>),
>
    decreases l.len(),
{
    if l.len() == 0 {
        Seq::empty()
    } else {
        let w = without_name(l.drop_last(), k);
        if l.last().0 == k {
            w
        } else {
            w.push(l.last())
        }
    }
}

/// The entries of `envs` whose names are not reserved, each value quoted. Where a name
/// recurs, its last entry alone stays, and stands after the entries that came before it.
pub open spec fn quoted_exports(envs: Seq<(Seq<char>, Seq<char>)>) -> Seq<(Seq<char>, Seq<char>)>
    decreases envs.len(),
{
    if envs.len() == 0 {
        Seq::empty()
    } else {
        let prev = quoted_exports(envs.drop_last());
        let (k, v) = envs.last();
        if is_reserved(k) {
            prev
        } else {
            without_name(prev, k).push((k, escaped(v)))
        }
    }
}

/// The bridge script's export list: name and value text of each assignment.
pub open spec fn export_list(
    state_dir: Seq<char>,
    extra: Seq<(Seq<char>, Seq<char>)>,
) -> Seq<(Seq<char>, Seq<char>)> {
    fixed_exports() + quoted_exports(merged_envs(state_dir, extra))
}

/// `NAME=value`.
pub open spec fn assignment(p: (Seq<char>, Seq<char>)) -> Seq<char> {
    p.0 + "="@ + p.1
}

/// The assignments of `list`, separated by single blanks.
pub open spec fn joined(list: Seq<(Seq<char>, Seq<char>)>) -> Seq<char>
    decreases list.len(),
{
    if list.len() == 0 {
        Seq::empty()
    } else if list.len() == 1 {
        assignment(list[0])
    } else {
        joined(list.drop_last()) + " "@ + assignment(list.last())
    }
}

/// The script run inside the bridge: install the worker if it is missing, then run it
/// with the export list and the argument text appended as it is.
pub open spec fn bridge_script(
    version: Seq<char>,
    state_dir: Seq<char>,
    extra: Seq<(Seq<char>, Seq<char>)>,
    args: Seq<char>,
) -> Seq<char> {
    "set -e\nBIN=\"$HOME/.opencode/bin/opencode\"\nif [ ! -x \"$BIN\" ]; then\n  curl -fsSL https://opencode.ai/install | bash -s -- --version "@
        + escaped(version) + " --no-modify-path\nfi\n"@ + joined(export_list(state_dir, extra))
        + " exec \"$BIN\" "@ + args
}

/// The shell's path names the nu shell, which needs `^` before an external command.
pub open spec fn is_nu_shell(shell: Seq<char>) -> bool {
    shell.len() >= 3 && shell.subrange(shell.len() - 3, shell.len() as int) == "/nu"@
}

/// The one-line command that the user's login shell runs on a Unix host.
pub open spec fn unix_line(shell: Seq<char>, sidecar: Seq<char>, args: Seq<char>) -> Seq<char> {
    (if is_nu_shell(shell) {
        "^\""@
    } else {
        "\""@
    }) + sidecar + "\" "@ + args
}

/// The characters with Unicode's White_Space property.
pub open spec fn is_unicode_whitespace(c: char) -> bool {
    let u = c as u32;
    (0x9 <= u <= 0xd) || u == 0x20 || u == 0x85 || u == 0xa0 || u == 0x1680 || (0x2000 <= u
        <= 0x200a) || u == 0x2028 || u == 0x2029 || u == 0x202f || u == 0x205f || u == 0x3000
}

/// The words of `s`, the word `cur` being read when `s` begins.
pub open spec fn words_from(s: Seq<char>, cur: Seq<char>) -> Seq<Seq<char>>
    decreases s.len(),
{
    let done = if cur.len() == 0 {
        Seq::<Seq<char>>::empty()
    } else {
        seq![cur]
    };
    if s.len() == 0 {
        done
    } else if is_unicode_whitespace(s[0]) {
        done + words_from(s.drop_first(), Seq::empty())
    } else {
        words_from(s.drop_first(), cur.push(s[0]))
    }
}

/// The longest runs of non-whitespace characters of `s`, in order.
pub open spec fn whitespace_words(s: Seq<char>) -> Seq<Seq<char>> {
    words_from(s, Seq::empty())
}

/// Relies on `str::split_whitespace`: the pieces of `s` between runs of Unicode
/// whitespace, in order, empty pieces left out.
#[verifier::external_body]
fn split_words(s: &str) -> (r: Vec<String>)
    ensures
        texts_view(r@) == whitespace_words(s@),
{
    s.split_whitespace().map(|w| w.to_string()).collect()
}

/// The user's login shell: the given one, else `/bin/sh`.
pub fn user_shell(shell_var: Option<String>) -> (r: String)
    ensures
        r@ == match shell_var {
            Some(s) => s@,
            None => "/bin/sh"@,
        },
{
    match shell_var {
        Some(s) => s,
        None => String::from_str("/bin/sh"),
    }
}

fn is_nu(shell: &str) -> (r: bool)
    ensures
        r == is_nu_shell(shell@),
{
    let n = shell.unicode_len();
    if n < 3 {
        return false;
    }
    let tail = String::from_str(shell.substring_char(n - 3, n));
    let nu = String::from_str("/nu");
    tail == nu
}

fn is_reserved_key(k: &String) -> (r: bool)
    ensures
        r == is_reserved(k@),
{
    *k == String::from_str("OPENCODE_EXPERIMENTAL_ICON_DISCOVERY") || *k == String::from_str(
        "OPENCODE_EXPERIMENTAL_FILEWATCHER",
    ) || *k == String::from_str("OPENCODE_CLIENT") || *k == String::from_str("XDG_STATE_HOME")
}

fn pair(k: &str, v: &str) -> (r: (String, String))
    ensures
        r.0@ == k@,
        r.1@ == v@,
{
    (String::from_str(k), String::from_str(v))
}

/// The default variables followed by `extra`.
pub fn merge_envs(state_dir: &String, extra: &Vec<(String, String)>) -> (r: Vec<(String, String)>)
    ensures
        pairs_view(r@) == merged_envs(state_dir@, pairs_view(extra@)),
{
    let mut envs: Vec<(String, String)> = Vec::new();
    envs.push(pair("OPENCODE_EXPERIMENTAL_ICON_DISCOVERY", "true"));
    envs.push(pair("OPENCODE_EXPERIMENTAL_FILEWATCHER", "true"));
    envs.push(pair("OPENCODE_CLIENT", "desktop"));
    envs.push(pair("XDG_STATE_HOME", state_dir.as_str()));
    proof {
        assert(pairs_view(envs@) =~= default_envs(state_dir@));
    }
    let mut i: usize = 0;
    while i < extra.len()
        invariant
            i <= extra@.len(),
            pairs_view(envs@) == default_envs(state_dir@) + pairs_view(extra@.subrange(0, i as int)),
        decreases extra@.len() - i,
    {
        let k = extra[i].0.clone();
        let v = extra[i].1.clone();
        let ghost old_envs = envs@;
        envs.push((k, v));
        proof {
            assert(pairs_view(envs@) =~= pairs_view(old_envs).push((k@, v@)));
            assert(pairs_view(extra@.subrange(0, i + 1)) =~= pairs_view(
                extra@.subrange(0, i as int),
            ).push((extra@[i as int].0@, extra@[i as int].1@)));
            assert(pairs_view(envs@) =~= default_envs(state_dir@) + pairs_view(
                extra@.subrange(0, i + 1),
            ));
        }
        i = i + 1;
    }
    proof {
        assert(extra@.subrange(0, extra@.len() as int) =~= extra@);
    }
    envs
}

/// No name appears twice in `l`.
pub open spec fn names_unique(l: Seq<(Seq<char>, Seq<char>)>) -> bool {
    forall|i: int, j: int| 0 <= i < j < l.len() ==> l[i].0 != l[j].0
}

proof fn lemma_without_name(l: Seq<(Seq<char>, Seq<char>)>, k: Seq<char>)
    ensures
        forall|i: int|
            0 <= i < without_name(l, k).len() ==> #[trigger] without_name(l, k)[i].0 != k
                && exists|j: int| 0 <= j < l.len() && l[j] == without_name(l, k)[i],
        names_unique(l) ==> names_unique(without_name(l, k)),
    decreases l.len(),
{
    if l.len() > 0 {
        let p = l.drop_last();
        lemma_without_name(p, k);
        let w = without_name(l, k);
        let wp = without_name(p, k);
        assert forall|i: int| 0 <= i < w.len() implies #[trigger] w[i].0 != k && exists|j: int|
            0 <= j < l.len() && l[j] == w[i] by {
            if i < wp.len() {
                assert(w[i] == wp[i]);
                assert(wp[i].0 != k);
                let j = choose|j: int| 0 <= j < p.len() && p[j] == wp[i];
                assert(l[j] == p[j]);
            } else {
                assert(l[l.len() - 1] == w[i]);
            }
        }
        if names_unique(l) {
            assert(names_unique(p)) by {
                assert forall|i: int, j: int| 0 <= i < j < p.len() implies p[i].0 != p[j].0 by {
                    assert(p[i] == l[i] && p[j] == l[j]);
                }
            }
            assert forall|i: int, j: int| 0 <= i < j < w.len() implies w[i].0 != w[j].0 by {
                if j < wp.len() {
                    assert(w[i] == wp[i] && w[j] == wp[j]);
                } else {
                    assert(w[i] == wp[i]);
                    assert(wp[i].0 != k);
                    let m = choose|m: int| 0 <= m < p.len() && p[m] == wp[i];
                    assert(l[m] == p[m]);
                    assert(w[j] == l[l.len() - 1]);
                }
            }
        }
    }
}

proof fn lemma_quoted_exports_names(envs: Seq<(Seq<char>, Seq<char>)>)
    ensures
        names_unique(quoted_exports(envs)),
        forall|i: int|
            0 <= i < quoted_exports(envs).len() ==> !is_reserved(
                #[trigger] quoted_exports(envs)[i].0,
            ),
    decreases envs.len(),
{
    if envs.len() > 0 {
        let prefix = envs.drop_last();
        lemma_quoted_exports_names(prefix);
        let q = quoted_exports(envs);
        let qp = quoted_exports(prefix);
        let k = envs.last().0;
        if !is_reserved(k) {
            let w = without_name(qp, k);
            lemma_without_name(qp, k);
            assert(q == w.push((k, escaped(envs.last().1))));
            assert forall|i: int| 0 <= i < q.len() implies !is_reserved(#[trigger] q[i].0) by {
                if i < w.len() {
                    assert(q[i] == w[i]);
                    assert(w[i].0 != k);
                    let j = choose|j: int| 0 <= j < qp.len() && qp[j] == w[i];
                    assert(!is_reserved(qp[j].0));
                }
            }
            assert forall|i: int, j: int| 0 <= i < j < q.len() implies q[i].0 != q[j].0 by {
                assert(q[i] == w[i]);
                if j < w.len() {
                    assert(q[j] == w[j]);
                } else {
                    assert(w[i].0 != k);
                }
            }
        }
    }
}

/// The export list of a bridge script names no variable twice, whatever extra variables
/// are given: also when an extra variable takes one of the four reserved names, or
/// several extra variables share a name.
pub proof fn lemma_export_names_unique(state_dir: Seq<char>, extra: Seq<(Seq<char>, Seq<char>)>)
    ensures
        names_unique(export_list(state_dir, extra)),
{
    let envs = merged_envs(state_dir, extra);
    lemma_quoted_exports_names(envs);
    let f = fixed_exports();
    let q = quoted_exports(envs);
    let l = export_list(state_dir, extra);
    reveal_strlit("OPENCODE_EXPERIMENTAL_ICON_DISCOVERY");
    reveal_strlit("OPENCODE_EXPERIMENTAL_FILEWATCHER");
    reveal_strlit("OPENCODE_CLIENT");
    reveal_strlit("XDG_STATE_HOME");
    assert forall|i: int, j: int| 0 <= i < j < l.len() implies l[i].0 != l[j].0 by {
        if j < 4 {
            assert(l[i] == f[i] && l[j] == f[j]);
            assert(f[i].0.len() != f[j].0.len());
        } else if i < 4 {
            assert(l[i] == f[i] && l[j] == q[j - 4]);
            assert(is_reserved(f[i].0));
            assert(!is_reserved(q[j - 4].0));
        } else {
            assert(l[i] == q[i - 4] && l[j] == q[j - 4]);
        }
    }
}

/// `list` without the entries named `k`.
fn drop_name(list: Vec<(String, String)>, k: &String) -> (r: Vec<(String, String)>)
    ensures
        pairs_view(r@) == without_name(pairs_view(list@), k@),
{
    let mut kept: Vec<(String, String)> = Vec::new();
    let mut i: usize = 0;
    while i < list.len()
        invariant
            i <= list@.len(),
            pairs_view(kept@) == without_name(pairs_view(list@.subrange(0, i as int)), k@),
        decreases list@.len() - i,
    {
        let ghost prefix = pairs_view(list@.subrange(0, i + 1));
        proof {
            assert(prefix.drop_last() =~= pairs_view(list@.subrange(0, i as int)));
            assert(prefix.last() == (list@[i as int].0@, list@[i as int].1@));
        }
        if list[i].0 != *k {
            let ghost old_kept = kept@;
            kept.push((list[i].0.clone(), list[i].1.clone()));
            proof {
                assert(pairs_view(kept@) =~= pairs_view(old_kept).push(prefix.last()));
            }
        }
        i = i + 1;
    }
    proof {
        assert(list@.subrange(0, list@.len() as int) =~= list@);
    }
    kept
}

/// The bridge script's export list, built from the merged variables.
fn exports(envs: &Vec<(String, String)>) -> (r: Vec<(String, String)>)
    ensures
        pairs_view(r@) == fixed_exports() + quoted_exports(pairs_view(envs@)),
{
    let mut quoted: Vec<(String, String)> = Vec::new();
    proof {
        assert(pairs_view(envs@.subrange(0, 0)) =~= Seq::<(Seq<char>, Seq<char>)>::empty());
        assert(pairs_view(quoted@) =~= quoted_exports(pairs_view(envs@.subrange(0, 0))));
    }
    let mut i: usize = 0;
    while i < envs.len()
        invariant
            i <= envs@.len(),
            pairs_view(quoted@) == quoted_exports(pairs_view(envs@.subrange(0, i as int))),
        decreases envs@.len() - i,
    {
        let ghost prefix = pairs_view(envs@.subrange(0, i + 1));
        proof {
            assert(prefix.drop_last() =~= pairs_view(envs@.subrange(0, i as int)));
            assert(prefix.last() == (envs@[i as int].0@, envs@[i as int].1@));
        }
        if !is_reserved_key(&envs[i].0) {
            let k = envs[i].0.clone();
            let v = shell_escape(envs[i].1.as_str());
            quoted = drop_name(quoted, &k);
            let ghost old_quoted = quoted@;
            quoted.push((k, v));
            proof {
                assert(pairs_view(quoted@) =~= pairs_view(old_quoted).push((k@, v@)));
            }
        }
        i = i + 1;
    }
    proof {
        assert(envs@.subrange(0, envs@.len() as int) =~= envs@);
    }
    let mut list: Vec<(String, String)> = Vec::new();
    list.push(pair("OPENCODE_EXPERIMENTAL_ICON_DISCOVERY", "true"));
    list.push(pair("OPENCODE_EXPERIMENTAL_FILEWATCHER", "true"));
    list.push(pair("OPENCODE_CLIENT", "desktop"));
    list.push(pair("XDG_STATE_HOME", "\"$HOME/.local/state\""));
    let ghost fixed = list@;
    let ghost moved = quoted@;
    list.append(&mut quoted);
    proof {
        assert(pairs_view(list@) =~= pairs_view(fixed) + pairs_view(moved));
        assert(pairs_view(fixed) =~= fixed_exports());
    }
    list
}

/// The assignments of `list` separated by single blanks.
fn join_assignments(list: &Vec<(String, String)>) -> (r: String)
    ensures
        r@ == joined(pairs_view(list@)),
{
    let mut out = String::new();
    let mut i: usize = 0;
    while i < list.len()
        invariant
            i <= list@.len(),
            out@ == joined(pairs_view(list@.subrange(0, i as int))),
        decreases list@.len() - i,
    {
        let ghost prefix = pairs_view(list@.subrange(0, i + 1));
        proof {
            assert(prefix.drop_last() =~= pairs_view(list@.subrange(0, i as int)));
            assert(prefix.last() == (list@[i as int].0@, list@[i as int].1@));
        }
        if i > 0 {
            out.append(" ");
        }
        out.append(list[i].0.as_str());
        out.append("=");
        out.append(list[i].1.as_str());
        proof {
            if i == 0 {
                assert(prefix.len() == 1);
            }
            assert(out@ =~= joined(prefix));
        }
        i = i + 1;
    }
    proof {
        assert(list@.subrange(0, list@.len() as int) =~= list@);
    }
    out
}

/// The script that the bridge runs.
fn build_bridge_script(
    version: &String,
    state_dir: &String,
    extra: &Vec<(String, String)>,
    envs: &Vec<(String, String)>,
    args: &str,
) -> (r: String)
    requires
        pairs_view(envs@) == merged_envs(state_dir@, pairs_view(extra@)),
    ensures
        r@ == bridge_script(version@, state_dir@, pairs_view(extra@), args@),
{
    let mut script = String::from_str(
        "set -e\nBIN=\"$HOME/.opencode/bin/opencode\"\nif [ ! -x \"$BIN\" ]; then\n  curl -fsSL https://opencode.ai/install | bash -s -- --version ",
    );
    let quoted = shell_escape(version.as_str());
    script.append(quoted.as_str());
    script.append(" --no-modify-path\nfi\n");
    let list = exports(envs);
    let prefix = join_assignments(&list);
    script.append(prefix.as_str());
    script.append(" exec \"$BIN\" ");
    script.append(args);
    proof {
        assert(script@ =~= bridge_script(version@, state_dir@, pairs_view(extra@), args@));
    }
    script
}

/// What `create_command` builds for the host, argument text and extra variables.
pub open spec fn invocation_for(
    host: &Host,
    args: Seq<char>,
    extra: Seq<(Seq<char>, Seq<char>)>,
    inv: &Invocation,
) -> bool {
    if host.windows && host.bridge_enabled {
        &&& inv.program_view() == (false, "wsl"@)
        &&& inv.args_view() == seq![
            "-e"@,
            "bash"@,
            "-lc"@,
            bridge_script(host.app_version@, host.state_dir@, extra, args),
        ]
        &&& inv.envs_view() == Seq::<(Seq<char>, Seq<char>)>::empty()
        &&& names_unique(export_list(host.state_dir@, extra))
    } else if host.windows {
        &&& inv.program_view() == (true, "opencode-cli"@)
        &&& inv.args_view() == whitespace_words(args)
        &&& (args.len() == 0 ==> inv.args@.len() == 0)
        &&& inv.envs_view() == merged_envs(host.state_dir@, extra)
    } else {
        &&& inv.program_view() == (false, host.shell@)
        &&& inv.args_view() == seq![
            "-il"@,
            "-c"@,
            unix_line(host.shell@, host.sidecar_path@, args),
        ]
        &&& inv.envs_view() == merged_envs(host.state_dir@, extra)
    }
}

/// Builds the invocation of the worker binary with the argument text `args` and the
/// extra variables `extra_env`: on Windows through the bridge or as the bundled binary,
/// elsewhere through the user's login shell.
pub fn create_command(host: &Host, args: &str, extra_env: &Vec<(String, String)>) -> (r:
    Invocation)
    ensures
        invocation_for(host, args@, pairs_view(extra_env@), &r),
{
    let envs = merge_envs(&host.state_dir, extra_env);
    if host.windows {
        if host.bridge_enabled {
            let script = build_bridge_script(
                &host.app_version,
                &host.state_dir,
                extra_env,
                &envs,
                args,
            );
            let mut argv: Vec<String> = Vec::new();
            argv.push(String::from_str("-e"));
            argv.push(String::from_str("bash"));
            argv.push(String::from_str("-lc"));
            argv.push(script);
            let r = Invocation {
                program: Program::Path(String::from_str("wsl")),
                args: argv,
                envs: Vec::new(),
            };
            proof {
                assert(r.args_view() =~= seq![
                    "-e"@,
                    "bash"@,
                    "-lc"@,
                    bridge_script(host.app_version@, host.state_dir@, pairs_view(extra_env@), args@),
                ]);
                assert(r.envs_view() =~= Seq::<(Seq<char>, Seq<char>)>::empty());
                lemma_export_names_unique(host.state_dir@, pairs_view(extra_env@));
            }
            r
        } else {
            let words = split_words(args);
            proof {
                if args@.len() == 0 {
                    assert(texts_view(words@).len() == 0);
                }
            }
            Invocation { program: Program::Sidecar(String::from_str("opencode-cli")), args: words, envs }
        }
    } else {
        let mut line = if is_nu(host.shell.as_str()) {
            String::from_str("^\"")
        } else {
            String::from_str("\"")
        };
        line.append(host.sidecar_path.as_str());
        line.append("\" ");
        line.append(args);
        let mut argv: Vec<String> = Vec::new();
        argv.push(String::from_str("-il"));
        argv.push(String::from_str("-c"));
        argv.push(line);
        let r = Invocation { program: Program::Path(host.shell.clone()), args: argv, envs };
        proof {
            assert(r.args_view() =~= seq![
                "-il"@,
                "-c"@,
                unix_line(host.shell@, host.sidecar_path@, args@),
            ]);
        }
        r
    }
}

} // verus!
