//! Command screening for the AI agent: permission modes and a pattern
//! blacklist of dangerous shell commands.
use crate::text::{
    ascii_lowered, collapse_whitespace, collapse_ws, contains_seq, contains_str, has_prefix,
    is_ascii_text, lowercase, push_str,
    starts_with_str, str_eq, string_chars, string_from_chars, strings_contain, to_chars, to_lowercase,
};
use crate::pattern::{regex_compiles, regex_is_match, regex_matches, regex_valid};
use vstd::prelude::*;

verus! {

/// How far the agent may run commands without asking.
#[derive(Debug, Clone, Copy, PartialEq, Eq, Structural)]
pub enum PermissionMode {
    /// Every command outside the blacklist needs the user's confirmation.
    Confirm,
    /// Read-only observation: privileged commands need confirmation.
    Observer,
    /// Commands run without confirmation.
    Autonomous,
}

impl Default for PermissionMode {
    fn default() -> (r: Self)
        ensures
            r == PermissionMode::Confirm,
    {
        PermissionMode::Confirm
    }
}

/// The mode that a lower-cased setting names.
pub open spec fn mode_of_lowered(l: Seq<char>) -> PermissionMode {
    if l == "observer"@ {
        PermissionMode::Observer
    } else if l == "autonomous"@ {
        PermissionMode::Autonomous
    } else {
        PermissionMode::Confirm
    }
}

/// The mode that a persisted setting names.
pub open spec fn mode_from_name(s: Seq<char>) -> PermissionMode {
    mode_of_lowered(lowercase(s))
}

/// The key under which `m` is persisted.
pub open spec fn mode_key(m: PermissionMode) -> Seq<char> {
    match m {
        PermissionMode::Observer => "observer"@,
        PermissionMode::Confirm => "confirm"@,
        PermissionMode::Autonomous => "autonomous"@,
    }
}

/// Every mode's key is ASCII and parses back to the mode.
pub proof fn law_mode_key_parses_back(m: PermissionMode)
    ensures
        is_ascii_text(mode_key(m)),
        mode_of_lowered(ascii_lowered(mode_key(m))) == m,
{
    reveal_strlit("observer");
    reveal_strlit("confirm");
    reveal_strlit("autonomous");
    assert(ascii_lowered("observer"@) =~= "observer"@);
    assert(ascii_lowered("confirm"@) =~= "confirm"@);
    assert(ascii_lowered("autonomous"@) =~= "autonomous"@);
}

/// Parsing an ASCII setting ignores case: two settings equal up to ASCII
/// case name the same mode.
pub proof fn law_mode_parse_ignores_ascii_case(s: Seq<char>, t: Seq<char>)
    requires
        is_ascii_text(s),
        is_ascii_text(t),
        ascii_lowered(s) == ascii_lowered(t),
    ensures
        mode_of_lowered(ascii_lowered(s)) == mode_of_lowered(ascii_lowered(t)),
{
}

impl PermissionMode {
    /// Parses a persisted mode name, case-insensitively; anything else is
    /// `Confirm`.
    pub fn from_str(s: &str) -> (r: Self)
        ensures
            r == mode_from_name(s@),
            is_ascii_text(s@) ==> r == mode_of_lowered(ascii_lowered(s@)),
    {
        let lower = to_lowercase(s);
        if str_eq(lower.as_str(), "observer") {
            PermissionMode::Observer
        } else if str_eq(lower.as_str(), "autonomous") {
            PermissionMode::Autonomous
        } else {
            PermissionMode::Confirm
        }
    }

    /// Human-readable name of the mode.
    pub fn display_name(&self) -> (r: &'static str)
        ensures
            r@ == match *self {
                PermissionMode::Observer => "仅观察"@,
                PermissionMode::Confirm => "执行前确认"@,
                PermissionMode::Autonomous => "完全自主"@,
            },
    {
        match self {
            PermissionMode::Observer => "仅观察",
            PermissionMode::Confirm => "执行前确认",
            PermissionMode::Autonomous => "完全自主",
        }
    }

    /// Key under which the mode is persisted.
    pub fn as_str(&self) -> (r: &'static str)
        ensures
            r@ == mode_key(*self),
    {
        match self {
            PermissionMode::Observer => "observer",
            PermissionMode::Confirm => "confirm",
            PermissionMode::Autonomous => "autonomous",
        }
    }
}

/// Outcome of screening one command.
#[derive(Debug, Clone)]
pub enum CommandCheckResult {
    /// The command may run.
    Allowed,
    /// The command matches a blacklist pattern.
    Blocked { reason: String, pattern: Option<String> },
    /// The command may run after the user confirms it.
    RequiresConfirmation { reason: String },
}

// ---------------------------------------------------------------------------
// Blacklist
// ---------------------------------------------------------------------------
/// The built-in patterns of dangerous commands: recursive removal of the
/// root or of a top-level directory, formatting and raw writes to devices,
/// shutdown, fork bombs (with or without spaces), overwriting system
/// directories, wiping, deleting keys or all cron jobs, and remote or
/// inline code execution.
pub open spec fn default_patterns() -> Seq<Seq<char>> {
    seq![
        r"^\s*rm\s+(-[a-zA-Z]*r[a-zA-Z]*\s+)*/?\s*$"@,
        r"^\s*rm\s+(-[a-zA-Z]*r[a-zA-Z]*\s+)*/\s*$"@,
        r"^\s*rm\s+(-[a-zA-Z]*r[a-zA-Z]*\s+)+/\*"@,
        r"^\s*rm\s+(-[a-zA-Z]*r[a-zA-Z]*\s+)+/[^/\s]+/?\s*$"@,
        r"\bmkfs\."@,
        r"\bdd\s+.*\s+of=/dev/"@,
        r"\bdd\s+.*\s+of=\\Device\\"@,
        r"\b(shutdown|reboot|poweroff|halt|init\s+0|init\s+6)\b"@,
        r":\(\)\{\s*:\|:&\s*\};:\s*$"@,
        r":\(\)\s*\{\s*:\s*\|\s*:\s*&\s*\}\s*;\s*:"@,
        r">\s*/dev/sd[a-z]"@,
        r">\s*/dev/nvme"@,
        r"(chpasswd|pwconv|pwunconv|grpconv|grpunconv)\b"@,
        r">\s*/etc/"@,
        r">\s*/bin/"@,
        r">\s*/sbin/"@,
        r">\s*/usr/"@,
        r">\s*/boot/"@,
        r"fork\s*\(\)\s*;\s*fork\s*\(\s*\)"@,
        r"dd\s+if=.*of=/dev/"@,
        r"\bwipefs"@,
        r"\bshred\s+-n\s+[3-9]"@,
        r"rm\s+.*/.ssh/"@,
        r"rm\s+.*/.gnupg/"@,
        r"crontab\s+-r\b"@,
        r"eval\s+\$\(curl\s+"@,
        r"eval\s+\$\(wget\s+"@,
        r"eval\s+\$\(dig\s+"@,
        r"eval\s+\$\(nslookup\s+"@,
        r"base64\s+-d\s+<<<\s*[A-Za-z0-9+/]{50,}"@,
        r#"python3?\s+-c\s+['"](import|exec|eval|os\.system)"#@,
        r#"\bruby\s+-e\s+['"](system|exec|eval|`)""#@,
        r#"\bperl\s+-e\s+['"]?(system|exec|eval|`|qx)""#@,
    ]
}

fn default_pattern_strs() -> (v: Vec<&'static str>)
    ensures
        v@.map_values(|s: &str| s@) == default_patterns(),
{
    let v: Vec<&'static str> = vec![
        r"^\s*rm\s+(-[a-zA-Z]*r[a-zA-Z]*\s+)*/?\s*$",
        r"^\s*rm\s+(-[a-zA-Z]*r[a-zA-Z]*\s+)*/\s*$",
        r"^\s*rm\s+(-[a-zA-Z]*r[a-zA-Z]*\s+)+/\*",
        r"^\s*rm\s+(-[a-zA-Z]*r[a-zA-Z]*\s+)+/[^/\s]+/?\s*$",
        r"\bmkfs\.",
        r"\bdd\s+.*\s+of=/dev/",
        r"\bdd\s+.*\s+of=\\Device\\",
        r"\b(shutdown|reboot|poweroff|halt|init\s+0|init\s+6)\b",
        r":\(\)\{\s*:\|:&\s*\};:\s*$",
        r":\(\)\s*\{\s*:\s*\|\s*:\s*&\s*\}\s*;\s*:",
        r">\s*/dev/sd[a-z]",
        r">\s*/dev/nvme",
        r"(chpasswd|pwconv|pwunconv|grpconv|grpunconv)\b",
        r">\s*/etc/",
        r">\s*/bin/",
        r">\s*/sbin/",
        r">\s*/usr/",
        r">\s*/boot/",
        r"fork\s*\(\)\s*;\s*fork\s*\(\s*\)",
        r"dd\s+if=.*of=/dev/",
        r"\bwipefs",
        r"\bshred\s+-n\s+[3-9]",
        r"rm\s+.*/.ssh/",
        r"rm\s+.*/.gnupg/",
        r"crontab\s+-r\b",
        r"eval\s+\$\(curl\s+",
        r"eval\s+\$\(wget\s+",
        r"eval\s+\$\(dig\s+",
        r"eval\s+\$\(nslookup\s+",
        r"base64\s+-d\s+<<<\s*[A-Za-z0-9+/]{50,}",
        r#"python3?\s+-c\s+['"](import|exec|eval|os\.system)"#,
        r#"\bruby\s+-e\s+['"](system|exec|eval|`)""#,
        r#"\bperl\s+-e\s+['"]?(system|exec|eval|`|qx)""#,
    ];
    assert(v@.map_values(|s: &str| s@) =~= default_patterns());
    v
}

/// The patterns of `ps` that compile, in order.
pub open spec fn keep_valid(ps: Seq<Seq<char>>) -> Seq<Seq<char>>
    decreases ps.len(),
{
    if ps.len() == 0 {
        Seq::empty()
    } else {
        let k = keep_valid(ps.drop_last());
        if regex_valid(ps.last()) {
            k.push(ps.last())
        } else {
            k
        }
    }
}

/// `acc` followed by each pattern of `defs` that compiles and is not yet in it.
pub open spec fn append_missing(acc: Seq<Seq<char>>, defs: Seq<Seq<char>>) -> Seq<Seq<char>>
    decreases defs.len(),
{
    if defs.len() == 0 {
        acc
    } else {
        let p = defs[0];
        let acc2 = if !acc.contains(p) && regex_valid(p) {
            acc.push(p)
        } else {
            acc
        };
        append_missing(acc2, defs.drop_first())
    }
}

/// The first pattern of `ps`, from index `i` on, that matches `text`.
pub open spec fn first_match(ps: Seq<Seq<char>>, text: Seq<char>, i: int) -> Option<int>
    decreases ps.len() - i,
{
    if i < 0 || i >= ps.len() {
        None
    } else if regex_matches(ps[i], text) {
        Some(i)
    } else {
        first_match(ps, text, i + 1)
    }
}

/// A command with its white-space runs collapsed, trimmed and lower-cased.
pub open spec fn normalized(cmd: Seq<char>) -> Seq<char> {
    lowercase(collapse_ws(cmd))
}

/// A blacklist of command patterns, each of which compiles.
#[derive(Debug, Clone)]
pub struct CommandBlacklist {
    patterns: Vec<String>,
}

impl View for CommandBlacklist {
    type V = Seq<Seq<char>>;

    closed spec fn view(&self) -> Seq<Seq<char>> {
        self.patterns@.map_values(|p: String| p@)
    }
}

impl Default for CommandBlacklist {
    fn default() -> (r: Self)
        ensures
            r@ == keep_valid(default_patterns()),
    {
        Self::new()
    }
}

impl CommandBlacklist {
    /// Every pattern of the list compiles.
    pub closed spec fn wf(&self) -> bool {
        forall|i: int| 0 <= i < self@.len() ==> regex_valid(#[trigger] self@[i])
    }

    proof fn lemma_keep_valid_wf(ps: Seq<Seq<char>>)
        ensures
            forall|i: int| 0 <= i < keep_valid(ps).len() ==> regex_valid(#[trigger] keep_valid(ps)[i]),
        decreases ps.len(),
    {
        if ps.len() > 0 {
            let k = keep_valid(ps.drop_last());
            Self::lemma_keep_valid_wf(ps.drop_last());
            if regex_valid(ps.last()) {
                assert forall|i: int| 0 <= i < k.push(ps.last()).len() implies regex_valid(
                    #[trigger] k.push(ps.last())[i],
                ) by {
                    if i < k.len() {
                        assert(k.push(ps.last())[i] == k[i]);
                    }
                }
            }
        }
    }

    /// The built-in blacklist: the default patterns that compile.
    pub fn new() -> (r: Self)
        ensures
            r@ == keep_valid(default_patterns()),
            r.wf(),
    {
        let defs = default_pattern_strs();
        let ghost dv = defs@.map_values(|s: &str| s@);
        let mut patterns: Vec<String> = Vec::new();
        let mut i: usize = 0;
        while i < defs.len()
            invariant
                i <= defs.len(),
                dv == defs@.map_values(|s: &str| s@),
                patterns@.map_values(|p: String| p@) == keep_valid(dv.take(i as int)),
            decreases defs.len() - i,
        {
            let p = defs[i];
            proof {
                assert(dv.take(i + 1).drop_last() =~= dv.take(i as int));
                assert(dv.take(i + 1).last() == p@);
            }
            if regex_compiles(p) {
                let ghost before = patterns@.map_values(|p: String| p@);
                patterns.push(String::from_str(p));
                assert(patterns@.map_values(|p: String| p@) =~= before.push(p@));
            }
            i = i + 1;
        }
        assert(dv.take(defs.len() as int) =~= dv);
        let r = CommandBlacklist { patterns };
        proof {
            Self::lemma_keep_valid_wf(default_patterns());
        }
        r
    }

    /// A blacklist of the given patterns that compile, followed by every
    /// default pattern that compiles and is not already in the list.
    pub fn from_patterns(patterns: &[String]) -> (r: Self)
        ensures
            r@ == append_missing(keep_valid(patterns@.map_values(|p: String| p@)), default_patterns()),
            r.wf(),
    {
        let ghost pv = patterns@.map_values(|p: String| p@);
        let mut out: Vec<String> = Vec::new();
        let mut i: usize = 0;
        while i < patterns.len()
            invariant
                i <= patterns.len(),
                pv == patterns@.map_values(|p: String| p@),
                out@.map_values(|p: String| p@) == keep_valid(pv.take(i as int)),
            decreases patterns.len() - i,
        {
            proof {
                assert(pv.take(i + 1).drop_last() =~= pv.take(i as int));
                assert(pv.take(i + 1).last() == patterns@[i as int]@);
            }
            if regex_compiles(patterns[i].as_str()) {
                let ghost before = out@.map_values(|p: String| p@);
                out.push(patterns[i].clone());
                assert(out@.map_values(|p: String| p@) =~= before.push(patterns@[i as int]@));
            }
            i = i + 1;
        }
        assert(pv.take(patterns.len() as int) =~= pv);
        proof {
            Self::lemma_keep_valid_wf(pv);
        }
        assert forall|k: int| 0 <= k < out@.len() implies regex_valid((#[trigger] out@[k])@) by {
            assert(out@.map_values(|p: String| p@)[k] == out@[k]@);
        }
        let defs = default_pattern_strs();
        let ghost dv = defs@.map_values(|s: &str| s@);
        let mut j: usize = 0;
        assert(dv.skip(0) =~= dv);
        while j < defs.len()
            invariant
                j <= defs.len(),
                dv == defs@.map_values(|s: &str| s@),
                dv == default_patterns(),
                append_missing(out@.map_values(|p: String| p@), dv.skip(j as int))
                    == append_missing(keep_valid(pv), default_patterns()),
                forall|k: int|
                    0 <= k < out@.len() ==> regex_valid((#[trigger] out@[k])@),
            decreases defs.len() - j,
        {
            let p = defs[j];
            let ghost acc = out@.map_values(|p: String| p@);
            proof {
                assert(dv.skip(j as int)[0] == p@);
                assert(dv.skip(j as int).drop_first() =~= dv.skip(j + 1));
            }
            let present = strings_contain(&out, p);
            if !present && regex_compiles(p) {
                out.push(String::from_str(p));
                assert(out@.map_values(|p: String| p@) =~= acc.push(p@));
            }
            j = j + 1;
        }
        proof {
            assert(dv.skip(defs.len() as int) =~= Seq::<Seq<char>>::empty());
        }
        CommandBlacklist { patterns: out }
    }

    /// The first pattern that matches the normalized command, with a
    /// description of what it guards against.
    pub fn is_blocked(&self, cmd: &str) -> (r: Option<(String, String)>)
        requires
            self.wf(),
        ensures
            match first_match(self@, normalized(cmd@), 0) {
                Some(i) => r matches Some((p, d)) && p@ == self@[i] && d@ == pattern_description(
                    self@[i],
                ),
                None => r is None,
            },
    {
        let norm = normalize_command(cmd);
        let mut i: usize = 0;
        while i < self.patterns.len()
            invariant
                i <= self.patterns.len(),
                self.wf(),
                first_match(self@, normalized(cmd@), 0) == first_match(self@, normalized(cmd@), i as int),
                norm@ == normalized(cmd@),
            decreases self.patterns.len() - i,
        {
            assert(self@[i as int] == self.patterns@[i as int]@);
            if regex_is_match(self.patterns[i].as_str(), norm.as_str()) {
                let p = self.patterns[i].clone();
                let d = describe_pattern(p.as_str());
                return Some((p, d));
            }
            i = i + 1;
        }
        None
    }

    /// The patterns of the list, in order.
    pub fn patterns(&self) -> (r: Vec<&str>)
        ensures
            r@.map_values(|s: &str| s@) == self@,
    {
        let mut out: Vec<&str> = Vec::new();
        let mut i: usize = 0;
        while i < self.patterns.len()
            invariant
                i <= self.patterns.len(),
                out@.map_values(|s: &str| s@) == self@.take(i as int),
            decreases self.patterns.len() - i,
        {
            let ghost before = out@.map_values(|s: &str| s@);
            out.push(self.patterns[i].as_str());
            assert(self@[i as int] == self.patterns@[i as int]@);
            assert(self@.take(i + 1) =~= self@.take(i as int).push(self@[i as int]));
            assert(out@.map_values(|s: &str| s@) =~= before.push(self@[i as int]));
            i = i + 1;
        }
        assert(self@.take(self.patterns.len() as int) =~= self@);
        out
    }
}

/// Collapses the white-space runs of a command and lower-cases it.
pub fn normalize_command(cmd: &str) -> (r: String)
    ensures
        r@ == normalized(cmd@),
{
    let chars = to_chars(cmd);
    let collapsed = collapse_whitespace(&chars);
    let s = string_from_chars(&collapsed);
    to_lowercase(s.as_str())
}

/// The prefix of the description of a pattern that no specific case covers.
pub open spec fn generic_description_prefix() -> Seq<char> {
    "命令匹配危险模式: "@
}

/// What a blacklist pattern guards against.
pub open spec fn pattern_description(p: Seq<char>) -> Seq<char> {
    if contains_seq(p, "rm"@) && contains_seq(p, "-rf"@) {
        "危险：递归强制删除操作"@
    } else if contains_seq(p, "mkfs"@) {
        "危险：磁盘格式化操作"@
    } else if contains_seq(p, "dd"@) && contains_seq(p, "/dev/"@) {
        "危险：直接写入设备"@
    } else if contains_seq(p, "shutdown"@) || contains_seq(p, "reboot"@) {
        "危险：系统关机/重启"@
    } else if contains_seq(p, "fork"@) {
        "危险：Fork 炸弹"@
    } else if contains_seq(p, "/etc/"@) || contains_seq(p, "/bin/"@) {
        "危险：修改系统核心目录"@
    } else if contains_seq(p, "eval"@) && (contains_seq(p, "curl"@) || contains_seq(p, "wget"@)) {
        "危险：远程代码执行风险"@
    } else if contains_seq(p, "crontab"@) && contains_seq(p, "-r"@) {
        "危险：删除所有定时任务"@
    } else if contains_seq(p, ".ssh/"@) || contains_seq(p, ".gnupg/"@) {
        "危险：删除认证凭据"@
    } else if contains_seq(p, "chpasswd"@) || contains_seq(p, "pwconv"@) {
        "危险：密码/认证配置修改"@
    } else if contains_seq(p, "wipefs"@) || contains_seq(p, "shred"@) {
        "危险：安全擦除操作"@
    } else if contains_seq(p, "python"@) && contains_seq(p, "-c"@) {
        "危险：Python 代码执行"@
    } else if contains_seq(p, "ruby"@) && contains_seq(p, "-e"@) {
        "危险：Ruby 代码执行"@
    } else if contains_seq(p, "perl"@) && contains_seq(p, "-e"@) {
        "危险：Perl 代码执行"@
    } else {
        generic_description_prefix() + p
    }
}

/// A human-readable description of what a blacklist pattern guards against.
pub fn describe_pattern(pattern: &str) -> (r: String)
    ensures
        r@ == pattern_description(pattern@),
{
    let p = to_chars(pattern);
    if contains_str(&p, "rm") && contains_str(&p, "-rf") {
        String::from_str("危险：递归强制删除操作")
    } else if contains_str(&p, "mkfs") {
        String::from_str("危险：磁盘格式化操作")
    } else if contains_str(&p, "dd") && contains_str(&p, "/dev/") {
        String::from_str("危险：直接写入设备")
    } else if contains_str(&p, "shutdown") || contains_str(&p, "reboot") {
        String::from_str("危险：系统关机/重启")
    } else if contains_str(&p, "fork") {
        String::from_str("危险：Fork 炸弹")
    } else if contains_str(&p, "/etc/") || contains_str(&p, "/bin/") {
        String::from_str("危险：修改系统核心目录")
    } else if contains_str(&p, "eval") && (contains_str(&p, "curl") || contains_str(&p, "wget")) {
        String::from_str("危险：远程代码执行风险")
    } else if contains_str(&p, "crontab") && contains_str(&p, "-r") {
        String::from_str("危险：删除所有定时任务")
    } else if contains_str(&p, ".ssh/") || contains_str(&p, ".gnupg/") {
        String::from_str("危险：删除认证凭据")
    } else if contains_str(&p, "chpasswd") || contains_str(&p, "pwconv") {
        String::from_str("危险：密码/认证配置修改")
    } else if contains_str(&p, "wipefs") || contains_str(&p, "shred") {
        String::from_str("危险：安全擦除操作")
    } else if contains_str(&p, "python") && contains_str(&p, "-c") {
        String::from_str("危险：Python 代码执行")
    } else if contains_str(&p, "ruby") && contains_str(&p, "-e") {
        String::from_str("危险：Ruby 代码执行")
    } else if contains_str(&p, "perl") && contains_str(&p, "-e") {
        String::from_str("危险：Perl 代码执行")
    } else {
        let mut out = to_chars("命令匹配危险模式: ");
        push_str(&mut out, &p);
        string_from_chars(&out)
    }
}

/// Whether a command that passed the blacklist still needs confirmation in
/// observer mode.
pub open spec fn observer_needs_confirm(cmd: Seq<char>) -> bool {
    ||| contains_seq(cmd, "sudo"@)
    ||| contains_seq(cmd, "chmod"@)
    ||| contains_seq(cmd, "chown"@)
    ||| has_prefix(cmd, "kill"@)
    ||| has_prefix(cmd, "pkill"@)
    ||| has_prefix(cmd, "killall"@)
    ||| contains_seq(cmd, "| sudo"@)
    ||| contains_seq(cmd, "> /"@)
}

/// In observer mode, a command that mentions `sudo`, `chmod` or `chown`,
/// or starts with `kill`, `pkill` or `killall`, or writes under `/`, is a
/// privileged one: unless the blacklist blocks it, `check_command` asks for
/// confirmation rather than allowing it.
pub proof fn law_observer_confirms_privileged(cmd: Seq<char>)
    ensures
        contains_seq(cmd, "sudo"@) ==> observer_needs_confirm(cmd),
        contains_seq(cmd, "chmod"@) ==> observer_needs_confirm(cmd),
        contains_seq(cmd, "chown"@) ==> observer_needs_confirm(cmd),
        has_prefix(cmd, "kill"@) ==> observer_needs_confirm(cmd),
        has_prefix(cmd, "pkill"@) ==> observer_needs_confirm(cmd),
        has_prefix(cmd, "killall"@) ==> observer_needs_confirm(cmd),
        contains_seq(cmd, "> /"@) ==> observer_needs_confirm(cmd),
{
}

/// Screens `cmd`: blocked when a blacklist pattern matches; otherwise
/// allowed or to be confirmed, as `mode` decides.
pub fn check_command(cmd: &str, mode: PermissionMode, blacklist: &CommandBlacklist) -> (r:
    CommandCheckResult)
    requires
        blacklist.wf(),
    ensures
        match first_match(blacklist@, normalized(cmd@), 0) {
            Some(i) => r matches CommandCheckResult::Blocked { reason, pattern } && pattern
                matches Some(p) && p@ == blacklist@[i] && reason@ == pattern_description(
                blacklist@[i],
            ),
            None => match mode {
                PermissionMode::Observer => if observer_needs_confirm(cmd@) {
                    r matches CommandCheckResult::RequiresConfirmation { reason } && reason@
                        == "观察模式下需要确认的特权操作"@
                } else {
                    r is Allowed
                },
                PermissionMode::Confirm => r matches CommandCheckResult::RequiresConfirmation {
                    reason,
                } && reason@ == "等待用户确认"@,
                PermissionMode::Autonomous => r is Allowed,
            },
        },
{
    if let Some((pattern, reason)) = blacklist.is_blocked(cmd) {
        return CommandCheckResult::Blocked { reason, pattern: Some(pattern) };
    }
    match mode {
        PermissionMode::Observer => {
            let c = to_chars(cmd);
            let needs_confirm = contains_str(&c, "sudo") || contains_str(&c, "chmod")
                || contains_str(&c, "chown") || starts_with_str(&c, "kill") || starts_with_str(
                &c,
                "pkill",
            ) || starts_with_str(&c, "killall") || contains_str(&c, "| sudo") || contains_str(
                &c,
                "> /",
            );
            if needs_confirm {
                CommandCheckResult::RequiresConfirmation {
                    reason: String::from_str("观察模式下需要确认的特权操作"),
                }
            } else {
                CommandCheckResult::Allowed
            }
        },
        PermissionMode::Confirm => {
            CommandCheckResult::RequiresConfirmation { reason: String::from_str("等待用户确认") }
        },
        PermissionMode::Autonomous => CommandCheckResult::Allowed,
    }
}

} // verus!
