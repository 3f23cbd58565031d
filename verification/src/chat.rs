//! Text handling of the AI chat panel: code-block actions and the
//! languages they apply to, tool-record stripping, tool-call details,
//! truncation, session titles, and the conversation history sent to the
//! model.
use crate::endpoints::{strip_leading, strip_trailing, trim_end_matches, trim_start_matches};
use crate::pattern::{regex_replace_all, regex_replaced, regex_valid};
use crate::text::{
    collapse_whitespace, collapse_ws, decimal_text, eq_ignore_ascii_case, eq_ignore_ascii_case_exec,
    has_prefix, has_prefix_exec, i64_to_string, lemma_lines_of_cons, lemma_lines_of_single,
    lines_of, lowercase, push_str, single_line, slice_chars, split_lines, starts_with_str, str_eq,
    string_chars, string_from_chars, to_chars, to_lowercase, trim, trim_chars, trim_end,
    trim_end_chars, trim_start, trim_start_chars,
};
use vstd::prelude::*;

verus! {

// ---------------------------------------------------------------------------
// Language matching
// ---------------------------------------------------------------------------
/// Which code-block languages an action applies to.
#[derive(Clone)]
pub enum LanguageMatcher {
    /// One of these names, ignoring ASCII case.
    Exact(Vec<&'static str>),
    /// Names that start with this prefix, after lower-casing both.
    Prefix(&'static str),
    /// Every code block, with or without a language.
    Any,
}

/// The names an `Exact` matcher built from `v` holds.
pub open spec fn names_of(v: Seq<&'static str>) -> Seq<Seq<char>> {
    v.map_values(|s: &'static str| s@)
}

/// Whether some name of `langs` equals `l` up to ASCII case.
pub open spec fn exact_matches(langs: Seq<&'static str>, l: Seq<char>) -> bool {
    exists|i: int| 0 <= i < langs.len() && eq_ignore_ascii_case((#[trigger] langs[i])@, l)
}

/// Whether `matcher` accepts the language `lang`.
pub open spec fn language_matches(matcher: LanguageMatcher, lang: Option<Seq<char>>) -> bool {
    match matcher {
        LanguageMatcher::Exact(langs) => match lang {
            None => false,
            Some(l) => exact_matches(langs@, lowercase(l)),
        },
        LanguageMatcher::Prefix(p) => match lang {
            None => false,
            Some(l) => has_prefix(lowercase(l), lowercase(p@)),
        },
        LanguageMatcher::Any => true,
    }
}

impl LanguageMatcher {
    /// A matcher for one language name.
    pub fn exact(lang: &'static str) -> (r: Self)
        ensures
            r matches LanguageMatcher::Exact(v) && names_of(v@) == seq![lang@],
    {
        let v = vec![lang];
        assert(names_of(v@) =~= seq![lang@]);
        LanguageMatcher::Exact(v)
    }

    /// A matcher for several language names.
    pub fn exact_many(langs: Vec<&'static str>) -> (r: Self)
        ensures
            r == LanguageMatcher::Exact(langs),
    {
        LanguageMatcher::Exact(langs)
    }

    /// SQL dialects.
    pub fn sql() -> (r: Self)
        ensures
            r matches LanguageMatcher::Exact(v) && names_of(v@) == seq![
                "sql"@,
                "mysql"@,
                "postgresql"@,
                "postgres"@,
                "sqlite"@,
                "mssql"@,
                "oracle"@,
                "plsql"@,
            ],
    {
        let v = vec!["sql", "mysql", "postgresql", "postgres", "sqlite", "mssql", "oracle", "plsql"];
        assert(names_of(v@) =~= seq![
            "sql"@,
            "mysql"@,
            "postgresql"@,
            "postgres"@,
            "sqlite"@,
            "mssql"@,
            "oracle"@,
            "plsql"@,
        ]);
        LanguageMatcher::Exact(v)
    }

    /// Shell languages.
    pub fn shell() -> (r: Self)
        ensures
            r matches LanguageMatcher::Exact(v) && names_of(v@) == seq![
                "bash"@,
                "sh"@,
                "shell"@,
                "zsh"@,
                "fish"@,
                "powershell"@,
                "ps1"@,
                "cmd"@,
                "batch"@,
            ],
    {
        let v = vec!["bash", "sh", "shell", "zsh", "fish", "powershell", "ps1", "cmd", "batch"];
        assert(names_of(v@) =~= seq![
            "bash"@,
            "sh"@,
            "shell"@,
            "zsh"@,
            "fish"@,
            "powershell"@,
            "ps1"@,
            "cmd"@,
            "batch"@,
        ]);
        LanguageMatcher::Exact(v)
    }

    /// Python.
    pub fn python() -> (r: Self)
        ensures
            r matches LanguageMatcher::Exact(v) && names_of(v@) == seq![
                "python"@,
                "py"@,
                "python3"@,
            ],
    {
        let v = vec!["python", "py", "python3"];
        assert(names_of(v@) =~= seq!["python"@, "py"@, "python3"@]);
        LanguageMatcher::Exact(v)
    }

    /// Rust.
    pub fn rust() -> (r: Self)
        ensures
            r matches LanguageMatcher::Exact(v) && names_of(v@) == seq!["rust"@, "rs"@],
    {
        let v = vec!["rust", "rs"];
        assert(names_of(v@) =~= seq!["rust"@, "rs"@]);
        LanguageMatcher::Exact(v)
    }

    /// JavaScript and TypeScript.
    pub fn javascript() -> (r: Self)
        ensures
            r matches LanguageMatcher::Exact(v) && names_of(v@) == seq![
                "javascript"@,
                "js"@,
                "typescript"@,
                "ts"@,
                "jsx"@,
                "tsx"@,
            ],
    {
        let v = vec!["javascript", "js", "typescript", "ts", "jsx", "tsx"];
        assert(names_of(v@) =~= seq![
            "javascript"@,
            "js"@,
            "typescript"@,
            "ts"@,
            "jsx"@,
            "tsx"@,
        ]);
        LanguageMatcher::Exact(v)
    }

    /// Whether the matcher accepts the language `lang` of a code block.
    pub fn matches(&self, lang: Option<&str>) -> (r: bool)
        ensures
            r == language_matches(*self, match lang {
                Some(l) => Some(l@),
                None => None,
            }),
    {
        match self {
            LanguageMatcher::Exact(langs) => match lang {
                None => false,
                Some(l) => {
                    let lower = to_lowercase(l);
                    let lc = string_chars(&lower);
                    let mut i: usize = 0;
                    while i < langs.len()
                        invariant
                            i <= langs.len(),
                            *self == LanguageMatcher::Exact(*langs),
                            lang == Some(l),
                            lc@ == lowercase(l@),
                            forall|k: int|
                                0 <= k < i ==> !eq_ignore_ascii_case(
                                    (#[trigger] langs@[k])@,
                                    lowercase(l@),
                                ),
                        decreases langs.len() - i,
                    {
                        let e = to_chars(langs[i]);
                        if eq_ignore_ascii_case_exec(&e, &lc) {
                            assert(eq_ignore_ascii_case(langs@[i as int]@, lowercase(l@)));
                            assert(exact_matches(langs@, lowercase(l@)));
                            return true;
                        }
                        i = i + 1;
                    }
                    false
                },
            },
            LanguageMatcher::Prefix(p) => match lang {
                None => false,
                Some(l) => {
                    let ll = to_lowercase(l);
                    let pl = to_lowercase(p);
                    has_prefix_exec(&string_chars(&ll), &string_chars(&pl))
                },
            },
            LanguageMatcher::Any => true,
        }
    }
}

// ---------------------------------------------------------------------------
// Code-block actions
// ---------------------------------------------------------------------------
/// A button offered on code blocks: an id, an icon, an optional label, the
/// languages it applies to, and what a click does. The icon `I` and the
/// click handler `C` are whatever the UI layer uses for them.
#[derive(Clone)]
pub struct CodeBlockAction<I, C> {
    pub id: String,
    pub icon: I,
    pub label: Option<String>,
    pub matcher: LanguageMatcher,
    pub callback: C,
}

/// Builds a [`CodeBlockAction`]; an action exists only once a click
/// handler was given.
pub struct CodeBlockActionBuilder<I, C> {
    id: String,
    icon: I,
    label: Option<String>,
    matcher: LanguageMatcher,
    callback: Option<C>,
}

impl<I, C> CodeBlockAction<I, C> {
    /// Starts an action with id `id` and the default icon `default_icon`,
    /// no label, matching every code block, and no click handler yet.
    pub fn new(id: String, default_icon: I) -> (r: CodeBlockActionBuilder<I, C>)
        ensures
            r.pending_id() == id,
            r.pending_icon() == default_icon,
            r.pending_label() is None,
            r.pending_matcher() == LanguageMatcher::Any,
            r.pending_callback() is None,
    {
        CodeBlockActionBuilder {
            id,
            icon: default_icon,
            label: None,
            matcher: LanguageMatcher::Any,
            callback: None,
        }
    }
}

impl<I, C> CodeBlockActionBuilder<I, C> {
    /// The id given so far.
    pub closed spec fn pending_id(&self) -> String {
        self.id
    }

    /// The icon given so far.
    pub closed spec fn pending_icon(&self) -> I {
        self.icon
    }

    /// The label given so far.
    pub closed spec fn pending_label(&self) -> Option<String> {
        self.label
    }

    /// The language matcher given so far.
    pub closed spec fn pending_matcher(&self) -> LanguageMatcher {
        self.matcher
    }

    /// The click handler given so far.
    pub closed spec fn pending_callback(&self) -> Option<C> {
        self.callback
    }

    /// Sets the icon; the rest stays.
    pub fn icon(self, icon: I) -> (r: Self)
        ensures
            r.pending_id() == self.pending_id(),
            r.pending_icon() == icon,
            r.pending_label() == self.pending_label(),
            r.pending_matcher() == self.pending_matcher(),
            r.pending_callback() == self.pending_callback(),
    {
        CodeBlockActionBuilder { icon, ..self }
    }

    /// Sets the label; the rest stays.
    pub fn label(self, label: String) -> (r: Self)
        ensures
            r.pending_id() == self.pending_id(),
            r.pending_icon() == self.pending_icon(),
            r.pending_label() == Some(label),
            r.pending_matcher() == self.pending_matcher(),
            r.pending_callback() == self.pending_callback(),
    {
        CodeBlockActionBuilder { label: Some(label), ..self }
    }

    /// Sets the language matcher; the rest stays.
    pub fn matcher(self, matcher: LanguageMatcher) -> (r: Self)
        ensures
            r.pending_id() == self.pending_id(),
            r.pending_icon() == self.pending_icon(),
            r.pending_label() == self.pending_label(),
            r.pending_matcher() == matcher,
            r.pending_callback() == self.pending_callback(),
    {
        CodeBlockActionBuilder { matcher, ..self }
    }

    /// Sets the click handler; the rest stays.
    pub fn on_click(self, f: C) -> (r: Self)
        ensures
            r.pending_id() == self.pending_id(),
            r.pending_icon() == self.pending_icon(),
            r.pending_label() == self.pending_label(),
            r.pending_matcher() == self.pending_matcher(),
            r.pending_callback() == Some(f),
    {
        CodeBlockActionBuilder { callback: Some(f), ..self }
    }

    /// The action, if a click handler was given; `None` otherwise.
    pub fn build(self) -> (r: Option<CodeBlockAction<I, C>>)
        ensures
            r is Some <==> self.pending_callback() is Some,
            r matches Some(a) ==> {
                &&& a.id == self.pending_id()
                &&& a.icon == self.pending_icon()
                &&& a.label == self.pending_label()
                &&& a.matcher == self.pending_matcher()
                &&& Some(a.callback) == self.pending_callback()
            },
    {
        match self.callback {
            Some(callback) => Some(
                CodeBlockAction {
                    id: self.id,
                    icon: self.icon,
                    label: self.label,
                    matcher: self.matcher,
                    callback,
                },
            ),
            None => None,
        }
    }
}

/// The registered actions, in the order they were registered.
#[derive(Clone)]
pub struct CodeBlockActionRegistry<I, C> {
    actions: Vec<CodeBlockAction<I, C>>,
}

/// The actions of `s` that apply to the language `lang`, in order.
pub open spec fn actions_for<I, C>(
    s: Seq<CodeBlockAction<I, C>>,
    lang: Option<Seq<char>>,
) -> Seq<CodeBlockAction<I, C>>
    decreases s.len(),
{
    if s.len() == 0 {
        Seq::empty()
    } else {
        let rest = actions_for(s.drop_last(), lang);
        if language_matches(s.last().matcher, lang) {
            rest.push(s.last())
        } else {
            rest
        }
    }
}

impl<I, C> View for CodeBlockActionRegistry<I, C> {
    type V = Seq<CodeBlockAction<I, C>>;

    closed spec fn view(&self) -> Seq<CodeBlockAction<I, C>> {
        self.actions@
    }
}

impl<I, C> CodeBlockActionRegistry<I, C> {
    /// An empty registry.
    pub fn new() -> (r: Self)
        ensures
            r@ == Seq::<CodeBlockAction<I, C>>::empty(),
    {
        CodeBlockActionRegistry { actions: Vec::new() }
    }

    /// Adds `action` after those registered before.
    pub fn register(&mut self, action: CodeBlockAction<I, C>)
        ensures
            final(self)@ == old(self)@.push(action),
    {
        self.actions.push(action);
    }

    /// The registered actions that apply to a code block in language
    /// `lang`, in registration order.
    pub fn get_actions_for_lang(&self, lang: Option<&str>) -> (r: Vec<&CodeBlockAction<I, C>>)
        ensures
            r@.map_values(|a: &CodeBlockAction<I, C>| *a) == actions_for(
                self@,
                match lang {
                    Some(l) => Some(l@),
                    None => None,
                },
            ),
    {
        let ghost lv: Option<Seq<char>> = match lang {
            Some(l) => Some(l@),
            None => None,
        };
        let mut out: Vec<&CodeBlockAction<I, C>> = Vec::new();
        let mut i: usize = 0;
        while i < self.actions.len()
            invariant
                i <= self.actions.len(),
                lv == match lang {
                    Some(l) => Some(l@),
                    None => None::<Seq<char>>,
                },
                out@.map_values(|a: &CodeBlockAction<I, C>| *a) == actions_for(
                    self.actions@.take(i as int),
                    lv,
                ),
            decreases self.actions.len() - i,
        {
            let a = &self.actions[i];
            let ghost before = out@;
            assert(self.actions@.take(i + 1).drop_last() =~= self.actions@.take(i as int));
            if a.matcher.matches(lang) {
                out.push(a);
                assert(out@.map_values(|a: &CodeBlockAction<I, C>| *a) =~= before.map_values(
                    |a: &CodeBlockAction<I, C>| *a,
                ).push(*a));
            }
            i = i + 1;
        }
        assert(self.actions@.take(self.actions.len() as int) =~= self.actions@);
        out
    }

    /// Whether nothing is registered.
    pub fn is_empty(&self) -> (r: bool)
        ensures
            r == (self@.len() == 0),
    {
        self.actions.len() == 0
    }

    /// How many actions are registered.
    pub fn len(&self) -> (r: usize)
        ensures
            r == self@.len(),
    {
        self.actions.len()
    }
}

impl<I, C> Default for CodeBlockActionRegistry<I, C> {
    fn default() -> (r: Self)
        ensures
            r@ == Seq::<CodeBlockAction<I, C>>::empty(),
    {
        CodeBlockActionRegistry::new()
    }
}

/// Most characters a collapsed tool-call card shows in its header.
pub const TOOL_CARD_HEADER_MAX_CHARS: usize = 80;

/// The header of a collapsed tool-call card: `[seq]:title`, or the title
/// alone for a record without a sequence number (`seq` 0), shortened to
/// `TOOL_CARD_HEADER_MAX_CHARS` characters.
pub open spec fn tool_call_header_text(seq: u32, title: Seq<char>) -> Seq<char> {
    truncated(
        if seq > 0 {
            seq!['['] + decimal_text(seq as int) + seq![']', ':'] + title
        } else {
            title
        },
        TOOL_CARD_HEADER_MAX_CHARS as nat,
    )
}

/// The header of a collapsed tool-call card; see `tool_call_header_text`.
pub fn tool_call_header(seq: u32, title: &str) -> (r: String)
    ensures
        r@ == tool_call_header_text(seq, title@),
{
    if seq > 0 {
        let mut v: Vec<char> = Vec::new();
        v.push('[');
        push_str(&mut v, &to_chars(i64_to_string(seq as i64).as_str()));
        v.push(']');
        v.push(':');
        push_str(&mut v, &to_chars(title));
        let text = string_from_chars(&v);
        proof {
            assert(text@ =~= seq!['['] + decimal_text(seq as int) + seq![']', ':'] + title@);
        }
        truncate_chars(text.as_str(), TOOL_CARD_HEADER_MAX_CHARS)
    } else {
        truncate_chars(title, TOOL_CARD_HEADER_MAX_CHARS)
    }
}

/// One labelled line of a tool call's detail: `**label** text`.
pub open spec fn labelled(label: Seq<char>, text: Seq<char>) -> Seq<char> {
    "**"@ + label + "** "@ + text
}

/// The detail shown for a tool call: the tool's name, then its arguments
/// and its output where they are not empty, one labelled line each.
pub open spec fn tool_call_detail_text(
    tool_label: Seq<char>,
    args_label: Seq<char>,
    output_label: Seq<char>,
    name: Seq<char>,
    args_summary: Seq<char>,
    output: Seq<char>,
) -> Seq<char> {
    labelled(tool_label, name) + (if args_summary.len() == 0 {
        Seq::empty()
    } else {
        seq!['\n'] + labelled(args_label, args_summary)
    }) + (if output.len() == 0 {
        Seq::empty()
    } else {
        seq!['\n'] + labelled(output_label, output)
    })
}

fn push_labelled(v: &mut Vec<char>, label: &str, text: &str)
    ensures
        final(v)@ == old(v)@ + labelled(label@, text@),
{
    push_str(v, &to_chars("**"));
    push_str(v, &to_chars(label));
    push_str(v, &to_chars("** "));
    push_str(v, &to_chars(text));
    proof {
        assert(v@ =~= old(v)@ + labelled(label@, text@));
    }
}

/// The detail of a tool call, in the labels of the user's language; see
/// `tool_call_detail_text`.
pub fn tool_call_detail(
    tool_label: &str,
    args_label: &str,
    output_label: &str,
    name: &str,
    args_summary: &str,
    output: &str,
) -> (r: String)
    ensures
        r@ == tool_call_detail_text(
            tool_label@,
            args_label@,
            output_label@,
            name@,
            args_summary@,
            output@,
        ),
{
    let mut v: Vec<char> = Vec::new();
    push_labelled(&mut v, tool_label, name);
    let ghost first = v@;
    if !args_summary.is_empty() {
        v.push('\n');
        push_labelled(&mut v, args_label, args_summary);
    }
    let ghost second = v@;
    assert(second =~= first + (if args_summary@.len() == 0 {
        Seq::<char>::empty()
    } else {
        seq!['\n'] + labelled(args_label@, args_summary@)
    }));
    if !output.is_empty() {
        v.push('\n');
        push_labelled(&mut v, output_label, output);
    }
    assert(v@ =~= tool_call_detail_text(
        tool_label@,
        args_label@,
        output_label@,
        name@,
        args_summary@,
        output@,
    ));
    string_from_chars(&v)
}

/// Events the chat panel emits.
#[derive(Clone, Debug)]
pub enum AiChatPanelEvent {
    Close,
    ExecuteSql {
        sql: String,
        connection_id: String,
        database: Option<String>,
        schema: Option<String>,
    },
}

// ---------------------------------------------------------------------------
// Tool-record stripping
// ---------------------------------------------------------------------------
/// Opening fence of a tool record block.
pub open spec fn tool_fence() -> Seq<char> {
    "```omnihub-tool"@
}

/// Any code fence.
pub open spec fn fence() -> Seq<char> {
    "```"@
}

/// The lines outside tool record blocks, each followed by a newline; a
/// block opens at a line starting (after indentation) with the tool fence
/// and closes at the next line starting with a fence.
pub open spec fn strip_rec(lines: Seq<Seq<char>>, in_block: bool) -> Seq<char>
    decreases lines.len(),
{
    if lines.len() == 0 {
        Seq::empty()
    } else {
        let line = lines[0];
        let t = trim_start(line);
        let rest = lines.drop_first();
        if !in_block && has_prefix(t, tool_fence()) {
            strip_rec(rest, true)
        } else if in_block {
            strip_rec(rest, !has_prefix(t, fence()))
        } else {
            line + seq!['\n'] + strip_rec(rest, false)
        }
    }
}

/// Removes the tool record blocks from a message; the rest is kept line by
/// line, without trailing white space.
pub fn strip_tool_record_blocks(content: &str) -> (r: String)
    ensures
        r@ == trim_end(strip_rec(lines_of(content@), false)),
{
    let chars = to_chars(content);
    let lines = split_lines(&chars);
    let ghost lv = lines_of(chars@);
    let mut out: Vec<char> = Vec::new();
    let mut in_block = false;
    let mut i: usize = 0;
    assert(lv.skip(0) =~= lv);
    while i < lines.len()
        invariant
            i <= lines.len(),
            lines@.len() == lv.len(),
            lv == lines_of(content@),
            forall|k: int| 0 <= k < lines@.len() ==> (#[trigger] lines@[k])@ == lv[k],
            out@ + strip_rec(lv.skip(i as int), in_block) == strip_rec(lv, false),
        decreases lines.len() - i,
    {
        let line = &lines[i];
        let ghost rest = lv.skip(i as int);
        proof {
            assert(rest[0] == line@);
            assert(rest.drop_first() =~= lv.skip(i + 1));
        }
        let t = trim_start_chars(line);
        if !in_block && starts_with_str(&t, "```omnihub-tool") {
            in_block = true;
        } else if in_block {
            if starts_with_str(&t, "```") {
                in_block = false;
            }
        } else {
            let ghost before = out@;
            push_str(&mut out, line);
            out.push('\n');
            proof {
                assert(out@ + strip_rec(lv.skip(i + 1), false) =~= before + (line@ + seq!['\n']
                    + strip_rec(lv.skip(i + 1), false)));
            }
        }
        i = i + 1;
    }
    proof {
        assert(lv.skip(lines.len() as int) =~= Seq::<Seq<char>>::empty());
        assert(out@ =~= strip_rec(lv, false));
    }
    let trimmed = trim_end_chars(&out);
    string_from_chars(&trimmed)
}

// ---------------------------------------------------------------------------
// Truncation
// ---------------------------------------------------------------------------
/// `text` when it has at most `max` characters, else its first `max`
/// characters followed by `...`.
pub open spec fn truncated(text: Seq<char>, max: nat) -> Seq<char> {
    if text.len() <= max {
        text
    } else {
        text.take(max as int) + "..."@
    }
}

/// Shortens `text` to `max_chars` characters plus an ellipsis.
pub fn truncate_chars(text: &str, max_chars: usize) -> (r: String)
    ensures
        r@ == truncated(text@, max_chars as nat),
{
    let c = to_chars(text);
    if c.len() <= max_chars {
        return String::from_str(text);
    }
    let mut out = slice_chars(&c, 0, max_chars);
    assert(out@ =~= text@.take(max_chars as int));
    let dots = to_chars("...");
    push_str(&mut out, &dots);
    string_from_chars(&out)
}

// ---------------------------------------------------------------------------
// Session titles
// ---------------------------------------------------------------------------
/// The trimmed non-empty lines outside fenced code blocks, each followed by
/// a space.
pub open spec fn prose_of(lines: Seq<Seq<char>>, in_code: bool) -> Seq<char>
    decreases lines.len(),
{
    if lines.len() == 0 {
        Seq::empty()
    } else {
        let t = trim(lines[0]);
        let rest = lines.drop_first();
        if has_prefix(t, fence()) {
            prose_of(rest, !in_code)
        } else if !in_code && t.len() > 0 {
            t + seq![' '] + prose_of(rest, in_code)
        } else {
            prose_of(rest, in_code)
        }
    }
}

/// A fenced code block after the prose adds nothing to a session's title:
/// the title of `p`, then a line with a fence, a code line and a closing
/// fence, is the title of `p` alone (for a prose line and a code line that
/// are single lines and do not themselves start with a fence).
pub proof fn law_fenced_code_leaves_title(p: Seq<char>, code: Seq<char>, fallback: Seq<char>)
    requires
        single_line(p),
        single_line(code),
        !has_prefix(trim(p), fence()),
        !has_prefix(trim(code), fence()),
    ensures
        session_title(
            p + seq!['\n'] + fence() + seq!['\n'] + code + seq!['\n'] + fence(),
            fallback,
        ) == session_title(p, fallback),
{
    reveal_strlit("```");
    let f = fence();
    assert(single_line(f));
    let content = p + seq!['\n'] + fence() + seq!['\n'] + code + seq!['\n'] + fence();
    let r3 = code + seq!['\n'] + f;
    let r2 = f + seq!['\n'] + r3;
    assert(content =~= p + seq!['\n'] + r2);
    lemma_lines_of_cons(p, r2);
    lemma_lines_of_cons(f, r3);
    lemma_lines_of_cons(code, f);
    lemma_lines_of_single(f);
    let ls = seq![p, f, code, f];
    assert(lines_of(content) =~= ls);
    assert(trim(f) =~= f) by {
        reveal_with_fuel(trim_start, 2);
        reveal_with_fuel(trim_end, 2);
    }
    assert(has_prefix(trim(f), f)) by {
        assert(trim(f).take(f.len() as int) =~= f);
    }
    let tail = seq![f, code, f];
    assert(ls.drop_first() =~= tail);
    assert(tail.drop_first() =~= seq![code, f]);
    assert(seq![code, f].drop_first() =~= seq![f]);
    assert(seq![f].drop_first() =~= Seq::<Seq<char>>::empty());
    assert(prose_of(seq![f], true) == prose_of(Seq::<Seq<char>>::empty(), false));
    assert(prose_of(seq![code, f], true) == prose_of(seq![f], true));
    assert(prose_of(tail, false) == Seq::<char>::empty());
    if p.len() > 0 {
        lemma_lines_of_single(p);
        assert(seq![p].drop_first() =~= Seq::<Seq<char>>::empty());
    } else {
        assert(lines_of(p) =~= Seq::<Seq<char>>::empty());
        assert(trim(p) =~= p);
    }
    assert(prose_of(lines_of(content), false) == prose_of(lines_of(p), false));
}

/// The pattern of `@name` mentions.
pub open spec fn mention_pattern() -> Seq<char> {
    r"@\w+\b"@
}

/// Whether a word ends right before index `j` of `c`.
pub open spec fn is_word_end(c: Seq<char>, j: int) -> bool {
    0 < j <= c.len() && (j == c.len() || c[j] == ' ') && c[j - 1] != ' '
}

/// The largest `j <= limit` at which a word of `c` ends, or 0.
pub open spec fn last_word_end(c: Seq<char>, limit: int) -> int
    decreases limit,
{
    if limit <= 0 {
        0
    } else if is_word_end(c, limit) {
        limit
    } else {
        last_word_end(c, limit - 1)
    }
}

/// A title for a session from its first message: the prose outside code
/// blocks without `@` mentions and with white space collapsed; kept whole up
/// to 20 characters, else cut after the last word that ends within 17
/// characters (or at 17 characters) and followed by `...`; `fallback` when
/// nothing is left.
pub open spec fn session_title(content: Seq<char>, fallback: Seq<char>) -> Seq<char> {
    let cleaned = prose_of(lines_of(content), false);
    let no_mentions = if regex_valid(mention_pattern()) {
        regex_replaced(mention_pattern(), cleaned, Seq::empty())
    } else {
        cleaned
    };
    title_from_text(no_mentions, fallback)
}

/// The title of a message's prose once mentions are gone: whitespace
/// collapsed and trimmed; `fallback` where nothing is left; up to 20
/// characters as they are; longer, cut after the last word that ends within
/// 17 characters (or at 17 where none does) and followed by `...`.
pub open spec fn title_from_text(text: Seq<char>, fallback: Seq<char>) -> Seq<char> {
    let clean = trim(collapse_ws(text));
    if clean.len() == 0 {
        fallback
    } else if clean.len() <= 20 {
        clean
    } else {
        let cut = last_word_end(clean, 17);
        (if cut > 0 {
            clean.take(cut)
        } else {
            clean.take(17)
        }) + "..."@
    }
}

/// Derives a session title from the first message of a session; `fallback`
/// is the title used when the message holds no prose.
pub fn extract_session_name(content: &str, fallback: &str) -> (r: String)
    ensures
        r@ == session_title(content@, fallback@),
{
    let chars = to_chars(content);
    let lines = split_lines(&chars);
    let ghost lv = lines_of(chars@);
    let mut cleaned: Vec<char> = Vec::new();
    let mut in_code = false;
    let mut i: usize = 0;
    assert(lv.skip(0) =~= lv);
    while i < lines.len()
        invariant
            i <= lines.len(),
            lines@.len() == lv.len(),
            lv == lines_of(content@),
            forall|k: int| 0 <= k < lines@.len() ==> (#[trigger] lines@[k])@ == lv[k],
            cleaned@ + prose_of(lv.skip(i as int), in_code) == prose_of(lv, false),
        decreases lines.len() - i,
    {
        let ghost rest = lv.skip(i as int);
        proof {
            assert(rest[0] == lines@[i as int]@);
            assert(rest.drop_first() =~= lv.skip(i + 1));
        }
        let t = trim_chars(&lines[i]);
        if starts_with_str(&t, "```") {
            in_code = !in_code;
        } else if !in_code && t.len() > 0 {
            let ghost before = cleaned@;
            push_str(&mut cleaned, &t);
            cleaned.push(' ');
            proof {
                assert(cleaned@ + prose_of(lv.skip(i + 1), in_code) =~= before + (t@ + seq![' ']
                    + prose_of(lv.skip(i + 1), in_code)));
            }
        }
        i = i + 1;
    }
    proof {
        assert(lv.skip(lines.len() as int) =~= Seq::<Seq<char>>::empty());
        assert(cleaned@ =~= prose_of(lv, false));
    }
    let cleaned_s = string_from_chars(&cleaned);
    let replaced = regex_replace_all(r"@\w+\b", cleaned_s.as_str(), "");
    proof {
        let cleaned_v = prose_of(lines_of(content@), false);
        assert(cleaned_s@ == cleaned_v);
        assert(""@ == Seq::<char>::empty()) by {
            reveal_strlit("");
        }
    }
    session_title_from(replaced.as_str(), fallback)
}

/// The title of `text`, a message's prose with mentions removed; see
/// `title_from_text`.
pub fn session_title_from(text: &str, fallback: &str) -> (r: String)
    ensures
        r@ == title_from_text(text@, fallback@),
{
    let rc = to_chars(text);
    let collapsed = collapse_whitespace(&rc);
    let clean = trim_chars(&collapsed);
    if clean.len() == 0 {
        return String::from_str(fallback);
    }
    if clean.len() <= 20 {
        return string_from_chars(&clean);
    }
    let mut j: usize = 17;
    while j > 0
        invariant
            j <= 17 < clean.len(),
            last_word_end(clean@, 17) == last_word_end(clean@, j as int),
        ensures
            j <= 17 < clean.len(),
            last_word_end(clean@, 17) == last_word_end(clean@, j as int),
            j > 0 ==> is_word_end(clean@, j as int),
        decreases j,
    {
        if (j == clean.len() || clean[j] == ' ') && clean[j - 1] != ' ' {
            break ;
        }
        j = j - 1;
    }
    let mut out = if j > 0 {
        slice_chars(&clean, 0, j)
    } else {
        slice_chars(&clean, 0, 17)
    };
    proof {
        assert(clean@.take(j as int) =~= clean@.subrange(0, j as int));
        assert(clean@.take(17) =~= clean@.subrange(0, 17));
    }
    let dots = to_chars("...");
    push_str(&mut out, &dots);
    string_from_chars(&out)
}

// ---------------------------------------------------------------------------
// Session persistence types
// ---------------------------------------------------------------------------
/// Failures of the session persistence service.
#[derive(Debug, Clone)]
pub enum SessionError {
    /// The repository is not registered.
    RepositoryNotAvailable,
    /// No session has the given id.
    SessionNotFound,
    /// The storage layer failed.
    StorageError(String),
}

/// `s` without leading and trailing `c` (`str::trim_matches`).
pub open spec fn strip_both(s: Seq<char>, c: char) -> Seq<char> {
    strip_trailing(strip_leading(s, c), c)
}

/// A session title as the model wrote it, cleaned: trimmed, then without
/// surrounding double quotes, then without surrounding single quotes.
pub open spec fn ai_title_text(reply: Seq<char>) -> Seq<char> {
    strip_both(strip_both(trim(reply), '"'), '\'')
}

/// The session title in the model's reply `reply`, cleaned (see
/// `ai_title_text`); `None` where nothing is left, so that the caller falls
/// back to `extract_session_name`.
pub fn clean_ai_title(reply: &str) -> (r: Option<String>)
    ensures
        ai_title_text(reply@).len() == 0 ==> r is None,
        ai_title_text(reply@).len() != 0 ==> (r matches Some(t) && t@ == ai_title_text(reply@)),
{
    let t = trim_chars(&to_chars(reply));
    let t = trim_end_matches(&trim_start_matches(&t, '"'), '"');
    let t = trim_end_matches(&trim_start_matches(&t, '\''), '\'');
    if t.len() == 0 {
        None
    } else {
        Some(string_from_chars(&t))
    }
}

/// What making sure of a chat session comes to.
#[derive(Debug, Clone, Copy, PartialEq, Eq, Structural)]
pub enum SessionChoice {
    /// Go on with this existing session.
    Keep(i64),
    /// Create a new session.
    Create,
}

/// Whether to keep the session `session_id` or create one: an id is kept
/// only where the store holds that session (`stored`, read for that id);
/// with no id, or an id the store does not hold, a new session is created.
pub fn ensure_session_choice(session_id: Option<i64>, stored: bool) -> (r: SessionChoice)
    ensures
        r == match session_id {
            Some(id) => if stored {
                SessionChoice::Keep(id)
            } else {
                SessionChoice::Create
            },
            None => SessionChoice::Create,
        },
{
    match session_id {
        Some(id) => if stored {
            SessionChoice::Keep(id)
        } else {
            SessionChoice::Create
        },
        None => SessionChoice::Create,
    }
}

/// Connection context recorded with a new session.
#[derive(Clone, Debug)]
pub struct SessionConnectionInfo {
    pub connection_id: Option<String>,
    pub database_name: Option<String>,
    pub database_type: Option<String>,
}

impl Default for SessionConnectionInfo {
    fn default() -> (r: Self)
        ensures
            r.connection_id is None,
            r.database_name is None,
            r.database_type is None,
    {
        SessionConnectionInfo { connection_id: None, database_name: None, database_type: None }
    }
}

// ---------------------------------------------------------------------------
// Conversation history sent to the model
// ---------------------------------------------------------------------------
/// Who wrote a message of a conversation.
#[derive(Debug, Clone, Copy, PartialEq, Eq, Structural)]
pub enum ChatRole {
    User,
    Assistant,
    System,
    Tool,
}

/// A message as the session store keeps it.
#[derive(Debug)]
pub struct StoredChatMessage {
    /// `user`, `assistant`, `system` or `tool`.
    pub role: String,
    pub content: String,
    /// The tool calls an assistant message made, as JSON.
    pub tool_calls_json: Option<String>,
    /// The call a tool result answers.
    pub tool_call_id: Option<String>,
}

/// A message of the history sent to the model.
#[derive(Debug)]
pub struct HistoryMessage {
    pub role: ChatRole,
    pub content: String,
    /// The tool calls of an assistant message, as JSON.
    pub tool_calls_json: Option<String>,
    /// The call a tool result answers.
    pub tool_call_id: Option<String>,
}

/// A history message by the text of its parts.
pub open spec fn msg_view(m: HistoryMessage) -> (ChatRole, Seq<char>, Option<Seq<char>>, Option<Seq<char>>) {
    (m.role, m.content@, opt_text(m.tool_calls_json), opt_text(m.tool_call_id))
}

/// The text of an optional string.
pub open spec fn opt_text(o: Option<String>) -> Option<Seq<char>> {
    match o {
        Some(s) => Some(s@),
        None => None,
    }
}

/// The role named by a stored role text; anything unknown (and `tool`,
/// where tool messages are not carried) is the user.
pub open spec fn role_of(text: Seq<char>, tools: bool) -> ChatRole {
    if text == "user"@ {
        ChatRole::User
    } else if text == "assistant"@ {
        ChatRole::Assistant
    } else if text == "system"@ {
        ChatRole::System
    } else if tools && text == "tool"@ {
        ChatRole::Tool
    } else {
        ChatRole::User
    }
}

/// The history message for a stored one; tool details are carried only
/// with `tools`.
pub open spec fn row_view(m: StoredChatMessage, tools: bool) -> (ChatRole, Seq<char>, Option<Seq<char>>, Option<Seq<char>>) {
    if tools {
        (role_of(m.role@, true), m.content@, opt_text(m.tool_calls_json), opt_text(m.tool_call_id))
    } else {
        (role_of(m.role@, false), m.content@, None, None)
    }
}

/// The history messages for stored ones.
pub open spec fn rows_view(rows: Seq<StoredChatMessage>, tools: bool) -> Seq<(ChatRole, Seq<char>, Option<Seq<char>>, Option<Seq<char>>)> {
    rows.map_values(|m: StoredChatMessage| row_view(m, tools))
}

/// The history of a plain chat request: the session's stored messages, the
/// last `history_count` of them where there are more (the current input
/// alone where the session's messages could not be read), after the system
/// instruction where there is one.
pub open spec fn chat_history_view(
    rows: Option<Seq<StoredChatMessage>>,
    history_count: nat,
    input: Seq<char>,
    instruction: Option<Seq<char>>,
) -> Seq<(ChatRole, Seq<char>, Option<Seq<char>>, Option<Seq<char>>)> {
    let base = match rows {
        Some(rs) => {
            let ms = rows_view(rs, false);
            if ms.len() > history_count {
                ms.skip(ms.len() - history_count)
            } else {
                ms
            }
        },
        None => seq![(ChatRole::User, input, None, None)],
    };
    match instruction {
        Some(i) => seq![(ChatRole::System, i, None, None)] + base,
        None => base,
    }
}

/// The history of an agent request: the session's stored messages with
/// their tool details (the current input alone where they could not be
/// read), cut to the last `history_count`, without a last user message
/// that repeats the current input (the agent carries that separately).
pub open spec fn agent_history_view(
    rows: Option<Seq<StoredChatMessage>>,
    history_count: nat,
    input: Seq<char>,
) -> Seq<(ChatRole, Seq<char>, Option<Seq<char>>, Option<Seq<char>>)> {
    let base = match rows {
        Some(rs) => rows_view(rs, true),
        None => seq![(ChatRole::User, input, None, None)],
    };
    let keep = if base.len() > history_count {
        base.skip(base.len() - history_count)
    } else {
        base
    };
    if keep.len() > 0 && keep.last().0 == ChatRole::User && keep.last().1 == input {
        keep.drop_last()
    } else {
        keep
    }
}

fn role_from_text(text: &str, tools: bool) -> (r: ChatRole)
    ensures
        r == role_of(text@, tools),
{
    if str_eq(text, "user") {
        ChatRole::User
    } else if str_eq(text, "assistant") {
        ChatRole::Assistant
    } else if str_eq(text, "system") {
        ChatRole::System
    } else if tools && str_eq(text, "tool") {
        ChatRole::Tool
    } else {
        ChatRole::User
    }
}

fn clone_opt(o: &Option<String>) -> (r: Option<String>)
    ensures
        r == *o,
{
    match o {
        Some(s) => Some(s.clone()),
        None => None,
    }
}

/// The history messages for the stored messages from index `from` on.
fn history_from(rows: &Vec<StoredChatMessage>, from: usize, tools: bool) -> (r: Vec<HistoryMessage>)
    requires
        from <= rows@.len(),
    ensures
        r@.map_values(|m: HistoryMessage| msg_view(m)) == rows_view(rows@, tools).skip(from as int),
{
    let mut out: Vec<HistoryMessage> = Vec::new();
    let mut i: usize = from;
    while i < rows.len()
        invariant
            from <= i <= rows@.len(),
            out@.map_values(|m: HistoryMessage| msg_view(m)) == rows_view(rows@, tools).subrange(
                from as int,
                i as int,
            ),
        decreases rows@.len() - i,
    {
        let row = &rows[i];
        let m = HistoryMessage {
            role: role_from_text(row.role.as_str(), tools),
            content: row.content.clone(),
            tool_calls_json: if tools {
                clone_opt(&row.tool_calls_json)
            } else {
                None
            },
            tool_call_id: if tools {
                clone_opt(&row.tool_call_id)
            } else {
                None
            },
        };
        let ghost before = out@;
        out.push(m);
        proof {
            assert(out@.map_values(|m: HistoryMessage| msg_view(m)) =~= before.map_values(
                |m: HistoryMessage| msg_view(m),
            ).push(msg_view(m)));
            assert(rows_view(rows@, tools).subrange(from as int, i + 1) =~= rows_view(
                rows@,
                tools,
            ).subrange(from as int, i as int).push(rows_view(rows@, tools)[i as int]));
        }
        i = i + 1;
    }
    assert(rows_view(rows@, tools).subrange(from as int, rows@.len() as int) =~= rows_view(
        rows@,
        tools,
    ).skip(from as int));
    out
}

fn input_message(input: &str) -> (r: HistoryMessage)
    ensures
        msg_view(r) == (ChatRole::User, input@, None::<Seq<char>>, None::<Seq<char>>),
{
    HistoryMessage {
        role: ChatRole::User,
        content: String::from_str(input),
        tool_calls_json: None,
        tool_call_id: None,
    }
}

/// The history sent with a plain chat request; see `chat_history_view`.
/// `rows` is `None` where the session's messages could not be read.
pub fn chat_history(
    rows: Option<&Vec<StoredChatMessage>>,
    history_count: usize,
    input: &str,
    instruction: Option<&str>,
) -> (r: Vec<HistoryMessage>)
    ensures
        r@.map_values(|m: HistoryMessage| msg_view(m)) == chat_history_view(
            match rows {
                Some(v) => Some(v@),
                None => None,
            },
            history_count as nat,
            input@,
            match instruction {
                Some(i) => Some(i@),
                None => None,
            },
        ),
{
    let base = match rows {
        Some(v) => {
            let from = if v.len() > history_count {
                v.len() - history_count
            } else {
                0
            };
            let r = history_from(v, from, false);
            proof {
                if v@.len() <= history_count {
                    assert(rows_view(v@, false).skip(0) =~= rows_view(v@, false));
                }
            }
            r
        },
        None => {
            let mut one: Vec<HistoryMessage> = Vec::new();
            one.push(input_message(input));
            proof {
                assert(one@.map_values(|m: HistoryMessage| msg_view(m)) =~= seq![
                    (ChatRole::User, input@, None::<Seq<char>>, None::<Seq<char>>),
                ]);
            }
            one
        },
    };
    match instruction {
        Some(text) => {
            let mut out: Vec<HistoryMessage> = Vec::new();
            out.push(
                HistoryMessage {
                    role: ChatRole::System,
                    content: String::from_str(text),
                    tool_calls_json: None,
                    tool_call_id: None,
                },
            );
            let ghost head = out@;
            let mut rest = base;
            let ghost tail = rest@;
            out.append(&mut rest);
            proof {
                assert(out@ =~= head + tail);
                assert(out@.map_values(|m: HistoryMessage| msg_view(m)) =~= head.map_values(
                    |m: HistoryMessage| msg_view(m),
                ) + tail.map_values(|m: HistoryMessage| msg_view(m)));
            }
            out
        },
        None => base,
    }
}

/// The history sent with an agent request; see `agent_history_view`.
/// `rows` is `None` where there is no session or its messages could not be
/// read.
pub fn agent_history(rows: Option<&Vec<StoredChatMessage>>, history_count: usize, input: &str) -> (r:
    Vec<HistoryMessage>)
    ensures
        r@.map_values(|m: HistoryMessage| msg_view(m)) == agent_history_view(
            match rows {
                Some(v) => Some(v@),
                None => None,
            },
            history_count as nat,
            input@,
        ),
{
    let mut kept = match rows {
        Some(v) => {
            let from = if v.len() > history_count {
                v.len() - history_count
            } else {
                0
            };
            let r = history_from(v, from, true);
            proof {
                if v@.len() <= history_count {
                    assert(rows_view(v@, true).skip(0) =~= rows_view(v@, true));
                }
            }
            r
        },
        None => {
            let mut one: Vec<HistoryMessage> = Vec::new();
            if history_count > 0 {
                one.push(input_message(input));
            }
            proof {
                let base = seq![(ChatRole::User, input@, None::<Seq<char>>, None::<Seq<char>>)];
                if history_count > 0 {
                    assert(one@.map_values(|m: HistoryMessage| msg_view(m)) =~= base);
                } else {
                    assert(base.skip(1) =~= Seq::<(ChatRole, Seq<char>, Option<Seq<char>>, Option<Seq<char>>)>::empty());
                    assert(one@.map_values(|m: HistoryMessage| msg_view(m)) =~= base.skip(1));
                }
            }
            one
        },
    };
    let ghost kv = kept@.map_values(|m: HistoryMessage| msg_view(m));
    let n = kept.len();
    if n > 0 {
        let drop = match kept[n - 1].role {
            ChatRole::User => str_eq(kept[n - 1].content.as_str(), input),
            _ => false,
        };
        if drop {
            kept.pop();
            proof {
                assert(kept@.map_values(|m: HistoryMessage| msg_view(m)) =~= kv.drop_last());
            }
        }
    }
    kept
}

} // verus!
