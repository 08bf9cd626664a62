//! Prompts for the local command generator and the cleanup of its raw
//! output into a single shell command line.
use vstd::prelude::*;
use crate::text::{
    char_is_white, chars_of, is_blank, is_white, slice_chars, str_eq, string_from_chars, trim,
    trim_chars, trim_end, trim_start,
};

verus! {

/// System prompt of the `command` mode.
pub const COMMAND_SYSTEM_PROMPT: &'static str = "You are a shell command generator. Respond with a single shell command only. No explanations, no markdown, no code fences, no quotes. Output just the raw command on one line.";

/// System prompt of the `complete` mode.
pub const COMPLETE_SYSTEM_PROMPT: &'static str = "You complete shell commands. Given a partial command, output ONLY the exact text that should follow to finish it. Do not repeat any text that is already present. No explanations, no markdown, no code fences. Output only the completion on one line.";

/// The system prompt for a generation mode: `complete` gets the completion
/// prompt, every other mode the command-generation prompt.
pub fn system_prompt_for(mode: &str) -> (r: &'static str)
    ensures
        mode@ == "complete"@ ==> r@ == COMPLETE_SYSTEM_PROMPT@,
        mode@ != "complete"@ ==> r@ == COMMAND_SYSTEM_PROMPT@,
{
    if str_eq(mode, "complete") {
        COMPLETE_SYSTEM_PROMPT
    } else {
        COMMAND_SYSTEM_PROMPT
    }
}

/// Index of the first `c` in `s`, or `s.len()` when there is none.
pub open spec fn find_char(s: Seq<char>, c: char) -> nat
    decreases s.len(),
{
    if s.len() == 0 {
        0
    } else if s[0] == c {
        0
    } else {
        1 + find_char(s.drop_first(), c)
    }
}

/// Position `i` starts a fence of three backticks.
pub open spec fn fence_at(s: Seq<char>, i: int) -> bool {
    0 <= i && i + 3 <= s.len() && s[i] == '`' && s[i + 1] == '`' && s[i + 2] == '`'
}

/// Index of the first fence of three backticks in `s`, if any.
pub open spec fn find_fence(s: Seq<char>) -> Option<int>
    decreases s.len(),
{
    if s.len() < 3 {
        None
    } else if fence_at(s, 0) {
        Some(0)
    } else {
        match find_fence(s.drop_first()) {
            Some(i) => Some(i + 1),
            None => None,
        }
    }
}

/// The first line of `s` (split on `'\n'`) that is not blank, trimmed; the
/// empty text when every line is blank.
pub open spec fn first_nonblank_line(s: Seq<char>) -> Seq<char>
    decreases s.len(),
{
    let e = find_char(s, '\n') as int;
    let line = s.take(e);
    if !is_blank(line) {
        trim(line)
    } else if e >= s.len() {
        seq![]
    } else {
        first_nonblank_line(s.skip(e + 1))
    }
}

/// `s` without a leading `"$ "`, or else without a leading `"# "`.
pub open spec fn strip_prompt_marker(s: Seq<char>) -> Seq<char> {
    if s.len() >= 2 && (s[0] == '$' || s[0] == '#') && s[1] == ' ' {
        s.skip(2)
    } else {
        s
    }
}

/// A text of at least two characters wrapped in single backticks loses them.
pub open spec fn strip_backticks(s: Seq<char>) -> Seq<char> {
    if s.len() >= 2 && s[0] == '`' && s.last() == '`' {
        trim(s.subrange(1, s.len() - 1))
    } else {
        s
    }
}

/// The command on the first non-blank line of `text`: prompt marker and
/// wrapping backticks removed, trimmed.
pub open spec fn spec_first_command_line(text: Seq<char>) -> Seq<char> {
    trim(strip_backticks(trim(strip_prompt_marker(first_nonblank_line(text)))))
}

/// The command in raw model output: the first command line of the first
/// fenced block (the info string after the opening fence is skipped), or of
/// the whole trimmed output when there is no fence.
pub open spec fn spec_clean_command(raw: Seq<char>) -> Seq<char> {
    let text = trim(raw);
    match find_fence(text) {
        Some(start) => {
            let after = text.skip(start + 3);
            let nl = find_char(after, '\n') as int;
            let content_start = if nl < after.len() {
                after.skip(nl + 1)
            } else {
                after
            };
            let content = match find_fence(content_start) {
                Some(end) => content_start.take(end),
                None => content_start,
            };
            spec_first_command_line(content)
        },
        None => spec_first_command_line(text),
    }
}

/// `find_char` is the first position holding `c`.
pub proof fn lemma_find_char(s: Seq<char>, c: char, i: int)
    requires
        0 <= i <= s.len(),
        forall|k: int| 0 <= k < i ==> #[trigger] s[k] != c,
        i < s.len() ==> s[i] == c,
    ensures
        find_char(s, c) == i,
    decreases s.len(),
{
    if s.len() > 0 && s[0] != c {
        assert forall|k: int| 0 <= k < i - 1 implies #[trigger] s.drop_first()[k] != c by {
            assert(s.drop_first()[k] == s[k + 1]);
        }
        lemma_find_char(s.drop_first(), c, i - 1);
    }
}

/// Where `find_char` stops inside `s`, `s` holds `c`.
pub proof fn lemma_find_char_hit(s: Seq<char>, c: char)
    ensures
        find_char(s, c) <= s.len(),
        find_char(s, c) < s.len() ==> s[find_char(s, c) as int] == c,
    decreases s.len(),
{
    if s.len() > 0 && s[0] != c {
        lemma_find_char_hit(s.drop_first(), c);
    }
}

/// `find_fence` finds the first fence.
pub proof fn lemma_find_fence(s: Seq<char>, i: int)
    requires
        0 <= i,
        forall|k: int| 0 <= k < i ==> !#[trigger] fence_at(s, k),
        i + 3 <= s.len() ==> fence_at(s, i),
    ensures
        i + 3 <= s.len() ==> find_fence(s) == Some(i),
        i + 3 > s.len() ==> find_fence(s) is None,
    decreases s.len(),
{
    if s.len() >= 3 && !fence_at(s, 0) {
        assert forall|k: int| 0 <= k < i - 1 implies !#[trigger] fence_at(s.drop_first(), k) by {
            assert(fence_at(s, k + 1) == fence_at(s.drop_first(), k));
        }
        if i + 3 <= s.len() {
            assert(fence_at(s, i) == fence_at(s.drop_first(), i - 1));
        }
        lemma_find_fence(s.drop_first(), i - 1);
    }
}

/// Index of the first `c` in `s` at or after `from`, or `s.len()`.
pub fn find_char_from(s: &Vec<char>, from: usize, c: char) -> (r: usize)
    requires
        from <= s.len(),
    ensures
        r as int == from + find_char(s@.skip(from as int), c),
        from <= r <= s.len(),
{
    let mut j = from;
    while j < s.len() && s[j] != c
        invariant
            from <= j <= s.len(),
            forall|k: int| from <= k < j ==> #[trigger] s@[k] != c,
        decreases s.len() - j,
    {
        j += 1;
    }
    proof {
        let t = s@.skip(from as int);
        assert forall|k: int| 0 <= k < j - from implies #[trigger] t[k] != c by {
            assert(t[k] == s@[k + from]);
        }
        lemma_find_char(t, c, j - from);
    }
    j
}

/// Index of the first three-backtick fence in `s` at or after `from`.
pub fn find_fence_from(s: &Vec<char>, from: usize) -> (r: Option<usize>)
    requires
        from <= s.len(),
    ensures
        match r {
            Some(i) => find_fence(s@.skip(from as int)) == Some(i - from) && from <= i && i + 3
                <= s.len(),
            None => find_fence(s@.skip(from as int)) is None,
        },
{
    let mut j = from;
    while s.len() - j >= 3
        invariant
            from <= j <= s.len(),
            forall|k: int| 0 <= k < j - from ==> !#[trigger] fence_at(s@.skip(from as int), k),
        decreases s.len() - j,
    {
        if s[j] == '`' && s[j + 1] == '`' && s[j + 2] == '`' {
            proof {
                let t = s@.skip(from as int);
                assert(fence_at(t, j - from));
                lemma_find_fence(t, j - from);
            }
            return Some(j);
        }
        proof {
            let t = s@.skip(from as int);
            assert(!fence_at(t, j - from));
        }
        j += 1;
    }
    proof {
        let t = s@.skip(from as int);
        lemma_find_fence(t, j - from);
    }
    None
}

/// Whether every character of `s[from..to]` is white space.
pub fn range_is_blank(s: &Vec<char>, from: usize, to: usize) -> (r: bool)
    requires
        from <= to <= s.len(),
    ensures
        r == is_blank(s@.subrange(from as int, to as int)),
{
    let mut k = from;
    while k < to
        invariant
            from <= k <= to <= s.len(),
            forall|m: int| from <= m < k ==> is_white(#[trigger] s@[m]),
        decreases to - k,
    {
        if !char_is_white(s[k]) {
            assert(s@.subrange(from as int, to as int)[k - from] == s@[k as int]);
            return false;
        }
        k += 1;
    }
    assert forall|m: int| 0 <= m < to - from implies is_white(
        #[trigger] s@.subrange(from as int, to as int)[m],
    ) by {
        assert(s@.subrange(from as int, to as int)[m] == s@[m + from]);
    }
    true
}

/// The first non-blank line of `text`, trimmed.
pub fn first_nonblank_line_chars(text: &Vec<char>) -> (r: Vec<char>)
    ensures
        r@ == first_nonblank_line(text@),
{
    let mut i: usize = 0;
    assert(text@.skip(0) =~= text@);
    loop
        invariant
            i <= text.len(),
            first_nonblank_line(text@) == first_nonblank_line(text@.skip(i as int)),
        decreases text.len() - i,
    {
        let e = find_char_from(text, i, '\n');
        let ghost t = text@.skip(i as int);
        assert(t.take(e - i) =~= text@.subrange(i as int, e as int));
        if !range_is_blank(text, i, e) {
            let line = slice_chars(text, i, e);
            return trim_chars(&line);
        }
        if e >= text.len() {
            return Vec::new();
        }
        assert(t.skip(e - i + 1) =~= text@.skip(e + 1));
        i = e + 1;
    }
}

/// The command on the first non-blank line of `text`.
pub fn first_command_line_chars(text: &Vec<char>) -> (r: Vec<char>)
    ensures
        r@ == spec_first_command_line(text@),
{
    let first = first_nonblank_line_chars(text);
    let stripped = if first.len() >= 2 && (first[0] == '$' || first[0] == '#') && first[1]
        == ' ' {
        slice_chars(&first, 2, first.len())
    } else {
        slice_chars(&first, 0, first.len())
    };
    assert(first@.subrange(2, first@.len() as int) =~= first@.skip(2));
    assert(first@.subrange(0, first@.len() as int) =~= first@);
    let t = trim_chars(&stripped);
    let unwrapped = if t.len() >= 2 && t[0] == '`' && t[t.len() - 1] == '`' {
        let inner = slice_chars(&t, 1, t.len() - 1);
        trim_chars(&inner)
    } else {
        slice_chars(&t, 0, t.len())
    };
    assert(t@.subrange(0, t@.len() as int) =~= t@);
    trim_chars(&unwrapped)
}

/// The command on the first non-blank line of `text`, with a leading `$ `
/// or `# ` prompt marker and wrapping single backticks removed.
pub fn first_command_line(text: &str) -> (r: String)
    ensures
        r@ == spec_first_command_line(text@),
{
    let cs = chars_of(text);
    let r = first_command_line_chars(&cs);
    string_from_chars(r.as_slice())
}

/// Reduces raw model output to one shell command: inside the first fenced
/// block when there is one, otherwise from the trimmed text.
pub fn clean_command(raw: &str) -> (r: String)
    ensures
        r@ == spec_clean_command(raw@),
{
    let cs = chars_of(raw);
    let text = trim_chars(&cs);
    assert(text@.skip(0) =~= text@);
    match find_fence_from(&text, 0) {
        Some(start) => {
            let a = start + 3;
            let ghost after = text@.skip(a as int);
            let nl = find_char_from(&text, a, '\n');
            let cs_from = if nl < text.len() {
                nl + 1
            } else {
                a
            };
            let ghost content_start = if nl - a < after.len() {
                after.skip(nl - a + 1)
            } else {
                after
            };
            assert(text@.skip(cs_from as int) =~= content_start);
            let end = match find_fence_from(&text, cs_from) {
                Some(e) => e,
                None => text.len(),
            };
            let content = slice_chars(&text, cs_from, end);
            assert(content@ =~= match find_fence(content_start) {
                Some(e) => content_start.take(e),
                None => content_start,
            });
            let r = first_command_line_chars(&content);
            string_from_chars(r.as_slice())
        },
        None => {
            let r = first_command_line_chars(&text);
            string_from_chars(r.as_slice())
        },
    }
}

/// Modes whose prompt goes through the model's chat template with a
/// system prompt: `command` and `complete`.
pub open spec fn spec_uses_chat_template(mode: Seq<char>) -> bool {
    mode == "command"@ || mode == "complete"@
}

/// Whether a generation mode goes through the chat template.
pub fn uses_chat_template(mode: &str) -> (r: bool)
    ensures
        r == spec_uses_chat_template(mode@),
{
    str_eq(mode, "command") || str_eq(mode, "complete")
}

/// What a generation returns for the generated text: trimmed, and cleaned
/// to a single command when the chat template was used.
pub fn generation_output(generated: &str, use_template: bool) -> (r: String)
    ensures
        use_template ==> r@ == spec_clean_command(trim(generated@)),
        !use_template ==> r@ == trim(generated@),
{
    let output = crate::text::trimmed(generated);
    if use_template {
        clean_command(output.as_str())
    } else {
        output
    }
}

// ── Laws of the cleanup ─────────────────────────────────────────────────────

/// `s` holds no `c`.
pub open spec fn lacks(s: Seq<char>, c: char) -> bool {
    forall|k: int| 0 <= k < s.len() ==> s[k] != c
}

proof fn lemma_find_char_before(s: Seq<char>, c: char)
    ensures
        forall|k: int| 0 <= k < find_char(s, c) ==> #[trigger] s[k] != c,
    decreases s.len(),
{
    if s.len() > 0 && s[0] != c {
        lemma_find_char_before(s.drop_first(), c);
        lemma_find_char_hit(s.drop_first(), c);
        assert forall|k: int| 0 <= k < find_char(s, c) implies #[trigger] s[k] != c by {
            if k > 0 {
                assert(s[k] == s.drop_first()[k - 1]);
            }
        }
    }
}

proof fn lemma_trim_start_keeps_lack(s: Seq<char>, c: char)
    requires
        lacks(s, c),
    ensures
        lacks(trim_start(s), c),
    decreases s.len(),
{
    if s.len() > 0 && is_white(s[0]) {
        lemma_trim_start_keeps_lack(s.drop_first(), c);
    }
}

proof fn lemma_trim_end_keeps_lack(s: Seq<char>, c: char)
    requires
        lacks(s, c),
    ensures
        lacks(trim_end(s), c),
    decreases s.len(),
{
    if s.len() > 0 && is_white(s.last()) {
        lemma_trim_end_keeps_lack(s.drop_last(), c);
    }
}

proof fn lemma_trim_keeps_lack(s: Seq<char>, c: char)
    requires
        lacks(s, c),
    ensures
        lacks(trim(s), c),
{
    lemma_trim_start_keeps_lack(s, c);
    lemma_trim_end_keeps_lack(trim_start(s), c);
}

proof fn lemma_first_line_lacks_newline(s: Seq<char>)
    ensures
        lacks(first_nonblank_line(s), '\n'),
    decreases s.len(),
{
    let e = find_char(s, '\n') as int;
    lemma_find_char_before(s, '\n');
    lemma_find_char_hit(s, '\n');
    let line = s.take(e);
    if !is_blank(line) {
        lemma_trim_keeps_lack(line, '\n');
    } else if e < s.len() {
        lemma_first_line_lacks_newline(s.skip(e + 1));
    }
}

proof fn lemma_command_line_lacks_newline(text: Seq<char>)
    ensures
        lacks(spec_first_command_line(text), '\n'),
{
    let a = first_nonblank_line(text);
    lemma_first_line_lacks_newline(text);
    let b = strip_prompt_marker(a);
    let c = trim(b);
    lemma_trim_keeps_lack(b, '\n');
    let d = strip_backticks(c);
    if c.len() >= 2 && c[0] == '`' && c.last() == '`' {
        lemma_trim_keeps_lack(c.subrange(1, c.len() - 1), '\n');
    }
    lemma_trim_keeps_lack(d, '\n');
}

/// The cleaned command is a single line: whatever the model wrote, the
/// result holds no line break.
pub proof fn law_command_is_one_line(raw: Seq<char>)
    ensures
        !spec_clean_command(raw).contains('\n'),
{
    let text = trim(raw);
    match find_fence(text) {
        Some(start) => {
            let after = text.skip(start + 3);
            let nl = find_char(after, '\n') as int;
            let content_start = if nl < after.len() {
                after.skip(nl + 1)
            } else {
                after
            };
            let content = match find_fence(content_start) {
                Some(end) => content_start.take(end),
                None => content_start,
            };
            lemma_command_line_lacks_newline(content);
        },
        None => lemma_command_line_lacks_newline(text),
    }
}

/// A fenced block, with any info string (no line break or backtick) after
/// the opening fence and a body without backticks, is cleaned to the first
/// command line of its body; the fences and the info string never reach the
/// command.
pub proof fn law_fenced_block_gives_its_first_line(tag: Seq<char>, body: Seq<char>)
    requires
        lacks(tag, '\n'),
        lacks(tag, '`'),
        lacks(body, '`'),
    ensures
        spec_clean_command("```"@ + tag + "\n"@ + body + "```"@) == spec_first_command_line(body),
{
    reveal_strlit("```");
    reveal_strlit("\n");
    let raw = "```"@ + tag + "\n"@ + body + "```"@;
    let n = raw.len();
    assert(raw[0] == '`' && raw[n - 1] == '`');
    assert(trim_start(raw) == raw);
    assert(trim_end(raw) == raw);
    assert(fence_at(raw, 0));
    lemma_find_fence(raw, 0);
    let after = raw.skip(3);
    assert(after =~= tag + "\n"@ + body + "```"@);
    let t = tag.len() as int;
    assert forall|k: int| 0 <= k < t implies #[trigger] after[k] != '\n' by {
        assert(after[k] == tag[k]);
    }
    assert(after[t] == '\n');
    lemma_find_char(after, '\n', t);
    let cs = after.skip(t + 1);
    assert(cs =~= body + "```"@);
    let b = body.len() as int;
    assert forall|k: int| 0 <= k < b implies !#[trigger] fence_at(cs, k) by {
        assert(cs[k] == body[k]);
    }
    assert(fence_at(cs, b));
    lemma_find_fence(cs, b);
    assert(cs.take(b) =~= body);
}

/// A command on a line of its own is taken as it is: when `cmd` is a
/// non-empty line with no surrounding white space, no backticks and no
/// prompt marker, the first command line of `cmd` followed by further
/// lines is `cmd`.
pub proof fn law_first_line_is_the_command(cmd: Seq<char>, tail: Seq<char>)
    requires
        cmd.len() > 0,
        lacks(cmd, '\n'),
        lacks(cmd, '`'),
        !is_white(cmd[0]),
        !is_white(cmd.last()),
        !(cmd.len() >= 2 && (cmd[0] == '$' || cmd[0] == '#') && cmd[1] == ' '),
        tail.len() == 0 || tail[0] == '\n',
    ensures
        spec_first_command_line(cmd + tail) == cmd,
{
    let s = cmd + tail;
    let n = cmd.len() as int;
    assert forall|k: int| 0 <= k < n implies #[trigger] s[k] != '\n' by {
        assert(s[k] == cmd[k]);
    }
    lemma_find_char(s, '\n', n);
    assert(s.take(n) =~= cmd);
    assert(!is_blank(cmd)) by {
        assert(!is_white(cmd[0]));
    }
    assert(trim_start(cmd) == cmd);
    assert(trim_end(cmd) == cmd);
    assert(first_nonblank_line(s) == cmd);
}

/// A leading `"$ "` prompt marker is dropped: for `cmd` as in
/// `law_first_line_is_the_command` (a marker inside it is kept), the first
/// command line of `"$ " + cmd` followed by further lines is `cmd`.
pub proof fn law_prompt_marker_is_dropped(cmd: Seq<char>, tail: Seq<char>)
    requires
        cmd.len() > 0,
        lacks(cmd, '\n'),
        lacks(cmd, '`'),
        !is_white(cmd[0]),
        !is_white(cmd.last()),
        tail.len() == 0 || tail[0] == '\n',
    ensures
        spec_first_command_line("$ "@ + cmd + tail) == cmd,
{
    reveal_strlit("$ ");
    let line = "$ "@ + cmd;
    let s = line + tail;
    let n = line.len() as int;
    assert(s =~= "$ "@ + cmd + tail);
    assert forall|k: int| 0 <= k < n implies #[trigger] s[k] != '\n' by {
        if k >= 2 {
            assert(s[k] == cmd[k - 2]);
        }
    }
    lemma_find_char(s, '\n', n);
    assert(s.take(n) =~= line);
    assert(!is_white('$'));
    assert(!is_blank(line)) by {
        assert(line[0] == '$');
    }
    assert(line.last() == cmd.last());
    assert(trim_start(line) == line);
    assert(trim_end(line) == line);
    assert(first_nonblank_line(s) == line);
    assert(line.skip(2) =~= cmd);
    assert(trim_start(cmd) == cmd);
    assert(trim_end(cmd) == cmd);
}

} // verus!
