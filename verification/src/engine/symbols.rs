//! Choosing which symbols of the engine archive stay visible.
//!
//! The archive bundles third-party libraries under their ordinary names. Making those names local
//! keeps them from colliding with another copy of the same library.

use crate::engine::link::LinkMode;
use crate::engine::prebuilt::ScriptRun;
use crate::text::{chars_of, joined, same_text, stands_at, text_of};
use vstd::prelude::*;
use vstd::string::StringExecFns;

verus! {

/// The first position of `c` in `text` at or behind `from`, or the end of the text.
pub open spec fn find(text: Seq<char>, c: char, from: int) -> int
    decreases text.len() - from,
{
    if from >= text.len() {
        text.len() as int
    } else if text[from] == c {
        from
    } else {
        find(text, c, from + 1)
    }
}

/// The line of `text` that begins at `from` and whose line feed, if it has one, stands at `end`.
/// A carriage return before the line feed belongs to the line end.
pub open spec fn line_at(text: Seq<char>, from: int, end: int) -> Seq<char> {
    if end < text.len() && from < end && text[end - 1] == '\r' {
        text.subrange(from, end - 1)
    } else {
        text.subrange(from, end)
    }
}

/// The lines of `text` from position `from` on. A line feed at the end of the text opens no
/// further line.
pub open spec fn lines_from(text: Seq<char>, from: int) -> Seq<Seq<char>>
    decreases text.len() - from,
{
    if from < 0 || from >= text.len() {
        Seq::empty()
    } else {
        proof {
            lemma_find(text, '\n', from);
        }
        let end = find(text, '\n', from);
        if end == text.len() {
            seq![line_at(text, from, end)]
        } else {
            seq![line_at(text, from, end)] + lines_from(text, end + 1)
        }
    }
}

/// The name and the kind that a line of a symbol listing gives: its first two fields, which are
/// set apart by single spaces. A line without a space gives none.
pub open spec fn symbol_of(line: Seq<char>) -> Option<(Seq<char>, Seq<char>)> {
    let name_end = find(line, ' ', 0);
    if name_end == line.len() {
        None
    } else {
        Some(
            (
                line.subrange(0, name_end),
                line.subrange(name_end + 1, find(line, ' ', name_end + 1)),
            ),
        )
    }
}

/// The kinds of strong symbols: code, data, zero-initialised and read-only data.
pub open spec fn is_strong(kind: Seq<char>) -> bool {
    kind == "T"@ || kind == "D"@ || kind == "B"@ || kind == "R"@
}

/// A symbol stays visible if it is weak, a mangled C++ name, or part of the C interface.
pub open spec fn stays_visible(name: Seq<char>, kind: Seq<char>) -> bool {
    !is_strong(kind) || "_Z"@.is_prefix_of(name) || "lbug_"@.is_prefix_of(name)
}

/// The visible names of a listing's lines, in their order.
pub open spec fn visible_names(lines: Seq<Seq<char>>) -> Seq<Seq<char>>
    decreases lines.len(),
{
    if lines.len() == 0 {
        Seq::empty()
    } else {
        let rest = visible_names(lines.drop_first());
        match symbol_of(lines[0]) {
            Some((name, kind)) if stays_visible(name, kind) => seq![name] + rest,
            _ => rest,
        }
    }
}

/// The names, one to a line.
pub open spec fn one_per_line(names: Seq<Seq<char>>) -> Seq<char>
    decreases names.len(),
{
    if names.len() == 0 {
        Seq::empty()
    } else if names.len() == 1 {
        names[0]
    } else {
        one_per_line(names.drop_last()).push('\n') + names.last()
    }
}

/// A search stops at the first occurrence, or at the end of the text if there is none.
pub proof fn lemma_find(text: Seq<char>, c: char, from: int)
    requires
        0 <= from <= text.len(),
    ensures
        from <= find(text, c, from) <= text.len(),
        find(text, c, from) < text.len() ==> text[find(text, c, from)] == c,
        forall|k: int| from <= k < find(text, c, from) ==> text[k] != c,
    decreases text.len() - from,
{
    if from < text.len() && text[from] != c {
        lemma_find(text, c, from + 1);
    }
}

/// The first position of `c` at or behind `from` and before `end`, or `end`.
fn find_char(text: &Vec<char>, c: char, from: usize, end: usize) -> (res: usize)
    requires
        from <= end <= text@.len(),
    ensures
        from <= res <= end,
        res == find(text@.take(end as int), c, from as int),
{
    let mut i: usize = from;
    let ghost part = text@.take(end as int);
    while i < end
        invariant
            from <= i <= end <= text@.len(),
            part == text@.take(end as int),
            find(part, c, from as int) == find(part, c, i as int),
        decreases end - i,
    {
        if text[i] == c {
            return i;
        }
        i = i + 1;
    }
    i
}

/// Where the name ends that the line from `from` up to `end` lists, if it stays visible.
fn visible_name_end(text: &Vec<char>, from: usize, end: usize) -> (res: Option<usize>)
    requires
        from <= end <= text@.len(),
    ensures
        match (symbol_of(text@.subrange(from as int, end as int)), res) {
            (Some((name, kind)), Some(name_end)) => stays_visible(name, kind) && from <= name_end
                <= end && name == text@.subrange(from as int, name_end as int),
            (Some((name, kind)), None) => !stays_visible(name, kind),
            (None, res) => res is None,
        },
{
    let ghost line = text@.subrange(from as int, end as int);
    let name_end: usize = find_char(text, ' ', from, end);
    proof {
        lemma_find_shift(text@, ' ', from as int, end as int, from as int);
    }
    if name_end == end {
        return None;
    }
    let kind_end: usize = find_char(text, ' ', name_end + 1, end);
    proof {
        lemma_find_shift(text@, ' ', from as int, end as int, name_end + 1);
        assert(line.subrange(0, name_end - from) == text@.subrange(from as int, name_end as int));
        assert(line.subrange(name_end - from + 1, kind_end - from) == text@.subrange(
            name_end + 1,
            kind_end as int,
        ));
    }
    if !is_strong_kind(text, name_end + 1, kind_end) || begins_with(text, from, name_end, "_Z")
        || begins_with(text, from, name_end, "lbug_") {
        Some(name_end)
    } else {
        None
    }
}

/// The names of a symbol listing that stay visible, one to a line: everything but the strong,
/// unmangled symbols outside the C interface.
pub fn visible_symbols(listing: &str) -> (res: String)
    ensures
        res@ == one_per_line(visible_names(lines_from(listing@, 0))),
{
    let text = chars_of(listing);
    let len: usize = text.len();
    let mut out = String::new();
    let mut pos: usize = 0;
    let mut first: bool = true;
    let ghost mut names: Seq<Seq<char>> = Seq::empty();
    let ghost all = visible_names(lines_from(text@, 0));
    assert(names + all == all);
    while pos < len
        invariant
            len == text@.len(),
            pos <= len,
            first == (names.len() == 0),
            out@ == one_per_line(names),
            all == names + visible_names(lines_from(text@, pos as int)),
        decreases len - pos,
    {
        assert(text@.take(len as int) == text@);
        let end: usize = find_char(&text, '\n', pos, len);
        let stop: usize = if end < len && pos < end && text[end - 1] == '\r' {
            end - 1
        } else {
            end
        };
        let next: usize = if end < len { end + 1 } else { len };
        let ghost rest = visible_names(lines_from(text@, next as int));
        proof {
            lemma_first_line(text@, pos as int, stop as int, next as int);
        }
        match visible_name_end(&text, pos, stop) {
            Some(name_end) => {
                let ghost name = text@.subrange(pos as int, name_end as int);
                if !first {
                    out.push('\n');
                }
                push_range(&mut out, &text, pos, name_end);
                first = false;
                proof {
                    assert(names.push(name).drop_last() == names);
                    assert(names + (seq![name] + rest) == names.push(name) + rest);
                    names = names.push(name);
                }
            },
            None => {},
        }
        pos = next;
    }
    assert(all == names);
    out
}

/// The first line from `pos` on ends at `stop`, and the others begin at `next`.
proof fn lemma_first_line(text: Seq<char>, pos: int, stop: int, next: int)
    requires
        0 <= pos < text.len(),
        ({
            let end = find(text, '\n', pos);
            &&& stop == if end < text.len() && pos < end && text[end - 1] == '\r' {
                end - 1
            } else {
                end
            }
            &&& next == if end < text.len() {
                end + 1
            } else {
                text.len() as int
            }
        }),
    ensures
        visible_names(lines_from(text, pos)) == match symbol_of(text.subrange(pos, stop)) {
            Some((name, kind)) if stays_visible(name, kind) => seq![name] + visible_names(
                lines_from(text, next),
            ),
            _ => visible_names(lines_from(text, next)),
        },
{
    lemma_find(text, '\n', pos);
    let line = text.subrange(pos, stop);
    let rest = lines_from(text, next);
    assert(lines_from(text, pos) == seq![line] + rest);
    assert((seq![line] + rest).drop_first() == rest);
    assert((seq![line] + rest)[0] == line);
}

/// Searching a part of a text is searching the text up to the part's end.
proof fn lemma_find_shift(text: Seq<char>, c: char, begin: int, end: int, from: int)
    requires
        0 <= begin <= from <= end <= text.len(),
    ensures
        find(text.subrange(begin, end), c, from - begin) == find(text.take(end), c, from) - begin,
    decreases end - from,
{
    if from < end {
        assert(text.subrange(begin, end)[from - begin] == text.take(end)[from]);
        if text[from] != c {
            lemma_find_shift(text, c, begin, end, from + 1);
        }
    }
}

/// Writes the characters from `from` up to `end` behind `out`.
fn push_range(out: &mut String, text: &Vec<char>, from: usize, end: usize)
    requires
        from <= end <= text@.len(),
    ensures
        final(out)@ == old(out)@ + text@.subrange(from as int, end as int),
{
    let mut i: usize = from;
    while i < end
        invariant
            from <= i <= end <= text@.len(),
            out@ == old(out)@ + text@.subrange(from as int, i as int),
        decreases end - i,
    {
        out.push(text[i]);
        i = i + 1;
        assert(out@ == old(out)@ + text@.subrange(from as int, i as int));
    }
}

/// Whether the characters from `from` up to `end` begin with `prefix`.
fn begins_with(text: &Vec<char>, from: usize, end: usize, prefix: &str) -> (res: bool)
    requires
        from <= end <= text@.len(),
    ensures
        res == prefix@.is_prefix_of(text@.subrange(from as int, end as int)),
{
    let n: usize = chars_of(prefix).len();
    let found = n <= end - from && stands_at(text, from, prefix);
    proof {
        let part = text@.subrange(from as int, end as int);
        let tail = text@.skip(from as int);
        if n <= end - from {
            assert(part.subrange(0, n as int) == tail.subrange(0, n as int));
        }
    }
    found
}

/// Whether the characters from `from` up to `end` are the kind of a strong symbol.
fn is_strong_kind(text: &Vec<char>, from: usize, end: usize) -> (res: bool)
    requires
        from <= end <= text@.len(),
    ensures
        res == is_strong(text@.subrange(from as int, end as int)),
{
    proof {
        reveal_strlit("T");
        reveal_strlit("D");
        reveal_strlit("B");
        reveal_strlit("R");
    }
    let ghost kind = text@.subrange(from as int, end as int);
    assert("T"@ == seq!['T'] && "D"@ == seq!['D'] && "B"@ == seq!['B'] && "R"@ == seq!['R']);
    if end - from != 1 {
        assert(kind.len() != 1);
        return false;
    }
    assert(kind == seq![text@[from as int]]);
    assert(kind[0] == text@[from as int]);
    let c: char = text[from];
    c == 'T' || c == 'D' || c == 'B' || c == 'R'
}

/// Whether hiding the bundled symbols was asked for: any value but an empty one and `0`.
pub open spec fn localizing_requested(value: Option<&str>) -> bool {
    value matches Some(value) && value@ != "0"@ && value@.len() > 0
}

/// The archive's bundled symbols are hidden.
pub open spec fn localizes(value: Option<&str>, linux: bool, mode: LinkMode) -> bool {
    localizing_requested(value) && linux && mode == LinkMode::Static
}

/// Whether the archive's bundled symbols are hidden: on request, on Linux, and for static linking
/// only.
pub fn should_localize(value: Option<&str>, linux: bool, mode: LinkMode) -> (res: bool)
    ensures
        res == localizes(value, linux, mode),
        res == (localizing_requested(value) && linux && mode == LinkMode::Static),
{
    let requested = match value {
        Some(value) => !same_text(value, "0") && !value.is_empty(),
        None => false,
    };
    requested && linux && mode == LinkMode::Static
}

/// The tools that rewrite the archive.
#[derive(Debug, Clone, Copy, PartialEq, Eq, Structural)]
pub enum Tool {
    Ld,
    Nm,
    Objcopy,
    Ar,
}

/// The command that runs a tool.
pub open spec fn command(tool: Tool) -> Seq<char> {
    match tool {
        Tool::Ld => "ld"@,
        Tool::Nm => "nm"@,
        Tool::Objcopy => "objcopy"@,
        Tool::Ar => "ar"@,
    }
}

impl Tool {
    /// The command that runs this tool.
    pub fn command(&self) -> (res: &'static str)
        ensures
            res@ == command(*self),
    {
        match self {
            Tool::Ld => "ld",
            Tool::Nm => "nm",
            Tool::Objcopy => "objcopy",
            Tool::Ar => "ar",
        }
    }
}

/// The warning that a tool's end calls for, if it does.
pub open spec fn tool_report(tool: Tool, run: ScriptRun) -> Option<Seq<char>> {
    match run {
        ScriptRun::Exited { success: true, status: _ } => None,
        ScriptRun::NotStarted { reason } if tool != Tool::Objcopy => Some(
            "cargo:warning=Cannot run "@ + command(tool) + " ("@ + reason@
                + "); linking liblbug as downloaded"@,
        ),
        _ => Some(
            "cargo:warning="@ + command(tool)
                + " failed while localizing liblbug symbols; linking it as downloaded"@,
        ),
    }
}

/// What a tool's end means: `None` to go on, and otherwise the warning to print before the
/// archive is used as it was downloaded. That `objcopy` is missing counts as its failure.
pub fn tool_warning(tool: Tool, run: ScriptRun) -> (res: Option<String>)
    ensures
        text_of(res) == tool_report(tool, run),
        match run {
            ScriptRun::Exited { success: true, status: _ } => res is None,
            ScriptRun::NotStarted { reason } if tool != Tool::Objcopy => res matches Some(line)
                && line@ == "cargo:warning=Cannot run "@ + command(tool) + " ("@ + reason@
                + "); linking liblbug as downloaded"@,
            _ => res matches Some(line) && line@ == "cargo:warning="@ + command(tool)
                + " failed while localizing liblbug symbols; linking it as downloaded"@,
        },
{
    match run {
        ScriptRun::Exited { success: true, status: _ } => None,
        ScriptRun::NotStarted { reason } if tool != Tool::Objcopy => {
            let mut line = joined("cargo:warning=Cannot run ", tool.command());
            line.append(" (");
            line.append(reason.as_str());
            line.append("); linking liblbug as downloaded");
            Some(line)
        },
        _ => {
            let mut line = joined("cargo:warning=", tool.command());
            line.append(" failed while localizing liblbug symbols; linking it as downloaded");
            Some(line)
        },
    }
}

/// A name is kept exactly if some line lists it as a symbol that stays visible.
pub proof fn law_visible_iff_listed(lines: Seq<Seq<char>>, name: Seq<char>)
    ensures
        visible_names(lines).contains(name) <==> exists|i: int, kind: Seq<char>|
            #![trigger symbol_of(lines[i]), stays_visible(name, kind)]
            0 <= i < lines.len() && symbol_of(lines[i]) == Some((name, kind)) && stays_visible(
                name,
                kind,
            ),
    decreases lines.len(),
{
    if lines.len() > 0 {
        let tail = lines.drop_first();
        law_visible_iff_listed(tail, name);
        let rest = visible_names(tail);
        assert(forall|i: int| 0 <= i < tail.len() ==> tail[i] == lines[i + 1]);
        if visible_names(lines).contains(name) {
            let k = choose|k: int|
                0 <= k < visible_names(lines).len() && visible_names(lines)[k] == name;
            if rest.contains(name) {
                let (i, kind) = choose|i: int, kind: Seq<char>|
                    #![trigger symbol_of(tail[i]), stays_visible(name, kind)]
                    0 <= i < tail.len() && symbol_of(tail[i]) == Some((name, kind))
                        && stays_visible(name, kind);
                assert(symbol_of(lines[i + 1]) == Some((name, kind)));
            } else {
                if visible_names(lines).len() == rest.len() {
                    assert(rest[k] == name);
                } else if k > 0 {
                    assert(rest[k - 1] == name);
                }
                let (_, kind) = symbol_of(lines[0])->0;
                assert(symbol_of(lines[0]) == Some((name, kind)) && stays_visible(name, kind));
            }
        }
        if exists|i: int, kind: Seq<char>|
            #![trigger symbol_of(lines[i]), stays_visible(name, kind)]
            0 <= i < lines.len() && symbol_of(lines[i]) == Some((name, kind)) && stays_visible(
                name,
                kind,
            ) {
            let (i, kind) = choose|i: int, kind: Seq<char>|
                #![trigger symbol_of(lines[i]), stays_visible(name, kind)]
                0 <= i < lines.len() && symbol_of(lines[i]) == Some((name, kind))
                    && stays_visible(name, kind);
            if i == 0 {
                assert(visible_names(lines)[0] == name);
            } else {
                assert(symbol_of(tail[i - 1]) == Some((name, kind)));
                let k = choose|k: int| 0 <= k < rest.len() && rest[k] == name;
                if visible_names(lines).len() == rest.len() {
                    assert(visible_names(lines)[k] == name);
                } else {
                    assert(visible_names(lines)[k + 1] == name);
                }
            }
        }
    }
}

/// Mangled names, the C interface and weak symbols stay visible.
pub proof fn law_interface_stays_visible(
    lines: Seq<Seq<char>>,
    i: int,
    name: Seq<char>,
    kind: Seq<char>,
)
    requires
        0 <= i < lines.len(),
        symbol_of(lines[i]) == Some((name, kind)),
        "_Z"@.is_prefix_of(name) || "lbug_"@.is_prefix_of(name) || !is_strong(kind),
    ensures
        visible_names(lines).contains(name),
{
    law_visible_iff_listed(lines, name);
    assert(stays_visible(name, kind));
}

/// A name that is neither mangled nor part of the C interface is hidden where every line lists
/// it as a strong symbol.
pub proof fn law_bundled_names_hidden(lines: Seq<Seq<char>>, name: Seq<char>)
    requires
        !"_Z"@.is_prefix_of(name),
        !"lbug_"@.is_prefix_of(name),
        forall|i: int, kind: Seq<char>|
            #![trigger symbol_of(lines[i]), is_strong(kind)]
            0 <= i < lines.len() && symbol_of(lines[i]) == Some((name, kind)) ==> is_strong(kind),
    ensures
        !visible_names(lines).contains(name),
{
    law_visible_iff_listed(lines, name);
}

/// A search that meets `c` at `at` and nowhere before stops there.
proof fn lemma_find_at(text: Seq<char>, c: char, from: int, at: int)
    requires
        0 <= from <= at <= text.len(),
        at < text.len() ==> text[at] == c,
        forall|k: int| from <= k < at ==> text[k] != c,
    ensures
        find(text, c, from) == at,
    decreases at - from,
{
    if from < at {
        lemma_find_at(text, c, from + 1, at);
    }
}

/// The lines from a position on are the lines of the text that begins there.
proof fn lemma_lines_shift(text: Seq<char>, begin: int, from: int)
    requires
        0 <= begin <= from <= text.len(),
    ensures
        lines_from(text, from) == lines_from(text.skip(begin), from - begin),
    decreases text.len() - from,
{
    let tail = text.skip(begin);
    if from < text.len() {
        lemma_find(text, '\n', from);
        let end = find(text, '\n', from);
        assert forall|k: int| from - begin <= k < end - begin implies tail[k] != '\n' by {
            assert(tail[k] == text[k + begin]);
        }
        lemma_find_at(tail, '\n', from - begin, end - begin);
        assert(line_at(text, from, end) == line_at(tail, from - begin, end - begin));
        if end < text.len() {
            lemma_lines_shift(text, begin, end + 1);
        }
    }
}

/// A text's first line ends at its first line feed, without a carriage return before that, and the
/// other lines are those of what stands behind it.
pub proof fn law_line_feed_ends_a_line(line: Seq<char>, rest: Seq<char>)
    requires
        !line.contains('\n'),
    ensures
        lines_from(line + seq!['\n'] + rest, 0) == seq![
            if line.len() > 0 && line.last() == '\r' {
                line.drop_last()
            } else {
                line
            },
        ] + lines_from(rest, 0),
{
    let text = line + seq!['\n'] + rest;
    let n = line.len() as int;
    assert forall|k: int| 0 <= k < n implies text[k] != '\n' by {
        assert(text[k] == line[k]);
        assert(line.contains(line[k]));
    }
    assert(text[n] == '\n');
    lemma_find_at(text, '\n', 0, n);
    assert(text.subrange(0, n) == line);
    if n > 0 {
        assert(text[n - 1] == line.last());
        assert(text.subrange(0, n - 1) == line.drop_last());
    }
    lemma_lines_shift(text, n + 1, n + 1);
    assert(text.skip(n + 1) == rest);
}

/// What stands behind the last line feed is a line of its own, as it is, unless nothing does.
pub proof fn law_last_line(line: Seq<char>)
    requires
        !line.contains('\n'),
    ensures
        lines_from(line, 0) == if line.len() == 0 {
            Seq::empty()
        } else {
            seq![line]
        },
{
    assert forall|k: int| 0 <= k < line.len() implies line[k] != '\n' by {
        assert(line.contains(line[k]));
    }
    lemma_find_at(line, '\n', 0, line.len() as int);
    assert(line.subrange(0, line.len() as int) == line);
}

/// A line gives its first two fields, whatever their length and whatever stands behind them. A
/// line of a single field gives nothing.
pub proof fn law_line_gives_its_fields(name: Seq<char>, kind: Seq<char>, rest: Seq<char>)
    requires
        !name.contains(' '),
        !kind.contains(' '),
    ensures
        symbol_of(name + seq![' '] + kind) == Some((name, kind)),
        symbol_of(name + seq![' '] + kind + seq![' '] + rest) == Some((name, kind)),
        symbol_of(name) is None,
{
    let short = name + seq![' '] + kind;
    let long = short + seq![' '] + rest;
    let n = name.len() as int;
    let m = n + 1 + kind.len();
    assert forall|k: int| 0 <= k < n implies name[k] != ' ' && short[k] != ' ' && long[k]
        != ' ' by {
        assert(name.contains(name[k]));
        assert(short[k] == name[k]);
        assert(long[k] == name[k]);
    }
    assert forall|k: int| n + 1 <= k < m implies short[k] != ' ' && long[k] != ' ' by {
        assert(kind.contains(kind[k - n - 1]));
        assert(short[k] == kind[k - n - 1]);
        assert(long[k] == kind[k - n - 1]);
    }
    assert(short[n] == ' ' && long[n] == ' ' && long[m] == ' ');
    lemma_find_at(name, ' ', 0, n);
    lemma_find_at(short, ' ', 0, n);
    lemma_find_at(short, ' ', n + 1, m);
    lemma_find_at(long, ' ', 0, n);
    lemma_find_at(long, ' ', n + 1, m);
    assert(short.subrange(0, n) == name);
    assert(long.subrange(0, n) == name);
    assert(short.subrange(n + 1, m) == kind);
    assert(long.subrange(n + 1, m) == kind);
}

/// A symbol is hidden exactly if its kind is one of the four strong ones and its name begins
/// neither as a mangled name nor as one of the C interface.
pub proof fn law_hidden_exactly_if_bundled(name: Seq<char>, kind: Seq<char>)
    ensures
        stays_visible(name, kind) <==> {
            ||| kind != seq!['T'] && kind != seq!['D'] && kind != seq!['B'] && kind != seq!['R']
            ||| name.len() >= 2 && name.take(2) == seq!['_', 'Z']
            ||| name.len() >= 5 && name.take(5) == seq!['l', 'b', 'u', 'g', '_']
        },
        is_strong(kind) <==> kind == seq!['T'] || kind == seq!['D'] || kind == seq!['B'] || kind
            == seq!['R'],
{
    reveal_strlit("T");
    reveal_strlit("D");
    reveal_strlit("B");
    reveal_strlit("R");
    reveal_strlit("_Z");
    reveal_strlit("lbug_");
    assert("T"@ == seq!['T'] && "D"@ == seq!['D'] && "B"@ == seq!['B'] && "R"@ == seq!['R']);
    assert("_Z"@ == seq!['_', 'Z']);
    assert("lbug_"@ == seq!['l', 'b', 'u', 'g', '_']);
}

/// Each line is judged by itself: the names of two listings, one behind the other, are the names
/// of the first and behind them those of the second.
pub proof fn law_lines_judged_one_by_one(first: Seq<Seq<char>>, second: Seq<Seq<char>>)
    ensures
        visible_names(first + second) == visible_names(first) + visible_names(second),
    decreases first.len(),
{
    if first.len() == 0 {
        assert(first + second == second);
        assert(visible_names(first) + visible_names(second) == visible_names(second));
    } else {
        law_lines_judged_one_by_one(first.drop_first(), second);
        assert((first + second).drop_first() == first.drop_first() + second);
        assert((first + second)[0] == first[0]);
        let rest = visible_names(first.drop_first());
        match symbol_of(first[0]) {
            Some((name, kind)) if stays_visible(name, kind) => {
                assert(seq![name] + (rest + visible_names(second)) == (seq![name] + rest)
                    + visible_names(second));
            },
            _ => {},
        }
    }
}

/// The first name stands alone on the first line, and the others on those behind it.
proof fn lemma_first_name(names: Seq<Seq<char>>)
    requires
        names.len() > 1,
    ensures
        one_per_line(names) == names[0] + seq!['\n'] + one_per_line(names.drop_first()),
    decreases names.len(),
{
    let tail = names.drop_first();
    if names.len() == 2 {
        assert(names.drop_last()[0] == names[0]);
        assert(one_per_line(names.drop_last()) == names[0]);
        assert(one_per_line(tail) == names.last());
        assert(names[0].push('\n') + names.last() == names[0] + seq!['\n'] + names.last());
    } else {
        lemma_first_name(names.drop_last());
        assert(names.drop_last().drop_first() == tail.drop_last());
        assert(names.drop_last()[0] == names[0]);
        assert(tail.last() == names.last());
        let middle = one_per_line(tail.drop_last());
        assert((names[0] + seq!['\n'] + middle).push('\n') + names.last() == names[0]
            + seq!['\n'] + (middle.push('\n') + names.last()));
    }
}

/// Names that are written one to a line read back as the lines.
pub proof fn law_names_read_back(names: Seq<Seq<char>>)
    requires
        forall|i: int|
            0 <= i < names.len() ==> (#[trigger] names[i]).len() > 0 && !names[i].contains('\n')
                && names[i].last() != '\r',
    ensures
        lines_from(one_per_line(names), 0) == names,
    decreases names.len(),
{
    if names.len() == 1 {
        law_last_line(names[0]);
        assert(seq![names[0]] == names);
    } else if names.len() > 1 {
        let tail = names.drop_first();
        assert forall|i: int| 0 <= i < tail.len() implies (#[trigger] tail[i]).len() > 0
            && !tail[i].contains('\n') && tail[i].last() != '\r' by {
            assert(tail[i] == names[i + 1]);
        }
        law_names_read_back(tail);
        lemma_first_name(names);
        assert(names[0].len() > 0);
        law_line_feed_ends_a_line(names[0], one_per_line(tail));
        assert(seq![names[0]] + tail == names);
    }
}

/// An entry of a symbol listing: a name, a kind, and perhaps more behind them.
pub struct Entry {
    pub name: Seq<char>,
    pub kind: Seq<char>,
    pub more: Option<Seq<char>>,
}

impl Entry {
    /// The entry as a line, its fields set apart by single spaces.
    pub open spec fn line(self) -> Seq<char> {
        match self.more {
            Some(more) => self.name + seq![' '] + self.kind + seq![' '] + more,
            None => self.name + seq![' '] + self.kind,
        }
    }

    /// The fields hold no separator, and the line no line end.
    pub open spec fn plain(self) -> bool {
        &&& !self.name.contains(' ')
        &&& !self.kind.contains(' ')
        &&& !self.line().contains('\n')
        &&& self.line().last() != '\r'
    }

    /// The entry's name begins as a mangled one or one of the C interface.
    pub open spec fn interface(self) -> bool {
        ||| self.name.len() >= 2 && self.name.take(2) == seq!['_', 'Z']
        ||| self.name.len() >= 5 && self.name.take(5) == seq!['l', 'b', 'u', 'g', '_']
    }

    /// The entry's kind is one of a strong symbol.
    pub open spec fn strong(self) -> bool {
        self.kind == seq!['T'] || self.kind == seq!['D'] || self.kind == seq!['B'] || self.kind
            == seq!['R']
    }
}

/// The listing of several entries: their lines, joined by line feeds.
pub open spec fn listing_of(entries: Seq<Entry>) -> Seq<char>
    decreases entries.len(),
{
    if entries.len() == 0 {
        Seq::empty()
    } else if entries.len() == 1 {
        entries[0].line()
    } else {
        entries[0].line() + seq!['\n'] + listing_of(entries.drop_first())
    }
}

/// A listing's lines are its entries', whether or not a line feed stands behind the last.
proof fn lemma_listing_lines(entries: Seq<Entry>)
    requires
        forall|i: int| 0 <= i < entries.len() ==> (#[trigger] entries[i]).plain(),
    ensures
        lines_from(listing_of(entries), 0) == entries.map_values(|e: Entry| e.line()),
        entries.len() > 0 ==> lines_from(listing_of(entries) + seq!['\n'], 0)
            == entries.map_values(|e: Entry| e.line()),
    decreases entries.len(),
{
    let lines = entries.map_values(|e: Entry| e.line());
    if entries.len() == 1 {
        let line = entries[0].line();
        assert(entries[0].plain());
        law_last_line(line);
        law_line_feed_ends_a_line(line, Seq::empty());
        assert(line + seq!['\n'] + Seq::<char>::empty() == line + seq!['\n']);
        assert(lines_from(Seq::<char>::empty(), 0) == Seq::<Seq<char>>::empty());
        assert(seq![line] + Seq::<Seq<char>>::empty() == seq![line]);
        assert(lines == seq![line]);
    } else if entries.len() > 1 {
        let line = entries[0].line();
        let tail = entries.drop_first();
        assert forall|i: int| 0 <= i < tail.len() implies (#[trigger] tail[i]).plain() by {
            assert(tail[i] == entries[i + 1]);
        }
        assert(entries[0].plain());
        lemma_listing_lines(tail);
        law_line_feed_ends_a_line(line, listing_of(tail));
        law_line_feed_ends_a_line(line, listing_of(tail) + seq!['\n']);
        assert(line + seq!['\n'] + listing_of(tail) + seq!['\n'] == line + seq!['\n'] + (
        listing_of(tail) + seq!['\n']));
        assert(lines == seq![line] + tail.map_values(|e: Entry| e.line()));
    }
}

/// The names that a listing of entries keeps are those of the entries that are weak or part of the
/// interface, in their order, each as often as it is listed.
pub proof fn law_listing_keeps_its_interface(entries: Seq<Entry>)
    requires
        forall|i: int| 0 <= i < entries.len() ==> (#[trigger] entries[i]).plain(),
    ensures
        visible_names(lines_from(listing_of(entries), 0)) == entries.filter(
            |e: Entry| !e.strong() || e.interface(),
        ).map_values(|e: Entry| e.name),
        entries.len() > 0 ==> lines_from(listing_of(entries) + seq!['\n'], 0) == lines_from(
            listing_of(entries),
            0,
        ),
    decreases entries.len(),
{
    let kept = |e: Entry| !e.strong() || e.interface();
    lemma_listing_lines(entries);
    let lines = entries.map_values(|e: Entry| e.line());
    reveal(Seq::filter);
    if entries.len() > 0 {
        let earlier = entries.drop_last();
        let last = entries.last();
        assert forall|i: int| 0 <= i < earlier.len() implies (#[trigger] earlier[i]).plain() by {
            assert(earlier[i] == entries[i]);
        }
        law_listing_keeps_its_interface(earlier);
        lemma_listing_lines(earlier);
        let before = earlier.map_values(|e: Entry| e.line());
        assert(lines == before + seq![last.line()]);
        law_lines_judged_one_by_one(before, seq![last.line()]);
        assert(entries[entries.len() - 1].plain());
        law_line_gives_its_fields(last.name, last.kind, last.more->0);
        law_hidden_exactly_if_bundled(last.name, last.kind);
        assert(symbol_of(last.line()) == Some((last.name, last.kind)));
        let one = seq![last.line()];
        assert(one.drop_first() == Seq::<Seq<char>>::empty());
        assert(one[0] == last.line());
        assert(visible_names(one.drop_first()) == Seq::<Seq<char>>::empty());
        let names = earlier.filter(kept).map_values(|e: Entry| e.name);
        if kept(last) {
            assert(visible_names(one) == seq![last.name]);
            assert(entries.filter(kept) == earlier.filter(kept).push(last));
            assert(entries.filter(kept).map_values(|e: Entry| e.name) == names + seq![last.name]);
        } else {
            assert(visible_names(one) == Seq::<Seq<char>>::empty());
            assert(entries.filter(kept) == earlier.filter(kept));
            assert(names + Seq::<Seq<char>>::empty() == names);
        }
    } else {
        assert(lines == Seq::<Seq<char>>::empty());
        assert(entries.filter(kept).map_values(|e: Entry| e.name) == Seq::<Seq<char>>::empty());
    }
}

/// Every mangled name and every name of the C interface that a listing has is among the lines of
/// the result, however long the line is that lists it.
pub proof fn law_interface_among_the_lines(entries: Seq<Entry>, i: int)
    requires
        forall|j: int|
            0 <= j < entries.len() ==> (#[trigger] entries[j]).plain() && entries[j].name.len() > 0
                && entries[j].name.last() != '\r',
        0 <= i < entries.len(),
        entries[i].interface(),
    ensures
        lines_from(
            one_per_line(visible_names(lines_from(listing_of(entries), 0))),
            0,
        ).contains(entries[i].name),
{
    lemma_listing_names(entries);
    let kept = |e: Entry| !e.strong() || e.interface();
    assert(kept(entries[i]));
    entries.lemma_filter_contains(kept, i);
    let chosen = entries.filter(kept);
    let k = choose|k: int| 0 <= k < chosen.len() && chosen[k] == entries[i];
    assert(chosen.map_values(|e: Entry| e.name)[k] == entries[i].name);
}

/// A strong symbol outside the interface is on no line of the result, unless another line lists its
/// name as a weak one.
pub proof fn law_bundled_on_no_line(entries: Seq<Entry>, name: Seq<char>)
    requires
        forall|j: int|
            0 <= j < entries.len() ==> (#[trigger] entries[j]).plain() && entries[j].name.len() > 0
                && entries[j].name.last() != '\r',
        forall|j: int|
            0 <= j < entries.len() && (#[trigger] entries[j]).name == name ==> entries[j].strong()
                && !entries[j].interface(),
    ensures
        !lines_from(
            one_per_line(visible_names(lines_from(listing_of(entries), 0))),
            0,
        ).contains(name),
{
    lemma_listing_names(entries);
    let kept = |e: Entry| !e.strong() || e.interface();
    let chosen = entries.filter(kept);
    let names = chosen.map_values(|e: Entry| e.name);
    if names.contains(name) {
        let k = choose|k: int| 0 <= k < names.len() && names[k] == name;
        lemma_filter_member(entries, kept, k);
    }
}

/// What a filter keeps meets it, and was there before.
proof fn lemma_filter_member(entries: Seq<Entry>, kept: spec_fn(Entry) -> bool, k: int)
    requires
        0 <= k < entries.filter(kept).len(),
    ensures
        kept(entries.filter(kept)[k]),
        exists|j: int| 0 <= j < entries.len() && entries[j] == entries.filter(kept)[k],
    decreases entries.len(),
{
    reveal(Seq::filter);
    if entries.len() > 0 {
        let earlier = entries.drop_last();
        if k < earlier.filter(kept).len() {
            lemma_filter_member(earlier, kept, k);
            let j = choose|j: int|
                0 <= j < earlier.len() && earlier[j] == earlier.filter(kept)[k];
            assert(entries[j] == entries.filter(kept)[k]);
        } else {
            assert(entries[entries.len() - 1] == entries.filter(kept)[k]);
        }
    }
}

/// The lines of the result are the names that the listing keeps.
proof fn lemma_listing_names(entries: Seq<Entry>)
    requires
        forall|j: int|
            0 <= j < entries.len() ==> (#[trigger] entries[j]).plain() && entries[j].name.len() > 0
                && entries[j].name.last() != '\r',
    ensures
        lines_from(one_per_line(visible_names(lines_from(listing_of(entries), 0))), 0)
            == entries.filter(|e: Entry| !e.strong() || e.interface()).map_values(
            |e: Entry| e.name,
        ),
{
    law_listing_keeps_its_interface(entries);
    let kept = |e: Entry| !e.strong() || e.interface();
    let chosen = entries.filter(kept);
    let names = chosen.map_values(|e: Entry| e.name);
    assert forall|i: int| 0 <= i < names.len() implies (#[trigger] names[i]).len() > 0
        && !names[i].contains('\n') && names[i].last() != '\r' by {
        lemma_filter_member(entries, kept, i);
        let j = choose|j: int| 0 <= j < entries.len() && entries[j] == chosen[i];
        let e = entries[j];
        assert(e.plain());
        assert(names[i] == e.name);
        if e.name.contains('\n') {
            let c = choose|c: int| 0 <= c < e.name.len() && e.name[c] == '\n';
            assert(e.line()[c] == '\n');
            assert(e.line().contains('\n'));
        }
    }
    law_names_read_back(names);
}

/// Hiding is asked for by every value but the empty one and a single zero.
pub proof fn law_request_by_any_other_value(value: &str)
    ensures
        !localizing_requested(None),
        localizing_requested(Some(value)) <==> value@.len() > 0 && value@ != seq!['0'],
{
    reveal_strlit("0");
    assert("0"@ == seq!['0']);
}

/// Each tool is run by its own name.
pub proof fn law_commands()
    ensures
        command(Tool::Ld) == seq!['l', 'd'],
        command(Tool::Nm) == seq!['n', 'm'],
        command(Tool::Objcopy) == seq!['o', 'b', 'j', 'c', 'o', 'p', 'y'],
        command(Tool::Ar) == seq!['a', 'r'],
{
    reveal_strlit("ld");
    reveal_strlit("nm");
    reveal_strlit("objcopy");
    reveal_strlit("ar");
    assert("ld"@ == seq!['l', 'd']);
    assert("nm"@ == seq!['n', 'm']);
    assert("objcopy"@ == seq!['o', 'b', 'j', 'c', 'o', 'p', 'y']);
    assert("ar"@ == seq!['a', 'r']);
}

/// A tool's end is passed over in silence exactly if the tool succeeded. A tool that could not be
/// started is told apart by its reason, except `objcopy`, and any other failure is told by the
/// tool's name alone.
pub proof fn law_tool_failure_told(tool: Tool, success: bool, status: String, reason: String)
    ensures
        tool_report(tool, ScriptRun::Exited { success, status }) is None <==> success,
        !success ==> tool_report(tool, ScriptRun::Exited { success, status }) == Some(
            "cargo:warning="@ + command(tool)
                + " failed while localizing liblbug symbols; linking it as downloaded"@,
        ),
        tool == Tool::Objcopy ==> tool_report(tool, ScriptRun::NotStarted { reason }) == Some(
            "cargo:warning="@ + command(tool)
                + " failed while localizing liblbug symbols; linking it as downloaded"@,
        ),
        tool != Tool::Objcopy ==> tool_report(tool, ScriptRun::NotStarted { reason }) == Some(
            "cargo:warning=Cannot run "@ + command(tool) + " ("@ + reason@
                + "); linking liblbug as downloaded"@,
        ),
{
}

/// The archive is left as it is unless hiding is asked for, the build is for Linux and the engine
/// is linked statically: each of the three is needed, and together they are enough.
pub proof fn law_localized_on_all_three(value: &str, linux: bool, mode: LinkMode)
    ensures
        !localizes(None, linux, mode),
        localizes(Some(value), linux, mode) <==> {
            &&& value@.len() > 0
            &&& value@ != seq!['0']
            &&& linux
            &&& mode == LinkMode::Static
        },
{
    law_request_by_any_other_value(value);
}

} // verus!
