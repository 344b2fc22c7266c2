//! Script text and its parsed form.
//!
//! A script is a sequence of lines. Blank lines are skipped, `*name`
//! defines a label at the next instruction, a line holding `[` yields its
//! bracketed tags and, in their places among them, the runs of story text
//! outside the brackets, a `[lua]` tag swallows the following lines up to
//! `[/lua]` as one Lua block, and any other line is story text.
use crate::error::Error;
use crate::strmap::{StrMap, entries_insert, lookup, has_key, distinct_keys};
use crate::text::{string_of, is_ws, trim, decimal, is_whitespace, trim_range, string_from, to_owned_string, usize_text, chars_of, push_char};
use vstd::prelude::*;

verus! {

// ---------------------------------------------------------------------
// Data
// ---------------------------------------------------------------------

/// One instruction: a tag name, its parameters and its source line.
#[derive(Debug, Clone)]
pub struct Instruction {
    /// Tag name.
    pub tag: String,
    /// Parameters, in the order they were written.
    pub params: StrMap<String>,
    /// 1-based source line.
    pub line: usize,
}

/// The mathematical content of an [`Instruction`].
pub struct InstructionView {
    pub tag: Seq<char>,
    pub params: Seq<(Seq<char>, Seq<char>)>,
    pub line: usize,
}

impl View for Instruction {
    type V = InstructionView;

    open spec fn view(&self) -> InstructionView {
        InstructionView { tag: self.tag@, params: self.params@, line: self.line }
    }
}

/// A parsed script: its name, label table and instruction sequence.
#[derive(Debug, Clone)]
pub struct Script {
    /// Script name.
    pub name: String,
    /// Label name to the index of the instruction that follows it.
    pub labels: StrMap<usize>,
    /// The instructions, in order.
    pub instructions: Vec<Instruction>,
}

/// The views of a sequence of instructions.
pub open spec fn instruction_views(v: Seq<Instruction>) -> Seq<InstructionView> {
    Seq::new(v.len(), |i: int| v[i]@)
}

// ---------------------------------------------------------------------
// Specification of parsing
// ---------------------------------------------------------------------

/// The character classes at which [`scan`] stops.
#[derive(Clone, Copy)]
pub enum Stop {
    /// Any character that is not whitespace.
    NonWs,
    /// Whitespace.
    Ws,
    /// `=` or whitespace.
    EqOrWs,
    /// A double quote.
    Quote,
    /// A line feed.
    Newline,
}

/// Whether `scan` with `m` stops at `c`.
pub open spec fn stops_at(m: Stop, c: char) -> bool {
    match m {
        Stop::NonWs => !is_ws(c),
        Stop::Ws => is_ws(c),
        Stop::EqOrWs => c == '=' || is_ws(c),
        Stop::Quote => c == '"',
        Stop::Newline => c == '\n',
    }
}

/// First index `j >= i` whose character is a stop for `m`, or `s.len()`.
pub open spec fn scan(s: Seq<char>, i: int, m: Stop) -> int
    decreases s.len() - i,
{
    if 0 <= i < s.len() && !stops_at(m, s[i]) {
        scan(s, i + 1, m)
    } else {
        i
    }
}

/// Bounds of [`scan`] and what it passes over.
pub proof fn lemma_scan(s: Seq<char>, i: int, m: Stop)
    requires
        0 <= i <= s.len(),
    ensures
        i <= scan(s, i, m) <= s.len(),
        forall|j: int| i <= j < scan(s, i, m) ==> !stops_at(m, #[trigger] s[j]),
        scan(s, i, m) < s.len() ==> stops_at(m, s[scan(s, i, m)]),
    decreases s.len() - i,
{
    if i < s.len() && !stops_at(m, s[i]) {
        lemma_scan(s, i + 1, m);
    }
}

/// A scan from `i` that passes over `i..j` and stops at `j` ends at `j`.
pub proof fn lemma_scan_at(s: Seq<char>, i: int, j: int, m: Stop)
    requires
        0 <= i <= j <= s.len(),
        forall|k: int| i <= k < j ==> !stops_at(m, #[trigger] s[k]),
        j < s.len() ==> stops_at(m, s[j]),
    ensures
        scan(s, i, m) == j,
    decreases j - i,
{
    if i < j {
        lemma_scan_at(s, i + 1, j, m);
    }
}

/// Index after the whitespace that starts at `i`.
pub open spec fn skip_ws(s: Seq<char>, i: int) -> int {
    scan(s, i, Stop::NonWs)
}

/// `s` without a final `'\r'`.
pub open spec fn strip_cr(l: Seq<char>) -> Seq<char> {
    if l.len() > 0 && l.last() == '\r' {
        l.drop_last()
    } else {
        l
    }
}

/// `str::lines` from index `i`: pieces ended by `'\n'` (a `'\r'` just
/// before it is dropped); a last piece without `'\n'` is kept as is.
pub open spec fn lines_from(s: Seq<char>, i: int) -> Seq<Seq<char>>
    decreases s.len() - i,
{
    if i < 0 || i >= s.len() {
        seq![]
    } else {
        let j = scan(s, i, Stop::Newline);
        proof {
            lemma_scan(s, i, Stop::Newline);
        }
        if j < s.len() {
            seq![strip_cr(s.subrange(i, j))] + lines_from(s, j + 1)
        } else {
            seq![s.subrange(i, s.len() as int)]
        }
    }
}

/// The lines of a script text (`str::lines`).
pub open spec fn script_lines(s: Seq<char>) -> Seq<Seq<char>> {
    lines_from(s, 0)
}

/// The pieces so far with a run of story text added: trimmed, and not at
/// all when it is blank.
pub open spec fn flush_text(out: Seq<Seq<char>>, run: Seq<char>) -> Seq<Seq<char>> {
    if trim(run).len() > 0 {
        out.push(trim(run))
    } else {
        out
    }
}

/// The pieces of a line, scanning from `i` with the current state: `cur` is
/// the open tag when `in_tag`, else the run of text since the last tag. A
/// `[` outside a tag ends the run and opens a tag (inside a tag it is kept
/// as an ordinary character), a `]` closes the open tag, and at the end of
/// the line the last run is added and a tag left open is dropped.
pub open spec fn extract_from(
    s: Seq<char>,
    i: int,
    in_tag: bool,
    cur: Seq<char>,
    out: Seq<Seq<char>>,
) -> Seq<Seq<char>>
    decreases s.len() - i,
{
    if i < 0 || i >= s.len() {
        if in_tag {
            out
        } else {
            flush_text(out, cur)
        }
    } else if s[i] == '[' {
        if in_tag {
            extract_from(s, i + 1, true, cur.push('['), out)
        } else {
            extract_from(s, i + 1, true, seq!['['], flush_text(out, cur))
        }
    } else if s[i] == ']' && in_tag {
        extract_from(s, i + 1, false, seq![], out.push(cur.push(']')))
    } else {
        extract_from(s, i + 1, in_tag, cur.push(s[i]), out)
    }
}

/// The pieces of a line that holds tags, in order: each tag with its
/// brackets, and each run of text outside the brackets, trimmed (blank runs
/// give nothing).
pub open spec fn extract_tags(s: Seq<char>) -> Seq<Seq<char>> {
    extract_from(s, 0, false, seq![], seq![])
}

/// Parameters of a tag read from index `i` onward, `index` counting the
/// parameters read so far. Each parameter is `key=value`, `key="value"` or a
/// bare word; a bare word is stored under its position number.
pub open spec fn params_from(
    s: Seq<char>,
    i: int,
    acc: Seq<(Seq<char>, Seq<char>)>,
    index: nat,
) -> Result<Seq<(Seq<char>, Seq<char>)>, Seq<char>>
    decreases s.len() - i,
{
    if i < 0 || i > s.len() {
        Ok(acc)
    } else {
        let a = skip_ws(s, i);
        proof {
            lemma_scan(s, i, Stop::NonWs);
        }
        if a >= s.len() {
            Ok(acc)
        } else {
            let k = scan(s, a, Stop::EqOrWs);
            proof {
                lemma_scan(s, a, Stop::EqOrWs);
            }
            if k == a {
                Ok(acc)
            } else {
                let key = s.subrange(a, k);
                let b = skip_ws(s, k);
                proof {
                    lemma_scan(s, k, Stop::NonWs);
                }
                if b >= s.len() || s[b] != '=' {
                    params_from(s, b, entries_insert(acc, decimal(index), key), index + 1)
                } else {
                    let c = skip_ws(s, b + 1);
                    proof {
                        lemma_scan(s, b + 1, Stop::NonWs);
                    }
                    if c < s.len() && s[c] == '"' {
                        let q = scan(s, c + 1, Stop::Quote);
                        proof {
                            lemma_scan(s, c + 1, Stop::Quote);
                        }
                        if q >= s.len() {
                            Err("未闭合的引号"@)
                        } else {
                            params_from(
                                s,
                                q + 1,
                                entries_insert(acc, key, s.subrange(c + 1, q)),
                                index + 1,
                            )
                        }
                    } else {
                        let e = scan(s, c, Stop::Ws);
                        proof {
                            lemma_scan(s, c, Stop::Ws);
                        }
                        params_from(s, e, entries_insert(acc, key, s.subrange(c, e)), index + 1)
                    }
                }
            }
        }
    }
}

/// The parameters written in `s`.
pub open spec fn parse_params_spec(s: Seq<char>) -> Result<
    Seq<(Seq<char>, Seq<char>)>,
    Seq<char>,
> {
    params_from(s, 0, seq![], 0)
}

/// The instruction written inside one pair of brackets: a tag name up to
/// the first whitespace, then its parameters.
pub open spec fn parse_instruction_spec(content: Seq<char>, line: usize) -> Result<
    InstructionView,
    Seq<char>,
> {
    let c = trim(content);
    if c.len() == 0 {
        Err("空指令"@)
    } else {
        let j = scan(c, 0, Stop::Ws);
        let tag = trim(c.subrange(0, j));
        let rest = if j < c.len() {
            trim(c.subrange(j + 1, c.len() as int))
        } else {
            seq![]
        };
        match parse_params_spec(rest) {
            Ok(p) => Ok(InstructionView { tag, params: p, line }),
            Err(m) => Err(m),
        }
    }
}

/// First line index `e >= i` whose trimmed text is `[/lua]`, or the number
/// of lines.
pub open spec fn lua_end(lines: Seq<Seq<char>>, i: int) -> int
    decreases lines.len() - i,
{
    if 0 <= i < lines.len() && trim(lines[i]) != "[/lua]"@ {
        lua_end(lines, i + 1)
    } else {
        i
    }
}

/// Lines `a..b` joined by `'\n'`; a separator is only written once the code
/// collected so far is non-empty.
pub open spec fn join_code(lines: Seq<Seq<char>>, a: int, b: int) -> Seq<char>
    decreases b - a,
{
    if b <= a {
        seq![]
    } else {
        let prev = join_code(lines, a, b - 1);
        if prev.len() == 0 {
            lines[b - 1]
        } else {
            prev.push('\n') + lines[b - 1]
        }
    }
}

/// The story-text instruction for a line.
pub open spec fn text_instruction(text: Seq<char>, line: usize) -> InstructionView {
    InstructionView { tag: "__text"@, params: seq![("text"@, text)], line }
}

/// The Lua-block instruction for collected code.
pub open spec fn lua_instruction(code: Seq<char>, line: usize) -> InstructionView {
    InstructionView { tag: "__lua_block"@, params: seq![("code"@, code)], line }
}

/// Parsing from line index `idx`, with `pending` the tags of line `idx - 1`
/// that remain to be read. The error carries the 1-based line and message.
pub open spec fn parse_from(
    lines: Seq<Seq<char>>,
    idx: int,
    pending: Seq<Seq<char>>,
    labels: Seq<(Seq<char>, usize)>,
    instrs: Seq<InstructionView>,
) -> Result<(Seq<(Seq<char>, usize)>, Seq<InstructionView>), (usize, Seq<char>)>
    decreases lines.len() - idx, pending.len(),
{
    if idx < 0 || idx > lines.len() {
        Ok((labels, instrs))
    } else if pending.len() > 0 && !(pending[0].len() > 0 && pending[0][0] == '[') {
        parse_from(lines, idx, pending.drop_first(), labels, instrs.push(text_instruction(pending[0], idx as usize)))
    } else if pending.len() > 0 {
        let tag = pending[0];
        let inner = tag.subrange(1, tag.len() - 1);
        if trim(inner) == "lua"@ {
            let e = lua_end(lines, idx);
            proof {
                lemma_lua_end(lines, idx);
            }
            if e >= lines.len() {
                Err((idx as usize, "未找到 [/lua] 结束标记"@))
            } else {
                parse_from(
                    lines,
                    e + 1,
                    seq![],
                    labels,
                    instrs.push(lua_instruction(join_code(lines, idx, e), idx as usize)),
                )
            }
        } else {
            match parse_instruction_spec(inner, idx as usize) {
                Err(m) => Err((idx as usize, m)),
                Ok(ins) => parse_from(lines, idx, pending.drop_first(), labels, instrs.push(ins)),
            }
        }
    } else if idx == lines.len() {
        Ok((labels, instrs))
    } else {
        let line = trim(lines[idx]);
        if line.len() == 0 {
            parse_from(lines, idx + 1, seq![], labels, instrs)
        } else if line[0] == '*' {
            let name = trim(line.drop_first());
            let labels2 = if name.len() > 0 {
                entries_insert(labels, name, instrs.len() as usize)
            } else {
                labels
            };
            parse_from(lines, idx + 1, seq![], labels2, instrs)
        } else if line.contains('[') {
            parse_from(lines, idx + 1, extract_tags(line), labels, instrs)
        } else {
            parse_from(
                lines,
                idx + 1,
                seq![],
                labels,
                instrs.push(text_instruction(line, (idx + 1) as usize)),
            )
        }
    }
}

/// Bounds of [`lua_end`].
pub proof fn lemma_lua_end(lines: Seq<Seq<char>>, i: int)
    requires
        0 <= i <= lines.len(),
    ensures
        i <= lua_end(lines, i) <= lines.len(),
        lua_end(lines, i) < lines.len() ==> trim(lines[lua_end(lines, i)]) == "[/lua]"@,
        forall|j: int| i <= j < lua_end(lines, i) ==> trim(#[trigger] lines[j]) != "[/lua]"@,
    decreases lines.len() - i,
{
    if i < lines.len() && trim(lines[i]) != "[/lua]"@ {
        lemma_lua_end(lines, i + 1);
    }
}

/// The labels and instructions of a script text, or the failing line and
/// message.
pub open spec fn parse_script(content: Seq<char>) -> Result<
    (Seq<(Seq<char>, usize)>, Seq<InstructionView>),
    (usize, Seq<char>),
> {
    parse_from(script_lines(content), 0, seq![], seq![], seq![])
}

// ---------------------------------------------------------------------
// Parsing
// ---------------------------------------------------------------------

/// The contents of a sequence of character vectors.
pub open spec fn seqs_view(v: Seq<Vec<char>>) -> Seq<Seq<char>> {
    Seq::new(v.len(), |i: int| v[i]@)
}

fn stops(m: Stop, c: char) -> (r: bool)
    ensures
        r == stops_at(m, c),
{
    match m {
        Stop::NonWs => !is_whitespace(c),
        Stop::Ws => is_whitespace(c),
        Stop::EqOrWs => c == '=' || is_whitespace(c),
        Stop::Quote => c == '"',
        Stop::Newline => c == '\n',
    }
}

fn scan_exec(s: &[char], i: usize, m: Stop) -> (r: usize)
    requires
        i <= s@.len(),
    ensures
        r == scan(s@, i as int, m),
        i <= r <= s@.len(),
{
    let mut j = i;
    while j < s.len() && !stops(m, s[j])
        invariant
            i <= j <= s@.len(),
            forall|k: int| i <= k < j ==> !stops_at(m, #[trigger] s@[k]),
        decreases s.len() - j,
    {
        j += 1;
    }
    proof {
        lemma_scan_at(s@, i as int, j as int, m);
    }
    j
}

fn copy_range(v: &[char], lo: usize, hi: usize) -> (r: Vec<char>)
    requires
        lo <= hi <= v@.len(),
    ensures
        r@ == v@.subrange(lo as int, hi as int),
{
    let mut r: Vec<char> = Vec::new();
    let mut i = lo;
    while i < hi
        invariant
            lo <= i <= hi <= v@.len(),
            r@ == v@.subrange(lo as int, i as int),
        decreases hi - i,
    {
        r.push(v[i]);
        i += 1;
        assert(r@ =~= v@.subrange(lo as int, i as int));
    }
    r
}

/// The lines of a script text, as `str::lines` splits them.
fn split_lines(s: &[char]) -> (r: Vec<Vec<char>>)
    ensures
        seqs_view(r@) == script_lines(s@),
{
    let mut out: Vec<Vec<char>> = Vec::new();
    let mut start: usize = 0;
    let mut i: usize = 0;
    assert(seqs_view(out@) + lines_from(s@, 0) =~= lines_from(s@, 0));
    while i < s.len()
        invariant
            start <= i <= s@.len(),
            script_lines(s@) == seqs_view(out@) + lines_from(s@, start as int),
            forall|j: int| start <= j < i ==> !stops_at(Stop::Newline, #[trigger] s@[j]),
        decreases s.len() - i,
    {
        if s[i] == '\n' {
            proof {
                lemma_scan_at(s@, start as int, i as int, Stop::Newline);
            }
            let hi = if i > start && s[i - 1] == '\r' {
                i - 1
            } else {
                i
            };
            let piece = copy_range(s, start, hi);
            assert(piece@ == strip_cr(s@.subrange(start as int, i as int)));
            let ghost before = out@;
            out.push(piece);
            assert(seqs_view(out@) =~= seqs_view(before).push(piece@));
            assert(seqs_view(out@) + lines_from(s@, i + 1) =~= seqs_view(before) + lines_from(
                s@,
                start as int,
            ));
            start = i + 1;
        }
        i += 1;
    }
    if start < s.len() {
        proof {
            lemma_scan_at(s@, start as int, s@.len() as int, Stop::Newline);
        }
        let piece = copy_range(s, start, s.len());
        let ghost before = out@;
        out.push(piece);
        assert(seqs_view(out@) =~= seqs_view(before) + lines_from(s@, start as int));
    } else {
        assert(seqs_view(out@) =~= seqs_view(out@) + lines_from(s@, start as int));
    }
    out
}

/// Whether every piece is either a bracketed tag (`[`, then anything, then
/// `]`) or a non-empty text that does not start with `[`.
pub open spec fn pieces_ok(v: Seq<Seq<char>>) -> bool {
    forall|i: int|
        0 <= i < v.len() ==> {
            ||| (#[trigger] v[i]).len() >= 2 && v[i][0] == '[' && v[i].last() == ']'
            ||| v[i].len() > 0 && v[i][0] != '['
        }
}

/// Adds a run of story text to the pieces, trimmed, unless it is blank.
fn push_text_run(out: &mut Vec<Vec<char>>, run: &Vec<char>)
    requires
        !run@.contains('['),
        pieces_ok(seqs_view(old(out)@)),
    ensures
        seqs_view(final(out)@) == flush_text(seqs_view(old(out)@), run@),
        pieces_ok(seqs_view(final(out)@)),
{
    let (a, b) = trim_range(run.as_slice(), 0, run.len());
    assert(run@.subrange(0, run@.len() as int) =~= run@);
    if b > a {
        let piece = copy_range(run.as_slice(), a, b);
        assert(piece@[0] == run@[a as int]);
        let ghost before = seqs_view(out@);
        out.push(piece);
        assert(seqs_view(out@) =~= before.push(piece@));
    }
}

/// Splits a line that holds tags into its pieces: the tags (brackets
/// included) and the runs of story text between them.
fn extract_tags_from_line(s: &[char]) -> (r: Vec<Vec<char>>)
    ensures
        seqs_view(r@) == extract_tags(s@),
        pieces_ok(seqs_view(r@)),
{
    let mut out: Vec<Vec<char>> = Vec::new();
    let mut cur: Vec<char> = Vec::new();
    let mut in_tag = false;
    let mut i: usize = 0;
    assert(seqs_view(out@) =~= Seq::<Seq<char>>::empty());
    assert(cur@ =~= Seq::<char>::empty());
    while i < s.len()
        invariant
            i <= s@.len(),
            extract_tags(s@) == extract_from(s@, i as int, in_tag, cur@, seqs_view(out@)),
            in_tag ==> cur@.len() >= 1 && cur@[0] == '[',
            !in_tag ==> !cur@.contains('['),
            pieces_ok(seqs_view(out@)),
        decreases s.len() - i,
    {
        let c = s[i];
        if c == '[' {
            if in_tag {
                cur.push(c);
            } else {
                push_text_run(&mut out, &cur);
                in_tag = true;
                cur = Vec::new();
                cur.push(c);
                assert(cur@ =~= seq!['[']);
            }
        } else if c == ']' && in_tag {
            cur.push(c);
            let ghost before = out@;
            let done = cur;
            out.push(done);
            assert(seqs_view(out@) =~= seqs_view(before).push(done@));
            cur = Vec::new();
            assert(cur@ =~= Seq::<char>::empty());
            in_tag = false;
        } else {
            let ghost before = cur@;
            cur.push(c);
            assert(!in_tag ==> !cur@.contains('[')) by {
                if !in_tag {
                    assert forall|k: int| 0 <= k < cur@.len() implies cur@[k] != '[' by {
                        if k < before.len() {
                            assert(cur@[k] == before[k]);
                        }
                    }
                }
            }
        }
        i += 1;
    }
    if !in_tag {
        push_text_run(&mut out, &cur);
    }
    out
}

/// Reads the parameters of a tag; the error is the message to report.
fn parse_params(s: &[char]) -> (r: Result<StrMap<String>, String>)
    ensures
        match parse_params_spec(s@) {
            Ok(p) => r matches Ok(m) && m@ == p,
            Err(msg) => r matches Err(e) && e@ == msg,
        },
{
    let mut acc: StrMap<String> = StrMap::new();
    let mut i: usize = 0;
    let mut index: usize = 0;
    assert(acc@ =~= Seq::<(Seq<char>, Seq<char>)>::empty());
    while i < s.len()
        invariant
            i <= s@.len(),
            index <= i,
            parse_params_spec(s@) == params_from(s@, i as int, acc@, index as nat),
        decreases s.len() - i,
    {
        let a = scan_exec(s, i, Stop::NonWs);
        if a >= s.len() {
            return Ok(acc);
        }
        let k = scan_exec(s, a, Stop::EqOrWs);
        if k == a {
            return Ok(acc);
        }
        let key = string_from(s, a, k);
        let b = scan_exec(s, k, Stop::NonWs);
        if b >= s.len() || s[b] != '=' {
            let name = usize_text(index);
            acc.insert(name, key);
            index += 1;
            i = b;
        } else {
            let c = scan_exec(s, b + 1, Stop::NonWs);
            if c < s.len() && s[c] == '"' {
                let q = scan_exec(s, c + 1, Stop::Quote);
                if q >= s.len() {
                    return Err(to_owned_string("未闭合的引号"));
                }
                let value = string_from(s, c + 1, q);
                acc.insert(key, value);
                index += 1;
                i = q + 1;
            } else {
                let e = scan_exec(s, c, Stop::Ws);
                let value = string_from(s, c, e);
                acc.insert(key, value);
                index += 1;
                i = e;
            }
        }
    }
    Ok(acc)
}

/// Parses the text between a pair of brackets; the error is the message.
fn parse_instruction(content: &[char], line: usize) -> (r: Result<Instruction, String>)
    ensures
        match parse_instruction_spec(content@, line) {
            Ok(iv) => r matches Ok(ins) && ins@ == iv,
            Err(msg) => r matches Err(e) && e@ == msg,
        },
{
    let (a, b) = trim_range(content, 0, content.len());
    assert(content@.subrange(0, content@.len() as int) =~= content@);
    let c = copy_range(content, a, b);
    if c.len() == 0 {
        return Err(to_owned_string("空指令"));
    }
    let j = scan_exec(c.as_slice(), 0, Stop::Ws);
    let (ta, tb) = trim_range(c.as_slice(), 0, j);
    let tag = string_from(c.as_slice(), ta, tb);
    let rest = if j < c.len() {
        let (ra, rb) = trim_range(c.as_slice(), j + 1, c.len());
        copy_range(c.as_slice(), ra, rb)
    } else {
        Vec::new()
    };
    assert(rest@ == (if (j as int) < c@.len() {
        trim(c@.subrange(j + 1, c@.len() as int))
    } else {
        Seq::<char>::empty()
    }));
    match parse_params(rest.as_slice()) {
        Ok(params) => Ok(Instruction { tag, params, line }),
        Err(m) => Err(m),
    }
}

/// Whether `v[lo..hi]` spells out `word`.
fn chars_equal(v: &[char], lo: usize, hi: usize, word: &str) -> (r: bool)
    requires
        lo <= hi <= v@.len(),
    ensures
        r == (v@.subrange(lo as int, hi as int) == word@),
{
    let w = chars_of(word);
    if hi - lo != w.len() {
        return false;
    }
    let mut i: usize = 0;
    while i < w.len()
        invariant
            i <= w@.len(),
            hi - lo == w@.len(),
            w@ == word@,
            lo <= hi <= v@.len(),
            forall|k: int| 0 <= k < i ==> v@[lo + k] == w@[k],
        decreases w.len() - i,
    {
        if v[lo + i] != w[i] {
            assert(v@.subrange(lo as int, hi as int)[i as int] != w@[i as int]);
            return false;
        }
        i += 1;
    }
    assert(v@.subrange(lo as int, hi as int) =~= w@);
    true
}

fn contains_char(v: &[char], c: char) -> (r: bool)
    ensures
        r == v@.contains(c),
{
    let mut i: usize = 0;
    while i < v.len()
        invariant
            i <= v@.len(),
            forall|k: int| 0 <= k < i ==> v@[k] != c,
        decreases v.len() - i,
    {
        if v[i] == c {
            return true;
        }
        i += 1;
    }
    false
}

/// An instruction with one parameter.
fn single_param_instruction(tag: &str, key: &str, value: String, line: usize) -> (r: Instruction)
    ensures
        r@ == (InstructionView { tag: tag@, params: seq![(key@, value@)], line }),
{
    let mut params: StrMap<String> = StrMap::new();
    let ghost vv = value@;
    params.insert(to_owned_string(key), value);
    assert(params@ =~= seq![(key@, vv)]);
    Instruction { tag: to_owned_string(tag), params, line }
}

impl Instruction {
    /// The value of parameter `key`.
    pub fn get(&self, key: &str) -> (r: Option<&str>)
        ensures
            match lookup(self.params@, key@) {
                Some(v) => r matches Some(x) && x@ == v,
                None => r is None,
            },
    {
        match self.params.get(key) {
            Some(v) => Some(v.as_str()),
            None => None,
        }
    }

    /// The value of parameter `key`, or `default` when it is absent.
    pub fn get_or<'a>(&'a self, key: &str, default: &'a str) -> (r: &'a str)
        ensures
            r@ == match lookup(self.params@, key@) {
                Some(v) => v,
                None => default@,
            },
    {
        match self.params.get(key) {
            Some(v) => v.as_str(),
            None => default,
        }
    }

    /// The unnamed parameter: the one stored under `"0"`, otherwise the
    /// first parameter written, otherwise none.
    pub fn get_default(&self) -> (r: Option<&str>)
        ensures
            match lookup(self.params@, "0"@) {
                Some(v) => r matches Some(x) && x@ == v,
                None => if self.params@.len() > 0 {
                    r matches Some(x) && x@ == self.params@[0].1
                } else {
                    r is None
                },
            },
    {
        match self.params.get("0") {
            Some(v) => Some(v.as_str()),
            None => {
                if self.params.len() > 0 {
                    Some(self.params.value_at(0).as_str())
                } else {
                    None
                }
            },
        }
    }

    /// Whether parameter `key` is present.
    pub fn has(&self, key: &str) -> (r: bool)
        ensures
            r == has_key(self.params@, key@),
    {
        self.params.contains_key(key)
    }

    /// A copy of this instruction.
    pub fn duplicate(&self) -> (r: Instruction)
        ensures
            r@ == self@,
    {
        Instruction { tag: self.tag.clone(), params: self.params.duplicate(), line: self.line }
    }
}

impl Script {
    /// Parses script text.
    ///
    /// On success the label table and the instructions are those that
    /// [`parse_script`] gives; on failure the error is a `ParseError` at the
    /// line and with the message that it gives.
    pub fn parse(name: &str, content: &str) -> (r: Result<Script, Error>)
        ensures
            match parse_script(content@) {
                Ok((labels, instrs)) => r matches Ok(sc) && sc.name@ == name@ && sc.labels@
                    == labels && instruction_views(sc.instructions@) == instrs,
                Err((line, msg)) => r matches Err(Error::ParseError { line: l, message: m })
                    && l == line && m@ == msg,
            },
    {
        let text = chars_of(content);
        let lines = split_lines(text.as_slice());
        let ghost lv = seqs_view(lines@);
        let mut labels: StrMap<usize> = StrMap::new();
        let mut instructions: Vec<Instruction> = Vec::new();
        let mut pending: Vec<Vec<char>> = Vec::new();
        let mut k: usize = 0;
        let mut idx: usize = 0;
        assert(labels@ =~= Seq::<(Seq<char>, usize)>::empty());
        assert(instruction_views(instructions@) =~= Seq::<InstructionView>::empty());
        assert(seqs_view(pending@).skip(0) =~= Seq::<Seq<char>>::empty());
        proof {
            reveal_strlit("lua");
            reveal_strlit("[/lua]");
        }
        loop
            invariant
                lv == seqs_view(lines@),
                lv == script_lines(content@),
                idx <= lines@.len(),
                k <= pending@.len(),
                pieces_ok(seqs_view(pending@)),
                parse_script(content@) == parse_from(
                    lv,
                    idx as int,
                    seqs_view(pending@).skip(k as int),
                    labels@,
                    instruction_views(instructions@),
                ),
                "lua"@ == seq!['l', 'u', 'a'],
            ensures
                parse_script(content@) == Ok::<_, (usize, Seq<char>)>(
                    (labels@, instruction_views(instructions@)),
                ),
            decreases lines@.len() - idx, pending@.len() - k,
        {
            let ghost pend = seqs_view(pending@).skip(k as int);
            let ghost iv = instruction_views(instructions@);
            let ghost lab = labels@;
            let ghost start = parse_from(lv, idx as int, pend, lab, iv);
            if k < pending.len() && !(pending[k].len() > 0 && pending[k][0] == '[') {
                let piece = &pending[k];
                assert(pend[0] == piece@);
                assert(pend.drop_first() =~= seqs_view(pending@).skip(k + 1));
                let ins = single_param_instruction("__text", "text", string_of(piece.as_slice()), idx);
                instructions.push(ins);
                assert(instruction_views(instructions@) =~= iv.push(ins@));
                assert(start == parse_from(lv, idx as int, pend.drop_first(), lab, iv.push(text_instruction(piece@, idx))));
                k += 1;
            } else if k < pending.len() {
                let tag = &pending[k];
                assert(pend[0] == tag@);
                assert(pend.drop_first() =~= seqs_view(pending@).skip(k + 1));
                assert(tag@.len() >= 2);
                let (ta, tb) = trim_range(tag.as_slice(), 1, tag.len() - 1);
                let is_lua = chars_equal(tag.as_slice(), ta, tb, "lua");
                if is_lua {
                    let mut e = idx;
                    while e < lines.len() && !is_lua_close(lines[e].as_slice())
                        invariant
                            idx <= e <= lines@.len(),
                            lv == seqs_view(lines@),
                            forall|j: int| idx <= j < e ==> trim(#[trigger] lv[j]) != "[/lua]"@,
                        decreases lines.len() - e,
                    {
                        e += 1;
                    }
                    proof {
                        lemma_lua_end_at(lv, idx as int, e as int);
                    }
                    if e >= lines.len() {
                        return Err(
                            Error::ParseError {
                                line: idx,
                                message: to_owned_string("未找到 [/lua] 结束标记"),
                            },
                        );
                    }
                    let code = join_lines(&lines, idx, e);
                    let ins = single_param_instruction("__lua_block", "code", code, idx);
                    instructions.push(ins);
                    assert(instruction_views(instructions@) =~= iv.push(ins@));
                    assert(start == parse_from(
                        lv,
                        e + 1,
                        seq![],
                        lab,
                        iv.push(lua_instruction(join_code(lv, idx as int, e as int), idx)),
                    ));
                    idx = e + 1;
                    pending = Vec::new();
                    k = 0;
                    assert(seqs_view(pending@).skip(0) =~= Seq::<Seq<char>>::empty());
                } else {
                    let inner = copy_range(tag.as_slice(), 1, tag.len() - 1);
                    match parse_instruction(inner.as_slice(), idx) {
                        Ok(ins) => {
                            instructions.push(ins);
                            assert(instruction_views(instructions@) =~= iv.push(ins@));
                            assert(start == parse_from(lv, idx as int, pend.drop_first(), lab, iv.push(ins@)));
                            k += 1;
                        },
                        Err(m) => {
                            return Err(Error::ParseError { line: idx, message: m });
                        },
                    }
                }
            } else if idx >= lines.len() {
                assert(pend =~= Seq::<Seq<char>>::empty());
                assert(start == Ok::<_, (usize, Seq<char>)>((lab, iv)));
                break ;
            } else {
                let raw = &lines[idx];
                assert(raw@ == lv[idx as int]);
                assert(raw@.subrange(0, raw@.len() as int) =~= raw@);
                let (a, b) = trim_range(raw.as_slice(), 0, raw.len());
                let t = copy_range(raw.as_slice(), a, b);
                assert(pend =~= Seq::<Seq<char>>::empty());
                assert(t@ == trim(lv[idx as int]));
                if t.len() == 0 {
                    assert(start == parse_from(lv, idx + 1, seq![], lab, iv));
                    idx += 1;
                } else if t[0] == '*' {
                    let (na, nb) = trim_range(t.as_slice(), 1, t.len());
                    assert(t@.subrange(1, t@.len() as int) =~= t@.drop_first());
                    if nb > na {
                        let name = string_from(t.as_slice(), na, nb);
                        labels.insert(name, instructions.len());
                    }
                    idx += 1;
                } else if contains_char(t.as_slice(), '[') {
                    pending = extract_tags_from_line(t.as_slice());
                    k = 0;
                    assert(seqs_view(pending@).skip(0) =~= seqs_view(pending@));
                    idx += 1;
                } else {
                    let ghost tv = t@;
                    let text = string_of(t.as_slice());
                    let ins = single_param_instruction("__text", "text", text, idx + 1);
                    instructions.push(ins);
                    assert(instruction_views(instructions@) =~= iv.push(ins@));
                    idx += 1;
                }
            }
        }
        Ok(Script { name: to_owned_string(name), labels, instructions })
    }

    /// The instruction index of a label.
    pub fn get_label_line(&self, label: &str) -> (r: Option<usize>)
        ensures
            r == lookup(self.labels@, label@),
    {
        match self.labels.get(label) {
            Some(v) => Some(*v),
            None => None,
        }
    }

    /// The instruction at `line`, if there is one.
    pub fn get_instruction(&self, line: usize) -> (r: Option<&Instruction>)
        ensures
            match r {
                Some(ins) => line < self.instructions@.len() && *ins == self.instructions@[line as int],
                None => line >= self.instructions@.len(),
            },
    {
        if line < self.instructions.len() {
            Some(&self.instructions[line])
        } else {
            None
        }
    }

    /// Number of instructions.
    pub fn len(&self) -> (n: usize)
        ensures
            n == self.instructions@.len(),
    {
        self.instructions.len()
    }

    /// Whether there are no instructions.
    pub fn is_empty(&self) -> (b: bool)
        ensures
            b == (self.instructions@.len() == 0),
    {
        self.instructions.len() == 0
    }
}

/// Whether a line is the closing `[/lua]` (after trimming).
fn is_lua_close(line: &[char]) -> (r: bool)
    ensures
        r == (trim(line@) == "[/lua]"@),
{
    let (a, b) = trim_range(line, 0, line.len());
    assert(line@.subrange(0, line@.len() as int) =~= line@);
    chars_equal(line, a, b, "[/lua]")
}

/// A scan for `[/lua]` that passes over `i..e` and stops at `e` ends at `e`.
proof fn lemma_lua_end_at(lines: Seq<Seq<char>>, i: int, e: int)
    requires
        0 <= i <= e <= lines.len(),
        forall|j: int| i <= j < e ==> trim(#[trigger] lines[j]) != "[/lua]"@,
        e < lines.len() ==> trim(lines[e]) == "[/lua]"@,
    ensures
        lua_end(lines, i) == e,
    decreases e - i,
{
    if i < e {
        lemma_lua_end_at(lines, i + 1, e);
    }
}

/// The Lua code of lines `a..b`, joined as [`join_code`] says.
fn join_lines(lines: &Vec<Vec<char>>, a: usize, b: usize) -> (r: String)
    requires
        a <= b <= lines@.len(),
    ensures
        r@ == join_code(seqs_view(lines@), a as int, b as int),
{
    let ghost lv = seqs_view(lines@);
    let mut code = String::new();
    let mut m = a;
    while m < b
        invariant
            a <= m <= b <= lines@.len(),
            lv == seqs_view(lines@),
            code@ == join_code(lv, a as int, m as int),
        decreases b - m,
    {
        let ghost prev = code@;
        let line = &lines[m];
        assert(line@ == lv[m as int]);
        if !is_empty_string(&code) {
            push_char(&mut code, '\n');
        }
        let mut j: usize = 0;
        let ghost base = code@;
        while j < line.len()
            invariant
                j <= line@.len(),
                code@ == base + line@.take(j as int),
            decreases line.len() - j,
        {
            push_char(&mut code, line[j]);
            j += 1;
            assert(code@ =~= base + line@.take(j as int));
        }
        assert(line@.take(line@.len() as int) =~= line@);
        m += 1;
        assert(code@ =~= join_code(lv, a as int, m as int));
    }
    code
}

fn is_empty_string(s: &String) -> (r: bool)
    ensures
        r == (s@.len() == 0),
{
    s.as_str().is_empty()
}

// ---------------------------------------------------------------------
// Labels
// ---------------------------------------------------------------------

/// The label that a script line defines: a trimmed line `*name`, with the
/// name trimmed; a bare `*` defines none.
pub open spec fn line_label(line: Seq<char>) -> Option<Seq<char>> {
    let t = trim(line);
    if t.len() > 0 && t[0] == '*' && trim(t.drop_first()).len() > 0 {
        Some(trim(t.drop_first()))
    } else {
        None
    }
}

/// Line `j` (0-based) says `*l`, the instructions before index `i` come
/// from the lines above it and the others from the lines below it
/// (instruction lines are 1-based).
pub open spec fn label_from_line(
    lines: Seq<Seq<char>>,
    instrs: Seq<InstructionView>,
    l: Seq<char>,
    i: usize,
    j: int,
) -> bool {
    &&& 0 <= j < lines.len()
    &&& line_label(lines[j]) == Some(l)
    &&& forall|k: int| 0 <= k < i ==> #[trigger] instrs[k].line <= j
    &&& forall|k: int| i <= k < instrs.len() ==> #[trigger] instrs[k].line >= j + 2
}

/// Whether a piece of a line is the tag `[lua]`.
pub open spec fn is_lua_tag(piece: Seq<char>) -> bool {
    piece.len() > 0 && piece[0] == '[' && trim(piece.subrange(1, piece.len() - 1)) == "lua"@
}

/// Line `a` holds a `[lua]` tag and line `b` is the first `[/lua]` line
/// after it: the lines between are Lua code.
pub open spec fn lua_span(lines: Seq<Seq<char>>, a: int, b: int) -> bool {
    &&& 0 <= a < b < lines.len()
    &&& exists|p: int| 0 <= p < extract_tags(trim(lines[a])).len() && #[trigger] is_lua_tag(extract_tags(trim(lines[a]))[p])
    &&& b == lua_end(lines, a + 1)
}

/// Every line after `j` and before `upto` that says `*l` lies inside a Lua
/// block, where it defines nothing.
pub open spec fn later_in_lua(lines: Seq<Seq<char>>, l: Seq<char>, j: int, upto: int) -> bool {
    forall|j2: int|
        j < j2 < upto && #[trigger] line_label(lines[j2]) == Some(l) ==> exists|a: int, b: int|
            lua_span(lines, a, b) && a < j2 < b
}

/// A label entry `(l, i)` as parsing makes it: a non-empty trimmed name
/// and the count of the instructions above the last line that defines it
/// outside Lua blocks.
pub open spec fn label_entry_ok(lines: Seq<Seq<char>>, instrs: Seq<InstructionView>, l: Seq<char>, i: usize) -> bool {
    &&& l.len() > 0
    &&& trim(l) == l
    &&& i <= instrs.len()
    &&& exists|j: int| #[trigger] label_from_line(lines, instrs, l, i, j) && later_in_lua(lines, l, j, lines.len() as int)
}

/// An entry while parsing: its defining line lies above `bound - 1` and the
/// lines up to `upto` have been read.
spec fn entry_inv(
    lines: Seq<Seq<char>>,
    instrs: Seq<InstructionView>,
    l: Seq<char>,
    i: usize,
    bound: int,
    upto: int,
) -> bool {
    &&& l.len() > 0
    &&& trim(l) == l
    &&& i <= instrs.len()
    &&& exists|j: int| j + 2 <= bound && #[trigger] label_from_line(lines, instrs, l, i, j) && later_in_lua(lines, l, j, upto)
}

/// What parsing keeps true from one line to the next.
spec fn labels_inv(
    lines: Seq<Seq<char>>,
    idx: int,
    pending: Seq<Seq<char>>,
    labels: Seq<(Seq<char>, usize)>,
    instrs: Seq<InstructionView>,
) -> bool {
    let bound = if pending.len() == 0 { idx + 1 } else { idx };
    &&& distinct_keys(labels)
    &&& forall|k: int| 0 <= k < instrs.len() ==> #[trigger] instrs[k].line <= idx
    &&& pending.len() > 0 ==> 1 <= idx <= lines.len() && exists|q: int|
        0 <= q <= extract_tags(trim(lines[idx - 1])).len() && pending == #[trigger] extract_tags(trim(lines[idx - 1])).skip(q)
    &&& forall|e: int| 0 <= e < labels.len() ==> entry_inv(lines, instrs, (#[trigger] labels[e]).0, labels[e].1, bound, idx)
}

/// Adding an instruction whose line lies below every label line keeps the
/// entries.
proof fn lemma_labels_push(
    lines: Seq<Seq<char>>,
    bound: int,
    upto: int,
    labels: Seq<(Seq<char>, usize)>,
    instrs: Seq<InstructionView>,
    ins: InstructionView,
    bound2: int,
)
    requires
        ins.line >= bound,
        bound <= bound2,
        forall|e: int| 0 <= e < labels.len() ==> entry_inv(lines, instrs, (#[trigger] labels[e]).0, labels[e].1, bound, upto),
    ensures
        forall|e: int| 0 <= e < labels.len() ==> entry_inv(lines, instrs.push(ins), (#[trigger] labels[e]).0, labels[e].1, bound2, upto),
{
    let t = instrs.push(ins);
    assert forall|e: int| 0 <= e < labels.len() implies entry_inv(lines, t, (#[trigger] labels[e]).0, labels[e].1, bound2, upto) by {
        assert(entry_inv(lines, instrs, labels[e].0, labels[e].1, bound, upto));
        let j = choose|j: int| j + 2 <= bound && #[trigger] label_from_line(lines, instrs, labels[e].0, labels[e].1, j)
            && later_in_lua(lines, labels[e].0, j, upto);
        assert forall|k: int| labels[e].1 <= k < t.len() implies #[trigger] t[k].line >= j + 2 by {
            if k < instrs.len() {
                assert(instrs[k].line >= j + 2);
            }
        }
        assert forall|k: int| 0 <= k < labels[e].1 implies #[trigger] t[k].line <= j by {
            assert(instrs[k].line <= j);
        }
        assert(label_from_line(lines, t, labels[e].0, labels[e].1, j));
    }
}

/// Reading lines that define no label outside Lua blocks keeps the
/// entries.
proof fn lemma_labels_skip(
    lines: Seq<Seq<char>>,
    bound: int,
    upto: int,
    labels: Seq<(Seq<char>, usize)>,
    instrs: Seq<InstructionView>,
    bound2: int,
    upto2: int,
)
    requires
        bound <= bound2,
        upto <= upto2,
        forall|j2: int| upto <= j2 < upto2 ==> (#[trigger] line_label(lines[j2]) is None || exists|a: int, b: int|
            lua_span(lines, a, b) && a < j2 < b),
        forall|e: int| 0 <= e < labels.len() ==> entry_inv(lines, instrs, (#[trigger] labels[e]).0, labels[e].1, bound, upto),
    ensures
        forall|e: int| 0 <= e < labels.len() ==> entry_inv(lines, instrs, (#[trigger] labels[e]).0, labels[e].1, bound2, upto2),
{
    assert forall|e: int| 0 <= e < labels.len() implies entry_inv(lines, instrs, (#[trigger] labels[e]).0, labels[e].1, bound2, upto2) by {
        assert(entry_inv(lines, instrs, labels[e].0, labels[e].1, bound, upto));
        let l = labels[e].0;
        let j = choose|j: int| j + 2 <= bound && #[trigger] label_from_line(lines, instrs, l, labels[e].1, j)
            && later_in_lua(lines, l, j, upto);
        assert forall|j2: int| j < j2 < upto2 && #[trigger] line_label(lines[j2]) == Some(l) implies exists|a: int, b: int|
            lua_span(lines, a, b) && a < j2 < b by {
            if j2 >= upto {
                assert(line_label(lines[j2]) is None || exists|a: int, b: int| lua_span(lines, a, b) && a < j2 < b);
            }
        }
        assert(label_from_line(lines, instrs, l, labels[e].1, j) && later_in_lua(lines, l, j, upto2));
    }
}

/// Parsing only adds instructions.
proof fn lemma_parse_grows(
    lines: Seq<Seq<char>>,
    idx: int,
    pending: Seq<Seq<char>>,
    labels: Seq<(Seq<char>, usize)>,
    instrs: Seq<InstructionView>,
)
    ensures
        parse_from(lines, idx, pending, labels, instrs) matches Ok((ls, is)) ==> is.len() >= instrs.len(),
    decreases lines.len() - idx, pending.len(),
{
    if idx < 0 || idx > lines.len() {
    } else if pending.len() > 0 && !(pending[0].len() > 0 && pending[0][0] == '[') {
        lemma_parse_grows(lines, idx, pending.drop_first(), labels, instrs.push(text_instruction(pending[0], idx as usize)));
    } else if pending.len() > 0 {
        let tag = pending[0];
        let inner = tag.subrange(1, tag.len() - 1);
        if trim(inner) == "lua"@ {
            let e = lua_end(lines, idx);
            lemma_lua_end(lines, idx);
            if e < lines.len() {
                lemma_parse_grows(lines, e + 1, seq![], labels, instrs.push(lua_instruction(join_code(lines, idx, e), idx as usize)));
            }
        } else {
            match parse_instruction_spec(inner, idx as usize) {
                Err(m) => {},
                Ok(ins) => lemma_parse_grows(lines, idx, pending.drop_first(), labels, instrs.push(ins)),
            }
        }
    } else if idx == lines.len() {
    } else {
        let line = trim(lines[idx]);
        if line.len() == 0 {
            lemma_parse_grows(lines, idx + 1, seq![], labels, instrs);
        } else if line[0] == '*' {
            let name = trim(line.drop_first());
            let labels2 = if name.len() > 0 {
                entries_insert(labels, name, instrs.len() as usize)
            } else {
                labels
            };
            lemma_parse_grows(lines, idx + 1, seq![], labels2, instrs);
        } else if line.contains('[') {
            lemma_parse_grows(lines, idx + 1, extract_tags(line), labels, instrs);
        } else {
            lemma_parse_grows(lines, idx + 1, seq![], labels, instrs.push(text_instruction(line, (idx + 1) as usize)));
        }
    }
}

/// The invariant carries through parsing to the finished labels.
proof fn lemma_parse_labels(
    lines: Seq<Seq<char>>,
    idx: int,
    pending: Seq<Seq<char>>,
    labels: Seq<(Seq<char>, usize)>,
    instrs: Seq<InstructionView>,
)
    requires
        labels_inv(lines, idx, pending, labels, instrs),
        0 <= idx <= lines.len(),
        lines.len() < usize::MAX,
    ensures
        parse_from(lines, idx, pending, labels, instrs) matches Ok((ls, is)) ==> is.len() <= usize::MAX ==> {
            &&& distinct_keys(ls)
            &&& forall|e: int| 0 <= e < ls.len() ==> label_entry_ok(lines, is, (#[trigger] ls[e]).0, ls[e].1)
        },
    decreases lines.len() - idx, pending.len(),
{
    reveal_strlit("[/lua]");
    let bound = if pending.len() == 0 { idx + 1 } else { idx };
    if pending.len() == 0 && idx == lines.len() {
        assert forall|e: int| 0 <= e < labels.len() implies label_entry_ok(lines, instrs, (#[trigger] labels[e]).0, labels[e].1) by {
            assert(entry_inv(lines, instrs, labels[e].0, labels[e].1, bound, idx));
            let j = choose|j: int| j + 2 <= bound && #[trigger] label_from_line(lines, instrs, labels[e].0, labels[e].1, j)
                && later_in_lua(lines, labels[e].0, j, idx);
            assert(label_from_line(lines, instrs, labels[e].0, labels[e].1, j) && later_in_lua(lines, labels[e].0, j, lines.len() as int));
        }
    } else if pending.len() > 0 {
        let ext = extract_tags(trim(lines[idx - 1]));
        let q = choose|q: int| 0 <= q <= ext.len() && pending == #[trigger] ext.skip(q);
        assert(pending.drop_first() =~= ext.skip(q + 1));
        let b2 = if pending.drop_first().len() == 0 { idx + 1 } else { idx };
        if !(pending[0].len() > 0 && pending[0][0] == '[') {
            let ins = text_instruction(pending[0], idx as usize);
            lemma_labels_push(lines, bound, idx, labels, instrs, ins, b2);
            lemma_parse_labels(lines, idx, pending.drop_first(), labels, instrs.push(ins));
        } else {
            let tag = pending[0];
            let inner = tag.subrange(1, tag.len() - 1);
            if trim(inner) == "lua"@ {
                let e = lua_end(lines, idx);
                lemma_lua_end(lines, idx);
                if e < lines.len() {
                    let ins = lua_instruction(join_code(lines, idx, e), idx as usize);
                    assert(ext[q] == tag);
                    assert(is_lua_tag(ext[q]));
                    assert(lua_span(lines, idx - 1, e));
                    lemma_labels_push(lines, bound, idx, labels, instrs, ins, e + 2);
                    assert forall|j2: int| idx <= j2 < e + 1 implies (#[trigger] line_label(lines[j2]) is None || exists|a: int, b: int|
                        lua_span(lines, a, b) && a < j2 < b) by {
                        if j2 == e {
                            assert(trim(lines[e])[0] == '[');
                        } else {
                            assert(lua_span(lines, idx - 1, e) && idx - 1 < j2 < e);
                        }
                    }
                    lemma_labels_skip(lines, e + 2, idx, labels, instrs.push(ins), e + 2, e + 1);
                    lemma_parse_labels(lines, e + 1, seq![], labels, instrs.push(ins));
                }
            } else {
                match parse_instruction_spec(inner, idx as usize) {
                    Err(m) => {},
                    Ok(ins) => {
                        lemma_labels_push(lines, bound, idx, labels, instrs, ins, b2);
                        lemma_parse_labels(lines, idx, pending.drop_first(), labels, instrs.push(ins));
                    },
                }
            }
        }
    } else {
        let line = trim(lines[idx]);
        if line.len() == 0 {
            lemma_labels_skip(lines, bound, idx, labels, instrs, idx + 2, idx + 1);
            lemma_parse_labels(lines, idx + 1, seq![], labels, instrs);
        } else if line[0] == '*' {
            let name = trim(line.drop_first());
            if name.len() > 0 && instrs.len() > usize::MAX {
                lemma_parse_grows(lines, idx + 1, seq![], entries_insert(labels, name, instrs.len() as usize), instrs);
            } else if name.len() > 0 {
                let labels2 = entries_insert(labels, name, instrs.len() as usize);
                crate::strmap::lemma_insert(labels, name, instrs.len() as usize);
                crate::text::lemma_trim_idempotent(line.drop_first());
                assert(label_from_line(lines, instrs, name, instrs.len() as usize, idx));
                assert(later_in_lua(lines, name, idx, idx + 1));
                assert forall|e: int| 0 <= e < labels2.len() implies entry_inv(lines, instrs, (#[trigger] labels2[e]).0, labels2[e].1, idx + 2, idx + 1) by {
                    if labels2[e].0 == name {
                        if has_key(labels, name) {
                            assert(labels2[e] == (name, instrs.len() as usize)) by {
                                let q = crate::strmap::key_index(labels, name);
                                if e != q {
                                    assert(labels2[q].0 == name);
                                }
                            }
                        } else {
                            assert(labels2[e] == (name, instrs.len() as usize)) by {
                                if e < labels.len() {
                                    assert(labels[e].0 == name);
                                }
                            }
                        }
                        assert(label_from_line(lines, instrs, labels2[e].0, labels2[e].1, idx) && later_in_lua(lines, labels2[e].0, idx, idx + 1));
                    } else {
                        assert(labels2[e] == labels[e]);
                        let l = labels[e].0;
                        assert(entry_inv(lines, instrs, l, labels[e].1, bound, idx));
                        let j = choose|j: int| j + 2 <= bound && #[trigger] label_from_line(lines, instrs, l, labels[e].1, j)
                            && later_in_lua(lines, l, j, idx);
                        assert forall|j2: int| j < j2 < idx + 1 && #[trigger] line_label(lines[j2]) == Some(l) implies exists|a: int, b: int|
                            lua_span(lines, a, b) && a < j2 < b by {
                            if j2 == idx {
                                assert(line_label(lines[idx]) == Some(name));
                            }
                        }
                        assert(label_from_line(lines, instrs, l, labels[e].1, j) && later_in_lua(lines, l, j, idx + 1));
                    }
                }
                assert(labels_inv(lines, idx + 1, seq![], labels2, instrs));
                lemma_parse_labels(lines, idx + 1, seq![], labels2, instrs);
            } else {
                lemma_labels_skip(lines, bound, idx, labels, instrs, idx + 2, idx + 1);
                lemma_parse_labels(lines, idx + 1, seq![], labels, instrs);
            }
        } else if line.contains('[') {
            let p = extract_tags(line);
            let b2 = if p.len() == 0 { idx + 2 } else { idx + 1 };
            lemma_labels_skip(lines, bound, idx, labels, instrs, b2, idx + 1);
            assert(p.skip(0) =~= p);
            assert(p == extract_tags(trim(lines[(idx + 1) - 1])).skip(0));
            lemma_parse_labels(lines, idx + 1, p, labels, instrs);
        } else {
            let ins = text_instruction(line, (idx + 1) as usize);
            lemma_labels_skip(lines, bound, idx, labels, instrs, idx + 1, idx + 1);
            lemma_labels_push(lines, idx + 1, idx + 1, labels, instrs, ins, idx + 2);
            lemma_parse_labels(lines, idx + 1, seq![], labels, instrs.push(ins));
        }
    }
}

/// Every label of a parsed script has a non-empty name without surrounding
/// whitespace (a bare `*` defines none), no name occurs twice, and each
/// maps to the number of instructions made from the lines above the last
/// line `*name` outside Lua blocks: the instructions before that index come
/// from lines above it and the others from lines below it, and every later
/// line `*name` lies inside a `[lua]` ... `[/lua]` block. (Line and
/// instruction counts fit in `usize`.)
pub proof fn law_label_positions(content: Seq<char>)
    requires
        script_lines(content).len() < usize::MAX,
    ensures
        parse_script(content) matches Ok((labels, instrs)) ==> instrs.len() <= usize::MAX ==> {
            &&& distinct_keys(labels)
            &&& forall|e: int| 0 <= e < labels.len() ==> label_entry_ok(
                script_lines(content),
                instrs,
                (#[trigger] labels[e]).0,
                labels[e].1,
            )
        },
{
    lemma_parse_labels(script_lines(content), 0, seq![], seq![], seq![]);
}

} // verus!
