//! The command pipeline around the external tool.
//!
//! The host spawns the process; everything decidable from plain values is
//! here: building the argument list from a configuration snapshot
//! ([`build_aichat_args`]), judging the captured output
//! ([`process_command_output`]), and reducing free-form output to the
//! first fenced code block ([`extract_first_code_block`]).

use vstd::prelude::*;
use vstd::string::*;

use crate::config::{AichatConfig, ConfigView, Mode};
use crate::error::AichatError;
use crate::text::{
    chars_to_string, spec_lines, spec_trim_start, split_lines, str_to_chars, trim_start_index,
};

verus! {

/// Whether a line opens or closes a fenced code block: its trimmed content
/// begins with three backticks.
pub open spec fn is_fence(line: Seq<char>) -> bool {
    let t = spec_trim_start(line);
    t.len() >= 3 && t[0] == '`' && t[1] == '`' && t[2] == '`'
}

/// Decides [`is_fence`] for a line.
pub fn is_fence_line(line: &Vec<char>) -> (r: bool)
    ensures
        r == is_fence(line@),
{
    let a = trim_start_index(line);
    let ghost t = spec_trim_start(line@);
    if line.len() - a >= 3 {
        proof {
            assert(t[0] == line@[a as int]);
            assert(t[1] == line@[a + 1]);
            assert(t[2] == line@[a + 2]);
        }
        line[a] == '`' && line[a + 1] == '`' && line[a + 2] == '`'
    } else {
        false
    }
}

/// The scan once an opening fence has passed: lines accumulate (each with
/// a newline restored) until a closing fence; if the input ends first, the
/// partial content stands unless it is empty.
pub open spec fn scan_inside(lines: Seq<Seq<char>>, acc: Seq<char>) -> Option<Seq<char>>
    decreases lines.len(),
{
    if lines.len() == 0 {
        if acc.len() == 0 {
            None
        } else {
            Some(acc)
        }
    } else if is_fence(lines.first()) {
        Some(acc)
    } else {
        scan_inside(lines.drop_first(), acc + lines.first() + seq!['\n'])
    }
}

/// The scan before any fence: lines are skipped until an opening fence;
/// without one there is no code block.
pub open spec fn scan_outside(lines: Seq<Seq<char>>) -> Option<Seq<char>>
    decreases lines.len(),
{
    if lines.len() == 0 {
        None
    } else if is_fence(lines.first()) {
        scan_inside(lines.drop_first(), Seq::empty())
    } else {
        scan_outside(lines.drop_first())
    }
}

/// The first fenced code block of `text`: the lines strictly between the
/// first pair of fence lines, each ended by a newline. The opening fence
/// line (which conventionally carries the language tag) contributes
/// nothing; a block the input ends inside of counts when it has content.
pub open spec fn extract_spec(text: Seq<char>) -> Option<Seq<char>> {
    scan_outside(spec_lines(text))
}

/// Extracts the first fenced code block from the tool's output, or `None`
/// when there is none.
pub fn extract_first_code_block(text: &str) -> (r: Option<String>)
    ensures
        r is Some <==> extract_spec(text@) is Some,
        r matches Some(s) ==> s@ == extract_spec(text@)->0,
{
    let chars = str_to_chars(text);
    let lines = split_lines(&chars);
    let ghost lv = lines.deep_view();
    assert(lv == spec_lines(text@));
    let n = lines.len();
    let mut in_block = false;
    let mut acc: Vec<char> = Vec::new();
    let mut i: usize = 0;
    proof {
        assert(lv.skip(0) =~= lv);
    }
    while i < n
        invariant
            i <= n,
            n == lv.len(),
            lines.deep_view() == lv,
            n == lines@.len(),
            lv == spec_lines(text@),
            !in_block ==> acc@.len() == 0 && scan_outside(lv.skip(i as int)) == scan_outside(lv),
            in_block ==> scan_inside(lv.skip(i as int), acc@) == scan_outside(lv),
        decreases n - i,
    {
        let ghost rest = lv.skip(i as int);
        proof {
            assert(rest.first() == lv[i as int]);
            assert(lv[i as int] == lines@[i as int].deep_view());
            assert(lines@[i as int].deep_view() =~= lines@[i as int]@);
            assert(rest.drop_first() =~= lv.skip(i + 1));
        }
        let line = &lines[i];
        if is_fence_line(line) {
            proof {
                assert(is_fence(rest.first()));
            }
            if !in_block {
                in_block = true;
                proof {
                    assert(scan_outside(rest) == scan_inside(rest.drop_first(), Seq::empty()));
                    assert(acc@ =~= Seq::<char>::empty());
                }
            } else {
                proof {
                    assert(scan_inside(rest, acc@) == Some(acc@));
                    assert(scan_outside(lv) == Some(acc@));
                }
                let s = chars_to_string(&acc);
                return Some(s);
            }
        } else if in_block {
            let ghost acc0 = acc@;
            let m = line.len();
            let mut k: usize = 0;
            while k < m
                invariant
                    k <= m,
                    m == line@.len(),
                    acc@ == acc0 + line@.subrange(0, k as int),
                decreases m - k,
            {
                acc.push(line[k]);
                k += 1;
                assert(acc@ =~= acc0 + line@.subrange(0, k as int));
            }
            acc.push('\n');
            proof {
                assert(line@.subrange(0, m as int) =~= line@);
                assert(acc@ =~= acc0 + rest.first() + seq!['\n']);
                assert(!is_fence(rest.first()));
                assert(scan_inside(rest, acc0) == scan_inside(rest.drop_first(), acc0
                    + rest.first() + seq!['\n']));
            }
        } else {
            proof {
                assert(!is_fence(rest.first()));
                assert(scan_outside(rest) == scan_outside(rest.drop_first()));
            }
        }
        i += 1;
    }
    proof {
        assert(lv.skip(n as int) =~= Seq::<Seq<char>>::empty());
    }
    if acc.len() > 0 {
        let s = chars_to_string(&acc);
        Some(s)
    } else {
        None
    }
}

/// The selected buffer lines joined back into one text, a newline
/// between neighbours.
pub open spec fn joined_lines(lines: Seq<Seq<char>>) -> Seq<char>
    decreases lines.len(),
{
    if lines.len() == 0 {
        Seq::empty()
    } else if lines.len() == 1 {
        lines.first()
    } else {
        joined_lines(lines.drop_last()) + seq!['\n'] + lines.last()
    }
}

/// Joins buffer lines with newlines, leaving no trailing one.
pub fn join_lines(lines: &Vec<String>) -> (r: String)
    ensures
        r@ == joined_lines(lines.deep_view()),
{
    let ghost lv = lines.deep_view();
    let n = lines.len();
    let mut r = String::new();
    let mut i: usize = 0;
    proof {
        assert(lv.take(0) =~= Seq::<Seq<char>>::empty());
    }
    while i < n
        invariant
            i <= n,
            n == lines@.len(),
            lines.deep_view() == lv,
            n == lv.len(),
            r@ == joined_lines(lv.take(i as int)),
        decreases n - i,
    {
        if i > 0 {
            r.append("\n");
        }
        r.append(lines[i].as_str());
        proof {
            reveal_strlit("\n");
            assert("\n"@ =~= seq!['\n']);
            assert(lines@[i as int]@ == lv[i as int]);
            let t = lv.take(i + 1);
            assert(t.last() == lv[i as int]);
            assert(t.drop_last() =~= lv.take(i as int));
            if i == 0 {
                assert(t.first() == lv[0]);
                assert(r@ =~= joined_lines(t));
            } else {
                assert(r@ =~= joined_lines(t.drop_last()) + seq!['\n'] + t.last());
            }
        }
        i += 1;
    }
    proof {
        assert(lv.take(n as int) =~= lv);
    }
    r
}

/// The selection wrapped as a fenced code block tagged with the file
/// type; an empty selection contributes nothing.
pub open spec fn fenced_code_spec(filetype: Seq<char>, body: Seq<char>) -> Seq<char> {
    if body.len() == 0 {
        Seq::empty()
    } else {
        "```"@ + filetype + seq!['\n'] + body + "```"@
    }
}

/// The full prompt piped to the tool: the user's instruction, a newline,
/// then the fenced selection.
pub open spec fn prompt_spec(user_text: Seq<char>, filetype: Seq<char>, body: Seq<char>) -> Seq<
    char,
> {
    user_text + seq!['\n'] + fenced_code_spec(filetype, body)
}

/// Builds the prompt piped to the tool from the user's instruction, the
/// buffer's file type and the selected text.
pub fn compose_prompt(user_text: &str, filetype: &str, body: &str) -> (r: String)
    ensures
        r@ == prompt_spec(user_text@, filetype@, body@),
{
    let mut r = String::from_str(user_text);
    r.append("\n");
    if !body.is_empty() {
        r.append("```");
        r.append(filetype);
        r.append("\n");
        r.append(body);
        r.append("```");
        proof {
            reveal_strlit("\n");
            assert("\n"@ =~= seq!['\n']);
            assert(r@ =~= prompt_spec(user_text@, filetype@, body@));
        }
    } else {
        proof {
            reveal_strlit("\n");
            assert("\n"@ =~= seq!['\n']);
            assert(r@ =~= prompt_spec(user_text@, filetype@, body@));
        }
    }
    r
}

/// The result split for splicing into the buffer: segments between
/// newlines, with no empty segment after a final newline.
pub open spec fn spliced_lines(s: Seq<char>) -> Seq<Seq<char>>
    decreases s.len(),
{
    if s.len() == 0 {
        Seq::empty()
    } else {
        let i = crate::text::find_newline(s, 0);
        if 0 <= i < s.len() {
            seq![s.subrange(0, i)] + spliced_lines(s.subrange(i + 1, s.len() as int))
        } else {
            seq![s]
        }
    }
}

/// Splits the extracted block into the lines written back to the buffer.
pub fn split_for_splice(s: &str) -> (lines: Vec<String>)
    ensures
        lines.deep_view() == spliced_lines(s@),
{
    let chars = str_to_chars(s);
    let n = chars.len();
    let mut lines: Vec<String> = Vec::new();
    let mut cur: Vec<char> = Vec::new();
    let mut start: usize = 0;
    let mut i: usize = 0;
    proof {
        assert(chars@.skip(0) =~= chars@);
        assert(lines.deep_view() =~~= Seq::<Seq<char>>::empty());
        assert(Seq::<Seq<char>>::empty() + spliced_lines(chars@) =~= spliced_lines(chars@));
        assert(cur@ =~= chars@.subrange(0, 0));
    }
    while i < n
        invariant
            start <= i <= n,
            n == chars@.len(),
            chars@ == s@,
            cur@ == chars@.subrange(start as int, i as int),
            forall|k: int| start <= k < i ==> chars@[k] != '\n',
            lines.deep_view() + spliced_lines(chars@.skip(start as int)) == spliced_lines(
                chars@,
            ),
        decreases n - i,
    {
        let ghost rest = chars@.skip(start as int);
        let c = chars[i];
        if c == '\n' {
            proof {
                assert forall|k: int| 0 <= k < i - start implies rest[k] != '\n' by {
                    assert(rest[k] == chars@[start + k]);
                }
                assert(rest[i - start] == '\n');
                crate::text::lemma_find_first_newline(rest, i - start);
                assert(rest.subrange(0, i - start) =~= chars@.subrange(start as int, i as int));
                assert(rest.subrange(i - start + 1, rest.len() as int) =~= chars@.skip(i + 1));
                assert(spliced_lines(rest) == seq![cur@] + spliced_lines(chars@.skip(i + 1)));
            }
            let line = chars_to_string(&cur);
            let ghost old_lines = lines.deep_view();
            let ghost curv = cur@;
            lines.push(line);
            proof {
                assert(lines.deep_view() =~~= old_lines + seq![curv]);
                assert(old_lines + (seq![curv] + spliced_lines(chars@.skip(i + 1)))
                    =~= (old_lines + seq![curv]) + spliced_lines(chars@.skip(i + 1)));
            }
            cur = Vec::new();
            start = i + 1;
            i += 1;
            assert(cur@ =~= chars@.subrange(start as int, i as int));
        } else {
            cur.push(c);
            i += 1;
            assert(cur@ =~= chars@.subrange(start as int, i as int));
        }
    }
    proof {
        let rest = chars@.skip(start as int);
        if start < n {
            assert forall|k: int| 0 <= k < rest.len() implies rest[k] != '\n' by {
                assert(rest[k] == chars@[start + k]);
            }
            crate::text::lemma_find_first_newline(rest, rest.len() as int);
            assert(spliced_lines(rest) == seq![rest]);
            assert(cur@ =~= rest);
        } else {
            assert(rest =~= Seq::<char>::empty());
            assert(spliced_lines(rest) == Seq::<Seq<char>>::empty());
            assert(lines.deep_view() + Seq::<Seq<char>>::empty() =~= lines.deep_view());
        }
    }
    if start < n {
        let line = chars_to_string(&cur);
        let ghost old_lines = lines.deep_view();
        let ghost curv = cur@;
        lines.push(line);
        proof {
            assert(lines.deep_view() =~~= old_lines + seq![curv]);
        }
    }
    lines
}

/// The flag that selects the mode category on the tool's command line.
pub open spec fn mode_flag_str(m: Mode) -> Seq<char> {
    match m {
        Mode::Role => "--role"@,
        Mode::Agent => "--agent"@,
        Mode::Macro => "--macro"@,
    }
}

/// The argument list a configuration calls for: the mode flag with its
/// argument when a mode is set, then the retrieval pair when a retrieval
/// source is set, then the session pair when a session is set.
pub open spec fn args_spec(c: ConfigView) -> Seq<Seq<char>> {
    let mode_part: Seq<Seq<char>> = match c.mode_flag {
        Some(m) => seq![mode_flag_str(m), c.mode_arg->0],
        None => Seq::empty(),
    };
    let rag_part: Seq<Seq<char>> = match c.rag {
        Some(r) => seq!["--rag"@, r],
        None => Seq::empty(),
    };
    let session_part: Seq<Seq<char>> = match c.session {
        Some(s) => seq!["--session"@, s],
        None => Seq::empty(),
    };
    mode_part + rag_part + session_part
}

/// Builds the tool's argument list from a configuration snapshot.
pub fn build_aichat_args(config: &AichatConfig) -> (args: Vec<String>)
    requires
        config.wf(),
    ensures
        args.deep_view() == args_spec(config@),
{
    let mut args: Vec<String> = Vec::new();
    match &config.mode_flag {
        Some(m) => {
            let flag = match m {
                Mode::Role => String::from_str("--role"),
                Mode::Agent => String::from_str("--agent"),
                Mode::Macro => String::from_str("--macro"),
            };
            args.push(flag);
            match &config.mode_arg {
                Some(a) => args.push(a.clone()),
                None => {
                    proof {
                        assert(false);
                    }
                },
            }
        },
        None => {},
    }
    if let Some(r) = &config.rag {
        args.push(String::from_str("--rag"));
        args.push(r.clone());
    }
    if let Some(s) = &config.session {
        args.push(String::from_str("--session"));
        args.push(s.clone());
    }
    proof {
        assert(args.deep_view() =~~= args_spec(config@));
    }
    args
}

/// Judges a finished process: a non-zero exit is an error carrying the
/// status and standard error (standard output is discarded); otherwise the
/// first fenced code block of standard output is the result, and its
/// absence an error.
pub fn process_command_output(
    success: bool,
    status_code: Option<i32>,
    stdout: String,
    stderr: String,
) -> (r: Result<String, AichatError>)
    ensures
        !success ==> (r matches Err(e) && e == (AichatError::CommandFailed {
            status_code,
            stderr,
        })),
        success ==> (match extract_spec(stdout@) {
            Some(block) => r matches Ok(s) && s@ == block,
            None => r == Err::<String, AichatError>(AichatError::NoCodeBlock),
        }),
{
    if !success {
        return Err(AichatError::command_failed(status_code, stderr));
    }
    match extract_first_code_block(stdout.as_str()) {
        Some(block) => Ok(block),
        None => Err(AichatError::NoCodeBlock),
    }
}

} // verus!
