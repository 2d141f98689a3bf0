//! The commands that run a Python script: what each script is given, and how its result is read.
use crate::json::{
    member, object_of, object_text, parsed, plain, quoted, read_from, simple_entries, simple_text,
    Json,
};
use crate::text::{
    followed_by, joined, occurs, optional_text, replace_all, replaced,
    replaced_at_the_first_occurrence, replaced_without_occurrence, result_text, texts, trim,
    trimmed, trimming_gives_the_core, white,
};
use vstd::prelude::*;

verus! {

/// The scripts that come with the application.
#[derive(Clone, Copy, Debug, PartialEq, Eq, Structural)]
pub enum Script {
    TabularProcessor,
    CheckGpu,
    SystemInfo,
    DatasetAnalyzer,
    LlmMonitor,
}

impl Script {
    /// The file that holds the script.
    pub open spec fn file(self) -> Seq<char> {
        match self {
            Script::TabularProcessor => "tabular_processor.py"@,
            Script::CheckGpu => "check_gpu.py"@,
            Script::SystemInfo => "system_info.py"@,
            Script::DatasetAnalyzer => "dataset_analyzer.py"@,
            Script::LlmMonitor => "llm_monitor.py"@,
        }
    }

    /// The directory of the script below the application's resources, and its file.
    pub fn location(self) -> (place: (&'static str, &'static str))
        ensures
            place.0@ == "python_backend"@,
            place.1@ == self.file(),
    {
        let file = match self {
            Script::TabularProcessor => "tabular_processor.py",
            Script::CheckGpu => "check_gpu.py",
            Script::SystemInfo => "system_info.py",
            Script::DatasetAnalyzer => "dataset_analyzer.py",
            Script::LlmMonitor => "llm_monitor.py",
        };
        ("python_backend", file)
    }
}

/// The mark of a path that Windows takes as it is written.
pub open spec fn verbatim_mark() -> Seq<char> {
    "\\\\?\\"@
}

/// A path without the mark of a verbatim path.
pub open spec fn without_mark(path: Seq<char>) -> Seq<char> {
    replaced(path, verbatim_mark(), seq![])
}

/// The path of a script as Python is given it: without the mark of a verbatim path.
pub fn script_argument(path: &str) -> (argument: String)
    ensures
        argument@ == without_mark(path@),
{
    proof {
        reveal_strlit("\\\\?\\");
        reveal_strlit("");
        assert(""@ =~= seq![]);
    }
    replace_all(path, "\\\\?\\", "")
}

/// A path without the mark is given as it is, and one that begins with the mark and holds no other
/// is given without it.
pub proof fn script_argument_drops_the_mark(rest: Seq<char>)
    requires
        !occurs(verbatim_mark(), rest),
    ensures
        without_mark(rest) == rest,
        without_mark(verbatim_mark() + rest) == rest,
{
    reveal_strlit("\\\\?\\");
    let marked = verbatim_mark() + rest;
    replaced_without_occurrence(rest, verbatim_mark(), seq![]);
    assert(marked.subrange(0, 4) =~= verbatim_mark());
    assert(marked.skip(4) =~= rest);
    assert(Seq::<char>::empty() + rest =~= rest);
}

/// The arguments of the tabular processor.
pub open spec fn tabular_args(
    script: Seq<char>,
    action: Seq<char>,
    file: Seq<char>,
    params: Option<Seq<char>>,
    out: Option<Seq<char>>,
) -> Seq<Seq<char>> {
    seq![script, "--action"@, action, "--file"@, file] + option_args("--params"@, params)
        + option_args("--out"@, out)
}

/// An option and its value, where it has one.
pub open spec fn option_args(name: Seq<char>, value: Option<Seq<char>>) -> Seq<Seq<char>> {
    match value {
        Some(v) => seq![name, v],
        None => seq![],
    }
}

/// The arguments with which the tabular processor is run.
pub fn tabular_processor_args(
    script: String,
    file: String,
    action: String,
    params: Option<String>,
    out: Option<String>,
) -> (args: Vec<String>)
    ensures
        texts(args@) == tabular_args(
            script@,
            action@,
            file@,
            optional_text(params),
            optional_text(out),
        ),
        args@.len() == 5 + (if params is Some {
            2int
        } else {
            0
        }) + (if out is Some {
            2int
        } else {
            0
        }),
        args@[0]@ == script@,
        args@[1]@ == "--action"@,
        args@[2]@ == action@,
        args@[3]@ == "--file"@,
        args@[4]@ == file@,
        params matches Some(given) ==> args@[5]@ == "--params"@ && args@[6]@ == given@,
        out matches Some(given) ==> args@[args@.len() - 2]@ == "--out"@ && args@[args@.len()
            - 1]@ == given@,
{
    let ghost given_params = optional_text(params);
    let ghost given_out = optional_text(out);
    let mut args: Vec<String> = Vec::new();
    args.push(script);
    args.push("--action".to_owned());
    args.push(action);
    args.push("--file".to_owned());
    args.push(file);
    if let Some(p) = params {
        args.push("--params".to_owned());
        args.push(p);
    }
    if let Some(o) = out {
        args.push("--out".to_owned());
        args.push(o);
    }
    assert(texts(args@) =~= tabular_args(script@, action@, file@, given_params, given_out));
    args
}

/// The arguments with which the dataset analyzer is run.
pub fn dataset_analyzer_args(script: String, path: String) -> (args: Vec<String>)
    ensures
        texts(args@) == seq![script@, "--path"@, path@],
{
    let mut args: Vec<String> = Vec::new();
    args.push(script);
    args.push("--path".to_owned());
    args.push(path);
    assert(texts(args@) =~= seq![script@, "--path"@, path@]);
    args
}

/// The result of a script as the user gets it: its output without the white space round it, or the
/// error behind a word on what failed.
pub open spec fn answered(
    result: Result<Seq<char>, Seq<char>>,
    failure: Seq<char>,
) -> Result<Seq<char>, Seq<char>> {
    match result {
        Ok(output) => Ok(trimmed(output)),
        Err(error) => Err(failure + error),
    }
}

/// Reads the result of a script, of which the failure is announced as given.
fn read_answer(result: Result<String, String>, failure: &str) -> (answer: Result<String, String>)
    ensures
        result_text(answer) == answered(result_text(result), failure@),
{
    match result {
        Ok(output) => Ok(trim(output.as_str())),
        Err(error) => Err(followed_by(failure, error.as_str())),
    }
}

/// Reads the result of the graphics card's detection.
pub fn gpu_answer(result: Result<String, String>) -> (answer: Result<String, String>)
    ensures
        result_text(answer) == answered(result_text(result), "GPU detection failed: "@),
{
    read_answer(result, "GPU detection failed: ")
}

/// Reads the result of the system's description.
pub fn system_info_answer(result: Result<String, String>) -> (answer: Result<String, String>)
    ensures
        result_text(answer) == answered(result_text(result), "System info failed: "@),
{
    read_answer(result, "System info failed: ")
}

/// Reads the result of the dataset's analysis.
pub fn dataset_answer(result: Result<String, String>) -> (answer: Result<String, String>)
    ensures
        result_text(answer) == answered(result_text(result), "Dataset analysis failed: "@),
{
    read_answer(result, "Dataset analysis failed: ")
}

/// The program that tells which Python packages are there.
pub open spec fn dependency_probe() -> Seq<char> {
    "import sys, json, importlib.util; p = lambda x: importlib.util.find_spec(x) is not None; print(json.dumps({'python': True, 'executable': sys.executable, 'version': sys.version.split()[0], 'pandas': p('pandas'), 'sklearn': p('sklearn'), 'torch': p('torch'), 'timm': p('timm'), 'optuna': p('optuna'), 'llama_cpp': p('llama_cpp')}))"@
}

/// The arguments with which Python tells which packages are there.
pub fn dependency_args() -> (args: Vec<String>)
    ensures
        texts(args@) == seq!["-c"@, dependency_probe()],
{
    let mut args: Vec<String> = Vec::new();
    args.push("-c".to_owned());
    args.push(
        "import sys, json, importlib.util; p = lambda x: importlib.util.find_spec(x) is not None; print(json.dumps({'python': True, 'executable': sys.executable, 'version': sys.version.split()[0], 'pandas': p('pandas'), 'sklearn': p('sklearn'), 'torch': p('torch'), 'timm': p('timm'), 'optuna': p('optuna'), 'llama_cpp': p('llama_cpp')}))".to_owned(),
    );
    assert(texts(args@) =~= seq!["-c"@, dependency_probe()]);
    args
}

/// An error as it stands inside a quoted text: with its quotes escaped, and on one line.
pub open spec fn quoted_error(error: Seq<char>) -> Seq<char> {
    replaced(replaced(error, "\""@, "\\\""@), "\n"@, " "@)
}

/// The answer where Python cannot be run.
pub open spec fn no_dependencies(error: Seq<char>) -> Seq<char> {
    "{\"python\": false"@ + ", \"version\": null"@ + ", \"pandas\": false"@
        + ", \"sklearn\": false"@ + ", \"torch\": false"@ + ", \"timm\": false"@
        + ", \"optuna\": false"@ + ", \"llama_cpp\": false"@ + ", \"error\": \""@
        + quoted_error(error) + "\"}"@
}

/// Reads the result of the question which packages are there. A failure is an answer too: that
/// there is no Python.
pub fn dependencies_answer(result: Result<String, String>) -> (answer: Result<String, String>)
    ensures
        result_text(answer) == Ok::<Seq<char>, Seq<char>>(
            match result_text(result) {
                Ok(output) => trimmed(output),
                Err(error) => no_dependencies(error),
            },
        ),
{
    match result {
        Ok(output) => Ok(trim(output.as_str())),
        Err(error) => {
            proof {
                reveal_strlit("\"");
                reveal_strlit("\n");
            }
            let escaped = replace_all(error.as_str(), "\"", "\\\"");
            let line = replace_all(escaped.as_str(), "\n", " ");
            let mut answer = "{\"python\": false".to_owned();
            answer.append(", \"version\": null");
            answer.append(", \"pandas\": false");
            answer.append(", \"sklearn\": false");
            answer.append(", \"torch\": false");
            answer.append(", \"timm\": false");
            answer.append(", \"optuna\": false");
            answer.append(", \"llama_cpp\": false");
            answer.append(", \"error\": \"");
            answer.append(line.as_str());
            answer.append("\"}");
            Ok(answer)
        },
    }
}

/// Replacing a character goes from the front: one character after the other.
proof fn replacing_from_the_front(s: Seq<char>, from: char, to: Seq<char>)
    ensures
        replaced(s, seq![from], to) == if s.len() == 0 {
            s
        } else {
            (if s[0] == from {
                to
            } else {
                seq![s[0]]
            }) + replaced(s.skip(1), seq![from], to)
        },
{
    if s.len() > 0 {
        assert(s.subrange(0, 1) =~= seq![s[0]]);
        if seq![from].is_prefix_of(s) {
            assert(s.subrange(0, 1)[0] == from);
        } else {
            assert(s[0] != from);
        }
    }
}

/// Replacing one character by another changes that character and no other.
proof fn replacing_a_character(s: Seq<char>, from: char, to: char)
    ensures
        replaced(s, seq![from], seq![to]).len() == s.len(),
        forall|i: int|
            0 <= i < s.len() ==> #[trigger] replaced(s, seq![from], seq![to])[i] == if s[i] == from {
                to
            } else {
                s[i]
            },
    decreases s.len(),
{
    replacing_from_the_front(s, from, seq![to]);
    if s.len() > 0 {
        replacing_a_character(s.skip(1), from, to);
    }
}

/// Whether every quote in `s` has a backslash in front of it.
pub open spec fn quotes_escaped(s: Seq<char>) -> bool {
    forall|i: int| 0 <= i < s.len() && #[trigger] s[i] == '"' ==> i > 0 && s[i - 1] == '\\'
}

/// Whether every backslash in `s` escapes a quote.
pub open spec fn escapes_quotes_only(s: Seq<char>) -> bool {
    forall|i: int|
        0 <= i < s.len() && #[trigger] s[i] == '\\' ==> i + 1 < s.len() && s[i + 1] == '"'
}

/// Escaping puts a backslash in front of every quote, and nowhere else.
proof fn escaping_escapes_quotes(s: Seq<char>)
    ensures
        quotes_escaped(replaced(s, seq!['"'], seq!['\\', '"'])),
        !s.contains('\\') ==> escapes_quotes_only(replaced(s, seq!['"'], seq!['\\', '"'])),
    decreases s.len(),
{
    replacing_from_the_front(s, '"', seq!['\\', '"']);
    if s.len() > 0 {
        let rest = replaced(s.skip(1), seq!['"'], seq!['\\', '"']);
        escaping_escapes_quotes(s.skip(1));
        let head = if s[0] == '"' {
            seq!['\\', '"']
        } else {
            seq![s[0]]
        };
        let whole = head + rest;
        assert forall|i: int| 0 <= i < whole.len() && #[trigger] whole[i] == '"' implies i > 0
            && whole[i - 1] == '\\' by {
            if i >= head.len() {
                assert(rest[i - head.len()] == '"');
                assert(rest[i - head.len() - 1] == '\\');
            }
        }
        if !s.contains('\\') {
            assert forall|i: int| 0 <= i < s.skip(1).len() implies s.skip(1)[i] != '\\' by {
                assert(s.contains(s[i + 1]));
            }
            assert(s.contains(s[0]));
            assert forall|i: int| 0 <= i < whole.len() && #[trigger] whole[i] == '\\' implies i + 1
                < whole.len() && whole[i + 1] == '"' by {
                if i >= head.len() {
                    assert(rest[i - head.len()] == '\\');
                    assert(rest[i - head.len() + 1] == '"');
                }
            }
        }
    }
}

/// An error inside a quoted text is on one line, and every quote in it has a backslash in front of
/// it. An error without backslashes ends no quotation: then each backslash escapes a quote, and no
/// other follows or precedes it.
pub proof fn quoted_error_is_one_line_and_escaped(error: Seq<char>)
    ensures
        !quoted_error(error).contains('\n'),
        quotes_escaped(quoted_error(error)),
        !error.contains('\\') ==> escapes_quotes_only(quoted_error(error)),
{
    short_texts();
    let escaped = replaced(error, seq!['"'], seq!['\\', '"']);
    escaping_escapes_quotes(error);
    replacing_a_character(escaped, '\n', ' ');
    let line = quoted_error(error);
    assert forall|i: int| 0 <= i < line.len() && #[trigger] line[i] == '"' implies i > 0 && line[i
        - 1] == '\\' by {
        assert(escaped[i] == '"');
        assert(escaped[i - 1] == '\\');
        assert(line[i - 1] == escaped[i - 1]);
    }
    if !error.contains('\\') {
        assert forall|i: int| 0 <= i < line.len() && #[trigger] line[i] == '\\' implies i + 1
            < line.len() && line[i + 1] == '"' by {
            assert(escaped[i] == '\\');
            assert(escaped[i + 1] == '"');
            assert(line[i + 1] == escaped[i + 1]);
        }
    }
}

/// The short texts with which errors are quoted.
proof fn short_texts()
    ensures
        "\""@ == seq!['"'],
        "\\\""@ == seq!['\\', '"'],
        "\n"@ == seq!['\n'],
        " "@ == seq![' '],
{
    reveal_strlit("\"");
    reveal_strlit("\\\"");
    reveal_strlit("\n");
    reveal_strlit(" ");
    assert("\""@ =~= seq!['"']);
    assert("\\\""@ =~= seq!['\\', '"']);
    assert("\n"@ =~= seq!['\n']);
    assert(" "@ =~= seq![' ']);
}

/// An error on one line.
pub open spec fn one_line(error: Seq<char>) -> Seq<char> {
    replaced(error, "\n"@, " "@)
}

/// It is the same whether an error is put on one line before its quotes are escaped or after.
proof fn quoted_error_is_the_quoted_line(error: Seq<char>)
    ensures
        quoted(one_line(error)) == "\""@ + quoted_error(error) + "\""@,
{
    short_texts();
    escaping_and_joining_lines_commute(error);
}

/// Escaping quotes and replacing line breaks can be done in either order.
proof fn escaping_and_joining_lines_commute(s: Seq<char>)
    ensures
        replaced(replaced(s, seq!['\n'], seq![' ']), seq!['"'], seq!['\\', '"']) == replaced(
            replaced(s, seq!['"'], seq!['\\', '"']),
            seq!['\n'],
            seq![' '],
        ),
    decreases s.len(),
{
    let escape = seq!['\\', '"'];
    replacing_from_the_front(s, '\n', seq![' ']);
    replacing_from_the_front(s, '"', escape);
    if s.len() > 0 {
        let rest = s.skip(1);
        escaping_and_joining_lines_commute(rest);
        let line = replaced(s, seq!['\n'], seq![' ']);
        let escaped = replaced(s, seq!['"'], escape);
        replacing_from_the_front(line, '"', escape);
        assert(line.skip(1) =~= replaced(rest, seq!['\n'], seq![' ']));
        replacing_from_the_front(escaped, '\n', seq![' ']);
        if s[0] == '"' {
            assert(escaped.skip(1) =~= seq!['"'] + replaced(rest, seq!['"'], escape));
            replacing_from_the_front(escaped.skip(1), '\n', seq![' ']);
            assert(escaped.skip(1).skip(1) =~= replaced(rest, seq!['"'], escape));
            assert(replaced(line, seq!['"'], escape) =~= replaced(escaped, seq!['\n'], seq![' ']));
        } else {
            assert(escaped.skip(1) =~= replaced(rest, seq!['"'], escape));
        }
    }
}

/// What is said of each package where Python cannot be run, for the reason in `line`.
pub open spec fn missing_entries(line: Seq<char>) -> Seq<(Seq<char>, Json)> {
    seq![
        ("python"@, Json::Bool(false)),
        ("version"@, Json::Null),
        ("pandas"@, Json::Bool(false)),
        ("sklearn"@, Json::Bool(false)),
        ("torch"@, Json::Bool(false)),
        ("timm"@, Json::Bool(false)),
        ("optuna"@, Json::Bool(false)),
        ("llama_cpp"@, Json::Bool(false)),
        ("error"@, Json::Text(line)),
    ]
}

/// What stands in front of the value of an entry whose name holds no quotes.
proof fn entry_text(name: Seq<char>)
    requires
        !name.contains('"'),
    ensures
        quoted(name) + ": "@ == seq!['"'] + name + seq!['"', ':', ' '],
{
    short_texts();
    reveal_strlit(": ");
    assert forall|i: int| 0 <= i <= name.len() implies !"\""@.is_prefix_of(
        #[trigger] name.skip(i),
    ) by {
        if "\""@.is_prefix_of(name.skip(i)) {
            assert(name.skip(i).subrange(0, 1)[0] == '"');
            assert(name.contains(name[i]));
        }
    }
    replaced_without_occurrence(name, "\""@, "\\\""@);
    assert(quoted(name) + ": "@ =~= seq!['"'] + name + seq!['"', ':', ' ']);
}

/// The part at `i` is joined to those before it behind a separator.
proof fn joined_with_one_more(
    opening: Seq<char>,
    parts: Seq<Seq<char>>,
    separator: Seq<char>,
    i: int,
)
    requires
        1 <= i < parts.len(),
    ensures
        opening + joined(parts.take(i + 1), separator) == opening + joined(parts.take(i), separator)
            + (separator + parts[i]),
{
    assert(parts.take(i + 1).drop_last() =~= parts.take(i));
    assert(opening + joined(parts.take(i + 1), separator) =~= opening + joined(
        parts.take(i),
        separator,
    ) + (separator + parts[i]));
}

/// Nine parts joined behind an opening: each but the first behind a separator.
proof fn nine_parts_joined(opening: Seq<char>, parts: Seq<Seq<char>>, separator: Seq<char>)
    requires
        parts.len() == 9,
    ensures
        opening + joined(parts, separator) == opening + parts[0] + (separator + parts[1]) + (
        separator + parts[2]) + (separator + parts[3]) + (separator + parts[4]) + (separator
            + parts[5]) + (separator + parts[6]) + (separator + parts[7]) + (separator + parts[8]),
{
    assert(parts.take(1) =~= seq![parts[0]]);
    assert(parts.take(9) =~= parts);
    joined_with_one_more(opening, parts, separator, 1);
    joined_with_one_more(opening, parts, separator, 2);
    joined_with_one_more(opening, parts, separator, 3);
    joined_with_one_more(opening, parts, separator, 4);
    joined_with_one_more(opening, parts, separator, 5);
    joined_with_one_more(opening, parts, separator, 6);
    joined_with_one_more(opening, parts, separator, 7);
    joined_with_one_more(opening, parts, separator, 8);
}

/// How the first parts of the answer are written.
proof fn answer_parts()
    ensures
        "{\"python\": false"@ == "{"@ + (quoted("python"@) + ": "@ + "false"@),
        ", \"version\": null"@ == ", "@ + (quoted("version"@) + ": "@ + "null"@),
        ", \"pandas\": false"@ == ", "@ + (quoted("pandas"@) + ": "@ + "false"@),
        ", \"sklearn\": false"@ == ", "@ + (quoted("sklearn"@) + ": "@ + "false"@),
        ", \"torch\": false"@ == ", "@ + (quoted("torch"@) + ": "@ + "false"@),
        ", \"timm\": false"@ == ", "@ + (quoted("timm"@) + ": "@ + "false"@),
        ", \"optuna\": false"@ == ", "@ + (quoted("optuna"@) + ": "@ + "false"@),
        ", \"llama_cpp\": false"@ == ", "@ + (quoted("llama_cpp"@) + ": "@ + "false"@),
{
    assert("{\"python\": false"@ == "{"@ + (quoted("python"@) + ": "@ + "false"@)) by {
        reveal_strlit("{\"python\": false");
        reveal_strlit("{");
        reveal_strlit("python");
        reveal_strlit("false");
        entry_text("python"@);
    }
    assert(", \"version\": null"@ == ", "@ + (quoted("version"@) + ": "@ + "null"@)) by {
        reveal_strlit(", \"version\": null");
        reveal_strlit(", ");
        reveal_strlit("version");
        reveal_strlit("null");
        entry_text("version"@);
    }
    assert(", \"pandas\": false"@ == ", "@ + (quoted("pandas"@) + ": "@ + "false"@)) by {
        reveal_strlit(", \"pandas\": false");
        reveal_strlit(", ");
        reveal_strlit("pandas");
        reveal_strlit("false");
        entry_text("pandas"@);
    }
    assert(", \"sklearn\": false"@ == ", "@ + (quoted("sklearn"@) + ": "@ + "false"@)) by {
        reveal_strlit(", \"sklearn\": false");
        reveal_strlit(", ");
        reveal_strlit("sklearn");
        reveal_strlit("false");
        entry_text("sklearn"@);
    }
    assert(", \"torch\": false"@ == ", "@ + (quoted("torch"@) + ": "@ + "false"@)) by {
        reveal_strlit(", \"torch\": false");
        reveal_strlit(", ");
        reveal_strlit("torch");
        reveal_strlit("false");
        entry_text("torch"@);
    }
    assert(", \"timm\": false"@ == ", "@ + (quoted("timm"@) + ": "@ + "false"@)) by {
        reveal_strlit(", \"timm\": false");
        reveal_strlit(", ");
        reveal_strlit("timm");
        reveal_strlit("false");
        entry_text("timm"@);
    }
    assert(", \"optuna\": false"@ == ", "@ + (quoted("optuna"@) + ": "@ + "false"@)) by {
        reveal_strlit(", \"optuna\": false");
        reveal_strlit(", ");
        reveal_strlit("optuna");
        reveal_strlit("false");
        entry_text("optuna"@);
    }
    assert(", \"llama_cpp\": false"@ == ", "@ + (quoted("llama_cpp"@) + ": "@ + "false"@)) by {
        reveal_strlit(", \"llama_cpp\": false");
        reveal_strlit(", ");
        reveal_strlit("llama_cpp");
        reveal_strlit("false");
        entry_text("llama_cpp"@);
    }
}

/// How the error is written at the end of the answer.
proof fn answer_end(error: Seq<char>)
    ensures
        ", \"error\": \""@ + quoted_error(error) + "\"}"@ == ", "@ + (quoted("error"@) + ": "@
            + quoted(one_line(error))) + "}"@,
{
    quoted_error_is_the_quoted_line(error);
    short_texts();
    reveal_strlit(", \"error\": \"");
    reveal_strlit(", ");
    reveal_strlit("error");
    entry_text("error"@);
    reveal_strlit("\"}");
    reveal_strlit("}");
    assert(", \"error\": \""@ =~= ", "@ + (seq!['"'] + "error"@ + seq!['"', ':', ' ']) + seq!['"']);
    assert("\"}"@ =~= seq!['"'] + "}"@);
}

/// The answer where Python cannot be run is the text of an object.
proof fn no_dependencies_is_an_object(error: Seq<char>)
    ensures
        no_dependencies(error) == object_text(missing_entries(one_line(error))),
{
    let entries = missing_entries(one_line(error));
    let parts = entries.map_values(
        |entry: (Seq<char>, Json)| quoted(entry.0) + ": "@ + simple_text(entry.1),
    );
    answer_parts();
    answer_end(error);
    nine_parts_joined("{"@, parts, ", "@);
    let shown = "{"@ + parts[0] + (", "@ + parts[1]) + (", "@ + parts[2]) + (", "@ + parts[3]) + (
    ", "@ + parts[4]) + (", "@ + parts[5]) + (", "@ + parts[6]) + (", "@ + parts[7]);
    assert(shown + (", "@ + parts[8]) + "}"@ =~= shown + (", "@ + parts[8] + "}"@));
    assert(shown + ", \"error\": \""@ + quoted_error(error) + "\"}"@ =~= shown + (
    ", \"error\": \""@ + quoted_error(error) + "\"}"@));
}

/// Whether `error` holds no backslash and no control character but line breaks.
pub open spec fn plain_lines(error: Seq<char>) -> bool {
    forall|i: int|
        0 <= i < error.len() ==> (#[trigger] error[i]) != '\\' && (error[i] >= ' ' || error[i]
            == '\n')
}

/// An object has the value of an entry under its name, unless a later entry has the same name.
proof fn entry_stands(entries: Seq<(Seq<char>, Json)>, i: int)
    requires
        0 <= i < entries.len(),
        forall|j: int| i < j < entries.len() ==> (#[trigger] entries[j]).0 != entries[i].0,
    ensures
        member(Json::Object(object_of(entries)), entries[i].0) == Some(entries[i].1),
    decreases entries.len(),
{
    if i + 1 < entries.len() {
        let earlier = entries.drop_last();
        assert forall|j: int| i < j < earlier.len() implies (#[trigger] earlier[j]).0
            != earlier[i].0 by {
            assert(earlier[j] == entries[j]);
        }
        entry_stands(earlier, i);
        assert(entries.last() == entries[entries.len() - 1]);
    }
}

/// Where Python cannot be run, the answer is read as an object that says so: there is no Python and
/// no package, and the error is given on one line. `read` is what `serde_json::from_str` reads.
pub proof fn missing_dependencies_are_read(error: Seq<char>, read: Option<Json>)
    requires
        plain_lines(error),
        read_from(read, no_dependencies(error)),
    ensures
        parsed(no_dependencies(error)) == read,
        read == Some(Json::Object(object_of(missing_entries(one_line(error))))),
        ({
            let answer = read->0;
            &&& member(answer, "python"@) == Some(Json::Bool(false))
            &&& member(answer, "version"@) == Some(Json::Null)
            &&& member(answer, "pandas"@) == Some(Json::Bool(false))
            &&& member(answer, "sklearn"@) == Some(Json::Bool(false))
            &&& member(answer, "torch"@) == Some(Json::Bool(false))
            &&& member(answer, "timm"@) == Some(Json::Bool(false))
            &&& member(answer, "optuna"@) == Some(Json::Bool(false))
            &&& member(answer, "llama_cpp"@) == Some(Json::Bool(false))
            &&& member(answer, "error"@) == Some(Json::Text(one_line(error)))
        }),
{
    let entries = missing_entries(one_line(error));
    no_dependencies_is_an_object(error);
    short_texts();
    replacing_a_character(error, '\n', ' ');
    assert(plain(one_line(error)));
    reveal_strlit("python");
    reveal_strlit("version");
    reveal_strlit("pandas");
    reveal_strlit("sklearn");
    reveal_strlit("torch");
    reveal_strlit("timm");
    reveal_strlit("optuna");
    reveal_strlit("llama_cpp");
    reveal_strlit("error");
    assert(simple_entries(entries));
    assert("python"@[1] == 'y' && "pandas"@[1] == 'a' && "optuna"@[1] == 'p');
    assert("version"@[0] == 'v' && "sklearn"@[0] == 's');
    assert("torch"@[0] == 't' && "error"@[0] == 'e');
    assert forall|i: int| 0 <= i < 9 implies member(
        Json::Object(object_of(entries)),
        (#[trigger] entries[i]).0,
    ) == Some(entries[i].1) by {
        entry_stands(entries, i);
    }
    assert(entries[0].0 == "python"@);
    assert(entries[1].0 == "version"@);
    assert(entries[2].0 == "pandas"@);
    assert(entries[3].0 == "sklearn"@);
    assert(entries[4].0 == "torch"@);
    assert(entries[5].0 == "timm"@);
    assert(entries[6].0 == "optuna"@);
    assert(entries[7].0 == "llama_cpp"@);
    assert(entries[8].0 == "error"@);
}

/// Each script is in a file of its own name.
pub proof fn scripts_are_in_files_of_their_names()
    ensures
        Script::TabularProcessor.file() == "tabular_processor.py"@,
        Script::CheckGpu.file() == "check_gpu.py"@,
        Script::SystemInfo.file() == "system_info.py"@,
        Script::DatasetAnalyzer.file() == "dataset_analyzer.py"@,
        Script::LlmMonitor.file() == "llm_monitor.py"@,
{
}

/// The mark of a verbatim path is two backslashes, a question mark and a backslash. A path without
/// it is given to Python as it is; from any other the first mark is dropped, what stands before it
/// is kept, and the same is done with the rest.
pub proof fn marks_are_dropped_from_a_path(mark: Seq<char>, before: Seq<char>, rest: Seq<char>)
    requires
        mark == seq!['\\', '\\', '?', '\\'],
        forall|i: int|
            0 <= i < before.len() ==> !mark.is_prefix_of(#[trigger] (before + mark + rest).skip(i)),
    ensures
        without_mark(before + mark + rest) == before + without_mark(rest),
        !occurs(mark, rest) ==> without_mark(rest) == rest,
{
    reveal_strlit("\\\\?\\");
    assert(verbatim_mark() =~= mark);
    replaced_at_the_first_occurrence(before, mark, seq![], rest);
    assert(before + Seq::<char>::empty() + without_mark(rest) =~= before + without_mark(rest));
    if !occurs(mark, rest) {
        replaced_without_occurrence(rest, mark, seq![]);
    }
}

/// The tabular processor is given the script, the action and the file, then the parameters where
/// there are any, then the output where there is one: each behind its option and character for
/// character as it was chosen.
pub proof fn tabular_processor_gets_what_was_chosen(
    script: Seq<char>,
    action: Seq<char>,
    file: Seq<char>,
    params: Option<Seq<char>>,
    out: Option<Seq<char>>,
)
    ensures
        ({
            let args = tabular_args(script, action, file, params, out);
            let after_params = if params is Some {
                7int
            } else {
                5
            };
            &&& args[0] == script
            &&& args[1] == "--action"@
            &&& args[2] == action
            &&& args[3] == "--file"@
            &&& args[4] == file
            &&& params matches Some(given) ==> args[5] == "--params"@ && args[6] == given
            &&& out matches Some(given) ==> args[after_params] == "--out"@ && args[after_params + 1]
                == given
            &&& args.len() == after_params + if out is Some {
                2int
            } else {
                0
            }
        }),
{
}

/// Of what a script writes the user gets all but the white space round it; of an error the user
/// gets all, behind a word on what failed.
pub proof fn answer_is_the_output_without_white_space_round_it(
    before: Seq<char>,
    core: Seq<char>,
    after: Seq<char>,
    error: Seq<char>,
    failure: Seq<char>,
)
    requires
        forall|i: int| 0 <= i < before.len() ==> white(#[trigger] before[i]),
        forall|i: int| 0 <= i < after.len() ==> white(#[trigger] after[i]),
        core.len() == 0 || (!white(core[0]) && !white(core.last())),
    ensures
        answered(Ok(before + core + after), failure) == Ok::<Seq<char>, Seq<char>>(core),
        answered(Err(error), failure) == Err::<Seq<char>, Seq<char>>(failure + error),
{
    trimming_gives_the_core(before, core, after);
}

/// What replacing a character gives of two parts is what it gives of one and of the other.
proof fn replacing_part_by_part(a: Seq<char>, b: Seq<char>, from: char, to: Seq<char>)
    ensures
        replaced(a + b, seq![from], to) == replaced(a, seq![from], to) + replaced(
            b,
            seq![from],
            to,
        ),
    decreases a.len(),
{
    replacing_from_the_front(a, from, to);
    replacing_from_the_front(a + b, from, to);
    if a.len() == 0 {
        assert(a + b =~= b);
        assert(replaced(a, seq![from], to) =~= seq![]);
        assert(Seq::<char>::empty() + replaced(b, seq![from], to) =~= replaced(b, seq![from], to));
    } else {
        assert((a + b).skip(1) =~= a.skip(1) + b);
        replacing_part_by_part(a.skip(1), b, from, to);
        let head = if a[0] == from {
            to
        } else {
            seq![a[0]]
        };
        assert(head + (replaced(a.skip(1), seq![from], to) + replaced(b, seq![from], to)) =~= head
            + replaced(a.skip(1), seq![from], to) + replaced(b, seq![from], to));
    }
}

/// An error is quoted character by character: a quote gets a backslash in front of it, a line break
/// becomes a space, and every other character stays as it is.
pub proof fn error_is_quoted_character_by_character(a: Seq<char>, b: Seq<char>, c: char)
    ensures
        quoted_error(a + b) == quoted_error(a) + quoted_error(b),
        quoted_error(seq![]) == Seq::<char>::empty(),
        quoted_error(seq!['"']) == seq!['\\', '"'],
        quoted_error(seq!['\n']) == seq![' '],
        c != '"' && c != '\n' ==> quoted_error(seq![c]) == seq![c],
{
    short_texts();
    let escape = seq!['\\', '"'];
    replacing_part_by_part(a, b, '"', escape);
    replacing_part_by_part(
        replaced(a, seq!['"'], escape),
        replaced(b, seq!['"'], escape),
        '\n',
        seq![' '],
    );
    one_character_replaced('"', '"', escape);
    one_character_replaced('\n', '"', escape);
    one_character_replaced(c, '"', escape);
    one_character_replaced('\n', '\n', seq![' ']);
    one_character_replaced('\\', '\n', seq![' ']);
    one_character_replaced('"', '\n', seq![' ']);
    one_character_replaced(c, '\n', seq![' ']);
    replacing_part_by_part(seq!['\\'], seq!['"'], '\n', seq![' ']);
    assert(seq!['\\'] + seq!['"'] =~= escape);
}

/// One character is replaced or stays.
proof fn one_character_replaced(c: char, from: char, to: Seq<char>)
    ensures
        replaced(seq![c], seq![from], to) == if c == from {
            to
        } else {
            seq![c]
        },
{
    replacing_from_the_front(seq![c], from, to);
    let rest = seq![c].skip(1);
    replacing_from_the_front(rest, from, to);
    assert(rest =~= seq![]);
    assert(to + rest =~= to);
    assert(seq![c] + rest =~= seq![c]);
}

/// An error is put on one line character by character: a line break becomes a space, and every
/// other character stays as it is.
pub proof fn error_is_put_on_one_line(error: Seq<char>, i: int)
    requires
        0 <= i < error.len(),
    ensures
        one_line(error).len() == error.len(),
        one_line(error)[i] == if error[i] == '\n' {
            ' '
        } else {
            error[i]
        },
{
    short_texts();
    replacing_a_character(error, '\n', ' ');
}

/// Where Python cannot be run, the answer names no Python, no version and no package, and ends with
/// the error in quotes, whatever the error is.
pub proof fn missing_dependencies_are_answered(error: Seq<char>)
    ensures
        no_dependencies(error) == "{\"python\": false"@ + ", \"version\": null"@
            + ", \"pandas\": false"@ + ", \"sklearn\": false"@ + ", \"torch\": false"@
            + ", \"timm\": false"@ + ", \"optuna\": false"@ + ", \"llama_cpp\": false"@
            + ", \"error\": \""@ + quoted_error(error) + "\"}"@,
{
}

} // verus!
