//! What is decided around the system compiler that assembles and links the
//! generated text: its command line, its version, and how its run ended.

use vstd::prelude::*;
use vstd::string::*;

verus! {

/// The system compilers that can assemble and link the generated text.
#[derive(Debug, Copy, Clone, PartialEq, Eq, Structural)]
pub enum CompilerType {
    GCC,
}

impl CompilerType {
    pub open spec fn spec_name(self) -> Seq<char> {
        match self {
            CompilerType::GCC => "GCC"@,
        }
    }

    pub fn name(&self) -> (name: &'static str)
        ensures
            name@ == self.spec_name(),
    {
        match self {
            CompilerType::GCC => "GCC",
        }
    }
}

/// Why the generated text did not become a program.
#[derive(Debug, PartialEq, Eq)]
pub enum TBError {
    /// Reading, writing or starting a process failed; the text says how.
    IOError(String),
    CompilerNotFound(CompilerType),
    /// What a process printed is no text; the text says why.
    UnsupportedStringFormat(String),
    /// The compiler refused the text; this is what it printed.
    CompileFailed(String),
}

/// What a `TBError` stands for.
pub enum TBErrorView {
    IOError(Seq<char>),
    CompilerNotFound(CompilerType),
    UnsupportedStringFormat(Seq<char>),
    CompileFailed(Seq<char>),
}

impl View for TBError {
    type V = TBErrorView;

    open spec fn view(&self) -> TBErrorView {
        match self {
            TBError::IOError(text) => TBErrorView::IOError(text@),
            TBError::CompilerNotFound(compiler) => TBErrorView::CompilerNotFound(*compiler),
            TBError::UnsupportedStringFormat(text) => TBErrorView::UnsupportedStringFormat(text@),
            TBError::CompileFailed(text) => TBErrorView::CompileFailed(text@),
        }
    }
}

impl TBErrorView {
    /// The error in words.
    pub open spec fn message(self) -> Seq<char> {
        match self {
            TBErrorView::IOError(text) => "IO Error ("@ + text + ")"@,
            TBErrorView::CompilerNotFound(compiler) => "Compiler not found ("@ + compiler.spec_name()
                + ")"@,
            TBErrorView::UnsupportedStringFormat(text) => "Unsupported string format ("@ + text
                + ")"@,
            TBErrorView::CompileFailed(text) => "Compile failed ("@ + text + ")"@,
        }
    }
}

impl TBError {
    /// The error in words.
    pub fn message(&self) -> (text: String)
        ensures
            text@ == self@.message(),
    {
        let (mut text, detail) = match self {
            TBError::IOError(detail) => (String::from_str("IO Error ("), detail.as_str()),
            TBError::CompilerNotFound(compiler) => (
                String::from_str("Compiler not found ("),
                compiler.name(),
            ),
            TBError::UnsupportedStringFormat(detail) => (
                String::from_str("Unsupported string format ("),
                detail.as_str(),
            ),
            TBError::CompileFailed(detail) => (String::from_str("Compile failed ("), detail.as_str()),
        };
        text.append(detail);
        text.append(")");
        text
    }
}

/// The arguments of one run of the compiler: the file to compile, `-o`,
/// the file to write, and then each pair of extra arguments in the order
/// given, the first of a pair before the second.
pub open spec fn command_line(
    file_path: Seq<char>,
    target: Seq<char>,
    arguments: Seq<(Seq<char>, Seq<char>)>,
) -> Seq<Seq<char>> {
    seq![file_path, "-o"@, target] + Seq::new(
        2 * arguments.len(),
        |i: int|
            if i % 2 == 0 {
                arguments[i / 2].0
            } else {
                arguments[i / 2].1
            },
    )
}

/// The views of the texts of a sequence.
pub open spec fn texts_view(texts: Seq<String>) -> Seq<Seq<char>> {
    Seq::new(texts.len(), |i: int| texts[i]@)
}

/// The views of the pairs of texts of a sequence.
pub open spec fn pairs_view(pairs: Seq<(String, String)>) -> Seq<(Seq<char>, Seq<char>)> {
    Seq::new(pairs.len(), |i: int| (pairs[i].0@, pairs[i].1@))
}

/// The arguments of one run of the compiler.
pub fn compiler_arguments(file_path: &str, target: &str, arguments: &Vec<(String, String)>) -> (line:
    Vec<String>)
    ensures
        texts_view(line@) == command_line(file_path@, target@, pairs_view(arguments@)),
{
    let mut line: Vec<String> = Vec::new();
    line.push(file_path.to_owned());
    line.push("-o".to_owned());
    line.push(target.to_owned());
    let ghost pairs = pairs_view(arguments@);
    let mut index: usize = 0;
    while index < arguments.len()
        invariant
            index <= arguments.len(),
            pairs == pairs_view(arguments@),
            line@.len() == 3 + 2 * index,
            texts_view(line@) =~= command_line(file_path@, target@, pairs).take(3 + 2 * index),
        decreases arguments.len() - index,
    {
        let ghost before = texts_view(line@);
        line.push(arguments[index].0.clone());
        line.push(arguments[index].1.clone());
        proof {
            let whole = command_line(file_path@, target@, pairs);
            assert(whole[3 + 2 * index] == pairs[index as int].0);
            assert(whole[3 + 2 * index + 1] == pairs[index as int].1);
            assert(texts_view(line@) =~= before.push(pairs[index as int].0).push(
                pairs[index as int].1,
            ));
            assert(texts_view(line@) =~= whole.take(3 + 2 * (index + 1)));
        }
        index += 1;
    }
    assert(command_line(file_path@, target@, pairs).take(3 + 2 * index) =~= command_line(
        file_path@,
        target@,
        pairs,
    ));
    line
}

/// Where the first line of `text` ends: at its first line feed, or at its end.
pub open spec fn first_line_end(text: Seq<char>, from: int) -> int
    decreases text.len() - from,
{
    if from < 0 || from >= text.len() {
        text.len() as int
    } else if text[from] == '\n' {
        from
    } else {
        first_line_end(text, from + 1)
    }
}

/// The first line of `text` without its line ending: a line feed, or a
/// carriage return and a line feed.
pub open spec fn first_line(text: Seq<char>) -> Seq<char> {
    let end = first_line_end(text, 0);
    if 0 < end < text.len() && text[end - 1] == '\r' {
        text.take(end - 1)
    } else {
        text.take(end)
    }
}

/// The first line of what the compiler prints when asked for its version.
pub fn version_line(output: &str) -> (line: String)
    ensures
        line@ == first_line(output@),
{
    let length = output.unicode_len();
    let mut end: usize = 0;
    while end < length && output.get_char(end) != '\n'
        invariant
            length == output@.len(),
            end <= length,
            first_line_end(output@, 0) == first_line_end(output@, end as int),
        decreases length - end,
    {
        end += 1;
    }
    let stop = if 0 < end && end < length && output.get_char(end - 1) == '\r' {
        end - 1
    } else {
        end
    };
    let line = output.substring_char(0, stop);
    assert(output@.subrange(0, stop as int) =~= output@.take(stop as int));
    line.to_owned()
}

/// How a run of the compiler ended: well where the process succeeded;
/// otherwise with what it printed as the reason, or, where that is no
/// text, with the reason why it is none.
pub open spec fn outcome(succeeded: bool, printed: Result<Seq<char>, Seq<char>>) -> Result<
    (),
    TBErrorView,
> {
    if succeeded {
        Ok(())
    } else {
        match printed {
            Ok(message) => Err(TBErrorView::CompileFailed(message)),
            Err(reason) => Err(TBErrorView::UnsupportedStringFormat(reason)),
        }
    }
}

/// The view of what a process printed, or of why it is no text.
pub open spec fn printed_view(printed: Result<String, String>) -> Result<Seq<char>, Seq<char>> {
    match printed {
        Ok(message) => Ok(message@),
        Err(reason) => Err(reason@),
    }
}

/// How a run of the compiler ended.
pub fn compile_outcome(succeeded: bool, printed: Result<String, String>) -> (result: Result<
    (),
    TBError,
>)
    ensures
        match outcome(succeeded, printed_view(printed)) {
            Ok(()) => result is Ok,
            Err(error) => result matches Err(raised) && raised@ == error,
        },
{
    if succeeded {
        return Ok(());
    }
    match printed {
        Ok(message) => Err(TBError::CompileFailed(message)),
        Err(reason) => Err(TBError::UnsupportedStringFormat(reason)),
    }
}

} // verus!
