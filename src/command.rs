//! Command invocations: the program, its arguments, an optional description
//! and input text, and how its output is consumed; plus the rules that decide
//! what a command's exit status and output mean.
use crate::error::InstallError;
use vstd::prelude::*;
use vstd::slice::slice_to_vec;
use vstd::string::*;
use vstd::utf8::{encode_scalar, encode_utf8};

verus! {

/// The character sequences that a vector of strings holds.
pub open spec fn strs(v: Seq<String>) -> Seq<Seq<char>> {
    v.map_values(|s: String| s@)
}

/// How the output of a spawned command is consumed.
#[derive(Clone, Debug, PartialEq, Eq)]
pub enum OutputMode {
    /// Merge error and output streams and log them line by line.
    Stream,
    /// Merge error and output streams and hand the text back.
    Capture,
    /// Keep the primary output only and store it in the file at this path.
    ToFile(String),
}

pub enum ModeView {
    Stream,
    Capture,
    ToFile(Seq<char>),
}

impl View for OutputMode {
    type V = ModeView;

    open spec fn view(&self) -> ModeView {
        match self {
            OutputMode::Stream => ModeView::Stream,
            OutputMode::Capture => ModeView::Capture,
            OutputMode::ToFile(p) => ModeView::ToFile(p@),
        }
    }
}

/// A single-use request to run one external program.
#[derive(Clone, Debug, PartialEq, Eq)]
pub struct Invocation {
    pub program: String,
    pub args: Vec<String>,
    pub description: Option<String>,
    pub stdin: Option<Vec<u8>>,
    pub mode: OutputMode,
}

pub struct InvocationView {
    pub program: Seq<char>,
    pub args: Seq<Seq<char>>,
    pub description: Option<Seq<char>>,
    pub stdin: Option<Seq<u8>>,
    pub mode: ModeView,
}

impl View for Invocation {
    type V = InvocationView;

    open spec fn view(&self) -> InvocationView {
        InvocationView {
            program: self.program@,
            args: strs(self.args@),
            description: match self.description {
                Some(d) => Some(d@),
                None => None,
            },
            stdin: match self.stdin {
                Some(b) => Some(b@),
                None => None,
            },
            mode: self.mode@,
        }
    }
}

/// A command whose output is streamed and logged, with no description.
pub open spec fn plain(program: Seq<char>, args: Seq<Seq<char>>) -> InvocationView {
    InvocationView { program, args, description: None, stdin: None, mode: ModeView::Stream }
}

/// A command whose output is streamed and logged, bracketed by notes naming `desc`.
pub open spec fn described(program: Seq<char>, args: Seq<Seq<char>>, desc: Seq<char>) -> InvocationView {
    InvocationView { program, args, description: Some(desc), stdin: None, mode: ModeView::Stream }
}

/// The program `program` with the arguments `args`.
pub fn command(program: &str, args: Vec<&str>) -> (r: Wrap)
    ensures
        r@ == (program@, args@.map_values(|a: &str| a@)),
{
    let mut w = Wrap::new(program);
    let mut i: usize = 0;
    while i < args.len()
        invariant
            0 <= i <= args@.len(),
            w@ == (program@, args@.subrange(0, i as int).map_values(|a: &str| a@)),
        decreases args@.len() - i,
    {
        let ghost before = w@;
        w = w.arg(args[i]);
        assert(args@.subrange(0, i + 1).map_values(|a: &str| a@) =~= before.1.push(args@[i as int]@));
        i = i + 1;
    }
    assert(args@.subrange(0, args@.len() as int) =~= args@);
    w
}

/// A program and its arguments, not yet bound to an output mode.
#[derive(Clone, Debug)]
pub struct Wrap {
    program: String,
    args: Vec<String>,
}

impl View for Wrap {
    type V = (Seq<char>, Seq<Seq<char>>);

    closed spec fn view(&self) -> (Seq<char>, Seq<Seq<char>>) {
        (self.program@, strs(self.args@))
    }
}

/// A program, its arguments and a human-readable description.
#[derive(Clone, Debug)]
pub struct WrapWithDescription {
    command: Wrap,
    description: String,
}

impl View for WrapWithDescription {
    type V = (Seq<char>, Seq<Seq<char>>, Seq<char>);

    closed spec fn view(&self) -> (Seq<char>, Seq<Seq<char>>, Seq<char>) {
        (self.command@.0, self.command@.1, self.description@)
    }
}

impl Wrap {
    /// The program `program` with no arguments yet.
    pub fn new(program: &str) -> (r: Wrap)
        ensures
            r@ == (program@, Seq::<Seq<char>>::empty()),
    {
        let r = Wrap { program: String::from_str(program), args: Vec::new() };
        assert(strs(r.args@) =~= Seq::<Seq<char>>::empty());
        r
    }

    /// The same command with `a` appended to its arguments.
    pub fn arg(self, a: &str) -> (r: Wrap)
        ensures
            r@ == (self@.0, self@.1.push(a@)),
    {
        let mut args = self.args;
        args.push(String::from_str(a));
        let r = Wrap { program: self.program, args };
        assert(strs(r.args@) =~= self@.1.push(a@));
        r
    }

    /// Attach a description, which brackets the run with start and done notes.
    pub fn desc(self, description: &str) -> (r: WrapWithDescription)
        ensures
            r@ == (self@.0, self@.1, description@),
    {
        WrapWithDescription { command: self, description: String::from_str(description) }
    }

    /// Stream and log the output; a nonzero exit fails.
    pub fn run(self) -> (r: Invocation)
        ensures
            r@ == plain(self@.0, self@.1),
    {
        Invocation {
            program: self.program,
            args: self.args,
            description: None,
            stdin: None,
            mode: OutputMode::Stream,
        }
    }

    /// Capture the merged output as text.
    pub fn to_string(self) -> (r: Invocation)
        ensures
            r@ == (InvocationView { mode: ModeView::Capture, ..plain(self@.0, self@.1) }),
    {
        Invocation {
            program: self.program,
            args: self.args,
            description: None,
            stdin: None,
            mode: OutputMode::Capture,
        }
    }
}

impl WrapWithDescription {
    /// Stream and log the output between start and done notes.
    pub fn run(self) -> (r: Invocation)
        ensures
            r@ == described(self@.0, self@.1, self@.2),
    {
        Invocation {
            program: self.command.program,
            args: self.command.args,
            description: Some(self.description),
            stdin: None,
            mode: OutputMode::Stream,
        }
    }

    /// As `run`, writing the bytes `stdin` to the child's input first.
    pub fn run_with_stdin(self, stdin: &[u8]) -> (r: Invocation)
        ensures
            r@ == (InvocationView { stdin: Some(stdin@), ..described(self@.0, self@.1, self@.2) }),
    {
        Invocation {
            program: self.command.program,
            args: self.command.args,
            description: Some(self.description),
            stdin: Some(slice_to_vec(stdin)),
            mode: OutputMode::Stream,
        }
    }

    /// Store the primary output in the file at `path`; empty output fails.
    pub fn to_file(self, path: &str) -> (r: Invocation)
        ensures
            r@ == (InvocationView {
                mode: ModeView::ToFile(path@),
                ..described(self@.0, self@.1, self@.2)
            }),
    {
        Invocation {
            program: self.command.program,
            args: self.command.args,
            description: Some(self.description),
            stdin: None,
            mode: OutputMode::ToFile(String::from_str(path)),
        }
    }
}

pub open spec fn start_text(desc: Seq<char>) -> Seq<char> {
    "--- starting  --- "@ + desc
}

pub open spec fn done_text(desc: Seq<char>) -> Seq<char> {
    "--- done --- "@ + desc
}

/// The note logged before a described command runs.
pub fn start_marker(desc: &str) -> (r: String)
    ensures
        r@ == start_text(desc@),
{
    String::from_str("--- starting  --- ").concat(desc)
}

/// The note logged after a described command succeeded.
pub fn done_marker(desc: &str) -> (r: String)
    ensures
        r@ == done_text(desc@),
{
    String::from_str("--- done --- ").concat(desc)
}

/// What an exit status means: zero succeeds, anything else is `CommandFailed`.
pub open spec fn exit_result(code: i32) -> Result<(), InstallError> {
    if code == 0 {
        Ok(())
    } else {
        Err(InstallError::CommandFailed(code))
    }
}

pub fn exit_outcome(code: i32) -> (r: Result<(), InstallError>)
    ensures
        r == exit_result(code),
{
    if code == 0 {
        Ok(())
    } else {
        Err(InstallError::CommandFailed(code))
    }
}

/// Whether `needle` occurs in `hay` starting at position `i`.
pub open spec fn matches_at(needle: Seq<char>, hay: Seq<char>, i: int) -> bool {
    0 <= i && i + needle.len() <= hay.len() && hay.subrange(i, i + needle.len()) == needle
}

/// Whether `needle` occurs as a contiguous run inside `hay`.
pub open spec fn occurs_in(needle: Seq<char>, hay: Seq<char>) -> bool {
    exists|i: int| #[trigger] matches_at(needle, hay, i)
}

/// Whether the text `hay` contains `needle`.
pub fn text_contains(hay: &str, needle: &str) -> (r: bool)
    ensures
        r == occurs_in(needle@, hay@),
{
    let n = hay.unicode_len();
    let m = needle.unicode_len();
    if m > n {
        return false;
    }
    let mut i: usize = 0;
    while i <= n - m
        invariant
            n == hay@.len(),
            m == needle@.len(),
            m <= n,
            0 <= i <= n - m + 1,
            forall|k: int| 0 <= k < i ==> !#[trigger] matches_at(needle@, hay@, k),
        decreases n - m + 1 - i,
    {
        let mut j: usize = 0;
        let mut same = true;
        while j < m
            invariant
                n == hay@.len(),
                m == needle@.len(),
                i + m <= n,
                0 <= j <= m,
                same == (forall|l: int| 0 <= l < j ==> hay@[i + l] == #[trigger] needle@[l]),
            decreases m - j,
        {
            if hay.get_char(i + j) != needle.get_char(j) {
                same = false;
            }
            j = j + 1;
        }
        if same {
            assert(hay@.subrange(i as int, i + m) =~= needle@);
            assert(matches_at(needle@, hay@, i as int));
            return true;
        }
        assert(!matches_at(needle@, hay@, i as int)) by {
            let l = choose|l: int| 0 <= l < m && hay@[i + l] != needle@[l];
            assert(hay@.subrange(i as int, i + m)[l] == hay@[i + l]);
        }
        i = i + 1;
    }
    assert forall|k: int| !#[trigger] matches_at(needle@, hay@, k) by {
        if 0 <= k && k + needle@.len() <= hay@.len() {
            assert(k < i);
        }
    }
    false
}

/// Encoding one more character appends its encoding.
pub proof fn lemma_encode_push(s: Seq<char>, c: char)
    ensures
        encode_utf8(s.push(c)) == encode_utf8(s) + encode_scalar(c as u32),
    decreases s.len(),
{
    if s.len() == 0 {
        assert(s.push(c).drop_first() =~= Seq::<char>::empty());
        assert(s.push(c)[0] == c);
        assert(encode_utf8(Seq::<char>::empty()) =~= Seq::<u8>::empty());
        assert(encode_utf8(s) =~= Seq::<u8>::empty());
        assert(encode_utf8(s.push(c)) =~= encode_utf8(s) + encode_scalar(c as u32));
    } else {
        assert(s.push(c).drop_first() =~= s.drop_first().push(c));
        assert(s.push(c)[0] == s[0]);
        lemma_encode_push(s.drop_first(), c);
        assert(encode_utf8(s.push(c)) =~= encode_utf8(s) + encode_scalar(c as u32));
    }
}

/// The UTF-8 encoding of `s`.
pub fn utf8_bytes(s: &str) -> (r: Vec<u8>)
    ensures
        r@ == encode_utf8(s@),
{
    let n = s.unicode_len();
    let mut out: Vec<u8> = Vec::new();
    let mut i: usize = 0;
    while i < n
        invariant
            n == s@.len(),
            0 <= i <= n,
            out@ == encode_utf8(s@.subrange(0, i as int)),
        decreases n - i,
    {
        let c = s.get_char(i);
        let v = c as u32;
        let ghost before = out@;
        if v <= 0x7F {
            out.push((v & 0x7F) as u8);
        } else if 0x80 <= v && v <= 0x7FF {
            out.push(0xC0 | ((v >> 6) & 0x1F) as u8);
            out.push(0x80 | (v & 0x3F) as u8);
        } else if 0x800 <= v && v <= 0xFFFF && !(0xD800 <= v && v <= 0xDFFF) {
            out.push(0xE0 | ((v >> 12) & 0x0F) as u8);
            out.push(0x80 | ((v >> 6) & 0x3F) as u8);
            out.push(0x80 | (v & 0x3F) as u8);
        } else {
            out.push(0xF0 | ((v >> 18) & 0x7) as u8);
            out.push(0x80 | ((v >> 12) & 0x3F) as u8);
            out.push(0x80 | ((v >> 6) & 0x3F) as u8);
            out.push(0x80 | (v & 0x3F) as u8);
        }
        proof {
            assert(s@.subrange(0, i + 1) =~= s@.subrange(0, i as int).push(c));
            lemma_encode_push(s@.subrange(0, i as int), c);
            assert(out@ =~= before + encode_scalar(c as u32));
        }
        i = i + 1;
    }
    assert(s@.subrange(0, n as int) =~= s@);
    out
}

} // verus!
