use vstd::prelude::*;
use crate::text::{push_text, str_equals};

verus! {

/// How one of the child's standard streams is connected.
#[derive(Clone, Copy, Debug, PartialEq, Eq, Structural)]
pub enum StdioMode {
    /// A pipe between parent and child.
    Piped,
    /// Connected to the null device.
    Ignored,
    /// Shared with the parent.
    Inherited,
    /// A duplicate of a descriptor of the parent.
    RawDescriptor(i32),
}

/// The modes of the three standard streams.
#[derive(Clone, Copy, Debug, PartialEq, Eq, Structural)]
pub struct StdioTriple {
    pub stdin: StdioMode,
    pub stdout: StdioMode,
    pub stderr: StdioMode,
}

/// One entry of a per-stream stdio list.
pub enum StdioSlot {
    /// `null`, `undefined` or a value of no recognised kind.
    Unset,
    /// A mode token such as "pipe".
    Token(String),
    /// A descriptor number of the parent.
    Descriptor(i32),
}

/// The `stdio` option as the caller gave it.
pub enum StdioSpec {
    Unset,
    /// One token for all three streams.
    Single(String),
    /// An entry per stream: stdin, stdout, stderr; later entries are ignored.
    Slots(Vec<StdioSlot>),
}

/// A stdio token outside the accepted set.
pub struct InvalidStdio {
    pub token: String,
}

impl InvalidStdio {
    /// The user-facing text of the error.
    pub fn message(&self) -> (r: String)
        ensures
            r@ == "Invalid stdio \""@ + self.token@ + "\". Expected one of: pipe, ignore, inherit"@,
    {
        let mut m = String::from_str("Invalid stdio \"");
        push_text(&mut m, self.token.as_str());
        push_text(&mut m, "\". Expected one of: pipe, ignore, inherit");
        m
    }
}

/// The mode that a token names, if it is one of "pipe", "ignore", "inherit".
pub open spec fn token_mode(t: Seq<char>) -> Option<StdioMode> {
    if t == "pipe"@ {
        Some(StdioMode::Piped)
    } else if t == "ignore"@ {
        Some(StdioMode::Ignored)
    } else if t == "inherit"@ {
        Some(StdioMode::Inherited)
    } else {
        None
    }
}

pub open spec fn all_modes(m: StdioMode) -> StdioTriple {
    StdioTriple { stdin: m, stdout: m, stderr: m }
}

/// The mode of entry `i` of a stdio list, or the offending token.
pub open spec fn slot_result(slots: Seq<StdioSlot>, i: int) -> Result<StdioMode, Seq<char>> {
    if i >= slots.len() {
        Ok(StdioMode::Piped)
    } else {
        match slots[i] {
            StdioSlot::Unset => Ok(StdioMode::Piped),
            StdioSlot::Descriptor(fd) => Ok(StdioMode::RawDescriptor(fd)),
            StdioSlot::Token(t) => match token_mode(t@) {
                Some(m) => Ok(m),
                None => Err(t@),
            },
        }
    }
}

/// The three modes that a `stdio` option selects, or the first invalid token.
pub open spec fn stdio_result(spec: StdioSpec) -> Result<StdioTriple, Seq<char>> {
    match spec {
        StdioSpec::Unset => Ok(all_modes(StdioMode::Piped)),
        StdioSpec::Single(t) => match token_mode(t@) {
            Some(m) => Ok(all_modes(m)),
            None => Err(t@),
        },
        StdioSpec::Slots(v) => {
            let s = v@;
            match (slot_result(s, 0), slot_result(s, 1), slot_result(s, 2)) {
                (Err(t), _, _) => Err(t),
                (Ok(_), Err(t), _) => Err(t),
                (Ok(_), Ok(_), Err(t)) => Err(t),
                (Ok(a), Ok(b), Ok(c)) => Ok(StdioTriple { stdin: a, stdout: b, stderr: c }),
            }
        },
    }
}

/// Maps a mode token onto its mode.
pub fn str_to_stdio(input: &str) -> (r: Result<StdioMode, InvalidStdio>)
    ensures
        match r {
            Ok(m) => token_mode(input@) == Some(m),
            Err(e) => token_mode(input@) is None && e.token@ == input@,
        },
{
    if str_equals(input, "pipe") {
        Ok(StdioMode::Piped)
    } else if str_equals(input, "ignore") {
        Ok(StdioMode::Ignored)
    } else if str_equals(input, "inherit") {
        Ok(StdioMode::Inherited)
    } else {
        Err(InvalidStdio { token: input.to_owned() })
    }
}

fn slot_mode(slots: &Vec<StdioSlot>, i: usize) -> (r: Result<StdioMode, InvalidStdio>)
    ensures
        match r {
            Ok(m) => slot_result(slots@, i as int) == Ok::<StdioMode, Seq<char>>(m),
            Err(e) => slot_result(slots@, i as int) == Err::<StdioMode, Seq<char>>(e.token@),
        },
{
    if i >= slots.len() {
        return Ok(StdioMode::Piped);
    }
    match &slots[i] {
        StdioSlot::Unset => Ok(StdioMode::Piped),
        StdioSlot::Descriptor(fd) => Ok(StdioMode::RawDescriptor(*fd)),
        StdioSlot::Token(t) => str_to_stdio(t.as_str()),
    }
}

/// Resolves the `stdio` option into the modes of stdin, stdout and stderr.
pub fn get_stdio(spec: &StdioSpec) -> (r: Result<StdioTriple, InvalidStdio>)
    ensures
        match r {
            Ok(t) => stdio_result(*spec) == Ok::<StdioTriple, Seq<char>>(t),
            Err(e) => stdio_result(*spec) == Err::<StdioTriple, Seq<char>>(e.token@),
        },
{
    match spec {
        StdioSpec::Unset => Ok(StdioTriple {
            stdin: StdioMode::Piped,
            stdout: StdioMode::Piped,
            stderr: StdioMode::Piped,
        }),
        StdioSpec::Single(t) => {
            let m = str_to_stdio(t.as_str())?;
            Ok(StdioTriple { stdin: m, stdout: m, stderr: m })
        },
        StdioSpec::Slots(v) => {
            let a = slot_mode(v, 0)?;
            let b = slot_mode(v, 1)?;
            let c = slot_mode(v, 2)?;
            Ok(StdioTriple { stdin: a, stdout: b, stderr: c })
        },
    }
}

} // verus!
