//! The scanner used by the build-time data extraction: finding the
//! brace-delimited block that follows a marker in upstream source text,
//! with string literals and their escapes stepped over.

use vstd::prelude::*;

verus! {

/// Why no block was returned.
#[derive(Clone, Copy, Debug, PartialEq, Eq, Structural)]
pub enum BlockError {
    /// A closing brace arrived before any block was open.
    UnmatchedClosingBrace,
    /// The input ended inside the block or before one opened.
    Unterminated,
}

/// What scanning from a state finds.
pub enum BlockScan {
    /// The block spans the characters from `lo` up to `hi`.
    Found {
        /// Index of the opening brace.
        lo: int,
        /// Index one past the closing brace.
        hi: int,
    },
    /// A closing brace arrived at depth zero.
    UnmatchedClose,
    /// The input ended first.
    Unterminated,
}

/// Scans `s` from position `i` under the given state: the current brace
/// depth, the delimiter of the string literal being stepped over, whether
/// the next literal character is escaped, and where the outermost brace
/// opened.
pub open spec fn brace_scan(
    s: Seq<char>,
    i: int,
    depth: int,
    in_string: Option<char>,
    escape: bool,
    block_start: Option<int>,
) -> BlockScan
    decreases s.len() - i,
{
    if i < 0 || i >= s.len() {
        BlockScan::Unterminated
    } else {
        let c = s[i];
        match in_string {
            Some(delim) => {
                if escape {
                    brace_scan(s, i + 1, depth, in_string, false, block_start)
                } else if c == '\\' {
                    brace_scan(s, i + 1, depth, in_string, true, block_start)
                } else if c == delim {
                    brace_scan(s, i + 1, depth, None, false, block_start)
                } else {
                    brace_scan(s, i + 1, depth, in_string, false, block_start)
                }
            },
            None => {
                if c == '\'' || c == '"' {
                    brace_scan(s, i + 1, depth, Some(c), false, block_start)
                } else if c == '{' {
                    if depth == 0 {
                        brace_scan(s, i + 1, 1, None, false, Some(i))
                    } else {
                        brace_scan(s, i + 1, depth + 1, None, false, block_start)
                    }
                } else if c == '}' {
                    if depth == 0 {
                        BlockScan::UnmatchedClose
                    } else if depth == 1 {
                        match block_start {
                            Some(lo) => BlockScan::Found { lo, hi: i + 1 },
                            None => BlockScan::UnmatchedClose,
                        }
                    } else {
                        brace_scan(s, i + 1, depth - 1, None, false, block_start)
                    }
                } else {
                    brace_scan(s, i + 1, depth, None, false, block_start)
                }
            },
        }
    }
}

/// Extracts the first brace-delimited block at or after `start`, string
/// literals and their escapes stepped over: exactly the characters from the
/// opening brace through its matching closing brace. A closing brace before
/// any block opens, or input that ends first, is an error.
pub fn extract_braced_block(contents: &str, start: usize) -> (r: Result<String, BlockError>)
    requires
        start <= contents@.len(),
    ensures
        match brace_scan(contents@, start as int, 0, None::<char>, false, None::<int>) {
            BlockScan::Found { lo, hi } => r matches Ok(block) && block@ == contents@.subrange(
                lo,
                hi,
            ),
            BlockScan::UnmatchedClose => r == Err::<String, _>(BlockError::UnmatchedClosingBrace),
            BlockScan::Unterminated => r == Err::<String, _>(BlockError::Unterminated),
        },
{
    let len = contents.unicode_len();
    let mut i = start;
    let mut depth: usize = 0;
    let mut in_string: Option<char> = None;
    let mut escape = false;
    let mut block_start: Option<usize> = None;

    while i < len
        invariant
            start <= i <= len,
            len == contents@.len(),
            depth <= i,
            depth > 0 ==> block_start is Some,
            in_string is None ==> escape == false,
            (block_start matches Some(lo) ==> lo < i),
            brace_scan(contents@, start as int, 0, None::<char>, false, None::<int>)
                == brace_scan(
                contents@,
                i as int,
                depth as int,
                in_string,
                escape,
                match block_start {
                    Some(lo) => Some(lo as int),
                    None => None::<int>,
                },
            ),
        decreases len - i,
    {
        let c = contents.get_char(i);
        match in_string {
            Some(delim) => {
                if escape {
                    escape = false;
                } else if c == '\\' {
                    escape = true;
                } else if c == delim {
                    in_string = None;
                }
            },
            None => {
                if c == '\'' || c == '"' {
                    in_string = Some(c);
                } else if c == '{' {
                    if depth == 0 {
                        block_start = Some(i);
                    }
                    depth = depth + 1;
                } else if c == '}' {
                    if depth == 0 {
                        return Err(BlockError::UnmatchedClosingBrace);
                    }
                    if depth == 1 {
                        let lo = match block_start {
                            Some(lo) => lo,
                            None => {
                                proof {
                                    assert(false);
                                }
                                0
                            },
                        };
                        let block = contents.substring_char(lo, i + 1);
                        return Ok(String::from_str(block));
                    }
                    depth = depth - 1;
                }
            },
        }
        i = i + 1;
    }
    Err(BlockError::Unterminated)
}

} // verus!
