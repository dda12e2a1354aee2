//! The byte view of a file: the decimal value of each of its first bytes,
//! ten to a line.

use vstd::prelude::*;
use vstd::string::*;
use crate::ftype::{FileEntry, FileType};

verus! {

/// How many bytes the view shows at most.
pub const SHOWN_BYTES: usize = 500;

/// How many bytes stand on one line.
pub const PER_LINE: usize = 10;

pub open spec fn digit_char(d: int) -> char {
    seq!['0', '1', '2', '3', '4', '5', '6', '7', '8', '9'][d]
}

/// One byte as a space and its value in three decimal digits.
pub open spec fn byte_cell(b: u8) -> Seq<char> {
    seq![' ', digit_char(b as int / 100), digit_char((b as int / 10) % 10), digit_char(b as int % 10)]
}

/// The cells of the first `n` bytes, with a line break after every tenth.
pub open spec fn cells(s: Seq<u8>, n: nat) -> Seq<char>
    decreases n,
{
    if n == 0 || n > s.len() {
        Seq::empty()
    } else {
        cells(s, (n - 1) as nat) + byte_cell(s[n - 1]) + if n % 10 == 0 {
            seq!['\n']
        } else {
            Seq::empty()
        }
    }
}

/// `m` placeholders for missing bytes.
pub open spec fn nul_pad(m: nat) -> Seq<char>
    decreases m,
{
    if m == 0 {
        Seq::empty()
    } else {
        nul_pad((m - 1) as nat) + seq!['N', 'U', 'L', ' ']
    }
}

/// The whole view of `s`: the cells of its first bytes, and a last line
/// that is not full filled up with placeholders after a space.
pub open spec fn bytes_text(s: Seq<u8>) -> Seq<char> {
    let k: nat = if s.len() < 500 {
        s.len()
    } else {
        500
    };
    cells(s, k) + if k % 10 != 0 {
        seq![' '] + nul_pad((10 - k % 10) as nat)
    } else {
        Seq::empty()
    }
}

fn push_digit(s: &mut String, d: u8)
    requires
        d < 10,
    ensures
        final(s)@ == old(s)@.push(digit_char(d as int)),
{
    let digits = "0123456789";
    proof {
        reveal_strlit("0123456789");
        assert(digits@.subrange(d as int, d + 1) =~= seq![digit_char(d as int)]);
    }
    s.append(digits.substring_char(d as usize, d as usize + 1));
}

fn push_cell(s: &mut String, b: u8)
    ensures
        final(s)@ == old(s)@ + byte_cell(b),
{
    proof {
        reveal_strlit(" ");
    }
    s.append(" ");
    push_digit(s, b / 100);
    push_digit(s, (b / 10) % 10);
    push_digit(s, b % 10);
    proof {
        assert(final(s)@ =~= old(s)@ + byte_cell(b));
    }
}

pub fn get_bytes_string(stream: Vec<u8>) -> (r: String)
    ensures
        r@ == bytes_text(stream@),
{
    let mut s = String::new();
    let mut cnt: usize = 0;
    let mut i: usize = 0;
    while cnt < stream.len() && cnt < SHOWN_BYTES
        invariant
            cnt <= stream@.len(),
            cnt <= SHOWN_BYTES,
            i == cnt % PER_LINE,
            s@ == cells(stream@, cnt as nat),
        decreases SHOWN_BYTES - cnt,
    {
        push_cell(&mut s, stream[cnt]);
        i += 1;
        if i == PER_LINE {
            proof {
                reveal_strlit("\n");
            }
            s.append("\n");
            i = 0;
        }
        cnt += 1;
        proof {
            assert(s@ =~= cells(stream@, cnt as nat));
        }
    }
    let ghost body = s@;
    let mut pad: usize = 0;
    if i != 0 {
        pad = PER_LINE - i;
        proof {
            reveal_strlit(" ");
        }
        s.append(" ");
    }
    let ghost head = s@;
    let mut j: usize = 0;
    while j < pad
        invariant
            j <= pad,
            pad <= PER_LINE,
            s@ == head + nul_pad(j as nat),
        decreases pad - j,
    {
        proof {
            reveal_strlit("NUL ");
            assert("NUL "@ =~= seq!['N', 'U', 'L', ' ']);
        }
        s.append("NUL ");
        j += 1;
        proof {
            assert(s@ =~= head + nul_pad(j as nat));
        }
    }
    proof {
        if i == 0 {
            assert(nul_pad(0) =~= Seq::<char>::empty());
            assert(s@ =~= body);
        }
        assert(s@ =~= bytes_text(stream@));
    }
    s
}

/// The largest file that is previewed, in bytes.
pub const PREVIEW_LIMIT: u64 = 1048576;

/// What the preview panel shows for the selected entry.
#[derive(Debug, Clone, PartialEq, Eq)]
pub enum Preview {
    /// Nothing is selected.
    Nothing,
    /// The file is larger than the limit.
    TooLarge,
    /// Entries of this kind are not previewed.
    Unsupported,
    /// Read the file at this path and show its contents.
    Read(String),
}

/// The preview of an entry: regular files up to the limit are read.
pub fn what_to_preview(selected: Option<&FileEntry>) -> (r: Preview)
    ensures
        match selected {
            None => r == Preview::Nothing,
            Some(e) => if e.byte_size > PREVIEW_LIMIT {
                r == Preview::TooLarge
            } else if e.file_type == FileType::File || e.file_type == FileType::FileExecutable {
                r == Preview::Read(e.path)
            } else {
                r == Preview::Unsupported
            },
        },
{
    match selected {
        None => Preview::Nothing,
        Some(e) => {
            if e.byte_size > PREVIEW_LIMIT {
                Preview::TooLarge
            } else {
                match e.file_type {
                    FileType::File | FileType::FileExecutable => Preview::Read(e.path.clone()),
                    _ => Preview::Unsupported,
                }
            }
        },
    }
}

} // verus!
